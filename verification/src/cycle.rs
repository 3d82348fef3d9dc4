//! Positions on a ring: arithmetic modulo the length of a row of items.

use vstd::arithmetic::div_mod::{
    lemma_add_mod_noop_right, lemma_mod_add_multiples_vanish, lemma_mod_self_0, lemma_small_mod,
};
use vstd::prelude::*;

verus! {

/// The position `i` taken modulo the length `len` of a row.
pub open spec fn wrapped(i: int, len: nat) -> nat {
    (i % (len as int)) as nat
}

/// A wrapped position lies in the row, and a position in the row wraps to itself.
pub proof fn lemma_wrapped_range(i: int, len: nat)
    requires
        len > 0,
    ensures
        wrapped(i, len) < len,
        0 <= i < len ==> wrapped(i, len) == i,
{
    if 0 <= i < len {
        lemma_small_mod(i as nat, len);
    }
}

/// One place after a wrapped position is the next position, or the first
/// after the last.
pub proof fn lemma_wrapped_forward(i: int, len: nat)
    requires
        len > 0,
    ensures
        wrapped(i + 1, len) == wrapped(wrapped(i, len) as int + 1, len),
        wrapped(i + 1, len) as int == if wrapped(i, len) + 1 == len {
            0
        } else {
            wrapped(i, len) as int + 1
        },
{
    let at = wrapped(i, len) as int;
    lemma_add_mod_noop_right(1, i, len as int);
    if at + 1 == len {
        lemma_mod_self_0(len as int);
    } else {
        lemma_small_mod((at + 1) as nat, len);
    }
}

/// One place before a wrapped position is the position before, or the last
/// before the first.
pub proof fn lemma_wrapped_backward(i: int, len: nat)
    requires
        len > 0,
    ensures
        wrapped(i - 1, len) == wrapped(wrapped(i, len) as int - 1, len),
        wrapped(i - 1, len) as int == if wrapped(i, len) == 0 {
            len as int - 1
        } else {
            wrapped(i, len) as int - 1
        },
{
    let at = wrapped(i, len) as int;
    lemma_add_mod_noop_right(-1, i, len as int);
    if at == 0 {
        lemma_mod_add_multiples_vanish(-1, len as int);
        lemma_small_mod((len - 1) as nat, len);
    } else {
        lemma_small_mod((at - 1) as nat, len);
    }
}

/// A whole turn around the row, either way, ends where it began.
pub proof fn lemma_wrapped_turn(i: int, len: nat)
    requires
        len > 0,
    ensures
        wrapped(i + len, len) == wrapped(i, len),
        wrapped(i - len, len) == wrapped(i, len),
{
    lemma_mod_add_multiples_vanish(i, len as int);
    lemma_mod_add_multiples_vanish(i - len, len as int);
}

} // verus!
