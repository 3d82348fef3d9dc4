//! Integers written out in decimal digits.

use vstd::prelude::*;

verus! {

/// The character of the decimal digit `d`.
pub open spec fn digit(d: int) -> char {
    if d == 0 {
        '0'
    } else if d == 1 {
        '1'
    } else if d == 2 {
        '2'
    } else if d == 3 {
        '3'
    } else if d == 4 {
        '4'
    } else if d == 5 {
        '5'
    } else if d == 6 {
        '6'
    } else if d == 7 {
        '7'
    } else if d == 8 {
        '8'
    } else {
        '9'
    }
}

/// The decimal digits of `n`, most significant first, without leading zeros.
pub open spec fn decimal_nat(n: nat) -> Seq<char>
    decreases n,
{
    if n < 10 {
        seq![digit(n as int)]
    } else {
        decimal_nat(n / 10).push(digit((n % 10) as int))
    }
}

/// `i` in decimal, with a minus sign in front where it is negative.
pub open spec fn decimal(i: int) -> Seq<char> {
    if i < 0 {
        seq!['-'] + decimal_nat((-i) as nat)
    } else {
        decimal_nat(i as nat)
    }
}

/// The character of the decimal digit `d`.
pub fn digit_char(d: u32) -> (ch: char)
    requires
        d < 10,
    ensures
        ch == digit(d as int),
{
    if d == 0 {
        '0'
    } else if d == 1 {
        '1'
    } else if d == 2 {
        '2'
    } else if d == 3 {
        '3'
    } else if d == 4 {
        '4'
    } else if d == 5 {
        '5'
    } else if d == 6 {
        '6'
    } else if d == 7 {
        '7'
    } else if d == 8 {
        '8'
    } else {
        '9'
    }
}

/// `value` written in decimal, as `i32` is displayed.
pub fn i32_to_decimal(value: i32) -> (text: String)
    ensures
        text@ == decimal(value as int),
{
    let magnitude: u32 = if value < 0 {
        (-(value as i64)) as u32
    } else {
        value as u32
    };
    // The digits behind the first one, least significant first.
    let mut low: Vec<char> = Vec::new();
    let mut rest: u32 = magnitude;
    while rest >= 10
        invariant
            decimal_nat(magnitude as nat) == decimal_nat(rest as nat) + low@.reverse(),
        decreases rest,
    {
        let ch: char = digit_char(rest % 10);
        low.push(ch);
        rest = rest / 10;
    }
    let mut text: String = String::new();
    if value < 0 {
        text.push('-');
    }
    text.push(digit_char(rest));
    let ghost head = text@;
    let mut k: usize = low.len();
    while k > 0
        invariant
            k <= low.len(),
            text@ == head + low@.reverse().subrange(0, low.len() - k),
        decreases k,
    {
        k -= 1;
        text.push(low[k]);
    }
    text
}

} // verus!
