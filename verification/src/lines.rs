//! Lines of text as the log panels show them: the last few, one below the other.

use crate::text::names_view;
use vstd::prelude::*;
use vstd::string::StringExecFns;

verus! {

/// The last `count` of `lines`, or all of them where there are no more than `count`.
pub open spec fn last_of<T>(lines: Seq<T>, count: nat) -> Seq<T> {
    if lines.len() <= count {
        lines
    } else {
        lines.subrange(lines.len() - count, lines.len() as int)
    }
}

/// `lines` in one text, a line feed between each two.
pub open spec fn joined(lines: Seq<Seq<char>>) -> Seq<char>
    decreases lines.len(),
{
    if lines.len() == 0 {
        seq![]
    } else if lines.len() == 1 {
        lines[0]
    } else {
        joined(lines.drop_last()) + seq!['\n'] + lines.last()
    }
}

/// The last `count` of `lines`, in their order.
pub fn last_lines(lines: Vec<String>, count: usize) -> (tail: Vec<String>)
    ensures
        tail@ == last_of(lines@, count as nat),
{
    if lines.len() > count {
        let mut lines = lines;
        let from: usize = lines.len() - count;
        lines.split_off(from)
    } else {
        lines
    }
}

/// `lines` in one text, a line feed between each two.
pub fn join_lines(lines: &Vec<String>) -> (text: String)
    ensures
        text@ == joined(names_view(lines@)),
{
    let mut text: String = String::new();
    let mut n: usize = 0;
    while n < lines.len()
        invariant
            n <= lines.len(),
            text@ == joined(names_view(lines@).subrange(0, n as int)),
        decreases lines.len() - n,
    {
        proof {
            let before = names_view(lines@).subrange(0, n as int);
            let now = names_view(lines@).subrange(0, n + 1);
            assert(now.drop_last() =~= before);
        }
        if n > 0 {
            text.push('\n');
        }
        text.append(lines[n].as_str());
        n += 1;
    }
    assert(names_view(lines@).subrange(0, n as int) =~= names_view(lines@));
    text
}

} // verus!
