//! The environment file of the node: lines of `KEY=value # comment`, in
//! groups that a divider line and a title line open.

use crate::entity::Env;
use crate::text::{chars_of, string_of};
use vstd::prelude::*;

verus! {

/// What opens a divider line.
pub const DIVIDER: &'static str = "# ----";

/// What opens the title line behind a divider, before the name of the group.
pub const TITLE_MARK: &'static str = "# ";

/// `ch` is white space: one of the characters that Unicode gives the
/// property `White_Space`.
pub open spec fn is_space(ch: char) -> bool {
    let code = ch as u32;
    ||| 0x09 <= code <= 0x0D
    ||| code == 0x20
    ||| code == 0x85
    ||| code == 0xA0
    ||| code == 0x1680
    ||| 0x2000 <= code <= 0x200A
    ||| code == 0x2028
    ||| code == 0x2029
    ||| code == 0x202F
    ||| code == 0x205F
    ||| code == 0x3000
}

/// `text` without the white space at its start.
pub open spec fn trim_start(text: Seq<char>) -> Seq<char>
    decreases text.len(),
{
    if text.len() > 0 && is_space(text[0]) {
        trim_start(text.drop_first())
    } else {
        text
    }
}

/// `text` without the white space at its end.
pub open spec fn trim_end(text: Seq<char>) -> Seq<char>
    decreases text.len(),
{
    if text.len() > 0 && is_space(text.last()) {
        trim_end(text.drop_last())
    } else {
        text
    }
}

/// `text` without the white space at its start and at its end.
pub open spec fn trim(text: Seq<char>) -> Seq<char> {
    trim_end(trim_start(text))
}

/// The place of the first `ch` in `text`, or the length of `text` where it holds none.
pub open spec fn position(text: Seq<char>, ch: char) -> int
    decreases text.len(),
{
    if text.len() == 0 || text[0] == ch {
        0
    } else {
        1 + position(text.drop_first(), ch)
    }
}

/// `text` cut in two at its first `ch`, which belongs to neither part.
pub open spec fn split_once(text: Seq<char>, ch: char) -> Option<(Seq<char>, Seq<char>)> {
    let at = position(text, ch);
    if at < text.len() {
        Some((text.take(at), text.skip(at + 1)))
    } else {
        None
    }
}

/// `text` with `prefix` taken off its start as often as it stands there.
pub open spec fn strip_all(text: Seq<char>, prefix: Seq<char>) -> Seq<char>
    decreases text.len(),
{
    if prefix.len() > 0 && prefix.is_prefix_of(text) {
        strip_all(text.skip(prefix.len() as int), prefix)
    } else {
        text
    }
}

/// Mathematical model of an [`Env`].
pub struct EnvModel {
    pub id: Seq<char>,
    pub value: Seq<char>,
    pub info: Seq<char>,
    pub group: Seq<char>,
}

/// The model of a variable.
pub open spec fn env_view(env: Env) -> EnvModel {
    EnvModel { id: env.id@, value: env.value@, info: env.info@, group: env.group@ }
}

/// The models of a list of variables.
pub open spec fn envs_view(envs: Seq<Env>) -> Seq<EnvModel> {
    envs.map_values(|env: Env| env_view(env))
}

/// The variable that an assignment line gives, with `key` before its `=`
/// and `rest` behind it: the value ends at the first `#`, and what follows
/// that is the comment.
pub open spec fn assignment(key: Seq<char>, rest: Seq<char>, group: Seq<char>) -> EnvModel {
    match split_once(rest, '#') {
        Some((value, comment)) => EnvModel {
            id: trim(key),
            value: trim(value),
            info: trim(comment),
            group,
        },
        None => EnvModel { id: trim(key), value: trim(rest), info: seq![], group },
    }
}

/// The group that is current behind a divider at line `at`: named by the
/// line that follows where that is a title line, else the group as before.
pub open spec fn group_after(lines: Seq<Seq<char>>, at: int, group: Seq<char>) -> Seq<char> {
    if TITLE_MARK@.is_prefix_of(trim(lines[at + 1])) {
        strip_all(lines[at + 1], TITLE_MARK@)
    } else {
        group
    }
}

/// The variables that the lines from `at` on give, where `group` is the
/// current group. A divider takes the line behind it with it. Blank lines,
/// comment lines and lines without `=` give nothing.
pub open spec fn parse_from(lines: Seq<Seq<char>>, at: int, group: Seq<char>) -> Seq<EnvModel>
    decreases lines.len() - at,
{
    if at < 0 || at >= lines.len() {
        seq![]
    } else {
        let line = trim(lines[at]);
        if DIVIDER@.is_prefix_of(line) {
            if at + 1 < lines.len() {
                parse_from(lines, at + 2, group_after(lines, at, group))
            } else {
                seq![]
            }
        } else if line.len() == 0 || line[0] == '#' {
            parse_from(lines, at + 1, group)
        } else {
            match split_once(line, '=') {
                Some((key, rest)) => seq![assignment(key, rest, group)] + parse_from(
                    lines,
                    at + 1,
                    group,
                ),
                None => parse_from(lines, at + 1, group),
            }
        }
    }
}

/// The variables that an environment file of these lines gives.
pub open spec fn parse_lines(lines: Seq<Seq<char>>) -> Seq<EnvModel> {
    parse_from(lines, 0, seq![])
}

/// Whether `ch` is white space.
pub fn is_space_char(ch: char) -> (space: bool)
    ensures
        space == is_space(ch),
{
    let code: u32 = ch as u32;
    (0x09 <= code && code <= 0x0D) || code == 0x20 || code == 0x85 || code == 0xA0 || code
        == 0x1680 || (0x2000 <= code && code <= 0x200A) || code == 0x2028 || code == 0x2029
        || code == 0x202F || code == 0x205F || code == 0x3000
}

/// The part of `text` from `from` up to `to`.
fn part(text: &Vec<char>, from: usize, to: usize) -> (piece: Vec<char>)
    requires
        from <= to <= text.len(),
    ensures
        piece@ == text@.subrange(from as int, to as int),
{
    let mut piece: Vec<char> = Vec::new();
    let mut n: usize = from;
    while n < to
        invariant
            from <= n <= to <= text.len(),
            piece@ == text@.subrange(from as int, n as int),
        decreases to - n,
    {
        piece.push(text[n]);
        n += 1;
    }
    piece
}

/// `text` without the white space at its start and at its end.
pub fn trimmed(text: &Vec<char>) -> (inner: Vec<char>)
    ensures
        inner@ == trim(text@),
{
    let len: usize = text.len();
    let mut from: usize = 0;
    assert(text@.skip(0) =~= text@);
    while from < len && is_space_char(text[from])
        invariant
            from <= len == text.len(),
            trim_start(text@) == trim_start(text@.skip(from as int)),
        decreases len - from,
    {
        assert(text@.skip(from as int).drop_first() =~= text@.skip(from + 1));
        from += 1;
    }
    let mut to: usize = len;
    while to > from && is_space_char(text[to - 1])
        invariant
            from <= to <= len == text.len(),
            trim(text@) == trim_end(text@.subrange(from as int, to as int)),
        decreases to,
    {
        assert(text@.subrange(from as int, to as int).drop_last() =~= text@.subrange(
            from as int,
            to - 1,
        ));
        to -= 1;
    }
    part(text, from, to)
}

/// Whether `text` begins with `prefix`.
pub fn has_prefix(text: &Vec<char>, prefix: &Vec<char>) -> (begins: bool)
    ensures
        begins == prefix@.is_prefix_of(text@),
{
    if prefix.len() > text.len() {
        return false;
    }
    let mut n: usize = 0;
    while n < prefix.len()
        invariant
            n <= prefix.len() <= text.len(),
            forall|i: int| 0 <= i < n ==> prefix@[i] == text@[i],
        decreases prefix.len() - n,
    {
        if prefix[n] != text[n] {
            return false;
        }
        n += 1;
    }
    true
}

/// The place of the first `ch` in `text`, or the length of `text` where it holds none.
pub fn find(text: &Vec<char>, ch: char) -> (at: usize)
    ensures
        at == position(text@, ch),
        at <= text.len(),
{
    let mut at: usize = 0;
    assert(text@.skip(0) =~= text@);
    while at < text.len() && text[at] != ch
        invariant
            at <= text.len(),
            position(text@, ch) == at + position(text@.skip(at as int), ch),
        decreases text.len() - at,
    {
        assert(text@.skip(at as int).drop_first() =~= text@.skip(at + 1));
        at += 1;
    }
    at
}

/// `text` with `prefix` taken off its start as often as it stands there.
pub fn stripped(text: &Vec<char>, prefix: &Vec<char>) -> (rest: Vec<char>)
    ensures
        rest@ == strip_all(text@, prefix@),
{
    let mut rest: Vec<char> = part(text, 0, text.len());
    assert(rest@ =~= text@);
    if prefix.len() == 0 {
        return rest;
    }
    while has_prefix(&rest, prefix)
        invariant
            prefix.len() > 0,
            strip_all(text@, prefix@) == strip_all(rest@, prefix@),
        decreases rest.len(),
    {
        let shorter: Vec<char> = part(&rest, prefix.len(), rest.len());
        rest = shorter;
    }
    rest
}

/// The variable that an assignment line gives, with `key` before its `=` and `rest` behind it.
fn assigned(key: &Vec<char>, rest: &Vec<char>, group: &Vec<char>) -> (env: Env)
    ensures
        env_view(env) == assignment(key@, rest@, group@),
{
    let hash: usize = find(rest, '#');
    let id: String = string_of(&trimmed(key));
    if hash < rest.len() {
        let value: Vec<char> = part(rest, 0, hash);
        let comment: Vec<char> = part(rest, hash + 1, rest.len());
        Env {
            id,
            value: string_of(&trimmed(&value)),
            info: string_of(&trimmed(&comment)),
            group: string_of(group),
        }
    } else {
        Env { id, value: string_of(&trimmed(rest)), info: String::new(), group: string_of(group) }
    }
}

/// Reads the variables out of the lines of an environment file, in the
/// order of the file, each with the group it stands in.
pub fn parse_env_lines(lines: &Vec<String>) -> (envs: Vec<Env>)
    ensures
        envs_view(envs@) == parse_lines(lines@.map_values(|line: String| line@)),
{
    let ghost texts = lines@.map_values(|line: String| line@);
    let divider: Vec<char> = chars_of(DIVIDER);
    let mark: Vec<char> = chars_of(TITLE_MARK);
    let mut envs: Vec<Env> = Vec::new();
    let mut group: Vec<char> = Vec::new();
    let mut at: usize = 0;
    while at < lines.len()
        invariant
            at <= lines.len(),
            texts == lines@.map_values(|line: String| line@),
            divider@ == DIVIDER@,
            mark@ == TITLE_MARK@,
            envs_view(envs@) + parse_from(texts, at as int, group@) == parse_lines(texts),
        decreases lines.len() - at,
    {
        let line: Vec<char> = trimmed(&chars_of(lines[at].as_str()));
        if has_prefix(&line, &divider) {
            if at + 1 < lines.len() {
                let title: Vec<char> = chars_of(lines[at + 1].as_str());
                if has_prefix(&trimmed(&title), &mark) {
                    group = stripped(&title, &mark);
                }
                at += 2;
            } else {
                at += 1;
            }
        } else if line.len() == 0 || line[0] == '#' {
            at += 1;
        } else {
            let equals: usize = find(&line, '=');
            if equals < line.len() {
                let key: Vec<char> = part(&line, 0, equals);
                let rest: Vec<char> = part(&line, equals + 1, line.len());
                let env: Env = assigned(&key, &rest, &group);
                envs.push(env);
            }
            at += 1;
        }
    }
    envs
}

} // verus!
