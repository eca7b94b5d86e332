//! Line-level text operations: trimming whitespace and joining lines.

use itertools::Itertools;
use vstd::prelude::*;

verus! {

/// Whether `c` has the Unicode `White_Space` property, which is how
/// `char::is_whitespace` and `str::trim` define whitespace.
pub open spec fn is_white_space(c: char) -> bool {
    let u = c as u32;
    (0x9 <= u && u <= 0xd) || u == 0x20 || u == 0x85 || u == 0xa0 || u == 0x1680 || (0x2000
        <= u && u <= 0x200a) || u == 0x2028 || u == 0x2029 || u == 0x202f || u == 0x205f || u
        == 0x3000
}

/// `s` with its leading whitespace removed.
pub open spec fn trimmed_start(s: Seq<char>) -> Seq<char>
    decreases s.len(),
{
    if s.len() > 0 && is_white_space(s[0]) {
        trimmed_start(s.drop_first())
    } else {
        s
    }
}

/// `s` with its trailing whitespace removed.
pub open spec fn trimmed_end(s: Seq<char>) -> Seq<char>
    decreases s.len(),
{
    if s.len() > 0 && is_white_space(s.last()) {
        trimmed_end(s.drop_last())
    } else {
        s
    }
}

/// `s` with leading and trailing whitespace removed.
pub open spec fn trimmed(s: Seq<char>) -> Seq<char> {
    trimmed_end(trimmed_start(s))
}

/// Whether every character of `s` is whitespace.
pub open spec fn all_white_space(s: Seq<char>) -> bool {
    forall|i: int| 0 <= i < s.len() ==> is_white_space(#[trigger] s[i])
}

/// The lines of `lines` with a newline between each two neighbours.
pub open spec fn joined(lines: Seq<Seq<char>>) -> Seq<char>
    decreases lines.len(),
{
    if lines.len() == 0 {
        Seq::empty()
    } else if lines.len() == 1 {
        lines[0]
    } else {
        joined(lines.drop_last()) + seq!['\n'] + lines.last()
    }
}

/// The views of a vector of strings.
pub open spec fn line_views(lines: Seq<String>) -> Seq<Seq<char>> {
    lines.map_values(|l: String| l@)
}

/// Relies on `str::trim`: leading and trailing whitespace removed.
#[verifier::external_body]
pub(crate) fn trim_line<'a>(s: &'a str) -> (r: &'a str)
    ensures
        r@ == trimmed(s@),
{
    s.trim()
}

/// Relies on `itertools::Itertools::join`: the lines, each written as it is,
/// with the separator `"\n"` between neighbours.
#[verifier::external_body]
pub(crate) fn join_lines(lines: &Vec<String>) -> (r: String)
    ensures
        r@ == joined(line_views(lines@)),
{
    lines.iter().join("\n")
}

proof fn lemma_trimmed_start_prefix(pad: Seq<char>, s: Seq<char>)
    requires
        all_white_space(pad),
    ensures
        trimmed_start(pad + s) == trimmed_start(s),
    decreases pad.len(),
{
    if pad.len() > 0 {
        assert((pad + s).drop_first() == pad.drop_first() + s);
        lemma_trimmed_start_prefix(pad.drop_first(), s);
    } else {
        assert(pad + s == s);
    }
}

proof fn lemma_trimmed_end_suffix(s: Seq<char>, pad: Seq<char>)
    requires
        all_white_space(pad),
    ensures
        trimmed_end(s + pad) == trimmed_end(s),
    decreases pad.len(),
{
    if pad.len() > 0 {
        assert((s + pad).drop_last() == s + pad.drop_last());
        assert((s + pad).last() == pad.last());
        lemma_trimmed_end_suffix(s, pad.drop_last());
    } else {
        assert(s + pad == s);
    }
}

/// Trimming a suffix of whitespace characters off a string and then
/// trimming the leading ones gives the same result either way round.
proof fn lemma_trimmed_start_suffix(s: Seq<char>, pad: Seq<char>)
    requires
        all_white_space(pad),
    ensures
        trimmed_end(trimmed_start(s + pad)) == trimmed_end(trimmed_start(s)),
    decreases s.len(),
{
    if s.len() > 0 && is_white_space(s[0]) {
        assert((s + pad).drop_first() == s.drop_first() + pad);
        lemma_trimmed_start_suffix(s.drop_first(), pad);
    } else if s.len() > 0 {
        lemma_trimmed_end_suffix(s, pad);
    } else {
        assert(s + pad == pad);
        lemma_trimmed_start_prefix(pad, Seq::empty());
        assert(pad + Seq::<char>::empty() == pad);
        lemma_trimmed_end_suffix(Seq::<char>::empty(), pad);
        assert(Seq::<char>::empty() + pad == pad);
    }
}

/// Whitespace around a line does not change what it trims to.
pub proof fn lemma_trimmed_padding(before: Seq<char>, s: Seq<char>, after: Seq<char>)
    requires
        all_white_space(before),
        all_white_space(after),
    ensures
        trimmed(before + s + after) == trimmed(s),
{
    assert(before + s + after == before + (s + after));
    lemma_trimmed_start_prefix(before, s + after);
    lemma_trimmed_start_suffix(s, after);
}

} // verus!
