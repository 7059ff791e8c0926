//! Blankness of text: what counts as white space, and what trimming leaves.

use vstd::prelude::*;

verus! {

/// The characters that carry the Unicode property `White_Space`: the controls
/// from tab to carriage return, the space, next line, the no-break spaces, the
/// Ogham space mark, the spaces from en quad to hair space, the line and
/// paragraph separators, the medium mathematical space and the ideographic space.
pub open spec fn is_white_space(c: char) -> bool {
    let n = c as u32;
    ||| 0x0009 <= n <= 0x000D
    ||| n == 0x0020
    ||| n == 0x0085
    ||| n == 0x00A0
    ||| n == 0x1680
    ||| 0x2000 <= n <= 0x200A
    ||| n == 0x2028
    ||| n == 0x2029
    ||| n == 0x202F
    ||| n == 0x205F
    ||| n == 0x3000
}

/// A text is blank when it holds nothing but white space; the empty text is blank.
pub open spec fn is_blank_text(s: Seq<char>) -> bool {
    forall|i: int| 0 <= i < s.len() ==> is_white_space(#[trigger] s[i])
}

/// `r` is the run of `s` from `a` up to `b`, everything before `a` and from `b` on
/// is white space, and the run, if it has any character, neither starts nor ends
/// with white space.
pub open spec fn trims_at(s: Seq<char>, r: Seq<char>, a: int, b: int) -> bool {
    &&& 0 <= a <= b <= s.len()
    &&& r == s.subrange(a, b)
    &&& forall|i: int| 0 <= i < a ==> is_white_space(#[trigger] s[i])
    &&& forall|i: int| b <= i < s.len() ==> is_white_space(#[trigger] s[i])
    &&& a < b ==> !is_white_space(s[a]) && !is_white_space(s[b - 1])
}

/// `r` is `s` without its leading and trailing white space.
pub open spec fn is_trim_of(r: Seq<char>, s: Seq<char>) -> bool {
    exists|a: int, b: int| trims_at(s, r, a, b)
}

/// `str::trim` of the standard library. Believed, not proved: the slice that it
/// returns is the argument without its leading and trailing white space, where
/// white space is the Unicode property `White_Space`, as `is_white_space`
/// lists it.
pub assume_specification[ str::trim ](s: &str) -> (r: &str)
    ensures
        is_trim_of(r@, s@),
;

/// Trimming leaves nothing exactly when the text is blank.
pub proof fn lemma_trim_empty_iff_blank(s: Seq<char>, r: Seq<char>)
    requires
        is_trim_of(r, s),
    ensures
        r.len() == 0 <==> is_blank_text(s),
{
    let (a, b) = choose|a: int, b: int| trims_at(s, r, a, b);
    if a < b {
        assert(!is_white_space(s[a]));
    }
}

/// Trimming is a function of the text: two trimmed forms of one text are equal.
pub proof fn lemma_trim_is_unique(s: Seq<char>, r1: Seq<char>, r2: Seq<char>)
    requires
        is_trim_of(r1, s),
        is_trim_of(r2, s),
    ensures
        r1 == r2,
{
    let (a1, b1) = choose|a: int, b: int| trims_at(s, r1, a, b);
    let (a2, b2) = choose|a: int, b: int| trims_at(s, r2, a, b);
    if a1 < b1 && a2 < b2 {
        assert(!is_white_space(s[a1]) && !is_white_space(s[a2]));
        assert(!is_white_space(s[b1 - 1]) && !is_white_space(s[b2 - 1]));
        assert(a1 == a2 && b1 == b2);
    } else if a1 < b1 {
        assert(!is_white_space(s[a1]));
        assert(false);
    } else if a2 < b2 {
        assert(!is_white_space(s[a2]));
        assert(false);
    } else {
        assert(r1 =~= r2);
    }
}

/// Whether `s` holds nothing but white space.
pub fn text_is_blank(s: &str) -> (r: bool)
    ensures
        r == is_blank_text(s@),
{
    let t = s.trim();
    proof {
        lemma_trim_empty_iff_blank(s@, t@);
    }
    t.is_empty()
}

} // verus!
