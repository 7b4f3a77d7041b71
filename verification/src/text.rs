//! Unicode white space, and the trimming that `str::trim` performs.

use vstd::prelude::*;

verus! {

/// The characters that carry the Unicode `White_Space` property.
pub open spec fn is_white_space(c: char) -> bool {
    ||| ('\u{9}' <= c && c <= '\u{d}')
    ||| c == ' '
    ||| c == '\u{85}'
    ||| c == '\u{a0}'
    ||| c == '\u{1680}'
    ||| ('\u{2000}' <= c && c <= '\u{200a}')
    ||| c == '\u{2028}'
    ||| c == '\u{2029}'
    ||| c == '\u{202f}'
    ||| c == '\u{205f}'
    ||| c == '\u{3000}'
}

/// `s` without its leading white space.
pub open spec fn trim_start_white_space(s: Seq<char>) -> Seq<char>
    decreases s.len(),
{
    if s.len() > 0 && is_white_space(s[0]) {
        trim_start_white_space(s.drop_first())
    } else {
        s
    }
}

/// `s` without its trailing white space.
pub open spec fn trim_end_white_space(s: Seq<char>) -> Seq<char>
    decreases s.len(),
{
    if s.len() > 0 && is_white_space(s.last()) {
        trim_end_white_space(s.drop_last())
    } else {
        s
    }
}

/// `s` without leading and trailing white space.
pub open spec fn trim_white_space(s: Seq<char>) -> Seq<char> {
    trim_end_white_space(trim_start_white_space(s))
}

/// Every character of `s` is white space (so the empty sequence is blank).
pub open spec fn is_blank(s: Seq<char>) -> bool {
    forall|i: int| 0 <= i < s.len() ==> is_white_space(#[trigger] s[i])
}

/// Trimming leaves nothing exactly when every character is white space.
pub proof fn lemma_trim_start_empty_iff_blank(s: Seq<char>)
    ensures
        (trim_start_white_space(s).len() == 0) == is_blank(s),
    decreases s.len(),
{
    if s.len() > 0 {
        if is_white_space(s[0]) {
            lemma_trim_start_empty_iff_blank(s.drop_first());
            if is_blank(s.drop_first()) {
                assert forall|i: int| 0 <= i < s.len() implies is_white_space(#[trigger] s[i]) by {
                    if i > 0 {
                        assert(s[i] == s.drop_first()[i - 1]);
                    }
                }
            } else {
                let j = choose|j: int| 0 <= j < s.drop_first().len()
                    && !is_white_space(#[trigger] s.drop_first()[j]);
                assert(s[j + 1] == s.drop_first()[j]);
            }
        } else {
            assert(!is_white_space(s[0]));
        }
    }
}

/// Trimming the end of a non-empty sequence whose first character is not
/// white space leaves at least that character.
pub proof fn lemma_trim_end_keeps_first(s: Seq<char>)
    requires
        s.len() > 0,
        !is_white_space(s[0]),
    ensures
        trim_end_white_space(s).len() > 0,
    decreases s.len(),
{
    if is_white_space(s.last()) {
        if s.len() == 1 {
            assert(s.last() == s[0]);
        } else {
            assert(s.drop_last()[0] == s[0]);
            lemma_trim_end_keeps_first(s.drop_last());
        }
    }
}

/// The trimmed sequence is empty exactly when `s` is blank.
pub proof fn lemma_trim_empty_iff_blank(s: Seq<char>)
    ensures
        (trim_white_space(s).len() == 0) == is_blank(s),
{
    lemma_trim_start_empty_iff_blank(s);
    let t = trim_start_white_space(s);
    lemma_trim_start_result(s);
    if t.len() > 0 {
        lemma_trim_end_keeps_first(t);
    }
}

/// What remains after trimming the start does not begin with white space.
pub proof fn lemma_trim_start_result(s: Seq<char>)
    ensures
        trim_start_white_space(s).len() > 0 ==> !is_white_space(trim_start_white_space(s)[0]),
    decreases s.len(),
{
    if s.len() > 0 && is_white_space(s[0]) {
        lemma_trim_start_result(s.drop_first());
    }
}

/// `str::trim`: the slice of `s` without leading and trailing white space,
/// where white space is the Unicode `White_Space` property.
#[verifier::external_body]
pub(crate) fn trim(s: &str) -> (t: &str)
    ensures
        t@ == trim_white_space(s@),
{
    s.trim()
}

} // verus!
