//! Removal of surrounding white space, as `str::trim` does it.

use crate::strings::{chars_to_string, str_to_chars};
use vstd::prelude::*;

verus! {

/// The characters with the Unicode `White_Space` property.
pub open spec fn is_white_space(c: char) -> bool {
    ('\u{9}' <= c && c <= '\u{d}') || c == ' ' || c == '\u{85}' || c == '\u{a0}' || c
        == '\u{1680}' || ('\u{2000}' <= c && c <= '\u{200a}') || c == '\u{2028}' || c == '\u{2029}'
        || c == '\u{202f}' || c == '\u{205f}' || c == '\u{3000}'
}

/// `char::is_whitespace`.
pub fn char_is_white_space(c: char) -> (r: bool)
    ensures
        r == is_white_space(c),
{
    ('\u{9}' <= c && c <= '\u{d}') || c == ' ' || c == '\u{85}' || c == '\u{a0}' || c
        == '\u{1680}' || ('\u{2000}' <= c && c <= '\u{200a}') || c == '\u{2028}' || c == '\u{2029}'
        || c == '\u{202f}' || c == '\u{205f}' || c == '\u{3000}'
}

/// `s` without white space at either end: the part from the first to the
/// last character that is not white space (empty when there is none).
pub open spec fn spec_trim(s: Seq<char>) -> Seq<char> {
    if forall|i: int| 0 <= i < s.len() ==> is_white_space(#[trigger] s[i]) {
        Seq::empty()
    } else {
        let first = choose|i: int|
            0 <= i < s.len() && !is_white_space(s[i]) && forall|j: int|
                0 <= j < i ==> is_white_space(#[trigger] s[j]);
        let last = choose|i: int|
            0 <= i < s.len() && !is_white_space(s[i]) && forall|j: int|
                i < j < s.len() ==> is_white_space(#[trigger] s[j]);
        s.subrange(first, last + 1)
    }
}

/// `str::trim`, returning an owned string.
pub fn trim(s: &str) -> (r: String)
    ensures
        r@ == spec_trim(s@),
{
    let chars = str_to_chars(s);
    let n = chars.len();
    let mut first: usize = 0;
    while first < n && char_is_white_space(chars[first])
        invariant
            first <= n,
            n == chars@.len(),
            chars@ == s@,
            forall|j: int| 0 <= j < first ==> is_white_space(#[trigger] chars@[j]),
        decreases n - first,
    {
        first = first + 1;
    }
    if first == n {
        let r = String::new();
        assert(r@ =~= spec_trim(s@));
        return r;
    }
    let mut last: usize = n - 1;
    while char_is_white_space(chars[last])
        invariant
            first <= last < n,
            n == chars@.len(),
            chars@ == s@,
            !is_white_space(chars@[first as int]),
            forall|j: int| last < j < n ==> is_white_space(#[trigger] chars@[j]),
        decreases last,
    {
        last = last - 1;
    }
    let r = chars_to_string(&chars, first, last + 1);
    proof {
        let f = choose|i: int|
            0 <= i < s@.len() && !is_white_space(s@[i]) && forall|j: int|
                0 <= j < i ==> is_white_space(#[trigger] s@[j]);
        let l = choose|i: int|
            0 <= i < s@.len() && !is_white_space(s@[i]) && forall|j: int|
                i < j < s@.len() ==> is_white_space(#[trigger] s@[j]);
        assert(!is_white_space(s@[first as int]));
        assert(!is_white_space(s@[last as int]));
        if f < first {
            assert(is_white_space(s@[f]));
        }
        if f > first {
            assert(is_white_space(s@[first as int]));
        }
        if l < last {
            assert(is_white_space(s@[last as int]));
        }
        if l > last {
            assert(is_white_space(s@[l]));
        }
        assert(r@ =~= spec_trim(s@));
    }
    r
}

} // verus!
