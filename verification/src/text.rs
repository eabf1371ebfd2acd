//! Text primitives that the rest of the library is built on.

use vstd::prelude::*;
use vstd::utf8::{encode_utf8, encode_utf8_decode_utf8};

verus! {

/// Whether two string slices hold the same characters.
///
/// The slices are compared byte by byte; two texts have the same bytes
/// exactly when they have the same characters.
pub(crate) fn str_eq(a: &str, b: &str) -> (r: bool)
    ensures
        r == (a@ == b@),
{
    let x = a.as_bytes();
    let y = b.as_bytes();
    proof {
        encode_utf8_decode_utf8(a@);
        encode_utf8_decode_utf8(b@);
    }
    if x.len() != y.len() {
        return false;
    }
    let mut i: usize = 0;
    while i < x.len()
        invariant
            i <= x.len(),
            x.len() == y.len(),
            x@ == encode_utf8(a@),
            y@ == encode_utf8(b@),
            forall|j: int| 0 <= j < i ==> x@[j] == y@[j],
        decreases x.len() - i,
    {
        if x[i] != y[i] {
            return false;
        }
        i += 1;
    }
    assert(x@ =~= y@);
    true
}

/// Whether `s` begins with `prefix`.
///
/// Trusted: calls `str::starts_with` with a string pattern and claims that it
/// answers whether the pattern is a prefix of the slice.
#[verifier::external_body]
pub(crate) fn str_starts_with(s: &str, prefix: &str) -> (r: bool)
    ensures
        r == prefix@.is_prefix_of(s@),
{
    s.starts_with(prefix)
}

/// Whether `s` ends with `suffix`.
///
/// Trusted: calls `str::ends_with` with a string pattern and claims that it
/// answers whether the pattern is a suffix of the slice.
#[verifier::external_body]
pub(crate) fn str_ends_with(s: &str, suffix: &str) -> (r: bool)
    ensures
        r == suffix@.is_suffix_of(s@),
{
    s.ends_with(suffix)
}

/// Whether the character is white space: one of the 25 characters that have
/// Unicode's `White_Space` property.
pub open spec fn is_white_space(c: char) -> bool {
    let code = c as u32;
    ||| 0x09 <= code <= 0x0D
    ||| code == 0x20
    ||| code == 0x85
    ||| code == 0xA0
    ||| code == 0x1680
    ||| 0x2000 <= code <= 0x200A
    ||| code == 0x2028
    ||| code == 0x2029
    ||| code == 0x202F
    ||| code == 0x205F
    ||| code == 0x3000
}

/// The text without the white space at its start.
pub open spec fn trimmed_start(s: Seq<char>) -> Seq<char>
    decreases s.len(),
{
    if s.len() > 0 && is_white_space(s.first()) {
        trimmed_start(s.drop_first())
    } else {
        s
    }
}

/// The text without the white space at its end.
pub open spec fn trimmed_end(s: Seq<char>) -> Seq<char>
    decreases s.len(),
{
    if s.len() > 0 && is_white_space(s.last()) {
        trimmed_end(s.drop_last())
    } else {
        s
    }
}

/// The text without the white space at both ends.
pub open spec fn trimmed(s: Seq<char>) -> Seq<char> {
    trimmed_end(trimmed_start(s))
}

/// The pieces of the text between the occurrences of the separator. A text
/// with n separators has n + 1 pieces, some of which may be empty; the empty
/// text has one empty piece.
pub open spec fn split_on(s: Seq<char>, separator: char) -> Seq<Seq<char>>
    decreases s.len(),
{
    if s.len() == 0 {
        seq![Seq::empty()]
    } else {
        let pieces = split_on(s.drop_last(), separator);
        if s.last() == separator {
            pieces.push(Seq::empty())
        } else {
            pieces.drop_last().push(pieces.last().push(s.last()))
        }
    }
}

/// The text without leading and trailing white space.
///
/// Trusted: calls `str::trim` and claims that it removes, at both ends, the
/// characters with Unicode's `White_Space` property, which are those that
/// `is_white_space` lists, and nothing else.
#[verifier::external_body]
pub(crate) fn str_trim(s: &str) -> (r: String)
    ensures
        r@ == trimmed(s@),
{
    s.trim().to_string()
}

/// The pieces of the text between the occurrences of the separator.
///
/// Trusted: calls `str::split` with a character as the pattern and claims
/// that it yields the pieces between the occurrences of the character in
/// their order, empty pieces included, and one empty piece for the empty
/// text.
#[verifier::external_body]
pub(crate) fn str_split(s: &str, separator: char) -> (pieces: Vec<String>)
    ensures
        pieces.deep_view() == split_on(s@, separator),
{
    s.split(separator).map(|piece| piece.to_string()).collect()
}

/// A copy of an optional text.
pub(crate) fn clone_text(text: &Option<String>) -> (copy: Option<String>)
    ensures
        copy.deep_view() == text.deep_view(),
{
    match text {
        Some(t) => Some(t.clone()),
        None => None,
    }
}

/// A copy of a list of texts.
pub(crate) fn clone_texts(texts: &Vec<String>) -> (copy: Vec<String>)
    ensures
        copy.deep_view() == texts.deep_view(),
{
    let mut copy: Vec<String> = Vec::new();
    let mut i: usize = 0;
    while i < texts.len()
        invariant
            i <= texts.len(),
            copy.len() == i,
            forall|j: int| 0 <= j < i ==> (#[trigger] copy[j])@ == texts[j]@,
        decreases texts.len() - i,
    {
        copy.push(texts[i].clone());
        i += 1;
    }
    assert(copy.deep_view() =~= texts.deep_view());
    copy
}

} // verus!
