//! The std text routines that release matching needs, each behind a contract.

use vstd::prelude::*;

verus! {

/// The lowercase form of a text as `str::to_lowercase` gives it, by the
/// Unicode tables of the standard library.
pub uninterp spec fn lowercase(text: Seq<char>) -> Seq<char>;

/// Whether `needle` occurs in `hay` as a run of consecutive characters.
pub open spec fn is_substring(hay: Seq<char>, needle: Seq<char>) -> bool {
    exists|i: int|
        0 <= i <= hay.len() - needle.len() && #[trigger] hay.subrange(i, i + needle.len())
            == needle
}

/// Whether `hay` ends with `suffix`.
pub open spec fn has_suffix(hay: Seq<char>, suffix: Seq<char>) -> bool {
    suffix.len() <= hay.len() && hay.subrange(hay.len() - suffix.len(), hay.len() as int)
        == suffix
}

/// Whether `hay` starts with `prefix`.
pub open spec fn has_prefix(hay: Seq<char>, prefix: Seq<char>) -> bool {
    prefix.len() <= hay.len() && hay.subrange(0, prefix.len() as int) == prefix
}

/// Calls `str::to_lowercase`.
#[verifier::external_body]
pub(crate) fn to_lowercase(text: &str) -> (lower: String)
    ensures
        lower@ == lowercase(text@),
{
    text.to_lowercase()
}

/// Calls `str::contains` with a string slice as the pattern: whether the
/// pattern occurs in the text.
#[verifier::external_body]
pub(crate) fn str_contains(hay: &str, needle: &str) -> (found: bool)
    ensures
        found == is_substring(hay@, needle@),
{
    hay.contains(needle)
}

/// Calls `str::ends_with` with a string slice as the pattern.
#[verifier::external_body]
pub(crate) fn str_ends_with(hay: &str, suffix: &str) -> (found: bool)
    ensures
        found == has_suffix(hay@, suffix@),
{
    hay.ends_with(suffix)
}

/// Calls `str::strip_prefix` with a string slice as the pattern: the rest of
/// the text behind the prefix, if the text starts with it.
#[verifier::external_body]
pub(crate) fn str_strip_prefix<'a>(hay: &'a str, prefix: &str) -> (rest: Option<&'a str>)
    ensures
        match rest {
            Some(r) => has_prefix(hay@, prefix@) && r@ == hay@.subrange(
                prefix@.len() as int,
                hay@.len() as int,
            ),
            None => !has_prefix(hay@, prefix@),
        },
{
    hay.strip_prefix(prefix)
}

} // verus!
