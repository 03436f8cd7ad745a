//! The filter matcher: free-text patterns compiled through the `regex`
//! crate, applied to a record's match subject at ingestion time.
//!
//! The compiled matcher is opaque; its pattern text is named by
//! [`regex_source`], and the outcomes of compiling and matching are
//! named by [`regex_compiles`] and [`regex_match`]. Everything the rest
//! of the crate proves about filtering is stated over those names.

use vstd::prelude::*;

verus! {

#[verifier::external_type_specification]
#[verifier::external_body]
pub struct ExRegex(regex::Regex);

/// The pattern text a compiled matcher was built from.
pub uninterp spec fn regex_source(re: regex::Regex) -> Seq<char>;

/// Whether a pattern text is a valid pattern: what `regex::Regex::new`
/// returning `Ok` depends on, a function of the pattern alone.
pub uninterp spec fn regex_compiles(pattern: Seq<char>) -> bool;

/// Whether a pattern matches anywhere in a haystack: what
/// `regex::Regex::is_match` returns, a function of pattern and haystack
/// alone.
pub uninterp spec fn regex_match(pattern: Seq<char>, haystack: Seq<char>) -> bool;

/// Relies on `regex::Regex::new`: compiling succeeds exactly when the
/// pattern is valid, and the compiled value holds the pattern it was
/// built from (what `Regex::as_str` returns).
#[verifier::external_body]
pub(crate) fn regex_new(pattern: &str) -> (r: Option<regex::Regex>)
    ensures
        r is Some <==> regex_compiles(pattern@),
        r matches Some(re) ==> regex_source(re) == pattern@,
{
    regex::Regex::new(pattern).ok()
}

/// Relies on `regex::Regex::is_match`: true exactly when the compiled
/// pattern matches anywhere in the haystack.
#[verifier::external_body]
pub(crate) fn regex_is_match(re: &regex::Regex, haystack: &str) -> (b: bool)
    ensures
        b == regex_match(regex_source(*re), haystack@),
{
    re.is_match(haystack)
}

/// What a filter state lets through: with no matcher present every
/// subject is accepted; with a matcher present, exactly the subjects its
/// pattern matches.
pub open spec fn accepts(filter: Option<Seq<char>>, subject: Seq<char>) -> bool {
    match filter {
        None => true,
        Some(pattern) => regex_match(pattern, subject),
    }
}

} // verus!
