//! Compiled text patterns and the single first-match substitution that a
//! route applies to a response body.

use crate::error::RelayError;
use vstd::prelude::*;

verus! {

#[verifier::external_type_specification]
#[verifier::external_body]
pub struct ExRegex(regex::bytes::Regex);

#[verifier::external_type_specification]
#[verifier::external_body]
pub struct ExRegexError(regex::Error);

/// Whether `regex::bytes::Regex::new` accepts the pattern.
pub uninterp spec fn regex_compiles(pattern: Seq<char>) -> bool;

/// The pattern text a compiled regex was built from, as `Regex::as_str` gives it.
pub uninterp spec fn regex_source(re: regex::bytes::Regex) -> Seq<char>;

/// The byte span of the leftmost-first match of `pattern` in `haystack`, as
/// `Regex::find` reports it.
pub uninterp spec fn regex_first_match(pattern: Seq<char>, haystack: Seq<u8>) -> Option<(usize, usize)>;

/// The bytes that the replacement template expands to for the leftmost-first
/// match of `pattern` in `haystack` (group references such as `$1` filled in).
pub uninterp spec fn regex_expansion(pattern: Seq<char>, haystack: Seq<u8>, replacement: Seq<char>) -> Seq<u8>;

/// Relies on `regex::bytes::Regex::new`: success depends on the pattern alone,
/// and the compiled regex remembers the pattern it was built from.
#[verifier::external_body]
fn regex_new(pattern: &str) -> (r: Result<regex::bytes::Regex, regex::Error>)
    ensures
        r is Ok <==> regex_compiles(pattern@),
        r matches Ok(re) ==> regex_source(re) == pattern@,
{
    regex::bytes::Regex::new(pattern)
}

/// Relies on `regex::bytes::Regex::as_str`: it returns the pattern text.
#[verifier::external_body]
fn regex_as_str(re: &regex::bytes::Regex) -> (r: &str)
    ensures
        r@ == regex_source(*re),
{
    re.as_str()
}

/// Relies on `regex::bytes::Regex::find` and `Match::{start, end}`: the span
/// of the leftmost-first match, which lies inside the haystack.
#[verifier::external_body]
fn regex_find(re: &regex::bytes::Regex, haystack: &[u8]) -> (r: Option<(usize, usize)>)
    ensures
        r == regex_first_match(regex_source(*re), haystack@),
        r matches Some((s, e)) ==> s <= e <= haystack@.len(),
{
    re.find(haystack).map(|m| (m.start(), m.end()))
}

/// Relies on `regex::bytes::Regex::replace`: the leftmost-first match is
/// replaced by the expanded template and everything around it is kept; with
/// no match the haystack comes back unchanged.
#[verifier::external_body]
fn regex_replace(re: &regex::bytes::Regex, haystack: &[u8], replacement: &str) -> (r: Vec<u8>)
    ensures
        match regex_first_match(regex_source(*re), haystack@) {
            None => r@ == haystack@,
            Some((s, e)) => r@ == haystack@.subrange(0, s as int) + regex_expansion(
                regex_source(*re),
                haystack@,
                replacement@,
            ) + haystack@.subrange(e as int, haystack@.len() as int),
        },
{
    re.replace(haystack, replacement.as_bytes()).into_owned()
}

/// A compiled pattern together with the replacement template used for it.
pub struct Patch {
    regex: regex::bytes::Regex,
    replacement: String,
}

/// What patching `body` with `pattern` and `replacement` yields: the first
/// match replaced by its expansion, or the body itself when nothing matches.
pub open spec fn patched(pattern: Seq<char>, replacement: Seq<char>, body: Seq<u8>) -> Seq<u8> {
    match regex_first_match(pattern, body) {
        None => body,
        Some((s, e)) => body.subrange(0, s as int) + regex_expansion(pattern, body, replacement)
            + body.subrange(e as int, body.len() as int),
    }
}

impl Patch {
    /// The pattern text this patch looks for.
    pub closed spec fn pattern_spec(&self) -> Seq<char> {
        regex_source(self.regex)
    }

    /// The replacement template this patch substitutes.
    pub closed spec fn replacement_spec(&self) -> Seq<char> {
        self.replacement@
    }

    /// Compiles `pattern`; fails exactly when the pattern is not a valid
    /// regular expression.
    pub fn new(pattern: &str, replacement: &str) -> (r: Result<Patch, RelayError>)
        ensures
            r is Ok <==> regex_compiles(pattern@),
            r matches Ok(p) ==> p.pattern_spec() == pattern@ && p.replacement_spec()
                == replacement@,
            r matches Err(e) ==> e == RelayError::PatchPattern,
    {
        match regex_new(pattern) {
            Ok(regex) => Ok(Patch { regex, replacement: replacement.to_owned() }),
            Err(_) => Err(RelayError::PatchPattern),
        }
    }

    /// The pattern text.
    pub fn pattern(&self) -> (r: &str)
        ensures
            r@ == self.pattern_spec(),
    {
        regex_as_str(&self.regex)
    }

    /// The replacement template.
    pub fn replacement(&self) -> (r: &str)
        ensures
            r@ == self.replacement_spec(),
    {
        self.replacement.as_str()
    }

    /// Whether the pattern occurs anywhere in `body`.
    pub fn matches(&self, body: &[u8]) -> (r: bool)
        ensures
            r == (regex_first_match(self.pattern_spec(), body@) is Some),
    {
        regex_find(&self.regex, body).is_some()
    }

    /// Replaces the first match of the pattern in `body` by the expanded
    /// replacement; a body without a match is returned as it is.
    pub fn apply(&self, body: Vec<u8>) -> (r: Vec<u8>)
        ensures
            r@ == patched(self.pattern_spec(), self.replacement_spec(), body@),
            regex_first_match(self.pattern_spec(), body@) matches Some((s, e)) ==> s <= e
                <= body@.len(),
    {
        match regex_find(&self.regex, body.as_slice()) {
            None => body,
            Some(_) => regex_replace(&self.regex, body.as_slice(), self.replacement.as_str()),
        }
    }
}

} // verus!
