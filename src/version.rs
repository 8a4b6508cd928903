//! Version matching: a configured pattern extracts a version from a probe's
//! output, which must then start with the expected prefix.
use crate::text::{has_prefix, is_prefix, owned};
use vstd::prelude::*;

verus! {

/// `regex::Regex`, a compiled pattern, carried as an opaque value.
#[verifier::external_type_specification]
#[verifier::external_body]
pub struct ExRegex(regex::Regex);

/// `regex::Error`, what `regex::Regex::new` reports for a refused pattern.
#[verifier::external_type_specification]
#[verifier::external_body]
pub struct ExRegexError(regex::Error);

/// Whether `regex::Regex::new` accepts a pattern (its syntax, and the default size limit).
pub uninterp spec fn pattern_compiles(pattern: Seq<char>) -> bool;

/// The text of the first capture group of the leftmost match of `pattern` in
/// `haystack`, as `regex` computes it; `None` where there is no match or the
/// group took no part in it.
pub uninterp spec fn first_group(pattern: Seq<char>, haystack: Seq<char>) -> Option<Seq<char>>;

/// The view of an optional string.
pub open spec fn text_of(s: Option<String>) -> Option<Seq<char>> {
    match s {
        Some(t) => Some(t@),
        None => None,
    }
}

/// A compiled version pattern, with the text it was compiled from.
pub struct VersionMatcher {
    pattern: String,
    regex: regex::Regex,
}

/// Relies on `regex::Regex::new`: it accepts exactly the patterns that
/// compile; the compiled regex is kept beside its source text.
#[verifier::external_body]
fn compile(pattern: &str) -> (r: Result<VersionMatcher, regex::Error>)
    ensures
        r is Ok <==> pattern_compiles(pattern@),
        r matches Ok(m) ==> m.pattern@ == pattern@,
{
    match regex::Regex::new(pattern) {
        Ok(regex) => Ok(VersionMatcher { pattern: pattern.to_string(), regex }),
        Err(e) => Err(e),
    }
}

impl VersionMatcher {
    /// The pattern this matcher was compiled from.
    pub closed spec fn pattern(&self) -> Seq<char> {
        self.pattern@
    }

    /// Compiles `pattern`; `None` where `regex` refuses it.
    pub fn new(pattern: &str) -> (r: Option<VersionMatcher>)
        ensures
            r is Some <==> pattern_compiles(pattern@),
            r matches Some(m) ==> m.pattern() == pattern@,
    {
        match compile(pattern) {
            Ok(m) => Some(m),
            Err(_) => None,
        }
    }

    /// Relies on `regex::Regex::captures` and `Captures::get(1)`: the text of
    /// the first group of the leftmost match, where the group took part. The
    /// regex is the one `compile` built from `self.pattern`, as only `compile`
    /// makes a `VersionMatcher`.
    #[verifier::external_body]
    pub(crate) fn first_group(&self, haystack: &str) -> (r: Option<String>)
        ensures
            text_of(r) == first_group(self.pattern(), haystack@),
    {
        self.regex.captures(haystack).and_then(|c| c.get(1)).map(|m| m.as_str().to_string())
    }
}

/// Why a version check failed.
#[derive(Debug, PartialEq, Eq)]
pub enum VersionError {
    /// The pattern found no version in the output.
    NoMatch,
    /// A version was found that does not start with the expected prefix.
    Mismatch { expected_prefix: String, found: String },
}

/// Compares an extracted version (if any) with the expected prefix: plain
/// textual prefix comparison, no normalization.
pub fn compare_version(found: Option<&str>, expected_prefix: &str) -> (r: Result<(), VersionError>)
    ensures
        found is None ==> r == Err::<(), VersionError>(VersionError::NoMatch),
        found matches Some(v) ==> (r is Ok <==> is_prefix(expected_prefix@, v@)),
        found matches Some(v) ==> (r matches Err(VersionError::Mismatch { expected_prefix: e, found: f }) <==> !is_prefix(expected_prefix@, v@))
            && (r matches Err(VersionError::Mismatch { expected_prefix: e, found: f }) ==> e@ == expected_prefix@ && f@ == v@),
{
    match found {
        None => Err(VersionError::NoMatch),
        Some(v) => {
            if has_prefix(v, expected_prefix) {
                Ok(())
            } else {
                Err(VersionError::Mismatch { expected_prefix: owned(expected_prefix), found: owned(v) })
            }
        },
    }
}

/// Applies `matcher` to the probe output and compares what it extracts with
/// the expected prefix.
pub fn extract_and_compare(matcher: &VersionMatcher, output: &str, expected_prefix: &str) -> (r: Result<(), VersionError>)
    ensures
        first_group(matcher.pattern(), output@) is None ==> r == Err::<(), VersionError>(VersionError::NoMatch),
        first_group(matcher.pattern(), output@) matches Some(v) ==> (r is Ok <==> is_prefix(expected_prefix@, v)),
        first_group(matcher.pattern(), output@) matches Some(v) ==> (r matches Err(VersionError::Mismatch { expected_prefix: e, found: f }) ==> e@ == expected_prefix@ && f@ == v) && (r is Err ==> r matches Err(VersionError::Mismatch { .. })),
{
    let found = matcher.first_group(output);
    match &found {
        Some(v) => compare_version(Some(v.as_str()), expected_prefix),
        None => compare_version(None, expected_prefix),
    }
}

} // verus!
