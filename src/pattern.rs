//! Regular expressions over header names, JSON keys and URIs, compiled once
//! and matched many times.

use vstd::prelude::*;
use crate::error::TreblleError;

verus! {

#[verifier::external_type_specification]
#[verifier::external_body]
pub struct ExRegex(regex::Regex);

/// Whether `regex::Regex::new` accepts this pattern.
pub uninterp spec fn regex_valid(pattern: Seq<char>) -> bool;

/// Whether the regex compiled from `pattern` matches somewhere in `text`.
pub uninterp spec fn regex_matches(pattern: Seq<char>, text: Seq<char>) -> bool;

/// Relies on `regex::Regex::new`: compiles the pattern, or fails; which of
/// the two depends on the pattern alone.
#[verifier::external_body]
fn compile_regex(pattern: &str) -> (r: Result<regex::Regex, regex::Error>)
    ensures
        r is Ok <==> regex_valid(pattern@),
{
    regex::Regex::new(pattern)
}

/// A compiled regular expression together with its source text.
pub struct KeyPattern {
    source: String,
    compiled: regex::Regex,
}

impl KeyPattern {
    /// The source text the expression was compiled from.
    pub closed spec fn source(&self) -> Seq<char> {
        self.source@
    }

    /// Compiles `pattern`; fails exactly when the regex crate rejects it.
    pub fn new(pattern: &str) -> (r: Result<KeyPattern, TreblleError>)
        ensures
            r is Ok <==> regex_valid(pattern@),
            r matches Ok(p) ==> p.source() == pattern@,
            r matches Err(e) ==> e is Regex,
    {
        match compile_regex(pattern) {
            Ok(compiled) => Ok(KeyPattern { source: String::from_str(pattern), compiled }),
            Err(e) => Err(TreblleError::Regex(e)),
        }
    }

    /// The source text the expression was compiled from.
    pub fn as_str(&self) -> (r: &str)
        ensures
            r@ == self.source(),
    {
        self.source.as_str()
    }

    /// Relies on `regex::Regex::is_match`: whether the expression, compiled by
    /// `new` from `source()`, matches somewhere in `text`.
    #[verifier::external_body]
    pub(crate) fn is_match(&self, text: &str) -> (r: bool)
        ensures
            r == regex_matches(self.source(), text@),
    {
        self.compiled.is_match(text)
    }
}

} // verus!
