//! Regular-expression patterns of `Matches` conditions, compiled and run by
//! the `regex` crate.
use vstd::prelude::*;

verus! {

#[verifier::external_type_specification]
#[verifier::external_body]
pub struct ExRegex(regex::Regex);

#[verifier::external_type_specification]
#[verifier::external_body]
pub struct ExRegexError(regex::Error);

/// Whether `regex::Regex::new` accepts `pattern`: its syntax is valid and the
/// compiled form fits the default size limits.
pub uninterp spec fn regex_compiles(pattern: Seq<char>) -> bool;

/// What `regex::Regex::is_match` answers, for the regex compiled from
/// `pattern`, on `haystack`: whether there is a match anywhere in it.
pub uninterp spec fn regex_finds(pattern: Seq<char>, haystack: Seq<char>) -> bool;

/// A compiled regex together with the text it was compiled from. Values are
/// only made by `Pattern::compile`, so the two always belong together.
pub struct Pattern {
    source: String,
    re: regex::Regex,
}

impl Pattern {
    /// The text the regex was compiled from.
    pub closed spec fn source(&self) -> Seq<char> {
        self.source@
    }

    /// Relies on `regex::Regex::new`: compiles `pattern`, failing exactly
    /// when the crate rejects it.
    #[verifier::external_body]
    pub(crate) fn compile(pattern: &str) -> (r: Result<Pattern, regex::Error>)
        ensures
            r is Ok <==> regex_compiles(pattern@),
            r matches Ok(p) ==> p.source() == pattern@,
    {
        regex::Regex::new(pattern).map(|re| Pattern { source: pattern.to_string(), re })
    }

    /// Relies on `regex::Regex::is_match`: whether the regex matches
    /// anywhere in `haystack`.
    #[verifier::external_body]
    pub(crate) fn is_match(&self, haystack: &str) -> (r: bool)
        ensures
            r == regex_finds(self.source(), haystack@),
    {
        self.re.is_match(haystack)
    }
}

} // verus!
