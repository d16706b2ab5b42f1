//! Patterns in a text: regular expressions, compiled once and searched for by
//! the `regex` crate.
//!
//! Everything that is taken on trust about that crate stands in this file.

use regex::Regex;
use vstd::prelude::*;

verus! {

/// Trusted: declares `regex::Regex`, a compiled regular expression. Nothing
/// inside it is visible to the verifier.
#[verifier::external_type_specification]
#[verifier::external_body]
pub struct ExRegex(regex::Regex);

/// Trusted: declares `regex::Error`, the reason why a pattern did not compile.
/// Nothing inside it is visible to the verifier.
#[verifier::external_type_specification]
#[verifier::external_body]
pub struct ExRegexError(regex::Error);

/// Whether the regular expression written as `pattern`, compiled with the
/// `regex` crate's default options, finds a match anywhere in `text`.
///
/// This names the result of `regex::Regex::is_match`; nothing is stated of its
/// value on any particular pattern or text.
pub uninterp spec fn regex_is_match(pattern: Seq<char>, text: Seq<char>) -> bool;

/// A regular expression, compiled once and kept together with the text it was
/// compiled from. Its view is that text.
#[derive(Debug)]
pub struct Pattern {
    source: String,
    compiled: Regex,
}

impl View for Pattern {
    type V = Seq<char>;

    closed spec fn view(&self) -> Seq<char> {
        self.source@
    }
}

/// A pattern definition that the `regex` crate refused.
#[derive(Debug)]
pub struct PatternError {
    /// The text of the pattern that did not compile.
    pub pattern: String,
    /// What the `regex` crate reported.
    pub cause: regex::Error,
}

impl Pattern {
    /// Trusted, not proved: the body calls `regex::Regex::new`, which either
    /// compiles `source` or reports why it cannot, and on success keeps a
    /// copy of `source` beside the compiled regex; the contract claims no more
    /// than that the copy is faithful. A pattern is made nowhere else, so
    /// every pattern holds the regex compiled from its own source text.
    #[verifier::external_body]
    fn compile(source: &str) -> (outcome: Result<Pattern, regex::Error>)
        ensures
            outcome matches Ok(pattern) ==> pattern@ == source@,
    {
        match Regex::new(source) {
            Ok(compiled) => Ok(Pattern { source: source.to_owned(), compiled }),
            Err(cause) => Err(cause),
        }
    }

    /// Trusted, not proved: the body calls `regex::Regex::is_match` on the
    /// compiled regex, which returns `true` if and only if the regex has a
    /// match anywhere in `text`. The contract claims that this answer is the
    /// one that [`regex_is_match`] names for the pattern's source text and
    /// `text`, that is, that it depends on nothing else.
    #[verifier::external_body]
    pub(crate) fn is_match(&self, text: &str) -> (found: bool)
        ensures
            found == regex_is_match(self@, text@),
    {
        self.compiled.is_match(text)
    }

    /// Compiles `source`. Whether that succeeds is for the `regex` crate to
    /// say; a pattern that comes back was compiled from `source`, and an error
    /// names `source` as the offending definition.
    pub fn new(source: &str) -> (outcome: Result<Pattern, PatternError>)
        ensures
            match outcome {
                Ok(pattern) => pattern@ == source@,
                Err(error) => error.pattern@ == source@,
            },
    {
        match Pattern::compile(source) {
            Ok(pattern) => Ok(pattern),
            Err(cause) => Err(PatternError { pattern: source.to_owned(), cause }),
        }
    }
}

} // verus!
