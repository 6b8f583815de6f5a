//! Regular expressions, as far as the rest of the library needs them.
//!
//! Matching is done by the `regex` crate. Nothing here is proved about it:
//! the contracts below are taken from its documentation.

use regex::Regex;
use vstd::prelude::*;

verus! {

#[verifier::external_type_specification]
#[verifier::external_body]
pub struct ExRegex(regex::Regex);

#[verifier::external_type_specification]
#[verifier::external_body]
pub struct ExRegexError(regex::Error);

/// A compiled expression seen as the set of texts it accepts: the texts in
/// which `Regex::is_match` finds a match somewhere.
pub uninterp spec fn regex_language(re: Regex) -> Set<Seq<char>>;

/// The set of texts that the expression compiled from `pattern` accepts.
pub uninterp spec fn pattern_language(pattern: Seq<char>) -> Set<Seq<char>>;

/// Calls `Regex::new`. A pattern is refused for its syntax, or because the
/// compiled program would take more memory than the crate's size limit
/// allows, which is not a matter of the text alone: nothing is claimed of
/// whether the pattern compiles. Where it does, the contract claims that
/// what the expression accepts is settled by the pattern's text.
#[verifier::external_body]
pub(crate) fn compile(pattern: &str) -> (compiled: Result<Regex, regex::Error>)
    ensures
        compiled matches Ok(re) ==> regex_language(re) == pattern_language(pattern@),
{
    Regex::new(pattern)
}

/// Calls `Regex::is_match`, which is documented to return true if and only
/// if there is a match for the expression anywhere in the text. The contract
/// claims only that the answer is membership in the expression's language.
#[verifier::external_body]
pub(crate) fn is_match(re: &Regex, text: &str) -> (found: bool)
    ensures
        found == regex_language(*re).contains(text@),
{
    re.is_match(text)
}

/// Calls the `Display` impl of `regex::Error` through `to_string`. The text
/// is meant for people; nothing is claimed of it.
#[verifier::external_body]
pub(crate) fn describe(error: &regex::Error) -> String {
    error.to_string()
}

} // verus!
