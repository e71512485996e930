//! Compiled patterns. The patterns are compiled and matched by the `regex`
//! crate; what this library believes of it is stated here.

use vstd::prelude::*;

verus! {

/// A compiled pattern.
#[verifier::external_type_specification]
#[verifier::external_body]
pub struct ExRegex(regex::Regex);

/// Why a pattern did not compile.
#[verifier::external_type_specification]
#[verifier::external_body]
pub struct ExRegexError(regex::Error);

/// A cell that is written at most once.
#[verifier::external_type_specification]
#[verifier::external_body]
#[verifier::reject_recursive_types(T)]
pub struct ExOnceCell<T>(once_cell::sync::OnceCell<T>);

/// Whether `Regex::new` compiles the pattern `source`.
pub uninterp spec fn pattern_compiles(source: Seq<char>) -> bool;

/// Whether the compiled pattern finds a match anywhere in `text`: what
/// `Regex::is_match` returns.
pub uninterp spec fn regex_accepts(re: regex::Regex, text: Seq<char>) -> bool;

/// Whether the pattern `source`, as `Regex::new` compiles it, finds a match
/// anywhere in `text`.
pub uninterp spec fn pattern_matches(source: Seq<char>, text: Seq<char>) -> bool;

/// The compiled pattern answers as the text `source` does when `Regex::new`
/// compiles it. A pattern compiled in another way, with other options, may
/// answer otherwise.
pub open spec fn compiled_from(re: regex::Regex, source: Seq<char>) -> bool {
    forall|text: Seq<char>| #[trigger] regex_accepts(re, text) == pattern_matches(source, text)
}

/// `Regex::new`: compiles a pattern. It fails on a pattern that is not
/// valid or that would compile to more than the size limit allows; which
/// patterns those are is the crate's to say, so the contract names the
/// answer. What the compiled pattern matches depends on the text it was
/// compiled from and on nothing else.
#[verifier::external_body]
pub(crate) fn regex_new(source: &str) -> (r: Result<regex::Regex, regex::Error>)
    ensures
        r is Ok == pattern_compiles(source@),
        r matches Ok(re) ==> forall|text: Seq<char>| #[trigger]
            regex_accepts(re, text) == pattern_matches(source@, text),
{
    regex::Regex::new(source)
}

/// `Regex::is_match`: true if and only if the pattern finds a match
/// anywhere in the text. The answer depends on the compiled pattern and on
/// the text searched, and on nothing else.
#[verifier::external_body]
pub(crate) fn regex_is_match(re: &regex::Regex, text: &str) -> (r: bool)
    ensures
        r == regex_accepts(*re, text@),
{
    re.is_match(text)
}

/// The `Display` of `regex::Error`: the error in words. Nothing is claimed
/// of the words.
#[verifier::external_body]
pub(crate) fn regex_error_text(e: &regex::Error) -> (r: String) {
    format!("{}", e)
}

} // verus!
