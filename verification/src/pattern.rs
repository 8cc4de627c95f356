//! Regular expressions, as the `regex` crate compiles and runs them.
//!
//! Nothing here is proved: the contracts say of `regex` what its documentation
//! says, over names that stand for what it computes.

use vstd::prelude::*;

verus! {

/// A compiled regular expression.
#[verifier::external_type_specification]
#[verifier::external_body]
pub struct ExRegex(regex::Regex);

/// Why a pattern did not compile.
#[verifier::external_type_specification]
#[verifier::external_body]
pub struct ExRegexError(regex::Error);

/// Whether `regex::Regex::new` accepts the pattern.
pub uninterp spec fn regex_compiles(pattern: Seq<char>) -> bool;

/// The pattern that a compiled expression was made from.
pub uninterp spec fn regex_source(re: regex::Regex) -> Seq<char>;

/// Whether a compiled expression was made as `regex::Regex::new` makes one:
/// from its pattern alone, with no option changed.
pub uninterp spec fn regex_plain(re: regex::Regex) -> bool;

/// Whether the expression that `regex::Regex::new` compiles from the pattern
/// matches somewhere in the text.
pub uninterp spec fn regex_is_match(pattern: Seq<char>, text: Seq<char>) -> bool;

/// `regex::Regex::new`: compiles the pattern, or says why it is not a valid
/// expression. Whether it succeeds depends on the pattern alone, and the
/// compiled expression is that of the pattern given, with no option changed.
pub assume_specification[ regex::Regex::new ](re: &str) -> (r: Result<regex::Regex, regex::Error>)
    ensures
        r is Ok == regex_compiles(re@),
        r matches Ok(compiled) ==> regex_plain(compiled) && regex_source(compiled) == re@,
;

/// `regex::Regex::is_match`: true if and only if the expression matches
/// anywhere in the haystack. For an expression made with no option changed
/// that depends on its pattern and the haystack alone; of one built with
/// other options nothing is said.
pub assume_specification[ regex::Regex::is_match ](re: &regex::Regex, haystack: &str) -> (b: bool)
    ensures
        regex_plain(*re) ==> b == regex_is_match(regex_source(*re), haystack@),
;

} // verus!
