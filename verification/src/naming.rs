//! What this library takes from the `regex` and `Inflector` crates: matching a
//! declaration's name against a pattern, and the Pascal-case form of a widget's name.
//!
//! Nothing in this file is proved. Each contract gives the outside result a name.

use vstd::prelude::*;

verus! {

#[verifier::external_type_specification]
#[verifier::external_body]
pub struct ExRegex(regex::Regex);

/// The compiled form of a pattern; `None` where the pattern is refused.
pub uninterp spec fn compiled(pattern: Seq<char>) -> Option<regex::Regex>;

/// What the first capture group holds in the leftmost match of `re` in `text`;
/// `None` where `re` does not match or the group takes no part in the match.
pub uninterp spec fn first_group_of(re: regex::Regex, text: Seq<char>) -> Option<Seq<char>>;

/// `text` in Pascal case.
pub uninterp spec fn pascal_case_of(text: Seq<char>) -> Seq<char>;

/// Calls `regex::Regex::new`. Claims only that the outcome is a function of the
/// pattern, named `compiled`.
#[verifier::external_body]
pub(crate) fn compile(pattern: &str) -> (re: Option<regex::Regex>)
    ensures
        match re {
            Some(r) => compiled(pattern@) == Some(r),
            None => compiled(pattern@) is None,
        },
{
    regex::Regex::new(pattern).ok()
}

/// Calls `regex::Regex::captures` and takes the text of group 1 of what it found.
/// Claims that the result is the text named `first_group_of`.
#[verifier::external_body]
pub(crate) fn first_group(re: &regex::Regex, text: &str) -> (group: Option<String>)
    ensures
        match group {
            Some(g) => first_group_of(*re, text@) == Some(g@),
            None => first_group_of(*re, text@) is None,
        },
{
    match re.captures(text) {
        Some(found) => found.get(1).map(|m| m.as_str().to_string()),
        None => None,
    }
}

/// Calls `inflector::cases::pascalcase::to_pascal_case`. Claims that the result is
/// the text named `pascal_case_of`.
#[verifier::external_body]
pub(crate) fn pascal_case(text: &str) -> (cased: String)
    ensures
        cased@ == pascal_case_of(text@),
{
    inflector::cases::pascalcase::to_pascal_case(text)
}

} // verus!
