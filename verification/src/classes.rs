//! Membership in the Unicode character classes `\d`, `\w` and `\s` of the
//! regex crate, for characters beyond ASCII.

use vstd::prelude::*;

verus! {

/// Whether the regex crate's `\d` (Unicode decimal digit) accepts `c`.
pub uninterp spec fn regex_digit_class(c: char) -> bool;

/// Whether the regex crate's `\w` (Unicode word character) accepts `c`.
pub uninterp spec fn regex_word_class(c: char) -> bool;

/// Whether the regex crate's `\s` (Unicode white space) accepts `c`.
pub uninterp spec fn regex_space_class(c: char) -> bool;

/// Asks `regex::Regex::is_match` whether the one-character text `c` is a
/// `\d`. The contract only names the answer: it is a function of `c`.
#[verifier::external_body]
pub(crate) fn regex_digit_member(c: char) -> (r: bool)
    ensures
        r == regex_digit_class(c),
{
    match regex::Regex::new(r"^\d$") {
        Ok(re) => re.is_match(&c.to_string()),
        Err(_) => false,
    }
}

/// Asks `regex::Regex::is_match` whether the one-character text `c` is a
/// `\w`. The contract only names the answer: it is a function of `c`.
#[verifier::external_body]
pub(crate) fn regex_word_member(c: char) -> (r: bool)
    ensures
        r == regex_word_class(c),
{
    match regex::Regex::new(r"^\w$") {
        Ok(re) => re.is_match(&c.to_string()),
        Err(_) => false,
    }
}

/// Asks `regex::Regex::is_match` whether the one-character text `c` is a
/// `\s`. The contract only names the answer: it is a function of `c`.
#[verifier::external_body]
pub(crate) fn regex_space_member(c: char) -> (r: bool)
    ensures
        r == regex_space_class(c),
{
    match regex::Regex::new(r"^\s$") {
        Ok(re) => re.is_match(&c.to_string()),
        Err(_) => false,
    }
}

} // verus!
