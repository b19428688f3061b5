//! Format checks on free-text fields, backed by the validator crate.
//!
//! The email and URL grammars are involved enough that their verdicts are
//! only named here, not spelled out: [`is_valid_email`] and [`is_valid_url`]
//! stand for the deterministic functions of the input string that the
//! validator crate computes.

use validator::{ValidateEmail, ValidateUrl};
use vstd::prelude::*;

verus! {

/// Verdict of the HTML5 email grammar on a string.
pub uninterp spec fn is_valid_email(s: Seq<char>) -> bool;

/// Verdict of the URL grammar on a string.
pub uninterp spec fn is_valid_url(s: Seq<char>) -> bool;

/// Relies on validator's `ValidateEmail` for `String`: the HTML5 email
/// grammar, a deterministic function of the characters alone.
#[verifier::external_body]
pub fn valid_email(s: &str) -> (r: bool)
    ensures
        r == is_valid_email(s@),
{
    s.to_string().validate_email()
}

/// Relies on validator's `ValidateUrl` for `str`: whether the string parses
/// as an absolute URL, a deterministic function of the characters alone.
#[verifier::external_body]
pub fn valid_url(s: &str) -> (r: bool)
    ensures
        r == is_valid_url(s@),
{
    s.validate_url()
}

} // verus!
