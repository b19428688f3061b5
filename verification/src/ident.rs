//! Unique identifiers, as strings: generation of fresh ones and parsing of
//! given ones, backed by the uuid crate.

use vstd::prelude::*;

verus! {

/// What a string parses to as a unique identifier: the canonical hyphenated
/// rendering when the string is well formed, nothing otherwise. This names
/// the verdict of `uuid::Uuid::parse_str`.
pub uninterp spec fn uuid_canon(s: Seq<char>) -> Option<Seq<char>>;

/// The characters of a canonically rendered identifier: lowercase hex digits
/// and the hyphen.
pub open spec fn is_uuid_char(c: char) -> bool {
    ('0' <= c && c <= '9') || ('a' <= c && c <= 'f') || c == '-'
}

/// Relies on `uuid::Uuid::now_v7` and its `Display` impl: a fresh unique
/// identifier rendered in the hyphenated form — 36 characters, each a
/// lowercase hex digit or a hyphen.
#[verifier::external_body]
pub(crate) fn fresh_uuid_string() -> (r: String)
    ensures
        r@.len() == 36,
        r.is_ascii(),
        forall|i: int| 0 <= i < r@.len() ==> is_uuid_char(#[trigger] r@[i]),
{
    uuid::Uuid::now_v7().to_string()
}

/// Relies on `uuid::Uuid::parse_str` and the hyphenated `Display` impl: the
/// canonical 36-character rendering of the parsed identifier, a deterministic
/// function of the input string.
#[verifier::external_body]
pub(crate) fn parse_uuid(s: &str) -> (r: Option<String>)
    ensures
        r is Some <==> uuid_canon(s@) is Some,
        r matches Some(c) ==> Some(c@) == uuid_canon(s@) && c@.len() == 36,
{
    match uuid::Uuid::parse_str(s) {
        Ok(u) => Some(u.to_string()),
        Err(_) => None,
    }
}

} // verus!
