//! Opaque, fixed-length identifiers for API clients.
//!
//! A client identity is an 8-character string derived from a fresh
//! time-ordered unique value. It is created once per registration, rendered
//! losslessly to its canonical string form, and parsed back by length alone:
//! the character set is deliberately not validated.

use crate::errors::DataDomainError;
use crate::ident::{fresh_uuid_string, is_uuid_char};
use vstd::prelude::*;
use vstd::string::*;
use vstd::utf8::{encode_utf8, is_ascii_chars_concat, is_ascii_chars_encode_utf8};

verus! {

/// Length of the string that represents a client ID.
pub const ID_LENGTH: usize = 8;

/// Opaque identifier for an API client.
#[derive(Debug)]
pub struct ClientId {
    id: String,
}

impl View for ClientId {
    type V = Seq<char>;

    closed spec fn view(&self) -> Seq<char> {
        self.id@
    }
}

/// What parsing a string as a client identity yields: the string itself when
/// its length — in bytes, as the service has always measured it — is exactly
/// [`ID_LENGTH`], nothing otherwise.
pub open spec fn spec_parse_client_id(s: Seq<char>) -> Option<Seq<char>> {
    if encode_utf8(s).len() == ID_LENGTH {
        Some(s)
    } else {
        None
    }
}

impl ClientId {
    /// A client identity is well formed when it holds exactly [`ID_LENGTH`]
    /// bytes.
    pub open spec fn wf(&self) -> bool {
        encode_utf8(self@).len() == ID_LENGTH
    }

    /// Produce a fresh identifier: the first and last [`ID_LENGTH`]`/2`
    /// characters of a fresh time-ordered unique value. Every character is a
    /// lowercase hex digit or a hyphen.
    pub fn new() -> (r: Self)
        ensures
            r.wf(),
            forall|i: int| 0 <= i < r@.len() ==> is_uuid_char(#[trigger] r@[i]),
    {
        let full = fresh_uuid_string();
        let head = full.as_str().substring_ascii(0, ID_LENGTH / 2);
        let tail = full.as_str().substring_ascii(36 - ID_LENGTH / 2, 36);
        let id = String::from_str(head).concat(tail);
        proof {
            is_ascii_chars_concat(id@, head@, tail@);
            is_ascii_chars_encode_utf8(id@);
            assert forall|i: int| 0 <= i < id@.len() implies is_uuid_char(id@[i]) by {
                let h = ID_LENGTH as int / 2;
                if i < h {
                    assert(id@[i] == full@[i]);
                } else {
                    assert(id@[i] == full@[36 - h + (i - h)]);
                }
            }
        }
        ClientId { id }
    }

    /// Parse a string as a client identity. Succeeds exactly when the string
    /// is [`ID_LENGTH`] bytes long; the character set is not validated.
    pub fn parse(s: &str) -> (r: Result<Self, DataDomainError>)
        ensures
            r is Ok <==> spec_parse_client_id(s@) is Some,
            r matches Ok(c) ==> Some(c@) == spec_parse_client_id(s@) && c.wf(),
            r matches Err(e) ==> e == DataDomainError::InvalidId,
    {
        let bytes = s.as_bytes();
        if bytes.len() != ID_LENGTH {
            Err(DataDomainError::InvalidId)
        } else {
            Ok(ClientId { id: String::from_str(s) })
        }
    }

    /// Render the identity to its canonical string form, losslessly.
    pub fn to_string(&self) -> (r: String)
        ensures
            r@ == self@,
    {
        self.id.clone()
    }

    /// Borrow the identity's canonical string form.
    pub fn as_str(&self) -> (r: &str)
        ensures
            r@ == self@,
    {
        self.id.as_str()
    }
}

impl Default for ClientId {
    /// A fresh identifier, as [`ClientId::new`] produces it.
    fn default() -> (r: Self)
        ensures
            r.wf(),
            forall|i: int| 0 <= i < r@.len() ==> is_uuid_char(#[trigger] r@[i]),
    {
        ClientId::new()
    }
}

impl Clone for ClientId {
    fn clone(&self) -> (r: Self)
        ensures
            r@ == self@,
    {
        ClientId { id: self.id.clone() }
    }
}

impl PartialEq for ClientId {
    fn eq(&self, other: &Self) -> bool {
        self.id == other.id
    }
}

impl vstd::std_specs::cmp::PartialEqSpecImpl for ClientId {
    open spec fn obeys_eq_spec() -> bool {
        true
    }

    open spec fn eq_spec(&self, other: &ClientId) -> bool {
        self@ == other@
    }
}

/// Law: a well-formed identity survives the round trip through its string
/// form, and parsing succeeds exactly for strings of length [`ID_LENGTH`].
pub proof fn lemma_client_id_round_trip(c: ClientId)
    requires
        c.wf(),
    ensures
        spec_parse_client_id(c@) == Some(c@),
{
}

} // verus!
