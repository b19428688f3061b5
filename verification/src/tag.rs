//! Tags: single-word, lowercase identifiers that organise recipes.
//!
//! A tag is 2 to 20 characters; capital ASCII letters are folded to lower
//! case on construction, and the identifier must end in at least two
//! characters drawn from `a`-`z` and `_`.

use crate::errors::DataDomainError;
use vstd::prelude::*;
use vstd::string::*;

verus! {

/// The characters a tag's identifier may end with.
pub open spec fn is_tag_char(c: char) -> bool {
    ('a' <= c && c <= 'z') || c == '_'
}

/// ASCII lowercase folding of one character: capital ASCII letters move to
/// lower case, everything else is unchanged.
pub open spec fn spec_to_ascii_lower(c: char) -> char {
    if 'A' <= c && c <= 'Z' {
        ((c as u8) + 32) as char
    } else {
        c
    }
}

/// The rule a (folded) identifier must meet: 2 to 20 characters, ending in
/// two characters from `a`-`z` and `_`.
pub open spec fn tag_identifier_valid(s: Seq<char>) -> bool {
    &&& 2 <= s.len() <= 20
    &&& is_tag_char(s[s.len() - 1])
    &&& is_tag_char(s[s.len() - 2])
}

/// Relies on `str::to_ascii_lowercase`: ASCII capitals map to their lowercase
/// counterparts, every other character is unchanged.
#[verifier::external_body]
fn ascii_lowercase(s: &str) -> (r: String)
    ensures
        r@ == s@.map_values(|c: char| spec_to_ascii_lower(c)),
{
    s.to_ascii_lowercase()
}

/// A tag.
pub struct Tag {
    /// The tag's identifier, lowercase.
    pub identifier: String,
}

impl View for Tag {
    type V = Seq<char>;

    open spec fn view(&self) -> Seq<char> {
        self.identifier@
    }
}

impl Clone for Tag {
    fn clone(&self) -> (r: Self)
        ensures
            r@ == self@,
    {
        Tag { identifier: self.identifier.clone() }
    }
}

impl PartialEq for Tag {
    fn eq(&self, other: &Self) -> bool {
        crate::strutil::str_eq(self.identifier.as_str(), other.identifier.as_str())
    }
}

impl vstd::std_specs::cmp::PartialEqSpecImpl for Tag {
    open spec fn obeys_eq_spec() -> bool {
        true
    }

    open spec fn eq_spec(&self, other: &Tag) -> bool {
        self@ == other@
    }
}

impl Tag {
    /// Build a tag from a name, folding ASCII capitals to lower case.
    /// Succeeds exactly when the folded name passes
    /// [`tag_identifier_valid`].
    pub fn new(tagname: &str) -> (r: Result<Self, DataDomainError>)
        ensures
            r is Ok <==> tag_identifier_valid(
                tagname@.map_values(|c: char| spec_to_ascii_lower(c)),
            ),
            r matches Ok(t) ==> t@ == tagname@.map_values(|c: char| spec_to_ascii_lower(c)),
            r matches Err(e) ==> e == DataDomainError::InvalidFormData,
    {
        let identifier = ascii_lowercase(tagname);
        let len = identifier.as_str().unicode_len();
        if len < 2 || len > 20 {
            return Err(DataDomainError::InvalidFormData);
        }
        let last = identifier.as_str().get_char(len - 1);
        let before_last = identifier.as_str().get_char(len - 2);
        let last_ok = ('a' <= last && last <= 'z') || last == '_';
        let before_ok = ('a' <= before_last && before_last <= 'z') || before_last == '_';
        if last_ok && before_ok {
            Ok(Tag { identifier })
        } else {
            Err(DataDomainError::InvalidFormData)
        }
    }
}

} // verus!
