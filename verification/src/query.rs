//! Query payloads of the HTTP layer, and small helpers on them.

use crate::errors::DataDomainError;
use vstd::prelude::*;
use vstd::string::*;

verus! {

/// Search tokens for the author collection. All members are optional; a
/// search uses the one with the highest priority: email, then name, then
/// surname.
pub struct AuthorQueryParams {
    /// Search by name.
    pub name: Option<String>,
    /// Search by surname.
    pub surname: Option<String>,
    /// Search by email; the highest priority.
    pub email: Option<String>,
}

impl AuthorQueryParams {
    /// The column name and value of the highest-priority token that was
    /// given: email before name before surname. With no token at all the
    /// search is invalid.
    pub fn search_token(&self) -> (r: Result<(&str, &str), DataDomainError>)
        ensures
            self.email matches Some(e) ==> (r matches Ok(p) && p.0@ == "email"@ && p.1@ == e@),
            self.email is None ==> (self.name matches Some(n) ==> (r matches Ok(p) && p.0@
                == "name"@ && p.1@ == n@)),
            self.email is None && self.name is None ==> (self.surname matches Some(s) ==> (r matches
            Ok(p) && p.0@ == "surname"@ && p.1@ == s@)),
            self.email is None && self.name is None && self.surname is None ==> r == Err::<
                (&str, &str),
                DataDomainError,
            >(DataDomainError::InvalidSearch),
    {
        match &self.email {
            Some(e) => Ok(("email", e.as_str())),
            None => match &self.name {
                Some(n) => Ok(("name", n.as_str())),
                None => match &self.surname {
                    Some(s) => Ok(("surname", s.as_str())),
                    None => Err(DataDomainError::InvalidSearch),
                },
            },
        }
    }
}

/// Query payload of an ingredient search.
pub struct QueryData {
    /// The searched ingredient name.
    pub name: String,
}

/// Form payload that registers a new ingredient.
pub struct FormData {
    /// The ingredient's name.
    pub name: String,
    /// The ingredient's category, as a name.
    pub category: String,
    /// An optional description.
    pub desc: Option<String>,
}

/// Index of the last `/` of the string, or `-1` if it holds none.
pub open spec fn spec_last_slash(s: Seq<char>) -> int
    decreases s.len(),
{
    if s.len() == 0 {
        -1
    } else if s[s.len() - 1] == '/' {
        s.len() - 1
    } else {
        spec_last_slash(s.drop_last())
    }
}

/// The last-slash index is a slash position with no slash after it, and `-1`
/// exactly when the string holds no slash.
proof fn lemma_last_slash_charac(s: Seq<char>)
    ensures
        spec_last_slash(s) == -1 ==> forall|j: int| 0 <= j < s.len() ==> s[j] != '/',
        spec_last_slash(s) != -1 ==> 0 <= spec_last_slash(s) < s.len() && s[spec_last_slash(s)]
            == '/' && (forall|j: int| spec_last_slash(s) < j < s.len() ==> s[j] != '/'),
    decreases s.len(),
{
    if s.len() > 0 && s[s.len() - 1] != '/' {
        lemma_last_slash_charac(s.drop_last());
        let rest = spec_last_slash(s.drop_last());
        if rest != -1 {
            assert(s[rest] == s.drop_last()[rest]);
            assert forall|j: int| rest < j < s.len() implies s[j] != '/' by {
                if j < s.len() - 1 {
                    assert(s.drop_last()[j] != '/');
                    assert(s.drop_last()[j] == s[j]);
                }
            }
        } else {
            assert forall|j: int| 0 <= j < s.len() implies s[j] != '/' by {
                if j < s.len() - 1 {
                    assert(s.drop_last()[j] != '/');
                    assert(s.drop_last()[j] == s[j]);
                }
            }
        }
    }
}

/// The account part of a social profile address: everything after the last
/// `/`, or the whole string when it holds none.
pub fn extract_profile_account(profile_url: &str) -> (r: &str)
    ensures
        r@ == profile_url@.skip(spec_last_slash(profile_url@) + 1),
{
    let n = profile_url.unicode_len();
    let mut i: usize = n;
    while i > 0
        invariant
            i <= n,
            n == profile_url@.len(),
            forall|j: int| i <= j < n ==> profile_url@[j] != '/',
        decreases i,
    {
        if profile_url.get_char(i - 1) == '/' {
            proof {
                lemma_last_slash_charac(profile_url@);
                let ls = spec_last_slash(profile_url@);
                if ls == -1 {
                    assert(profile_url@[i - 1] != '/');
                    assert(false);
                } else if ls < i - 1 {
                    assert(profile_url@[i - 1] != '/');
                    assert(false);
                } else if ls > i - 1 {
                    assert(profile_url@[ls] != '/');
                    assert(false);
                }
            }
            let tail = profile_url.substring_char(i, n);
            proof {
                assert(tail@ =~= profile_url@.skip(spec_last_slash(profile_url@) + 1));
            }
            return tail;
        }
        i -= 1;
    }
    proof {
        lemma_last_slash_charac(profile_url@);
        let ls = spec_last_slash(profile_url@);
        if ls != -1 {
            assert(profile_url@[ls] != '/');
            assert(false);
        }
        assert(profile_url@ =~= profile_url@.skip(0));
    }
    profile_url
}

} // verus!
