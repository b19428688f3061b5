//! Authors of the recipe catalog.
//!
//! An author profile is a bundle of optional fields: a unique identifier, a
//! name, a surname, an email, a description, a website and a list of social
//! profiles. Every field that is present must pass its format check; profiles
//! can be shared publicly or kept private, in which case the email and the
//! description are muted before the profile leaves the service.

use crate::ident::{fresh_uuid_string, parse_uuid, uuid_canon};
use crate::errors::DataDomainError;
use crate::strutil::str_eq;
use crate::validate::{is_valid_email, is_valid_url, valid_email, valid_url};
use vstd::prelude::*;
use vstd::slice::slice_index_get;
use vstd::string::*;

verus! {

/// A social network profile: the network's name and the profile's address.
#[derive(Debug)]
pub struct SocialProfile {
    /// Name of the social network.
    pub provider_name: String,
    /// Address of the profile on that network.
    pub website: String,
}

/// Mathematical image of a [`SocialProfile`].
pub ghost struct SocialProfileView {
    pub provider_name: Seq<char>,
    pub website: Seq<char>,
}

impl View for SocialProfile {
    type V = SocialProfileView;

    open spec fn view(&self) -> SocialProfileView {
        SocialProfileView { provider_name: self.provider_name@, website: self.website@ }
    }
}

impl Clone for SocialProfile {
    fn clone(&self) -> (r: Self)
        ensures
            r@ == self@,
    {
        SocialProfile {
            provider_name: self.provider_name.clone(),
            website: self.website.clone(),
        }
    }
}

impl PartialEq for SocialProfile {
    fn eq(&self, other: &Self) -> bool {
        str_eq(self.provider_name.as_str(), other.provider_name.as_str()) && str_eq(
            self.website.as_str(),
            other.website.as_str(),
        )
    }
}

impl vstd::std_specs::cmp::PartialEqSpecImpl for SocialProfile {
    open spec fn obeys_eq_spec() -> bool {
        true
    }

    open spec fn eq_spec(&self, other: &SocialProfile) -> bool {
        self@ == other@
    }
}

/// The views of a sequence of social profiles.
pub open spec fn profiles_view(s: Seq<SocialProfile>) -> Seq<SocialProfileView> {
    s.map_values(|p: SocialProfile| p@)
}

/// The view of an optional string.
pub open spec fn opt_str_view(o: Option<String>) -> Option<Seq<char>> {
    match o {
        Some(s) => Some(s@),
        None => None,
    }
}

/// Mathematical image of an [`Author`].
pub ghost struct AuthorView {
    pub id: Option<Seq<char>>,
    pub name: Option<Seq<char>>,
    pub surname: Option<Seq<char>>,
    pub email: Option<Seq<char>>,
    pub shareable: Option<bool>,
    pub description: Option<Seq<char>>,
    pub website: Option<Seq<char>>,
    pub social_profiles: Option<Seq<SocialProfileView>>,
}

/// An author profile. All fields are optional; the ones that are present
/// passed the format checks of [`Author::new`].
#[derive(Debug)]
pub struct Author {
    id: Option<String>,
    name: Option<String>,
    surname: Option<String>,
    email: Option<String>,
    /// Whether the profile may be shared with the public.
    pub shareable: Option<bool>,
    description: Option<String>,
    website: Option<String>,
    social_profiles: Option<Vec<SocialProfile>>,
}

impl View for Author {
    type V = AuthorView;

    closed spec fn view(&self) -> AuthorView {
        AuthorView {
            id: match self.id {
                Some(s) => Some(s@),
                None => None,
            },
            name: match self.name {
                Some(s) => Some(s@),
                None => None,
            },
            surname: match self.surname {
                Some(s) => Some(s@),
                None => None,
            },
            email: match self.email {
                Some(s) => Some(s@),
                None => None,
            },
            shareable: self.shareable,
            description: match self.description {
                Some(s) => Some(s@),
                None => None,
            },
            website: match self.website {
                Some(s) => Some(s@),
                None => None,
            },
            social_profiles: match self.social_profiles {
                Some(v) => Some(profiles_view(v@)),
                None => None,
            },
        }
    }
}

/// The format rules on an author's optional fields: names of 2 to 40
/// characters, a well-formed email, a description of at most 255 characters,
/// a website that parses as a URL. Absent fields pass.
pub open spec fn author_fields_valid(
    name: Option<Seq<char>>,
    surname: Option<Seq<char>>,
    email: Option<Seq<char>>,
    description: Option<Seq<char>>,
    website: Option<Seq<char>>,
) -> bool {
    &&& (name matches Some(n) ==> 2 <= n.len() <= 40)
    &&& (surname matches Some(n) ==> 2 <= n.len() <= 40)
    &&& (email matches Some(e) ==> is_valid_email(e))
    &&& (description matches Some(d) ==> d.len() <= 255)
    &&& (website matches Some(w) ==> is_valid_url(w))
}

/// Clone a slice of social profiles into a vector with the same views.
fn clone_profiles(src: &[SocialProfile]) -> (r: Vec<SocialProfile>)
    ensures
        profiles_view(r@) == profiles_view(src@),
{
    let mut out: Vec<SocialProfile> = Vec::new();
    let n = src.len();
    let mut i: usize = 0;
    while i < n
        invariant
            i <= n,
            n == src@.len(),
            out@.len() == i,
            forall|j: int| 0 <= j < i ==> (#[trigger] out@[j])@ == src@[j]@,
        decreases n - i,
    {
        out.push(slice_index_get(src, i).clone());
        i += 1;
    }
    proof {
        assert(profiles_view(out@) =~= profiles_view(src@));
    }
    out
}

/// Equality of two optional strings, by view.
fn opt_string_eq(a: &Option<String>, b: &Option<String>) -> (r: bool)
    ensures
        r == (opt_str_view(*a) == opt_str_view(*b)),
{
    match (a, b) {
        (Some(x), Some(y)) => str_eq(x.as_str(), y.as_str()),
        (None, None) => true,
        _ => false,
    }
}

/// Equality of two optional profile lists, by view.
fn opt_profiles_eq(a: &Option<Vec<SocialProfile>>, b: &Option<Vec<SocialProfile>>) -> (r: bool)
    ensures
        r == ((match a {
            Some(v) => Some(profiles_view(v@)),
            None => None::<Seq<SocialProfileView>>,
        }) == (match b {
            Some(v) => Some(profiles_view(v@)),
            None => None::<Seq<SocialProfileView>>,
        })),
{
    match (a, b) {
        (Some(x), Some(y)) => {
            if x.len() != y.len() {
                proof {
                    assert(profiles_view(x@).len() != profiles_view(y@).len());
                }
                return false;
            }
            let n = x.len();
            let mut i: usize = 0;
            while i < n
                invariant
                    i <= n,
                    n == x@.len(),
                    n == y@.len(),
                    *a == Some(*x),
                    *b == Some(*y),
                    forall|j: int| 0 <= j < i ==> (#[trigger] x@[j])@ == y@[j]@,
                decreases n - i,
            {
                let same = str_eq(x[i].provider_name.as_str(), y[i].provider_name.as_str())
                    && str_eq(x[i].website.as_str(), y[i].website.as_str());
                if !same {
                    proof {
                        assert(profiles_view(x@)[i as int] != profiles_view(y@)[i as int]);
                        assert(profiles_view(x@) != profiles_view(y@));
                    }
                    return false;
                }
                i += 1;
            }
            proof {
                assert(profiles_view(x@) =~= profiles_view(y@));
            }
            true
        },
        (None, None) => true,
        _ => false,
    }
}

impl Author {
    /// Build an author from its optional fields, validating each one that is
    /// present.
    ///
    /// An identifier that does not parse is rejected as `InvalidId`, before
    /// anything else is looked at; any other failing field is rejected as
    /// `InvalidParams`. On success the identifier is stored in its canonical
    /// rendering and every other field as given.
    #[allow(clippy::too_many_arguments)]
    pub fn new(
        id: Option<String>,
        name: Option<String>,
        surname: Option<String>,
        email: Option<String>,
        shareable: Option<bool>,
        description: Option<String>,
        website: Option<String>,
        social_profiles: Option<&[SocialProfile]>,
    ) -> (r: Result<Self, DataDomainError>)
        ensures
            r is Ok <==> ((id matches Some(s) ==> uuid_canon(s@) is Some) && author_fields_valid(
                opt_str_view(name),
                opt_str_view(surname),
                opt_str_view(email),
                opt_str_view(description),
                opt_str_view(website),
            )),
            (id matches Some(s) && uuid_canon(s@) is None) ==> r == Err::<Author, DataDomainError>(
                DataDomainError::InvalidId,
            ),
            !(id matches Some(s) && uuid_canon(s@) is None) ==> (r matches Err(e) ==> e
                == DataDomainError::InvalidParams),
            r matches Ok(a) ==> {
                &&& a@.id == (match id {
                    Some(s) => uuid_canon(s@),
                    None => None::<Seq<char>>,
                })
                &&& a@.name == opt_str_view(name)
                &&& a@.surname == opt_str_view(surname)
                &&& a@.email == opt_str_view(email)
                &&& a@.shareable == shareable
                &&& a@.description == opt_str_view(description)
                &&& a@.website == opt_str_view(website)
                &&& a@.social_profiles == (match social_profiles {
                    Some(sp) => Some(profiles_view(sp@)),
                    None => None::<Seq<SocialProfileView>>,
                })
            },
    {
        let id_canon: Option<String> = match &id {
            Some(s) => match parse_uuid(s.as_str()) {
                Some(c) => Some(c),
                None => {
                    return Err(DataDomainError::InvalidId);
                },
            },
            None => None,
        };
        match &name {
            Some(n) => {
                let l = n.as_str().unicode_len();
                if l < 2 || l > 40 {
                    return Err(DataDomainError::InvalidParams);
                }
            },
            None => {},
        }
        match &surname {
            Some(n) => {
                let l = n.as_str().unicode_len();
                if l < 2 || l > 40 {
                    return Err(DataDomainError::InvalidParams);
                }
            },
            None => {},
        }
        match &email {
            Some(e) => {
                if !valid_email(e.as_str()) {
                    return Err(DataDomainError::InvalidParams);
                }
            },
            None => {},
        }
        match &description {
            Some(d) => {
                if d.as_str().unicode_len() > 255 {
                    return Err(DataDomainError::InvalidParams);
                }
            },
            None => {},
        }
        match &website {
            Some(w) => {
                if !valid_url(w.as_str()) {
                    return Err(DataDomainError::InvalidParams);
                }
            },
            None => {},
        }
        let social: Option<Vec<SocialProfile>> = match social_profiles {
            Some(sp) => Some(clone_profiles(sp)),
            None => None,
        };
        Ok(
            Author {
                id: id_canon,
                name,
                surname,
                email,
                shareable,
                description,
                website,
                social_profiles: social,
            },
        )
    }

    /// The author's identifier, in its canonical rendering.
    pub fn id(&self) -> (r: Option<String>)
        ensures
            opt_str_view(r) == self@.id,
    {
        match &self.id {
            Some(s) => Some(s.clone()),
            None => None,
        }
    }

    /// The author's name.
    pub fn name(&self) -> (r: Option<&str>)
        ensures
            r matches Some(s) ==> self@.name == Some(s@),
            r is None ==> self@.name is None,
    {
        match &self.name {
            Some(s) => Some(s.as_str()),
            None => None,
        }
    }

    /// The author's surname.
    pub fn surname(&self) -> (r: Option<&str>)
        ensures
            r matches Some(s) ==> self@.surname == Some(s@),
            r is None ==> self@.surname is None,
    {
        match &self.surname {
            Some(s) => Some(s.as_str()),
            None => None,
        }
    }

    /// The author's email.
    pub fn email(&self) -> (r: Option<&str>)
        ensures
            r matches Some(s) ==> self@.email == Some(s@),
            r is None ==> self@.email is None,
    {
        match &self.email {
            Some(s) => Some(s.as_str()),
            None => None,
        }
    }

    /// Whether the profile may be shared; an unset flag counts as private.
    pub fn shareable(&self) -> (r: bool)
        ensures
            r == (self@.shareable == Some(true)),
    {
        match self.shareable {
            Some(b) => b,
            None => false,
        }
    }

    /// The author's description.
    pub fn description(&self) -> (r: Option<&str>)
        ensures
            r matches Some(s) ==> self@.description == Some(s@),
            r is None ==> self@.description is None,
    {
        match &self.description {
            Some(s) => Some(s.as_str()),
            None => None,
        }
    }

    /// The author's website.
    pub fn website(&self) -> (r: Option<&str>)
        ensures
            r matches Some(s) ==> self@.website == Some(s@),
            r is None ==> self@.website is None,
    {
        match &self.website {
            Some(s) => Some(s.as_str()),
            None => None,
        }
    }

    /// The author's social profiles.
    pub fn social_profiles(&self) -> (r: Option<&[SocialProfile]>)
        ensures
            r matches Some(s) ==> self@.social_profiles == Some(profiles_view(s@)),
            r is None ==> self@.social_profiles is None,
    {
        match &self.social_profiles {
            Some(v) => Some(v.as_slice()),
            None => None,
        }
    }

    /// Blank the private fields — email and description — unless the profile
    /// is marked shareable.
    pub fn mute_private_data(&mut self)
        ensures
            old(self)@.shareable == Some(true) ==> final(self)@ == old(self)@,
            old(self)@.shareable != Some(true) ==> final(self)@ == (AuthorView {
                email: None,
                description: None,
                ..old(self)@
            }),
    {
        if !self.shareable() {
            self.email = None;
            self.description = None;
        }
    }

    /// Allow sharing the profile.
    pub fn enable_sharing(&mut self)
        ensures
            final(self)@ == (AuthorView { shareable: Some(true), ..old(self)@ }),
    {
        self.shareable = Some(true);
    }

    /// Forbid sharing the profile.
    pub fn disable_sharing(&mut self)
        ensures
            final(self)@ == (AuthorView { shareable: Some(false), ..old(self)@ }),
    {
        self.shareable = Some(false);
    }

    /// Replace each field that the update carries, keeping the rest: the
    /// PATCH semantics.
    pub fn update_from(&mut self, update: &Author)
        ensures
            final(self)@.id == (if update@.id is Some {
                update@.id
            } else {
                old(self)@.id
            }),
            final(self)@.name == (if update@.name is Some {
                update@.name
            } else {
                old(self)@.name
            }),
            final(self)@.surname == (if update@.surname is Some {
                update@.surname
            } else {
                old(self)@.surname
            }),
            final(self)@.email == (if update@.email is Some {
                update@.email
            } else {
                old(self)@.email
            }),
            final(self)@.shareable == old(self)@.shareable,
            final(self)@.description == (if update@.description is Some {
                update@.description
            } else {
                old(self)@.description
            }),
            final(self)@.website == (if update@.website is Some {
                update@.website
            } else {
                old(self)@.website
            }),
            final(self)@.social_profiles == (if update@.social_profiles is Some {
                update@.social_profiles
            } else {
                old(self)@.social_profiles
            }),
    {
        match &update.id {
            Some(s) => {
                self.id = Some(s.clone());
            },
            None => {},
        }
        match &update.name {
            Some(s) => {
                self.name = Some(s.clone());
            },
            None => {},
        }
        match &update.surname {
            Some(s) => {
                self.surname = Some(s.clone());
            },
            None => {},
        }
        match &update.email {
            Some(s) => {
                self.email = Some(s.clone());
            },
            None => {},
        }
        match &update.description {
            Some(s) => {
                self.description = Some(s.clone());
            },
            None => {},
        }
        match &update.website {
            Some(s) => {
                self.website = Some(s.clone());
            },
            None => {},
        }
        match &update.social_profiles {
            Some(v) => {
                self.social_profiles = Some(clone_profiles(v.as_slice()));
            },
            None => {},
        }
    }
}

impl Default for Author {
    /// A fresh author: a new unique identifier, sharing off, nothing else.
    fn default() -> (r: Self)
        ensures
            r@.id matches Some(s) && s.len() == 36,
            r@.name is None,
            r@.surname is None,
            r@.email is None,
            r@.shareable == Some(false),
            r@.description is None,
            r@.website is None,
            r@.social_profiles is None,
    {
        Author {
            id: Some(fresh_uuid_string()),
            name: None,
            surname: None,
            email: None,
            shareable: Some(false),
            description: None,
            website: None,
            social_profiles: None,
        }
    }
}

impl PartialEq for Author {
    /// Authors compare by their personal fields; the identifier and the
    /// website are not part of the comparison.
    fn eq(&self, other: &Self) -> bool {
        opt_string_eq(&self.name, &other.name) && opt_string_eq(&self.surname, &other.surname)
            && opt_string_eq(&self.email, &other.email) && (match (
            &self.shareable,
            &other.shareable,
        ) {
            (Some(x), Some(y)) => *x == *y,
            (None, None) => true,
            _ => false,
        }) && opt_string_eq(&self.description, &other.description) && opt_profiles_eq(
            &self.social_profiles,
            &other.social_profiles,
        )
    }
}

impl vstd::std_specs::cmp::PartialEqSpecImpl for Author {
    open spec fn obeys_eq_spec() -> bool {
        true
    }

    open spec fn eq_spec(&self, other: &Author) -> bool {
        self@.name == other@.name && self@.surname == other@.surname && self@.email == other@.email
            && self@.shareable == other@.shareable && self@.description == other@.description
            && self@.social_profiles == other@.social_profiles
    }
}

/// Mathematical image of an [`AuthorBuilder`].
pub ghost struct AuthorBuilderView {
    pub id: Option<Seq<char>>,
    pub name: Option<Seq<char>>,
    pub surname: Option<Seq<char>>,
    pub email: Option<Seq<char>>,
    pub shareable: bool,
    pub description: Option<Seq<char>>,
    pub website: Option<Seq<char>>,
    pub social_profiles: Option<Seq<SocialProfileView>>,
}

/// Builder for [`Author`]: set any subset of fields, then [`AuthorBuilder::build`].
pub struct AuthorBuilder {
    id: Option<String>,
    name: Option<String>,
    surname: Option<String>,
    email: Option<String>,
    shareable: bool,
    description: Option<String>,
    website: Option<String>,
    social_profiles: Option<Vec<SocialProfile>>,
}

impl View for AuthorBuilder {
    type V = AuthorBuilderView;

    closed spec fn view(&self) -> AuthorBuilderView {
        AuthorBuilderView {
            id: match self.id {
                Some(s) => Some(s@),
                None => None,
            },
            name: match self.name {
                Some(s) => Some(s@),
                None => None,
            },
            surname: match self.surname {
                Some(s) => Some(s@),
                None => None,
            },
            email: match self.email {
                Some(s) => Some(s@),
                None => None,
            },
            shareable: self.shareable,
            description: match self.description {
                Some(s) => Some(s@),
                None => None,
            },
            website: match self.website {
                Some(s) => Some(s@),
                None => None,
            },
            social_profiles: match self.social_profiles {
                Some(v) => Some(profiles_view(v@)),
                None => None,
            },
        }
    }
}

impl Default for AuthorBuilder {
    /// A builder with nothing set and sharing off.
    fn default() -> (r: Self)
        ensures
            r@.id is None,
            r@.name is None,
            r@.surname is None,
            r@.email is None,
            !r@.shareable,
            r@.description is None,
            r@.website is None,
            r@.social_profiles is None,
    {
        AuthorBuilder {
            id: None,
            name: None,
            surname: None,
            email: None,
            shareable: false,
            description: None,
            website: None,
            social_profiles: None,
        }
    }
}

impl AuthorBuilder {
    /// Set the identifier.
    pub fn set_id(self, id: &str) -> (r: Self)
        ensures
            r@ == (AuthorBuilderView { id: Some(id@), ..self@ }),
    {
        AuthorBuilder { id: Some(String::from_str(id)), ..self }
    }

    /// Set the name.
    pub fn set_name(self, name: &str) -> (r: Self)
        ensures
            r@ == (AuthorBuilderView { name: Some(name@), ..self@ }),
    {
        AuthorBuilder { name: Some(String::from_str(name)), ..self }
    }

    /// Set the surname.
    pub fn set_surname(self, surname: &str) -> (r: Self)
        ensures
            r@ == (AuthorBuilderView { surname: Some(surname@), ..self@ }),
    {
        AuthorBuilder { surname: Some(String::from_str(surname)), ..self }
    }

    /// Set the email.
    pub fn set_email(self, email: &str) -> (r: Self)
        ensures
            r@ == (AuthorBuilderView { email: Some(email@), ..self@ }),
    {
        AuthorBuilder { email: Some(String::from_str(email)), ..self }
    }

    /// Set whether the profile may be shared.
    pub fn set_shareable(self, shareable: bool) -> (r: Self)
        ensures
            r@ == (AuthorBuilderView { shareable, ..self@ }),
    {
        AuthorBuilder { shareable, ..self }
    }

    /// Set the description.
    pub fn set_description(self, description: &str) -> (r: Self)
        ensures
            r@ == (AuthorBuilderView { description: Some(description@), ..self@ }),
    {
        AuthorBuilder { description: Some(String::from_str(description)), ..self }
    }

    /// Set the website.
    pub fn set_website(self, website: &str) -> (r: Self)
        ensures
            r@ == (AuthorBuilderView { website: Some(website@), ..self@ }),
    {
        AuthorBuilder { website: Some(String::from_str(website)), ..self }
    }

    /// Set the social profiles.
    pub fn set_social_profiles(self, profiles: &[SocialProfile]) -> (r: Self)
        ensures
            r@ == (AuthorBuilderView {
                social_profiles: Some(profiles_view(profiles@)),
                ..self@
            }),
    {
        AuthorBuilder { social_profiles: Some(clone_profiles(profiles)), ..self }
    }

    /// Build the author, validating every field that was set, as
    /// [`Author::new`] does.
    pub fn build(self) -> (r: Result<Author, DataDomainError>)
        ensures
            r is Ok <==> ((self@.id matches Some(s) ==> uuid_canon(s) is Some)
                && author_fields_valid(
                self@.name,
                self@.surname,
                self@.email,
                self@.description,
                self@.website,
            )),
            r matches Ok(a) ==> {
                &&& a@.id == (match self@.id {
                    Some(s) => uuid_canon(s),
                    None => None::<Seq<char>>,
                })
                &&& a@.name == self@.name
                &&& a@.surname == self@.surname
                &&& a@.email == self@.email
                &&& a@.shareable == Some(self@.shareable)
                &&& a@.description == self@.description
                &&& a@.website == self@.website
                &&& a@.social_profiles == self@.social_profiles
            },
    {
        let AuthorBuilder {
            id,
            name,
            surname,
            email,
            shareable,
            description,
            website,
            social_profiles,
        } = self;
        let social_ref: Option<&[SocialProfile]> = match &social_profiles {
            Some(v) => Some(v.as_slice()),
            None => None,
        };
        Author::new(id, name, surname, email, Some(shareable), description, website, social_ref)
    }
}

} // verus!
