//! Ingredients of the recipe catalog: their categories and the format rules
//! on their names and descriptions.

use crate::errors::DataDomainError;
use crate::ident::{parse_uuid, uuid_canon};
use crate::strutil::str_eq;
use vstd::prelude::*;
use vstd::string::*;
use vstd::utf8::encode_utf8;

verus! {

/// Longest accepted ingredient name, in bytes.
pub const MAX_NAME_LENGTH: usize = 40;

/// Longest accepted ingredient description, in bytes.
pub const MAX_DESC_LENGTH: usize = 255;

/// Types of ingredients.
#[derive(Clone, Copy, Debug, PartialEq, Eq, Structural)]
pub enum IngCategory {
    /// Spirit ingredients, such as rum or liquors.
    Spirit,
    /// Bitter ingredients, such as Angostura.
    Bitter,
    /// Soft-drink ingredients, such as soda water.
    SoftDrink,
    /// Garnish ingredients, such as a lemon's peel.
    Garnish,
    /// Ingredients that fit no other category.
    Other,
}

/// The category a name parses to, accepting the capitalized and the lowercase
/// spellings that the service has always taken.
pub open spec fn spec_parse_category(s: Seq<char>) -> Option<IngCategory> {
    if s == "Spirit"@ || s == "spirit"@ {
        Some(IngCategory::Spirit)
    } else if s == "Bitter"@ || s == "bitter"@ {
        Some(IngCategory::Bitter)
    } else if s == "SofDrink"@ || s == "softdrink"@ || s == "soft_drink"@ {
        Some(IngCategory::SoftDrink)
    } else if s == "Garnish"@ || s == "garnish"@ {
        Some(IngCategory::Garnish)
    } else if s == "Other"@ || s == "other"@ {
        Some(IngCategory::Other)
    } else {
        None
    }
}

impl IngCategory {
    /// The category's canonical lowercase name.
    pub fn to_str(&self) -> (r: &'static str)
        ensures
            match self {
                IngCategory::Bitter => r@ == "bitter"@,
                IngCategory::Garnish => r@ == "garnish"@,
                IngCategory::SoftDrink => r@ == "soft_drink"@,
                IngCategory::Spirit => r@ == "spirit"@,
                IngCategory::Other => r@ == "other"@,
            },
    {
        match self {
            IngCategory::Bitter => "bitter",
            IngCategory::Garnish => "garnish",
            IngCategory::SoftDrink => "soft_drink",
            IngCategory::Spirit => "spirit",
            IngCategory::Other => "other",
        }
    }

    /// Parse a category name; exactly the names [`spec_parse_category`]
    /// accepts are taken.
    pub fn parse(value: &str) -> (r: Result<IngCategory, DataDomainError>)
        ensures
            r is Ok <==> spec_parse_category(value@) is Some,
            r matches Ok(c) ==> Some(c) == spec_parse_category(value@),
            r matches Err(e) ==> e == DataDomainError::InvalidFormData,
    {
        if str_eq(value, "Spirit") || str_eq(value, "spirit") {
            Ok(IngCategory::Spirit)
        } else if str_eq(value, "Bitter") || str_eq(value, "bitter") {
            Ok(IngCategory::Bitter)
        } else if str_eq(value, "SofDrink") || str_eq(value, "softdrink") || str_eq(
            value,
            "soft_drink",
        ) {
            Ok(IngCategory::SoftDrink)
        } else if str_eq(value, "Garnish") || str_eq(value, "garnish") {
            Ok(IngCategory::Garnish)
        } else if str_eq(value, "Other") || str_eq(value, "other") {
            Ok(IngCategory::Other)
        } else {
            Err(DataDomainError::InvalidFormData)
        }
    }
}

/// ASCII letters: what an ingredient name must start with.
pub open spec fn is_ascii_alpha(c: char) -> bool {
    ('a' <= c && c <= 'z') || ('A' <= c && c <= 'Z')
}

/// The characters an ingredient name must not contain.
pub open spec fn is_forbidden_name_char(c: char) -> bool {
    c == ';' || c == '<' || c == '>' || c == '`' || c == '{' || c == '}'
}

/// The format rule on an ingredient's name: at most [`MAX_NAME_LENGTH`]
/// bytes, starting with an ASCII letter, free of the forbidden characters.
pub open spec fn ingredient_name_valid(s: Seq<char>) -> bool {
    &&& encode_utf8(s).len() <= MAX_NAME_LENGTH
    &&& s.len() > 0
    &&& is_ascii_alpha(s[0])
    &&& forall|i: int| 0 <= i < s.len() ==> !is_forbidden_name_char(#[trigger] s[i])
}

/// The format rule on an ingredient's description: at most
/// [`MAX_DESC_LENGTH`] bytes.
pub open spec fn ingredient_desc_valid(s: Seq<char>) -> bool {
    encode_utf8(s).len() <= MAX_DESC_LENGTH
}

/// Mathematical image of an [`Ingredient`].
pub ghost struct IngredientView {
    pub id: Option<Seq<char>>,
    pub name: Seq<char>,
    pub category: IngCategory,
    pub description: Option<Seq<char>>,
}

/// An ingredient of a recipe: a validated name, a category, an optional
/// description, and — once stored — a unique identifier.
#[derive(Debug)]
pub struct Ingredient {
    id: Option<String>,
    name: String,
    category: IngCategory,
    description: Option<String>,
}

impl View for Ingredient {
    type V = IngredientView;

    closed spec fn view(&self) -> IngredientView {
        IngredientView {
            id: match self.id {
                Some(s) => Some(s@),
                None => None,
            },
            name: self.name@,
            category: self.category,
            description: match self.description {
                Some(s) => Some(s@),
                None => None,
            },
        }
    }
}

/// Whether a name passes [`ingredient_name_valid`].
fn check_name(name: &str) -> (r: bool)
    ensures
        r == ingredient_name_valid(name@),
{
    if name.as_bytes().len() > MAX_NAME_LENGTH {
        return false;
    }
    let n = name.unicode_len();
    if n == 0 {
        return false;
    }
    let first = name.get_char(0);
    if !(('a' <= first && first <= 'z') || ('A' <= first && first <= 'Z')) {
        return false;
    }
    let mut i: usize = 0;
    while i < n
        invariant
            i <= n,
            n == name@.len(),
            forall|j: int| 0 <= j < i ==> !is_forbidden_name_char(#[trigger] name@[j]),
        decreases n - i,
    {
        let c = name.get_char(i);
        if c == ';' || c == '<' || c == '>' || c == '`' || c == '{' || c == '}' {
            return false;
        }
        i += 1;
    }
    true
}

impl Ingredient {
    /// Build an ingredient, validating every given part.
    ///
    /// An identifier that does not parse is rejected as `InvalidId`; a name
    /// or description that breaks its format rule, or an unknown category
    /// name, as `InvalidFormData`. The identifier is stored in its canonical
    /// rendering.
    pub fn parse(
        id: Option<&str>,
        name: &str,
        category: &str,
        description: Option<&str>,
    ) -> (r: Result<Self, DataDomainError>)
        ensures
            r is Ok <==> ((id matches Some(s) ==> uuid_canon(s@) is Some)
                && ingredient_name_valid(name@) && spec_parse_category(category@) is Some && (
            description matches Some(d) ==> ingredient_desc_valid(d@))),
            (id matches Some(s) && uuid_canon(s@) is None) ==> r == Err::<
                Ingredient,
                DataDomainError,
            >(DataDomainError::InvalidId),
            !(id matches Some(s) && uuid_canon(s@) is None) ==> (r matches Err(e) ==> e
                == DataDomainError::InvalidFormData),
            r matches Ok(i) ==> {
                &&& i@.id == (match id {
                    Some(s) => uuid_canon(s@),
                    None => None::<Seq<char>>,
                })
                &&& i@.name == name@
                &&& Some(i@.category) == spec_parse_category(category@)
                &&& i@.description == (match description {
                    Some(d) => Some(d@),
                    None => None::<Seq<char>>,
                })
            },
    {
        let id_canon: Option<String> = match id {
            Some(s) => match parse_uuid(s) {
                Some(c) => Some(c),
                None => {
                    return Err(DataDomainError::InvalidId);
                },
            },
            None => None,
        };
        if !check_name(name) {
            return Err(DataDomainError::InvalidFormData);
        }
        let category = match IngCategory::parse(category) {
            Ok(c) => c,
            Err(e) => {
                return Err(e);
            },
        };
        let description: Option<String> = match description {
            Some(d) => {
                if d.as_bytes().len() > MAX_DESC_LENGTH {
                    return Err(DataDomainError::InvalidFormData);
                }
                Some(String::from_str(d))
            },
            None => None,
        };
        Ok(
            Ingredient {
                id: id_canon,
                name: String::from_str(name),
                category,
                description,
            },
        )
    }

    /// The ingredient's name.
    pub fn name(&self) -> (r: &str)
        ensures
            r@ == self@.name,
    {
        self.name.as_str()
    }

    /// The ingredient's category.
    pub fn category(&self) -> (r: IngCategory)
        ensures
            r == self@.category,
    {
        self.category
    }

    /// The ingredient's description, if any.
    pub fn desc(&self) -> (r: Option<&str>)
        ensures
            r matches Some(d) ==> self@.description == Some(d@),
            r is None ==> self@.description is None,
    {
        match &self.description {
            Some(d) => Some(d.as_str()),
            None => None,
        }
    }

    /// The ingredient's identifier, in its canonical rendering, if one was
    /// assigned.
    pub fn id(&self) -> (r: Option<&str>)
        ensures
            r matches Some(s) ==> self@.id == Some(s@),
            r is None ==> self@.id is None,
    {
        match &self.id {
            Some(s) => Some(s.as_str()),
            None => None,
        }
    }

    /// Assign the identifier the store chose for the ingredient. A string
    /// that does not parse as an identifier is rejected.
    pub fn set_id(&mut self, id: &str) -> (r: Result<(), DataDomainError>)
        ensures
            r is Ok <==> uuid_canon(id@) is Some,
            r is Ok ==> final(self)@ == (IngredientView {
                id: uuid_canon(id@),
                ..old(self)@
            }),
            r is Err ==> final(self)@ == old(self)@ && r == Err::<(), DataDomainError>(
                DataDomainError::InvalidId,
            ),
    {
        match parse_uuid(id) {
            Some(c) => {
                self.id = Some(c);
                Ok(())
            },
            None => Err(DataDomainError::InvalidId),
        }
    }
}

impl PartialEq for Ingredient {
    /// Ingredients compare by name, category and description; the identifier
    /// is not part of the comparison.
    fn eq(&self, other: &Self) -> bool {
        str_eq(self.name.as_str(), other.name.as_str()) && self.category == other.category && (
        match (&self.description, &other.description) {
            (Some(a), Some(b)) => str_eq(a.as_str(), b.as_str()),
            (None, None) => true,
            _ => false,
        })
    }
}

impl vstd::std_specs::cmp::PartialEqSpecImpl for Ingredient {
    open spec fn obeys_eq_spec() -> bool {
        true
    }

    open spec fn eq_spec(&self, other: &Ingredient) -> bool {
        self@.name == other@.name && self@.category == other@.category && self@.description
            == other@.description
    }
}

} // verus!
