//! Recipe query types: ratings, difficulty categories, quantity units, and
//! the query object that searches take.

use crate::errors::DataDomainError;
use crate::strutil::str_eq;
use vstd::prelude::*;
use vstd::string::*;

verus! {

/// A five-star rating.
#[derive(Clone, Copy, Debug, PartialEq, Eq, Structural)]
pub enum StarRate {
    /// No rating.
    Null,
    /// One star.
    One,
    /// Two stars.
    Two,
    /// Three stars.
    Three,
    /// Four stars.
    Four,
    /// Five stars.
    Five,
}

impl StarRate {
    /// The rating as a digit string.
    pub fn to_str(&self) -> (r: &'static str)
        ensures
            match self {
                StarRate::Null => r@ == "0"@,
                StarRate::One => r@ == "1"@,
                StarRate::Two => r@ == "2"@,
                StarRate::Three => r@ == "3"@,
                StarRate::Four => r@ == "4"@,
                StarRate::Five => r@ == "5"@,
            },
    {
        match self {
            StarRate::Null => "0",
            StarRate::One => "1",
            StarRate::Two => "2",
            StarRate::Three => "3",
            StarRate::Four => "4",
            StarRate::Five => "5",
        }
    }

    /// The rating as a number of stars.
    pub fn to_u8(&self) -> (r: u8)
        ensures
            match self {
                StarRate::Null => r == 0,
                StarRate::One => r == 1,
                StarRate::Two => r == 2,
                StarRate::Three => r == 3,
                StarRate::Four => r == 4,
                StarRate::Five => r == 5,
            },
    {
        match self {
            StarRate::Null => 0,
            StarRate::One => 1,
            StarRate::Two => 2,
            StarRate::Three => 3,
            StarRate::Four => 4,
            StarRate::Five => 5,
        }
    }
}

/// Difficulty categories of recipes.
#[derive(Clone, Copy, Debug, PartialEq, Eq, Structural)]
pub enum RecipeCategory {
    /// No special equipment nor uncommon spirits.
    Easy,
    /// Basic equipment, common spirits.
    Medium,
    /// Specific equipment, possibly uncommon spirits.
    Advanced,
    /// Complicated techniques or very special equipment.
    Pro,
}

impl RecipeCategory {
    /// The category's canonical lowercase name.
    pub fn to_str(&self) -> (r: &'static str)
        ensures
            match self {
                RecipeCategory::Easy => r@ == "easy"@,
                RecipeCategory::Medium => r@ == "medium"@,
                RecipeCategory::Advanced => r@ == "advanced"@,
                RecipeCategory::Pro => r@ == "pro"@,
            },
    {
        match self {
            RecipeCategory::Easy => "easy",
            RecipeCategory::Medium => "medium",
            RecipeCategory::Advanced => "advanced",
            RecipeCategory::Pro => "pro",
        }
    }

    /// Parse a lowercase category name.
    pub fn parse(value: &str) -> (r: Result<RecipeCategory, DataDomainError>)
        ensures
            r matches Ok(c) ==> match c {
                RecipeCategory::Easy => value@ == "easy"@,
                RecipeCategory::Medium => value@ == "medium"@,
                RecipeCategory::Advanced => value@ == "advanced"@,
                RecipeCategory::Pro => value@ == "pro"@,
            },
            r is Err ==> value@ != "easy"@ && value@ != "medium"@ && value@ != "advanced"@
                && value@ != "pro"@,
            r matches Err(e) ==> e == DataDomainError::InvalidRecipeCategory,
    {
        if str_eq(value, "easy") {
            Ok(RecipeCategory::Easy)
        } else if str_eq(value, "medium") {
            Ok(RecipeCategory::Medium)
        } else if str_eq(value, "advanced") {
            Ok(RecipeCategory::Advanced)
        } else if str_eq(value, "pro") {
            Ok(RecipeCategory::Pro)
        } else {
            Err(DataDomainError::InvalidRecipeCategory)
        }
    }
}

/// Common units of quantity in recipes.
#[derive(Clone, Copy, Debug, PartialEq, Eq, Structural)]
pub enum QuantityUnit {
    /// Grams.
    Grams,
    /// Millilitres.
    MilliLiter,
    /// A dash.
    Dash,
    /// A whole unit of the ingredient.
    Unit,
    /// Ounces.
    Ounces,
    /// Drops.
    Drops,
    /// A tablespoon.
    TableSpoon,
    /// A teaspoon.
    TeaSpoon,
    /// Cups.
    Cups,
}

impl QuantityUnit {
    /// The unit's canonical abbreviation.
    pub fn to_str(&self) -> (r: &'static str)
        ensures
            match self {
                QuantityUnit::Grams => r@ == "g"@,
                QuantityUnit::MilliLiter => r@ == "ml"@,
                QuantityUnit::Dash => r@ == "dash"@,
                QuantityUnit::Unit => r@ == "unit"@,
                QuantityUnit::Ounces => r@ == "oz"@,
                QuantityUnit::Drops => r@ == "drop"@,
                QuantityUnit::TableSpoon => r@ == "tbsp"@,
                QuantityUnit::TeaSpoon => r@ == "tsp"@,
                QuantityUnit::Cups => r@ == "cup"@,
            },
    {
        match self {
            QuantityUnit::Grams => "g",
            QuantityUnit::MilliLiter => "ml",
            QuantityUnit::Dash => "dash",
            QuantityUnit::Unit => "unit",
            QuantityUnit::Ounces => "oz",
            QuantityUnit::Drops => "drop",
            QuantityUnit::TableSpoon => "tbsp",
            QuantityUnit::TeaSpoon => "tsp",
            QuantityUnit::Cups => "cup",
        }
    }

    /// Parse a unit's abbreviation.
    pub fn parse(value: &str) -> (r: Result<QuantityUnit, DataDomainError>)
        ensures
            r matches Ok(u) ==> match u {
                QuantityUnit::Grams => value@ == "g"@,
                QuantityUnit::MilliLiter => value@ == "ml"@,
                QuantityUnit::Dash => value@ == "dash"@,
                QuantityUnit::Unit => value@ == "unit"@,
                QuantityUnit::Ounces => value@ == "oz"@,
                QuantityUnit::Drops => value@ == "drop"@,
                QuantityUnit::TableSpoon => value@ == "tbsp"@,
                QuantityUnit::TeaSpoon => value@ == "tsp"@,
                QuantityUnit::Cups => value@ == "cup"@,
            },
            r is Err ==> {
                &&& value@ != "g"@ && value@ != "ml"@ && value@ != "dash"@
                &&& value@ != "unit"@ && value@ != "oz"@ && value@ != "drop"@
                &&& value@ != "tbsp"@ && value@ != "tsp"@ && value@ != "cup"@
            },
            r matches Err(e) ==> e == DataDomainError::InvalidFormData,
    {
        if str_eq(value, "g") {
            Ok(QuantityUnit::Grams)
        } else if str_eq(value, "ml") {
            Ok(QuantityUnit::MilliLiter)
        } else if str_eq(value, "dash") {
            Ok(QuantityUnit::Dash)
        } else if str_eq(value, "unit") {
            Ok(QuantityUnit::Unit)
        } else if str_eq(value, "oz") {
            Ok(QuantityUnit::Ounces)
        } else if str_eq(value, "drop") {
            Ok(QuantityUnit::Drops)
        } else if str_eq(value, "tbsp") {
            Ok(QuantityUnit::TableSpoon)
        } else if str_eq(value, "tsp") {
            Ok(QuantityUnit::TeaSpoon)
        } else if str_eq(value, "cup") {
            Ok(QuantityUnit::Cups)
        } else {
            Err(DataDomainError::InvalidFormData)
        }
    }
}

/// Query object for recipe searches; any subset of the members may be given.
pub struct RecipeQuery {
    /// Search by recipe name.
    pub name: Option<String>,
    /// Search by a comma-separated list of tags.
    pub tags: Option<String>,
    /// Search by rating.
    pub rating: Option<StarRate>,
    /// Search by difficulty category.
    pub category: Option<RecipeCategory>,
}

/// Whether a combination of search criteria names more than one of them.
pub open spec fn spec_multiple_choices(
    name: bool,
    tags: bool,
    rating: bool,
    category: bool,
) -> bool {
    (name && (tags || rating || category)) || (tags && (rating || category)) || (rating && category)
}

/// A `/n` separator starts at position `j` of the string.
pub open spec fn is_sep_at(s: Seq<char>, j: int) -> bool {
    0 <= j && j + 1 < s.len() && s[j] == '/' && s[j + 1] == 'n'
}

/// Position of the leftmost `/n` separator, or `-1` if there is none.
pub open spec fn spec_first_sep(s: Seq<char>) -> int
    decreases s.len(),
{
    if s.len() < 2 {
        -1
    } else if s[0] == '/' && s[1] == 'n' {
        0
    } else {
        let rest = spec_first_sep(s.drop_first());
        if rest == -1 {
            -1
        } else {
            rest + 1
        }
    }
}

/// The first-separator position is a separator with none before it, and `-1`
/// exactly when the string holds no separator.
proof fn lemma_first_sep_charac(s: Seq<char>)
    ensures
        spec_first_sep(s) == -1 ==> forall|j: int| !is_sep_at(s, j),
        spec_first_sep(s) != -1 ==> is_sep_at(s, spec_first_sep(s)) && (forall|j: int|
            0 <= j < spec_first_sep(s) ==> !is_sep_at(s, j)),
    decreases s.len(),
{
    if s.len() >= 2 && !(s[0] == '/' && s[1] == 'n') {
        lemma_first_sep_charac(s.drop_first());
        let rest = spec_first_sep(s.drop_first());
        if rest != -1 {
            assert(s[rest + 1] == s.drop_first()[rest]);
            assert(s[rest + 2] == s.drop_first()[rest + 1]);
            assert forall|j: int| 0 <= j < rest + 1 implies !is_sep_at(s, j) by {
                if j > 0 && is_sep_at(s, j) {
                    assert(s.drop_first()[j - 1] == s[j]);
                    assert(s.drop_first()[j] == s[j + 1]);
                    assert(is_sep_at(s.drop_first(), j - 1));
                }
            }
        } else {
            assert forall|j: int| !is_sep_at(s, j) implies true by {}
            assert forall|j: int| is_sep_at(s, j) implies false by {
                if j == 0 {
                } else {
                    assert(s.drop_first()[j - 1] == s[j]);
                    assert(s.drop_first()[j] == s[j + 1]);
                    assert(is_sep_at(s.drop_first(), j - 1));
                }
            }
        }
    }
}

/// The preparation steps that a `/n`-separated text decomposes into: the text
/// up to the leftmost separator, then the decomposition of what follows it; a
/// text without separator is one step.
pub open spec fn spec_stepize(s: Seq<char>) -> Seq<Seq<char>>
    decreases s.len(),
{
    let k = spec_first_sep(s);
    if 0 <= k && k + 2 <= s.len() {
        seq![s.take(k)] + spec_stepize(s.skip(k + 2))
    } else {
        seq![s]
    }
}

/// The views of a sequence of string slices.
pub open spec fn slice_views(v: Seq<&str>) -> Seq<Seq<char>> {
    v.map_values(|p: &str| p@)
}

/// Split a recipe's preparation text into its steps, at each `/n` separator.
pub fn stepize(steps: &str) -> (r: Vec<&str>)
    ensures
        slice_views(r@) == spec_stepize(steps@),
{
    let mut step_list: Vec<&str> = Vec::new();
    let n = steps.unicode_len();
    let mut start: usize = 0;
    let mut i: usize = 0;
    proof {
        assert(steps@.skip(0) =~= steps@);
        assert(slice_views(step_list@) + spec_stepize(steps@) =~= spec_stepize(steps@));
    }
    while n - i > 1
        invariant
            start <= i <= n,
            n == steps@.len(),
            spec_stepize(steps@) == slice_views(step_list@) + spec_stepize(
                steps@.skip(start as int),
            ),
            forall|j: int| start <= j < i ==> !is_sep_at(steps@, j),
        decreases n - i,
    {
        if steps.get_char(i) == '/' && steps.get_char(i + 1) == 'n' {
            let piece = steps.substring_char(start, i);
            proof {
                let suffix = steps@.skip(start as int);
                lemma_first_sep_charac(suffix);
                assert forall|j: int| 0 <= j < i - start implies !is_sep_at(suffix, j) by {
                    if is_sep_at(suffix, j) {
                        assert(suffix[j] == steps@[start + j]);
                        assert(suffix[j + 1] == steps@[start + j + 1]);
                        assert(is_sep_at(steps@, start + j));
                    }
                }
                assert(suffix[i - start] == steps@[i as int]);
                assert(suffix[i - start + 1] == steps@[i + 1]);
                assert(is_sep_at(suffix, i - start));
                let k = spec_first_sep(suffix);
                if k == -1 {
                    assert(!is_sep_at(suffix, i - start));
                    assert(false);
                } else if k < i - start {
                    assert(!is_sep_at(suffix, k));
                    assert(false);
                } else if k > i - start {
                    assert(!is_sep_at(suffix, i - start));
                    assert(false);
                }
                assert(suffix.take(k) =~= piece@);
                assert(suffix.skip(k + 2) =~= steps@.skip(i as int + 2));
                assert(slice_views(step_list@.push(piece)) =~= slice_views(step_list@).push(
                    piece@,
                ));
                assert(slice_views(step_list@) + spec_stepize(suffix) =~= slice_views(
                    step_list@,
                ).push(piece@) + spec_stepize(steps@.skip(i as int + 2)));
            }
            step_list.push(piece);
            start = i + 2;
            i = start;
        } else {
            i += 1;
        }
    }
    let piece = steps.substring_char(start, n);
    proof {
        let suffix = steps@.skip(start as int);
        lemma_first_sep_charac(suffix);
        assert forall|j: int| is_sep_at(suffix, j) implies false by {
            assert(suffix[j] == steps@[start + j]);
            assert(suffix[j + 1] == steps@[start + j + 1]);
            assert(is_sep_at(steps@, start + j));
            assert(start + j < i || start + j >= i);
        }
        let k = spec_first_sep(suffix);
        if k != -1 {
            assert(is_sep_at(suffix, k));
            assert(false);
        }
        assert(piece@ =~= suffix);
        assert(slice_views(step_list@.push(piece)) =~= slice_views(step_list@).push(piece@));
        assert(slice_views(step_list@).push(suffix) =~= slice_views(step_list@) + spec_stepize(
            suffix,
        ));
    }
    step_list.push(piece);
    step_list
}

/// Whether the query names more than one search criterion, in which case a
/// search must intersect the result sets.
pub fn multiple_choices(query: &RecipeQuery) -> (r: bool)
    ensures
        r == spec_multiple_choices(
            query.name is Some,
            query.tags is Some,
            query.rating is Some,
            query.category is Some,
        ),
{
    (query.name.is_some() && (query.tags.is_some() || query.rating.is_some()
        || query.category.is_some())) || (query.tags.is_some() && (query.rating.is_some()
        || query.category.is_some())) || (query.rating.is_some() && query.category.is_some())
}

} // verus!
