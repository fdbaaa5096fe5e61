use vstd::prelude::*;

use crate::ingredients::Ingredients;

verus! {

/// A recipe.
pub struct Recipe {
    pub id: u128,
    pub origin: RecipeOrigin,
    pub name: String,
    /// External recipes have no description.
    pub description: Option<String>,
    pub tags: Vec<String>,
    pub ingredients: Ingredients,
    pub instructions: String,
    pub thumbnail_url: Option<String>,
    pub video_url: Option<String>,
    pub created_by: Option<u128>,
}

/// A recipe found by a search.
pub struct RecipeSearchResult {
    pub id: u128,
    pub origin: RecipeOrigin,
    pub name: String,
    pub tags: Vec<String>,
    pub thumbnail_url: Option<String>,
}

/// A recipe in listings.
pub struct RecipePreview {
    pub id: u128,
    pub origin: RecipeOrigin,
    pub name: String,
    pub tags: Vec<String>,
    pub thumbnail_url: Option<String>,
}

/// A tag with some of its recipes.
pub struct TagRecipes {
    pub tag_name: String,
    pub recipes: Vec<RecipePreview>,
}

/// A new recipe as it is stored.
pub struct CreateRecipeData {
    pub id: u128,
    pub name: String,
    pub description: Option<String>,
    pub tags: Vec<String>,
    pub ingredients: Ingredients,
    pub instructions: String,
    pub thumbnail_url: Option<String>,
    pub created_by: u128,
}

/// Where a recipe comes from.
#[derive(Debug, Clone, Copy, PartialEq, Eq, Structural)]
pub enum RecipeOrigin {
    Local,
    External,
}

/// Why a text names no recipe origin: no variant matches it.
#[derive(Debug, Clone, Copy, PartialEq, Eq, Structural)]
pub enum OriginParseError {
    VariantNotFound,
}

impl OriginParseError {
    pub open spec fn message_spec(&self) -> Seq<char> {
        "Matching variant not found"@
    }

    /// The text this error displays.
    pub fn message(&self) -> (r: String)
        ensures
            r@ == self.message_spec(),
    {
        String::from_str("Matching variant not found")
    }
}

impl RecipeOrigin {
    pub open spec fn text_spec(self) -> Seq<char> {
        match self {
            RecipeOrigin::Local => "local"@,
            RecipeOrigin::External => "external"@,
        }
    }

    /// The origin's text.
    pub fn as_text(&self) -> (r: String)
        ensures
            r@ == self.text_spec(),
    {
        match self {
            RecipeOrigin::Local => String::from_str("local"),
            RecipeOrigin::External => String::from_str("external"),
        }
    }

    pub open spec fn parse_spec(s: Seq<char>) -> Result<RecipeOrigin, OriginParseError> {
        if s == "local"@ {
            Ok(RecipeOrigin::Local)
        } else if s == "external"@ {
            Ok(RecipeOrigin::External)
        } else {
            Err(OriginParseError::VariantNotFound)
        }
    }

    /// The origin a text names, exactly `local` or `external`.
    pub fn parse(s: &String) -> (r: Result<RecipeOrigin, OriginParseError>)
        ensures
            r == Self::parse_spec(s@),
    {
        if *s == String::from_str("local") {
            Ok(RecipeOrigin::Local)
        } else if *s == String::from_str("external") {
            Ok(RecipeOrigin::External)
        } else {
            Err(OriginParseError::VariantNotFound)
        }
    }
}

/// Reading an origin's text gives the origin back.
pub proof fn lemma_origin_text_parses_back(o: RecipeOrigin)
    ensures
        RecipeOrigin::parse_spec(o.text_spec()) == Ok::<RecipeOrigin, OriginParseError>(o),
{
    reveal_strlit("local");
    reveal_strlit("external");
    if o == RecipeOrigin::External {
        assert("external"@ != "local"@) by {
            assert("external"@.len() != "local"@.len());
        }
    }
}

} // verus!
