use vstd::prelude::*;

use super::domain::RecipePreview;
use super::output::{CacheRepositoryError, LocalRepositoryError};
use crate::ingredients::Ingredients;
use crate::text::joined;

verus! {

/// A page of search results, with the number of matches and the id of the
/// search session (to ask for other pages of the same results).
pub struct SearchResultsPage {
    pub items: Vec<RecipePreview>,
    pub total_items: usize,
    pub search_id: u128,
}

/// A page of the recipes a user created, with their number.
pub struct UserCreatedRecipesPage {
    pub items: Vec<RecipePreview>,
    pub total_items: usize,
}

/// A recipe that a user creates.
pub struct CreateRecipeInput {
    pub name: String,
    pub description: Option<String>,
    pub tags: Vec<String>,
    pub ingredients: Ingredients,
    pub instructions: String,
    pub thumbnail_url: Option<String>,
    pub created_by: u128,
}

/// Errors of the recipe use cases.
#[derive(Debug)]
pub enum UseCaseError {
    /// Neither a search query nor tags were given.
    MissingSearchParams,
    /// The recipe's name is blank.
    EmptyName,
    /// The recipe's instructions are blank.
    EmptyInstructions,
    Internal(String),
}

impl UseCaseError {
    pub open spec fn message_spec(&self) -> Seq<char> {
        match self {
            UseCaseError::MissingSearchParams => "At least one of 'query' or 'tags' must be provided."@,
            UseCaseError::EmptyName => "Recipe name cannot be empty."@,
            UseCaseError::EmptyInstructions => "Recipe instructions cannot be empty."@,
            UseCaseError::Internal(s) => "Recipe service: "@ + s@ + "."@,
        }
    }

    /// The text this error displays.
    pub fn message(&self) -> (r: String)
        ensures
            r@ == self.message_spec(),
    {
        match self {
            UseCaseError::MissingSearchParams => String::from_str(
                "At least one of 'query' or 'tags' must be provided.",
            ),
            UseCaseError::EmptyName => String::from_str("Recipe name cannot be empty."),
            UseCaseError::EmptyInstructions => String::from_str("Recipe instructions cannot be empty."),
            UseCaseError::Internal(s) => joined("Recipe service: ", s.as_str(), "."),
        }
    }

    /// A database failure, reported by its displayed text.
    pub fn from_local(e: &LocalRepositoryError) -> (r: UseCaseError)
        ensures
            r matches UseCaseError::Internal(s) && s@ == e.message_spec(),
    {
        UseCaseError::Internal(e.message())
    }

    /// A cache failure, reported by its displayed text.
    pub fn from_cache(e: &CacheRepositoryError) -> (r: UseCaseError)
        ensures
            r matches UseCaseError::Internal(s) && s@ == e.message_spec(),
    {
        UseCaseError::Internal(e.message())
    }
}

} // verus!
