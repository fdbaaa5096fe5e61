use vstd::prelude::*;

use crate::ingredients::Ingredients;

verus! {

/// A recipe of the meal database.
pub struct Recipe {
    /// The meal database's id of the recipe, a decimal text.
    pub id: String,
    pub name: String,
    pub tags: Vec<String>,
    pub ingredients: Ingredients,
    pub instructions: String,
    pub thumbnail_url: Option<String>,
    pub video_url: Option<String>,
}

} // verus!
