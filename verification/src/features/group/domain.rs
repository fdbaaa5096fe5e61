use vstd::prelude::*;

use crate::features::recipe::RecipePreview;
use crate::ids::new_id;

verus! {

/// A group of recipes.
pub struct Group {
    pub id: u128,
    pub name: String,
    pub description: Option<String>,
    pub created_by_id: u128,
}

impl Group {
    /// A new group under a fresh id.
    pub fn new(name: String, description: Option<String>, created_by_id: u128) -> (g: Group)
        ensures
            g.name == name,
            g.description == description,
            g.created_by_id == created_by_id,
    {
        Group { id: new_id(), name, description, created_by_id }
    }
}

/// A group with some of its recipes and their number.
pub struct RecipesGroup {
    pub group_id: u128,
    pub group_name: String,
    pub recipes: Vec<RecipePreview>,
    pub total_recipes: usize,
}

} // verus!
