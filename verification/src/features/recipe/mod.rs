//! Recipes: search with cached sessions, lookups through the cache, popular
//! and latest recipes, and recipes created by users.

pub mod domain;
pub mod input;
pub mod output;
pub mod postgres;
pub mod redis;
pub mod service;

pub use domain::{CreateRecipeData, Recipe, RecipeOrigin, RecipePreview, RecipeSearchResult, TagRecipes};
pub use input::{CreateRecipeInput, SearchResultsPage, UseCaseError, UserCreatedRecipesPage};
pub use output::{CacheRepositoryError, LocalRepositoryError};

pub use postgres::PostgresAdapter;
pub use redis::RedisCacheAdapter;
