//! Groups of recipes a user keeps; only the owner of a group reads or
//! changes its recipes.

pub mod domain;
pub mod input;
pub mod output;
pub mod postgres;
pub mod service;

pub use domain::{Group, RecipesGroup};
pub use input::UseCaseError;
pub use output::LocalRepositoryError;
pub use postgres::PostgresAdapter;
