//! Ingestion of recipes from the meal database: its meals read as recipes,
//! and the rows they are stored in.

pub mod domain;
pub mod input;
pub mod mealdb;
pub mod output;
pub mod postgres;
pub mod service;

pub use domain::Recipe;
pub use input::UseCaseError;
pub use mealdb::MealdbAdapter;
pub use output::{ExternalRepositoryError, LocalRepositoryError};
pub use postgres::PostgresAdapter;
pub use service::{IngestionRun, IngestionStep};
