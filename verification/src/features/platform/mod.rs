//! Gaming platforms: synced from the videogame API into the database.

pub mod domain;
pub mod igdb;
pub mod input;
pub mod output;
pub mod postgres;

pub use domain::Platform;
pub use igdb::IgdbAdapter;
pub use input::UseCaseError;
pub use output::{ExternalRepositoryError, InternalRepositoryError};
pub use postgres::PostgresAdapter;
