//! Health of the database, and the pagination shared by the features.

pub mod input;
pub mod output;
pub mod pagination;
pub mod postgres;
pub mod service;

pub use input::UseCaseError;
pub use output::PortError;
pub use postgres::{PingDbRow, PostgresAdapter};
