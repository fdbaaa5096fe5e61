//! Applications for the Critic role: one open application per user, and the
//! admin's decision that approves it, granting the role, or rejects it.

pub mod domain;
pub mod input;
pub mod output;
pub mod postgres;
pub mod service;

pub use domain::{ApplicationStatus, CriticApplication};
pub use input::UseCaseError;
pub use output::RepositoryError;
pub use postgres::PostgresAdapter;
