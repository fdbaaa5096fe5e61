//! Messages between friends.

pub mod input;
pub mod output;
pub mod postgres;
pub mod service;

pub use input::UseCaseError;
pub use output::{Message, MessageType, PortError};
pub use postgres::PostgresAdapter;
