//! Friendship: requests between two different users, answered by their
//! receiver, and the users one is friends with.

pub mod input;
pub mod output;
pub mod postgres;
pub mod service;

pub use input::UseCaseError;
pub use output::{ConflictError, FriendRequest, FriendRequestStatus, LastMessage, PortError, UserSummary};
pub use postgres::PostgresAdapter;
