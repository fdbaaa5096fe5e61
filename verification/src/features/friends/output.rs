use vstd::prelude::*;

use crate::text::prefixed;

verus! {

/// The last message exchanged with a user.
pub struct LastMessage {
    pub id: u128,
    pub sender_id: u128,
    pub content: String,
    /// In microseconds since the epoch.
    pub created_at: i64,
}

/// A user as listed to another.
pub struct UserSummary {
    pub id: u128,
    pub username: String,
    pub profile_picture_url: Option<String>,
    pub last_message: Option<LastMessage>,
}

/// Where a friend request stands.
#[derive(Debug, Clone, Copy, PartialEq, Eq, Structural)]
pub enum FriendRequestStatus {
    Pending,
    Accepted,
    Rejected,
}

impl FriendRequestStatus {
    pub open spec fn text_spec(self) -> Seq<char> {
        match self {
            FriendRequestStatus::Pending => "pending"@,
            FriendRequestStatus::Accepted => "accepted"@,
            FriendRequestStatus::Rejected => "rejected"@,
        }
    }

    /// The status's text.
    pub fn as_str(&self) -> (r: &'static str)
        ensures
            r@ == self.text_spec(),
    {
        proof {
            reveal_strlit("pending");
            reveal_strlit("accepted");
            reveal_strlit("rejected");
        }
        match self {
            FriendRequestStatus::Pending => "pending",
            FriendRequestStatus::Accepted => "accepted",
            FriendRequestStatus::Rejected => "rejected",
        }
    }
}

/// A friend request.
pub struct FriendRequest {
    pub id: u128,
    pub sender_id: u128,
    pub sender_username: String,
    pub receiver_id: u128,
    pub receiver_username: String,
    pub status: FriendRequestStatus,
    /// In microseconds since the epoch.
    pub created_at: i64,
    pub updated_at: i64,
}

/// A conflict with the requests already stored.
#[derive(Debug, Clone, Copy, PartialEq, Eq, Structural)]
pub enum ConflictError {
    PendingRequestExists,
}

impl ConflictError {
    pub open spec fn message_spec(&self) -> Seq<char> {
        "A pending friend request already exists between these users."@
    }

    /// The text this error displays.
    pub fn message(&self) -> (r: String)
        ensures
            r@ == self.message_spec(),
    {
        String::from_str("A pending friend request already exists between these users.")
    }
}

/// Errors of the friendship port.
#[derive(Debug)]
pub enum PortError {
    Conflict(ConflictError),
    Internal(String),
}

impl PortError {
    pub open spec fn message_spec(&self) -> Seq<char> {
        match self {
            PortError::Conflict(c) => c.message_spec(),
            PortError::Internal(s) => "Friends repository: "@ + s@,
        }
    }

    /// The text this error displays.
    pub fn message(&self) -> (r: String)
        ensures
            r@ == self.message_spec(),
    {
        match self {
            PortError::Conflict(c) => c.message(),
            PortError::Internal(s) => prefixed("Friends repository: ", s.as_str()),
        }
    }
}

} // verus!
