use vstd::prelude::*;

use super::output::{ConflictError, PortError};
use crate::text::prefixed;

verus! {

/// Errors of the friendship use cases.
#[derive(Debug)]
pub enum UseCaseError {
    CannotFriendYourself,
    PendingRequestExists,
    RequestNotFound,
    NotReceiver,
    Internal(String),
}

impl UseCaseError {
    pub open spec fn message_spec(&self) -> Seq<char> {
        match self {
            UseCaseError::CannotFriendYourself => "You cannot send a friend request to yourself."@,
            UseCaseError::PendingRequestExists => "A pending friend request already exists between these users."@,
            UseCaseError::RequestNotFound => "Friend request not found."@,
            UseCaseError::NotReceiver => "Only the receiver can accept or reject a friend request."@,
            UseCaseError::Internal(s) => "Friends service: "@ + s@,
        }
    }

    /// The text this error displays.
    pub fn message(&self) -> (r: String)
        ensures
            r@ == self.message_spec(),
    {
        match self {
            UseCaseError::CannotFriendYourself => String::from_str("You cannot send a friend request to yourself."),
            UseCaseError::PendingRequestExists => String::from_str(
                "A pending friend request already exists between these users.",
            ),
            UseCaseError::RequestNotFound => String::from_str("Friend request not found."),
            UseCaseError::NotReceiver => String::from_str(
                "Only the receiver can accept or reject a friend request.",
            ),
            UseCaseError::Internal(s) => prefixed("Friends service: ", s.as_str()),
        }
    }

    /// A conflict keeps its kind; another failure keeps its message.
    pub fn from_port(e: PortError) -> (r: UseCaseError)
        ensures
            e matches PortError::Conflict(c) ==> r matches UseCaseError::PendingRequestExists,
            e matches PortError::Internal(s) ==> r == UseCaseError::Internal(s),
    {
        match e {
            PortError::Conflict(c) => match c {
                ConflictError::PendingRequestExists => UseCaseError::PendingRequestExists,
            },
            PortError::Internal(s) => UseCaseError::Internal(s),
        }
    }
}

} // verus!
