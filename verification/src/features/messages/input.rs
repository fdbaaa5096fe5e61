use vstd::prelude::*;

use super::output::PortError;
use crate::features::friends;
use crate::text::prefixed;

verus! {

/// Errors of the messages use cases.
#[derive(Debug)]
pub enum UseCaseError {
    NotFriends,
    CannotMessageYourself,
    Internal(String),
}

impl UseCaseError {
    pub open spec fn message_spec(&self) -> Seq<char> {
        match self {
            UseCaseError::NotFriends => "You are not friends with this user."@,
            UseCaseError::CannotMessageYourself => "Cannot send a message to yourself."@,
            UseCaseError::Internal(s) => "Messages service: "@ + s@,
        }
    }

    /// The text this error displays.
    pub fn message(&self) -> (r: String)
        ensures
            r@ == self.message_spec(),
    {
        match self {
            UseCaseError::NotFriends => String::from_str("You are not friends with this user."),
            UseCaseError::CannotMessageYourself => String::from_str("Cannot send a message to yourself."),
            UseCaseError::Internal(s) => prefixed("Messages service: ", s.as_str()),
        }
    }

    /// A messages port failure keeps its message.
    pub fn from_port(e: PortError) -> (r: UseCaseError)
        ensures
            e matches PortError::Internal(s) ==> r == UseCaseError::Internal(s),
    {
        match e {
            PortError::Internal(s) => UseCaseError::Internal(s),
        }
    }

    /// A friendship port failure, reported by its displayed text.
    pub fn from_friends_port(e: &friends::PortError) -> (r: UseCaseError)
        ensures
            r matches UseCaseError::Internal(s) && s@ == e.message_spec(),
    {
        UseCaseError::Internal(e.message())
    }
}

} // verus!
