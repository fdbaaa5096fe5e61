use vstd::prelude::*;

use super::output::LocalRepositoryError;
use crate::text::joined;

verus! {

/// Errors of the group use cases.
#[derive(Debug)]
pub enum UseCaseError {
    GroupNotFound,
    /// The user is not the owner of the group.
    NotGroupOwner,
    /// The group's name is blank.
    EmptyName,
    Internal(String),
}

impl UseCaseError {
    pub open spec fn message_spec(&self) -> Seq<char> {
        match self {
            UseCaseError::GroupNotFound => "Group not found."@,
            UseCaseError::NotGroupOwner => "You are not the owner of this group."@,
            UseCaseError::EmptyName => "Group name cannot be empty."@,
            UseCaseError::Internal(s) => "Group service: "@ + s@ + "."@,
        }
    }

    /// The text this error displays.
    pub fn message(&self) -> (r: String)
        ensures
            r@ == self.message_spec(),
    {
        match self {
            UseCaseError::GroupNotFound => String::from_str("Group not found."),
            UseCaseError::NotGroupOwner => String::from_str("You are not the owner of this group."),
            UseCaseError::EmptyName => String::from_str("Group name cannot be empty."),
            UseCaseError::Internal(s) => joined("Group service: ", s.as_str(), "."),
        }
    }

    /// A database failure, reported by its displayed text.
    pub fn from_local(e: &LocalRepositoryError) -> (r: UseCaseError)
        ensures
            r matches UseCaseError::Internal(s) && s@ == e.message_spec(),
    {
        UseCaseError::Internal(e.message())
    }
}

} // verus!
