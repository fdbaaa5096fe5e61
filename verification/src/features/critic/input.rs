use vstd::prelude::*;

use super::output::RepositoryError;
use crate::text::prefixed;

verus! {

/// Errors of the critic use cases.
#[derive(Debug)]
pub enum UseCaseError {
    /// The user has a pending or approved application.
    AlreadyApplied,
    ApplicationNotFound,
    /// The application was approved or rejected already.
    AlreadyReviewed,
    Internal(String),
}

impl UseCaseError {
    pub open spec fn message_spec(&self) -> Seq<char> {
        match self {
            UseCaseError::AlreadyApplied => "You have already applied for the Critic role."@,
            UseCaseError::ApplicationNotFound => "Application not found."@,
            UseCaseError::AlreadyReviewed => "Application has already been reviewed."@,
            UseCaseError::Internal(s) => "Critic service: "@ + s@,
        }
    }

    /// The text this error displays.
    pub fn message(&self) -> (r: String)
        ensures
            r@ == self.message_spec(),
    {
        match self {
            UseCaseError::AlreadyApplied => String::from_str("You have already applied for the Critic role."),
            UseCaseError::ApplicationNotFound => String::from_str("Application not found."),
            UseCaseError::AlreadyReviewed => String::from_str("Application has already been reviewed."),
            UseCaseError::Internal(s) => prefixed("Critic service: ", s.as_str()),
        }
    }

    /// A repository failure, reported by its displayed text.
    pub fn from_repository(e: &RepositoryError) -> (r: UseCaseError)
        ensures
            r matches UseCaseError::Internal(s) && s@ == e.message_spec(),
    {
        UseCaseError::Internal(e.message())
    }
}

} // verus!
