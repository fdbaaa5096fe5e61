use vstd::prelude::*;

use crate::text::prefixed;

verus! {

/// Errors of the database of ingested recipes.
#[derive(Debug)]
pub enum LocalRepositoryError {
    Internal(String),
}

impl LocalRepositoryError {
    pub open spec fn message_spec(&self) -> Seq<char> {
        match self {
            LocalRepositoryError::Internal(s) => "User repository: "@ + s@,
        }
    }

    /// The text this error displays.
    pub fn message(&self) -> (r: String)
        ensures
            r@ == self.message_spec(),
    {
        match self {
            LocalRepositoryError::Internal(s) => prefixed("User repository: ", s.as_str()),
        }
    }
}

/// Errors of the meal database.
#[derive(Debug)]
pub enum ExternalRepositoryError {
    Network(String),
    Serialization(String),
    Internal(String),
}

impl ExternalRepositoryError {
    pub open spec fn message_spec(&self) -> Seq<char> {
        match self {
            ExternalRepositoryError::Network(s) => "Recipe external repository: "@ + s@,
            ExternalRepositoryError::Serialization(s) => "Recipe external repository: "@ + s@,
            ExternalRepositoryError::Internal(s) => "Recipe external repository: "@ + s@,
        }
    }

    /// The text this error displays.
    pub fn message(&self) -> (r: String)
        ensures
            r@ == self.message_spec(),
    {
        match self {
            ExternalRepositoryError::Network(s) => prefixed("Recipe external repository: ", s.as_str()),
            ExternalRepositoryError::Serialization(s) => prefixed(
                "Recipe external repository: ",
                s.as_str(),
            ),
            ExternalRepositoryError::Internal(s) => prefixed("Recipe external repository: ", s.as_str()),
        }
    }
}

} // verus!
