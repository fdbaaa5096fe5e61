use vstd::prelude::*;

use crate::text::{joined, prefixed};

verus! {

/// Errors of the internal platform repository.
#[derive(Debug)]
pub enum InternalRepositoryError {
    Internal(String),
}

impl InternalRepositoryError {
    pub open spec fn message_spec(&self) -> Seq<char> {
        match self {
            InternalRepositoryError::Internal(s) => "Search service: "@ + s@ + "."@,
        }
    }

    /// The text this error displays.
    pub fn message(&self) -> (r: String)
        ensures
            r@ == self.message_spec(),
    {
        match self {
            InternalRepositoryError::Internal(s) => joined("Search service: ", s.as_str(), "."),
        }
    }
}

/// Errors of the external platform repository.
#[derive(Debug)]
pub enum ExternalRepositoryError {
    VideogameApi(String),
    Internal(String),
}

impl ExternalRepositoryError {
    pub open spec fn message_spec(&self) -> Seq<char> {
        match self {
            ExternalRepositoryError::VideogameApi(s) => "External error in Videogame API Search: "@
                + s@,
            ExternalRepositoryError::Internal(s) => "Search service: "@ + s@ + "."@,
        }
    }

    /// The text this error displays.
    pub fn message(&self) -> (r: String)
        ensures
            r@ == self.message_spec(),
    {
        match self {
            ExternalRepositoryError::VideogameApi(s) => prefixed(
                "External error in Videogame API Search: ",
                s.as_str(),
            ),
            ExternalRepositoryError::Internal(s) => joined("Search service: ", s.as_str(), "."),
        }
    }
}

} // verus!
