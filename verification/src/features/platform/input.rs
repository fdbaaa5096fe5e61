use vstd::prelude::*;

use super::output::{ExternalRepositoryError, InternalRepositoryError};
use crate::text::{joined, prefixed};

verus! {

/// Errors of the platform use cases.
#[derive(Debug)]
pub enum UseCaseError {
    VideogameApi(String),
    Internal(String),
}

impl UseCaseError {
    pub open spec fn message_spec(&self) -> Seq<char> {
        match self {
            UseCaseError::VideogameApi(s) => "External error in Videogame API Platform: "@ + s@,
            UseCaseError::Internal(s) => "Platform service: "@ + s@ + "."@,
        }
    }

    /// The text this error displays.
    pub fn message(&self) -> (r: String)
        ensures
            r@ == self.message_spec(),
    {
        match self {
            UseCaseError::VideogameApi(s) => prefixed(
                "External error in Videogame API Platform: ",
                s.as_str(),
            ),
            UseCaseError::Internal(s) => joined("Platform service: ", s.as_str(), "."),
        }
    }

    /// An internal repository failure keeps its message.
    pub fn from_internal(e: InternalRepositoryError) -> (r: UseCaseError)
        ensures
            e matches InternalRepositoryError::Internal(m) && r == UseCaseError::Internal(m),
    {
        match e {
            InternalRepositoryError::Internal(msg) => UseCaseError::Internal(msg),
        }
    }

    /// An external repository failure keeps its kind and message.
    pub fn from_external(e: ExternalRepositoryError) -> (r: UseCaseError)
        ensures
            e matches ExternalRepositoryError::VideogameApi(m) ==> r == UseCaseError::VideogameApi(m),
            e matches ExternalRepositoryError::Internal(m) ==> r == UseCaseError::Internal(m),
    {
        match e {
            ExternalRepositoryError::VideogameApi(msg) => UseCaseError::VideogameApi(msg),
            ExternalRepositoryError::Internal(msg) => UseCaseError::Internal(msg),
        }
    }
}

} // verus!
