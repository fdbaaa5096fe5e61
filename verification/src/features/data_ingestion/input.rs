use vstd::prelude::*;

use super::output::{ExternalRepositoryError, LocalRepositoryError};
use crate::text::joined;

verus! {

/// Errors of the ingestion use case.
#[derive(Debug)]
pub enum UseCaseError {
    /// Unexpected internal error.
    Internal(String),
}

impl UseCaseError {
    pub open spec fn message_spec(&self) -> Seq<char> {
        match self {
            UseCaseError::Internal(s) => "Data ingestion service: "@ + s@ + "."@,
        }
    }

    /// The text this error displays.
    pub fn message(&self) -> (r: String)
        ensures
            r@ == self.message_spec(),
    {
        match self {
            UseCaseError::Internal(s) => joined("Data ingestion service: ", s.as_str(), "."),
        }
    }

    /// A database failure, reported by its displayed text.
    pub fn from_local(e: &LocalRepositoryError) -> (r: UseCaseError)
        ensures
            r matches UseCaseError::Internal(s) && s@ == e.message_spec(),
    {
        UseCaseError::Internal(e.message())
    }

    /// A meal database failure, reported by its displayed text.
    pub fn from_external(e: &ExternalRepositoryError) -> (r: UseCaseError)
        ensures
            r matches UseCaseError::Internal(s) && s@ == e.message_spec(),
    {
        UseCaseError::Internal(e.message())
    }
}

/// The letters whose recipes a sync fetches and stores, in order: `a` to `z`.
pub open spec fn ingestion_letters_spec() -> Seq<char> {
    Seq::new(26, |i: int| (97 + i) as char)
}

} // verus!
