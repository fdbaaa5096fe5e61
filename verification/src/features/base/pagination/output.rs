use vstd::prelude::*;

use crate::text::prefixed;

verus! {

/// Errors of the internal repository of a paginated feature.
#[derive(Debug)]
pub enum InternalRepositoryError {
    Internal(String),
}

impl InternalRepositoryError {
    pub open spec fn message_spec(&self) -> Seq<char> {
        match self {
            InternalRepositoryError::Internal(s) => "Error in Internal Repository: "@ + s@,
        }
    }

    /// The text this error displays.
    pub fn message(&self) -> (r: String)
        ensures
            r@ == self.message_spec(),
    {
        match self {
            InternalRepositoryError::Internal(s) => prefixed(
                "Error in Internal Repository: ",
                s.as_str(),
            ),
        }
    }
}

/// Errors of the external repository of a paginated feature.
#[derive(Debug)]
pub enum ExternalRepositoryError {
    External(String),
}

impl ExternalRepositoryError {
    pub open spec fn message_spec(&self) -> Seq<char> {
        match self {
            ExternalRepositoryError::External(s) => "External error: "@ + s@,
        }
    }

    /// The text this error displays.
    pub fn message(&self) -> (r: String)
        ensures
            r@ == self.message_spec(),
    {
        match self {
            ExternalRepositoryError::External(s) => prefixed("External error: ", s.as_str()),
        }
    }
}

/// A page of cached ids, with the number of ids cached for the session.
#[derive(Debug, Clone)]
pub struct CachedIdsPage {
    pub ids: Vec<u128>,
    pub total_items: usize,
}

/// Errors of the cache repository.
#[derive(Debug)]
pub enum CacheRepositoryError {
    Internal(String),
}

impl CacheRepositoryError {
    pub open spec fn message_spec(&self) -> Seq<char> {
        match self {
            CacheRepositoryError::Internal(s) => "Error in Cache Repository: "@ + s@,
        }
    }

    /// The text this error displays.
    pub fn message(&self) -> (r: String)
        ensures
            r@ == self.message_spec(),
    {
        match self {
            CacheRepositoryError::Internal(s) => prefixed("Error in Cache Repository: ", s.as_str()),
        }
    }
}

/// The errors of pagination, by the repository that failed.
#[derive(Debug)]
pub enum PaginationError {
    Internal(InternalRepositoryError),
    External(ExternalRepositoryError),
    Cache(CacheRepositoryError),
}

impl PaginationError {
    pub open spec fn message_spec(&self) -> Seq<char> {
        match self {
            PaginationError::Internal(e) => "Internal repository: "@ + e.message_spec(),
            PaginationError::External(e) => "External repository: "@ + e.message_spec(),
            PaginationError::Cache(e) => "Cache repository: "@ + e.message_spec(),
        }
    }

    /// The text this error displays.
    pub fn message(&self) -> (r: String)
        ensures
            r@ == self.message_spec(),
    {
        match self {
            PaginationError::Internal(e) => prefixed("Internal repository: ", e.message().as_str()),
            PaginationError::External(e) => prefixed("External repository: ", e.message().as_str()),
            PaginationError::Cache(e) => prefixed("Cache repository: ", e.message().as_str()),
        }
    }
}

} // verus!
