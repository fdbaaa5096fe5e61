//! The decisions of the game use cases.

use vstd::prelude::*;

use super::domain::PopularGameItem;
use super::input::{PopularGamesResult, UseCaseError};
use super::output::{ExternalRepositoryError, InternalRepositoryError};

verus! {

/// What a query for popular games does after asking the videogame API.
pub enum PopularGamesStep {
    /// The API answered: these games, by popularity.
    Done(PopularGamesResult),
    /// The API could not be reached: read a page of `limit` games from
    /// `offset` from the database, by views, and answer with
    /// `after_internal_popular`.
    ReadInternal { limit: usize, offset: usize },
}

/// Popular games come from the videogame API, by popularity; when it cannot
/// be reached they come from the database instead. Another failure is
/// reported.
pub fn after_external_popular(
    external: Result<(Vec<PopularGameItem>, usize), ExternalRepositoryError>,
    limit: usize,
    offset: usize,
) -> (r: Result<PopularGamesStep, UseCaseError>)
    ensures
        external matches Ok(page) ==> (r matches Ok(PopularGamesStep::Done(res)) && res.games == page.0
            && res.total_count == page.1 && !res.from_internal),
        external matches Err(ExternalRepositoryError::VideogameApi(_)) ==> (r matches Ok(
            PopularGamesStep::ReadInternal { limit: l, offset: o },
        ) && l == limit && o == offset),
        external matches Err(ExternalRepositoryError::Internal(m)) ==> r == Err::<
            PopularGamesStep,
            UseCaseError,
        >(UseCaseError::Internal(m)),
{
    match external {
        Ok((games, total_count)) => Ok(
            PopularGamesStep::Done(PopularGamesResult { games, total_count, from_internal: false }),
        ),
        Err(ExternalRepositoryError::VideogameApi(_)) => Ok(PopularGamesStep::ReadInternal { limit, offset }),
        Err(ExternalRepositoryError::Internal(m)) => Err(UseCaseError::Internal(m)),
    }
}

/// The answer from the database's page of popular games.
pub fn after_internal_popular(internal: Result<(Vec<PopularGameItem>, usize), InternalRepositoryError>) -> (r: Result<
    PopularGamesResult,
    UseCaseError,
>)
    ensures
        internal matches Ok(page) ==> (r matches Ok(res) && res.games == page.0 && res.total_count
            == page.1 && res.from_internal),
        internal matches Err(InternalRepositoryError::Internal(m)) ==> r == Err::<
            PopularGamesResult,
            UseCaseError,
        >(UseCaseError::Internal(m)),
{
    match internal {
        Ok((games, total_count)) => Ok(PopularGamesResult { games, total_count, from_internal: true }),
        Err(InternalRepositoryError::Internal(m)) => Err(UseCaseError::Internal(m)),
    }
}

} // verus!
