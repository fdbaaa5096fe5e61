//! Games: their data from the videogame API, their copy in the database, and
//! popular games.

pub mod domain;
pub mod igdb;
pub mod input;
pub mod output;
pub mod postgres;
pub mod service;
pub mod sync;

pub use domain::{Company, CompanyRole, Game, GameCompany, Genre, Platform, PopularGameItem};

pub use input::{PopularGamesResult, UseCaseError};
pub use output::{ExternalRepositoryError, InternalRepositoryError};
pub use igdb::IgdbAdapter;
pub use postgres::PostgresAdapter;

