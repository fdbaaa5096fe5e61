use vstd::prelude::*;

verus! {

/// A popular game for listings; `id` is `Some` when the game is in the
/// internal database, `None` when it came from the external API.
#[derive(Debug, Clone)]
pub struct PopularGameItem {
    pub id: Option<u128>,
    pub external_id: u64,
    pub name: String,
    pub cover_url: Option<String>,
}

/// A game with its platforms, genres and companies.
///
/// Ratings are carried as the IEEE-754 bits of their `f64` value; this crate
/// never computes with them.
pub struct Game {
    pub id: u128,
    pub external_id: Option<u64>,
    pub name: String,
    /// Microseconds since the Unix epoch.
    pub first_release_date: Option<i64>,
    pub cover_url: Option<String>,
    pub rating_bits: Option<u64>,
    pub aggregated_rating_bits: Option<u64>,
    pub total_rating_count: Option<i32>,
    pub summary: Option<String>,
    pub platforms: Vec<Platform>,
    pub genres: Vec<Genre>,
    pub companies: Vec<GameCompany>,
}

pub struct Platform {
    pub id: u128,
    pub external_id: Option<u64>,
    pub name: String,
    pub generation: Option<u8>,
}

pub struct Genre {
    pub id: u128,
    pub external_id: Option<u64>,
    pub name: String,
}

pub struct Company {
    pub id: u128,
    pub external_id: Option<u64>,
    pub name: String,
}

pub struct GameCompany {
    pub company: Company,
    pub role: CompanyRole,
}

#[derive(Debug, Clone, Copy, PartialEq, Eq, Structural)]
pub enum CompanyRole {
    Developer,
    Publisher,
}

impl CompanyRole {
    pub open spec fn text_spec(self) -> Seq<char> {
        match self {
            CompanyRole::Developer => "developer"@,
            CompanyRole::Publisher => "publisher"@,
        }
    }

    /// The role's text in the database.
    pub fn as_text(&self) -> (r: String)
        ensures
            r@ == self.text_spec(),
    {
        match self {
            CompanyRole::Developer => String::from_str("developer"),
            CompanyRole::Publisher => String::from_str("publisher"),
        }
    }
}

} // verus!
