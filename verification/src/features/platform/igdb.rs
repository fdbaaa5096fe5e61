use vstd::prelude::*;

use super::domain::Platform;
use super::output::ExternalRepositoryError;
use crate::ids::new_id;

verus! {

/// The adapter of the videogame API for platforms; `C` is the API client.
pub struct IgdbAdapter<C> {
    pub igdb: C,
}

impl<C> IgdbAdapter<C> {
    pub fn new(igdb: C) -> (r: Self)
        ensures
            r.igdb == igdb,
    {
        Self { igdb }
    }
}

/// Failures of the videogame API client.
#[derive(Debug)]
pub enum LocalError {
    IgdbHttp(String),
    IgdbInternal(String),
}

impl LocalError {
    /// Both kinds of client failure are videogame API errors, with their message.
    pub fn into_external(self) -> (r: ExternalRepositoryError)
        ensures
            self matches LocalError::IgdbHttp(m) ==> r == ExternalRepositoryError::VideogameApi(m),
            self matches LocalError::IgdbInternal(m) ==> r == ExternalRepositoryError::VideogameApi(m),
    {
        match self {
            LocalError::IgdbHttp(msg) => ExternalRepositoryError::VideogameApi(msg),
            LocalError::IgdbInternal(msg) => ExternalRepositoryError::VideogameApi(msg),
        }
    }
}

/// The platforms endpoint of the videogame API.
pub fn platforms_url() -> (r: String)
    ensures
        r@ == "https://api.igdb.com/v4/platforms"@,
{
    String::from_str("https://api.igdb.com/v4/platforms")
}

/// The query for all platforms.
pub fn platforms_body() -> (r: String)
    ensures
        r@ == "fields id, name, generation; limit 500;"@,
{
    String::from_str("fields id, name, generation; limit 500;")
}

pub struct IgdbPlatformResponse {
    pub id: u64,
    pub name: String,
    pub generation: Option<u8>,
}

/// The platforms from the API's answer, in order, each with a fresh id.
pub fn platforms_from_igdb(items: Vec<IgdbPlatformResponse>) -> (r: Vec<Platform>)
    ensures
        r@.len() == items@.len(),
        forall|i: int|
            0 <= i < r@.len() ==> {
                let p = #[trigger] r@[i];
                &&& p.external_id == Some(items@[i].id)
                &&& p.name == items@[i].name
                &&& p.generation == items@[i].generation
            },
{
    let ghost src = items@;
    let mut out: Vec<Platform> = Vec::new();
    for item in it: items.into_iter()
        invariant
            it.seq() == src,
            out@.len() == it.index(),
            forall|i: int|
                0 <= i < out@.len() ==> {
                    let p = #[trigger] out@[i];
                    &&& p.external_id == Some(src[i].id)
                    &&& p.name == src[i].name
                    &&& p.generation == src[i].generation
                },
    {
        out.push(Platform { id: new_id(), external_id: Some(item.id), name: item.name, generation: item.generation });
    }
    out
}

} // verus!
