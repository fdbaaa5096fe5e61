//! The videogame API (IGDB): request bodies, and games from its answers.

use vstd::prelude::*;

use super::domain::{Company, CompanyRole, Game, GameCompany, Genre, Platform, PopularGameItem};
use super::output::ExternalRepositoryError;
use crate::ids::new_id;
use crate::text::{prefixed, push_decimal, starts_with, starts_with_spec};
use crate::time::{chrono_accepts_secs, timestamp_from_secs};

verus! {

/// The adapter of the videogame API; `C` is the API client.
pub struct IgdbAdapter<C> {
    pub igdb: C,
}

impl<C> IgdbAdapter<C> {
    pub fn new(igdb: C) -> (r: Self)
        ensures
            r.igdb == igdb,
    {
        Self { igdb }
    }
}

/// Failures of the videogame API client.
#[derive(Debug)]
pub enum LocalError {
    IgdbHttp(String),
    IgdbInternal(String),
}

impl LocalError {
    /// Both kinds of client failure are videogame API errors, with their message.
    pub fn into_external(self) -> (r: ExternalRepositoryError)
        ensures
            self matches LocalError::IgdbHttp(m) ==> r == ExternalRepositoryError::VideogameApi(m),
            self matches LocalError::IgdbInternal(m) ==> r == ExternalRepositoryError::VideogameApi(m),
    {
        match self {
            LocalError::IgdbHttp(msg) => ExternalRepositoryError::VideogameApi(msg),
            LocalError::IgdbInternal(msg) => ExternalRepositoryError::VideogameApi(msg),
        }
    }
}

/// The games endpoint of the videogame API.
pub fn games_url() -> (r: String)
    ensures
        r@ == "https://api.igdb.com/v4/games"@,
{
    String::from_str("https://api.igdb.com/v4/games")
}

/// The games count endpoint of the videogame API.
pub fn games_count_url() -> (r: String)
    ensures
        r@ == "https://api.igdb.com/v4/games/count"@,
{
    String::from_str("https://api.igdb.com/v4/games/count")
}

/// The query for a page of games by popularity.
pub open spec fn popular_games_body_spec(limit: nat, offset: nat) -> Seq<char> {
    "fields name, cover.url; sort popularity desc; limit "@ + crate::text::decimal(limit)
        + "; offset "@ + crate::text::decimal(offset) + ";"@
}

pub fn popular_games_body(limit: u64, offset: u64) -> (r: String)
    ensures
        r@ == popular_games_body_spec(limit as nat, offset as nat),
{
    let mut r = String::from_str("fields name, cover.url; sort popularity desc; limit ");
    push_decimal(&mut r, limit);
    r.append("; offset ");
    push_decimal(&mut r, offset);
    r.append(";");
    r
}

/// The query for the count of games by popularity.
pub fn popular_games_count_body() -> (r: String)
    ensures
        r@ == "sort popularity desc;"@,
{
    String::from_str("sort popularity desc;")
}

/// The query for the full data of the game with external id `id`.
pub open spec fn game_details_body_spec(id: nat) -> Seq<char> {
    "fields id, name, platforms, first_release_date, cover.url, genres.name, involved_companies.company.name, involved_companies.publisher, involved_companies.developer, rating, aggregated_rating, total_rating_count, summary; where id = "@
        + crate::text::decimal(id) + ";"@
}

pub fn game_details_body(id: u64) -> (r: String)
    ensures
        r@ == game_details_body_spec(id as nat),
{
    let mut r = String::from_str(
        "fields id, name, platforms, first_release_date, cover.url, genres.name, involved_companies.company.name, involved_companies.publisher, involved_companies.developer, rating, aggregated_rating, total_rating_count, summary; where id = ",
    );
    push_decimal(&mut r, id);
    r.append(";");
    r
}

/// A cover address without scheme (`//host/...`) gets `https:`.
pub open spec fn normalized_cover(url: Seq<char>) -> Seq<char> {
    if starts_with_spec(url, "//"@) {
        "https:"@ + url
    } else {
        url
    }
}

pub fn normalize_cover_url(url: String) -> (r: String)
    ensures
        r@ == normalized_cover(url@),
{
    if starts_with(url.as_str(), "//") {
        prefixed("https:", url.as_str())
    } else {
        url
    }
}

pub struct IgdbCoverResponse {
    pub id: u64,
    pub url: String,
}

pub struct IgdbPopularGameResponse {
    pub id: u64,
    pub name: String,
    pub cover: Option<IgdbCoverResponse>,
}

pub struct IgdbCountResponse {
    pub count: usize,
}

pub struct IgdbPlatformResponse {
    pub id: u64,
    pub name: String,
    pub generation: Option<u8>,
}

pub struct IgdbGenreResponse {
    pub id: u64,
    pub name: String,
}

pub struct IgdbCompanyResponse {
    pub id: u64,
    pub name: String,
}

pub struct IgdbInvolvedCompanyResponse {
    pub id: u64,
    pub company: IgdbCompanyResponse,
    pub publisher: bool,
    pub developer: bool,
}

/// A game as the videogame API answers; ratings are the bits of their `f64`.
pub struct IgdbGameResponse {
    pub id: u64,
    pub name: String,
    pub platforms: Option<Vec<u64>>,
    pub first_release_date: Option<i64>,
    pub cover: Option<IgdbCoverResponse>,
    pub genres: Option<Vec<IgdbGenreResponse>>,
    pub involved_companies: Option<Vec<IgdbInvolvedCompanyResponse>>,
    pub rating_bits: Option<u64>,
    pub aggregated_rating_bits: Option<u64>,
    pub total_rating_count: Option<i32>,
    pub summary: Option<String>,
}

/// The normalized cover address of an optional cover.
pub open spec fn cover_url_of(cover: Option<IgdbCoverResponse>) -> Option<Seq<char>> {
    match cover {
        Some(c) => Some(normalized_cover(c.url@)),
        None => None,
    }
}

pub open spec fn opt_view(s: Option<String>) -> Option<Seq<char>> {
    match s {
        Some(t) => Some(t@),
        None => None,
    }
}

fn cover_url_from(cover: Option<IgdbCoverResponse>) -> (r: Option<String>)
    ensures
        opt_view(r) == cover_url_of(cover),
{
    match cover {
        Some(c) => Some(normalize_cover_url(c.url)),
        None => None,
    }
}

/// A popular game from the API: no internal id, its external id, name and cover.
pub fn popular_item_from_igdb(item: IgdbPopularGameResponse) -> (r: PopularGameItem)
    ensures
        r.id is None,
        r.external_id == item.id,
        r.name == item.name,
        opt_view(r.cover_url) == cover_url_of(item.cover),
{
    let cover_url = cover_url_from(item.cover);
    PopularGameItem { id: None, external_id: item.id, name: item.name, cover_url }
}

/// The popular games of a page from the API, in the API's order, with the
/// API's total count.
pub fn popular_games_from_igdb(items: Vec<IgdbPopularGameResponse>, count: IgdbCountResponse) -> (r: (
    Vec<PopularGameItem>,
    usize,
))
    ensures
        r.0@.len() == items@.len(),
        forall|i: int|
            0 <= i < items@.len() ==> {
                let g = #[trigger] r.0@[i];
                &&& g.id is None
                &&& g.external_id == items@[i].id
                &&& g.name == items@[i].name
                &&& opt_view(g.cover_url) == cover_url_of(items@[i].cover)
            },
        r.1 == count.count,
{
    let mut games: Vec<PopularGameItem> = Vec::new();
    let mut rest = items;
    let ghost all = rest@;
    // Items are taken from the back and placed in order by reversing at the end.
    let mut reversed: Vec<PopularGameItem> = Vec::new();
    while rest.len() > 0
        invariant
            rest@ == all.take(rest@.len() as int),
            rest@.len() + reversed@.len() == all.len(),
            forall|j: int|
                0 <= j < reversed@.len() ==> {
                    let g = #[trigger] reversed@[j];
                    let src = all[all.len() - 1 - j];
                    &&& g.id is None
                    &&& g.external_id == src.id
                    &&& g.name == src.name
                    &&& opt_view(g.cover_url) == cover_url_of(src.cover)
                },
        decreases rest@.len(),
    {
        let item = rest.pop().unwrap();
        reversed.push(popular_item_from_igdb(item));
        assert(rest@ =~= all.take(rest@.len() as int));
    }
    while reversed.len() > 0
        invariant
            reversed@.len() + games@.len() == all.len(),
            forall|j: int|
                0 <= j < reversed@.len() ==> {
                    let g = #[trigger] reversed@[j];
                    let src = all[all.len() - 1 - j];
                    &&& g.id is None
                    &&& g.external_id == src.id
                    &&& g.name == src.name
                    &&& opt_view(g.cover_url) == cover_url_of(src.cover)
                },
            forall|i: int|
                0 <= i < games@.len() ==> {
                    let g = #[trigger] games@[i];
                    let src = all[i];
                    &&& g.id is None
                    &&& g.external_id == src.id
                    &&& g.name == src.name
                    &&& opt_view(g.cover_url) == cover_url_of(src.cover)
                },
        decreases reversed@.len(),
    {
        let g = reversed.pop().unwrap();
        games.push(g);
    }
    (games, count.count)
}


/// The companies of a game from its involved companies: for each, in order,
/// a developer entry if it developed the game, then a publisher entry if it
/// published it.
pub open spec fn involved_entries(ics: Seq<IgdbInvolvedCompanyResponse>) -> Seq<(Option<u64>, String, CompanyRole)>
    decreases ics.len(),
{
    if ics.len() == 0 {
        seq![]
    } else {
        let ic = ics.last();
        let dev = if ic.developer {
            seq![(Some(ic.company.id), ic.company.name, CompanyRole::Developer)]
        } else {
            seq![]
        };
        let publ = if ic.publisher {
            seq![(Some(ic.company.id), ic.company.name, CompanyRole::Publisher)]
        } else {
            seq![]
        };
        involved_entries(ics.drop_last()) + dev + publ
    }
}

/// The items of an optional list; none when it is absent.
pub open spec fn seq_or_empty<T>(o: Option<Vec<T>>) -> Seq<T> {
    match o {
        Some(v) => v@,
        None => Seq::empty(),
    }
}

/// A game company without its internal id.
pub open spec fn company_entry(gc: GameCompany) -> (Option<u64>, String, CompanyRole) {
    (gc.company.external_id, gc.company.name, gc.role)
}

/// A game from the videogame API. Every platform, genre and company gets a
/// fresh id, and so does the game: nothing is promised of those ids.
pub fn game_from_igdb(response: IgdbGameResponse) -> (g: Game)
    ensures
        g.external_id == Some(response.id),
        g.name == response.name,
        g.first_release_date == (match response.first_release_date {
            Some(ts) => if chrono_accepts_secs(ts) {
                Some((ts * 1_000_000) as i64)
            } else {
                None
            },
            None => None,
        }),
        opt_view(g.cover_url) == cover_url_of(response.cover),
        g.rating_bits == response.rating_bits,
        g.aggregated_rating_bits == response.aggregated_rating_bits,
        g.total_rating_count == response.total_rating_count,
        g.summary == response.summary,
        g.platforms@.len() == (match response.platforms {
            Some(p) => p@.len(),
            None => 0,
        }),
        forall|i: int|
            0 <= i < g.platforms@.len() ==> {
                let p = #[trigger] g.platforms@[i];
                &&& p.external_id == Some(response.platforms.unwrap()@[i])
                &&& p.name@ == Seq::<char>::empty()
                &&& p.generation is None
            },
        g.genres@.len() == (match response.genres {
            Some(v) => v@.len(),
            None => 0,
        }),
        forall|i: int|
            0 <= i < g.genres@.len() ==> {
                let x = #[trigger] g.genres@[i];
                &&& x.external_id == Some(response.genres.unwrap()@[i].id)
                &&& x.name == response.genres.unwrap()@[i].name
            },
        g.companies@.map_values(|gc: GameCompany| company_entry(gc)) == (match response.involved_companies {
            Some(v) => involved_entries(v@),
            None => seq![],
        }),
{
    let mut platforms: Vec<Platform> = Vec::new();
    let ghost ext_platforms = seq_or_empty(response.platforms);
    let platform_ids = match response.platforms {
        Some(p) => p,
        None => Vec::new(),
    };
    for ext_id in it: platform_ids.into_iter()
        invariant
            it.seq() == ext_platforms,
            platforms@.len() == it.index(),
            forall|i: int|
                0 <= i < platforms@.len() ==> {
                    let p = #[trigger] platforms@[i];
                    &&& p.external_id == Some(ext_platforms[i])
                    &&& p.name@ == Seq::<char>::empty()
                    &&& p.generation is None
                },
    {
        platforms.push(Platform { id: new_id(), external_id: Some(ext_id), name: String::new(), generation: None });
    }
    let ghost src_genres = seq_or_empty(response.genres);
    let genre_list = match response.genres {
        Some(v) => v,
        None => Vec::new(),
    };
    let mut genres: Vec<Genre> = Vec::new();
    for g in it: genre_list.into_iter()
        invariant
            it.seq() == src_genres,
            genres@.len() == it.index(),
            forall|i: int|
                0 <= i < genres@.len() ==> {
                    let x = #[trigger] genres@[i];
                    &&& x.external_id == Some(src_genres[i].id)
                    &&& x.name == src_genres[i].name
                },
    {
        genres.push(Genre { id: new_id(), external_id: Some(g.id), name: g.name });
    }
    let ghost src_companies = seq_or_empty(response.involved_companies);
    let company_list = match response.involved_companies {
        Some(v) => v,
        None => Vec::new(),
    };
    let mut companies: Vec<GameCompany> = Vec::new();
    for ic in it: company_list.into_iter()
        invariant
            it.seq() == src_companies,
            companies@.map_values(|gc: GameCompany| company_entry(gc)) == involved_entries(
                src_companies.take(it.index() as int),
            ),
    {
        let ghost before = companies@;
        let ghost k = it.index();
        assert(src_companies.take(k + 1).drop_last() =~= src_companies.take(k as int));
        assert(src_companies.take(k + 1).last() == ic);
        if ic.developer {
            companies.push(GameCompany {
                company: Company { id: new_id(), external_id: Some(ic.company.id), name: ic.company.name.clone() },
                role: CompanyRole::Developer,
            });
        }
        let ghost mid = companies@;
        if ic.publisher {
            companies.push(GameCompany {
                company: Company { id: new_id(), external_id: Some(ic.company.id), name: ic.company.name },
                role: CompanyRole::Publisher,
            });
        }
        assert(companies@.map_values(|gc: GameCompany| company_entry(gc)) =~= involved_entries(
            src_companies.take(k + 1),
        ));
    }
    proof {
        assert(src_companies.take(src_companies.len() as int) =~= src_companies);
    }
    let first_release_date = match response.first_release_date {
        Some(ts) => timestamp_from_secs(ts),
        None => None,
    };
    let cover_url = cover_url_from(response.cover);
    Game {
        id: new_id(),
        external_id: Some(response.id),
        name: response.name,
        first_release_date,
        cover_url,
        rating_bits: response.rating_bits,
        aggregated_rating_bits: response.aggregated_rating_bits,
        total_rating_count: response.total_rating_count,
        summary: response.summary,
        platforms,
        genres,
        companies,
    }
}


/// A platform from the videogame API, with a fresh id.
pub fn platform_from_igdb(response: IgdbPlatformResponse) -> (p: Platform)
    ensures
        p.external_id == Some(response.id),
        p.name == response.name,
        p.generation == response.generation,
{
    Platform { id: new_id(), external_id: Some(response.id), name: response.name, generation: response.generation }
}

} // verus!
