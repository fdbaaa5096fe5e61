//! The games database: rows read back as games, and the sync of a game from
//! the videogame API into the database.

use vstd::prelude::*;

use super::domain::{Company, CompanyRole, Game, GameCompany, Genre, Platform, PopularGameItem};
use crate::features::platform::postgres::{ext_id_from_db, ext_id_of, generation_from_db, PlatformDbRow};

verus! {

/// The database adapter of games; `P` is the connection pool.
pub struct PostgresAdapter<P> {
    pub pool: P,
}

impl<P> PostgresAdapter<P> {
    pub fn new(pool: P) -> (r: Self)
        ensures
            r.pool == pool,
    {
        Self { pool }
    }
}

/// A row holding an internal id.
pub struct InternalIdDbRow {
    pub id: u128,
}

/// A row of a popular game.
pub struct PopularGameItemDbRow {
    pub id: u128,
    pub external_id: Option<i32>,
    pub game_name: String,
    pub cover_url: Option<String>,
}

impl PopularGameItem {
    /// A popular game read from its row; a missing external id reads as 0.
    pub fn from_row(row: PopularGameItemDbRow) -> (g: PopularGameItem)
        ensures
            g.id == Some(row.id),
            g.external_id == (match row.external_id {
                Some(e) => e as u64,
                None => 0u64,
            }),
            g.name == row.game_name,
            g.cover_url == row.cover_url,
    {
        let ext: i32 = match row.external_id {
            Some(e) => e,
            None => 0,
        };
        PopularGameItem {
            id: Some(row.id),
            external_id: #[verifier::truncate] (ext as u64),
            name: row.game_name,
            cover_url: row.cover_url,
        }
    }
}

/// A row mapping an external id to an internal id.
pub struct ExternalIdMappingDbRow {
    pub id: u128,
    pub external_id: i32,
}

/// A genre row.
pub struct GenreDbRow {
    pub id: u128,
    pub external_id: Option<i32>,
    pub genre_name: String,
}

impl Genre {
    pub fn from_row(row: GenreDbRow) -> (g: Genre)
        ensures
            g.id == row.id,
            g.external_id == ext_id_from_db(row.external_id),
            g.name == row.genre_name,
    {
        Genre { id: row.id, external_id: ext_id_of(row.external_id), name: row.genre_name }
    }
}

/// A company row of a game, with the company's role.
pub struct CompanyDbRow {
    pub id: u128,
    pub external_id: Option<i32>,
    pub company_name: String,
    pub role: String,
}

/// The role a row names: `publisher`, else developer.
pub open spec fn role_from_db(role: Seq<char>) -> CompanyRole {
    if role == "publisher"@ {
        CompanyRole::Publisher
    } else {
        CompanyRole::Developer
    }
}

/// A role's text, as the company links store it, reads back as that role.
pub proof fn lemma_role_text_reads_back(role: CompanyRole)
    ensures
        role_from_db(role.text_spec()) == role,
{
    reveal_strlit("publisher");
    reveal_strlit("developer");
    assert(CompanyRole::Developer.text_spec() != CompanyRole::Publisher.text_spec()) by {
        assert("developer"@[0] != "publisher"@[0]);
    }
}

impl GameCompany {
    pub fn from_row(row: CompanyDbRow) -> (gc: GameCompany)
        ensures
            gc.company.id == row.id,
            gc.company.external_id == ext_id_from_db(row.external_id),
            gc.company.name == row.company_name,
            gc.role == role_from_db(row.role@),
            row.role@ == CompanyRole::Publisher.text_spec() ==> gc.role == CompanyRole::Publisher,
            row.role@ == CompanyRole::Developer.text_spec() ==> gc.role == CompanyRole::Developer,
    {
        proof {
            lemma_role_text_reads_back(CompanyRole::Developer);
        }
        let publisher = String::from_str("publisher");
        let role = if row.role == publisher {
            CompanyRole::Publisher
        } else {
            CompanyRole::Developer
        };
        GameCompany {
            company: Company { id: row.id, external_id: ext_id_of(row.external_id), name: row.company_name },
            role,
        }
    }
}

impl Platform {
    /// A game's platform read from its row.
    pub fn from_row(row: PlatformDbRow) -> (p: Platform)
        ensures
            p.id == row.id,
            p.external_id == ext_id_from_db(row.external_id),
            p.name == row.platform_name,
            p.generation == generation_from_db(row.generation),
    {
        let generation = match row.generation {
            Some(g) => Some(#[verifier::truncate] (g as u8)),
            None => None,
        };
        Platform { id: row.id, external_id: ext_id_of(row.external_id), name: row.platform_name, generation }
    }
}

/// The full data of a game, with its platforms, genres and companies.
/// Ratings are the bits of their `f64`.
pub struct GameDbRow {
    pub id: u128,
    pub external_id: Option<i32>,
    pub game_name: String,
    pub first_release_date: Option<i64>,
    pub cover_url: Option<String>,
    pub rating_bits: Option<u64>,
    pub critic_rating_bits: Option<u64>,
    pub total_rating_count: Option<i32>,
    pub summary: Option<String>,
    pub platforms: Vec<PlatformDbRow>,
    pub genres: Vec<GenreDbRow>,
    pub companies: Vec<CompanyDbRow>,
}

impl Game {
    /// A game read from its row; the critics' rating is the aggregated rating.
    pub fn from_row(row: GameDbRow) -> (g: Game)
        ensures
            g.id == row.id,
            g.external_id == ext_id_from_db(row.external_id),
            g.name == row.game_name,
            g.first_release_date == row.first_release_date,
            g.cover_url == row.cover_url,
            g.rating_bits == row.rating_bits,
            g.aggregated_rating_bits == row.critic_rating_bits,
            g.total_rating_count == row.total_rating_count,
            g.summary == row.summary,
            g.platforms@.len() == row.platforms@.len(),
            forall|i: int|
                0 <= i < g.platforms@.len() ==> {
                    let p = #[trigger] g.platforms@[i];
                    let r = row.platforms@[i];
                    &&& p.id == r.id
                    &&& p.external_id == ext_id_from_db(r.external_id)
                    &&& p.name == r.platform_name
                    &&& p.generation == generation_from_db(r.generation)
                },
            g.genres@.len() == row.genres@.len(),
            forall|i: int|
                0 <= i < g.genres@.len() ==> {
                    let x = #[trigger] g.genres@[i];
                    let r = row.genres@[i];
                    &&& x.id == r.id
                    &&& x.external_id == ext_id_from_db(r.external_id)
                    &&& x.name == r.genre_name
                },
            g.companies@.len() == row.companies@.len(),
            forall|i: int|
                0 <= i < g.companies@.len() ==> {
                    let c = #[trigger] g.companies@[i];
                    let r = row.companies@[i];
                    &&& c.company.id == r.id
                    &&& c.company.external_id == ext_id_from_db(r.external_id)
                    &&& c.company.name == r.company_name
                    &&& c.role == role_from_db(r.role@)
                },
    {
        let ghost src_p = row.platforms@;
        let mut platforms: Vec<Platform> = Vec::new();
        for r in it: row.platforms.into_iter()
            invariant
                it.seq() == src_p,
                platforms@.len() == it.index(),
                forall|i: int|
                    0 <= i < platforms@.len() ==> {
                        let p = #[trigger] platforms@[i];
                        let r = src_p[i];
                        &&& p.id == r.id
                        &&& p.external_id == ext_id_from_db(r.external_id)
                        &&& p.name == r.platform_name
                        &&& p.generation == generation_from_db(r.generation)
                    },
        {
            platforms.push(Platform::from_row(r));
        }
        let ghost src_g = row.genres@;
        let mut genres: Vec<Genre> = Vec::new();
        for r in it: row.genres.into_iter()
            invariant
                it.seq() == src_g,
                genres@.len() == it.index(),
                forall|i: int|
                    0 <= i < genres@.len() ==> {
                        let x = #[trigger] genres@[i];
                        let r = src_g[i];
                        &&& x.id == r.id
                        &&& x.external_id == ext_id_from_db(r.external_id)
                        &&& x.name == r.genre_name
                    },
        {
            genres.push(Genre::from_row(r));
        }
        let ghost src_c = row.companies@;
        let mut companies: Vec<GameCompany> = Vec::new();
        for r in it: row.companies.into_iter()
            invariant
                it.seq() == src_c,
                companies@.len() == it.index(),
                forall|i: int|
                    0 <= i < companies@.len() ==> {
                        let c = #[trigger] companies@[i];
                        let r = src_c[i];
                        &&& c.company.id == r.id
                        &&& c.company.external_id == ext_id_from_db(r.external_id)
                        &&& c.company.name == r.company_name
                        &&& c.role == role_from_db(r.role@)
                    },
        {
            companies.push(GameCompany::from_row(r));
        }
        Game {
            id: row.id,
            external_id: ext_id_of(row.external_id),
            name: row.game_name,
            first_release_date: row.first_release_date,
            cover_url: row.cover_url,
            rating_bits: row.rating_bits,
            aggregated_rating_bits: row.critic_rating_bits,
            total_rating_count: row.total_rating_count,
            summary: row.summary,
            platforms,
            genres,
            companies,
        }
    }
}


/// An external id as the database keys it: `as i32`, or 0 when missing.
pub open spec fn ext_or_zero(e: Option<u64>) -> i32 {
    match e {
        Some(v) => v as i32,
        None => 0,
    }
}

/// The known external ids among `ext_ids`, as the database keys them, in order.
pub open spec fn known_ext_ids(ext_ids: Seq<Option<u64>>) -> Seq<i32>
    decreases ext_ids.len(),
{
    if ext_ids.len() == 0 {
        seq![]
    } else {
        let prev = known_ext_ids(ext_ids.drop_last());
        match ext_ids.last() {
            Some(v) => prev.push(v as i32),
            None => prev,
        }
    }
}

pub open spec fn company_ext_ids(companies: Seq<GameCompany>) -> Seq<Option<u64>> {
    companies.map_values(|gc: GameCompany| gc.company.external_id)
}

pub open spec fn platform_ext_ids(platforms: Seq<Platform>) -> Seq<Option<u64>> {
    platforms.map_values(|p: Platform| p.external_id)
}

/// The companies of a game without repeats of an external id (as keyed by
/// `ext_or_zero`): the first company with each id, in order.
pub open spec fn unique_companies(companies: Seq<GameCompany>) -> Seq<(u128, i32, String)>
    decreases companies.len(),
{
    if companies.len() == 0 {
        seq![]
    } else {
        let prev = unique_companies(companies.drop_last());
        let c = companies.last().company;
        let e = ext_or_zero(c.external_id);
        if exists|k: int| 0 <= k < prev.len() && (#[trigger] prev[k]).1 == e {
            prev
        } else {
            prev.push((c.id, e, c.name))
        }
    }
}

/// The internal id that the lookup rows give for `ext`: the last row with it,
/// as collecting the rows into a map keeps.
pub open spec fn lookup_last(rows: Seq<ExternalIdMappingDbRow>, ext: i32) -> Option<u128>
    decreases rows.len(),
{
    if rows.len() == 0 {
        None
    } else if rows.last().external_id == ext {
        Some(rows.last().id)
    } else {
        lookup_last(rows.drop_last(), ext)
    }
}

/// The links of a game to its companies: for each company, in order, whose
/// external id the lookup resolves, that internal id and the role's text.
pub open spec fn company_links(companies: Seq<GameCompany>, rows: Seq<ExternalIdMappingDbRow>) -> Seq<(u128, Seq<char>)>
    decreases companies.len(),
{
    if companies.len() == 0 {
        seq![]
    } else {
        let prev = company_links(companies.drop_last(), rows);
        let gc = companies.last();
        match gc.company.external_id {
            Some(v) => match lookup_last(rows, v as i32) {
                Some(id) => prev.push((id, gc.role.text_spec())),
                None => prev,
            },
            None => prev,
        }
    }
}

fn ext_i32(e: u64) -> (r: i32)
    ensures
        r == e as i32,
{
    #[verifier::truncate] (e as i32)
}

/// The known external ids of `ext_ids`, in order.
pub(crate) fn known_ids(ext_ids: &Vec<Option<u64>>) -> (r: Vec<i32>)
    ensures
        r@ == known_ext_ids(ext_ids@),
{
    let mut r: Vec<i32> = Vec::new();
    let mut i: usize = 0;
    assert(ext_ids@.take(0) =~= Seq::<Option<u64>>::empty());
    while i < ext_ids.len()
        invariant
            i <= ext_ids@.len(),
            r@ == known_ext_ids(ext_ids@.take(i as int)),
        decreases ext_ids@.len() - i,
    {
        assert(ext_ids@.take(i + 1).drop_last() =~= ext_ids@.take(i as int));
        match ext_ids[i] {
            Some(v) => r.push(ext_i32(v)),
            None => {},
        }
        i = i + 1;
    }
    assert(ext_ids@.take(ext_ids@.len() as int) =~= ext_ids@);
    r
}

/// The columns of a batch upsert of genres: ids, keyed external ids, names.
pub struct GenreColumns {
    pub ids: Vec<u128>,
    pub external_ids: Vec<i32>,
    pub names: Vec<String>,
}

pub fn genre_columns(genres: &Vec<Genre>) -> (c: GenreColumns)
    ensures
        c.ids@.len() == genres@.len(),
        c.external_ids@.len() == genres@.len(),
        c.names@.len() == genres@.len(),
        forall|i: int| 0 <= i < genres@.len() ==> #[trigger] c.ids@[i] == genres@[i].id,
        forall|i: int|
            0 <= i < genres@.len() ==> #[trigger] c.external_ids@[i] == ext_or_zero(genres@[i].external_id),
        forall|i: int| 0 <= i < genres@.len() ==> #[trigger] c.names@[i] == genres@[i].name,
{
    let mut ids: Vec<u128> = Vec::new();
    let mut external_ids: Vec<i32> = Vec::new();
    let mut names: Vec<String> = Vec::new();
    let mut i: usize = 0;
    while i < genres.len()
        invariant
            i <= genres@.len(),
            ids@.len() == i,
            external_ids@.len() == i,
            names@.len() == i,
            forall|k: int| 0 <= k < i ==> #[trigger] ids@[k] == genres@[k].id,
            forall|k: int| 0 <= k < i ==> #[trigger] external_ids@[k] == ext_or_zero(genres@[k].external_id),
            forall|k: int| 0 <= k < i ==> #[trigger] names@[k] == genres@[k].name,
        decreases genres@.len() - i,
    {
        let g = &genres[i];
        ids.push(g.id);
        external_ids.push(
            match g.external_id {
                Some(e) => ext_i32(e),
                None => 0,
            },
        );
        names.push(g.name.clone());
        i = i + 1;
    }
    GenreColumns { ids, external_ids, names }
}

/// The columns of a batch upsert of companies: ids, keyed external ids, names.
pub struct CompanyColumns {
    pub ids: Vec<u128>,
    pub external_ids: Vec<i32>,
    pub names: Vec<String>,
}

impl CompanyColumns {
    pub open spec fn rows(&self) -> Seq<(u128, i32, String)> {
        Seq::new(self.ids@.len(), |i: int| (self.ids@[i], self.external_ids@[i], self.names@[i]))
    }
}

/// The upsert columns of the distinct companies of a game.
pub fn unique_company_columns(companies: &Vec<GameCompany>) -> (c: CompanyColumns)
    ensures
        c.ids@.len() == c.external_ids@.len() == c.names@.len(),
        c.rows() == unique_companies(companies@),
        forall|i: int, j: int|
            0 <= i < j < c.external_ids@.len() ==> #[trigger] c.external_ids@[i] != #[trigger] c.external_ids@[j],
        forall|k: int|
            0 <= k < companies@.len() ==> exists|j: int|
                0 <= j < c.external_ids@.len() && #[trigger] c.external_ids@[j] == ext_or_zero(
                    #[trigger] companies@[k].company.external_id,
                ),
        forall|j: int|
            0 <= j < c.ids@.len() ==> exists|k: int|
                0 <= k < companies@.len() && #[trigger] c.ids@[j] == (#[trigger] companies@[k]).company.id
                    && c.external_ids@[j] == ext_or_zero(companies@[k].company.external_id) && c.names@[j]
                    == companies@[k].company.name,
{
    let mut c = CompanyColumns { ids: Vec::new(), external_ids: Vec::new(), names: Vec::new() };
    let mut i: usize = 0;
    assert(companies@.take(0) =~= Seq::<GameCompany>::empty());
    assert(c.rows() =~= Seq::<(u128, i32, String)>::empty());
    while i < companies.len()
        invariant
            i <= companies@.len(),
            c.ids@.len() == c.external_ids@.len() == c.names@.len(),
            c.rows() == unique_companies(companies@.take(i as int)),
        decreases companies@.len() - i,
    {
        let company = &companies[i].company;
        let e: i32 = match company.external_id {
            Some(v) => ext_i32(v),
            None => 0,
        };
        let ghost prev = c.rows();
        assert(companies@.take(i + 1).drop_last() =~= companies@.take(i as int));
        assert(companies@.take(i + 1).last() == companies@[i as int]);
        let mut seen = false;
        let mut k: usize = 0;
        while k < c.external_ids.len()
            invariant
                k <= c.external_ids@.len(),
                c.ids@.len() == c.external_ids@.len() == c.names@.len(),
                prev == c.rows(),
                seen <==> exists|j: int| 0 <= j < k && (#[trigger] prev[j]).1 == e,
            decreases c.external_ids@.len() - k,
        {
            if c.external_ids[k] == e {
                assert(prev[k as int].1 == e);
                seen = true;
            }
            k = k + 1;
        }
        if !seen {
            c.ids.push(company.id);
            c.external_ids.push(e);
            c.names.push(company.name.clone());
            assert(c.rows() =~= prev.push((company.id, e, company.name)));
        }
        i = i + 1;
    }
    assert(companies@.take(companies@.len() as int) =~= companies@);
    proof {
        lemma_company_columns_distinct(&c, companies@);
        lemma_company_columns_from_game(&c, companies@);
    }
    c
}

/// Columns holding the distinct companies of `companies` key no two rows by
/// the same external id, and key a row by each company's external id.
proof fn lemma_company_columns_distinct(c: &CompanyColumns, companies: Seq<GameCompany>)
    requires
        c.ids@.len() == c.external_ids@.len() == c.names@.len(),
        c.rows() == unique_companies(companies),
    ensures
        forall|i: int, j: int|
            0 <= i < j < c.external_ids@.len() ==> #[trigger] c.external_ids@[i] != #[trigger] c.external_ids@[j],
        forall|k: int|
            0 <= k < companies.len() ==> exists|j: int|
                0 <= j < c.external_ids@.len() && #[trigger] c.external_ids@[j] == ext_or_zero(
                    #[trigger] companies[k].company.external_id,
                ),
{
    lemma_unique_companies_distinct(companies);
    lemma_unique_companies_cover(companies);
    let u = unique_companies(companies);
    assert forall|j: int| 0 <= j < u.len() implies #[trigger] u[j].1 == c.external_ids@[j] by {
        assert(c.rows()[j].1 == c.external_ids@[j]);
    }
    assert forall|k: int| 0 <= k < companies.len() implies exists|j: int|
        0 <= j < c.external_ids@.len() && #[trigger] c.external_ids@[j] == ext_or_zero(
            #[trigger] companies[k].company.external_id,
        ) by {
        let j = choose|j: int| 0 <= j < u.len() && #[trigger] u[j].1 == ext_or_zero(companies[k].company.external_id);
        assert(u[j].1 == c.external_ids@[j]);
    }
    assert forall|i: int, j: int| 0 <= i < j < c.external_ids@.len() implies #[trigger] c.external_ids@[i]
        != #[trigger] c.external_ids@[j] by {
        assert(u[i].1 == c.external_ids@[i]);
        assert(u[j].1 == c.external_ids@[j]);
    }
}

/// Each row of columns holding the distinct companies of `companies` is one
/// of those companies.
proof fn lemma_company_columns_from_game(c: &CompanyColumns, companies: Seq<GameCompany>)
    requires
        c.ids@.len() == c.external_ids@.len() == c.names@.len(),
        c.rows() == unique_companies(companies),
    ensures
        forall|j: int|
            0 <= j < c.ids@.len() ==> exists|k: int|
                0 <= k < companies.len() && #[trigger] c.ids@[j] == (#[trigger] companies[k]).company.id
                    && c.external_ids@[j] == ext_or_zero(companies[k].company.external_id) && c.names@[j]
                    == companies[k].company.name,
{
    lemma_unique_companies_from_game(companies);
    let u = unique_companies(companies);
    assert forall|j: int| 0 <= j < c.ids@.len() implies exists|k: int|
        0 <= k < companies.len() && #[trigger] c.ids@[j] == (#[trigger] companies[k]).company.id
            && c.external_ids@[j] == ext_or_zero(companies[k].company.external_id) && c.names@[j]
            == companies[k].company.name by {
        assert(u[j] == c.rows()[j]);
        let k = choose|k: int|
            0 <= k < companies.len() && #[trigger] u[j] == (
                (#[trigger] companies[k]).company.id,
                ext_or_zero(companies[k].company.external_id),
                companies[k].company.name,
            );
        assert(c.ids@[j] == companies[k].company.id);
    }
}

/// No two of the distinct companies of a game share an external id (as keyed
/// by `ext_or_zero`): a company that both develops and publishes a game is
/// upserted once.
pub proof fn lemma_unique_companies_distinct(companies: Seq<GameCompany>)
    ensures
        forall|i: int, j: int|
            0 <= i < j < unique_companies(companies).len() ==> (#[trigger] unique_companies(companies)[i]).1
                != (#[trigger] unique_companies(companies)[j]).1,
    decreases companies.len(),
{
    if companies.len() > 0 {
        let rest = companies.drop_last();
        lemma_unique_companies_distinct(rest);
        let prev = unique_companies(rest);
        let u = unique_companies(companies);
        let e = ext_or_zero(companies.last().company.external_id);
        if !(exists|k: int| 0 <= k < prev.len() && (#[trigger] prev[k]).1 == e) {
            assert forall|i: int, j: int| 0 <= i < j < u.len() implies (#[trigger] u[i]).1 != (
            #[trigger] u[j]).1 by {
                assert(u[i] == prev[i]);
                if j < prev.len() {
                    assert(u[j] == prev[j]);
                }
            }
        }
    }
}

/// Each of the distinct companies upserted is one of the game's companies,
/// with its id, keyed external id and name.
pub proof fn lemma_unique_companies_from_game(companies: Seq<GameCompany>)
    ensures
        forall|j: int|
            0 <= j < unique_companies(companies).len() ==> exists|k: int|
                0 <= k < companies.len() && #[trigger] unique_companies(companies)[j] == (
                    (#[trigger] companies[k]).company.id,
                    ext_or_zero(companies[k].company.external_id),
                    companies[k].company.name,
                ),
    decreases companies.len(),
{
    if companies.len() > 0 {
        let rest = companies.drop_last();
        lemma_unique_companies_from_game(rest);
        let prev = unique_companies(rest);
        let u = unique_companies(companies);
        let n = companies.len() - 1;
        assert(companies[n] == companies.last());
        assert forall|j: int| 0 <= j < u.len() implies exists|k: int|
            0 <= k < companies.len() && #[trigger] u[j] == (
                (#[trigger] companies[k]).company.id,
                ext_or_zero(companies[k].company.external_id),
                companies[k].company.name,
            ) by {
            if j < prev.len() {
                assert(u[j] == prev[j]);
                let k = choose|k: int|
                    0 <= k < rest.len() && #[trigger] prev[j] == (
                        (#[trigger] rest[k]).company.id,
                        ext_or_zero(rest[k].company.external_id),
                        rest[k].company.name,
                    );
                assert(companies[k] == rest[k]);
            } else {
                assert(u[j] == (
                    companies[n].company.id,
                    ext_or_zero(companies[n].company.external_id),
                    companies[n].company.name,
                ));
            }
        }
    }
}

/// Every company of a game has its external id (as keyed by `ext_or_zero`)
/// among the distinct companies upserted.
pub proof fn lemma_unique_companies_cover(companies: Seq<GameCompany>)
    ensures
        forall|k: int|
            0 <= k < companies.len() ==> exists|j: int|
                0 <= j < unique_companies(companies).len() && (#[trigger] unique_companies(companies)[j]).1
                    == ext_or_zero((#[trigger] companies[k]).company.external_id),
    decreases companies.len(),
{
    if companies.len() > 0 {
        let rest = companies.drop_last();
        lemma_unique_companies_cover(rest);
        let prev = unique_companies(rest);
        let u = unique_companies(companies);
        let n = companies.len() - 1;
        let e = ext_or_zero(companies[n].company.external_id);
        assert(companies[n] == companies.last());
        assert forall|k: int| 0 <= k < companies.len() implies exists|j: int|
            0 <= j < u.len() && (#[trigger] u[j]).1 == ext_or_zero(
                (#[trigger] companies[k]).company.external_id,
            ) by {
            if k < n {
                assert(companies[k] == rest[k]);
                let j = choose|j: int|
                    0 <= j < prev.len() && (#[trigger] prev[j]).1 == ext_or_zero(
                        (#[trigger] rest[k]).company.external_id,
                    );
                assert(u[j] == prev[j]);
            } else if exists|i: int| 0 <= i < prev.len() && (#[trigger] prev[i]).1 == e {
                let i = choose|i: int| 0 <= i < prev.len() && (#[trigger] prev[i]).1 == e;
                assert(u[i] == prev[i]);
            } else {
                assert(u[prev.len() as int].1 == e);
            }
        }
    }
}

/// The internal id that the lookup rows give for `ext`.
pub fn lookup_company(rows: &Vec<ExternalIdMappingDbRow>, ext: i32) -> (r: Option<u128>)
    ensures
        r == lookup_last(rows@, ext),
{
    let mut i: usize = rows.len();
    assert(rows@.take(rows@.len() as int) =~= rows@);
    while i > 0
        invariant
            i <= rows@.len(),
            lookup_last(rows@, ext) == lookup_last(rows@.take(i as int), ext),
        decreases i,
    {
        assert(rows@.take(i as int).drop_last() =~= rows@.take(i - 1));
        if rows[i - 1].external_id == ext {
            return Some(rows[i - 1].id);
        }
        i = i - 1;
    }
    assert(rows@.take(0) =~= Seq::<ExternalIdMappingDbRow>::empty());
    None
}

/// The columns of the links of a game to its companies.
pub struct CompanyLinkColumns {
    pub company_ids: Vec<u128>,
    pub roles: Vec<String>,
}

impl CompanyLinkColumns {
    pub open spec fn links(&self) -> Seq<(u128, Seq<char>)> {
        Seq::new(self.company_ids@.len(), |i: int| (self.company_ids@[i], self.roles@[i]@))
    }
}

pub fn company_link_columns(companies: &Vec<GameCompany>, rows: &Vec<ExternalIdMappingDbRow>) -> (c: CompanyLinkColumns)
    ensures
        c.company_ids@.len() == c.roles@.len(),
        c.links() == company_links(companies@, rows@),
{
    let mut c = CompanyLinkColumns { company_ids: Vec::new(), roles: Vec::new() };
    let mut i: usize = 0;
    assert(companies@.take(0) =~= Seq::<GameCompany>::empty());
    assert(c.links() =~= Seq::<(u128, Seq<char>)>::empty());
    while i < companies.len()
        invariant
            i <= companies@.len(),
            c.company_ids@.len() == c.roles@.len(),
            c.links() == company_links(companies@.take(i as int), rows@),
        decreases companies@.len() - i,
    {
        let gc = &companies[i];
        let ghost prev = c.links();
        assert(companies@.take(i + 1).drop_last() =~= companies@.take(i as int));
        assert(companies@.take(i + 1).last() == companies@[i as int]);
        match gc.company.external_id {
            Some(v) => {
                match lookup_company(rows, ext_i32(v)) {
                    Some(id) => {
                        let role = gc.role.as_text();
                        c.company_ids.push(id);
                        c.roles.push(role);
                        assert(c.links() =~= prev.push((id, gc.role.text_spec())));
                    },
                    None => {},
                }
            },
            None => {},
        }
        i = i + 1;
    }
    assert(companies@.take(companies@.len() as int) =~= companies@);
    c
}

} // verus!
