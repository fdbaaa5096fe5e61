use vstd::prelude::*;

use super::domain::Platform;

verus! {

/// The database adapter of platforms; `P` is the connection pool.
pub struct PostgresAdapter<P> {
    pub pool: P,
}

impl<P> PostgresAdapter<P> {
    pub fn new(pool: P) -> (r: Self)
        ensures
            r.pool == pool,
    {
        Self { pool }
    }
}

/// A platform row.
pub struct PlatformDbRow {
    pub id: u128,
    pub external_id: Option<i32>,
    pub platform_name: String,
    pub generation: Option<i32>,
}

/// An optional database integer read as an external id (`as u64`).
pub open spec fn ext_id_from_db(e: Option<i32>) -> Option<u64> {
    match e {
        Some(v) => Some(v as u64),
        None => None,
    }
}

/// An optional database integer read as a generation (`as u8`).
pub open spec fn generation_from_db(g: Option<i32>) -> Option<u8> {
    match g {
        Some(v) => Some(v as u8),
        None => None,
    }
}

pub fn ext_id_of(e: Option<i32>) -> (r: Option<u64>)
    ensures
        r == ext_id_from_db(e),
{
    match e {
        Some(v) => Some(#[verifier::truncate] (v as u64)),
        None => None,
    }
}

impl Platform {
    /// A platform read from its row.
    pub fn from_row(row: PlatformDbRow) -> (p: Platform)
        ensures
            p.id == row.id,
            p.external_id == ext_id_from_db(row.external_id),
            p.name == row.platform_name,
            p.generation == generation_from_db(row.generation),
    {
        let generation = match row.generation {
            Some(g) => Some(#[verifier::truncate] (g as u8)),
            None => None,
        };
        Platform { id: row.id, external_id: ext_id_of(row.external_id), name: row.platform_name, generation }
    }
}

/// The columns of a batch upsert of platforms.
pub struct PlatformColumns {
    pub ids: Vec<u128>,
    pub external_ids: Vec<Option<i64>>,
    pub names: Vec<String>,
    pub generations: Vec<Option<i32>>,
}

/// The upsert columns of `platforms`: ids, external ids (`as i64`), names and
/// generations (`as i32`), one entry per platform in order.
pub fn platform_columns(platforms: &Vec<Platform>) -> (c: PlatformColumns)
    ensures
        c.ids@.len() == platforms@.len(),
        c.external_ids@.len() == platforms@.len(),
        c.names@.len() == platforms@.len(),
        c.generations@.len() == platforms@.len(),
        forall|i: int| 0 <= i < platforms@.len() ==> #[trigger] c.ids@[i] == platforms@[i].id,
        forall|i: int|
            0 <= i < platforms@.len() ==> #[trigger] c.external_ids@[i] == external_id_to_db(
                platforms@[i].external_id,
            ),
        forall|i: int| 0 <= i < platforms@.len() ==> #[trigger] c.names@[i] == platforms@[i].name,
        forall|i: int|
            0 <= i < platforms@.len() ==> #[trigger] c.generations@[i] == generation_to_db(
                platforms@[i].generation,
            ),
{
    let mut ids: Vec<u128> = Vec::new();
    let mut external_ids: Vec<Option<i64>> = Vec::new();
    let mut names: Vec<String> = Vec::new();
    let mut generations: Vec<Option<i32>> = Vec::new();
    let mut i: usize = 0;
    while i < platforms.len()
        invariant
            i <= platforms@.len(),
            ids@.len() == i,
            external_ids@.len() == i,
            names@.len() == i,
            generations@.len() == i,
            forall|k: int| 0 <= k < i ==> #[trigger] ids@[k] == platforms@[k].id,
            forall|k: int|
                0 <= k < i ==> #[trigger] external_ids@[k] == external_id_to_db(
                    platforms@[k].external_id,
                ),
            forall|k: int| 0 <= k < i ==> #[trigger] names@[k] == platforms@[k].name,
            forall|k: int|
                0 <= k < i ==> #[trigger] generations@[k] == generation_to_db(platforms@[k].generation),
        decreases platforms@.len() - i,
    {
        let p = &platforms[i];
        ids.push(p.id);
        external_ids.push(
            match p.external_id {
                Some(e) => Some(#[verifier::truncate] (e as i64)),
                None => None,
            },
        );
        names.push(p.name.clone());
        generations.push(
            match p.generation {
                Some(g) => Some(g as i32),
                None => None,
            },
        );
        i = i + 1;
    }
    PlatformColumns { ids, external_ids, names, generations }
}

/// An external id as the database stores it (`as i64`).
pub open spec fn external_id_to_db(e: Option<u64>) -> Option<i64> {
    match e {
        Some(v) => Some(v as i64),
        None => None,
    }
}

/// A generation as the database stores it.
pub open spec fn generation_to_db(g: Option<u8>) -> Option<i32> {
    match g {
        Some(v) => Some(v as i32),
        None => None,
    }
}

} // verus!
