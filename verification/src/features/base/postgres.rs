use vstd::prelude::*;

verus! {

/// The database adapter of the health check; `P` is the connection pool.
pub struct PostgresAdapter<P> {
    pub pool: P,
}

impl<P> PostgresAdapter<P> {
    pub fn new(pool: P) -> (r: Self)
        ensures
            r.pool == pool,
    {
        Self { pool }
    }
}

/// The row that the health query returns.
pub struct PingDbRow {
    pub value: i32,
}

} // verus!
