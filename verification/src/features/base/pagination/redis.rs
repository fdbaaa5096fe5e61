//! The cache of session id lists: one list per session, holding the ids'
//! texts, or the single entry `EMPTY` when the session matched nothing.

use vstd::prelude::*;

use super::output::CachedIdsPage;
use crate::ids::{hyphenated, id_text, parse_id, uuid_parse};
use crate::text::joined;

verus! {

/// A managed connection to the cache server, carried opaquely.
#[verifier::external_type_specification]
#[verifier::external_body]
pub struct ExConnectionManager(::redis::aio::ConnectionManager);

/// How long a session list lives after it was last read or written.
pub const CACHE_TTL_SECONDS: u64 = 600;

/// The cache adapter of pagination sessions.
pub struct RedisAdapter {
    conn: ::redis::aio::ConnectionManager,
}

impl RedisAdapter {
    pub closed spec fn conn_spec(&self) -> ::redis::aio::ConnectionManager {
        self.conn
    }

    pub fn new(conn: ::redis::aio::ConnectionManager) -> (r: Self)
        ensures
            r.conn_spec() == conn,
    {
        Self { conn }
    }

    /// The connection the adapter talks through.
    pub fn connection(&self) -> (r: &::redis::aio::ConnectionManager)
        ensures
            *r == self.conn_spec(),
    {
        &self.conn
    }

    /// The key of a session's list: the prefix, a colon, the session id.
    pub fn format_key(&self, prefix_key: &str, session_id: &str) -> (r: String)
        ensures
            r@ == prefix_key@ + ":"@ + session_id@,
    {
        joined(prefix_key, ":", session_id)
    }
}

/// The single entry of the list of a session that matched nothing.
pub open spec fn empty_marker() -> Seq<char> {
    "EMPTY"@
}

/// `entries` is the list written for `ids`: the ids' texts in order, or the
/// single `EMPTY` entry when there are none.
pub open spec fn encodes_ids(entries: Seq<Seq<char>>, ids: Seq<u128>) -> bool {
    if ids.len() == 0 {
        entries == seq![empty_marker()]
    } else {
        &&& entries.len() == ids.len()
        &&& forall|i: int|
            0 <= i < ids.len() ==> #[trigger] entries[i] == hyphenated(ids[i]) && uuid_parse(
                entries[i],
            ) == Some(ids[i])
    }
}

/// The entries to push on a new session's list for `ids`.
pub fn cache_entries(ids: &[u128]) -> (entries: Vec<String>)
    ensures
        encodes_ids(entries@.map_values(|s: String| s@), ids@),
{
    let mut entries: Vec<String> = Vec::new();
    if ids.len() == 0 {
        entries.push(String::from_str("EMPTY"));
        assert(entries@.map_values(|s: String| s@) =~= seq![empty_marker()]);
        return entries;
    }
    let mut i: usize = 0;
    while i < ids.len()
        invariant
            i <= ids@.len(),
            entries@.len() == i,
            forall|k: int|
                0 <= k < i ==> #[trigger] entries@[k]@ == hyphenated(ids@[k]) && uuid_parse(
                    entries@[k]@,
                ) == Some(ids@[k]),
        decreases ids@.len() - i,
    {
        let text = id_text(ids[i]);
        entries.push(text);
        i = i + 1;
    }
    entries
}

/// What a session read does next.
#[derive(Debug, Clone, Copy, PartialEq, Eq, Structural)]
pub enum CacheReadStep {
    /// The session has no list: answer that it is missing.
    Missing,
    /// Read the first entry of the list.
    ReadFirst,
    /// Refresh the list's lifetime, then answer with no ids.
    RefreshThenEmpty,
    /// Refresh the list's lifetime, then read the entries from `start` to
    /// `stop` (both included; negative positions count from the end).
    RefreshThenRange { start: isize, stop: isize },
}

/// The step after reading the length of the session's list.
pub fn after_length(total_items: usize) -> (step: CacheReadStep)
    ensures
        total_items == 0 ==> step == CacheReadStep::Missing,
        total_items != 0 ==> step == CacheReadStep::ReadFirst,
{
    if total_items == 0 {
        CacheReadStep::Missing
    } else {
        CacheReadStep::ReadFirst
    }
}

/// The positions of a page of `limit` entries from `offset`.
pub fn page_span(limit: usize, offset: usize) -> (span: (isize, isize))
    requires
        1 <= offset + limit <= usize::MAX,
    ensures
        span.0 == offset as isize,
        span.1 == (offset + limit - 1) as isize,
{
    (#[verifier::truncate] (offset as isize), #[verifier::truncate] ((offset + limit - 1) as isize))
}

/// The positions of the whole list.
pub fn whole_span() -> (span: (isize, isize))
    ensures
        span == (0isize, -1isize),
{
    (0, -1)
}

/// The step after reading the first entry: the `EMPTY` marker answers with no
/// ids, anything else reads `span`.
pub fn after_first(first: &Option<String>, span: (isize, isize)) -> (step: CacheReadStep)
    ensures
        (first matches Some(f) && f@ == empty_marker()) ==> step == CacheReadStep::RefreshThenEmpty,
        !(first matches Some(f) && f@ == empty_marker()) ==> step == (CacheReadStep::RefreshThenRange {
            start: span.0,
            stop: span.1,
        }),
{
    let marker = String::from_str("EMPTY");
    match first {
        Some(f) => {
            if *f == marker {
                CacheReadStep::RefreshThenEmpty
            } else {
                CacheReadStep::RefreshThenRange { start: span.0, stop: span.1 }
            }
        },
        None => CacheReadStep::RefreshThenRange { start: span.0, stop: span.1 },
    }
}

/// The ids of the entries that parse as ids, in order; the others are skipped.
pub open spec fn parsed_ids(entries: Seq<Seq<char>>) -> Seq<u128>
    decreases entries.len(),
{
    if entries.len() == 0 {
        seq![]
    } else {
        let prev = parsed_ids(entries.drop_last());
        match uuid_parse(entries.last()) {
            Some(id) => prev.push(id),
            None => prev,
        }
    }
}

/// The ids of the entries read.
pub fn parse_entries(entries: &Vec<String>) -> (ids: Vec<u128>)
    ensures
        ids@ == parsed_ids(entries@.map_values(|s: String| s@)),
{
    let mut ids: Vec<u128> = Vec::new();
    let mut i: usize = 0;
    let ghost all = entries@.map_values(|s: String| s@);
    assert(all.take(0) =~= Seq::<Seq<char>>::empty());
    while i < entries.len()
        invariant
            i <= entries@.len(),
            all == entries@.map_values(|s: String| s@),
            ids@ == parsed_ids(all.take(i as int)),
        decreases entries@.len() - i,
    {
        assert(all.take(i + 1).drop_last() =~= all.take(i as int));
        assert(all.take(i + 1).last() == entries@[i as int]@);
        match parse_id(entries[i].as_str()) {
            Some(id) => ids.push(id),
            None => {},
        }
        i = i + 1;
    }
    assert(all.take(entries@.len() as int) =~= all);
    ids
}

/// The page made of the entries read, with the length of the whole list.
pub fn page_from_range(entries: &Vec<String>, total_items: usize) -> (page: CachedIdsPage)
    ensures
        page.ids@ == parsed_ids(entries@.map_values(|s: String| s@)),
        page.total_items == total_items,
{
    CachedIdsPage { ids: parse_entries(entries), total_items }
}

/// The entries that the cache server's `LRANGE list start stop` answers with:
/// positions from `start` to `stop`, both included, negative positions
/// counting from the end, clamped to the list.
pub open spec fn lrange(list: Seq<Seq<char>>, start: int, stop: int) -> Seq<Seq<char>> {
    let len = list.len() as int;
    let s0 = if start < 0 { start + len } else { start };
    let s = if s0 < 0 { 0 } else { s0 };
    let e0 = if stop < 0 { stop + len } else { stop };
    let e = if e0 >= len { len - 1 } else { e0 };
    if s > e || s >= len {
        seq![]
    } else {
        list.subrange(s, e + 1)
    }
}

proof fn lemma_parsed_ids_of_encoded(entries: Seq<Seq<char>>, ids: Seq<u128>)
    requires
        entries.len() == ids.len(),
        forall|i: int| 0 <= i < ids.len() ==> uuid_parse(#[trigger] entries[i]) == Some(ids[i]),
    ensures
        parsed_ids(entries) == ids,
    decreases ids.len(),
{
    if ids.len() > 0 {
        let e = entries.drop_last();
        let d = ids.drop_last();
        assert forall|i: int| 0 <= i < d.len() implies uuid_parse(#[trigger] e[i]) == Some(d[i]) by {
            assert(e[i] == entries[i]);
            assert(uuid_parse(entries[i]) == Some(ids[i]));
        }
        lemma_parsed_ids_of_encoded(e, d);
        assert(uuid_parse(entries[ids.len() - 1]) == Some(ids[ids.len() - 1]));
        assert(d.push(ids.last()) =~= ids);
    }
}

/// A session list written for `ids` reads back as `ids`: it is never missing;
/// when `ids` is empty its first entry is the `EMPTY` marker (so a read answers
/// with no ids); otherwise its first entry is no marker, a page of `limit` ids
/// from `offset` reads back as that slice of `ids`, and the whole list reads
/// back as `ids`.
pub proof fn lemma_session_list_reads_back(
    ids: Seq<u128>,
    entries: Seq<Seq<char>>,
    limit: usize,
    offset: usize,
)
    requires
        encodes_ids(entries, ids),
        1 <= offset + limit,
        offset + limit - 1 <= isize::MAX,
    ensures
        entries.len() > 0,
        ids.len() == 0 ==> entries[0] == empty_marker(),
        ids.len() > 0 ==> {
            let len = ids.len() as int;
            let lo = if offset < len { offset as int } else { len };
            let hi = if offset + limit < len { (offset + limit) as int } else { len };
            &&& entries[0] != empty_marker()
            &&& entries.len() == ids.len()
            &&& parsed_ids(lrange(entries, offset as int, offset + limit - 1)) == ids.subrange(lo, hi)
            &&& parsed_ids(lrange(entries, 0, -1)) == ids
        },
{
    reveal_strlit("EMPTY");
    if ids.len() > 0 {
        let len = ids.len() as int;
        crate::ids::lemma_hyphenated_len(ids[0]);
        assert(entries[0] == hyphenated(ids[0]));
        assert(entries[0].len() != empty_marker().len());
        let lo = if offset < len { offset as int } else { len };
        let hi = if offset + limit < len { (offset + limit) as int } else { len };
        let r = lrange(entries, offset as int, offset + limit - 1);
        if lo < hi {
            assert(r =~= entries.subrange(lo, hi));
        } else {
            assert(r =~= Seq::<Seq<char>>::empty());
        }
        let sub_e = entries.subrange(lo, hi);
        let sub_i = ids.subrange(lo, hi);
        assert forall|i: int| 0 <= i < sub_i.len() implies uuid_parse(#[trigger] sub_e[i]) == Some(
            sub_i[i],
        ) by {
            assert(sub_e[i] == entries[lo + i]);
            assert(sub_i[i] == ids[lo + i]);
        }
        lemma_parsed_ids_of_encoded(sub_e, sub_i);
        if lo >= hi {
            assert(sub_i =~= Seq::<u128>::empty());
            assert(parsed_ids(Seq::<Seq<char>>::empty()) == Seq::<u128>::empty());
        }
        assert(lrange(entries, 0, -1) =~= entries);
        assert forall|i: int| 0 <= i < ids.len() implies uuid_parse(#[trigger] entries[i]) == Some(
            ids[i],
        ) by {}
        lemma_parsed_ids_of_encoded(entries, ids);
    }
}

} // verus!
