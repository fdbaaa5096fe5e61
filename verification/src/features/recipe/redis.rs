//! The recipes cache: search sessions' ids as JSON lists, recipes under their
//! id, and a hash of view counts per day.

use vstd::prelude::*;

use super::output::CacheRepositoryError;
use crate::ids::{hyphenated, id_text, parse_id, uuid_parse};
use crate::text::{
    decimal, lemma_decimal_parses_back, parse_i32, parse_i32_spec, push_signed_decimal, push_two_digits,
    signed_decimal, two_digits,
};
use crate::time::{date_of, utc_date, utc_day};

verus! {

/// The cache adapter of recipes.
pub struct RedisCacheAdapter {
    conn: ::redis::aio::ConnectionManager,
}

impl RedisCacheAdapter {
    pub closed spec fn conn_spec(&self) -> ::redis::aio::ConnectionManager {
        self.conn
    }

    pub fn new(conn: ::redis::aio::ConnectionManager) -> (r: Self)
        ensures
            r.conn_spec() == conn,
    {
        Self { conn }
    }

    /// The connection the adapter talks through.
    pub fn connection(&self) -> (r: &::redis::aio::ConnectionManager)
        ensures
            *r == self.conn_spec(),
    {
        &self.conn
    }
}

/// A cached recipe that is read lives this long again.
pub const RECIPE_TTL_ON_READ_SECS: i64 = 1800;

/// A day's hash of view counts lives this long after its last count (27 hours).
pub const VIEWS_TTL_SECS: i64 = 100000;

/// One day, in microseconds.
pub const DAY_MICROS: i64 = 86_400_000_000;

// ─── Lists of ids, as JSON ───

/// The ids, each as a quoted hyphenated text, separated by commas.
pub open spec fn quoted_ids(ids: Seq<u128>) -> Seq<char>
    decreases ids.len(),
{
    if ids.len() == 0 {
        seq![]
    } else if ids.len() == 1 {
        "\""@ + hyphenated(ids[0]) + "\""@
    } else {
        quoted_ids(ids.drop_last()) + ","@ + "\""@ + hyphenated(ids.last()) + "\""@
    }
}

/// The JSON array of the ids' texts, as `serde_json` writes it.
pub open spec fn json_id_list(ids: Seq<u128>) -> Seq<char> {
    "["@ + quoted_ids(ids) + "]"@
}

/// What `serde_json::from_str::<Vec<uuid::Uuid>>` gives for a text: the ids
/// (as 128-bit values), or the error's message.
pub uninterp spec fn json_uuid_list(text: Seq<char>) -> Result<Seq<u128>, Seq<char>>;

/// The JSON text of a list of ids.
///
/// Calls `serde_json::to_string` on the ids as `uuid::Uuid`s. `uuid`
/// serialises an id as its hyphenated lowercase text, and `serde_json` writes
/// a list compactly: `[`, the quoted texts separated by commas, `]`; it cannot
/// fail on such a list. Reading that text back with `serde_json::from_str`
/// gives the same ids.
#[verifier::external_body]
fn encode_id_list(ids: &Vec<u128>) -> (r: Result<String, String>)
    ensures
        r is Ok,
        r matches Ok(t) ==> t@ == json_id_list(ids@),
        r matches Ok(t) ==> json_uuid_list(t@) is Ok && json_uuid_list(t@)->Ok_0 == ids@,
{
    let uuids: Vec<uuid::Uuid> = ids.iter().map(|v| uuid::Uuid::from_u128(*v)).collect();
    serde_json::to_string(&uuids).map_err(|e| e.to_string())
}

/// Reads a JSON list of ids.
///
/// Calls `serde_json::from_str::<Vec<uuid::Uuid>>`; the result, the ids or
/// the error's message, is named by `json_uuid_list`.
#[verifier::external_body]
fn decode_id_list(text: &str) -> (r: Result<Vec<u128>, String>)
    ensures
        r matches Ok(v) ==> json_uuid_list(text@) is Ok && json_uuid_list(text@)->Ok_0 == v@,
        r matches Err(m) ==> json_uuid_list(text@) is Err && json_uuid_list(text@)->Err_0 == m@,
{
    match serde_json::from_str::<Vec<uuid::Uuid>>(text) {
        Ok(v) => Ok(v.into_iter().map(|u| u.as_u128()).collect()),
        Err(e) => Err(e.to_string()),
    }
}

/// The value a search session's ids are cached as.
pub fn ids_cache_value(ids: &Vec<u128>) -> (r: String)
    ensures
        r@ == json_id_list(ids@),
        json_uuid_list(r@) == Ok::<Seq<u128>, Seq<char>>(ids@),
{
    match encode_id_list(ids) {
        Ok(t) => t,
        Err(m) => m,
    }
}

/// The ids a cached value holds: `None` on a cache miss, an internal error
/// with the decoder's message when the value is no JSON list of ids.
pub fn ids_from_cache(raw: Option<String>) -> (r: Result<Option<Vec<u128>>, CacheRepositoryError>)
    ensures
        raw is None ==> r matches Ok(None),
        raw matches Some(t) ==> (json_uuid_list(t@) matches Ok(ids) ==> (r matches Ok(Some(v)) && v@
            == ids)),
        raw matches Some(t) ==> (json_uuid_list(t@) matches Err(m) ==> (r matches Err(
            CacheRepositoryError::Internal(e),
        ) && e@ == m)),
{
    match raw {
        None => Ok(None),
        Some(t) => match decode_id_list(t.as_str()) {
            Ok(v) => Ok(Some(v)),
            Err(m) => Err(CacheRepositoryError::Internal(m)),
        },
    }
}

// ─── Views per day ───

/// The key of the hash of a day's view counts: `recipe:views:DD-MM-YYYY`.
pub open spec fn views_key_spec(day: nat, month: nat, year: int) -> Seq<char> {
    "recipe:views:"@ + two_digits(day) + "-"@ + two_digits(month) + "-"@ + signed_decimal(year)
}

/// The key of the hash of the view counts of a day.
pub fn views_key(day: u32, month: u32, year: i32) -> (r: String)
    ensures
        r@ == views_key_spec(day as nat, month as nat, year as int),
{
    let mut r = String::from_str("recipe:views:");
    push_two_digits(&mut r, day as u64);
    r.append("-");
    push_two_digits(&mut r, month as u64);
    r.append("-");
    push_signed_decimal(&mut r, year as i64);
    proof {
        reveal_strlit("recipe:views:");
        reveal_strlit("-");
    }
    r
}

/// The key of the view counts of the UTC day of the instant `micros`.
pub open spec fn views_key_at(micros: i64) -> Option<Seq<char>> {
    match utc_date(micros) {
        Some(d) => Some(views_key_spec(d.0 as nat, d.1 as nat, d.2 as int)),
        None => None,
    }
}

/// The key of the view counts of the UTC day of an instant (`None` when the
/// instant has no date).
pub fn day_views_key(micros: i64) -> (r: Option<String>)
    ensures
        r is Some == views_key_at(micros) is Some,
        r matches Some(k) ==> views_key_at(micros) == Some(k@),
{
    match date_of(micros) {
        Some(d) => Some(views_key(d.0, d.1, d.2)),
        None => None,
    }
}

/// The key of yesterday's view counts, one day before `now`.
pub fn yesterday_views_key(now: i64) -> (r: Option<String>)
    requires
        now >= i64::MIN + DAY_MICROS,
    ensures
        r is Some == views_key_at((now - DAY_MICROS) as i64) is Some,
        r matches Some(k) ==> views_key_at((now - DAY_MICROS) as i64) == Some(k@),
{
    day_views_key(now - DAY_MICROS)
}

/// Counting a view of a recipe: add 1 to field `field` of hash `key`, and let
/// the hash live `ttl_secs` more seconds.
pub struct ViewIncrement {
    pub key: String,
    pub field: String,
    pub by: i64,
    pub ttl_secs: i64,
}

/// How a view of recipe `id` at instant `now` is counted: in today's hash,
/// under the id's text (`None` when the instant has no date).
pub fn view_increment(id: u128, now: i64) -> (r: Option<ViewIncrement>)
    ensures
        r is Some == views_key_at(now) is Some,
        r matches Some(v) ==> views_key_at(now) == Some(v.key@) && v.field@ == hyphenated(id) && v.by
            == 1 && v.ttl_secs == VIEWS_TTL_SECS,
        r matches Some(v) ==> uuid_parse(v.field@) == Some(id),
{
    match day_views_key(now) {
        Some(key) => Some(ViewIncrement { key, field: id_text(id), by: 1, ttl_secs: VIEWS_TTL_SECS }),
        None => None,
    }
}

/// A (field, value) pair of a views hash read as (recipe id, count), when
/// both parse.
pub open spec fn parsed_view(p: (String, String)) -> Option<(u128, i32)> {
    match uuid_parse(p.0@) {
        Some(id) => match parse_i32_spec(p.1@) {
            Ok(n) => Some((id, n as i32)),
            Err(_) => None,
        },
        None => None,
    }
}

/// The pairs that parse, read as (recipe id, count), in order.
pub open spec fn parsed_views(pairs: Seq<(String, String)>) -> Seq<(u128, i32)>
    decreases pairs.len(),
{
    if pairs.len() == 0 {
        seq![]
    } else {
        let rest = parsed_views(pairs.drop_last());
        match parsed_view(pairs.last()) {
            Some(v) => rest.push(v),
            None => rest,
        }
    }
}

/// `v` put into `s` after the last view that is counted at least as often.
pub open spec fn insert_by_count(s: Seq<(u128, i32)>, v: (u128, i32)) -> Seq<(u128, i32)>
    decreases s.len(),
{
    if s.len() == 0 {
        seq![v]
    } else if s.last().1 >= v.1 {
        s.push(v)
    } else {
        insert_by_count(s.drop_last(), v).push(s.last())
    }
}

/// The views, most counted first, views counted as often keeping their order
/// (a stable sort by decreasing count).
pub open spec fn sort_by_count(s: Seq<(u128, i32)>) -> Seq<(u128, i32)>
    decreases s.len(),
{
    if s.len() == 0 {
        seq![]
    } else {
        insert_by_count(sort_by_count(s.drop_last()), s.last())
    }
}

/// The counts of `s` never increase.
pub open spec fn by_decreasing_count(s: Seq<(u128, i32)>) -> bool {
    forall|i: int, j: int| 0 <= i < j < s.len() ==> #[trigger] s[i].1 >= #[trigger] s[j].1
}

/// The ids of the first `limit` views.
pub open spec fn first_ids(s: Seq<(u128, i32)>, limit: nat) -> Seq<u128> {
    let n = if limit < s.len() { limit as int } else { s.len() as int };
    s.take(n).map_values(|v: (u128, i32)| v.0)
}

/// The most viewed recipe ids of a views hash, most viewed first, at most
/// `limit`; `None` when the hash has no entries.
pub open spec fn top_viewed(pairs: Seq<(String, String)>, limit: nat) -> Option<Seq<u128>> {
    if pairs.len() == 0 {
        None
    } else {
        Some(first_ids(sort_by_count(parsed_views(pairs)), limit))
    }
}

/// The views of a day are read on the next day: at any instant `now` of the
/// UTC day after the one of `written_at`, the key of yesterday's views is the
/// key that the views counted at `written_at` were written under.
pub proof fn lemma_yesterday_is_the_day_written(written_at: i64, now: i64)
    requires
        now >= i64::MIN + DAY_MICROS,
        utc_day(now as int) == utc_day(written_at as int) + 1,
    ensures
        views_key_at((now - DAY_MICROS) as i64) == views_key_at(written_at),
{
    assert(utc_day((now - DAY_MICROS) as int) == utc_day(now as int) - 1);
}

/// A day's hash that holds the views of a single recipe, under the recipe's
/// id with a count written in decimal (as the server's increments write it),
/// reads back as that recipe alone.
pub proof fn lemma_single_recipe_views_read_back(pairs: Seq<(String, String)>, id: u128, count: nat, limit: nat)
    requires
        pairs.len() == 1,
        uuid_parse(pairs[0].0@) == Some(id),
        pairs[0].1@ == decimal(count),
        1 <= count <= i32::MAX,
        limit >= 1,
    ensures
        top_viewed(pairs, limit) == Some(seq![id]),
{
    lemma_decimal_parses_back(count);
    let v = (id, count as i32);
    assert(pairs.drop_last() =~= Seq::<(String, String)>::empty());
    assert(parsed_view(pairs.last()) == Some(v));
    assert(parsed_views(pairs.drop_last()) == Seq::<(u128, i32)>::empty());
    assert(Seq::<(u128, i32)>::empty().push(v) =~= seq![v]);
    assert(parsed_views(pairs) =~= seq![v]);
    let sorted = sort_by_count(seq![v]);
    assert(seq![v].drop_last() =~= Seq::<(u128, i32)>::empty());
    assert(seq![v].last() == v);
    assert(sort_by_count(Seq::<(u128, i32)>::empty()) == Seq::<(u128, i32)>::empty());
    assert(insert_by_count(Seq::<(u128, i32)>::empty(), v) == seq![v]);
    assert(sorted =~= seq![v]);
    assert(sorted.take(1) =~= seq![v]);
    assert(first_ids(sorted, limit) =~= seq![id]);
}

/// Inserting at `j` is `insert_by_count` when the views before `j` are
/// counted at least as often as `v` and those from `j` less often.
proof fn lemma_insert_at(s: Seq<(u128, i32)>, v: (u128, i32), j: int)
    requires
        0 <= j <= s.len(),
        j > 0 ==> s[j - 1].1 >= v.1,
        forall|i: int| j <= i < s.len() ==> #[trigger] s[i].1 < v.1,
    ensures
        insert_by_count(s, v) == s.insert(j, v),
    decreases s.len(),
{
    if s.len() == 0 {
        assert(s.insert(j, v) =~= seq![v]);
    } else if s.last().1 >= v.1 {
        assert(j == s.len());
        assert(s.insert(j, v) =~= s.push(v));
    } else {
        let t = s.drop_last();
        assert(j < s.len());
        lemma_insert_at(t, v, j);
        assert(s.insert(j, v) =~= t.insert(j, v).push(s.last()));
    }
}

/// `insert_by_count` keeps a sequence by decreasing count.
proof fn lemma_insert_keeps_order(s: Seq<(u128, i32)>, v: (u128, i32))
    requires
        by_decreasing_count(s),
    ensures
        by_decreasing_count(insert_by_count(s, v)),
        insert_by_count(s, v).to_multiset() == s.to_multiset().insert(v),
        insert_by_count(s, v).len() == s.len() + 1,
    decreases s.len(),
{
    broadcast use vstd::seq_lib::group_to_multiset_ensures;
    if s.len() == 0 {
        assert(seq![v] =~= Seq::<(u128, i32)>::empty().push(v));
    } else if s.last().1 >= v.1 {
    } else {
        let t = s.drop_last();
        assert(by_decreasing_count(t));
        lemma_insert_keeps_order(t, v);
        let u = insert_by_count(t, v);
        assert(s =~= t.push(s.last()));
        assert forall|i: int, j: int| 0 <= i < j < u.push(s.last()).len() implies #[trigger] u.push(
            s.last(),
        )[i].1 >= #[trigger] u.push(s.last())[j].1 by {
            if j == u.len() {
                // every view of u is t's or v, each counted at least as often as s.last()
                assert(u.to_multiset().count(u[i]) > 0);
                assert(u.to_multiset() == t.to_multiset().insert(v));
                if u[i] != v {
                    assert(t.to_multiset().count(u[i]) > 0);
                    assert(t.contains(u[i]));
                    let k = choose|k: int| 0 <= k < t.len() && t[k] == u[i];
                    assert(s[k] == t[k]);
                    assert(s[k].1 >= s[s.len() - 1].1);
                }
            }
        }
    }
}

/// Sorting by count orders the views by decreasing count and keeps them all.
pub proof fn lemma_sort_by_count(s: Seq<(u128, i32)>)
    ensures
        by_decreasing_count(sort_by_count(s)),
        sort_by_count(s).to_multiset() == s.to_multiset(),
        sort_by_count(s).len() == s.len(),
    decreases s.len(),
{
    broadcast use vstd::seq_lib::group_to_multiset_ensures;
    if s.len() > 0 {
        lemma_sort_by_count(s.drop_last());
        lemma_insert_keeps_order(sort_by_count(s.drop_last()), s.last());
        assert(s =~= s.drop_last().push(s.last()));
    }
}

/// The views of the pairs that parse.
fn parse_views(pairs: &Vec<(String, String)>) -> (r: Vec<(u128, i32)>)
    ensures
        r@ == parsed_views(pairs@),
{
    let mut r: Vec<(u128, i32)> = Vec::new();
    let mut i: usize = 0;
    while i < pairs.len()
        invariant
            i <= pairs@.len(),
            r@ == parsed_views(pairs@.take(i as int)),
        decreases pairs@.len() - i,
    {
        assert(pairs@.take(i + 1).drop_last() =~= pairs@.take(i as int));
        assert(pairs@.take(i + 1).last() == pairs@[i as int]);
        let id = parse_id(pairs[i].0.as_str());
        match id {
            Some(id) => {
                match parse_i32(pairs[i].1.as_str()) {
                    Ok(n) => {
                        r.push((id, n));
                    },
                    Err(_) => {},
                }
            },
            None => {},
        }
        i = i + 1;
    }
    assert(pairs@.take(pairs@.len() as int) =~= pairs@);
    r
}

/// Views by decreasing count, stably.
fn sort_views(views: Vec<(u128, i32)>) -> (r: Vec<(u128, i32)>)
    ensures
        r@ == sort_by_count(views@),
{
    let mut r: Vec<(u128, i32)> = Vec::new();
    let mut i: usize = 0;
    while i < views.len()
        invariant
            i <= views@.len(),
            r@ == sort_by_count(views@.take(i as int)),
            by_decreasing_count(r@),
        decreases views@.len() - i,
    {
        let v = views[i];
        let mut j: usize = r.len();
        while j > 0 && r[j - 1].1 < v.1
            invariant
                j <= r@.len(),
                forall|k: int| j <= k < r@.len() ==> #[trigger] r@[k].1 < v.1,
            decreases j,
        {
            j = j - 1;
        }
        proof {
            lemma_insert_at(r@, v, j as int);
            lemma_insert_keeps_order(r@, v);
            assert(views@.take(i + 1).drop_last() =~= views@.take(i as int));
            assert(views@.take(i + 1).last() == v);
        }
        r.insert(j, v);
        i = i + 1;
    }
    assert(views@.take(views@.len() as int) =~= views@);
    r
}

/// The most viewed recipe ids of a day's views hash, read as (field, value)
/// pairs, most viewed first, at most `limit` of them; pairs whose id or count
/// does not parse are left out. `None` when the hash has no entries.
pub fn most_viewed_ids(pairs: Vec<(String, String)>, limit: usize) -> (r: Option<Vec<u128>>)
    ensures
        top_viewed(pairs@, limit as nat) is None ==> r is None,
        top_viewed(pairs@, limit as nat) matches Some(ids) ==> (r matches Some(v) && v@ == ids),
{
    if pairs.len() == 0 {
        return None;
    }
    let sorted = sort_views(parse_views(&pairs));
    let n = if limit < sorted.len() { limit } else { sorted.len() };
    let mut ids: Vec<u128> = Vec::new();
    let mut i: usize = 0;
    while i < n
        invariant
            n <= sorted@.len(),
            i <= n,
            ids@ == sorted@.take(i as int).map_values(|v: (u128, i32)| v.0),
        decreases n - i,
    {
        ids.push(sorted[i].0);
        assert(sorted@.take(i + 1) =~= sorted@.take(i as int).push(sorted@[i as int]));
        assert(ids@ =~= sorted@.take(i + 1).map_values(|v: (u128, i32)| v.0));
        i = i + 1;
    }
    Some(ids)
}

} // verus!
