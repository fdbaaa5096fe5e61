//! Pages of a cached session, and pages completed from an external source.

use vstd::prelude::*;

use super::output::{CacheRepositoryError, CachedIdsPage, ExternalRepositoryError, PaginationError};

verus! {

/// The number of items asked of the external source at a time.
pub const BATCH_SIZE: usize = 50;

/// The most batches asked of the external source for one page.
pub const MAX_EXTERNAL_FETCHES: usize = 10;

/// The ids of a page of a cached session and the session's total, or an error
/// when the session is gone (expired or never cached).
pub fn page_uuids_from_session(page: Option<CachedIdsPage>) -> (r: Result<(Vec<u128>, usize), PaginationError>)
    ensures
        page matches Some(p) ==> r == Ok::<(Vec<u128>, usize), PaginationError>((p.ids, p.total_items)),
        page is None ==> (r matches Err(PaginationError::Cache(CacheRepositoryError::Internal(s)))
            && s@ == "Session expired"@),
{
    match page {
        Some(p) => Ok((p.ids, p.total_items)),
        None => Err(PaginationError::Cache(CacheRepositoryError::Internal(String::from_str("Session expired")))),
    }
}

/// What the pager asks for next.
#[derive(Debug, Clone, Copy, PartialEq, Eq, Structural)]
pub enum PagerAction {
    /// Fetch `limit` items from the external source, starting at `offset`,
    /// and hand the batch to `receive_batch`.
    Fetch { limit: usize, offset: usize },
    /// Count the external items and hand the count to `finish`.
    Count,
}

/// The page made of the internal items followed by the external items fetched,
/// cut at `limit` items.
pub open spec fn fallback_page<T>(internal: Seq<T>, fetched: Seq<T>, limit: nat) -> Seq<T> {
    if internal.len() >= limit {
        internal
    } else {
        let need = limit - internal.len();
        internal + fetched.take(if fetched.len() < need { fetched.len() as int } else { need as int })
    }
}

/// The external offset that a page at `offset` starts at, past the internal items.
pub open spec fn external_start(offset: nat, total_internal: nat) -> nat {
    if offset >= total_internal {
        (offset - total_internal) as nat
    } else {
        0
    }
}

/// A page of items completed from an external source once the internal items
/// are exhausted.
///
/// The page starts with the internal items it is given. When they fill the
/// page, or the page lies within the internal results, only the external count
/// is asked for. Otherwise batches of `BATCH_SIZE` external items are asked
/// for, at consecutive offsets from `external_start`, until the page is full,
/// a batch comes back empty, or `MAX_EXTERNAL_FETCHES` batches were asked for.
pub struct FallbackPager<T> {
    items: Vec<T>,
    limit: usize,
    total_internal: usize,
    next_offset: usize,
    fetches: usize,
    counting: bool,
    internal: Ghost<Seq<T>>,
    fetched: Ghost<Seq<T>>,
    start_offset: Ghost<nat>,
}

impl<T> FallbackPager<T> {
    /// The internal items the page started with.
    pub closed spec fn internal(&self) -> Seq<T> {
        self.internal@
    }

    /// All external items received so far, in the order received.
    pub closed spec fn fetched(&self) -> Seq<T> {
        self.fetched@
    }

    /// The items of the page so far.
    pub closed spec fn items(&self) -> Seq<T> {
        self.items@
    }

    pub closed spec fn limit(&self) -> nat {
        self.limit as nat
    }

    pub closed spec fn total_internal(&self) -> nat {
        self.total_internal as nat
    }

    /// The number of batches asked for so far.
    pub closed spec fn fetches(&self) -> nat {
        self.fetches as nat
    }

    /// Whether the pager waits for the external count (else for a batch).
    pub closed spec fn counting(&self) -> bool {
        self.counting
    }

    /// The external offset of the first batch.
    pub closed spec fn start_offset(&self) -> nat {
        self.start_offset@
    }

    /// The external offset of the next batch.
    pub closed spec fn next_offset(&self) -> nat {
        self.next_offset as nat
    }

    /// The pager's invariant.
    pub closed spec fn wf(&self) -> bool {
        &&& self.items@ == fallback_page(self.internal@, self.fetched@, self.limit as nat)
        &&& self.fetches <= MAX_EXTERNAL_FETCHES
        &&& self.next_offset == self.start_offset@ + BATCH_SIZE * self.fetches
        &&& !self.counting ==> self.internal@.len() + self.fetched@.len() < self.limit
        &&& !self.counting ==> self.fetches < MAX_EXTERNAL_FETCHES
        &&& self.fetches > 0 ==> self.internal@.len() < self.limit
    }

    /// Starts a page with the internal `items` already resolved.
    pub fn start(items: Vec<T>, total_internal: usize, limit: usize, offset: usize) -> (r: (
        Self,
        PagerAction,
    ))
        requires
            items.len() < limit ==> offset + limit <= usize::MAX,
        ensures
            r.0.wf(),
            r.0.internal() == items@,
            r.0.fetched() == Seq::<T>::empty(),
            r.0.items() == items@,
            r.0.limit() == limit,
            r.0.total_internal() == total_internal,
            r.0.fetches() == 0,
            r.0.start_offset() == external_start(offset as nat, total_internal as nat),
            r.0.next_offset() == r.0.start_offset(),
            r.0.next_offset() == r.0.start_offset() + BATCH_SIZE * r.0.fetches(),
            (items.len() >= limit || offset + limit <= total_internal) ==> r.1 == PagerAction::Count
                && r.0.counting(),
            !(items.len() >= limit || offset + limit <= total_internal) ==> r.1 == (PagerAction::Fetch {
                limit: BATCH_SIZE,
                offset: r.0.start_offset() as usize,
            }) && !r.0.counting(),
    {
        let start: usize = if offset >= total_internal {
            offset - total_internal
        } else {
            0
        };
        let direct = items.len() >= limit || offset + limit <= total_internal;
        let ghost internal = items@;
        let pager = FallbackPager {
            items,
            limit,
            total_internal,
            next_offset: start,
            fetches: 0,
            counting: direct,
            internal: Ghost(internal),
            fetched: Ghost(Seq::empty()),
            start_offset: Ghost(start as nat),
        };
        assert(internal.len() < limit ==> internal + Seq::<T>::empty().take(0) =~= internal);
        if direct {
            (pager, PagerAction::Count)
        } else {
            (pager, PagerAction::Fetch { limit: BATCH_SIZE, offset: start })
        }
    }

    /// Takes a batch of external items, as many as the page still needs.
    pub fn receive_batch(&mut self, batch: Vec<T>) -> (action: PagerAction)
        requires
            old(self).wf(),
            !old(self).counting(),
            batch.len() > 0 ==> old(self).next_offset() + BATCH_SIZE <= usize::MAX,
        ensures
            final(self).wf(),
            final(self).internal() == old(self).internal(),
            final(self).fetched() == old(self).fetched() + batch@,
            final(self).limit() == old(self).limit(),
            final(self).total_internal() == old(self).total_internal(),
            final(self).start_offset() == old(self).start_offset(),
            final(self).next_offset() == final(self).start_offset() + BATCH_SIZE * final(self).fetches(),
            batch.len() == 0 ==> action == PagerAction::Count && final(self).counting()
                && final(self).fetches() == old(self).fetches(),
            batch.len() > 0 ==> final(self).fetches() == old(self).fetches() + 1,
            batch.len() > 0 && final(self).items().len() < final(self).limit() && final(self).fetches()
                < MAX_EXTERNAL_FETCHES ==> action == (PagerAction::Fetch {
                limit: BATCH_SIZE,
                offset: final(self).next_offset() as usize,
            }) && !final(self).counting(),
            batch.len() > 0 && !(final(self).items().len() < final(self).limit() && final(self).fetches()
                < MAX_EXTERNAL_FETCHES) ==> action == PagerAction::Count && final(self).counting(),
    {
        if batch.len() == 0 {
            self.counting = true;
            proof {
                assert(self.fetched@ + batch@ =~= self.fetched@);
            }
            self.fetched = Ghost(self.fetched@ + batch@);
            return PagerAction::Count;
        }
        let ghost old_items = self.items@;
        let ghost old_fetched = self.fetched@;
        let ghost internal = self.internal@;
        let remaining_needed = self.limit - self.items.len();
        let take_amount = if remaining_needed < batch.len() {
            remaining_needed
        } else {
            batch.len()
        };
        let mut batch = batch;
        let ghost whole_batch = batch@;
        batch.truncate(take_amount);
        self.items.append(&mut batch);
        self.fetched = Ghost(old_fetched + whole_batch);
        self.next_offset = self.next_offset + BATCH_SIZE;
        self.fetches = self.fetches + 1;
        proof {
            let need = (self.limit - internal.len()) as int;
            assert(old_fetched.take(old_fetched.len() as int) =~= old_fetched);
            assert(old_items == internal + old_fetched);
            let all = old_fetched + whole_batch;
            let k = if all.len() < need {
                all.len() as int
            } else {
                need
            };
            assert(all.take(k) =~= old_fetched + whole_batch.take(take_amount as int));
            assert(self.items@ =~= internal + all.take(k));
        }
        if self.items.len() < self.limit && self.fetches < MAX_EXTERNAL_FETCHES {
            PagerAction::Fetch { limit: BATCH_SIZE, offset: self.next_offset }
        } else {
            self.counting = true;
            PagerAction::Count
        }
    }

    /// Ends the page when a fetch or the count failed: the page fails with
    /// that error, and the pager, consumed, asks for nothing more.
    pub fn receive_error(self, error: ExternalRepositoryError) -> (r: PaginationError)
        ensures
            r == PaginationError::External(error),
    {
        PaginationError::External(error)
    }

    /// The page and its total: the internal total plus the external count.
    pub fn finish(self, external_count: usize) -> (r: (Vec<T>, usize))
        requires
            self.wf(),
            self.counting(),
            self.total_internal() + external_count <= usize::MAX,
        ensures
            r.0@ == self.items(),
            r.0@ == fallback_page(self.internal(), self.fetched(), self.limit()),
            r.1 == self.total_internal() + external_count,
    {
        (self.items, self.total_internal + external_count)
    }
}


/// A page completed from the external source keeps the internal items first,
/// in order, followed by external items in the order fetched, and never holds
/// more than `limit` items: exactly `limit`, or all items there were.
pub proof fn lemma_fallback_page_shape<T>(internal: Seq<T>, fetched: Seq<T>, limit: nat)
    requires
        internal.len() < limit,
    ensures
        fallback_page(internal, fetched, limit).take(internal.len() as int) == internal,
        fallback_page(internal, fetched, limit).len() == if internal.len() + fetched.len() < limit {
            internal.len() + fetched.len()
        } else {
            limit
        },
        forall|i: int|
            0 <= i < fallback_page(internal, fetched, limit).len() - internal.len() ==> #[trigger] fallback_page(
                internal,
                fetched,
                limit,
            )[internal.len() + i] == fetched[i],
{
    let page = fallback_page(internal, fetched, limit);
    assert(page.take(internal.len() as int) =~= internal);
}

} // verus!
