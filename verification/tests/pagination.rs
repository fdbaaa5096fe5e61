use business::features::base::pagination::output::{
    CacheRepositoryError, CachedIdsPage, ExternalRepositoryError, PaginationError,
};
use business::features::base::pagination::query::{page_uuids_from_session, BATCH_SIZE, MAX_EXTERNAL_FETCHES};
use business::features::base::pagination::redis::{
    after_first, after_length, cache_entries, page_from_range, page_span, parse_entries, whole_span,
    CacheReadStep, CACHE_TTL_SECONDS,
};
use business::features::base::pagination::{FallbackPager, PagerAction};

fn id_text(id: u128) -> String {
    uuid::Uuid::from_u128(id).to_string()
}

fn ids(n: u128) -> Vec<u128> {
    (1..=n).map(|i| i * 0x1000_0000_0000_0000_0000_0001).collect()
}

#[test]
fn session_page_is_returned_as_it_is() {
    let page = CachedIdsPage { ids: vec![7, 8], total_items: 12 };
    let r = page_uuids_from_session(Some(page)).unwrap();
    assert_eq!(r, (vec![7, 8], 12));
}

#[test]
fn expired_session_is_a_cache_error() {
    match page_uuids_from_session(None) {
        Err(PaginationError::Cache(CacheRepositoryError::Internal(m))) => assert_eq!(m, "Session expired"),
        _ => panic!("expected a cache error"),
    }
}

#[test]
fn pagination_error_messages() {
    let e = PaginationError::Cache(CacheRepositoryError::Internal("Session expired".to_string()));
    assert_eq!(e.message(), "Cache repository: Error in Cache Repository: Session expired");
}

#[test]
fn pager_counts_directly_when_internal_items_fill_the_page() {
    let (pager, action) = FallbackPager::start(vec![1, 2, 3], 10, 3, 0);
    assert_eq!(action, PagerAction::Count);
    let (page, total) = pager.finish(5);
    assert_eq!(page, vec![1, 2, 3]);
    assert_eq!(total, 15);
}

#[test]
fn pager_counts_directly_at_any_offset_when_internal_items_fill_the_page() {
    let (pager, action) = FallbackPager::start(vec![1, 2], 0, 2, usize::MAX);
    assert_eq!(action, PagerAction::Count);
    assert_eq!(pager.finish(3), (vec![1, 2], 3));
}

#[test]
fn pager_counts_directly_when_the_page_lies_within_internal_results() {
    let (_, action) = FallbackPager::<u32>::start(vec![1], 20, 5, 10);
    assert_eq!(action, PagerAction::Count);
}

#[test]
fn pager_completes_from_external_batches() {
    // 2 internal items of 7 in all; page of 5 from offset 5: external start 5 - 7 < 0 -> 0
    let (mut pager, action) = FallbackPager::start(vec![1, 2], 7, 5, 5);
    assert_eq!(action, PagerAction::Fetch { limit: BATCH_SIZE, offset: 0 });
    let action = pager.receive_batch(vec![10, 11]);
    assert_eq!(action, PagerAction::Fetch { limit: BATCH_SIZE, offset: BATCH_SIZE });
    let action = pager.receive_batch(vec![12, 13, 14]);
    assert_eq!(action, PagerAction::Count);
    let (page, total) = pager.finish(100);
    assert_eq!(page, vec![1, 2, 10, 11, 12]);
    assert_eq!(total, 107);
}

#[test]
fn pager_starts_external_offset_past_internal_items() {
    let (_, action) = FallbackPager::<u32>::start(vec![], 7, 5, 20);
    assert_eq!(action, PagerAction::Fetch { limit: BATCH_SIZE, offset: 13 });
}

#[test]
fn pager_stops_on_an_empty_batch() {
    let (mut pager, _) = FallbackPager::start(vec![1], 1, 4, 0);
    assert_eq!(pager.receive_batch(vec![]), PagerAction::Count);
    let (page, total) = pager.finish(0);
    assert_eq!(page, vec![1]);
    assert_eq!(total, 1);
}

#[test]
fn pager_fails_with_the_error_of_a_failed_fetch() {
    let (mut pager, _) = FallbackPager::start(vec![1], 1, 4, 0);
    assert_eq!(pager.receive_batch(vec![2]), PagerAction::Fetch { limit: BATCH_SIZE, offset: BATCH_SIZE });
    let e = pager.receive_error(ExternalRepositoryError::External("timeout".to_string()));
    match e {
        PaginationError::External(ExternalRepositoryError::External(m)) => assert_eq!(m, "timeout"),
        other => panic!("unexpected error {:?}", other),
    }
}

#[test]
fn pager_stops_after_the_most_fetches() {
    let (mut pager, _) = FallbackPager::start(Vec::<u32>::new(), 0, 1000, 0);
    let mut last = PagerAction::Count;
    for i in 0..MAX_EXTERNAL_FETCHES {
        last = pager.receive_batch(vec![i as u32]);
    }
    assert_eq!(last, PagerAction::Count);
    let (page, _) = pager.finish(0);
    assert_eq!(page.len(), MAX_EXTERNAL_FETCHES);
}

#[test]
fn cache_entries_of_no_ids_is_the_empty_marker() {
    assert_eq!(cache_entries(&[]), vec!["EMPTY".to_string()]);
}

#[test]
fn cache_entries_are_the_ids_texts() {
    let v = ids(2);
    let e = cache_entries(&v);
    assert_eq!(e, vec![id_text(v[0]), id_text(v[1])]);
    assert_eq!(e[0], uuid::Uuid::from_u128(v[0]).to_string());
}

#[test]
fn session_list_reads_back_its_ids() {
    let v = ids(3);
    let entries = cache_entries(&v);
    let page = page_from_range(&entries, entries.len());
    assert_eq!(page.ids, v);
    assert_eq!(page.total_items, 3);
}

#[test]
fn unparsable_entries_are_skipped() {
    let entries = vec!["not an id".to_string(), id_text(5)];
    assert_eq!(parse_entries(&entries), vec![5]);
}

#[test]
fn read_steps() {
    assert_eq!(after_length(0), CacheReadStep::Missing);
    assert_eq!(after_length(4), CacheReadStep::ReadFirst);
    assert_eq!(after_first(&Some("EMPTY".to_string()), (0, 9)), CacheReadStep::RefreshThenEmpty);
    assert_eq!(
        after_first(&Some(id_text(1)), (2, 5)),
        CacheReadStep::RefreshThenRange { start: 2, stop: 5 }
    );
    assert_eq!(after_first(&None, (0, -1)), CacheReadStep::RefreshThenRange { start: 0, stop: -1 });
}

#[test]
fn spans() {
    assert_eq!(page_span(10, 20), (20, 29));
    assert_eq!(whole_span(), (0, -1));
    assert_eq!(CACHE_TTL_SECONDS, 600);
}

#[test]
fn joined_puts_the_separator_between() {
    assert_eq!(business::text::joined("games", ":", "abc"), "games:abc");
}
