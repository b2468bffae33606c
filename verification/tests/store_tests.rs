//! The content store end to end: deduplicating inserts, consumption,
//! lifecycle flags, pruning, diagnostics, and provider health.

use cazzmachine::model::{Category, CrawlItem};
use cazzmachine::store::ContentStore;

const TODAY: u64 = 20_240_115;
const YESTERDAY: u64 = 20_240_114;
const NOW: u64 = 1_700_000_000_000;

fn test_item(id_suffix: &str, category: Category, order: u64) -> CrawlItem {
    let cat_name = match category {
        Category::Meme => "meme",
        Category::Joke => "joke",
        Category::News => "news",
        Category::Video => "video",
        Category::Gossip => "gossip",
        Category::Other => "other",
    };
    CrawlItem {
        id: format!("test-{}-{}", cat_name, id_suffix),
        source: format!("test-{}-source", cat_name),
        category,
        title: format!("Test {} item {}", cat_name, id_suffix),
        url: format!("https://example.com/{}/{}", cat_name, id_suffix),
        thumbnail_url: Some("https://example.com/thumb.jpg".to_string()),
        thumbnail_data: None,
        description: Some(format!("Test description for {} item", cat_name)),
        fetched_at: NOW + order,
        is_seen: false,
        is_saved: false,
        is_consumed: false,
        session_date: TODAY,
    }
}

fn insert_test_items(store: &mut ContentStore) {
    let categories = [
        Category::Meme,
        Category::Joke,
        Category::News,
        Category::Video,
        Category::Gossip,
    ];
    let mut order = 0u64;
    for (i, category) in categories.iter().enumerate() {
        for j in 0..3 {
            let item = test_item(&format!("{}-{}", i, j), *category, order);
            assert!(store.insert_item(item));
            order += 1;
        }
    }
}

#[test]
fn test_consume_no_deadlock() {
    let mut store = ContentStore::new();
    insert_test_items(&mut store);

    let pending_before = store.get_pending_count(TODAY);
    assert!(pending_before > 0, "Should have pending items");

    let result = store.consume_pending_items(10, TODAY, NOW);
    assert!(
        result.items_consumed > 0 || result.items_discarded > 0,
        "Should have consumed or discarded some items"
    );

    let pending_after = store.get_pending_count(TODAY);
    assert_ne!(
        pending_before, pending_after,
        "Pending count should change after consumption"
    );
}

#[test]
fn test_notification_engine_pattern() {
    let mut store = ContentStore::new();
    insert_test_items(&mut store);
    let _ = store.consume_pending_items(100, TODAY, NOW);

    let stats = store.get_today_stats(TODAY);
    assert!(stats.total_items > 0);

    let unseen = store.get_latest_unseen_item(TODAY);
    assert!(unseen.is_some());

    let item = unseen.unwrap();
    store.log_diagnostic_event(
        "notification_sent",
        "info",
        "New item available",
        Some(item.id.clone()),
        None,
        NOW,
    );
    store.mark_item_seen(&item.id);
    let unseen_after = store.get_latest_unseen_item(TODAY);
    if let Some(next) = unseen_after {
        assert_ne!(next.id, item.id);
    }
}

#[test]
fn test_rapid_consume_calls() {
    let mut store = ContentStore::new();
    insert_test_items(&mut store);

    let mut total_consumed = 0i64;
    for i in 0..5u64 {
        let budget = 3 + i; // 0.3 to 0.7 minutes, in tenths
        let result = store.consume_pending_items(budget, TODAY, NOW + i);
        total_consumed += result.items_consumed;
        assert!(result.time_consumed_tenths <= budget as i64);
    }
    assert_eq!(store.get_pending_count(TODAY), 15 - total_consumed);
}

#[test]
fn test_full_content_workflow() {
    let mut store = ContentStore::new();
    insert_test_items(&mut store);

    let pending_before = store.get_pending_count(TODAY);
    assert!(pending_before > 0, "Should have pending items after insert");

    let consume_result = store.consume_pending_items(50, TODAY, NOW);
    assert!(consume_result.items_consumed >= 0);

    let items = store.get_items_for_today(TODAY);
    assert_eq!(items.len() as i64, consume_result.items_consumed);

    let pending_after = store.get_pending_count(TODAY);
    assert_eq!(pending_after, pending_before - consume_result.items_consumed);

    let stats = store.get_today_stats(TODAY);
    assert!(stats.total_items >= 0);
    assert_eq!(stats.total_items, consume_result.items_consumed);
}

#[test]
fn test_category_filtering() {
    let mut store = ContentStore::new();
    insert_test_items(&mut store);
    let _ = store.consume_pending_items(100, TODAY, NOW);

    let meme_items = store.get_items_by_category(Category::Meme, TODAY);
    let joke_items = store.get_items_by_category(Category::Joke, TODAY);
    let news_items = store.get_items_by_category(Category::News, TODAY);

    let total = meme_items.len() + joke_items.len() + news_items.len();
    assert!(total > 0, "Should have some consumed items");

    for item in &meme_items {
        assert_eq!(item.category, Category::Meme);
    }
    for item in &joke_items {
        assert_eq!(item.category, Category::Joke);
    }
}

#[test]
fn test_diagnostic_logging() {
    let mut store = ContentStore::new();

    store.log_diagnostic_event("test_event", "info", "Test info message", None, None, NOW);
    store.log_diagnostic_event("test_warning", "warning", "Test warning message", None, None, NOW + 1);
    store.log_diagnostic_event("test_error", "error", "Test error message", None, None, NOW + 2);

    let summary = store.get_diagnostic_summary(TODAY);
    assert!(summary.pending_count >= 0);

    let recent = store.get_recent_diagnostics(10);
    assert!(!recent.is_empty());
    assert_eq!(recent.len(), 3);
    // Newest first.
    assert_eq!(recent[0].event_type, "test_error");
    assert_eq!(recent[2].event_type, "test_event");
    // Every event got a fresh 36-character identifier.
    for log in &recent {
        assert_eq!(log.id.len(), 36);
    }
}

#[test]
fn test_pruning() {
    let mut store = ContentStore::new();
    insert_test_items(&mut store);

    let initial_count = store.get_pending_count(TODAY);
    assert!(initial_count > 0, "Should have items before pruning");

    let (deleted, redacted) = store.prune_old_items(TODAY);
    assert_eq!(deleted, 0, "Today's items must not be deleted");
    assert_eq!(redacted, 0, "Today's items must not be redacted");

    let after_count = store.get_pending_count(TODAY);
    assert_eq!(initial_count, after_count);
}

#[test]
fn test_pruning_redacts_and_deletes_old_rows() {
    let mut store = ContentStore::new();
    // One consumed and one unconsumed item from yesterday.
    let mut kept = test_item("old-consumed", Category::News, 0);
    kept.session_date = YESTERDAY;
    kept.is_consumed = true;
    let mut gone = test_item("old-pending", Category::Meme, 1);
    gone.session_date = YESTERDAY;
    assert!(store.insert_item(kept));
    assert!(store.insert_item(gone));

    let (deleted, redacted) = store.prune_old_items(TODAY);
    assert_eq!(deleted, 1);
    assert_eq!(redacted, 1);

    // The consumed row stays, redacted in place, its counts preserved.
    let rows = store.get_items_by_category(Category::News, YESTERDAY);
    assert_eq!(rows.len(), 1);
    assert_eq!(rows[0].title, "[ARCHIVED]");
    assert!(rows[0].description.is_none());
    assert!(rows[0].thumbnail_url.is_none());
    assert!(rows[0].is_seen);
    assert!(rows[0].is_consumed);
}

#[test]
fn test_provider_status() {
    let mut store = ContentStore::new();
    insert_test_items(&mut store);
    let _ = store.consume_pending_items(10, TODAY, NOW);

    let statuses = store.get_provider_status(NOW, TODAY);
    assert_eq!(statuses.len(), 13);
    assert!(statuses.iter().any(|s| s.provider_name == "hackernews"));
    assert!(statuses.iter().any(|s| s.provider_name == "google-news"));
}

#[test]
fn test_insert_duplicate_url_is_noop() {
    let mut store = ContentStore::new();
    let item = test_item("dup", Category::Meme, 0);
    let again = test_item("dup", Category::Meme, 1);
    assert!(store.insert_item(item));
    assert!(!store.insert_item(again), "Second insert must report a duplicate");
    assert_eq!(store.get_pending_count(TODAY), 1, "Exactly one stored row");
}

#[test]
fn test_insert_fifty_distinct_urls() {
    let mut store = ContentStore::new();
    for i in 0..50u64 {
        let mut item = test_item(&format!("batch-{}", i), Category::Meme, i);
        item.url = format!("https://example.com/batch/{}", i);
        item.id = format!("batch-id-{}", i);
        assert!(store.insert_item(item), "No distinct insert may be lost");
    }
    assert_eq!(store.get_pending_count(TODAY), 50);
    // A repeat of the whole batch reports 50 duplicates and adds nothing.
    for i in 0..50u64 {
        let mut item = test_item(&format!("batch-{}", i), Category::Meme, i);
        item.url = format!("https://example.com/batch/{}", i);
        item.id = format!("batch-id-{}", i);
        assert!(!store.insert_item(item));
    }
    assert_eq!(store.get_pending_count(TODAY), 50);
}

#[test]
fn test_consume_batch_idempotent() {
    let mut store = ContentStore::new();
    insert_test_items(&mut store);
    let ids = vec![
        "test-meme-0-0".to_string(),
        "test-joke-1-1".to_string(),
    ];
    store.consume_batch(&ids);
    let pending_once = store.get_pending_count(TODAY);
    assert_eq!(pending_once, 13);
    // The second application is a no-op.
    store.consume_batch(&ids);
    assert_eq!(store.get_pending_count(TODAY), pending_once);
    let consumed = store.get_items_for_today(TODAY);
    assert_eq!(consumed.len(), 2);
}

#[test]
fn test_toggle_saved_and_mark_seen() {
    let mut store = ContentStore::new();
    insert_test_items(&mut store);

    let saved = store.toggle_item_saved("test-meme-0-0");
    assert_eq!(saved, Some(true));
    let saved = store.toggle_item_saved("test-meme-0-0");
    assert_eq!(saved, Some(false), "Saving is reversible");
    assert_eq!(store.toggle_item_saved("no-such-id"), None);

    store.mark_item_seen("test-meme-0-1");
    store.consume_batch(&vec!["test-meme-0-1".to_string(), "test-meme-0-2".to_string()]);
    // The latest unseen consumed item skips the seen one.
    let unseen = store.get_latest_unseen_item(TODAY).unwrap();
    assert_eq!(unseen.id, "test-meme-0-2");
}

#[test]
fn test_items_ordered_newest_first() {
    let mut store = ContentStore::new();
    insert_test_items(&mut store);
    let _ = store.consume_pending_items(1000, TODAY, NOW);
    let items = store.get_items_for_today(TODAY);
    assert_eq!(items.len(), 15);
    for w in items.windows(2) {
        assert!(w[0].fetched_at >= w[1].fetched_at, "Descending fetch order");
    }
}

#[test]
fn test_today_stats_counts() {
    let mut store = ContentStore::new();
    insert_test_items(&mut store);
    let _ = store.consume_pending_items(1000, TODAY, NOW);
    let stats = store.get_today_stats(TODAY);
    assert_eq!(stats.memes_found, 3);
    assert_eq!(stats.jokes_found, 3);
    assert_eq!(stats.news_checked, 3);
    assert_eq!(stats.videos_found, 3);
    assert_eq!(stats.gossip_found, 3);
    assert_eq!(stats.total_items, 15);
    // 3 * (0.5 + 0.3 + 2.0 + 3.0 + 1.5) minutes saved, in tenths.
    assert_eq!(stats.estimated_time_saved_tenths, 219);
}

#[test]
fn test_clear_diagnostics() {
    let mut store = ContentStore::new();
    store.log_diagnostic_event("a", "info", "old", None, None, NOW - 10 * 86_400_000);
    store.log_diagnostic_event("b", "info", "fresh", None, None, NOW);
    // Deleting what is older than 3 days keeps only the fresh event.
    let deleted = store.clear_diagnostics(3, NOW);
    assert_eq!(deleted, 1);
    let recent = store.get_recent_diagnostics(-1);
    assert_eq!(recent.len(), 1);
    assert_eq!(recent[0].message, "fresh");
    // A cutoff of zero clears the whole log.
    let deleted = store.clear_diagnostics(0, NOW);
    assert_eq!(deleted, 1);
    assert!(store.get_recent_diagnostics(-1).is_empty());
}

#[test]
fn test_last_active_timestamp_roundtrip() {
    let mut store = ContentStore::new();
    // Unset: falls back to the caller's clock.
    assert_eq!(store.get_last_active_timestamp(123), 123);
    store.set_last_active_timestamp(42_000);
    assert_eq!(store.get_last_active_timestamp(123), 42_000);
}

#[test]
fn test_diagnostic_summary_health() {
    let mut store = ContentStore::new();
    let summary = store.get_diagnostic_summary(TODAY);
    assert_eq!(summary.pending_count, 0);
    assert_eq!(
        summary.estimated_buffer_health,
        cazzmachine::model::BufferHealth::Empty
    );

    insert_test_items(&mut store);
    let summary = store.get_diagnostic_summary(TODAY);
    assert_eq!(summary.pending_count, 15);
    // 3 of each category: total cost 21.9 minutes, a healthy buffer.
    assert_eq!(summary.budget_analysis.total_pending_cost_tenths, 219);
    assert_eq!(summary.budget_analysis.min_cost_per_item_tenths, 3);
    assert_eq!(summary.budget_analysis.max_cost_per_item_tenths, 30);
    assert_eq!(
        summary.estimated_buffer_health,
        cazzmachine::model::BufferHealth::Healthy
    );
}
