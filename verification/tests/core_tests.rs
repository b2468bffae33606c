//! The allocator's edge-case policy, the text utilities, identifier
//! derivation, provider health, lifecycle, and the daily summary.

use cazzmachine::allocator::{allocate, empty_consume_reason};
use cazzmachine::health::derive_single_provider_status;
use cazzmachine::ident::generate_stable_id;
use cazzmachine::lifecycle::{get_shared_state, LifecycleManager};
use cazzmachine::model::{Category, EmptyConsumeReason, FetchStatus, FetchedItem};
use cazzmachine::providers::{is_image_url, BbcNewsProvider, ChuckNorrisProvider, DadJokeProvider,
    GoogleNewsRssProvider, GossipProvider, HackerNewsProvider, JokeApiProvider, RedditMemeProvider,
    RedditProvider, RedditVideoProvider, UselessFactsProvider};
use cazzmachine::store::ContentStore;
use cazzmachine::summary::generate_daily_summary;
use cazzmachine::textutil::{contains_ci, str_eq, strip_html, urlencoded};

const TODAY: u64 = 20_240_115;
const NOW: u64 = 1_700_000_000_000;

fn fetched(url: &str, category: Category) -> FetchedItem {
    FetchedItem {
        source: "test-source".to_string(),
        category,
        title: format!("Item at {}", url),
        url: url.to_string(),
        thumbnail_url: None,
        thumbnail_data: None,
        description: None,
    }
}

#[test]
fn test_greedy_scenario_two_memes_fit() {
    // Three memes (0.5 each) and one video (3.0) in fetch order, with a
    // budget of 1.2 minutes: the first two memes fit (1.0), the third
    // meme and the video stay pending.
    let mut store = ContentStore::new();
    for i in 0..3 {
        let item = fetched(&format!("https://example.com/meme/{}", i), Category::Meme)
            .into_crawl_item(NOW + i, TODAY);
        assert!(store.insert_item(item));
    }
    let video = fetched("https://example.com/video/0", Category::Video)
        .into_crawl_item(NOW + 3, TODAY);
    assert!(store.insert_item(video));

    let result = store.consume_pending_items(12, TODAY, NOW + 4);
    assert_eq!(result.items_consumed, 2);
    assert_eq!(result.memes_consumed, 2);
    assert_eq!(result.videos_consumed, 0);
    assert_eq!(result.items_discarded, 2);
    assert_eq!(result.time_consumed_tenths, 10);
    assert_eq!(store.get_pending_count(TODAY), 2);
}

#[test]
fn test_consume_empty_buffer_reason() {
    let mut store = ContentStore::new();
    let result = store.consume_pending_items(50, TODAY, NOW);
    assert_eq!(result.items_consumed, 0);
    let recent = store.get_recent_diagnostics(1);
    assert_eq!(recent[0].event_type, "consume_empty");
    assert_eq!(recent[0].severity, "warn");
    assert_eq!(recent[0].message, "empty_buffer");
}

#[test]
fn test_consume_all_items_too_expensive_reason() {
    // A single video (3.0 minutes) against a budget of 1.0.
    let mut store = ContentStore::new();
    let video = fetched("https://example.com/v", Category::Video).into_crawl_item(NOW, TODAY);
    assert!(store.insert_item(video));
    let result = store.consume_pending_items(10, TODAY, NOW + 1);
    assert_eq!(result.items_consumed, 0);
    assert_eq!(result.items_discarded, 1);
    let recent = store.get_recent_diagnostics(1);
    assert_eq!(recent[0].message, "all_items_too_expensive");
    assert_eq!(store.get_pending_count(TODAY), 1, "The item stays pending");
}

#[test]
fn test_consume_budget_too_small_reason() {
    // A budget below the cheapest category cost (0.3 minutes).
    let mut store = ContentStore::new();
    let joke = fetched("https://example.com/j", Category::Joke).into_crawl_item(NOW, TODAY);
    assert!(store.insert_item(joke));
    let result = store.consume_pending_items(2, TODAY, NOW + 1);
    assert_eq!(result.items_consumed, 0);
    let recent = store.get_recent_diagnostics(1);
    assert_eq!(recent[0].message, "budget_too_small");
}

#[test]
fn test_allocate_pure_walk() {
    let cats = vec![Category::Meme, Category::Meme, Category::Meme, Category::Video];
    let allocation = allocate(&cats, 12);
    assert_eq!(allocation.selected, vec![true, true, false, false]);
    assert_eq!(allocation.outcome.items_consumed, 2);
    assert_eq!(allocation.outcome.time_consumed_tenths, 10);
    assert_eq!(allocation.outcome.items_discarded, 2);
}

#[test]
fn test_allocate_prefers_older_items() {
    // FIFO fairness: the older, dearer news item wins over the cheaper
    // joke behind it once the budget covers it.
    let cats = vec![Category::News, Category::Joke];
    let allocation = allocate(&cats, 20);
    assert_eq!(allocation.selected, vec![true, false]);
    let allocation = allocate(&cats, 23);
    assert_eq!(allocation.selected, vec![true, true]);
}

#[test]
fn test_empty_reason_classification() {
    assert_eq!(
        empty_consume_reason(&vec![], 50),
        Some(EmptyConsumeReason::EmptyBuffer)
    );
    assert_eq!(
        empty_consume_reason(&vec![Category::Video], 2),
        Some(EmptyConsumeReason::BudgetTooSmall)
    );
    assert_eq!(
        empty_consume_reason(&vec![Category::Video], 10),
        Some(EmptyConsumeReason::AllItemsTooExpensive)
    );
    assert_eq!(empty_consume_reason(&vec![Category::Video], 30), None);
}

#[test]
fn test_stable_id_is_url_digest() {
    // The identifier is the lowercase hex of the first 16 digest bytes.
    assert_eq!(generate_stable_id("abc"), "ba7816bf8f01cfea414140de5dae2223");
    // Deterministic: the same URL always yields the same identifier.
    assert_eq!(generate_stable_id("abc"), generate_stable_id("abc"));
    assert_ne!(generate_stable_id("abc"), generate_stable_id("abd"));
}

#[test]
fn test_into_crawl_item_fields() {
    let item = fetched("https://example.com/a", Category::Gossip).into_crawl_item(NOW, TODAY);
    assert_eq!(item.id, "2dce0a4c50441bfccfa9caf4b58c3cba");
    assert_eq!(item.url, "https://example.com/a");
    assert_eq!(item.category, Category::Gossip);
    assert_eq!(item.fetched_at, NOW);
    assert_eq!(item.session_date, TODAY);
    assert!(!item.is_seen && !item.is_saved && !item.is_consumed);
}

#[test]
fn test_strip_html_removes_tags() {
    assert_eq!(strip_html("<b>hello</b> world"), "hello world");
    assert_eq!(strip_html("no tags"), "no tags");
    assert_eq!(strip_html("<p><i>nested</i></p>"), "nested");
    assert_eq!(strip_html(""), "");
}

#[test]
fn test_urlencoded_escapes_delimiters() {
    assert_eq!(
        urlencoded("https://news.google.com/rss?hl=en-US&gl=US"),
        "https%3A%2F%2Fnews.google.com%2Frss%3Fhl%3Den-US%26gl%3DUS"
    );
    assert_eq!(urlencoded("plain"), "plain");
}

#[test]
fn test_contains_ci_folds_case() {
    assert!(contains_ci("Fetched from HackerNews today", "hackernews"));
    assert!(contains_ci("BBC-NEWS: fetched 8 items", "bbc-news"));
    assert!(!contains_ci("google-news fetch", "hackernews"));
    assert!(contains_ci("anything", ""));
}

#[test]
fn test_str_eq_exact() {
    assert!(str_eq("crawl_success", "crawl_success"));
    assert!(!str_eq("crawl_success", "crawl_error"));
    assert!(!str_eq("a", "ab"));
}

#[test]
fn test_is_image_url_cases() {
    assert!(is_image_url("https://x/y.jpg"));
    assert!(is_image_url("https://x/y.webp"));
    assert!(is_image_url("https://i.redd.it/abc"));
    assert!(is_image_url("https://i.imgur.com/abc"));
    assert!(!is_image_url("https://example.com/page.html"));
}

#[test]
fn test_provider_identities() {
    assert_eq!(RedditProvider::memes().name(), "memes");
    assert_eq!(RedditProvider::memes().category(), Category::Meme);
    assert_eq!(RedditProvider::dad_jokes().name(), "dadjokes");
    assert_eq!(RedditProvider::dad_jokes().category(), Category::Joke);
    assert_eq!(RedditProvider::celebrity_gossip().name(), "entertainment");
    assert_eq!(RedditProvider::celebrity_gossip().category(), Category::Gossip);
    assert_eq!(DadJokeProvider.name(), "icanhazdadjoke");
    assert_eq!(RedditMemeProvider.name(), "reddit-memes");
    assert_eq!(RedditVideoProvider.name(), "reddit-videos");
    assert_eq!(GossipProvider.name(), "gossip");
    assert_eq!(GoogleNewsRssProvider.name(), "google-news");
    assert_eq!(JokeApiProvider.name(), "jokeapi");
    assert_eq!(UselessFactsProvider.name(), "uselessfacts");
    assert_eq!(ChuckNorrisProvider.name(), "chucknorris");
    assert_eq!(HackerNewsProvider.name(), "hackernews");
    assert_eq!(BbcNewsProvider.name(), "bbc-news");
    assert_eq!(BbcNewsProvider.category(), Category::News);
}

#[test]
fn test_all_new_providers_have_valid_names() {
    let jokeapi = JokeApiProvider;
    assert_eq!(jokeapi.name(), "jokeapi");
    assert_eq!(jokeapi.category(), Category::Joke);

    let uselessfacts = UselessFactsProvider;
    assert_eq!(uselessfacts.name(), "uselessfacts");

    let chucknorris = ChuckNorrisProvider;
    assert_eq!(chucknorris.name(), "chucknorris");
    assert_eq!(chucknorris.category(), Category::Joke);

    let hackernews = HackerNewsProvider;
    assert_eq!(hackernews.name(), "hackernews");
    assert_eq!(hackernews.category(), Category::News);

    let bbcnews = BbcNewsProvider;
    assert_eq!(bbcnews.name(), "bbc-news");
    assert_eq!(bbcnews.category(), Category::News);
}

#[test]
fn test_health_success_overrides_earlier_error() {
    let mut store = ContentStore::new();
    // Older success, newer error is counted but a success further back
    // in the scan window does not exist; the newest success wins when
    // it is the first match.
    store.log_diagnostic_event(
        "crawl_error",
        "error",
        "hackernews: no items fetched",
        None,
        None,
        NOW - 2000,
    );
    store.log_diagnostic_event(
        "crawl_success",
        "info",
        "hackernews: fetched 8 items",
        None,
        None,
        NOW - 1000,
    );
    let events = store.fetch_recent_crawl_events(NOW);
    assert_eq!(events.len(), 2);
    let status = derive_single_provider_status(&events, "hackernews", Category::News, false, TODAY);
    assert_eq!(status.last_fetch_status, FetchStatus::Succeeded);
    assert_eq!(status.recent_error_count, 0, "Errors older than the success are not counted");
    assert_eq!(status.last_fetch_timestamp, Some(NOW - 1000));
}

#[test]
fn test_health_error_counted_until_success() {
    let mut store = ContentStore::new();
    store.log_diagnostic_event(
        "crawl_success",
        "info",
        "jokeapi: fetched 5 items",
        None,
        None,
        NOW - 3000,
    );
    store.log_diagnostic_event(
        "crawl_error",
        "error",
        "jokeapi: no items fetched",
        None,
        None,
        NOW - 1000,
    );
    let events = store.fetch_recent_crawl_events(NOW);
    let status = derive_single_provider_status(&events, "jokeapi", Category::Joke, false, TODAY);
    // The newer error counts, but the older success still overrides.
    assert_eq!(status.last_fetch_status, FetchStatus::Succeeded);
    assert_eq!(status.recent_error_count, 1);
}

#[test]
fn test_health_fallback_to_stored_items() {
    let mut store = ContentStore::new();
    let meme = fetched("https://example.com/m", Category::Meme).into_crawl_item(NOW, TODAY);
    assert!(store.insert_item(meme));
    let statuses = store.get_provider_status(NOW, TODAY);
    // No events at all: a meme-category provider is inferred fine as of
    // today, a news provider stays unknown.
    let memes = statuses.iter().find(|s| s.provider_name == "memes").unwrap();
    assert_eq!(memes.last_fetch_status, FetchStatus::Succeeded);
    assert_eq!(memes.last_fetch_timestamp, Some(TODAY));
    let hn = statuses.iter().find(|s| s.provider_name == "hackernews").unwrap();
    assert_eq!(hn.last_fetch_status, FetchStatus::Unknown);
    assert_eq!(hn.last_fetch_timestamp, None);
}

#[test]
fn test_health_window_excludes_old_events() {
    let mut store = ContentStore::new();
    store.log_diagnostic_event(
        "crawl_success",
        "info",
        "gossip: fetched 3 items",
        None,
        None,
        NOW - 2 * 86_400_000,
    );
    let events = store.fetch_recent_crawl_events(NOW);
    assert!(events.is_empty(), "Events older than a day are out of the window");
}

#[test]
fn test_lifecycle_background_flag() {
    let mut mgr = LifecycleManager::new();
    assert!(!mgr.is_background_mode());
    mgr.on_background();
    assert!(mgr.is_background_mode());
    mgr.on_foreground();
    assert!(!mgr.is_background_mode());
}

#[test]
fn test_elapsed_milli_minutes() {
    // Twelve minutes in milliseconds.
    let elapsed = LifecycleManager::get_elapsed_milli_minutes(1_000_000, 1_000_000 + 720_000);
    assert_eq!(elapsed, 12_000);
}

#[test]
fn test_shared_state_defaults() {
    let state = get_shared_state(55);
    assert_eq!(state.last_active_timestamp, 55);
    assert!(!state.is_background_mode);
    assert_eq!(state.download_interval_minutes, 30);
}

#[test]
fn test_daily_summary_highlights_capped() {
    let mut store = ContentStore::new();
    for i in 0..8u64 {
        let item = fetched(&format!("https://example.com/s/{}", i), Category::Joke)
            .into_crawl_item(NOW + i, TODAY);
        assert!(store.insert_item(item));
    }
    let _ = store.consume_pending_items(1000, TODAY, NOW + 100);
    let summary = generate_daily_summary(&store, TODAY);
    assert_eq!(summary.stats.jokes_found, 8);
    assert_eq!(summary.highlights.len(), 5, "At most five highlights");
    // Highlights are the most recent consumed items.
    assert_eq!(summary.highlights[0].url, "https://example.com/s/7");
}
