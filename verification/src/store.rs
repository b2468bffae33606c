//! The content store: a deduplicating buffer of fetched items with their
//! lifecycle flags, the append-only diagnostic event log, and the small
//! process-spanning scalar state.
//!
//! The store treats insertion order as fetch order: items are appended as
//! they are fetched, so "ordered by fetch time, descending" is the reverse
//! of storage order. URL uniqueness is the store's invariant: a duplicate
//! insert is a no-op reported to the caller, never a fault.

use vstd::prelude::*;
use crate::model::{
    BudgetAnalysis, BufferHealth, Category, ConsumeResult, CrawlItem, DayStats, DiagnosticLog,
    DiagnosticSummary, EmptyConsumeReason, category_cost, spec_category_cost,
};
use crate::allocator::{allocate, empty_consume_reason, spec_empty_reason};
use crate::textutil::str_eq;
use crate::ident::new_event_id;

verus! {

/// Largest number of items or events the store will hold; keeps every
/// count and cost total comfortably inside the result types.
pub open spec fn spec_store_capacity() -> int {
    0x1000_0000
}

/// Some stored item has this URL.
pub open spec fn spec_has_url(items: Seq<CrawlItem>, url: Seq<char>) -> bool {
    exists|i: int| 0 <= i < items.len() && #[trigger] items[i].url@ == url
}

/// No two stored items share a URL.
pub open spec fn spec_urls_distinct(items: Seq<CrawlItem>) -> bool {
    forall|i: int, j: int|
        0 <= i < j < items.len() ==> #[trigger] items[i].url@ != #[trigger] items[j].url@
}

/// What a deduplicating insert does: append the item unless its URL is
/// already stored, and report which of the two happened.
pub open spec fn spec_insert(items: Seq<CrawlItem>, item: CrawlItem) -> (Seq<CrawlItem>, bool) {
    if spec_has_url(items, item.url@) {
        (items, false)
    } else {
        (items.push(item), true)
    }
}

/// How many stored items carry this URL.
pub open spec fn spec_count_url(items: Seq<CrawlItem>, url: Seq<char>) -> int
    decreases items.len(),
{
    if items.len() == 0 {
        0
    } else {
        spec_count_url(items.drop_last(), url) + if items.last().url@ == url {
            1int
        } else {
            0int
        }
    }
}

/// A URL is stored exactly when its count is positive.
pub proof fn lemma_count_url_positive(items: Seq<CrawlItem>, url: Seq<char>)
    ensures
        spec_has_url(items, url) <==> spec_count_url(items, url) >= 1,
        spec_count_url(items, url) >= 0,
    decreases items.len(),
{
    if items.len() > 0 {
        lemma_count_url_positive(items.drop_last(), url);
        if spec_has_url(items, url) && items.last().url@ != url {
            let i = choose|i: int| 0 <= i < items.len() && #[trigger] items[i].url@ == url;
            assert(items.drop_last()[i] == items[i]);
        }
        if spec_has_url(items.drop_last(), url) {
            let i = choose|i: int|
                0 <= i < items.drop_last().len() && #[trigger] items.drop_last()[i].url@ == url;
            assert(items[i].url@ == url);
        }
    }
}

/// With distinct URLs, no URL is stored twice.
pub proof fn lemma_count_url_at_most_one(items: Seq<CrawlItem>, url: Seq<char>)
    requires
        spec_urls_distinct(items),
    ensures
        spec_count_url(items, url) <= 1,
    decreases items.len(),
{
    if items.len() > 0 {
        assert(spec_urls_distinct(items.drop_last()));
        lemma_count_url_at_most_one(items.drop_last(), url);
        if items.last().url@ == url && spec_count_url(items.drop_last(), url) >= 1 {
            lemma_count_url_positive(items.drop_last(), url);
            let i = choose|i: int|
                0 <= i < items.drop_last().len() && #[trigger] items.drop_last()[i].url@ == url;
            assert(items[i].url@ == items[items.len() - 1].url@);
        }
    }
}

/// Inserting the same URL twice leaves exactly one stored row: the
/// second insert reports a duplicate and changes nothing.
pub proof fn lemma_insert_same_url_once(items: Seq<CrawlItem>, item: CrawlItem)
    requires
        spec_urls_distinct(items),
    ensures
        ({
            let (s1, _) = spec_insert(items, item);
            let (s2, r2) = spec_insert(s1, item);
            &&& s2 == s1
            &&& r2 == false
            &&& spec_count_url(s1, item.url@) == 1
        }),
{
    let (s1, r1) = spec_insert(items, item);
    lemma_count_url_positive(items, item.url@);
    lemma_count_url_at_most_one(items, item.url@);
    if spec_has_url(items, item.url@) {
        lemma_count_url_positive(s1, item.url@);
        lemma_count_url_at_most_one(s1, item.url@);
    } else {
        assert(s1.drop_last() =~= items);
        assert(s1.last() == item);
        assert(spec_count_url(s1, item.url@) == spec_count_url(items, item.url@) + 1);
        assert(s1[s1.len() - 1].url@ == item.url@);
        assert(spec_has_url(s1, item.url@));
    }
}

/// Inserting a batch of items whose URLs are pairwise distinct and all
/// new to the store: what is stored afterwards, walked front to back.
pub open spec fn spec_insert_all(items: Seq<CrawlItem>, batch: Seq<CrawlItem>) -> Seq<CrawlItem>
    decreases batch.len(),
{
    if batch.len() == 0 {
        items
    } else {
        spec_insert_all(spec_insert(items, batch.first()).0, batch.drop_first())
    }
}

/// A batch of distinct, fresh URLs is stored in full: no insert is
/// reported a duplicate and every row lands, whatever the order of the
/// callers that contributed the items.
pub proof fn lemma_batch_insert_all_stored(items: Seq<CrawlItem>, batch: Seq<CrawlItem>)
    requires
        spec_urls_distinct(items),
        forall|a: int, c: int|
            0 <= a < c < batch.len() ==> #[trigger] batch[a].url@ != #[trigger] batch[c].url@,
        forall|a: int| 0 <= a < batch.len() ==> !spec_has_url(items, #[trigger] batch[a].url@),
    ensures
        spec_insert_all(items, batch).len() == items.len() + batch.len(),
        spec_urls_distinct(spec_insert_all(items, batch)),
    decreases batch.len(),
{
    if batch.len() > 0 {
        let first = batch.first();
        let (s1, r1) = spec_insert(items, first);
        assert(r1 == true);
        assert(s1 == items.push(first));
        assert forall|a: int, c: int| 0 <= a < c < s1.len() implies #[trigger] s1[a].url@
            != #[trigger] s1[c].url@ by {
            if c == s1.len() - 1 {
                assert(s1[a] == items[a]);
                if items[a].url@ == first.url@ {
                    assert(spec_has_url(items, batch[0].url@));
                }
            }
        }
        let rest = batch.drop_first();
        assert forall|a: int| 0 <= a < rest.len() implies !spec_has_url(
            s1,
            #[trigger] rest[a].url@,
        ) by {
            assert(rest[a] == batch[a + 1]);
            if spec_has_url(s1, rest[a].url@) {
                let i = choose|i: int| 0 <= i < s1.len() && #[trigger] s1[i].url@ == rest[a].url@;
                if i < items.len() {
                    assert(items[i].url@ == batch[a + 1].url@);
                } else {
                    assert(batch[0].url@ == batch[a + 1].url@);
                }
            }
        }
        lemma_batch_insert_all_stored(s1, rest);
    }
}

/// An item counts toward the buffer for `today` while it has not been
/// released to the consumer.
pub open spec fn spec_is_pending(it: CrawlItem, today: u64) -> bool {
    it.session_date == today && !it.is_consumed
}

/// Number of pending items for the day.
pub open spec fn spec_pending_count(items: Seq<CrawlItem>, today: u64) -> int
    decreases items.len(),
{
    if items.len() == 0 {
        0
    } else {
        spec_pending_count(items.drop_last(), today) + if spec_is_pending(items.last(), today) {
            1int
        } else {
            0int
        }
    }
}

/// The item with `is_seen` forced on.
pub open spec fn spec_mark_seen(it: CrawlItem) -> CrawlItem {
    CrawlItem { is_seen: true, ..it }
}

/// The item with `is_saved` flipped.
pub open spec fn spec_toggle_saved(it: CrawlItem) -> CrawlItem {
    CrawlItem { is_saved: !it.is_saved, ..it }
}

/// The item released from the buffer.
pub open spec fn spec_mark_consumed(it: CrawlItem) -> CrawlItem {
    CrawlItem { is_consumed: true, ..it }
}

/// A consumed item most recently fetched for the day that the user has
/// not yet seen, if any: the store is scanned newest-first.
pub open spec fn spec_latest_unseen(items: Seq<CrawlItem>, today: u64) -> Option<CrawlItem>
    decreases items.len(),
{
    if items.len() == 0 {
        Option::None
    } else if items.last().session_date == today && items.last().is_consumed
        && !items.last().is_seen {
        Option::Some(items.last())
    } else {
        spec_latest_unseen(items.drop_last(), today)
    }
}

/// An item is visible to the consumer surface for `today` once released.
pub open spec fn spec_is_consumed_today(it: CrawlItem, today: u64) -> bool {
    it.session_date == today && it.is_consumed
}

/// The consumed items of the day, most recently fetched first.
pub open spec fn spec_consumed_today(items: Seq<CrawlItem>, today: u64) -> Seq<CrawlItem>
    decreases items.len(),
{
    if items.len() == 0 {
        seq![]
    } else {
        (if spec_is_consumed_today(items.last(), today) {
            seq![items.last()]
        } else {
            seq![]
        }) + spec_consumed_today(items.drop_last(), today)
    }
}

/// The consumed items of the day in one category, most recent first.
pub open spec fn spec_consumed_by_category(
    items: Seq<CrawlItem>,
    cat: Category,
    today: u64,
) -> Seq<CrawlItem>
    decreases items.len(),
{
    if items.len() == 0 {
        seq![]
    } else {
        (if spec_is_consumed_today(items.last(), today) && items.last().category == cat {
            seq![items.last()]
        } else {
            seq![]
        }) + spec_consumed_by_category(items.drop_last(), cat, today)
    }
}

/// Count of consumed items of the day in one category.
pub open spec fn spec_consumed_count_cat(items: Seq<CrawlItem>, today: u64, cat: Category) -> int
    decreases items.len(),
{
    if items.len() == 0 {
        0
    } else {
        spec_consumed_count_cat(items.drop_last(), today, cat) + if spec_is_consumed_today(
            items.last(),
            today,
        ) && items.last().category == cat {
            1int
        } else {
            0int
        }
    }
}

/// Count of all consumed items of the day, any category.
pub open spec fn spec_consumed_count(items: Seq<CrawlItem>, today: u64) -> int
    decreases items.len(),
{
    if items.len() == 0 {
        0
    } else {
        spec_consumed_count(items.drop_last(), today) + if spec_is_consumed_today(
            items.last(),
            today,
        ) {
            1int
        } else {
            0int
        }
    }
}

/// Estimated minutes of browsing time saved, in tenths: the cost-table
/// value of every consumed item of the five known categories.
pub open spec fn spec_time_saved_tenths(m: int, j: int, n: int, v: int, g: int) -> int {
    5 * m + 3 * j + 20 * n + 30 * v + 15 * g
}

/// The categories of the pending items, in fetch order: what the
/// budget allocator walks.
pub open spec fn spec_pending_cats(items: Seq<CrawlItem>, today: u64) -> Seq<Category>
    decreases items.len(),
{
    if items.len() == 0 {
        seq![]
    } else {
        spec_pending_cats(items.drop_last(), today) + if spec_is_pending(items.last(), today) {
            seq![items.last().category]
        } else {
            seq![]
        }
    }
}

/// There are as many pending categories as pending items.
pub proof fn lemma_pending_cats_len(items: Seq<CrawlItem>, today: u64)
    ensures
        spec_pending_cats(items, today).len() == spec_pending_count(items, today),
    decreases items.len(),
{
    if items.len() > 0 {
        lemma_pending_cats_len(items.drop_last(), today);
    }
}

/// The pending count over a longer prefix is at least that over a shorter
/// one.
pub proof fn lemma_pending_count_mono(items: Seq<CrawlItem>, today: u64, a: int, b: int)
    requires
        0 <= a <= b <= items.len(),
    ensures
        spec_pending_count(items.take(a), today) <= spec_pending_count(items.take(b), today),
    decreases b - a,
{
    if a < b {
        lemma_pending_count_mono(items, today, a, b - 1);
        assert(items.take(b).drop_last() =~= items.take(b - 1));
    }
}

/// An item's position in the pending walk: how many pending items stand
/// before it.
pub open spec fn spec_pending_rank(items: Seq<CrawlItem>, today: u64, j: int) -> int {
    spec_pending_count(items.take(j), today)
}

/// The state of one item after a consumption pass with this budget: a
/// pending item is released exactly when the greedy walk accepts it at
/// its rank; everything else is untouched.
pub open spec fn spec_after_consume_at(
    items: Seq<CrawlItem>,
    today: u64,
    budget: int,
    j: int,
) -> CrawlItem {
    let cats = spec_pending_cats(items, today);
    if spec_is_pending(items[j], today) && crate::allocator::spec_selected(
        cats,
        budget,
        spec_pending_rank(items, today, j),
    ) {
        spec_mark_consumed(items[j])
    } else {
        items[j]
    }
}

/// The identifier is among the batch.
pub open spec fn spec_id_in(id: Seq<char>, ids: Seq<String>) -> bool {
    exists|k: int| 0 <= k < ids.len() && #[trigger] ids[k]@ == id
}

/// The store's items after a bulk release: every item whose identifier
/// is in the batch is marked consumed, everything else is untouched.
pub open spec fn spec_mark_ids(items: Seq<CrawlItem>, ids: Seq<String>) -> Seq<CrawlItem> {
    Seq::new(
        items.len(),
        |j: int|
            if spec_id_in(items[j].id@, ids) {
                spec_mark_consumed(items[j])
            } else {
                items[j]
            },
    )
}

/// Releasing the same batch twice changes the store once: re-applying a
/// bulk release to already-consumed identifiers is a no-op.
pub proof fn lemma_consume_batch_idempotent(items: Seq<CrawlItem>, ids: Seq<String>)
    ensures
        spec_mark_ids(spec_mark_ids(items, ids), ids) == spec_mark_ids(items, ids),
{
    let once = spec_mark_ids(items, ids);
    let twice = spec_mark_ids(once, ids);
    assert forall|j: int| 0 <= j < items.len() implies twice[j] == once[j] by {
        assert(once[j].id@ == items[j].id@);
    }
    assert(twice =~= once);
}

/// The aggregate outcome of a consumption pass: what the greedy walk
/// over the pending categories accepts, tallied.
pub open spec fn spec_consume_outcome(items: Seq<CrawlItem>, today: u64, budget: int) -> ConsumeResult {
    let cats = spec_pending_cats(items, today);
    let n = cats.len() as int;
    ConsumeResult {
        items_consumed: crate::allocator::spec_sel_count(cats, budget, n) as i64,
        items_discarded: (n - crate::allocator::spec_sel_count(cats, budget, n)) as i64,
        time_consumed_tenths: crate::allocator::spec_time_consumed(cats, budget, n) as i64,
        memes_consumed: crate::allocator::spec_cat_count(cats, budget, Category::Meme, n) as i64,
        jokes_consumed: crate::allocator::spec_cat_count(cats, budget, Category::Joke, n) as i64,
        news_consumed: crate::allocator::spec_cat_count(cats, budget, Category::News, n) as i64,
        videos_consumed: crate::allocator::spec_cat_count(cats, budget, Category::Video, n) as i64,
        gossip_consumed: crate::allocator::spec_cat_count(cats, budget, Category::Gossip, n) as i64,
    }
}

/// The message a consumption pass logs when it consumed nothing.
pub open spec fn spec_empty_reason_message(reason: EmptyConsumeReason) -> Seq<char> {
    match reason {
        EmptyConsumeReason::EmptyBuffer => "empty_buffer"@,
        EmptyConsumeReason::BudgetTooSmall => "budget_too_small"@,
        EmptyConsumeReason::AllItemsTooExpensive => "all_items_too_expensive"@,
    }
}

/// The redacted form of a consumed item from a prior day: text and
/// thumbnails cleared, `is_seen` forced, counts-relevant fields kept.
pub open spec fn spec_redact_with(it: CrawlItem, archived_title: String) -> CrawlItem {
    CrawlItem {
        title: archived_title,
        thumbnail_url: Option::None,
        thumbnail_data: Option::None,
        description: Option::None,
        is_seen: true,
        ..it
    }
}

/// What pruning leaves: rows of prior days are deleted if never consumed
/// and redacted in place if consumed; today's rows are untouched.
pub open spec fn spec_prune(items: Seq<CrawlItem>, today: u64, archived_title: String) -> Seq<
    CrawlItem,
>
    decreases items.len(),
{
    if items.len() == 0 {
        seq![]
    } else {
        let rest = spec_prune(items.drop_last(), today, archived_title);
        let last = items.last();
        if last.session_date < today {
            if last.is_consumed {
                rest.push(spec_redact_with(last, archived_title))
            } else {
                rest
            }
        } else {
            rest.push(last)
        }
    }
}

/// How many rows pruning deletes: unconsumed rows of prior days.
pub open spec fn spec_prune_deleted(items: Seq<CrawlItem>, today: u64) -> int
    decreases items.len(),
{
    if items.len() == 0 {
        0
    } else {
        spec_prune_deleted(items.drop_last(), today) + if items.last().session_date < today
            && !items.last().is_consumed {
            1int
        } else {
            0int
        }
    }
}

/// How many rows pruning redacts: consumed rows of prior days.
pub open spec fn spec_prune_redacted(items: Seq<CrawlItem>, today: u64) -> int
    decreases items.len(),
{
    if items.len() == 0 {
        0
    } else {
        spec_prune_redacted(items.drop_last(), today) + if items.last().session_date < today
            && items.last().is_consumed {
            1int
        } else {
            0int
        }
    }
}

/// Pruning never invents a URL and keeps URLs unique, and removes exactly
/// the deleted rows.
pub proof fn lemma_prune_preserves_distinct(items: Seq<CrawlItem>, today: u64, t: String)
    requires
        spec_urls_distinct(items),
    ensures
        spec_urls_distinct(spec_prune(items, today, t)),
        forall|u: Seq<char>|
            spec_has_url(spec_prune(items, today, t), u) ==> spec_has_url(items, u),
        spec_prune(items, today, t).len() + spec_prune_deleted(items, today) == items.len(),
    decreases items.len(),
{
    if items.len() > 0 {
        let prev = items.drop_last();
        assert(spec_urls_distinct(prev));
        lemma_prune_preserves_distinct(prev, today, t);
        let rest = spec_prune(prev, today, t);
        let last = items.last();
        let pushed = if last.session_date < today {
            last.is_consumed
        } else {
            true
        };
        if pushed {
            let x = if last.session_date < today {
                spec_redact_with(last, t)
            } else {
                last
            };
            assert(x.url@ == last.url@);
            assert forall|k: int| 0 <= k < rest.len() implies rest[k].url@ != x.url@ by {
                assert(spec_has_url(rest, rest[k].url@));
                assert(spec_has_url(prev, rest[k].url@));
                if rest[k].url@ == last.url@ {
                    let j = choose|j: int|
                        0 <= j < prev.len() && #[trigger] prev[j].url@ == rest[k].url@;
                    assert(prev[j] == items[j]);
                    assert(items[j].url@ == items[items.len() - 1].url@);
                    assert(false);
                }
            }
            assert forall|u: Seq<char>|
                spec_has_url(rest.push(x), u) implies spec_has_url(items, u) by {
                let k = choose|k: int|
                    0 <= k < rest.push(x).len() && #[trigger] rest.push(x)[k].url@ == u;
                if k < rest.len() {
                    assert(rest.push(x)[k] == rest[k]);
                    assert(spec_has_url(rest, u));
                    assert(spec_has_url(prev, u));
                    let j = choose|j: int| 0 <= j < prev.len() && #[trigger] prev[j].url@ == u;
                    assert(prev[j] == items[j]);
                    assert(items[j].url@ == u);
                } else {
                    assert(rest.push(x)[k] == x);
                    assert(items[items.len() - 1].url@ == u);
                }
            }
        } else {
            assert forall|u: Seq<char>| spec_has_url(rest, u) implies spec_has_url(items, u) by {
                assert(spec_has_url(prev, u));
                let j = choose|j: int| 0 <= j < prev.len() && #[trigger] prev[j].url@ == u;
                assert(prev[j] == items[j]);
                assert(items[j].url@ == u);
            }
        }
    }
}

/// The cheapest pending item's cost, or 0 when nothing is pending. (No
/// category costs 0, so 0 is unambiguous.)
pub open spec fn spec_min_pending_cost(items: Seq<CrawlItem>, today: u64) -> int
    decreases items.len(),
{
    if items.len() == 0 {
        0
    } else {
        let rest = spec_min_pending_cost(items.drop_last(), today);
        if spec_is_pending(items.last(), today) {
            let c = spec_category_cost(items.last().category);
            if rest == 0 || c < rest {
                c
            } else {
                rest
            }
        } else {
            rest
        }
    }
}

/// The dearest pending item's cost, or 0 when nothing is pending.
pub open spec fn spec_max_pending_cost(items: Seq<CrawlItem>, today: u64) -> int
    decreases items.len(),
{
    if items.len() == 0 {
        0
    } else {
        let rest = spec_max_pending_cost(items.drop_last(), today);
        if spec_is_pending(items.last(), today) {
            let c = spec_category_cost(items.last().category);
            if c > rest {
                c
            } else {
                rest
            }
        } else {
            rest
        }
    }
}

/// Summed cost of all pending items, in tenths of a minute.
pub open spec fn spec_total_pending_cost(items: Seq<CrawlItem>, today: u64) -> int
    decreases items.len(),
{
    if items.len() == 0 {
        0
    } else {
        spec_total_pending_cost(items.drop_last(), today) + if spec_is_pending(
            items.last(),
            today,
        ) {
            spec_category_cost(items.last().category)
        } else {
            0int
        }
    }
}

/// Health label thresholds over the pending set's total cost: under 5
/// minutes is low, under 15 moderate, otherwise healthy.
pub open spec fn spec_buffer_health(pending_count: int, total_cost_tenths: int) -> BufferHealth {
    if pending_count == 0 {
        BufferHealth::Empty
    } else if total_cost_tenths < 50 {
        BufferHealth::Low
    } else if total_cost_tenths < 150 {
        BufferHealth::Moderate
    } else {
        BufferHealth::Healthy
    }
}

/// Whether a bulk deletion keeps an event: a cutoff of zero or fewer days
/// clears everything; otherwise events from the last `days` days stay.
pub open spec fn spec_log_kept(e: DiagnosticLog, older_than_days: i64, now: u64) -> bool {
    older_than_days > 0 && e.timestamp as int >= now as int - (older_than_days as int)
        * 86_400_000
}

/// The log after a bulk deletion by age.
pub open spec fn spec_clear_logs(logs: Seq<DiagnosticLog>, older_than_days: i64, now: u64) -> Seq<
    DiagnosticLog,
>
    decreases logs.len(),
{
    if logs.len() == 0 {
        seq![]
    } else {
        let rest = spec_clear_logs(logs.drop_last(), older_than_days, now);
        if spec_log_kept(logs.last(), older_than_days, now) {
            rest.push(logs.last())
        } else {
            rest
        }
    }
}

/// How many of the newest events a query returns: a negative limit means
/// no limit.
pub open spec fn spec_recent_take(len: int, limit: i64) -> int {
    if limit < 0 || limit > len {
        len
    } else {
        limit as int
    }
}

/// An event the provider-health deriver reads: one of the crawl event
/// types.
pub open spec fn spec_is_crawl_event(e: DiagnosticLog) -> bool {
    ||| e.event_type@ == "crawl_start"@
    ||| e.event_type@ == "crawl_success"@
    ||| e.event_type@ == "crawl_error"@
    ||| e.event_type@ == "provider_fetch"@
}

/// The event falls within the last 24 hours before `now`.
pub open spec fn spec_in_window(t: u64, now: u64) -> bool {
    t as int + 86_400_000 > now as int
}

/// The crawl events of the last 24 hours, most recent first.
pub open spec fn spec_recent_crawl_events(logs: Seq<DiagnosticLog>, now: u64) -> Seq<DiagnosticLog>
    decreases logs.len(),
{
    if logs.len() == 0 {
        seq![]
    } else {
        (if spec_is_crawl_event(logs.last()) && spec_in_window(logs.last().timestamp, now) {
            seq![logs.last()]
        } else {
            seq![]
        }) + spec_recent_crawl_events(logs.drop_last(), now)
    }
}

/// Some stored item of the day belongs to the category.
pub open spec fn spec_has_category_today(items: Seq<CrawlItem>, cat: Category, today: u64) -> bool {
    exists|i: int|
        0 <= i < items.len() && #[trigger] items[i].session_date == today && items[i].category
            == cat
}

/// The deduplicating content store with its diagnostic event log and the
/// persisted last-active timestamp.
pub struct ContentStore {
    rows: Vec<CrawlItem>,
    events: Vec<DiagnosticLog>,
    active_ts: Option<i64>,
}

impl ContentStore {
    /// The stored items, in insertion (= fetch) order.
    pub closed spec fn items(&self) -> Seq<CrawlItem> {
        self.rows@
    }

    /// The diagnostic events, oldest first.
    pub closed spec fn logs(&self) -> Seq<DiagnosticLog> {
        self.events@
    }

    /// The persisted last-active timestamp in milliseconds, if one was
    /// ever written.
    pub closed spec fn last_active(&self) -> Option<i64> {
        self.active_ts
    }

    /// The store's invariant: URLs are unique and both tables stay under
    /// the capacity bound.
    pub open spec fn wf(&self) -> bool {
        &&& spec_urls_distinct(self.items())
        &&& self.items().len() <= spec_store_capacity()
        &&& self.logs().len() <= spec_store_capacity()
    }

    /// An empty store.
    pub fn new() -> (s: Self)
        ensures
            s.wf(),
            s.items() =~= Seq::<CrawlItem>::empty(),
            s.logs() =~= Seq::<DiagnosticLog>::empty(),
            s.last_active() is None,
    {
        ContentStore { rows: Vec::new(), events: Vec::new(), active_ts: Option::None }
    }

    /// Deduplicating insert: appends the item unless an item with the
    /// same URL is already stored; a duplicate is a no-op reported as
    /// `false`, not a fault.
    pub fn insert_item(&mut self, item: CrawlItem) -> (inserted: bool)
        requires
            old(self).wf(),
            old(self).items().len() < spec_store_capacity(),
        ensures
            final(self).wf(),
            (final(self).items(), inserted) == spec_insert(old(self).items(), item),
            inserted == !spec_has_url(old(self).items(), item.url@),
            inserted ==> final(self).items() == old(self).items().push(item),
            !inserted ==> final(self).items() == old(self).items(),
            final(self).logs() == old(self).logs(),
            final(self).last_active() == old(self).last_active(),
    {
        let n = self.rows.len();
        let mut i: usize = 0;
        while i < n
            invariant
                self.wf(),
                n == self.items().len(),
                i <= n,
                forall|k: int| 0 <= k < i ==> #[trigger] self.items()[k].url@ != item.url@,
                *self == *old(self),
            decreases n - i,
        {
            if self.rows[i].url == item.url {
                return false;
            }
            i = i + 1;
        }
        self.rows.push(item);
        true
    }

    /// How many items the store holds, over all days.
    pub fn item_count(&self) -> (n: usize)
        ensures
            n == self.items().len(),
    {
        self.rows.len()
    }

    /// How many diagnostic events the store holds.
    pub fn event_count(&self) -> (n: usize)
        ensures
            n == self.logs().len(),
    {
        self.events.len()
    }

    /// Count of items for the day that have not been consumed.
    pub fn get_pending_count(&self, today: u64) -> (n: i64)
        requires
            self.wf(),
        ensures
            n == spec_pending_count(self.items(), today),
            0 <= n <= self.items().len(),
    {
        let len = self.rows.len();
        let mut count: i64 = 0;
        let mut i: usize = 0;
        proof {
            assert(self.items().take(0) =~= Seq::<CrawlItem>::empty());
        }
        while i < len
            invariant
                self.wf(),
                len == self.items().len(),
                i <= len,
                count == spec_pending_count(self.items().take(i as int), today),
                0 <= count <= i,
            decreases len - i,
        {
            proof {
                assert(self.items().take(i as int + 1).drop_last() =~= self.items().take(i as int));
                assert(self.items().take(i as int + 1).last() == self.items()[i as int]);
            }
            if self.rows[i].session_date == today && !self.rows[i].is_consumed {
                count = count + 1;
            }
            i = i + 1;
        }
        proof {
            assert(self.items().take(len as int) =~= self.items());
        }
        count
    }

    /// Appends one diagnostic event. The event's identifier is freshly
    /// generated; every other field is exactly what the caller handed in.
    /// This is the internal variant, usable from inside another store
    /// operation.
    fn push_event(
        &mut self,
        event_type: &str,
        severity: &str,
        message: &str,
        metadata: Option<String>,
        related_item_id: Option<String>,
        now: u64,
    )
        requires
            old(self).logs().len() < spec_store_capacity(),
        ensures
            final(self).items() == old(self).items(),
            final(self).last_active() == old(self).last_active(),
            final(self).logs().len() == old(self).logs().len() + 1,
            forall|k: int|
                0 <= k < old(self).logs().len() ==> final(self).logs()[k] == old(self).logs()[k],
            ({
                let e = final(self).logs().last();
                &&& e.timestamp == now
                &&& e.event_type@ == event_type@
                &&& e.severity@ == severity@
                &&& e.message@ == message@
                &&& e.metadata == metadata
                &&& e.related_item_id == related_item_id
            }),
    {
        let id = new_event_id();
        let entry = DiagnosticLog {
            id,
            timestamp: now,
            event_type: event_type.to_owned(),
            severity: severity.to_owned(),
            message: message.to_owned(),
            metadata,
            related_item_id,
        };
        self.events.push(entry);
    }

    /// Appends one diagnostic event; the public entry point for callers
    /// that are not already inside a store operation.
    pub fn log_diagnostic_event(
        &mut self,
        event_type: &str,
        severity: &str,
        message: &str,
        metadata: Option<String>,
        related_item_id: Option<String>,
        now: u64,
    )
        requires
            old(self).wf(),
            old(self).logs().len() < spec_store_capacity(),
        ensures
            final(self).wf(),
            final(self).items() == old(self).items(),
            final(self).last_active() == old(self).last_active(),
            final(self).logs().len() == old(self).logs().len() + 1,
            forall|k: int|
                0 <= k < old(self).logs().len() ==> final(self).logs()[k] == old(self).logs()[k],
            ({
                let e = final(self).logs().last();
                &&& e.timestamp == now
                &&& e.event_type@ == event_type@
                &&& e.severity@ == severity@
                &&& e.message@ == message@
                &&& e.metadata == metadata
                &&& e.related_item_id == related_item_id
            }),
    {
        self.push_event(event_type, severity, message, metadata, related_item_id, now);
    }

    /// Forces `is_seen` on every item with the given identifier.
    pub fn mark_item_seen(&mut self, item_id: &str)
        requires
            old(self).wf(),
        ensures
            final(self).wf(),
            final(self).items().len() == old(self).items().len(),
            forall|j: int|
                0 <= j < old(self).items().len() ==> final(self).items()[j] == (
                if old(self).items()[j].id@ == item_id@ {
                    spec_mark_seen(old(self).items()[j])
                } else {
                    old(self).items()[j]
                }),
            final(self).logs() == old(self).logs(),
            final(self).last_active() == old(self).last_active(),
    {
        let n = self.rows.len();
        let mut i: usize = 0;
        while i < n
            invariant
                n == self.items().len(),
                n == old(self).items().len(),
                i <= n,
                forall|j: int|
                    0 <= j < i ==> self.items()[j] == (
                    if old(self).items()[j].id@ == item_id@ {
                        spec_mark_seen(old(self).items()[j])
                    } else {
                        old(self).items()[j]
                    }),
                forall|j: int| i <= j < n ==> self.items()[j] == old(self).items()[j],
                self.logs() == old(self).logs(),
                self.last_active() == old(self).last_active(),
            decreases n - i,
        {
            if str_eq(self.rows[i].id.as_str(), item_id) {
                self.rows[i].is_seen = true;
            }
            i = i + 1;
        }
        proof {
            assert forall|i: int, j: int| 0 <= i < j < self.items().len() implies #[trigger] self
                .items()[i].url@ != #[trigger] self.items()[j].url@ by {
                assert(self.items()[i].url@ == old(self).items()[i].url@);
                assert(self.items()[j].url@ == old(self).items()[j].url@);
            }
        }
    }

    /// Flips `is_saved` on every item with the given identifier and
    /// reports the new state of the first such item, or `None` when no
    /// item has the identifier.
    pub fn toggle_item_saved(&mut self, item_id: &str) -> (r: Option<bool>)
        requires
            old(self).wf(),
        ensures
            final(self).wf(),
            final(self).items().len() == old(self).items().len(),
            forall|j: int|
                0 <= j < old(self).items().len() ==> final(self).items()[j] == (
                if old(self).items()[j].id@ == item_id@ {
                    spec_toggle_saved(old(self).items()[j])
                } else {
                    old(self).items()[j]
                }),
            final(self).logs() == old(self).logs(),
            final(self).last_active() == old(self).last_active(),
            r is Some <==> exists|j: int|
                0 <= j < old(self).items().len() && #[trigger] old(self).items()[j].id@ == item_id@,
            r is Some ==> exists|j: int|
                {
                    &&& 0 <= j < old(self).items().len()
                    &&& #[trigger] old(self).items()[j].id@ == item_id@
                    &&& forall|k: int| 0 <= k < j ==> old(self).items()[k].id@ != item_id@
                    &&& r == Option::Some(!old(self).items()[j].is_saved)
                },
    {
        let n = self.rows.len();
        let mut result: Option<bool> = Option::None;
        let ghost first: int = 0;
        let mut i: usize = 0;
        while i < n
            invariant
                n == self.items().len(),
                n == old(self).items().len(),
                i <= n,
                forall|j: int|
                    0 <= j < i ==> self.items()[j] == (
                    if old(self).items()[j].id@ == item_id@ {
                        spec_toggle_saved(old(self).items()[j])
                    } else {
                        old(self).items()[j]
                    }),
                forall|j: int| i <= j < n ==> self.items()[j] == old(self).items()[j],
                self.logs() == old(self).logs(),
                self.last_active() == old(self).last_active(),
                result is Some <==> exists|j: int|
                    0 <= j < i && #[trigger] old(self).items()[j].id@ == item_id@,
                result is Some ==> {
                    &&& 0 <= first < i
                    &&& old(self).items()[first].id@ == item_id@
                    &&& forall|k: int| 0 <= k < first ==> old(self).items()[k].id@ != item_id@
                    &&& result == Option::Some(!old(self).items()[first].is_saved)
                },
            decreases n - i,
        {
            if str_eq(self.rows[i].id.as_str(), item_id) {
                let new_state = !self.rows[i].is_saved;
                self.rows[i].is_saved = new_state;
                if result.is_none() {
                    result = Option::Some(new_state);
                    proof {
                        first = i as int;
                    }
                }
            }
            i = i + 1;
        }
        proof {
            assert forall|i: int, j: int| 0 <= i < j < self.items().len() implies #[trigger] self
                .items()[i].url@ != #[trigger] self.items()[j].url@ by {
                assert(self.items()[i].url@ == old(self).items()[i].url@);
                assert(self.items()[j].url@ == old(self).items()[j].url@);
            }
        }
        result
    }

    /// The most recently fetched consumed-but-unseen item of the day, or
    /// `None` when everything released has been seen.
    pub fn get_latest_unseen_item(&self, today: u64) -> (r: Option<CrawlItem>)
        requires
            self.wf(),
        ensures
            r == spec_latest_unseen(self.items(), today),
    {
        let mut k = self.rows.len();
        proof {
            assert(self.items().take(self.items().len() as int) =~= self.items());
        }
        while k > 0
            invariant
                k <= self.items().len(),
                spec_latest_unseen(self.items(), today) == spec_latest_unseen(
                    self.items().take(k as int),
                    today,
                ),
            decreases k,
        {
            proof {
                assert(self.items().take(k as int).drop_last() =~= self.items().take(k as int - 1));
                assert(self.items().take(k as int).last() == self.items()[k as int - 1]);
            }
            let it = &self.rows[k - 1];
            if it.session_date == today && it.is_consumed && !it.is_seen {
                return Option::Some(self.rows[k - 1].clone());
            }
            k = k - 1;
        }
        proof {
            assert(self.items().take(0) =~= Seq::<CrawlItem>::empty());
        }
        Option::None
    }

    /// The persisted last-active timestamp, or `now` when none was ever
    /// written.
    pub fn get_last_active_timestamp(&self, now: i64) -> (r: i64)
        ensures
            r == match self.last_active() {
                Option::Some(t) => t,
                Option::None => now,
            },
    {
        match self.active_ts {
            Option::Some(t) => t,
            Option::None => now,
        }
    }

    /// Upserts the last-active timestamp.
    pub fn set_last_active_timestamp(&mut self, timestamp: i64)
        requires
            old(self).wf(),
        ensures
            final(self).wf(),
            final(self).last_active() == Option::Some(timestamp),
            final(self).items() == old(self).items(),
            final(self).logs() == old(self).logs(),
    {
        self.active_ts = Option::Some(timestamp);
    }

    /// The consumed items of the day, ordered by fetch time, descending.
    pub fn get_items_for_today(&self, today: u64) -> (r: Vec<CrawlItem>)
        requires
            self.wf(),
        ensures
            r@ == spec_consumed_today(self.items(), today),
    {
        let mut out: Vec<CrawlItem> = Vec::new();
        let mut k = self.rows.len();
        proof {
            assert(self.items().take(self.items().len() as int) =~= self.items());
        }
        while k > 0
            invariant
                k <= self.items().len(),
                spec_consumed_today(self.items(), today) == out@ + spec_consumed_today(
                    self.items().take(k as int),
                    today,
                ),
            decreases k,
        {
            proof {
                assert(self.items().take(k as int).drop_last() =~= self.items().take(k as int - 1));
                assert(self.items().take(k as int).last() == self.items()[k as int - 1]);
            }
            let ghost prev = out@;
            let it = &self.rows[k - 1];
            if it.session_date == today && it.is_consumed {
                out.push(self.rows[k - 1].clone());
                proof {
                    assert(out@ =~= prev + seq![self.items()[k as int - 1]]);
                }
            }
            k = k - 1;
        }
        proof {
            assert(self.items().take(0) =~= Seq::<CrawlItem>::empty());
            assert(out@ =~= spec_consumed_today(self.items(), today));
        }
        out
    }

    /// The consumed items of the day in one category, ordered by fetch
    /// time, descending.
    pub fn get_items_by_category(&self, category: Category, today: u64) -> (r: Vec<CrawlItem>)
        requires
            self.wf(),
        ensures
            r@ == spec_consumed_by_category(self.items(), category, today),
    {
        let mut out: Vec<CrawlItem> = Vec::new();
        let mut k = self.rows.len();
        proof {
            assert(self.items().take(self.items().len() as int) =~= self.items());
        }
        while k > 0
            invariant
                k <= self.items().len(),
                spec_consumed_by_category(self.items(), category, today) == out@
                    + spec_consumed_by_category(self.items().take(k as int), category, today),
            decreases k,
        {
            proof {
                assert(self.items().take(k as int).drop_last() =~= self.items().take(k as int - 1));
                assert(self.items().take(k as int).last() == self.items()[k as int - 1]);
            }
            let ghost prev = out@;
            let it = &self.rows[k - 1];
            if it.session_date == today && it.is_consumed && it.category == category {
                out.push(self.rows[k - 1].clone());
                proof {
                    assert(out@ =~= prev + seq![self.items()[k as int - 1]]);
                }
            }
            k = k - 1;
        }
        proof {
            assert(self.items().take(0) =~= Seq::<CrawlItem>::empty());
            assert(out@ =~= spec_consumed_by_category(self.items(), category, today));
        }
        out
    }

    /// Estimated browsing minutes saved, in tenths: the cost-table value
    /// of every counted item.
    pub fn estimate_time_saved(stats: &DayStats) -> (r: i64)
        requires
            0 <= stats.memes_found <= spec_store_capacity(),
            0 <= stats.jokes_found <= spec_store_capacity(),
            0 <= stats.news_checked <= spec_store_capacity(),
            0 <= stats.videos_found <= spec_store_capacity(),
            0 <= stats.gossip_found <= spec_store_capacity(),
        ensures
            r == spec_time_saved_tenths(
                stats.memes_found as int,
                stats.jokes_found as int,
                stats.news_checked as int,
                stats.videos_found as int,
                stats.gossip_found as int,
            ),
    {
        5 * stats.memes_found + 3 * stats.jokes_found + 20 * stats.news_checked + 30
            * stats.videos_found + 15 * stats.gossip_found
    }

    /// Per-category counts of the day's consumed items, their total, and
    /// the estimated time saved.
    pub fn get_today_stats(&self, today: u64) -> (r: DayStats)
        requires
            self.wf(),
        ensures
            r.memes_found == spec_consumed_count_cat(self.items(), today, Category::Meme),
            r.jokes_found == spec_consumed_count_cat(self.items(), today, Category::Joke),
            r.news_checked == spec_consumed_count_cat(self.items(), today, Category::News),
            r.videos_found == spec_consumed_count_cat(self.items(), today, Category::Video),
            r.gossip_found == spec_consumed_count_cat(self.items(), today, Category::Gossip),
            r.total_items == spec_consumed_count(self.items(), today),
            r.estimated_time_saved_tenths == spec_time_saved_tenths(
                r.memes_found as int,
                r.jokes_found as int,
                r.news_checked as int,
                r.videos_found as int,
                r.gossip_found as int,
            ),
    {
        let len = self.rows.len();
        let mut memes: i64 = 0;
        let mut jokes: i64 = 0;
        let mut news: i64 = 0;
        let mut videos: i64 = 0;
        let mut gossip: i64 = 0;
        let mut total: i64 = 0;
        let mut i: usize = 0;
        proof {
            assert(self.items().take(0) =~= Seq::<CrawlItem>::empty());
        }
        while i < len
            invariant
                self.wf(),
                len == self.items().len(),
                i <= len,
                memes == spec_consumed_count_cat(self.items().take(i as int), today, Category::Meme),
                jokes == spec_consumed_count_cat(self.items().take(i as int), today, Category::Joke),
                news == spec_consumed_count_cat(self.items().take(i as int), today, Category::News),
                videos == spec_consumed_count_cat(
                    self.items().take(i as int),
                    today,
                    Category::Video,
                ),
                gossip == spec_consumed_count_cat(
                    self.items().take(i as int),
                    today,
                    Category::Gossip,
                ),
                total == spec_consumed_count(self.items().take(i as int), today),
                0 <= memes <= i,
                0 <= jokes <= i,
                0 <= news <= i,
                0 <= videos <= i,
                0 <= gossip <= i,
                0 <= total <= i,
            decreases len - i,
        {
            proof {
                assert(self.items().take(i as int + 1).drop_last() =~= self.items().take(i as int));
                assert(self.items().take(i as int + 1).last() == self.items()[i as int]);
            }
            let it = &self.rows[i];
            if it.session_date == today && it.is_consumed {
                total = total + 1;
                match it.category {
                    Category::Meme => { memes = memes + 1; },
                    Category::Joke => { jokes = jokes + 1; },
                    Category::News => { news = news + 1; },
                    Category::Video => { videos = videos + 1; },
                    Category::Gossip => { gossip = gossip + 1; },
                    Category::Other => {},
                }
            }
            i = i + 1;
        }
        proof {
            assert(self.items().take(len as int) =~= self.items());
        }
        let mut stats = DayStats {
            memes_found: memes,
            jokes_found: jokes,
            news_checked: news,
            videos_found: videos,
            gossip_found: gossip,
            total_items: total,
            estimated_time_saved_tenths: 0,
        };
        stats.estimated_time_saved_tenths = Self::estimate_time_saved(&stats);
        stats
    }

    /// Bounds storage growth: deletes unconsumed rows of prior days (they
    /// expired unseen) and redacts consumed rows of prior days in place,
    /// preserving aggregate counts. Returns (deleted, redacted).
    pub fn prune_old_items(&mut self, today: u64) -> (r: (i64, i64))
        requires
            old(self).wf(),
        ensures
            final(self).wf(),
            exists|t: String|
                t@ == "[ARCHIVED]"@ && final(self).items() == spec_prune(
                    old(self).items(),
                    today,
                    t,
                ),
            r.0 == spec_prune_deleted(old(self).items(), today),
            r.1 == spec_prune_redacted(old(self).items(), today),
            final(self).items().len() + r.0 == old(self).items().len(),
            final(self).logs() == old(self).logs(),
            final(self).last_active() == old(self).last_active(),
    {
        let archived = String::from_str("[ARCHIVED]");
        let len = self.rows.len();
        let mut out: Vec<CrawlItem> = Vec::new();
        let mut deleted: i64 = 0;
        let mut redacted: i64 = 0;
        let mut i: usize = 0;
        proof {
            assert(self.items().take(0) =~= Seq::<CrawlItem>::empty());
        }
        while i < len
            invariant
                self.wf(),
                *self == *old(self),
                len == self.items().len(),
                i <= len,
                out@ == spec_prune(self.items().take(i as int), today, archived),
                deleted == spec_prune_deleted(self.items().take(i as int), today),
                redacted == spec_prune_redacted(self.items().take(i as int), today),
                0 <= deleted <= i,
                0 <= redacted <= i,
            decreases len - i,
        {
            proof {
                assert(self.items().take(i as int + 1).drop_last() =~= self.items().take(i as int));
                assert(self.items().take(i as int + 1).last() == self.items()[i as int]);
            }
            let it = &self.rows[i];
            if it.session_date < today {
                if it.is_consumed {
                    let row = &self.rows[i];
                    let kept = CrawlItem {
                        id: row.id.clone(),
                        source: row.source.clone(),
                        category: row.category,
                        title: archived.clone(),
                        url: row.url.clone(),
                        thumbnail_url: Option::None,
                        thumbnail_data: Option::None,
                        description: Option::None,
                        fetched_at: row.fetched_at,
                        is_seen: true,
                        is_saved: row.is_saved,
                        is_consumed: row.is_consumed,
                        session_date: row.session_date,
                    };
                    assert(kept == spec_redact_with(self.items()[i as int], archived));
                    out.push(kept);
                    redacted = redacted + 1;
                } else {
                    deleted = deleted + 1;
                }
            } else {
                out.push(self.rows[i].clone());
            }
            i = i + 1;
        }
        proof {
            assert(self.items().take(len as int) =~= self.items());
            lemma_prune_preserves_distinct(self.items(), today, archived);
        }
        self.rows = out;
        (deleted, redacted)
    }

    /// Deletes diagnostic events in bulk: everything older than the given
    /// number of days, or the whole log when the cutoff is zero or less.
    /// Returns how many events were removed.
    pub fn clear_diagnostics(&mut self, older_than_days: i64, now: u64) -> (deleted: i64)
        requires
            old(self).wf(),
        ensures
            final(self).wf(),
            final(self).logs() == spec_clear_logs(old(self).logs(), older_than_days, now),
            deleted == old(self).logs().len() - final(self).logs().len(),
            final(self).items() == old(self).items(),
            final(self).last_active() == old(self).last_active(),
    {
        let len = self.events.len();
        let mut out: Vec<DiagnosticLog> = Vec::new();
        let mut i: usize = 0;
        proof {
            assert(self.logs().take(0) =~= Seq::<DiagnosticLog>::empty());
        }
        while i < len
            invariant
                self.wf(),
                *self == *old(self),
                len == self.logs().len(),
                i <= len,
                out@ == spec_clear_logs(self.logs().take(i as int), older_than_days, now),
                out@.len() <= i,
            decreases len - i,
        {
            proof {
                assert(self.logs().take(i as int + 1).drop_last() =~= self.logs().take(i as int));
                assert(self.logs().take(i as int + 1).last() == self.logs()[i as int]);
            }
            let keep = older_than_days > 0 && (self.events[i].timestamp as i128) >= (now as i128)
                - (older_than_days as i128) * 86_400_000i128;
            if keep {
                out.push(self.events[i].clone());
            }
            i = i + 1;
        }
        proof {
            assert(self.logs().take(len as int) =~= self.logs());
        }
        let kept = out.len();
        self.events = out;
        (len - kept) as i64
    }

    /// The newest diagnostic events, most recent first; a negative limit
    /// returns them all.
    pub fn get_recent_diagnostics(&self, limit: i64) -> (r: Vec<DiagnosticLog>)
        requires
            self.wf(),
        ensures
            r@.len() == spec_recent_take(self.logs().len() as int, limit),
            forall|k: int|
                0 <= k < r@.len() ==> r@[k] == self.logs()[self.logs().len() - 1 - k],
    {
        let len = self.events.len();
        let take_n: usize = if limit < 0 {
            len
        } else if limit >= len as i64 {
            len
        } else {
            limit as usize
        };
        let mut out: Vec<DiagnosticLog> = Vec::new();
        let mut k: usize = 0;
        while k < take_n
            invariant
                len == self.logs().len(),
                take_n <= len,
                k <= take_n,
                out@.len() == k,
                forall|j: int| 0 <= j < k ==> out@[j] == self.logs()[len - 1 - j],
            decreases take_n - k,
        {
            out.push(self.events[len - 1 - k].clone());
            k = k + 1;
        }
        out
    }

    /// The health label for a buffer of `pending_count` items whose total
    /// cost is `total_cost_tenths`.
    pub fn compute_buffer_health(pending_count: i64, total_cost_tenths: i64) -> (r: BufferHealth)
        ensures
            r == spec_buffer_health(pending_count as int, total_cost_tenths as int),
    {
        if pending_count == 0 {
            BufferHealth::Empty
        } else if total_cost_tenths < 50 {
            BufferHealth::Low
        } else if total_cost_tenths < 150 {
            BufferHealth::Moderate
        } else {
            BufferHealth::Healthy
        }
    }

    /// Snapshot for diagnostics: the pending count, cost bounds over the
    /// pending set, and the derived health label.
    pub fn get_diagnostic_summary(&self, today: u64) -> (r: DiagnosticSummary)
        requires
            self.wf(),
        ensures
            r.pending_count == spec_pending_count(self.items(), today),
            r.budget_analysis.min_cost_per_item_tenths == spec_min_pending_cost(
                self.items(),
                today,
            ),
            r.budget_analysis.max_cost_per_item_tenths == spec_max_pending_cost(
                self.items(),
                today,
            ),
            r.budget_analysis.total_pending_cost_tenths == spec_total_pending_cost(
                self.items(),
                today,
            ),
            r.budget_analysis.estimated_buffer_tenths
                == r.budget_analysis.total_pending_cost_tenths,
            r.estimated_buffer_health == spec_buffer_health(
                r.pending_count as int,
                r.budget_analysis.total_pending_cost_tenths as int,
            ),
    {
        let len = self.rows.len();
        let mut count: i64 = 0;
        let mut total: i64 = 0;
        let mut min_cost: i64 = 0;
        let mut max_cost: i64 = 0;
        let mut i: usize = 0;
        proof {
            assert(self.items().take(0) =~= Seq::<CrawlItem>::empty());
        }
        while i < len
            invariant
                self.wf(),
                len == self.items().len(),
                i <= len,
                count == spec_pending_count(self.items().take(i as int), today),
                total == spec_total_pending_cost(self.items().take(i as int), today),
                min_cost == spec_min_pending_cost(self.items().take(i as int), today),
                max_cost == spec_max_pending_cost(self.items().take(i as int), today),
                0 <= count <= i,
                0 <= total <= 30 * i,
                0 <= min_cost <= 30,
                0 <= max_cost <= 30,
            decreases len - i,
        {
            proof {
                assert(self.items().take(i as int + 1).drop_last() =~= self.items().take(i as int));
                assert(self.items().take(i as int + 1).last() == self.items()[i as int]);
            }
            let it = &self.rows[i];
            if it.session_date == today && !it.is_consumed {
                let cost = category_cost(it.category) as i64;
                count = count + 1;
                total = total + cost;
                if min_cost == 0 || cost < min_cost {
                    min_cost = cost;
                }
                if cost > max_cost {
                    max_cost = cost;
                }
            }
            i = i + 1;
        }
        proof {
            assert(self.items().take(len as int) =~= self.items());
        }
        let health = Self::compute_buffer_health(count, total);
        DiagnosticSummary {
            pending_count: count,
            estimated_buffer_health: health,
            budget_analysis: BudgetAnalysis {
                min_cost_per_item_tenths: min_cost,
                max_cost_per_item_tenths: max_cost,
                estimated_buffer_tenths: total,
                total_pending_cost_tenths: total,
            },
        }
    }

    /// Whether any stored item of the day belongs to the category; used
    /// as the health deriver's fallback signal.
    pub fn has_items_for_category(&self, category: Category, today: u64) -> (r: bool)
        requires
            self.wf(),
        ensures
            r == spec_has_category_today(self.items(), category, today),
    {
        let len = self.rows.len();
        let mut i: usize = 0;
        while i < len
            invariant
                self.wf(),
                len == self.items().len(),
                i <= len,
                forall|k: int|
                    0 <= k < i ==> !(#[trigger] self.items()[k].session_date == today
                        && self.items()[k].category == category),
            decreases len - i,
        {
            if self.rows[i].session_date == today && self.rows[i].category == category {
                return true;
            }
            i = i + 1;
        }
        false
    }

    /// Idempotent bulk release: flips `is_consumed` on every item whose
    /// identifier is in the batch; identifiers already consumed, or
    /// matching nothing, change nothing.
    pub fn consume_batch(&mut self, ids: &Vec<String>)
        requires
            old(self).wf(),
        ensures
            final(self).wf(),
            final(self).items() == spec_mark_ids(old(self).items(), ids@),
            final(self).logs() == old(self).logs(),
            final(self).last_active() == old(self).last_active(),
    {
        let n = self.rows.len();
        let m = ids.len();
        let mut j: usize = 0;
        while j < n
            invariant
                n == self.items().len(),
                n == old(self).items().len(),
                m == ids@.len(),
                j <= n,
                forall|l: int|
                    0 <= l < j ==> self.items()[l] == spec_mark_ids(old(self).items(), ids@)[l],
                forall|l: int| j <= l < n ==> self.items()[l] == old(self).items()[l],
                self.logs() == old(self).logs(),
                self.last_active() == old(self).last_active(),
            decreases n - j,
        {
            let mut k: usize = 0;
            let mut found = false;
            while k < m
                invariant
                    n == self.items().len(),
                    m == ids@.len(),
                    j < n,
                    k <= m,
                    self.items()[j as int] == old(self).items()[j as int],
                    found == exists|x: int|
                        0 <= x < k && #[trigger] ids@[x]@ == self.items()[j as int].id@,
                decreases m - k,
            {
                if self.rows[j].id == ids[k] {
                    found = true;
                    k = m;
                } else {
                    k = k + 1;
                }
            }
            if found {
                self.rows[j].is_consumed = true;
            }
            j = j + 1;
        }
        proof {
            assert(final(self).items() =~= spec_mark_ids(old(self).items(), ids@));
            assert forall|a: int, c: int| 0 <= a < c < self.items().len() implies #[trigger] self
                .items()[a].url@ != #[trigger] self.items()[c].url@ by {
                assert(self.items()[a].url@ == old(self).items()[a].url@);
                assert(self.items()[c].url@ == old(self).items()[c].url@);
            }
        }
    }

    /// Releases pending items of the day into the visible set within the
    /// given time budget (in tenths of a minute), walking the buffer in
    /// fetch order and accepting greedily; rejected items stay pending.
    /// Appends a start event and a budget-analysis event to the log, and
    /// one more event naming the reason whenever nothing was consumed:
    /// an empty buffer, a budget below the cheapest cost, or a pending
    /// set whose every item costs more than the whole budget. The pass
    /// consumes at least one item in every other case.
    pub fn consume_pending_items(&mut self, budget_tenths: u64, today: u64, now: u64) -> (r:
        ConsumeResult)
        requires
            old(self).wf(),
            budget_tenths <= 0x1000_0000_0000,
            old(self).logs().len() + 3 <= spec_store_capacity(),
        ensures
            final(self).wf(),
            r == spec_consume_outcome(old(self).items(), today, budget_tenths as int),
            final(self).items().len() == old(self).items().len(),
            forall|j: int|
                0 <= j < old(self).items().len() ==> final(self).items()[j]
                    == spec_after_consume_at(old(self).items(), today, budget_tenths as int, j),
            spec_pending_count(final(self).items(), today) == spec_pending_count(
                old(self).items(),
                today,
            ) - r.items_consumed,
            0 <= r.time_consumed_tenths <= budget_tenths,
            r.items_consumed == 0 <==> spec_empty_reason(
                spec_pending_cats(old(self).items(), today),
                budget_tenths as int,
            ) is Some,
            final(self).last_active() == old(self).last_active(),
            forall|k: int|
                0 <= k < old(self).logs().len() ==> final(self).logs()[k] == old(self).logs()[k],
            ({
                let reason = spec_empty_reason(
                    spec_pending_cats(old(self).items(), today),
                    budget_tenths as int,
                );
                let base = old(self).logs().len() as int;
                &&& final(self).logs().len() == base + if reason is Some {
                    3int
                } else {
                    2int
                }
                &&& final(self).logs()[base].event_type@ == "consume_start"@
                &&& final(self).logs()[base].severity@ == "info"@
                &&& final(self).logs()[base].timestamp == now
                &&& final(self).logs()[base + 1].event_type@ == "budget_analysis"@
                &&& final(self).logs()[base + 1].severity@ == "info"@
                &&& final(self).logs()[base + 1].timestamp == now
                &&& (reason matches Some(why) ==> {
                    let e = final(self).logs()[base + 2];
                    &&& e.event_type@ == "consume_empty"@
                    &&& e.severity@ == "warn"@
                    &&& e.timestamp == now
                    &&& e.message@ == spec_empty_reason_message(why)
                })
            }),
    {
        let ghost b = budget_tenths as int;
        let ghost cats0 = spec_pending_cats(old(self).items(), today);
        let len = self.rows.len();

        // Walk the buffer once to collect the pending categories in
        // fetch order.
        let mut catsv: Vec<Category> = Vec::new();
        let mut i: usize = 0;
        proof {
            assert(self.items().take(0) =~= Seq::<CrawlItem>::empty());
        }
        while i < len
            invariant
                self.wf(),
                *self == *old(self),
                len == self.items().len(),
                i <= len,
                catsv@ == spec_pending_cats(self.items().take(i as int), today),
                catsv@.len() <= i,
            decreases len - i,
        {
            proof {
                assert(self.items().take(i as int + 1).drop_last() =~= self.items().take(i as int));
                assert(self.items().take(i as int + 1).last() == self.items()[i as int]);
            }
            let ghost prev = catsv@;
            if self.rows[i].session_date == today && !self.rows[i].is_consumed {
                catsv.push(self.rows[i].category);
                proof {
                    assert(catsv@ =~= prev + seq![self.items()[i as int].category]);
                    assert(catsv@ =~= spec_pending_cats(self.items().take(i as int + 1), today));
                }
            } else {
                proof {
                    assert(catsv@ =~= spec_pending_cats(self.items().take(i as int + 1), today));
                }
            }
            i = i + 1;
        }
        proof {
            assert(self.items().take(len as int) =~= self.items());
            assert(catsv@ == cats0);
            lemma_pending_cats_len(self.items(), today);
        }

        // Decide the selection and, up front, whether the pass can
        // consume anything at all.
        let allocation = allocate(&catsv, budget_tenths);
        let reason = empty_consume_reason(&catsv, budget_tenths);

        // Record the pass in the diagnostic log before touching the
        // buffer, through the internal variant.
        self.push_event("consume_start", "info", "consumption pass started", Option::None,
            Option::None, now);
        self.push_event("budget_analysis", "info", "pending-cost bounds computed", Option::None,
            Option::None, now);
        match reason {
            Option::Some(EmptyConsumeReason::EmptyBuffer) => {
                self.push_event("consume_empty", "warn", "empty_buffer", Option::None,
                    Option::None, now);
            },
            Option::Some(EmptyConsumeReason::BudgetTooSmall) => {
                self.push_event("consume_empty", "warn", "budget_too_small", Option::None,
                    Option::None, now);
            },
            Option::Some(EmptyConsumeReason::AllItemsTooExpensive) => {
                self.push_event("consume_empty", "warn", "all_items_too_expensive", Option::None,
                    Option::None, now);
            },
            Option::None => {},
        }
        let ghost logs3 = self.logs();

        // Flip `is_consumed` for exactly the accepted items, in one pass.
        let selected = allocation.selected;
        let mut j: usize = 0;
        let mut rank: usize = 0;
        proof {
            assert(self.items().take(0) =~= Seq::<CrawlItem>::empty());
            assert(old(self).items().take(0) =~= Seq::<CrawlItem>::empty());
        }
        while j < len
            invariant
                len == self.items().len(),
                len == old(self).items().len(),
                len <= spec_store_capacity(),
                j <= len,
                rank <= j,
                forall|k: int| j <= k < len ==> self.items()[k] == old(self).items()[k],
                forall|k: int|
                    0 <= k < j ==> self.items()[k] == spec_after_consume_at(
                        old(self).items(),
                        today,
                        b,
                        k,
                    ),
                rank == spec_pending_count(old(self).items().take(j as int), today),
                cats0 == spec_pending_cats(old(self).items(), today),
                cats0.len() == spec_pending_count(old(self).items(), today),
                selected@.len() == cats0.len(),
                forall|k: int|
                    0 <= k < cats0.len() ==> selected@[k] == crate::allocator::spec_selected(
                        cats0,
                        b,
                        k,
                    ),
                spec_pending_count(self.items().take(j as int), today) == spec_pending_count(
                    old(self).items().take(j as int),
                    today,
                ) - crate::allocator::spec_sel_count(cats0, b, rank as int),
                self.logs() == logs3,
                self.last_active() == old(self).last_active(),
            decreases len - j,
        {
            proof {
                assert(old(self).items().take(j as int + 1).drop_last() =~= old(self).items().take(
                    j as int,
                ));
                assert(old(self).items().take(j as int + 1).last() == old(self).items()[j as int]);
            }
            let ghost pre = self.items();
            let ghost old_rank = rank as int;
            let pending = self.rows[j].session_date == today && !self.rows[j].is_consumed;
            if pending {
                proof {
                    lemma_pending_count_mono(old(self).items(), today, j as int + 1, len as int);
                    assert(old(self).items().take(len as int) =~= old(self).items());
                }
                if selected[rank] {
                    self.rows[j].is_consumed = true;
                    proof {
                        assert(self.items().take(j as int) =~= pre.take(j as int));
                        assert(self.items()[j as int] == spec_mark_consumed(
                            old(self).items()[j as int],
                        ));
                    }
                }
                rank = rank + 1;
            }
            proof {
                assert(self.items().take(j as int) =~= pre.take(j as int));
                assert(self.items().take(j as int + 1).drop_last() =~= self.items().take(j as int));
                assert(self.items().take(j as int + 1).last() == self.items()[j as int]);
                assert(crate::allocator::spec_sel_count(cats0, b, old_rank + 1)
                    == crate::allocator::spec_sel_count(cats0, b, old_rank)
                    + if crate::allocator::spec_selected(cats0, b, old_rank) {
                    1int
                } else {
                    0int
                });
            }
            j = j + 1;
        }
        proof {
            assert(old(self).items().take(len as int) =~= old(self).items());
            assert(self.items().take(len as int) =~= self.items());
            assert forall|a: int, c: int| 0 <= a < c < self.items().len() implies #[trigger] self
                .items()[a].url@ != #[trigger] self.items()[c].url@ by {
                assert(self.items()[a].url@ == old(self).items()[a].url@);
                assert(self.items()[c].url@ == old(self).items()[c].url@);
            }
        }
        allocation.outcome
    }

    /// The crawl events of the last 24 hours, most recent first; the raw
    /// material of the provider-health deriver.
    pub fn fetch_recent_crawl_events(&self, now: u64) -> (r: Vec<DiagnosticLog>)
        requires
            self.wf(),
        ensures
            r@ == spec_recent_crawl_events(self.logs(), now),
            r@.len() <= self.logs().len(),
    {
        let mut out: Vec<DiagnosticLog> = Vec::new();
        let mut k = self.events.len();
        proof {
            assert(self.logs().take(self.logs().len() as int) =~= self.logs());
        }
        while k > 0
            invariant
                self.wf(),
                k <= self.logs().len(),
                spec_recent_crawl_events(self.logs(), now) == out@ + spec_recent_crawl_events(
                    self.logs().take(k as int),
                    now,
                ),
                out@.len() + k <= self.logs().len(),
            decreases k,
        {
            proof {
                assert(self.logs().take(k as int).drop_last() =~= self.logs().take(k as int - 1));
                assert(self.logs().take(k as int).last() == self.logs()[k as int - 1]);
            }
            let ghost prev = out@;
            let e = &self.events[k - 1];
            let is_crawl = str_eq(e.event_type.as_str(), "crawl_start") || str_eq(
                e.event_type.as_str(),
                "crawl_success",
            ) || str_eq(e.event_type.as_str(), "crawl_error") || str_eq(
                e.event_type.as_str(),
                "provider_fetch",
            );
            let in_window = if now >= 86_400_000 {
                e.timestamp > now - 86_400_000
            } else {
                true
            };
            if is_crawl && in_window {
                out.push(self.events[k - 1].clone());
                proof {
                    assert(out@ =~= prev + seq![self.logs()[k as int - 1]]);
                }
            }
            k = k - 1;
        }
        proof {
            assert(self.logs().take(0) =~= Seq::<DiagnosticLog>::empty());
            assert(out@ =~= spec_recent_crawl_events(self.logs(), now));
        }
        out
    }
}

} // verus!
