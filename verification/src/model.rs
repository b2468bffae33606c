//! Data model: content items, categories, diagnostic records, result
//! structs, and the fixed per-category cost table (in tenths of a minute).

use vstd::prelude::*;

verus! {

/// Content category of a fetched item.
#[derive(Clone, Copy, Debug, PartialEq, Eq, Structural)]
pub enum Category {
    Meme,
    Joke,
    News,
    Video,
    Gossip,
    Other,
}

/// Minutes of simulated consumption time per category, in tenths of a minute.
pub open spec fn spec_category_cost(c: Category) -> int {
    match c {
        Category::Meme => 5,
        Category::Joke => 3,
        Category::News => 20,
        Category::Video => 30,
        Category::Gossip => 15,
        Category::Other => 10,
    }
}

/// The cheapest cost in the table (the joke category).
pub open spec fn spec_min_category_cost() -> int {
    3
}

/// Fixed cost table: meme 0.5 min, joke 0.3, news 2.0, video 3.0,
/// gossip 1.5, anything else 1.0 — stated in tenths of a minute.
pub fn category_cost(c: Category) -> (r: u64)
    ensures
        r == spec_category_cost(c),
        spec_min_category_cost() <= r <= 30,
{
    match c {
        Category::Meme => 5,
        Category::Joke => 3,
        Category::News => 20,
        Category::Video => 30,
        Category::Gossip => 15,
        Category::Other => 10,
    }
}

/// A stored piece of content. The store treats insertion order as fetch
/// order; `fetched_at` is the fetch timestamp in milliseconds and
/// `session_date` the local calendar day of fetch, as a day number.
pub struct CrawlItem {
    pub id: String,
    pub source: String,
    pub category: Category,
    pub title: String,
    pub url: String,
    pub thumbnail_url: Option<String>,
    pub thumbnail_data: Option<String>,
    pub description: Option<String>,
    pub fetched_at: u64,
    pub is_seen: bool,
    pub is_saved: bool,
    pub is_consumed: bool,
    pub session_date: u64,
}

/// A candidate item as a provider hands it over, before deduplication
/// and identifier assignment.
pub struct FetchedItem {
    pub source: String,
    pub category: Category,
    pub title: String,
    pub url: String,
    pub thumbnail_url: Option<String>,
    pub thumbnail_data: Option<String>,
    pub description: Option<String>,
}

/// Per-day counts of consumed items, with the estimated time saved in
/// tenths of a minute.
#[derive(Clone, Copy, Debug, PartialEq, Eq, Structural)]
pub struct DayStats {
    pub memes_found: i64,
    pub jokes_found: i64,
    pub news_checked: i64,
    pub videos_found: i64,
    pub gossip_found: i64,
    pub total_items: i64,
    pub estimated_time_saved_tenths: i64,
}

/// Outcome of one budget-allocation pass. "Discarded" means left pending,
/// not deleted. `time_consumed_tenths` is in tenths of a minute.
#[derive(Clone, Copy, Debug, PartialEq, Eq, Structural)]
pub struct ConsumeResult {
    pub items_consumed: i64,
    pub items_discarded: i64,
    pub time_consumed_tenths: i64,
    pub memes_consumed: i64,
    pub jokes_consumed: i64,
    pub news_consumed: i64,
    pub videos_consumed: i64,
    pub gossip_consumed: i64,
}

/// Why an allocation pass consumed nothing.
#[derive(Clone, Copy, Debug, PartialEq, Eq, Structural)]
pub enum EmptyConsumeReason {
    EmptyBuffer,
    BudgetTooSmall,
    AllItemsTooExpensive,
}

/// One append-only diagnostic event. `timestamp` is in milliseconds.
pub struct DiagnosticLog {
    pub id: String,
    pub timestamp: u64,
    pub event_type: String,
    pub severity: String,
    pub message: String,
    pub metadata: Option<String>,
    pub related_item_id: Option<String>,
}

/// Coarse buffer-health label derived from the pending items' total cost.
#[derive(Clone, Copy, Debug, PartialEq, Eq, Structural)]
pub enum BufferHealth {
    Empty,
    Low,
    Moderate,
    Healthy,
}

/// Cost bounds over the pending set, in tenths of a minute.
#[derive(Clone, Copy, Debug, PartialEq, Eq, Structural)]
pub struct BudgetAnalysis {
    pub min_cost_per_item_tenths: i64,
    pub max_cost_per_item_tenths: i64,
    pub estimated_buffer_tenths: i64,
    pub total_pending_cost_tenths: i64,
}

/// Snapshot for diagnostics: pending count, health label, cost bounds.
#[derive(Clone, Copy, Debug, PartialEq, Eq, Structural)]
pub struct DiagnosticSummary {
    pub pending_count: i64,
    pub estimated_buffer_health: BufferHealth,
    pub budget_analysis: BudgetAnalysis,
}

/// Heuristic health signal for one provider.
#[derive(Clone, Copy, Debug, PartialEq, Eq, Structural)]
pub enum FetchStatus {
    Succeeded,
    Errored,
    Unknown,
}

/// Derived reliability summary for one provider. `last_fetch_timestamp`
/// is in milliseconds.
pub struct ProviderStatus {
    pub provider_name: String,
    pub category: Category,
    pub last_fetch_status: FetchStatus,
    pub last_fetch_timestamp: Option<u64>,
    pub recent_error_count: i64,
}

/// How many diagnostic events a bulk deletion removed.
#[derive(Clone, Copy, Debug, PartialEq, Eq, Structural)]
pub struct ClearDiagnosticsResult {
    pub deleted_count: i64,
}

/// Today's stats with the most recent consumed items as highlights.
pub struct DaySummary {
    pub stats: DayStats,
    pub highlights: Vec<CrawlItem>,
}

/// Clones an optional string, preserving its value.
pub fn clone_opt_string(o: &Option<String>) -> (r: Option<String>)
    ensures
        r == *o,
{
    match o {
        Option::Some(s) => Option::Some(s.clone()),
        Option::None => Option::None,
    }
}

impl Clone for CrawlItem {
    fn clone(&self) -> (r: Self)
        ensures
            r == *self,
    {
        CrawlItem {
            id: self.id.clone(),
            source: self.source.clone(),
            category: self.category,
            title: self.title.clone(),
            url: self.url.clone(),
            thumbnail_url: clone_opt_string(&self.thumbnail_url),
            thumbnail_data: clone_opt_string(&self.thumbnail_data),
            description: clone_opt_string(&self.description),
            fetched_at: self.fetched_at,
            is_seen: self.is_seen,
            is_saved: self.is_saved,
            is_consumed: self.is_consumed,
            session_date: self.session_date,
        }
    }
}

impl Clone for DiagnosticLog {
    fn clone(&self) -> (r: Self)
        ensures
            r == *self,
    {
        DiagnosticLog {
            id: self.id.clone(),
            timestamp: self.timestamp,
            event_type: self.event_type.clone(),
            severity: self.severity.clone(),
            message: self.message.clone(),
            metadata: clone_opt_string(&self.metadata),
            related_item_id: clone_opt_string(&self.related_item_id),
        }
    }
}

} // verus!
