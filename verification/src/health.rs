//! Provider-health derivation: a heuristic, read-only analysis over the
//! last 24 hours of crawl events. Events are attributed to a provider by
//! a case-insensitive substring match of its name in the event message —
//! a deliberate heuristic, so false positives are possible when one
//! provider's name is a substring of another identifier.

use vstd::prelude::*;
use crate::model::{Category, DiagnosticLog, FetchStatus, ProviderStatus};
use crate::store::{ContentStore, spec_recent_crawl_events, spec_has_category_today};
use crate::textutil::{contains_ci, str_eq, spec_contains_ci};

verus! {

/// The event speaks of this provider: its name occurs in the message,
/// compared case-insensitively.
pub open spec fn spec_event_matches(e: DiagnosticLog, name: Seq<char>) -> bool {
    spec_contains_ci(e.message@, name)
}

/// The status a newest-first scan of the events yields: the first
/// matching `crawl_success` event means the provider is fine and ends
/// the scan; an error-severity match marks it failing unless a later
/// (older) success overrides.
pub open spec fn spec_scan_status(events: Seq<DiagnosticLog>, name: Seq<char>) -> FetchStatus
    decreases events.len(),
{
    if events.len() == 0 {
        FetchStatus::Unknown
    } else if spec_event_matches(events.first(), name) && events.first().event_type@
        == "crawl_success"@ {
        FetchStatus::Succeeded
    } else if spec_event_matches(events.first(), name) && events.first().severity@ == "error"@ {
        if spec_scan_status(events.drop_first(), name) == FetchStatus::Succeeded {
            FetchStatus::Succeeded
        } else {
            FetchStatus::Errored
        }
    } else {
        spec_scan_status(events.drop_first(), name)
    }
}

/// How many error-severity matches the scan sees before its first
/// success match (all of them, when no success match exists).
pub open spec fn spec_scan_error_count(events: Seq<DiagnosticLog>, name: Seq<char>) -> int
    decreases events.len(),
{
    if events.len() == 0 {
        0
    } else if spec_event_matches(events.first(), name) && events.first().event_type@
        == "crawl_success"@ {
        0
    } else if spec_event_matches(events.first(), name) && events.first().severity@ == "error"@ {
        1 + spec_scan_error_count(events.drop_first(), name)
    } else {
        spec_scan_error_count(events.drop_first(), name)
    }
}

/// The timestamp of the newest event that speaks of the provider.
pub open spec fn spec_first_match_ts(events: Seq<DiagnosticLog>, name: Seq<char>) -> Option<u64>
    decreases events.len(),
{
    if events.len() == 0 {
        Option::None
    } else if spec_event_matches(events.first(), name) {
        Option::Some(events.first().timestamp)
    } else {
        spec_first_match_ts(events.drop_first(), name)
    }
}

/// The derived status and timestamp: the event scan's verdict, or — when
/// no event speaks of the provider at all — "fine as of today" if items
/// of its category exist for the current day, else unknown.
pub open spec fn spec_provider_verdict(
    events: Seq<DiagnosticLog>,
    name: Seq<char>,
    has_items: bool,
    today: u64,
) -> (FetchStatus, Option<u64>) {
    let s = spec_scan_status(events, name);
    if s == FetchStatus::Unknown && has_items {
        (FetchStatus::Succeeded, Option::Some(today))
    } else {
        (s, spec_first_match_ts(events, name))
    }
}

/// The fixed list of known provider names with their categories.
pub open spec fn spec_known_providers() -> Seq<(Seq<char>, Category)> {
    seq![
        ("google-news"@, Category::News),
        ("dadjokes"@, Category::Joke),
        ("reddit-memes"@, Category::Meme),
        ("entertainment"@, Category::Gossip),
        ("memes"@, Category::Meme),
        ("gossip"@, Category::Gossip),
        ("reddit-videos"@, Category::Video),
        ("icanhazdadjoke"@, Category::Joke),
        ("jokeapi"@, Category::Joke),
        ("uselessfacts"@, Category::Joke),
        ("chucknorris"@, Category::Joke),
        ("hackernews"@, Category::News),
        ("bbc-news"@, Category::News),
    ]
}

/// The known providers, as values.
pub fn known_providers() -> (r: Vec<(String, Category)>)
    ensures
        r@.len() == spec_known_providers().len(),
        forall|k: int|
            0 <= k < r@.len() ==> #[trigger] r@[k].0@ == spec_known_providers()[k].0 && r@[k].1
                == spec_known_providers()[k].1,
{
    let mut r: Vec<(String, Category)> = Vec::new();
    r.push((String::from_str("google-news"), Category::News));
    r.push((String::from_str("dadjokes"), Category::Joke));
    r.push((String::from_str("reddit-memes"), Category::Meme));
    r.push((String::from_str("entertainment"), Category::Gossip));
    r.push((String::from_str("memes"), Category::Meme));
    r.push((String::from_str("gossip"), Category::Gossip));
    r.push((String::from_str("reddit-videos"), Category::Video));
    r.push((String::from_str("icanhazdadjoke"), Category::Joke));
    r.push((String::from_str("jokeapi"), Category::Joke));
    r.push((String::from_str("uselessfacts"), Category::Joke));
    r.push((String::from_str("chucknorris"), Category::Joke));
    r.push((String::from_str("hackernews"), Category::News));
    r.push((String::from_str("bbc-news"), Category::News));
    r
}

/// Scans the events (given newest first) for one provider and combines
/// the verdict with the stored-items fallback.
pub fn derive_single_provider_status(
    events: &Vec<DiagnosticLog>,
    name: &str,
    category: Category,
    has_items: bool,
    today: u64,
) -> (r: ProviderStatus)
    requires
        events@.len() <= 0x1000_0000,
    ensures
        r.provider_name@ == name@,
        r.category == category,
        (r.last_fetch_status, r.last_fetch_timestamp) == spec_provider_verdict(
            events@,
            name@,
            has_items,
            today,
        ),
        r.recent_error_count == spec_scan_error_count(events@, name@),
        r.recent_error_count >= 0,
{
    let n = events.len();
    let mut errored = false;
    let mut ts: Option<u64> = Option::None;
    let mut errs: i64 = 0;
    let mut i: usize = 0;
    proof {
        assert(events@.skip(0) =~= events@);
    }
    while i < n
        invariant
            n == events@.len(),
            n <= 0x1000_0000,
            i <= n,
            0 <= errs <= i,
            spec_scan_status(events@, name@) == (if spec_scan_status(events@.skip(i as int), name@)
                == FetchStatus::Succeeded {
                FetchStatus::Succeeded
            } else if errored {
                FetchStatus::Errored
            } else {
                spec_scan_status(events@.skip(i as int), name@)
            }),
            errs + spec_scan_error_count(events@.skip(i as int), name@) == spec_scan_error_count(
                events@,
                name@,
            ),
            spec_first_match_ts(events@, name@) == (match ts {
                Option::Some(t) => Option::Some(t),
                Option::None => spec_first_match_ts(events@.skip(i as int), name@),
            }),
        decreases n - i,
    {
        proof {
            assert(events@.skip(i as int).first() == events@[i as int]);
            assert(events@.skip(i as int).drop_first() =~= events@.skip(i as int + 1));
        }
        let e = &events[i];
        if contains_ci(e.message.as_str(), name) {
            if ts.is_none() {
                ts = Option::Some(e.timestamp);
            }
            if str_eq(e.event_type.as_str(), "crawl_success") {
                return ProviderStatus {
                    provider_name: name.to_owned(),
                    category,
                    last_fetch_status: FetchStatus::Succeeded,
                    last_fetch_timestamp: ts,
                    recent_error_count: errs,
                };
            }
            if str_eq(e.severity.as_str(), "error") {
                errs = errs + 1;
                errored = true;
            }
        }
        i = i + 1;
    }
    proof {
        assert(events@.skip(n as int) =~= Seq::<DiagnosticLog>::empty());
    }
    if !errored && has_items {
        ProviderStatus {
            provider_name: name.to_owned(),
            category,
            last_fetch_status: FetchStatus::Succeeded,
            last_fetch_timestamp: Option::Some(today),
            recent_error_count: errs,
        }
    } else {
        ProviderStatus {
            provider_name: name.to_owned(),
            category,
            last_fetch_status: if errored {
                FetchStatus::Errored
            } else {
                FetchStatus::Unknown
            },
            last_fetch_timestamp: ts,
            recent_error_count: errs,
        }
    }
}

/// One provider's expected status over a store: the scan verdict over
/// the last day's crawl events, with the stored-items fallback.
pub open spec fn spec_status_for(
    store: &ContentStore,
    now: u64,
    today: u64,
    k: int,
) -> (FetchStatus, Option<u64>) {
    spec_provider_verdict(
        spec_recent_crawl_events(store.logs(), now),
        spec_known_providers()[k].0,
        spec_has_category_today(store.items(), spec_known_providers()[k].1, today),
        today,
    )
}

/// Derives the status of every known provider from the store's last day
/// of crawl events.
pub fn derive_provider_statuses(store: &ContentStore, now: u64, today: u64) -> (r: Vec<
    ProviderStatus,
>)
    requires
        store.wf(),
    ensures
        r@.len() == spec_known_providers().len(),
        forall|k: int|
            0 <= k < r@.len() ==> {
                &&& (#[trigger] r@[k]).provider_name@ == spec_known_providers()[k].0
                &&& r@[k].category == spec_known_providers()[k].1
                &&& (r@[k].last_fetch_status, r@[k].last_fetch_timestamp) == spec_status_for(
                    store,
                    now,
                    today,
                    k,
                )
                &&& r@[k].recent_error_count == spec_scan_error_count(
                    spec_recent_crawl_events(store.logs(), now),
                    spec_known_providers()[k].0,
                )
            },
{
    let events = store.fetch_recent_crawl_events(now);
    let providers = known_providers();
    let mut out: Vec<ProviderStatus> = Vec::new();
    let count = providers.len();
    let mut k: usize = 0;
    while k < count
        invariant
            store.wf(),
            count == spec_known_providers().len(),
            providers@.len() == count,
            forall|x: int|
                0 <= x < count ==> #[trigger] providers@[x].0@ == spec_known_providers()[x].0
                    && providers@[x].1 == spec_known_providers()[x].1,
            events@ == spec_recent_crawl_events(store.logs(), now),
            events@.len() <= 0x1000_0000,
            k <= count,
            out@.len() == k,
            forall|x: int|
                0 <= x < k ==> {
                    &&& (#[trigger] out@[x]).provider_name@ == spec_known_providers()[x].0
                    &&& out@[x].category == spec_known_providers()[x].1
                    &&& (out@[x].last_fetch_status, out@[x].last_fetch_timestamp)
                        == spec_status_for(store, now, today, x)
                    &&& out@[x].recent_error_count == spec_scan_error_count(
                        spec_recent_crawl_events(store.logs(), now),
                        spec_known_providers()[x].0,
                    )
                },
        decreases count - k,
    {
        let has_items = store.has_items_for_category(providers[k].1, today);
        let status = derive_single_provider_status(
            &events,
            providers[k].0.as_str(),
            providers[k].1,
            has_items,
            today,
        );
        out.push(status);
        k = k + 1;
    }
    out
}

impl ContentStore {
    /// The heuristic reliability summary of every known provider, from
    /// the last 24 hours of the diagnostic log.
    pub fn get_provider_status(&self, now: u64, today: u64) -> (r: Vec<ProviderStatus>)
        requires
            self.wf(),
        ensures
            r@.len() == spec_known_providers().len(),
            forall|k: int|
                0 <= k < r@.len() ==> {
                    &&& (#[trigger] r@[k]).provider_name@ == spec_known_providers()[k].0
                    &&& r@[k].category == spec_known_providers()[k].1
                    &&& (r@[k].last_fetch_status, r@[k].last_fetch_timestamp) == spec_status_for(
                        self,
                        now,
                        today,
                        k,
                    )
                    &&& r@[k].recent_error_count == spec_scan_error_count(
                        spec_recent_crawl_events(self.logs(), now),
                        spec_known_providers()[k].0,
                    )
                },
    {
        derive_provider_statuses(self, now, today)
    }
}

} // verus!
