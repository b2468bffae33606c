//! Throttled content ingestion and consumption control.
//!
//! The library models a buffer of fetched content items: a deduplicating
//! store with an item lifecycle, a greedy consumption-budget allocator,
//! cadence math for a single throttle knob, crawl-scheduling decisions,
//! and a provider-health deriver over the diagnostic event log.
//!
//! All durations are integer-scaled: consumption costs and budgets are in
//! tenths of a minute, cadence values in thousandths of a minute, and
//! timestamps in milliseconds since the epoch.

use vstd::prelude::*;

pub mod allocator;
pub mod cadence;
pub mod health;
pub mod ident;
pub mod knobs;
pub mod lifecycle;
pub mod model;
pub mod providers;
pub mod scheduler;
pub mod summary;
pub mod store;
pub mod textutil;

verus! {

} // verus!
