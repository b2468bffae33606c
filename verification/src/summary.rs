//! The daily summary: today's stats together with the most recent
//! consumed items as highlights. Rendering the text around them is a
//! presentation concern that lives with the caller.

use vstd::prelude::*;
use crate::model::{Category, DaySummary};
use crate::store::{
    ContentStore, spec_consumed_count, spec_consumed_count_cat, spec_consumed_today,
    spec_time_saved_tenths,
};

verus! {

/// Gathers today's stats and up to five of the most recently fetched
/// consumed items as highlights.
pub fn generate_daily_summary(store: &ContentStore, today: u64) -> (r: DaySummary)
    requires
        store.wf(),
    ensures
        r.stats.memes_found == spec_consumed_count_cat(store.items(), today, Category::Meme),
        r.stats.jokes_found == spec_consumed_count_cat(store.items(), today, Category::Joke),
        r.stats.news_checked == spec_consumed_count_cat(store.items(), today, Category::News),
        r.stats.videos_found == spec_consumed_count_cat(store.items(), today, Category::Video),
        r.stats.gossip_found == spec_consumed_count_cat(store.items(), today, Category::Gossip),
        r.stats.total_items == spec_consumed_count(store.items(), today),
        r.stats.estimated_time_saved_tenths == spec_time_saved_tenths(
            r.stats.memes_found as int,
            r.stats.jokes_found as int,
            r.stats.news_checked as int,
            r.stats.videos_found as int,
            r.stats.gossip_found as int,
        ),
        ({
            let lst = spec_consumed_today(store.items(), today);
            r.highlights@ == lst.take(
                if lst.len() < 5 {
                    lst.len() as int
                } else {
                    5int
                },
            )
        }),
{
    let stats = store.get_today_stats(today);
    let mut highlights = store.get_items_for_today(today);
    if highlights.len() > 5 {
        highlights.truncate(5);
    } else {
        proof {
            assert(highlights@.take(highlights@.len() as int) =~= highlights@);
        }
    }
    DaySummary { stats, highlights }
}

} // verus!
