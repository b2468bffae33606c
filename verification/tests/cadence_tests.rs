//! Cadence math at concrete throttle levels, and the knobs and
//! scheduler decisions around it.

use cazzmachine::cadence::{calculate_consumption_budget, get_cycle_interval_secs, ConsumptionCalculator};
use cazzmachine::knobs::ThrottleKnobs;
use cazzmachine::scheduler::{
    cycle_provider_indexes, pick_start_index, providers_per_cycle, CrawlScheduler, SchedulerAction,
    SchedulerEvent,
};

#[test]
fn test_scroll_duration_level_1() {
    let duration = ConsumptionCalculator::get_scroll_duration_milli_minutes(1) as f64 / 1000.0;
    assert!((duration - 1.0).abs() < 0.01);
}

#[test]
fn test_scroll_duration_level_9() {
    let duration = ConsumptionCalculator::get_scroll_duration_milli_minutes(9) as f64 / 1000.0;
    assert!((duration - 5.0).abs() < 0.02);
}

#[test]
fn test_scroll_duration_level_5() {
    let duration = ConsumptionCalculator::get_scroll_duration_milli_minutes(5) as f64 / 1000.0;
    assert!((duration - 3.0).abs() < 0.02);
}

#[test]
fn test_active_percentage_level_1() {
    let active = ConsumptionCalculator::get_active_percentage_pp100k(1) as f64 / 100_000.0;
    assert!((active - 0.02).abs() < 0.02);
}

#[test]
fn test_active_percentage_level_9() {
    let active = ConsumptionCalculator::get_active_percentage_pp100k(9) as f64 / 100_000.0;
    assert!((active - 0.91).abs() < 0.02);
}

#[test]
fn test_items_per_hour_positive() {
    let items = ConsumptionCalculator::get_items_per_hour_milli(5) as f64 / 1000.0;
    assert!(items > 0.0);
    assert!(items <= 60.0);
}

#[test]
fn test_buffer_calculation() {
    let (base, download) = ConsumptionCalculator::calculate_buffer_requirements(4, 20, 5);
    assert!(base > 0);
    assert!(download > 0);
    assert_eq!(base, 80); // 20 items per thread, 4 threads
}

#[test]
fn test_standby_exact_values() {
    assert_eq!(ConsumptionCalculator::get_standby_milli_minutes(1), 49_000);
    assert_eq!(ConsumptionCalculator::get_standby_milli_minutes(5), 3451);
    assert_eq!(ConsumptionCalculator::get_standby_milli_minutes(9), 494);
}

#[test]
fn test_cadence_monotonic_across_levels() {
    // Scroll and active fraction rise with the level; standby falls.
    let mut prev_standby = u64::MAX;
    let mut prev_scroll = 0u64;
    let mut prev_active = 0u64;
    for level in 1u8..=9 {
        let scroll = ConsumptionCalculator::get_scroll_duration_milli_minutes(level);
        let active = ConsumptionCalculator::get_active_percentage_pp100k(level);
        let standby = ConsumptionCalculator::get_standby_milli_minutes(level);
        assert!(scroll > prev_scroll);
        assert!(active > prev_active);
        assert!(standby < prev_standby);
        prev_scroll = scroll;
        prev_active = active;
        prev_standby = standby;
    }
}

#[test]
fn test_items_per_hour_exact() {
    assert_eq!(ConsumptionCalculator::get_items_per_hour_milli(1), 1200);
    assert_eq!(ConsumptionCalculator::get_items_per_hour_milli(5), 27_902);
    assert_eq!(ConsumptionCalculator::get_items_per_hour_milli(9), 54_605);
}

#[test]
fn test_consumption_formula() {
    // One hour at level 5 with two workers: 60,000 milli-minutes at
    // 465 milli-items per minute, doubled.
    let consumed = ConsumptionCalculator::calculate_consumption(60_000, 5, 2);
    assert_eq!(consumed, 55_800);
    assert_eq!(calculate_consumption_budget(60_000, 5, 2), 55_800);
}

#[test]
fn test_cycle_interval_level_1() {
    // Level 1: 1 minute scrolling, 49 standby, so a 50-minute cycle.
    assert_eq!(get_cycle_interval_secs(1), 3000);
}

#[test]
fn test_knobs_clamping() {
    let mut knobs = ThrottleKnobs::new();
    assert_eq!(knobs.get_throttle_level(), 5);
    assert_eq!(knobs.get_consumption_threads(), 1);
    knobs.set_throttle_level(0);
    assert_eq!(knobs.get_throttle_level(), 1);
    knobs.set_throttle_level(42);
    assert_eq!(knobs.get_throttle_level(), 9);
    knobs.set_throttle_level(7);
    assert_eq!(knobs.get_throttle_level(), 7);
    knobs.set_consumption_threads(0);
    assert_eq!(knobs.get_consumption_threads(), 1);
    knobs.set_consumption_threads(200);
    assert_eq!(knobs.get_consumption_threads(), 8);
}

#[test]
fn test_providers_per_cycle_scaling() {
    // Level 5, one worker: base 4, one block of workers.
    assert_eq!(providers_per_cycle(5, 1), 4);
    // Level 9, eight workers: base 6 doubled, capped at the list.
    assert_eq!(providers_per_cycle(9, 8), 12);
    assert_eq!(providers_per_cycle(1, 1), 2);
}

#[test]
fn test_crawl_interval_bounds() {
    assert_eq!(CrawlScheduler::get_crawl_interval_minutes(1), 15);
    assert_eq!(CrawlScheduler::get_crawl_interval_minutes(9), 7);
}

#[test]
fn test_scheduler_state_machine() {
    let mut sched = CrawlScheduler::new();
    // A full buffer skips the crawl and restarts the timer.
    let action = sched.step(SchedulerEvent::IntervalElapsed { pending_count: 25 });
    assert_eq!(action, SchedulerAction::RestartTimer);
    // A low buffer starts a crawl.
    let action = sched.step(SchedulerEvent::IntervalElapsed { pending_count: 3 });
    assert_eq!(action, SchedulerAction::BeginCrawl);
    // The finished cycle goes back to idle.
    let action = sched.step(SchedulerEvent::CycleFinished);
    assert_eq!(action, SchedulerAction::RestartTimer);
    // Shutdown terminates from any state, for good.
    let action = sched.step(SchedulerEvent::ShutdownRequested);
    assert_eq!(action, SchedulerAction::Exit);
    let action = sched.step(SchedulerEvent::IntervalElapsed { pending_count: 0 });
    assert_eq!(action, SchedulerAction::Exit);
}

#[test]
fn test_should_crawl_threshold() {
    assert!(CrawlScheduler::should_crawl(0));
    assert!(CrawlScheduler::should_crawl(19));
    assert!(!CrawlScheduler::should_crawl(20));
    assert!(!CrawlScheduler::should_crawl(100));
}

#[test]
fn test_cycle_provider_walk_wraps() {
    let idxs = cycle_provider_indexes(6, 4, 8);
    assert_eq!(idxs, vec![6, 7, 0, 1]);
}

#[test]
fn test_pick_start_index_in_range() {
    for _ in 0..50 {
        let idx = pick_start_index(13);
        assert!(idx < 13);
    }
}
