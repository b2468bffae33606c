//! Cadence: pure functions of the single throttle-level knob (1–9) that
//! set scroll/standby/notification timings. Values are integer-scaled:
//! durations in thousandths of a minute ("milli-minutes"), the active
//! fraction in parts per 100,000, item rates in thousandths of an item.
//!
//! The shapes: scroll time grows linearly from 1 to 5 minutes across
//! levels 1–9; the active fraction grows linearly from 2% to 91%; standby
//! is `scroll * (1/active - 1)`, a convex curve that falls steeply as the
//! level rises. The level is clamped to at least 1 on write, so the
//! active fraction is never below 2% and no division here can hit zero.

use vstd::prelude::*;

verus! {

/// Scroll duration in milli-minutes: 1 + 4 * (level-1)/8 minutes.
pub open spec fn spec_scroll_milli(level: int) -> int {
    500 * (level + 1)
}

/// Active fraction in parts per 100,000: 0.02 + 0.89 * (level-1)/8.
pub open spec fn spec_active_pp100k(level: int) -> int {
    125 * (16 + 89 * (level - 1))
}

/// Standby duration in milli-minutes: scroll * (1/active - 1).
pub open spec fn spec_standby_milli(level: int) -> int {
    spec_scroll_milli(level) * (100_000 - spec_active_pp100k(level)) / spec_active_pp100k(level)
}

/// One full cycle, scroll plus standby, in milli-minutes.
pub open spec fn spec_total_cycle_milli(level: int) -> int {
    spec_scroll_milli(level) + spec_standby_milli(level)
}

/// Items consumable per hour, in milli-items: 60 * scroll / total.
pub open spec fn spec_items_per_hour_milli(level: int) -> int {
    60_000 * spec_scroll_milli(level) / spec_total_cycle_milli(level)
}

/// Items consumable per minute, in milli-items.
pub open spec fn spec_items_per_minute_milli(level: int) -> int {
    spec_items_per_hour_milli(level) / 60
}

/// Items consumed over an elapsed span, in milli-items:
/// elapsed * items-per-minute * threads.
pub open spec fn spec_consumption_milli(elapsed_milli_minutes: int, level: int, threads: int) -> int {
    elapsed_milli_minutes * spec_items_per_minute_milli(level) * threads / 1000
}

/// Cadence math of the throttle level; every function recomputes from
/// the level it is handed, so a live knob change takes effect at once.
pub struct ConsumptionCalculator;

impl ConsumptionCalculator {
    /// Scroll duration in milli-minutes: linear, 1 minute at level 1 up
    /// to 5 minutes at level 9.
    pub fn get_scroll_duration_milli_minutes(level: u8) -> (r: u64)
        requires
            1 <= level <= 9,
        ensures
            r == spec_scroll_milli(level as int),
            1000 <= r <= 5000,
    {
        500 * (level as u64 + 1)
    }

    /// Active fraction in parts per 100,000: linear, 2% at level 1 up to
    /// 91% at level 9.
    pub fn get_active_percentage_pp100k(level: u8) -> (r: u64)
        requires
            1 <= level <= 9,
        ensures
            r == spec_active_pp100k(level as int),
            2000 <= r <= 91_000,
    {
        125 * (16 + 89 * (level as u64 - 1))
    }

    /// Standby duration in milli-minutes: scroll * (1/active - 1).
    pub fn get_standby_milli_minutes(level: u8) -> (r: u64)
        requires
            1 <= level <= 9,
        ensures
            r == spec_standby_milli(level as int),
            r <= 245_000,
    {
        let scroll = Self::get_scroll_duration_milli_minutes(level);
        let active = Self::get_active_percentage_pp100k(level);
        proof {
            assert(scroll as int * (100_000 - active as int) <= 5000 * 98_000) by (
            nonlinear_arith)
                requires
                    scroll <= 5000,
                    2000 <= active <= 91_000,
            ;
        }
        let standby = scroll * (100_000 - active) / active;
        proof {
            assert(standby <= 245_000) by (nonlinear_arith)
                requires
                    standby as int == scroll as int * (100_000 - active as int) / active as int,
                    scroll <= 5000,
                    2000 <= active <= 91_000,
            ;
        }
        standby
    }

    /// One full cycle, scroll plus standby, in milli-minutes.
    pub fn get_total_cycle_milli_minutes(level: u8) -> (r: u64)
        requires
            1 <= level <= 9,
        ensures
            r == spec_total_cycle_milli(level as int),
            1000 <= r <= 250_000,
    {
        Self::get_scroll_duration_milli_minutes(level) + Self::get_standby_milli_minutes(level)
    }

    /// Items consumable per hour at this level, in milli-items; always
    /// positive and at most 60,000 (one item a minute).
    pub fn get_items_per_hour_milli(level: u8) -> (r: u64)
        requires
            1 <= level <= 9,
        ensures
            r == spec_items_per_hour_milli(level as int),
            0 < r <= 60_000,
    {
        let scroll = Self::get_scroll_duration_milli_minutes(level);
        let total = Self::get_total_cycle_milli_minutes(level);
        let rate = (60_000 * scroll) / total;
        proof {
            assert(scroll <= total);
            assert(0 < rate <= 60_000) by (nonlinear_arith)
                requires
                    rate as int == 60_000 * scroll as int / total as int,
                    1000 <= scroll <= total <= 250_000,
            ;
        }
        rate
    }

    /// Items consumable per minute at this level, in milli-items.
    pub fn get_items_per_minute_milli(level: u8) -> (r: u64)
        requires
            1 <= level <= 9,
        ensures
            r == spec_items_per_minute_milli(level as int),
            r <= 1000,
    {
        Self::get_items_per_hour_milli(level) / 60
    }

    /// Items consumed over an elapsed span, in milli-items: elapsed time
    /// times the per-minute rate, scaled by the worker count.
    pub fn calculate_consumption(elapsed_milli_minutes: u64, level: u8, thread_count: u8) -> (r:
        u64)
        requires
            1 <= level <= 9,
            1 <= thread_count <= 8,
            elapsed_milli_minutes <= 0x1_0000_0000_0000,
        ensures
            r == spec_consumption_milli(
                elapsed_milli_minutes as int,
                level as int,
                thread_count as int,
            ),
    {
        let ipm = Self::get_items_per_minute_milli(level);
        proof {
            assert(elapsed_milli_minutes as int * ipm as int <= 0x1_0000_0000_0000 * 1000
                && elapsed_milli_minutes as int * ipm as int * (thread_count as int)
                <= 0x1_0000_0000_0000 * 1000 * 8) by (nonlinear_arith)
                requires
                    elapsed_milli_minutes <= 0x1_0000_0000_0000,
                    ipm <= 1000,
                    thread_count <= 8,
            ;
        }
        elapsed_milli_minutes * ipm * (thread_count as u64) / 1000
    }

    /// Buffer sizing: a base of 20 items per worker, plus a download
    /// target covering the given span (in tenths of an hour) at the
    /// level's hourly rate across all workers.
    pub fn calculate_buffer_requirements(
        thread_count: u8,
        download_hours_tenths: u64,
        level: u8,
    ) -> (r: (i64, i64))
        requires
            1 <= level <= 9,
            1 <= thread_count <= 8,
            download_hours_tenths <= 1000,
        ensures
            r.0 == 20 * thread_count as int,
            r.1 == spec_items_per_hour_milli(level as int) * download_hours_tenths
                * thread_count as int / 10_000,
    {
        let rate = Self::get_items_per_hour_milli(level);
        let threads = thread_count as u64;
        let base: i64 = 20 * (thread_count as i64);
        proof {
            assert(rate as int * download_hours_tenths as int <= 60_000 * 1000
                && rate as int * download_hours_tenths as int * threads as int
                <= 60_000 * 1000 * 8) by (nonlinear_arith)
                requires
                    rate <= 60_000,
                    download_hours_tenths <= 1000,
                    threads <= 8,
            ;
        }
        let target = rate * download_hours_tenths * threads / 10_000;
        (base, target as i64)
    }
}

/// How many items the consumer surface may release for an elapsed span:
/// the cadence consumption at the current knob settings.
pub fn calculate_consumption_budget(elapsed_milli_minutes: u64, level: u8, thread_count: u8) -> (r:
    u64)
    requires
        1 <= level <= 9,
        1 <= thread_count <= 8,
        elapsed_milli_minutes <= 0x1_0000_0000_0000,
    ensures
        r == spec_consumption_milli(
            elapsed_milli_minutes as int,
            level as int,
            thread_count as int,
        ),
{
    ConsumptionCalculator::calculate_consumption(elapsed_milli_minutes, level, thread_count)
}

/// The notification loop's wait between teasers: one full cadence cycle,
/// in seconds.
pub fn get_cycle_interval_secs(level: u8) -> (r: u64)
    requires
        1 <= level <= 9,
    ensures
        r == spec_total_cycle_milli(level as int) * 60 / 1000,
{
    let total = ConsumptionCalculator::get_total_cycle_milli_minutes(level);
    total * 60 / 1000
}

/// Scroll time strictly grows with the level.
pub proof fn lemma_scroll_strictly_increasing(l1: int, l2: int)
    requires
        1 <= l1 < l2 <= 9,
    ensures
        spec_scroll_milli(l1) < spec_scroll_milli(l2),
{
}

/// The active fraction strictly grows with the level.
pub proof fn lemma_active_strictly_increasing(l1: int, l2: int)
    requires
        1 <= l1 < l2 <= 9,
    ensures
        spec_active_pp100k(l1) < spec_active_pp100k(l2),
{
}

/// The standby value at each of the nine levels.
pub proof fn lemma_standby_value(l: int)
    requires
        1 <= l <= 9,
    ensures
        spec_standby_milli(l) == (if l == 1 {
            49000int
        } else if l == 2 {
            9928int
        } else if l == 3 {
            6247int
        } else if l == 4 {
            4567int
        } else if l == 5 {
            3451int
        } else if l == 6 {
            2573int
        } else if l == 7 {
            1818int
        } else if l == 8 {
            1133int
        } else {
            494int
        }),
{
    assert((1000int * 98000) / 2000 == 49000) by (nonlinear_arith);
    assert(spec_standby_milli(1) == 49000);
    assert((1500int * 86875) / 13125 == 9928) by (nonlinear_arith);
    assert(spec_standby_milli(2) == 9928);
    assert((2000int * 75750) / 24250 == 6247) by (nonlinear_arith);
    assert(spec_standby_milli(3) == 6247);
    assert((2500int * 64625) / 35375 == 4567) by (nonlinear_arith);
    assert(spec_standby_milli(4) == 4567);
    assert((3000int * 53500) / 46500 == 3451) by (nonlinear_arith);
    assert(spec_standby_milli(5) == 3451);
    assert((3500int * 42375) / 57625 == 2573) by (nonlinear_arith);
    assert(spec_standby_milli(6) == 2573);
    assert((4000int * 31250) / 68750 == 1818) by (nonlinear_arith);
    assert(spec_standby_milli(7) == 1818);
    assert((4500int * 20125) / 79875 == 1133) by (nonlinear_arith);
    assert(spec_standby_milli(8) == 1133);
    assert((5000int * 9000) / 91000 == 494) by (nonlinear_arith);
    assert(spec_standby_milli(9) == 494);
}

/// Standby time strictly falls as the level rises: a higher throttle
/// level means shorter waits between scroll sessions.
pub proof fn lemma_standby_strictly_decreasing(l1: int, l2: int)
    requires
        1 <= l1 < l2 <= 9,
    ensures
        spec_standby_milli(l2) < spec_standby_milli(l1),
{
    lemma_standby_value(l1);
    lemma_standby_value(l2);
}

} // verus!
