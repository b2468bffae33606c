//! Crawl-scheduling decisions: the idle/crawl/terminate state machine,
//! the per-cycle provider walk, and the interval and batch-size formulas.
//! The surrounding loop — timers, HTTP, the shutdown signal — lives with
//! the caller; everything it must decide is a function here, recomputed
//! from the knobs on every cycle so a live change takes effect at once.

use vstd::prelude::*;

verus! {

/// The buffer level below which a cycle actually crawls.
pub open spec fn spec_low_water_mark() -> int {
    20
}

/// Minutes between cycles: linear from 15 at level 1 down to 7 at
/// level 9.
pub open spec fn spec_crawl_interval_minutes(level: int) -> int {
    15 - (level - 1)
}

/// How many providers one scheduler cycle visits, before list-length
/// capping: 1 at level 1 up to 2 at level 9.
pub open spec fn spec_cycle_provider_quota(level: int) -> int {
    1 + ((level - 1) * 2) / 9
}

/// How many providers a triggered crawl visits: a base of 2 to 6 rising
/// with the level, scaled by the worker count in blocks of four, capped
/// at the full provider list.
pub open spec fn spec_providers_per_cycle(level: int, threads: int) -> int {
    let base = 2 + ((level - 1) * 4) / 8;
    let scaled = base * ((threads + 3) / 4);
    if scaled < 13 {
        scaled
    } else {
        13
    }
}

/// The scheduler's two live states and its terminal one.
#[derive(Clone, Copy, Debug, PartialEq, Eq, Structural)]
pub enum SchedulerState {
    IdleWait,
    Crawling,
    Terminated,
}

/// What the loop observed: its sleep timer elapsed (with the current
/// pending count), a crawl pass finished, or shutdown was signalled.
#[derive(Clone, Copy, Debug, PartialEq, Eq, Structural)]
pub enum SchedulerEvent {
    IntervalElapsed { pending_count: i64 },
    CycleFinished,
    ShutdownRequested,
}

/// What the loop must do next: start a crawl pass, restart the interval
/// timer, or exit for good.
#[derive(Clone, Copy, Debug, PartialEq, Eq, Structural)]
pub enum SchedulerAction {
    BeginCrawl,
    RestartTimer,
    Exit,
}

/// One transition of the scheduler: a shutdown signal terminates from
/// any state; an elapsed timer starts a crawl only while the buffer is
/// below the low-water mark, else the timer simply restarts; a finished
/// crawl returns to idle. There is no terminal state but shutdown.
pub open spec fn spec_scheduler_step(s: SchedulerState, e: SchedulerEvent) -> (
    SchedulerState,
    SchedulerAction,
) {
    match (s, e) {
        (_, SchedulerEvent::ShutdownRequested) => (
            SchedulerState::Terminated,
            SchedulerAction::Exit,
        ),
        (SchedulerState::Terminated, _) => (SchedulerState::Terminated, SchedulerAction::Exit),
        (SchedulerState::IdleWait, SchedulerEvent::IntervalElapsed { pending_count }) => if (
        pending_count as int) < spec_low_water_mark() {
            (SchedulerState::Crawling, SchedulerAction::BeginCrawl)
        } else {
            (SchedulerState::IdleWait, SchedulerAction::RestartTimer)
        },
        (SchedulerState::Crawling, SchedulerEvent::CycleFinished) => (
            SchedulerState::IdleWait,
            SchedulerAction::RestartTimer,
        ),
        _ => (s, SchedulerAction::RestartTimer),
    }
}

/// The decision state of the crawl scheduler; the loop around it lives
/// with the caller.
pub struct CrawlScheduler {
    state: SchedulerState,
}

impl CrawlScheduler {
    /// The scheduler's current state.
    pub closed spec fn spec_state(&self) -> SchedulerState {
        self.state
    }

    /// A scheduler at rest, waiting for its first interval.
    pub fn new() -> (r: Self)
        ensures
            r.spec_state() == SchedulerState::IdleWait,
    {
        CrawlScheduler { state: SchedulerState::IdleWait }
    }

    /// Feeds one observation to the state machine and returns the action
    /// the loop must perform.
    pub fn step(&mut self, event: SchedulerEvent) -> (action: SchedulerAction)
        ensures
            (final(self).spec_state(), action) == spec_scheduler_step(
                old(self).spec_state(),
                event,
            ),
    {
        let (next, action) = match (self.state, event) {
            (_, SchedulerEvent::ShutdownRequested) => (
                SchedulerState::Terminated,
                SchedulerAction::Exit,
            ),
            (SchedulerState::Terminated, _) => (SchedulerState::Terminated, SchedulerAction::Exit),
            (SchedulerState::IdleWait, SchedulerEvent::IntervalElapsed { pending_count }) => if pending_count
                < 20 {
                (SchedulerState::Crawling, SchedulerAction::BeginCrawl)
            } else {
                (SchedulerState::IdleWait, SchedulerAction::RestartTimer)
            },
            (SchedulerState::Crawling, SchedulerEvent::CycleFinished) => (
                SchedulerState::IdleWait,
                SchedulerAction::RestartTimer,
            ),
            _ => (self.state, SchedulerAction::RestartTimer),
        };
        self.state = next;
        action
    }

    /// Whether an elapsed interval should crawl at all: only while the
    /// buffer holds fewer unconsumed items than the low-water mark.
    pub fn should_crawl(pending_count: i64) -> (r: bool)
        ensures
            r == ((pending_count as int) < spec_low_water_mark()),
    {
        pending_count < 20
    }

    /// Minutes until the next cycle, from the current throttle level.
    pub fn get_crawl_interval_minutes(level: u8) -> (r: u64)
        requires
            1 <= level <= 9,
        ensures
            r == spec_crawl_interval_minutes(level as int),
            7 <= r <= 15,
    {
        15 - (level as u64 - 1)
    }

    /// How many providers this cycle visits, capped at the list length.
    pub fn get_providers_per_cycle(level: u8, provider_count: usize) -> (r: usize)
        requires
            1 <= level <= 9,
        ensures
            r as int == if spec_cycle_provider_quota(level as int) < provider_count as int {
                spec_cycle_provider_quota(level as int)
            } else {
                provider_count as int
            },
    {
        let quota = 1 + ((level as usize - 1) * 2) / 9;
        if quota < provider_count {
            quota
        } else {
            provider_count
        }
    }
}

/// How many providers a triggered crawl visits, from both knobs.
pub fn providers_per_cycle(level: u8, thread_count: u8) -> (r: usize)
    requires
        1 <= level <= 9,
        1 <= thread_count <= 8,
    ensures
        r as int == spec_providers_per_cycle(level as int, thread_count as int),
        1 <= r <= 13,
{
    let base = 2 + ((level as usize - 1) * 4) / 8;
    let blocks = (thread_count as usize + 3) / 4;
    proof {
        assert(2 <= base <= 6);
        assert(1 <= blocks <= 2);
        assert(2 <= base * blocks <= 12) by (nonlinear_arith)
            requires
                2 <= base <= 6,
                1 <= blocks <= 2,
        ;
    }
    let scaled = base * blocks;
    if scaled < 13 {
        scaled
    } else {
        13
    }
}

/// Relies on rand::random: a uniformly drawn 64-bit value. Nothing is
/// promised of a random draw.
#[verifier::external_body]
fn random_u64() -> u64 {
    rand::random::<u64>()
}

/// A uniformly chosen starting position in the provider list; each cycle
/// starts its walk somewhere else, spreading load across sources without
/// per-provider state.
pub fn pick_start_index(len: usize) -> (r: usize)
    requires
        len > 0,
    ensures
        r < len,
{
    let x = random_u64();
    (x % (len as u64)) as usize
}

/// The provider positions one cycle visits: `count` steps forward from
/// the start, wrapping around the list.
pub fn cycle_provider_indexes(start: usize, count: usize, len: usize) -> (r: Vec<usize>)
    requires
        0 < len <= 0x1000_0000,
        start < len,
        count <= 16,
    ensures
        r@.len() == count,
        forall|i: int| 0 <= i < count ==> #[trigger] r@[i] as int == (start + i) % (len as int),
        forall|i: int| 0 <= i < count ==> #[trigger] r@[i] < len,
{
    let mut out: Vec<usize> = Vec::new();
    let mut i: usize = 0;
    while i < count
        invariant
            0 < len <= 0x1000_0000,
            start < len,
            count <= 16,
            i <= count,
            out@.len() == i,
            forall|k: int| 0 <= k < i ==> #[trigger] out@[k] as int == (start + k) % (len as int),
            forall|k: int| 0 <= k < i ==> #[trigger] out@[k] < len,
        decreases count - i,
    {
        let idx = (start + i) % len;
        out.push(idx);
        i = i + 1;
    }
    out
}

} // verus!
