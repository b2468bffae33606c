//! Process lifecycle state: whether the app sits in the background, the
//! shared scalars that outlive a foreground session, and the elapsed-time
//! arithmetic the resume path needs.

use vstd::prelude::*;

verus! {

/// Tracks whether the app is in background mode.
pub struct LifecycleManager {
    background: bool,
}

impl LifecycleManager {
    /// Whether the app is currently backgrounded.
    pub closed spec fn spec_background(&self) -> bool {
        self.background
    }

    /// A manager for an app starting in the foreground.
    pub fn new() -> (r: Self)
        ensures
            !r.spec_background(),
    {
        LifecycleManager { background: false }
    }

    /// Marks the app as gone to the background.
    pub fn on_background(&mut self)
        ensures
            final(self).spec_background(),
    {
        self.background = true;
    }

    /// Marks the app as returned to the foreground.
    pub fn on_foreground(&mut self)
        ensures
            !final(self).spec_background(),
    {
        self.background = false;
    }

    /// Whether the app is in background mode.
    pub fn is_background_mode(&self) -> (r: bool)
        ensures
            r == self.spec_background(),
    {
        self.background
    }

    /// Time since the last-active timestamp, in milli-minutes.
    pub fn get_elapsed_milli_minutes(last_active_millis: i64, now_millis: i64) -> (r: i64)
        requires
            0 <= last_active_millis <= now_millis,
        ensures
            r == (now_millis - last_active_millis) / 60,
            r >= 0,
    {
        (now_millis - last_active_millis) / 60
    }
}

/// Process-spanning scalars that must survive a backgrounded session.
pub struct SharedState {
    pub last_active_timestamp: i64,
    pub is_background_mode: bool,
    pub download_interval_minutes: i64,
}

impl SharedState {
    /// Fresh state for a process that became active at `now_millis`.
    pub fn new(now_millis: i64) -> (r: Self)
        ensures
            r.last_active_timestamp == now_millis,
            !r.is_background_mode,
            r.download_interval_minutes == 30,
    {
        SharedState {
            last_active_timestamp: now_millis,
            is_background_mode: false,
            download_interval_minutes: 30,
        }
    }
}

impl Default for SharedState {
    /// State with no activity recorded yet.
    fn default() -> (r: Self)
        ensures
            r.last_active_timestamp == 0,
            !r.is_background_mode,
            r.download_interval_minutes == 30,
    {
        SharedState {
            last_active_timestamp: 0,
            is_background_mode: false,
            download_interval_minutes: 30,
        }
    }
}

/// The shared state for a process that became active at `now_millis`.
pub fn get_shared_state(now_millis: i64) -> (r: SharedState)
    ensures
        r.last_active_timestamp == now_millis,
        !r.is_background_mode,
        r.download_interval_minutes == 30,
{
    SharedState::new(now_millis)
}

} // verus!
