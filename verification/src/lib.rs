//! Activity polling and timer engine for a game-companion overlay: a
//! deduplicating history merge, a current-activity updater, an incremental
//! history loader with throttled publishing, and a mode-aware session timer.

use vstd::prelude::*;

pub mod activity;
pub mod clock;
pub mod dedup;
pub mod display;
pub mod history;
pub mod prefs;
pub mod timer;
pub mod updater;

verus! {

/// What the steady-state poll loop refreshes this cycle.
#[derive(Clone, Copy, Debug, PartialEq, Eq, Structural)]
pub enum PollStep {
    RefreshCurrent,
    RefreshHistory,
}

/// The supervisor's cycle decision: most cycles refresh the current
/// activity; once the cycle count passes its window the history is refreshed
/// instead and the count starts over.
pub fn next_poll_step(count: u64) -> (r: (PollStep, u64))
    ensures
        count < 5 ==> r.0 == PollStep::RefreshCurrent && r.1 == count + 1,
        count >= 5 ==> r.0 == PollStep::RefreshHistory && r.1 == 1,
{
    if count < 5 {
        (PollStep::RefreshCurrent, count + 1)
    } else {
        (PollStep::RefreshHistory, 1)
    }
}

/// Length of the trailing history window, in milliseconds: 30 days.
pub const HISTORY_WINDOW_MS: i64 = 2592000000;

/// The cutoff timestamp for history fetching: activities that started more
/// than 30 days before `now_ms` are out of the window.
pub fn history_cutoff(now_ms: i64) -> (r: i64)
    ensures
        now_ms - HISTORY_WINDOW_MS >= i64::MIN ==> r == now_ms - HISTORY_WINDOW_MS,
        now_ms - HISTORY_WINDOW_MS < i64::MIN ==> r == i64::MIN,
{
    if now_ms >= i64::MIN + HISTORY_WINDOW_MS {
        now_ms - HISTORY_WINDOW_MS
    } else {
        i64::MIN
    }
}

} // verus!
