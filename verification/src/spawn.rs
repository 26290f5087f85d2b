//! One-shot delayed spawning: the countdown between the start of a round and
//! the appearance of its ball.

use vstd::prelude::*;

use crate::config::DT_LIMIT;

verus! {

/// What a [`SpawnScheduler::tick`] found: the countdown still running, or
/// elapsed.
#[derive(Clone, Copy, Debug, PartialEq, Eq, Structural)]
pub enum TimerResult {
    /// The countdown is still running; the payload is the remaining time in
    /// milliseconds.
    Pending(i64),
    /// The countdown elapsed: the caller spawns the ball and clears the
    /// timer.
    Fire,
}

/// Decides when a pending spawn is due.  It owns no state: the caller holds
/// the countdown and applies the returned result.
pub struct SpawnScheduler;

/// Whether a countdown of `timer` milliseconds elapses once `dt` more
/// milliseconds pass.
pub open spec fn timer_fires(timer: int, dt: int) -> bool {
    timer - dt <= 0
}

impl SpawnScheduler {
    /// Counts a pending spawn down by `dt` milliseconds: the remaining time,
    /// or [`TimerResult::Fire`] once none is left.
    pub fn tick(timer: i64, dt: i64) -> (r: TimerResult)
        requires
            0 <= timer <= DT_LIMIT,
            0 <= dt <= DT_LIMIT,
        ensures
            !timer_fires(timer as int, dt as int) ==> r == TimerResult::Pending(
                (timer - dt) as i64,
            ),
            timer_fires(timer as int, dt as int) ==> r == TimerResult::Fire,
    {
        let remaining: i64 = timer - dt;
        if remaining > 0 {
            TimerResult::Pending(remaining)
        } else {
            TimerResult::Fire
        }
    }
}

} // verus!
