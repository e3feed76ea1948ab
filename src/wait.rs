//! The cancellable wait: a bounded wait that polls the engine's stopping
//! signal between short sleeps. The caller owns the clock and the sleeping;
//! this module decides each step.
use vstd::prelude::*;
use crate::params::{json_accepts, json_member, member_of, Field, ParamDoc, ParamError, ParamField};

verus! {

/// The longest sleep between two looks at the stopping signal.
pub const POLL_STEP_MS: u64 = 200;

pub const DEFAULT_SLEEP_SECS: u64 = 5;

/// How a wait ended.
#[derive(Clone, Copy, Debug, PartialEq, Eq, Structural)]
pub enum WaitOutcome {
    Completed,
    Interrupted,
}

/// What the waiting thread does next.
#[derive(Clone, Copy, Debug, PartialEq, Eq, Structural)]
pub enum WaitStep {
    /// Sleep this many milliseconds, then look again.
    Sleep(u64),
    /// The wait is over.
    Finish(WaitOutcome),
}

/// A wait of a fixed length, measured from the moment it started.
#[derive(Clone, Copy, Debug, PartialEq, Eq, Structural)]
pub struct CancellableWait {
    pub total_ms: u128,
}

/// The step taken after `elapsed` milliseconds of a wait of `total`, with
/// the stopping signal as it was just read. A wait of length zero completes
/// at once; any other wait is interrupted by a look that finds the signal
/// set, the last look included, and completes once its time is up.
pub open spec fn wait_step(total: nat, elapsed: nat, stopping: bool) -> WaitStep {
    if total == 0 {
        WaitStep::Finish(WaitOutcome::Completed)
    } else if stopping {
        WaitStep::Finish(WaitOutcome::Interrupted)
    } else if elapsed >= total {
        WaitStep::Finish(WaitOutcome::Completed)
    } else if total - elapsed < POLL_STEP_MS {
        WaitStep::Sleep((total - elapsed) as u64)
    } else {
        WaitStep::Sleep(POLL_STEP_MS)
    }
}

impl CancellableWait {
    pub fn new(total_secs: u64) -> (r: CancellableWait)
        ensures
            r.total_ms == total_secs as nat * 1000,
    {
        CancellableWait { total_ms: total_secs as u128 * 1000 }
    }

    /// The next step, after `elapsed_ms` milliseconds, with the stopping
    /// signal as it reads now.
    pub fn next_step(&self, elapsed_ms: u128, stopping: bool) -> (r: WaitStep)
        ensures
            r == wait_step(self.total_ms as nat, elapsed_ms as nat, stopping),
    {
        if self.total_ms == 0 {
            WaitStep::Finish(WaitOutcome::Completed)
        } else if stopping {
            WaitStep::Finish(WaitOutcome::Interrupted)
        } else if elapsed_ms >= self.total_ms {
            WaitStep::Finish(WaitOutcome::Completed)
        } else if self.total_ms - elapsed_ms < POLL_STEP_MS as u128 {
            WaitStep::Sleep((self.total_ms - elapsed_ms) as u64)
        } else {
            WaitStep::Sleep(POLL_STEP_MS)
        }
    }
}

/// A wait of length zero ends as completed at its first step, before any
/// sleep, whatever the signal says.
pub proof fn lemma_zero_wait_completes(elapsed: nat, stopping: bool)
    ensures
        wait_step(0, elapsed, stopping) == WaitStep::Finish(WaitOutcome::Completed),
{
}

/// Every sleep lasts at most one poll step and never runs past the end of
/// the wait, and a wait of nonzero length goes on sleeping only while the
/// signal reads clear. So once the signal is set, the next look, at most one
/// poll step later, ends the wait as interrupted, also where that look falls
/// at or after the end; the wait completes only at a look that finds its
/// time up and the signal clear.
pub proof fn lemma_stop_seen_within_one_step(total: nat, elapsed: nat, stopping: bool)
    requires
        total > 0,
    ensures
        wait_step(total, elapsed, stopping) matches WaitStep::Sleep(d) ==> 0 < d <= POLL_STEP_MS
            && elapsed + d <= total && !stopping,
        stopping ==> wait_step(total, elapsed, stopping) == WaitStep::Finish(
            WaitOutcome::Interrupted,
        ),
        wait_step(total, elapsed, stopping) == WaitStep::Finish(WaitOutcome::Completed) <==> (elapsed
            >= total && !stopping),
{
}

/// The seconds that a sleep invocation waits: the member `sleep_time` when
/// it is an unsigned integer, else five. A text that is not JSON is refused.
pub open spec fn sleep_seconds_of(text: Seq<char>) -> Result<u64, ParamError> {
    if !json_accepts(text) {
        Err(ParamError::MalformedJson)
    } else {
        match json_member(text, "sleep_time"@) {
            Field::Unsigned(n) => Ok(n),
            _ => Ok(DEFAULT_SLEEP_SECS),
        }
    }
}

pub fn decode_sleep(param: &str) -> (r: Result<u64, ParamError>)
    ensures
        r == sleep_seconds_of(param@),
{
    match ParamDoc::parse(param) {
        None => Err(ParamError::MalformedJson),
        Some(doc) => match member_of(&doc, "sleep_time") {
            ParamField::Unsigned(n) => Ok(n),
            _ => Ok(DEFAULT_SLEEP_SECS),
        },
    }
}

} // verus!
