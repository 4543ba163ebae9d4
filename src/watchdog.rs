//! The watchdog: a periodic check that the backend has not exited, which
//! reports the first failure once and then stops.

use vstd::prelude::*;
use crate::poll::{lemma_detected_within_one_interval, outcome, sampled, BoundedPoll, PollStatus};
use crate::supervisor::ChildCheck;

verus! {

/// Time between two checks, in milliseconds.
pub const WATCHDOG_INTERVAL_MS: u64 = 500;

/// How many checks the watchdog makes at most: in practice, without end.
pub const WATCHDOG_MAX_POLLS: u32 = 4294967295;

/// What the watchdog asks for after a check.
#[derive(Clone, Copy, Debug, PartialEq, Eq, Structural)]
pub enum WatchAction {
    /// Wait this long, then check again.
    PollAgain { millis: u64 },
    /// Tell the user that the backend failed; the watchdog has stopped.
    ReportFailure,
    /// Stop watching, reporting nothing.
    Stop,
}

/// Whether a check counts as a failure of the backend.
pub open spec fn is_failure(check: ChildCheck) -> bool {
    check == ChildCheck::Exited || check == ChildCheck::CheckFailed
}

/// With checks every `WATCHDOG_INTERVAL_MS`, the first at the start, a
/// child that has exited from time `exit_at` on is reported by the check that
/// comes at most one interval after `exit_at`, provided the allowed checks
/// reach that far.
pub proof fn lemma_watchdog_reports_within_one_interval(exit_at: nat, max_polls: nat)
    requires
        1 <= max_polls <= u32::MAX,
        exit_at <= (max_polls - 1) * WATCHDOG_INTERVAL_MS,
    ensures
        outcome(max_polls, sampled(0, WATCHDOG_INTERVAL_MS as nat, exit_at, max_polls)) matches PollStatus::Succeeded {
            attempt,
        } && {
            let at = (attempt - 1) * WATCHDOG_INTERVAL_MS;
            &&& 1 <= attempt <= max_polls
            &&& exit_at <= at <= exit_at + WATCHDOG_INTERVAL_MS
        },
{
    lemma_detected_within_one_interval(0, WATCHDOG_INTERVAL_MS as nat, exit_at, max_polls);
}

/// The watchdog's progress.
pub struct Watchdog {
    poll: BoundedPoll,
    halted: bool,
}

impl Watchdog {
    /// For each check made, whether it found a failure.
    pub closed spec fn failures(&self) -> Seq<bool> {
        self.poll.observed()
    }

    /// The number of checks allowed.
    pub closed spec fn limit(&self) -> nat {
        self.poll.limit()
    }

    /// Whether the watchdog stopped because the child was reaped.
    pub closed spec fn halted(&self) -> bool {
        self.halted
    }

    /// Whether a failure has been reported.
    pub open spec fn has_reported(&self) -> bool {
        outcome(self.limit(), self.failures()) is Succeeded
    }

    /// Whether the watchdog has stopped for good.
    pub open spec fn done(&self) -> bool {
        self.halted() || !(outcome(self.limit(), self.failures()) is Pending)
    }

    /// A watchdog that makes at most `max_polls` checks.
    pub fn new(max_polls: u32) -> (w: Self)
        ensures
            w.limit() == max_polls,
            w.failures() == Seq::<bool>::empty(),
            !w.halted(),
    {
        Watchdog { poll: BoundedPoll::new(max_polls), halted: false }
    }

    /// Whether the watchdog has stopped for good.
    pub fn is_done(&self) -> (r: bool)
        ensures
            r == self.done(),
    {
        self.halted || self.poll.status() != PollStatus::Pending
    }

    /// Takes the result of one check and decides what comes next. A failure
    /// is reported on the first check that finds one, and never again: once
    /// stopped, the watchdog answers `Stop` and changes nothing.
    pub fn on_check(&mut self, check: ChildCheck) -> (r: WatchAction)
        ensures
            final(self).limit() == old(self).limit(),
            old(self).done() ==> r == WatchAction::Stop && final(self).failures() == old(
                self,
            ).failures() && final(self).halted() == old(self).halted(),
            !old(self).done() && check == ChildCheck::Reaped ==> r == WatchAction::Stop
                && final(self).halted() && final(self).failures() == old(self).failures(),
            !old(self).done() && check != ChildCheck::Reaped ==> final(self).failures()
                == old(self).failures().push(is_failure(check)) && final(self).halted() == old(
                self,
            ).halted(),
            !old(self).done() && is_failure(check) ==> r == WatchAction::ReportFailure,
            (r == WatchAction::ReportFailure) == (!old(self).has_reported()
                && final(self).has_reported()),
            (r is PollAgain) == !final(self).done(),
            r matches WatchAction::PollAgain { millis } ==> millis == WATCHDOG_INTERVAL_MS,
    {
        if self.is_done() {
            return WatchAction::Stop;
        }
        match check {
            ChildCheck::Reaped => {
                self.halted = true;
                WatchAction::Stop
            },
            ChildCheck::Exited | ChildCheck::CheckFailed => {
                self.poll.observe(true);
                WatchAction::ReportFailure
            },
            ChildCheck::Running | ChildCheck::NotStarted => {
                match self.poll.observe(false) {
                    PollStatus::Pending => WatchAction::PollAgain { millis: WATCHDOG_INTERVAL_MS },
                    _ => WatchAction::Stop,
                }
            },
        }
    }
}

} // verus!
