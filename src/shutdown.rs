//! The reaper's shutdown sequence. The host performs each step and reports
//! back; the sequence decides what comes next.
//!
//! With a process group: ask the whole group to terminate, check at a fixed
//! interval whether it is gone, and kill it if it outlives the checks. Then,
//! in every case, kill the tracked child itself and wait for it.

use vstd::prelude::*;
use crate::poll::{lemma_poll_succeeds_iff_seen, BoundedPoll, PollStatus};

verus! {

/// Time between two checks of the group, in milliseconds.
pub const GROUP_POLL_INTERVAL_MS: u64 = 100;

/// How many times the group is checked before it is killed.
pub const GROUP_LIVENESS_CHECKS: u32 = 11;

/// One step of the shutdown sequence.
#[derive(Clone, Copy, Debug, PartialEq, Eq, Structural)]
pub enum ShutdownStep {
    /// Send the graceful termination signal to the group.
    TerminateGroup { group: i32 },
    /// Check whether any process of the group is alive, and report it.
    ProbeGroup { group: i32 },
    /// Wait this long.
    Pause { millis: u64 },
    /// Send the forceful kill signal to the group.
    KillGroup { group: i32 },
    /// Kill the tracked child and wait until it has exited.
    KillChild,
    /// Nothing is left to do.
    Complete,
}

/// The progress of one shutdown.
pub struct Shutdown {
    group: Option<i32>,
    checks: BoundedPoll,
    last: Option<ShutdownStep>,
}

impl Shutdown {
    /// The process group being shut down, if one was recorded.
    pub closed spec fn spec_group(&self) -> Option<i32> {
        self.group
    }

    /// The step handed out last, if any.
    pub closed spec fn last_step(&self) -> Option<ShutdownStep> {
        self.last
    }

    /// The group checks so far; an observation is `true` when the group
    /// was found gone.
    pub closed spec fn checks(&self) -> BoundedPoll {
        self.checks
    }

    /// A shutdown of a child, with its process group if one was recorded.
    pub fn new(group: Option<i32>) -> (s: Self)
        ensures
            s.spec_group() == group,
            s.last_step() is None,
            s.checks().limit() == GROUP_LIVENESS_CHECKS,
            s.checks().observed() == Seq::<bool>::empty(),
    {
        Shutdown { group, checks: BoundedPoll::new(GROUP_LIVENESS_CHECKS), last: None }
    }

    /// The next step. `group_alive` is the answer to the check asked for by
    /// the previous step, when that was `ProbeGroup`, and is ignored
    /// otherwise.
    pub fn next(&mut self, group_alive: bool) -> (r: ShutdownStep)
        ensures
            final(self).spec_group() == old(self).spec_group(),
            final(self).last_step() == Some(r),
            final(self).checks().limit() == old(self).checks().limit(),
            r is KillGroup ==> final(self).checks().observed().len() == final(self).checks().limit(),
            r is KillGroup ==> forall|i: int|
                0 <= i < final(self).checks().observed().len()
                    ==> !final(self).checks().observed()[i],
            !(old(self).last_step() matches Some(ShutdownStep::ProbeGroup { .. }))
                ==> final(self).checks() == old(self).checks(),
            match old(self).last_step() {
                None => r == match old(self).spec_group() {
                    Some(group) => ShutdownStep::TerminateGroup { group },
                    None => ShutdownStep::KillChild,
                },
                Some(ShutdownStep::TerminateGroup { group }) => r == (ShutdownStep::ProbeGroup {
                    group,
                }),
                Some(ShutdownStep::Pause { .. }) => r == match old(self).spec_group() {
                    Some(group) => ShutdownStep::ProbeGroup { group },
                    None => ShutdownStep::KillChild,
                },
                Some(ShutdownStep::ProbeGroup { group }) => {
                    &&& old(self).checks().state() is Pending ==> final(self).checks().observed()
                        == old(self).checks().observed().push(!group_alive)
                    &&& r == match final(self).checks().state() {
                        PollStatus::Pending => ShutdownStep::Pause {
                            millis: GROUP_POLL_INTERVAL_MS,
                        },
                        PollStatus::Exhausted => ShutdownStep::KillGroup { group },
                        PollStatus::Succeeded { .. } => ShutdownStep::KillChild,
                    }
                },
                Some(ShutdownStep::KillGroup { .. }) => r == ShutdownStep::KillChild,
                Some(ShutdownStep::KillChild) => r == ShutdownStep::Complete,
                Some(ShutdownStep::Complete) => r == ShutdownStep::Complete,
            },
    {
        let step = match self.last {
            None => match self.group {
                Some(group) => ShutdownStep::TerminateGroup { group },
                None => ShutdownStep::KillChild,
            },
            Some(ShutdownStep::TerminateGroup { group }) => ShutdownStep::ProbeGroup { group },
            Some(ShutdownStep::Pause { .. }) => match self.group {
                Some(group) => ShutdownStep::ProbeGroup { group },
                None => ShutdownStep::KillChild,
            },
            Some(ShutdownStep::ProbeGroup { group }) => {
                let status = self.checks.observe(!group_alive);
                proof {
                    lemma_poll_succeeds_iff_seen(self.checks.limit(), self.checks.observed());
                }
                match status {
                    PollStatus::Pending => ShutdownStep::Pause { millis: GROUP_POLL_INTERVAL_MS },
                    PollStatus::Exhausted => ShutdownStep::KillGroup { group },
                    PollStatus::Succeeded { .. } => ShutdownStep::KillChild,
                }
            },
            Some(ShutdownStep::KillGroup { .. }) => ShutdownStep::KillChild,
            Some(ShutdownStep::KillChild) => ShutdownStep::Complete,
            Some(ShutdownStep::Complete) => ShutdownStep::Complete,
        };
        self.last = Some(step);
        step
    }
}

} // verus!
