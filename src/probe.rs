//! The readiness probe: repeated connection attempts to the backend's port
//! until one succeeds or the attempts run out.

use vstd::prelude::*;
use crate::poll::{BoundedPoll, PollStatus};
use crate::text::{backend_url, backend_url_text};

verus! {

/// Time before each connection attempt, in milliseconds.
pub const PROBE_INTERVAL_MS: u64 = 500;

/// How many connection attempts are made at most.
pub const PROBE_MAX_ATTEMPTS: u32 = 120;

/// What the probe asks for after an attempt.
#[derive(Debug, PartialEq, Eq)]
pub enum ProbeAction {
    /// The backend answers: show its page at this address.
    Navigate { url: String },
    /// Wait one interval and try again.
    Retry,
    /// No attempt succeeded: tell the user that startup timed out.
    TimedOut,
    /// The probe had already ended; nothing to do.
    Finished,
}

/// Connection attempts to one port.
pub struct ReadinessProbe {
    port: u16,
    poll: BoundedPoll,
}

impl ReadinessProbe {
    /// The port probed.
    pub closed spec fn spec_port(&self) -> u16 {
        self.port
    }

    /// The attempts so far.
    pub closed spec fn attempts(&self) -> BoundedPoll {
        self.poll
    }

    /// A probe of `port` allowed `max_attempts` attempts.
    pub fn new(port: u16, max_attempts: u32) -> (p: Self)
        ensures
            p.spec_port() == port,
            p.attempts().limit() == max_attempts,
            p.attempts().observed() == Seq::<bool>::empty(),
    {
        ReadinessProbe { port, poll: BoundedPoll::new(max_attempts) }
    }

    /// The port probed.
    pub fn port(&self) -> (r: u16)
        ensures
            r == self.spec_port(),
    {
        self.port
    }

    /// Takes the result of one connection attempt and decides what comes
    /// next: the first successful attempt leads to the backend's page, the
    /// last failed one to a timeout, and nothing follows either.
    pub fn on_attempt(&mut self, connected: bool) -> (r: ProbeAction)
        ensures
            final(self).spec_port() == old(self).spec_port(),
            final(self).attempts().limit() == old(self).attempts().limit(),
            old(self).attempts().state() is Pending ==> final(self).attempts().observed() == old(
                self,
            ).attempts().observed().push(connected) && match final(self).attempts().state() {
                PollStatus::Succeeded { attempt } => r matches ProbeAction::Navigate { url }
                    && url@ == backend_url_text(old(self).spec_port() as nat, attempt as nat),
                PollStatus::Exhausted => r == ProbeAction::TimedOut,
                PollStatus::Pending => r == ProbeAction::Retry,
            },
            !(old(self).attempts().state() is Pending) ==> r == ProbeAction::Finished
                && final(self).attempts() == old(self).attempts(),
    {
        if self.poll.status() != PollStatus::Pending {
            return ProbeAction::Finished;
        }
        match self.poll.observe(connected) {
            PollStatus::Succeeded { attempt } => ProbeAction::Navigate {
                url: backend_url(self.port, attempt),
            },
            PollStatus::Exhausted => ProbeAction::TimedOut,
            PollStatus::Pending => ProbeAction::Retry,
        }
    }
}

} // verus!
