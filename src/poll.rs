//! A bounded poll: a fixed number of attempts at checking a condition, stopping
//! at the first attempt that sees it.

use vstd::prelude::*;

verus! {

/// Where a bounded poll stands.
#[derive(Clone, Copy, Debug, PartialEq, Eq, Structural)]
pub enum PollStatus {
    /// The condition has not been seen yet and attempts remain.
    Pending,
    /// The condition was first seen on this attempt, counted from 1.
    Succeeded { attempt: u32 },
    /// Every attempt was made and none saw the condition.
    Exhausted,
}

/// Index of the first `true` in `obs`, or `obs.len()` when there is none.
pub open spec fn first_true(obs: Seq<bool>) -> nat
    decreases obs.len(),
{
    if obs.len() == 0 {
        0
    } else {
        let f = first_true(obs.drop_last());
        if f < obs.len() - 1 {
            f
        } else if obs.last() {
            (obs.len() - 1) as nat
        } else {
            obs.len()
        }
    }
}

/// The status of a poll allowed `max` attempts, after the attempts that saw `obs`.
pub open spec fn outcome(max: nat, obs: Seq<bool>) -> PollStatus {
    let f = first_true(obs);
    if f < obs.len() && f < max {
        PollStatus::Succeeded { attempt: (f + 1) as u32 }
    } else if obs.len() >= max {
        PollStatus::Exhausted
    } else {
        PollStatus::Pending
    }
}

/// `first_true` is the least index holding `true`.
pub proof fn lemma_first_true(obs: Seq<bool>)
    ensures
        first_true(obs) <= obs.len(),
        forall|j: int| 0 <= j < first_true(obs) ==> !obs[j],
        first_true(obs) < obs.len() ==> obs[first_true(obs) as int],
    decreases obs.len(),
{
    if obs.len() > 0 {
        let prefix = obs.drop_last();
        lemma_first_true(prefix);
        assert forall|j: int| 0 <= j < first_true(obs) implies !obs[j] by {
            if j < prefix.len() {
                assert(obs[j] == prefix[j]);
            }
        }
        if first_true(prefix) < prefix.len() {
            assert(obs[first_true(prefix) as int] == prefix[first_true(prefix) as int]);
        }
    }
}

/// A poll succeeds exactly when one of its allowed attempts sees the
/// condition, and then on the first such attempt; once every allowed attempt
/// has been made without seeing it, the poll is exhausted.
pub proof fn lemma_poll_succeeds_iff_seen(max: nat, obs: Seq<bool>)
    requires
        max <= u32::MAX,
        obs.len() <= max,
    ensures
        (outcome(max, obs) is Succeeded) <==> (exists|i: int| 0 <= i < obs.len() && obs[i]),
        outcome(max, obs) matches PollStatus::Succeeded { attempt } ==> {
            &&& 1 <= attempt <= obs.len()
            &&& obs[attempt - 1]
            &&& forall|j: int| 0 <= j < attempt - 1 ==> !obs[j]
        },
        (outcome(max, obs) is Exhausted) <==> (obs.len() == max && forall|i: int|
            0 <= i < obs.len() ==> !obs[i]),
{
    lemma_first_true(obs);
    let f = first_true(obs);
    if f < obs.len() {
        assert(exists|i: int| 0 <= i < obs.len() && obs[i]) by {
            assert(obs[f as int]);
        }
    }
}

/// What attempts made at times `first`, `first + interval`, `first + 2 * interval`, ...
/// observe of a condition that holds from time `start` on.
pub open spec fn sampled(first: nat, interval: nat, start: nat, n: nat) -> Seq<bool> {
    Seq::new(n, |k: int| first + k * interval >= start)
}

/// A poll whose attempts are `interval` apart, the first at most one interval
/// in, sees a condition that starts holding at time `start` on the first
/// attempt at or after `start`, which comes at most one interval after it,
/// provided some allowed attempt comes at or after `start`.
pub proof fn lemma_detected_within_one_interval(first: nat, interval: nat, start: nat, n: nat)
    requires
        interval > 0,
        first <= interval,
        n >= 1,
        n <= u32::MAX,
        start <= first + (n - 1) * interval,
    ensures
        outcome(n, sampled(first, interval, start, n)) matches PollStatus::Succeeded { attempt } && {
            let at = first + (attempt - 1) * interval;
            &&& 1 <= attempt <= n
            &&& start <= at <= start + interval
        },
{
    let obs = sampled(first, interval, start, n);
    let k: int = if start <= first {
        0
    } else {
        (start - first + interval - 1) / interval as int
    };
    if start > first {
        let d: int = start - first;
        assert(k * interval >= d && (k - 1) * interval < d) by (nonlinear_arith)
            requires
                k == (d + interval - 1) / interval as int,
                d > 0,
                interval > 0,
        ;
        assert(k < n) by (nonlinear_arith)
            requires
                (k - 1) * interval < d,
                d <= (n - 1) * interval,
                interval > 0,
        ;
    }
    if k == 0 {
        assert(k * interval == 0) by (nonlinear_arith)
            requires
                k == 0,
        ;
    } else {
        assert(first + k * interval == first + (k - 1) * interval + interval) by (nonlinear_arith);
    }
    assert(start <= first + k * interval <= start + interval);
    assert forall|j: int| 0 <= j < k implies !obs[j] by {
        assert(first + j * interval < start) by (nonlinear_arith)
            requires
                0 <= j < k,
                k > 0 ==> first + (k - 1) * interval < start,
                interval > 0,
        ;
    }
    lemma_first_true(obs);
    let f = first_true(obs);
    if f < k {
        assert(obs[f as int]);
    }
    if f > k {
        assert(!obs[k]);
    }
    assert(f == k);
}

/// The attempts of a poll that holds its result across calls: after a
/// terminal status, further observations change nothing.
pub struct BoundedPoll {
    max_attempts: u32,
    attempts: u32,
    status: PollStatus,
    seen: Ghost<Seq<bool>>,
}

impl BoundedPoll {
    /// The number of attempts allowed.
    pub closed spec fn limit(&self) -> nat {
        self.max_attempts as nat
    }

    /// What each attempt made so far observed, in order.
    pub closed spec fn observed(&self) -> Seq<bool> {
        self.seen@
    }

    /// The current status.
    pub open spec fn state(&self) -> PollStatus {
        outcome(self.limit(), self.observed())
    }

    #[verifier::type_invariant]
    spec fn inv(&self) -> bool {
        &&& self.attempts as nat == self.seen@.len()
        &&& self.seen@.len() <= self.max_attempts
        &&& self.status == outcome(self.max_attempts as nat, self.seen@)
    }

    /// A poll allowed `max_attempts` attempts, none made yet.
    pub fn new(max_attempts: u32) -> (p: Self)
        ensures
            p.limit() == max_attempts,
            p.observed() == Seq::<bool>::empty(),
            p.state() == (if max_attempts == 0 {
                PollStatus::Exhausted
            } else {
                PollStatus::Pending
            }),
    {
        let status = if max_attempts == 0 {
            PollStatus::Exhausted
        } else {
            PollStatus::Pending
        };
        BoundedPoll { max_attempts, attempts: 0, status, seen: Ghost(Seq::empty()) }
    }

    /// The current status.
    pub fn status(&self) -> (r: PollStatus)
        ensures
            r == self.state(),
    {
        proof {
            use_type_invariant(self);
        }
        self.status
    }

    /// The number of attempts made so far.
    pub fn attempts(&self) -> (r: u32)
        ensures
            r == self.observed().len(),
    {
        proof {
            use_type_invariant(self);
        }
        self.attempts
    }

    /// The number of attempts allowed.
    pub fn max_attempts(&self) -> (r: u32)
        ensures
            r == self.limit(),
    {
        self.max_attempts
    }

    /// Records one attempt that did (`true`) or did not see the condition,
    /// and returns the new status. A poll that has already ended is left as it
    /// is.
    pub fn observe(&mut self, seen: bool) -> (r: PollStatus)
        ensures
            final(self).limit() == old(self).limit(),
            final(self).observed().len() <= final(self).limit() <= u32::MAX,
            old(self).state() is Pending ==> final(self).observed() == old(self).observed().push(
                seen,
            ),
            !(old(self).state() is Pending) ==> final(self).observed() == old(self).observed(),
            r == final(self).state(),
            old(self).state() is Pending ==> (seen <==> r is Succeeded),
            old(self).state() is Pending && seen ==> r == (PollStatus::Succeeded {
                attempt: (old(self).observed().len() + 1) as u32,
            }),
    {
        proof {
            use_type_invariant(&*self);
            lemma_first_true(self.seen@);
        }
        if self.status != PollStatus::Pending {
            return self.status;
        }
        let ghost before = self.seen@;
        let attempt = self.attempts + 1;
        let new_status = if seen {
            PollStatus::Succeeded { attempt }
        } else if attempt >= self.max_attempts {
            PollStatus::Exhausted
        } else {
            PollStatus::Pending
        };
        proof {
            let after = before.push(seen);
            assert(after.drop_last() =~= before);
            assert(first_true(before) == before.len());
        }
        *self = BoundedPoll {
            max_attempts: self.max_attempts,
            attempts: attempt,
            status: new_status,
            seen: Ghost(before.push(seen)),
        };
        new_status
    }
}

} // verus!
