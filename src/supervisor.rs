//! The shared state of the supervisor: the negotiated port, the handle of the
//! one backend process, and its process group.

use vstd::prelude::*;

verus! {

/// What a non-blocking check of a live child process found.
#[derive(Clone, Copy, Debug, PartialEq, Eq, Structural)]
pub enum ExitCheck {
    /// Still running.
    Running,
    /// Exited, with whatever status.
    Exited,
    /// The check itself failed.
    CheckFailed,
}

/// What the watchdog learns from the shared state on one poll.
#[derive(Clone, Copy, Debug, PartialEq, Eq, Structural)]
pub enum ChildCheck {
    /// The child is tracked and still running.
    Running,
    /// The child is tracked and has exited.
    Exited,
    /// The child is tracked but checking on it failed.
    CheckFailed,
    /// No child has been launched yet.
    NotStarted,
    /// The child has been taken for reaping.
    Reaped,
}

/// What the watchdog learns from a check of the tracked child.
pub open spec fn child_check_of(e: ExitCheck) -> ChildCheck {
    match e {
        ExitCheck::Running => ChildCheck::Running,
        ExitCheck::Exited => ChildCheck::Exited,
        ExitCheck::CheckFailed => ChildCheck::CheckFailed,
    }
}

/// What the watchdog learns from a check of the tracked child.
pub fn child_check_from(e: ExitCheck) -> (r: ChildCheck)
    ensures
        r == child_check_of(e),
{
    match e {
        ExitCheck::Running => ChildCheck::Running,
        ExitCheck::Exited => ChildCheck::Exited,
        ExitCheck::CheckFailed => ChildCheck::CheckFailed,
    }
}

/// A handle on a child process that can be checked without blocking.
pub trait ChildProcess: Sized {
    /// Checks, without waiting, whether the process has exited.
    fn try_exit(&mut self) -> ExitCheck;
}

/// The abstract state of a [`Supervisor`].
pub struct SupervisorView<H> {
    /// The negotiated port, once assigned.
    pub port: Option<u16>,
    /// The handle of the tracked child, while it is tracked.
    pub child: Option<H>,
    /// The child's own process group, when it was verified to be one.
    pub group: Option<i32>,
    /// Whether the child has been taken for reaping.
    pub reaped: bool,
}

impl<H> SupervisorView<H> {
    /// The state before anything happened.
    pub open spec fn initial() -> Self {
        SupervisorView { port: None, child: None, group: None, reaped: false }
    }

    /// A child is tracked only once a port is assigned and never after
    /// reaping, and a group only while its child is tracked.
    pub open spec fn wf(self) -> bool {
        &&& self.child is Some ==> !self.reaped && self.port is Some
        &&& self.group is Some ==> self.child is Some
    }

    /// Whether a child may be launched now: the port is known and no child has
    /// ever been tracked.
    pub open spec fn may_spawn(self) -> bool {
        self.port is Some && self.child is None && !self.reaped
    }
}

/// The state after an attempt to take the child for reaping.
pub open spec fn after_reap<H>(v: SupervisorView<H>) -> SupervisorView<H> {
    if v.child is Some {
        SupervisorView { port: v.port, child: None, group: None, reaped: true }
    } else {
        v
    }
}

/// What an attempt to take the child for reaping hands out.
pub open spec fn reap_yield<H>(v: SupervisorView<H>) -> Option<(H, Option<i32>)> {
    match v.child {
        Some(h) => Some((h, v.group)),
        None => None,
    }
}

/// Reaping with no child tracked hands out nothing and changes nothing.
pub proof fn lemma_reap_without_child_is_noop<H>(v: SupervisorView<H>)
    requires
        v.child is None,
    ensures
        reap_yield(v) is None,
        after_reap(v) == v,
{
}

/// Of two reaps of the same state, one after the other, only the first can
/// obtain the child; the second finds no handle and changes nothing.
pub proof fn lemma_second_reap_finds_nothing<H>(v: SupervisorView<H>)
    ensures
        (reap_yield(v) is Some) <==> (v.child is Some),
        reap_yield(after_reap(v)) is None,
        after_reap(after_reap(v)) == after_reap(v),
{
}

/// Checks on a tracked handle, if there is one, without blocking.
fn check_handle<H: ChildProcess>(child: &mut Option<H>) -> (r: ChildCheck)
    ensures
        (*final(child) is Some) == (*old(child) is Some),
        *old(child) is None ==> r == ChildCheck::NotStarted,
        *old(child) is Some ==> exists|e: ExitCheck| r == child_check_of(e),
{
    match child {
        None => ChildCheck::NotStarted,
        Some(handle) => child_check_from(handle.try_exit()),
    }
}

/// The supervisor's state, shared by the launcher, the watchdog and the
/// reaper under one lock.
pub struct Supervisor<H> {
    port: Option<u16>,
    child: Option<H>,
    group: Option<i32>,
    reaped: bool,
}

impl<H> View for Supervisor<H> {
    type V = SupervisorView<H>;

    closed spec fn view(&self) -> SupervisorView<H> {
        SupervisorView { port: self.port, child: self.child, group: self.group, reaped: self.reaped }
    }
}

impl<H: ChildProcess> Supervisor<H> {
    /// A state with no port and no child.
    pub fn new() -> (s: Self)
        ensures
            s@ == SupervisorView::<H>::initial(),
            s@.wf(),
    {
        Supervisor { port: None, child: None, group: None, reaped: false }
    }

    /// The negotiated port, once assigned.
    pub fn port(&self) -> (r: Option<u16>)
        ensures
            r == self@.port,
    {
        self.port
    }

    /// Whether a child may be launched now.
    pub fn may_spawn(&self) -> (r: bool)
        ensures
            r == self@.may_spawn(),
    {
        self.port.is_some() && self.child.is_none() && !self.reaped
    }

    /// Assigns the port. The port is assigned once: a second assignment is
    /// refused and changes nothing.
    pub fn assign_port(&mut self, port: u16) -> (r: bool)
        ensures
            old(self)@.wf() ==> final(self)@.wf(),
            r == (old(self)@.port is None),
            r ==> final(self)@ == (SupervisorView { port: Some(port), ..old(self)@ }),
            !r ==> final(self)@ == old(self)@,
    {
        if self.port.is_some() {
            return false;
        }
        self.port = Some(port);
        true
    }

    /// Starts tracking a freshly launched child. Refused, handing the handle
    /// back, unless a launch was allowed: at most one child is ever tracked.
    pub fn adopt(&mut self, handle: H) -> (r: Result<(), H>)
        ensures
            old(self)@.wf() ==> final(self)@.wf(),
            (r is Ok) == old(self)@.may_spawn(),
            r is Ok ==> final(self)@ == (SupervisorView { child: Some(handle), ..old(self)@ }),
            r matches Err(h) ==> h == handle && final(self)@ == old(self)@,
    {
        if !self.may_spawn() {
            return Err(handle);
        }
        self.child = Some(handle);
        Ok(())
    }

    /// Records the child's process group, but only when the group that the
    /// system reports for the child is the one led by the child itself, and
    /// only while that child is tracked and no group is recorded yet.
    pub fn record_group(&mut self, child_pid: i32, reported_group: i32) -> (r: bool)
        ensures
            old(self)@.wf() ==> final(self)@.wf(),
            r == (old(self)@.child is Some && old(self)@.group is None && reported_group
                == child_pid),
            r ==> final(self)@ == (SupervisorView { group: Some(child_pid), ..old(self)@ }),
            !r ==> final(self)@ == old(self)@,
    {
        if self.child.is_none() || self.group.is_some() || reported_group != child_pid {
            return false;
        }
        self.group = Some(child_pid);
        true
    }

    /// Checks on the tracked child without blocking.
    pub fn check_child(&mut self) -> (r: ChildCheck)
        ensures
            old(self)@.wf() ==> final(self)@.wf(),
            final(self)@.port == old(self)@.port,
            final(self)@.group == old(self)@.group,
            final(self)@.reaped == old(self)@.reaped,
            (final(self)@.child is Some) == (old(self)@.child is Some),
            old(self)@.child is None && !old(self)@.reaped ==> r == ChildCheck::NotStarted,
            old(self)@.child is None && old(self)@.reaped ==> r == ChildCheck::Reaped,
            old(self)@.child is Some ==> exists|e: ExitCheck| r == child_check_of(e),
    {
        if self.child.is_none() && self.reaped {
            return ChildCheck::Reaped;
        }
        check_handle(&mut self.child)
    }

    /// Takes the child, with its process group, for reaping. Only one caller
    /// ever obtains it; any later call finds nothing and changes nothing.
    pub fn take_for_reap(&mut self) -> (r: Option<(H, Option<i32>)>)
        ensures
            old(self)@.wf() ==> final(self)@.wf(),
            r == reap_yield(old(self)@),
            final(self)@ == after_reap(old(self)@),
    {
        if self.child.is_none() {
            return None;
        }
        let group = self.group.take();
        match self.child.take() {
            None => None,
            Some(handle) => {
                self.reaped = true;
                Some((handle, group))
            },
        }
    }
}

} // verus!
