//! The managed child-process handle and the lifecycle decisions around it.
//!
//! At most one child process is live at a time. Its handle sits in a single
//! slot that is either present or absent: installed once after a successful
//! launch, cleared unconditionally by the terminator. Termination is a
//! best-effort cleanup, so it never fails: it hands the stored handle, if
//! any, back to the host to kill and reap, and is safe to invoke twice or
//! with no prior launch at all.

use vstd::prelude::*;

use crate::launch::LaunchError;

verus! {

/// An opaque identifier for a spawned child process. The host keeps the
/// operating-system handle and maps this identifier to it; the supervisor
/// only tracks which process, if any, is live.
#[derive(Clone, Copy, PartialEq, Eq, Structural, Debug)]
pub struct ProcessHandle {
    pub id: u64,
}

/// The single slot of managed state: at most one child-process handle is
/// live at a time, and the slot is either present or absent — no other
/// states exist (no restart, no health check, no respawn).
pub struct Supervisor {
    slot: Option<ProcessHandle>,
}

/// The run-loop events the supervisor reacts to: the two shutdown signals,
/// and everything else.
#[derive(Clone, Copy, PartialEq, Eq, Structural, Debug)]
pub enum AppEvent {
    /// The application was asked to exit.
    ExitRequested,
    /// The application is exiting.
    Exit,
    /// Any other run-loop event.
    Other,
}

/// Whether an event is one of the two shutdown signals. Both are mapped to
/// the same termination routine.
pub open spec fn is_shutdown(e: AppEvent) -> bool {
    e is ExitRequested || e is Exit
}

impl Supervisor {
    /// The handle currently stored, if any.
    pub closed spec fn stored(self) -> Option<ProcessHandle> {
        self.slot
    }

    /// How many managed handles exist: one when a handle is stored, none
    /// otherwise.
    pub open spec fn handle_count(self) -> nat {
        if self.stored() is Some {
            1
        } else {
            0
        }
    }

    /// What terminating does, whatever the prior state: the slot is cleared
    /// unconditionally, and the handle that was stored, if any, is the
    /// victim handed back for the host to kill.
    pub open spec fn terminate_transition(
        pre: Supervisor,
        post: Supervisor,
        victim: Option<ProcessHandle>,
    ) -> bool {
        &&& post.stored() is None
        &&& victim == pre.stored()
    }

    /// A fresh supervisor: no launch has happened, so no handle is stored.
    pub fn new() -> (s: Supervisor)
        ensures
            s.stored() is None,
    {
        Supervisor { slot: None }
    }

    /// The handle currently stored, if any.
    pub fn current(&self) -> (h: Option<ProcessHandle>)
        ensures
            h == self.stored(),
    {
        self.slot
    }

    /// Second step of the launcher: record the outcome of spawning the
    /// planned process. On success the handle is installed, replacing any
    /// prior one, so that exactly one managed handle exists afterwards. On
    /// failure nothing is installed — the supervisor is exactly as it was —
    /// and a spawn failure carrying the spawn error text is handed back to
    /// abort startup.
    pub fn register_launch(&mut self, spawned: Result<ProcessHandle, String>) -> (r: Result<(), LaunchError>)
        ensures
            spawned matches Ok(h) ==> r is Ok && final(self).stored() == Some(h),
            spawned is Ok ==> final(self).handle_count() == 1,
            spawned matches Err(e) ==> (r matches Err(LaunchError::Spawn(d)) && d@ == e@)
                && *final(self) == *old(self),
    {
        match spawned {
            Ok(h) => {
                self.slot = Some(h);
                Ok(())
            },
            Err(e) => Err(LaunchError::Spawn(e)),
        }
    }

    /// The terminator: clear the stored handle unconditionally and hand back
    /// the one that was stored, if any, for the host to kill and reap. With
    /// nothing stored it is a no-op that yields no victim, so invoking it
    /// twice, or with no prior launch, is safe.
    pub fn terminate(&mut self) -> (victim: Option<ProcessHandle>)
        ensures
            Self::terminate_transition(*old(self), *final(self), victim),
            old(self).stored() is None ==> victim is None,
    {
        let victim = self.slot;
        self.slot = None;
        victim
    }

    /// Map a run-loop event to its action: either shutdown signal terminates
    /// the managed process; every other event leaves the supervisor alone
    /// and yields no victim.
    pub fn on_event(&mut self, e: AppEvent) -> (victim: Option<ProcessHandle>)
        ensures
            is_shutdown(e) ==> Self::terminate_transition(*old(self), *final(self), victim),
            !is_shutdown(e) ==> *final(self) == *old(self) && victim is None,
    {
        match e {
            AppEvent::ExitRequested | AppEvent::Exit => self.terminate(),
            AppEvent::Other => None,
        }
    }
}

/// Termination is idempotent: after one termination the slot is absent, so a
/// second one finds nothing, yields no victim, and changes nothing.
pub proof fn lemma_terminate_idempotent(
    s0: Supervisor,
    s1: Supervisor,
    v1: Option<ProcessHandle>,
    s2: Supervisor,
    v2: Option<ProcessHandle>,
)
    requires
        Supervisor::terminate_transition(s0, s1, v1),
        Supervisor::terminate_transition(s1, s2, v2),
    ensures
        s1.stored() is None,
        v2 is None,
        s2.stored() == s1.stored(),
{
}

/// Termination with no prior launch is a no-op: nothing is stored, so no
/// victim is produced and the slot stays absent.
pub proof fn lemma_terminate_without_launch(
    s0: Supervisor,
    s1: Supervisor,
    v: Option<ProcessHandle>,
)
    requires
        s0.stored() is None,
        Supervisor::terminate_transition(s0, s1, v),
    ensures
        v is None,
        s1.stored() is None,
{
}

} // verus!
