//! The process-handle registry: the supervisor's only persistent state.
//!
//! At most one child-process handle is tracked at any time. A handle is
//! represented here by a plain identifier chosen by the host shell (for
//! example the child's process id); the shell keeps the killable process
//! object itself and maps the identifier back to it. The registry's view
//! is `Option<u64>`: `None` means no process is currently tracked.

use vstd::prelude::*;

verus! {

/// What a start request decides: either a process is already tracked and
/// nothing must be spawned, or the caller should spawn the sidecar.
#[derive(Clone, Copy, Debug, PartialEq, Eq, Structural)]
pub enum StartAction {
    AlreadyRunning,
    Spawn,
}

/// What a stop request decides: either no process was tracked, or the
/// caller must issue a kill request for the handle carried here.
#[derive(Clone, Copy, Debug, PartialEq, Eq, Structural)]
pub enum StopAction {
    NotRunning,
    Kill(u64),
}

/// The registry itself: a single optional handle slot. The host shell
/// guards it with a mutual-exclusion lock; each method below is one
/// check-and-set critical section.
pub struct Registry {
    child: Option<u64>,
}

impl View for Registry {
    type V = Option<u64>;

    closed spec fn view(&self) -> Option<u64> {
        self.child
    }
}

/// What a start request decides in a given registry state.
pub open spec fn start_decision(state: Option<u64>) -> StartAction {
    if state is Some {
        StartAction::AlreadyRunning
    } else {
        StartAction::Spawn
    }
}

/// The registry state after a whole start operation that would record the
/// freshly spawned handle, paired with whether a spawn happened at all.
pub open spec fn start_transition(state: Option<u64>, handle: u64) -> (Option<u64>, bool) {
    match start_decision(state) {
        StartAction::Spawn => (Some(handle), true),
        StartAction::AlreadyRunning => (state, false),
    }
}

/// The registry state after a stop request, paired with the action the
/// request decides: the handle is always released, and a kill request is
/// issued exactly when a handle was tracked.
pub open spec fn stop_transition(state: Option<u64>) -> (Option<u64>, StopAction) {
    match state {
        Some(handle) => (None, StopAction::Kill(handle)),
        None => (None, StopAction::NotRunning),
    }
}

impl Registry {
    /// A fresh registry tracks nothing.
    pub fn new() -> (registry: Registry)
        ensures
            registry@ is None,
    {
        Registry { child: None }
    }

    /// True exactly when a child handle is currently tracked.
    pub fn is_tracking(&self) -> (tracking: bool)
        ensures
            tracking == (self@ is Some),
    {
        self.child.is_some()
    }

    /// The check a start request makes: spawn only when nothing is tracked.
    pub fn start_action(&self) -> (action: StartAction)
        ensures
            action == start_decision(self@),
    {
        if self.child.is_some() {
            StartAction::AlreadyRunning
        } else {
            StartAction::Spawn
        }
    }

    /// Records the handle of a process the caller has just spawned.
    pub fn record_spawn(&mut self, handle: u64)
        ensures
            final(self)@ == Some(handle),
    {
        self.child = Some(handle);
    }

    /// The check-and-take a stop request makes: the slot is emptied
    /// atomically with the decision, so a repeated stop finds nothing.
    pub fn stop_action(&mut self) -> (action: StopAction)
        ensures
            final(self)@ == stop_transition(old(self)@).0,
            action == stop_transition(old(self)@).1,
    {
        match self.child.take() {
            Some(handle) => StopAction::Kill(handle),
            None => StopAction::NotRunning,
        }
    }

    /// Clears the slot; the output monitor calls this when it observes the
    /// process terminate, so the registry never keeps tracking a process
    /// that is gone.
    pub fn clear(&mut self)
        ensures
            final(self)@ is None,
    {
        self.child = None;
    }
}

} // verus!
