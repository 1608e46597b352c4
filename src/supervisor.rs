use vstd::prelude::*;
use crate::text::{decimal_spec, decimal_text};

verus! {

/// The environment variable through which the backend learns its parent's
/// process id, so that it can exit once that process is gone.
pub const PARENT_PID_VAR: &'static str = "TAURI_PARENT_PID";

/// The value handed to the backend under `PARENT_PID_VAR`.
pub fn parent_pid_value(pid: u32) -> (r: String)
    ensures
        r@ == decimal_spec(pid as nat),
{
    decimal_text(pid as u64)
}

/// The life of the one backend process of a run.
#[derive(Clone, Copy, Debug, PartialEq, Eq, Structural)]
pub enum ChildState {
    Running,
    /// The backend exited by itself and was waited on.
    Exited,
    /// The backend was terminated at shutdown.
    Terminated,
}

/// Guards the backend's handle: of the reader that waits for the backend to
/// exit and the shutdown handler that terminates it, only the first to claim
/// the handle acts on it.
pub struct ChildSlot {
    state: ChildState,
}

impl ChildSlot {
    pub closed spec fn state_spec(&self) -> ChildState {
        self.state
    }

    pub fn new() -> (r: ChildSlot)
        ensures
            r.state_spec() == ChildState::Running,
    {
        ChildSlot { state: ChildState::Running }
    }

    pub fn state(&self) -> (r: ChildState)
        ensures
            r == self.state_spec(),
    {
        self.state
    }

    /// Claims the handle for termination at shutdown; true where the caller
    /// is to kill and wait on the backend.
    pub fn claim_for_shutdown(&mut self) -> (r: bool)
        ensures
            r == (old(self).state_spec() == ChildState::Running),
            final(self).state_spec() == if r {
                ChildState::Terminated
            } else {
                old(self).state_spec()
            },
    {
        if self.state == ChildState::Running {
            self.state = ChildState::Terminated;
            true
        } else {
            false
        }
    }

    /// Claims the handle for waiting on a backend whose output has ended;
    /// true where the caller is to wait on it.
    pub fn claim_for_exit(&mut self) -> (r: bool)
        ensures
            r == (old(self).state_spec() == ChildState::Running),
            final(self).state_spec() == if r {
                ChildState::Exited
            } else {
                old(self).state_spec()
            },
    {
        if self.state == ChildState::Running {
            self.state = ChildState::Exited;
            true
        } else {
            false
        }
    }
}

/// What a launch of the application does first.
#[derive(Clone, Copy, Debug, PartialEq, Eq, Structural)]
pub enum LaunchDecision {
    /// Install and start the backend, then show the frontend.
    Start,
    /// Bring the running instance's window forward and exit, touching
    /// neither the install nor any process.
    FocusExisting,
}

pub open spec fn launch_decision_spec(single_instance: bool, instance_running: bool) -> LaunchDecision {
    if single_instance && instance_running {
        LaunchDecision::FocusExisting
    } else {
        LaunchDecision::Start
    }
}

/// The decision for a launch, given the single-instance setting and whether
/// another instance of the application is already running.
pub fn launch_decision(single_instance: bool, instance_running: bool) -> (r: LaunchDecision)
    ensures
        r == launch_decision_spec(single_instance, instance_running),
{
    if single_instance && instance_running {
        LaunchDecision::FocusExisting
    } else {
        LaunchDecision::Start
    }
}

} // verus!
