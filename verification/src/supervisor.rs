//! The lifecycle controller: owner of the single supervised process.
//!
//! The controller is a state machine `Unstarted -> Starting -> Running ->
//! Stopped`, with `Starting -> Failed` when both spawn attempts fail. The
//! host performs the spawn and the kill; the controller decides, records
//! the one held process handle, and guarantees that at most one handle is
//! ever held and that stopping is idempotent.

use vstd::prelude::*;

use crate::errors::SupervisionError;

verus! {

/// The identifying attributes of the one live backend process. The host
/// retains the OS handle and its captured output streams; the supervisor
/// tracks the process by these values.
#[derive(Clone, Copy, PartialEq, Eq, Structural, Debug)]
pub struct SupervisedProcess {
    /// OS process identifier.
    pub pid: u64,
    /// When the process was spawned, in milliseconds since the host's epoch.
    pub start_timestamp_millis: u64,
}

/// Where the lifecycle stands.
#[derive(Clone, Copy, PartialEq, Eq, Structural, Debug)]
pub enum SupervisorState {
    /// No start was requested yet.
    Unstarted,
    /// A start was requested; spawn attempts are under way.
    Starting,
    /// The backend is live and its handle is held.
    Running,
    /// The held process was terminated.
    Stopped,
    /// Both spawn attempts failed; nothing is held, the error is recorded.
    Failed,
}

/// A start request on a supervisor that is already starting or running is
/// refused, so the held handle can never be silently replaced.
#[derive(Clone, Copy, PartialEq, Eq, Structural, Debug)]
pub enum StartError {
    /// A start is under way or a process is already held.
    AlreadyActive,
}

/// What the host must do next after reporting a spawn attempt's outcome.
#[derive(Clone, Copy, PartialEq, Eq, Structural, Debug)]
pub enum LaunchStep {
    /// The attempt succeeded; the process is now held and supervised.
    Started,
    /// The attempt failed but the alternate interpreter invocation remains;
    /// the host should attempt that one fallback launch.
    RetryWithFallback,
    /// Every attempt failed; supervision gave up and recorded the error.
    Abandoned,
}

/// The lifecycle controller. It holds at most one live process handle at
/// any time, and holds one exactly when the state is `Running`.
pub struct Supervisor {
    state: SupervisorState,
    held: Option<SupervisedProcess>,
    failure: Option<SupervisionError>,
}

impl Supervisor {
    /// Where the lifecycle stands.
    pub closed spec fn state(self) -> SupervisorState {
        self.state
    }

    /// The held process handle, if any.
    pub closed spec fn held(self) -> Option<SupervisedProcess> {
        self.held
    }

    /// The recorded launch failure, if supervision gave up.
    pub closed spec fn failure(self) -> Option<SupervisionError> {
        self.failure
    }

    /// A handle is held exactly while the backend is running.
    pub open spec fn wf(self) -> bool {
        self.held() is Some <==> self.state() is Running
    }

    /// A fresh supervisor: nothing requested, nothing held.
    pub fn new() -> (s: Supervisor)
        ensures
            s.wf(),
            s.state() is Unstarted,
            s.held() is None,
            s.failure() is None,
    {
        Supervisor { state: SupervisorState::Unstarted, held: None, failure: None }
    }

    /// Request a start. Refused - deterministically, with nothing changed -
    /// while a start is under way or a process is held, so a second start
    /// can never leak the first handle.
    pub fn begin_start(&mut self) -> (r: Result<(), StartError>)
        requires
            old(self).wf(),
        ensures
            final(self).wf(),
            if old(self).state() is Starting || old(self).state() is Running {
                &&& r == Result::<(), StartError>::Err(StartError::AlreadyActive)
                &&& *final(self) == *old(self)
            } else {
                &&& r is Ok
                &&& final(self).state() is Starting
                &&& final(self).held() is None
                &&& final(self).failure() is None
            },
    {
        match self.state {
            SupervisorState::Starting | SupervisorState::Running => Err(StartError::AlreadyActive),
            _ => {
                self.state = SupervisorState::Starting;
                self.failure = None;
                Ok(())
            },
        }
    }

    /// Report the outcome of one spawn attempt. On success the process is
    /// held and the backend is running. On failure, either the one fallback
    /// launch with the alternate interpreter remains - then nothing changes
    /// and the host is told to attempt it - or supervision gives up,
    /// records the failure, and holds nothing.
    pub fn handle_attempt(
        &mut self,
        outcome: Result<SupervisedProcess, String>,
        fallback_remains: bool,
    ) -> (step: LaunchStep)
        requires
            old(self).wf(),
            old(self).state() is Starting,
        ensures
            final(self).wf(),
            match outcome {
                Ok(process) => {
                    &&& step is Started
                    &&& final(self).state() is Running
                    &&& final(self).held() == Some(process)
                    &&& final(self).failure() is None
                },
                Err(cause) => {
                    if fallback_remains {
                        &&& step is RetryWithFallback
                        &&& *final(self) == *old(self)
                    } else {
                        &&& step is Abandoned
                        &&& final(self).state() is Failed
                        &&& final(self).held() is None
                        &&& final(self).failure() == Some(
                            (SupervisionError::LaunchFailed { cause: cause }),
                        )
                    }
                },
            },
    {
        match outcome {
            Ok(process) => {
                self.state = SupervisorState::Running;
                self.held = Some(process);
                self.failure = None;
                LaunchStep::Started
            },
            Err(cause) => {
                if fallback_remains {
                    LaunchStep::RetryWithFallback
                } else {
                    self.state = SupervisorState::Failed;
                    self.held = None;
                    self.failure = Some(SupervisionError::LaunchFailed { cause });
                    LaunchStep::Abandoned
                }
            },
        }
    }

    /// Take the held process so the host can terminate it, and clear the
    /// held state. With no process held this is a no-op: it returns `None`
    /// and changes nothing, so stopping twice is the same as stopping once.
    pub fn stop(&mut self) -> (taken: Option<SupervisedProcess>)
        requires
            old(self).wf(),
        ensures
            final(self).wf(),
            taken == old(self).held(),
            final(self).held() is None,
            old(self).held() is Some ==> final(self).state() is Stopped
                && final(self).failure() == old(self).failure(),
            old(self).held() is None ==> *final(self) == *old(self),
    {
        let taken = self.held;
        if taken.is_some() {
            self.held = None;
            self.state = SupervisorState::Stopped;
        }
        taken
    }

    /// Where the lifecycle stands.
    pub fn current_state(&self) -> (s: SupervisorState)
        ensures
            s == self.state(),
    {
        self.state
    }

    /// The held process handle, if any.
    pub fn held_process(&self) -> (p: Option<SupervisedProcess>)
        ensures
            p == self.held(),
    {
        self.held
    }

    /// The recorded launch failure, if supervision gave up.
    pub fn recorded_failure(&self) -> (f: &Option<SupervisionError>)
        ensures
            *f == self.failure(),
    {
        &self.failure
    }
}

} // verus!
