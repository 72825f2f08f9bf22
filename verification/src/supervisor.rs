//! The supervisor's shared state and its startup and shutdown sequences.
//!
//! The supervisor owns a single mutually-exclusive slot holding the handle of
//! the launched backend. The startup sequence launches the backend, stores
//! the handle and drives the readiness loop; the shutdown sequence takes the
//! handle out and requests termination of the process. Both are decision
//! logic only: the host performs the spawn, the probes and the kill.

use crate::launcher::LaunchError;
use crate::readiness::MAX_ATTEMPTS;
use crate::readiness::ReadinessResult;
use crate::readiness::any_ready;
use crate::readiness::no_ready_before;
use crate::readiness::run_readiness;
use vstd::prelude::*;

verus! {

/// Reference to the spawned backend OS process, as the supervisor tracks it.
#[derive(Clone, Copy, PartialEq, Eq, Structural, Debug)]
pub struct ProcessHandle {
    pub pid: u32,
}

/// The supervisor's single mutually-exclusive slot: at most one live backend
/// handle is tracked at any time; `None` means no backend is tracked.
pub struct SupervisorState {
    slot: Option<ProcessHandle>,
}

impl View for SupervisorState {
    type V = Option<u32>;

    closed spec fn view(&self) -> Option<u32> {
        match self.slot {
            Some(h) => Some(h.pid),
            None => None,
        }
    }
}

impl SupervisorState {
    /// A fresh supervisor tracks no backend.
    pub fn new() -> (s: Self)
        ensures
            s@ is None,
    {
        SupervisorState { slot: None }
    }

    /// Stores the handle of a freshly launched backend in the empty slot.
    pub fn store(&mut self, h: ProcessHandle)
        requires
            old(self)@ is None,
        ensures
            final(self)@ == Some(h.pid),
    {
        self.slot = Some(h);
    }

    /// Takes the tracked handle out, leaving the slot empty.
    pub fn take(&mut self) -> (r: Option<ProcessHandle>)
        ensures
            final(self)@ is None,
            old(self)@ matches Some(p) ==> r == Some(ProcessHandle { pid: p }),
            old(self)@ is None ==> r is None,
    {
        self.slot.take()
    }

    /// Whether a backend handle is currently tracked.
    pub fn has_handle(&self) -> (b: bool)
        ensures
            b == (self@ is Some),
    {
        self.slot.is_some()
    }

    /// The process identifier of the tracked backend, if any.
    pub fn tracked_pid(&self) -> (r: Option<u32>)
        ensures
            r == self@,
    {
        match &self.slot {
            Some(h) => Some(h.pid),
            None => None,
        }
    }
}

/// OS-level action the shutdown sequence requests from the host: terminate
/// the process with the given identifier and reap it, or nothing at all.
#[derive(Clone, Copy, PartialEq, Eq, Structural, Debug)]
pub enum ShutdownAction {
    Terminate { pid: u32 },
    NoAction,
}

/// The action a shutdown requests for a given slot content: termination of
/// the tracked process when one is present, nothing otherwise.
pub open spec fn spec_shutdown_action(slot: Option<u32>) -> ShutdownAction {
    match slot {
        Some(p) => ShutdownAction::Terminate { pid: p },
        None => ShutdownAction::NoAction,
    }
}

/// The slot content a shutdown leaves behind: always empty.
pub open spec fn spec_shutdown_slot(slot: Option<u32>) -> Option<u32> {
    None
}

/// Shutdown sequence: empties the slot and requests termination of the
/// tracked backend if and only if one was present. A shutdown that finds the
/// slot empty requests no OS-level action.
pub fn shutdown(state: &mut SupervisorState) -> (a: ShutdownAction)
    ensures
        final(state)@ == spec_shutdown_slot(old(state)@),
        a == spec_shutdown_action(old(state)@),
{
    match state.take() {
        Some(h) => ShutdownAction::Terminate { pid: h.pid },
        None => ShutdownAction::NoAction,
    }
}

/// Shutdown is idempotent: whatever the slot held, a shutdown leaves it
/// empty, and a second shutdown on what the first left behind requests no
/// OS-level action and leaves the slot empty again.
pub proof fn law_shutdown_idempotent(slot: Option<u32>)
    ensures
        spec_shutdown_slot(slot) is None,
        spec_shutdown_action(spec_shutdown_slot(slot)) == ShutdownAction::NoAction,
        spec_shutdown_slot(spec_shutdown_slot(slot)) == spec_shutdown_slot(slot),
{
}

/// Follow-up the shutdown sequence owes after a termination request: reap the
/// terminated process on success; on failure report the error and do not
/// wait.
#[derive(Clone, PartialEq, Eq, Debug)]
pub enum TerminationStep {
    Reap,
    Report { message: String },
}

/// Decides what shutdown does after the kill request: a successful request
/// is followed by reaping the process; a failed one only by a report.
pub fn classify_termination(kill_result: Result<(), String>) -> (s: TerminationStep)
    ensures
        kill_result is Ok ==> s == TerminationStep::Reap,
        kill_result matches Err(e) ==> s == (TerminationStep::Report { message: e }),
{
    match kill_result {
        Ok(_) => TerminationStep::Reap,
        Err(e) => TerminationStep::Report { message: e },
    }
}

/// Operator-visible outcome of one startup sequence invocation.
#[derive(Clone, PartialEq, Eq, Debug)]
pub enum StartupReport {
    LaunchFailure { message: String },
    Ready { attempts: u32 },
    ReadinessTimeout { attempts: u32 },
}

/// Runs the startup sequence against the given collaborator outcomes: the
/// result of the single launch attempt and, per probe attempt, the classified
/// answer of the health endpoint. On launch failure nothing is stored and no
/// probe is attempted; on launch success the handle is stored — and stays
/// stored whether or not the backend ever becomes ready.
pub fn run_startup(
    state: &mut SupervisorState,
    launch_result: Result<ProcessHandle, LaunchError>,
    probe_outcomes: &Vec<ReadinessResult>,
) -> (r: StartupReport)
    requires
        old(state)@ is None,
        probe_outcomes@.len() >= MAX_ATTEMPTS,
    ensures
        launch_result matches Err(e) ==> final(state)@ is None && r == (StartupReport::LaunchFailure {
            message: e.message,
        }),
        launch_result matches Ok(h) ==> final(state)@ == Some(h.pid),
        launch_result is Ok && any_ready(probe_outcomes@) ==> (r matches StartupReport::Ready {
            attempts,
        } && 1 <= attempts <= MAX_ATTEMPTS && probe_outcomes@[attempts - 1] is Ready
            && no_ready_before(probe_outcomes@, attempts - 1)),
        launch_result is Ok && !any_ready(probe_outcomes@) ==> r
            == (StartupReport::ReadinessTimeout { attempts: MAX_ATTEMPTS }),
{
    match launch_result {
        Err(e) => StartupReport::LaunchFailure { message: e.message },
        Ok(h) => {
            state.store(h);
            let report = run_readiness(probe_outcomes);
            if report.ready {
                StartupReport::Ready { attempts: report.attempts }
            } else {
                StartupReport::ReadinessTimeout { attempts: report.attempts }
            }
        },
    }
}

} // verus!
