//! The startup task as a step-wise state machine.
//!
//! The host's event loop owns the clock and the I/O: it delivers one event at
//! a time (the start signal, the launch result, each classified probe) and
//! performs the single action the machine asks for in return. The machine
//! itself decides everything, and the decisive guarantee is proved over whole
//! event sequences: one startup run issues exactly one spawn — a launch is
//! attempted once and never implicitly retried.

use crate::readiness::MAX_ATTEMPTS;
use crate::readiness::ReadinessResult;
use crate::readiness::spec_loop_decision;
use vstd::prelude::*;

verus! {

/// Phase of the startup task, from the supervisor's viewpoint.
#[derive(Clone, Copy, PartialEq, Eq, Structural, Debug)]
pub enum Phase {
    /// No launch has been requested yet.
    Idle,
    /// The spawn was requested; its result has not arrived.
    Launching,
    /// The backend is running and being probed; `attempts_done` probes have
    /// completed so far.
    Probing { attempts_done: u32 },
    /// The startup sequence is over, successfully or not.
    Halted,
}

/// Event delivered to the startup task by the host.
#[derive(Clone, PartialEq, Eq, Debug)]
pub enum Event {
    /// The application has started and wants the backend up.
    StartRequested,
    /// The spawn succeeded and produced this process identifier.
    LaunchSucceeded { pid: u32 },
    /// The spawn failed with this OS error text.
    LaunchFailed { message: String },
    /// One health probe completed with this classified outcome.
    ProbeCompleted { outcome: ReadinessResult },
}

/// Action the host must perform after a step.
#[derive(Clone, Copy, PartialEq, Eq, Structural, Debug)]
pub enum StartupAction {
    /// Spawn the backend process from the launch plan.
    Spawn,
    /// Store the handle in the supervisor slot, then issue the first probe.
    StoreAndProbe { pid: u32 },
    /// Wait the fixed delay, then issue the next probe.
    DelayAndProbe,
    /// Report the launch failure to the operator.
    ReportLaunchFailure,
    /// Report that the backend is ready.
    ReportReady,
    /// Report that the readiness budget is exhausted.
    ReportTimeout,
    /// The event does not concern the current phase; do nothing.
    Ignore,
}

/// Phase reached after delivering one event.
pub open spec fn spec_next_phase(p: Phase, e: Event) -> Phase {
    match (p, e) {
        (Phase::Idle, Event::StartRequested) => Phase::Launching,
        (Phase::Launching, Event::LaunchSucceeded { .. }) => Phase::Probing { attempts_done: 0 },
        (Phase::Launching, Event::LaunchFailed { .. }) => Phase::Halted,
        (Phase::Probing { attempts_done }, Event::ProbeCompleted { outcome }) => {
            if outcome is Ready {
                Phase::Halted
            } else if attempts_done + 1 >= MAX_ATTEMPTS {
                Phase::Halted
            } else {
                Phase::Probing { attempts_done: (attempts_done + 1) as u32 }
            }
        },
        _ => p,
    }
}

/// Action requested by delivering one event.
pub open spec fn spec_action(p: Phase, e: Event) -> StartupAction {
    match (p, e) {
        (Phase::Idle, Event::StartRequested) => StartupAction::Spawn,
        (Phase::Launching, Event::LaunchSucceeded { pid }) => StartupAction::StoreAndProbe { pid },
        (Phase::Launching, Event::LaunchFailed { .. }) => StartupAction::ReportLaunchFailure,
        (Phase::Probing { attempts_done }, Event::ProbeCompleted { outcome }) => {
            if outcome is Ready {
                StartupAction::ReportReady
            } else if attempts_done + 1 >= MAX_ATTEMPTS {
                StartupAction::ReportTimeout
            } else {
                StartupAction::DelayAndProbe
            }
        },
        _ => StartupAction::Ignore,
    }
}

/// Performs one step of the startup task: the phase it moves to and the
/// action the host must perform next.
pub fn startup_step(p: &Phase, e: &Event) -> (r: (Phase, StartupAction))
    ensures
        r.0 == spec_next_phase(*p, *e),
        r.1 == spec_action(*p, *e),
{
    match (p, e) {
        (Phase::Idle, Event::StartRequested) => (Phase::Launching, StartupAction::Spawn),
        (Phase::Launching, Event::LaunchSucceeded { pid }) => (
            Phase::Probing { attempts_done: 0 },
            StartupAction::StoreAndProbe { pid: *pid },
        ),
        (Phase::Launching, Event::LaunchFailed { .. }) => (
            Phase::Halted,
            StartupAction::ReportLaunchFailure,
        ),
        (Phase::Probing { attempts_done }, Event::ProbeCompleted { outcome }) => {
            if matches!(outcome, ReadinessResult::Ready) {
                (Phase::Halted, StartupAction::ReportReady)
            } else if *attempts_done >= MAX_ATTEMPTS - 1 {
                (Phase::Halted, StartupAction::ReportTimeout)
            } else {
                (
                    Phase::Probing { attempts_done: *attempts_done + 1 },
                    StartupAction::DelayAndProbe,
                )
            }
        },
        _ => (*p, StartupAction::Ignore),
    }
}

/// A phase is well formed when its probe counter stays within the attempt
/// budget.
pub open spec fn phase_wf(p: Phase) -> bool {
    p matches Phase::Probing { attempts_done } ==> attempts_done < MAX_ATTEMPTS
}

/// Every step keeps the probe counter within the attempt budget: the machine
/// halts rather than probe past the last attempt.
pub proof fn lemma_step_preserves_wf(p: Phase, e: Event)
    requires
        phase_wf(p),
    ensures
        phase_wf(spec_next_phase(p, e)),
{
}

/// The machine handles a probe exactly as the readiness loop decides: for
/// the probe completing attempt `attempts_done + 1`, it reports ready,
/// reports a timeout, or delays and probes again precisely when the loop's
/// decision is to report ready, report a timeout, or retry.
pub proof fn lemma_machine_agrees_with_loop_decision(attempts_done: u32, outcome: ReadinessResult)
    requires
        attempts_done < MAX_ATTEMPTS,
    ensures
        ({
            let a = spec_action(
                Phase::Probing { attempts_done },
                Event::ProbeCompleted { outcome },
            );
            let d = spec_loop_decision((attempts_done + 1) as u32, outcome);
            &&& (a is ReportReady <==> d is ReportReady)
            &&& (a is ReportTimeout <==> d is ReportTimeout)
            &&& (a is DelayAndProbe <==> d is Retry)
        }),
{
}

/// Phase reached from `p` after delivering every event of `events` in order.
pub open spec fn run_phase(p: Phase, events: Seq<Event>) -> Phase
    decreases events.len(),
{
    if events.len() == 0 {
        p
    } else {
        run_phase(spec_next_phase(p, events[0]), events.drop_first())
    }
}

/// Number of spawn actions issued while delivering `events` from `p`.
pub open spec fn spawn_count(p: Phase, events: Seq<Event>) -> nat
    decreases events.len(),
{
    if events.len() == 0 {
        0
    } else {
        (if spec_action(p, events[0]) is Spawn {
            1nat
        } else {
            0nat
        }) + spawn_count(spec_next_phase(p, events[0]), events.drop_first())
    }
}

/// Whether some event of the sequence is the start signal.
pub open spec fn contains_start(events: Seq<Event>) -> bool {
    exists|i: int| 0 <= i < events.len() && events[i] == Event::StartRequested
}

/// Once the idle phase is left it is never re-entered, and no phase but idle
/// ever issues a spawn: no event sequence makes a started task spawn again.
pub proof fn lemma_no_spawn_after_idle(p: Phase, events: Seq<Event>)
    requires
        p !is Idle,
    ensures
        spawn_count(p, events) == 0,
        run_phase(p, events) !is Idle,
    decreases events.len(),
{
    if events.len() > 0 {
        lemma_no_spawn_after_idle(spec_next_phase(p, events[0]), events.drop_first());
    }
}

/// Exactly one spawn per startup run: delivering any event sequence to a task
/// in the idle phase issues one spawn action when the sequence carries a
/// start signal, and none when it does not — there is no implicit launch
/// retry.
pub proof fn law_exactly_one_spawn(events: Seq<Event>)
    ensures
        spawn_count(Phase::Idle, events) == (if contains_start(events) {
            1nat
        } else {
            0nat
        }),
    decreases events.len(),
{
    if events.len() > 0 {
        let rest = events.drop_first();
        if events[0] == Event::StartRequested {
            lemma_no_spawn_after_idle(Phase::Launching, rest);
        } else {
            law_exactly_one_spawn(rest);
            if contains_start(events) {
                let i = choose|i: int|
                    0 <= i < events.len() && events[i] == Event::StartRequested;
                assert(rest[i - 1] == events[i]);
                assert(contains_start(rest));
            }
            if contains_start(rest) {
                let j = choose|j: int| 0 <= j < rest.len() && rest[j] == Event::StartRequested;
                assert(events[j + 1] == rest[j]);
                assert(contains_start(events));
            }
        }
    }
}

} // verus!
