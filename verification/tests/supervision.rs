use backend_supervisor::launcher::LaunchError;
use backend_supervisor::readiness::ReadinessResult;
use backend_supervisor::supervisor::ProcessHandle;
use backend_supervisor::supervisor::ShutdownAction;
use backend_supervisor::supervisor::StartupReport;
use backend_supervisor::supervisor::SupervisorState;
use backend_supervisor::supervisor::TerminationStep;
use backend_supervisor::supervisor::classify_termination;
use backend_supervisor::supervisor::run_startup;
use backend_supervisor::supervisor::shutdown;

fn never_ready() -> Vec<ReadinessResult> {
    let mut v = Vec::new();
    for _ in 0..30 {
        v.push(ReadinessResult::TransportError { reason: String::from("connection refused") });
    }
    v
}

fn ready_on_attempt(k: u32) -> Vec<ReadinessResult> {
    let mut v = never_ready();
    v[(k - 1) as usize] = ReadinessResult::Ready;
    v
}

#[test]
fn fresh_supervisor_tracks_nothing() {
    let state = SupervisorState::new();
    assert!(!state.has_handle());
    assert_eq!(state.tracked_pid(), None);
}

#[test]
fn store_and_take_move_one_handle_through_the_slot() {
    let mut state = SupervisorState::new();
    state.store(ProcessHandle { pid: 4242 });
    assert!(state.has_handle());
    assert_eq!(state.tracked_pid(), Some(4242));

    let taken = state.take();
    assert_eq!(taken, Some(ProcessHandle { pid: 4242 }));
    assert!(!state.has_handle());
    assert_eq!(state.take(), None);
}

#[test]
fn shutdown_with_handle_requests_termination_and_empties_the_slot() {
    let mut state = SupervisorState::new();
    state.store(ProcessHandle { pid: 77 });
    let action = shutdown(&mut state);
    assert_eq!(action, ShutdownAction::Terminate { pid: 77 });
    assert!(!state.has_handle());
}

#[test]
fn shutdown_without_handle_is_a_no_op_and_idempotent() {
    let mut state = SupervisorState::new();
    assert_eq!(shutdown(&mut state), ShutdownAction::NoAction);

    state.store(ProcessHandle { pid: 9 });
    assert_eq!(shutdown(&mut state), ShutdownAction::Terminate { pid: 9 });
    assert_eq!(shutdown(&mut state), ShutdownAction::NoAction);
    assert_eq!(shutdown(&mut state), ShutdownAction::NoAction);
}

#[test]
fn successful_kill_is_followed_by_reaping() {
    assert_eq!(classify_termination(Ok(())), TerminationStep::Reap);
}

#[test]
fn failed_kill_is_reported_and_not_waited_for() {
    assert_eq!(
        classify_termination(Err(String::from("no such process"))),
        TerminationStep::Report { message: String::from("no such process") }
    );
}

#[test]
fn failed_launch_reports_and_leaves_no_handle() {
    let mut state = SupervisorState::new();
    let report = run_startup(
        &mut state,
        Err(LaunchError { message: String::from("executable not found") }),
        &never_ready(),
    );
    assert_eq!(
        report,
        StartupReport::LaunchFailure { message: String::from("executable not found") }
    );
    assert!(!state.has_handle());
    assert_eq!(shutdown(&mut state), ShutdownAction::NoAction);
}

#[test]
fn successful_launch_stores_handle_and_reports_readiness() {
    let mut state = SupervisorState::new();
    let report = run_startup(
        &mut state,
        Ok(ProcessHandle { pid: 123 }),
        &ready_on_attempt(3),
    );
    assert_eq!(report, StartupReport::Ready { attempts: 3 });
    assert_eq!(state.tracked_pid(), Some(123));
}

#[test]
fn readiness_timeout_keeps_the_handle_stored() {
    let mut state = SupervisorState::new();
    let report = run_startup(&mut state, Ok(ProcessHandle { pid: 123 }), &never_ready());
    assert_eq!(report, StartupReport::ReadinessTimeout { attempts: 30 });
    assert_eq!(state.tracked_pid(), Some(123));
    assert_eq!(shutdown(&mut state), ShutdownAction::Terminate { pid: 123 });
}
