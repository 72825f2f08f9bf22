use backend_supervisor::lifecycle::Event;
use backend_supervisor::lifecycle::Phase;
use backend_supervisor::lifecycle::StartupAction;
use backend_supervisor::lifecycle::startup_step;
use backend_supervisor::readiness::ReadinessResult;

#[test]
fn start_signal_spawns_exactly_once() {
    let (phase, action) = startup_step(&Phase::Idle, &Event::StartRequested);
    assert_eq!(phase, Phase::Launching);
    assert_eq!(action, StartupAction::Spawn);

    let (phase2, action2) = startup_step(&phase, &Event::StartRequested);
    assert_eq!(phase2, Phase::Launching);
    assert_eq!(action2, StartupAction::Ignore);
}

#[test]
fn launch_result_decides_between_probing_and_halt() {
    let (phase, action) = startup_step(&Phase::Launching, &Event::LaunchSucceeded { pid: 55 });
    assert_eq!(phase, Phase::Probing { attempts_done: 0 });
    assert_eq!(action, StartupAction::StoreAndProbe { pid: 55 });

    let (failed_phase, failed_action) = startup_step(
        &Phase::Launching,
        &Event::LaunchFailed { message: String::from("permission denied") },
    );
    assert_eq!(failed_phase, Phase::Halted);
    assert_eq!(failed_action, StartupAction::ReportLaunchFailure);
}

#[test]
fn ready_probe_halts_with_a_success_report() {
    let (phase, action) = startup_step(
        &Phase::Probing { attempts_done: 0 },
        &Event::ProbeCompleted { outcome: ReadinessResult::Ready },
    );
    assert_eq!(phase, Phase::Halted);
    assert_eq!(action, StartupAction::ReportReady);
}

#[test]
fn failed_probe_within_budget_delays_and_probes_again() {
    let (phase, action) = startup_step(
        &Phase::Probing { attempts_done: 0 },
        &Event::ProbeCompleted { outcome: ReadinessResult::NotReady { status: 503 } },
    );
    assert_eq!(phase, Phase::Probing { attempts_done: 1 });
    assert_eq!(action, StartupAction::DelayAndProbe);

    let (late_phase, late_action) = startup_step(
        &Phase::Probing { attempts_done: 28 },
        &Event::ProbeCompleted {
            outcome: ReadinessResult::TransportError { reason: String::from("timeout") },
        },
    );
    assert_eq!(late_phase, Phase::Probing { attempts_done: 29 });
    assert_eq!(late_action, StartupAction::DelayAndProbe);
}

#[test]
fn thirtieth_failed_probe_halts_with_a_timeout_report() {
    let (phase, action) = startup_step(
        &Phase::Probing { attempts_done: 29 },
        &Event::ProbeCompleted { outcome: ReadinessResult::NotReady { status: 500 } },
    );
    assert_eq!(phase, Phase::Halted);
    assert_eq!(action, StartupAction::ReportTimeout);
}

#[test]
fn a_whole_run_issues_one_spawn_action() {
    let mut events = vec![
        Event::ProbeCompleted { outcome: ReadinessResult::NotReady { status: 503 } },
        Event::StartRequested,
        Event::LaunchSucceeded { pid: 8 },
    ];
    for _ in 0..40 {
        events.push(Event::ProbeCompleted {
            outcome: ReadinessResult::NotReady { status: 503 },
        });
    }
    events.push(Event::StartRequested);

    let mut phase = Phase::Idle;
    let mut spawns = 0;
    for event in &events {
        let (next, action) = startup_step(&phase, event);
        if action == StartupAction::Spawn {
            spawns += 1;
        }
        phase = next;
    }
    assert_eq!(spawns, 1);
    assert_eq!(phase, Phase::Halted);
}
