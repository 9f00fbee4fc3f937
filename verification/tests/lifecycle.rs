use sidecar_lifecycle::coordinator::{
    Coordinator, LifecycleAction, LifecycleEvent, Phase, StartupError,
};

#[test]
fn production_happy_path() {
    let mut c = Coordinator::new_production();
    assert_eq!(c.initial_action(), LifecycleAction::NegotiatePort);
    assert_eq!(
        c.step(LifecycleEvent::PortChosen { port: 4000 }),
        LifecycleAction::SpawnSidecar { port: 4000 }
    );
    assert_eq!(
        c.step(LifecycleEvent::SpawnSucceeded),
        LifecycleAction::ProbeReadiness { port: 4000 }
    );
    assert_eq!(
        c.step(LifecycleEvent::BecameReady),
        LifecycleAction::CreateWindow { port: 4000 }
    );
    assert_eq!(c.step(LifecycleEvent::WindowCreated), LifecycleAction::Idle);
    assert_eq!(c.phase, Phase::Running { port: 4000 });
}

#[test]
fn every_shutdown_trigger_routes_to_the_same_shutdown() {
    for trigger in [
        LifecycleEvent::QuitRequested,
        LifecycleEvent::CloseRequested,
        LifecycleEvent::ExitRequested,
    ] {
        let mut c = Coordinator::new_production();
        c.step(LifecycleEvent::PortChosen { port: 3000 });
        c.step(LifecycleEvent::SpawnSucceeded);
        c.step(LifecycleEvent::BecameReady);
        c.step(LifecycleEvent::WindowCreated);
        assert_eq!(c.step(trigger), LifecycleAction::RunShutdown);
        assert_eq!(c.phase, Phase::ShuttingDown { failure: None });
        assert_eq!(
            c.step(LifecycleEvent::ShutdownFinished),
            LifecycleAction::Exit { code: 0 }
        );
        assert_eq!(c.phase, Phase::Terminated { exit_code: 0 });
    }
}

#[test]
fn concurrent_triggers_rerun_only_the_idempotent_call() {
    let mut c = Coordinator::new_production();
    c.step(LifecycleEvent::PortChosen { port: 3000 });
    c.step(LifecycleEvent::SpawnSucceeded);
    c.step(LifecycleEvent::BecameReady);
    assert_eq!(c.step(LifecycleEvent::CloseRequested), LifecycleAction::RunShutdown);
    // A second and third trigger while shutdown runs: the same no-op call.
    assert_eq!(c.step(LifecycleEvent::QuitRequested), LifecycleAction::RunShutdown);
    assert_eq!(c.step(LifecycleEvent::ExitRequested), LifecycleAction::RunShutdown);
    assert_eq!(c.phase, Phase::ShuttingDown { failure: None });
}

#[test]
fn negotiation_failure_aborts_startup() {
    let mut c = Coordinator::new_production();
    assert_eq!(c.step(LifecycleEvent::NegotiationFailed), LifecycleAction::RunShutdown);
    assert_eq!(
        c.step(LifecycleEvent::ShutdownFinished),
        LifecycleAction::ReportFailure { error: StartupError::Negotiation }
    );
    assert_eq!(c.phase, Phase::Terminated { exit_code: 1 });
}

#[test]
fn spawn_failure_aborts_startup() {
    let mut c = Coordinator::new_production();
    c.step(LifecycleEvent::PortChosen { port: 5173 });
    assert_eq!(c.step(LifecycleEvent::SpawnFailed), LifecycleAction::RunShutdown);
    assert_eq!(
        c.step(LifecycleEvent::ShutdownFinished),
        LifecycleAction::ReportFailure { error: StartupError::Spawn }
    );
    assert_eq!(c.phase, Phase::Terminated { exit_code: 1 });
}

#[test]
fn readiness_timeout_shuts_the_unresponsive_sidecar_down() {
    let mut c = Coordinator::new_production();
    c.step(LifecycleEvent::PortChosen { port: 4000 });
    c.step(LifecycleEvent::SpawnSucceeded);
    assert_eq!(c.step(LifecycleEvent::ReadyTimedOut), LifecycleAction::RunShutdown);
    assert_eq!(
        c.step(LifecycleEvent::ShutdownFinished),
        LifecycleAction::ReportFailure { error: StartupError::ReadinessTimeout }
    );
    assert_eq!(c.phase, Phase::Terminated { exit_code: 1 });
}

#[test]
fn window_failure_after_healthy_sidecar_shuts_down() {
    let mut c = Coordinator::new_production();
    c.step(LifecycleEvent::PortChosen { port: 4000 });
    c.step(LifecycleEvent::SpawnSucceeded);
    c.step(LifecycleEvent::BecameReady);
    assert_eq!(c.step(LifecycleEvent::WindowFailed), LifecycleAction::RunShutdown);
    assert_eq!(
        c.step(LifecycleEvent::ShutdownFinished),
        LifecycleAction::ReportFailure { error: StartupError::WindowCreation }
    );
    assert_eq!(c.phase, Phase::Terminated { exit_code: 1 });
}

#[test]
fn dev_mode_goes_straight_to_the_window() {
    let c = Coordinator::new_dev(4000);
    assert_eq!(c.initial_action(), LifecycleAction::CreateWindow { port: 4000 });
    assert_eq!(c.phase, Phase::Running { port: 4000 });
}

#[test]
fn dev_mode_never_asks_for_negotiation_spawn_or_shutdown() {
    let events = [
        LifecycleEvent::WindowCreated,
        LifecycleEvent::WindowFailed,
        LifecycleEvent::QuitRequested,
        LifecycleEvent::CloseRequested,
        LifecycleEvent::ExitRequested,
        LifecycleEvent::BecameReady,
        LifecycleEvent::ShutdownFinished,
    ];
    for ev in events {
        let mut c = Coordinator::new_dev(5000);
        let action = c.step(ev);
        let touches_sidecar = matches!(
            action,
            LifecycleAction::NegotiatePort
                | LifecycleAction::SpawnSidecar { .. }
                | LifecycleAction::RunShutdown
        );
        assert!(!touches_sidecar);
    }
}

#[test]
fn dev_mode_quit_exits_plainly() {
    let mut c = Coordinator::new_dev(4000);
    assert_eq!(c.step(LifecycleEvent::QuitRequested), LifecycleAction::Exit { code: 0 });
    assert_eq!(c.phase, Phase::Terminated { exit_code: 0 });
}

#[test]
fn dev_mode_window_failure_exits_nonzero() {
    let mut c = Coordinator::new_dev(4000);
    assert_eq!(c.step(LifecycleEvent::WindowFailed), LifecycleAction::Exit { code: 1 });
    assert_eq!(c.phase, Phase::Terminated { exit_code: 1 });
}

#[test]
fn terminated_is_absorbing() {
    let mut c = Coordinator::new_production();
    c.step(LifecycleEvent::QuitRequested);
    c.step(LifecycleEvent::ShutdownFinished);
    assert_eq!(c.phase, Phase::Terminated { exit_code: 0 });
    assert_eq!(c.step(LifecycleEvent::CloseRequested), LifecycleAction::Idle);
    assert_eq!(c.step(LifecycleEvent::PortChosen { port: 1 }), LifecycleAction::Idle);
    assert_eq!(c.phase, Phase::Terminated { exit_code: 0 });
}
