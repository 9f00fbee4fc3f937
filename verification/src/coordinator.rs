//! Lifecycle coordination: negotiation, spawn, readiness, window, shutdown.
//!
//! The coordinator is a state machine. The embedding program feeds it every
//! event — a negotiated port, a spawn result, readiness, window creation,
//! and the three shutdown triggers (quit action, window close, application
//! exit) — and performs whatever action it decides next. Any failure during
//! startup routes through the supervisor's shutdown before the process
//! exits non-zero; all shutdown triggers route to the same idempotent
//! shutdown call.
//!
//! Development mode bypasses negotiation, spawn and readiness entirely: it
//! connects a window to an already-running server on the configured port
//! and owes that server nothing on exit.

use vstd::prelude::*;

verus! {

/// A fatal startup failure, shown to the user before the non-zero exit.
#[derive(Clone, Copy, PartialEq, Eq, Structural, Debug)]
pub enum StartupError {
    /// No usable port: even the ephemeral bind failed.
    Negotiation,
    /// The sidecar executable could not be launched.
    Spawn,
    /// The sidecar never became reachable within the bound.
    ReadinessTimeout,
    /// The window layer failed after a healthy sidecar.
    WindowCreation,
}

/// Where the lifecycle stands.
#[derive(Clone, Copy, PartialEq, Eq, Structural, Debug)]
pub enum Phase {
    /// Waiting for the port negotiation's outcome.
    Negotiating,
    /// Waiting for the spawn's outcome.
    Spawning { port: u16 },
    /// Waiting for the readiness probe's outcome.
    AwaitingReady { port: u16 },
    /// The sidecar is up; the window is being created or is showing.
    Running { port: u16 },
    /// The idempotent shutdown is in progress; a failure here means the
    /// startup failed and the exit will be non-zero.
    ShuttingDown { failure: Option<StartupError> },
    /// Shutdown work is done; the process exit proceeds.
    Terminated { exit_code: i32 },
}

/// What the embedding program reports to the coordinator.
#[derive(Clone, Copy, PartialEq, Eq, Structural, Debug)]
pub enum LifecycleEvent {
    /// Negotiation settled on this port.
    PortChosen { port: u16 },
    /// Negotiation failed: no usable port.
    NegotiationFailed,
    /// The sidecar process was spawned.
    SpawnSucceeded,
    /// The sidecar executable could not be launched.
    SpawnFailed,
    /// The readiness probe returned `Ready`.
    BecameReady,
    /// The readiness probe returned `TimedOut`.
    ReadyTimedOut,
    /// The main window is showing.
    WindowCreated,
    /// The window layer failed to create the window.
    WindowFailed,
    /// The quit menu action fired.
    QuitRequested,
    /// The window's close was requested.
    CloseRequested,
    /// The application's exit was requested.
    ExitRequested,
    /// The supervisor's shutdown call returned (or was a no-op).
    ShutdownFinished,
}

/// What the embedding program is to do next.
#[derive(Clone, Copy, PartialEq, Eq, Structural, Debug)]
pub enum LifecycleAction {
    /// Run the port negotiation.
    NegotiatePort,
    /// Spawn the sidecar for this port and record its handle.
    SpawnSidecar { port: u16 },
    /// Run the readiness probe against this port.
    ProbeReadiness { port: u16 },
    /// Create the main window pointed at this port.
    CreateWindow { port: u16 },
    /// Invoke the supervisor's idempotent shutdown, then report
    /// `ShutdownFinished`; safe even if nothing was spawned.
    RunShutdown,
    /// Present this failure to the user.
    ReportFailure { error: StartupError },
    /// Let the process exit with this status.
    Exit { code: i32 },
    /// Nothing to do.
    Idle,
}

/// Whether this event is one of the three shutdown trigger paths.
pub open spec fn is_shutdown_trigger(ev: LifecycleEvent) -> bool {
    ||| ev is QuitRequested
    ||| ev is CloseRequested
    ||| ev is ExitRequested
}

/// One step of the production lifecycle.
pub open spec fn production_step(phase: Phase, ev: LifecycleEvent) -> (Phase, LifecycleAction) {
    if is_shutdown_trigger(ev) {
        match phase {
            // A trigger during shutdown re-runs the idempotent no-op call.
            Phase::ShuttingDown { failure } => (
                Phase::ShuttingDown { failure },
                LifecycleAction::RunShutdown,
            ),
            Phase::Terminated { exit_code } => (
                Phase::Terminated { exit_code },
                LifecycleAction::Idle,
            ),
            _ => (Phase::ShuttingDown { failure: None }, LifecycleAction::RunShutdown),
        }
    } else {
        match phase {
            Phase::Negotiating => match ev {
                LifecycleEvent::PortChosen { port } => (
                    Phase::Spawning { port },
                    LifecycleAction::SpawnSidecar { port },
                ),
                LifecycleEvent::NegotiationFailed => (
                    Phase::ShuttingDown { failure: Some(StartupError::Negotiation) },
                    LifecycleAction::RunShutdown,
                ),
                _ => (phase, LifecycleAction::Idle),
            },
            Phase::Spawning { port } => match ev {
                LifecycleEvent::SpawnSucceeded => (
                    Phase::AwaitingReady { port },
                    LifecycleAction::ProbeReadiness { port },
                ),
                LifecycleEvent::SpawnFailed => (
                    Phase::ShuttingDown { failure: Some(StartupError::Spawn) },
                    LifecycleAction::RunShutdown,
                ),
                _ => (phase, LifecycleAction::Idle),
            },
            Phase::AwaitingReady { port } => match ev {
                LifecycleEvent::BecameReady => (
                    Phase::Running { port },
                    LifecycleAction::CreateWindow { port },
                ),
                LifecycleEvent::ReadyTimedOut => (
                    Phase::ShuttingDown { failure: Some(StartupError::ReadinessTimeout) },
                    LifecycleAction::RunShutdown,
                ),
                _ => (phase, LifecycleAction::Idle),
            },
            Phase::Running { port } => match ev {
                LifecycleEvent::WindowCreated => (phase, LifecycleAction::Idle),
                LifecycleEvent::WindowFailed => (
                    Phase::ShuttingDown { failure: Some(StartupError::WindowCreation) },
                    LifecycleAction::RunShutdown,
                ),
                _ => (phase, LifecycleAction::Idle),
            },
            Phase::ShuttingDown { failure } => match ev {
                LifecycleEvent::ShutdownFinished => match failure {
                    Some(error) => (
                        Phase::Terminated { exit_code: 1 },
                        LifecycleAction::ReportFailure { error },
                    ),
                    None => (Phase::Terminated { exit_code: 0 }, LifecycleAction::Exit { code: 0 }),
                },
                _ => (phase, LifecycleAction::Idle),
            },
            Phase::Terminated { .. } => (phase, LifecycleAction::Idle),
        }
    }
}

/// One step of the development-mode lifecycle: no negotiation, no spawn, no
/// supervisor — only the window against the configured port, and a plain
/// exit on any shutdown trigger.
pub open spec fn dev_step(phase: Phase, ev: LifecycleEvent) -> (Phase, LifecycleAction) {
    if is_shutdown_trigger(ev) {
        match phase {
            Phase::Terminated { exit_code } => (
                Phase::Terminated { exit_code },
                LifecycleAction::Idle,
            ),
            _ => (Phase::Terminated { exit_code: 0 }, LifecycleAction::Exit { code: 0 }),
        }
    } else {
        match phase {
            Phase::Running { port } => match ev {
                LifecycleEvent::WindowCreated => (phase, LifecycleAction::Idle),
                LifecycleEvent::WindowFailed => (
                    Phase::Terminated { exit_code: 1 },
                    LifecycleAction::Exit { code: 1 },
                ),
                _ => (phase, LifecycleAction::Idle),
            },
            _ => (phase, LifecycleAction::Idle),
        }
    }
}

/// The lifecycle coordinator: the mode it was started in and where it stands.
pub struct Coordinator {
    /// Development mode: connect to an already-running server, own nothing.
    pub dev: bool,
    /// Current phase.
    pub phase: Phase,
}

impl Coordinator {
    /// A production lifecycle, about to negotiate a port.
    pub fn new_production() -> (c: Coordinator)
        ensures
            !c.dev,
            c.phase == Phase::Negotiating,
    {
        Coordinator { dev: false, phase: Phase::Negotiating }
    }

    /// A development lifecycle against an already-running server on `port`.
    pub fn new_dev(port: u16) -> (c: Coordinator)
        ensures
            c.dev,
            c.phase == (Phase::Running { port }),
    {
        Coordinator { dev: true, phase: Phase::Running { port } }
    }

    /// The first action of the lifecycle: negotiation in production, the
    /// window straight away in development mode.
    pub fn initial_action(&self) -> (a: LifecycleAction)
        ensures
            !self.dev ==> a == LifecycleAction::NegotiatePort,
            self.dev ==> a == (match self.phase {
                Phase::Running { port } => LifecycleAction::CreateWindow { port },
                _ => LifecycleAction::Idle,
            }),
    {
        if self.dev {
            match self.phase {
                Phase::Running { port } => LifecycleAction::CreateWindow { port },
                _ => LifecycleAction::Idle,
            }
        } else {
            LifecycleAction::NegotiatePort
        }
    }

    /// Advances the lifecycle on one event and returns the next action.
    pub fn step(&mut self, ev: LifecycleEvent) -> (a: LifecycleAction)
        ensures
            final(self).dev == old(self).dev,
            (final(self).phase, a) == (if old(self).dev {
                dev_step(old(self).phase, ev)
            } else {
                production_step(old(self).phase, ev)
            }),
    {
        let (next, action) = if self.dev {
            step_dev_exec(self.phase, ev)
        } else {
            step_production_exec(self.phase, ev)
        };
        self.phase = next;
        action
    }
}

/// Executable mirror of `production_step`.
fn step_production_exec(phase: Phase, ev: LifecycleEvent) -> (r: (Phase, LifecycleAction))
    ensures
        r == production_step(phase, ev),
{
    let trigger = match ev {
        LifecycleEvent::QuitRequested
        | LifecycleEvent::CloseRequested
        | LifecycleEvent::ExitRequested => true,
        _ => false,
    };
    if trigger {
        match phase {
            Phase::ShuttingDown { failure } => (
                Phase::ShuttingDown { failure },
                LifecycleAction::RunShutdown,
            ),
            Phase::Terminated { exit_code } => (
                Phase::Terminated { exit_code },
                LifecycleAction::Idle,
            ),
            _ => (Phase::ShuttingDown { failure: None }, LifecycleAction::RunShutdown),
        }
    } else {
        match phase {
            Phase::Negotiating => match ev {
                LifecycleEvent::PortChosen { port } => (
                    Phase::Spawning { port },
                    LifecycleAction::SpawnSidecar { port },
                ),
                LifecycleEvent::NegotiationFailed => (
                    Phase::ShuttingDown { failure: Some(StartupError::Negotiation) },
                    LifecycleAction::RunShutdown,
                ),
                _ => (phase, LifecycleAction::Idle),
            },
            Phase::Spawning { port } => match ev {
                LifecycleEvent::SpawnSucceeded => (
                    Phase::AwaitingReady { port },
                    LifecycleAction::ProbeReadiness { port },
                ),
                LifecycleEvent::SpawnFailed => (
                    Phase::ShuttingDown { failure: Some(StartupError::Spawn) },
                    LifecycleAction::RunShutdown,
                ),
                _ => (phase, LifecycleAction::Idle),
            },
            Phase::AwaitingReady { port } => match ev {
                LifecycleEvent::BecameReady => (
                    Phase::Running { port },
                    LifecycleAction::CreateWindow { port },
                ),
                LifecycleEvent::ReadyTimedOut => (
                    Phase::ShuttingDown { failure: Some(StartupError::ReadinessTimeout) },
                    LifecycleAction::RunShutdown,
                ),
                _ => (phase, LifecycleAction::Idle),
            },
            Phase::Running { .. } => match ev {
                LifecycleEvent::WindowFailed => (
                    Phase::ShuttingDown { failure: Some(StartupError::WindowCreation) },
                    LifecycleAction::RunShutdown,
                ),
                _ => (phase, LifecycleAction::Idle),
            },
            Phase::ShuttingDown { failure } => match ev {
                LifecycleEvent::ShutdownFinished => match failure {
                    Some(error) => (
                        Phase::Terminated { exit_code: 1 },
                        LifecycleAction::ReportFailure { error },
                    ),
                    None => (Phase::Terminated { exit_code: 0 }, LifecycleAction::Exit { code: 0 }),
                },
                _ => (phase, LifecycleAction::Idle),
            },
            Phase::Terminated { .. } => (phase, LifecycleAction::Idle),
        }
    }
}

/// Executable mirror of `dev_step`.
fn step_dev_exec(phase: Phase, ev: LifecycleEvent) -> (r: (Phase, LifecycleAction))
    ensures
        r == dev_step(phase, ev),
{
    let trigger = match ev {
        LifecycleEvent::QuitRequested
        | LifecycleEvent::CloseRequested
        | LifecycleEvent::ExitRequested => true,
        _ => false,
    };
    if trigger {
        match phase {
            Phase::Terminated { exit_code } => (
                Phase::Terminated { exit_code },
                LifecycleAction::Idle,
            ),
            _ => (Phase::Terminated { exit_code: 0 }, LifecycleAction::Exit { code: 0 }),
        }
    } else {
        match phase {
            Phase::Running { .. } => match ev {
                LifecycleEvent::WindowFailed => (
                    Phase::Terminated { exit_code: 1 },
                    LifecycleAction::Exit { code: 1 },
                ),
                _ => (phase, LifecycleAction::Idle),
            },
            _ => (phase, LifecycleAction::Idle),
        }
    }
}

/// Development mode never touches the negotiator or the supervisor: whatever
/// the phase and the event, its step never asks for negotiation, a spawn, or
/// a shutdown — only the window connection, the exit, or nothing.
pub proof fn lemma_dev_mode_stays_clear_of_sidecar(phase: Phase, ev: LifecycleEvent)
    ensures
        ({
            let a = dev_step(phase, ev).1;
            ||| a matches LifecycleAction::CreateWindow { .. }
            ||| a matches LifecycleAction::Exit { .. }
            ||| a is Idle
        }),
{
}

/// The production lifecycle never exits behind the supervisor's back: the
/// only steps that reach `Terminated`, and the only ones whose action is an
/// exit or a failure report, start from `ShuttingDown` — after the shutdown
/// call has been run and has returned.
pub proof fn lemma_no_exit_without_shutdown(phase: Phase, ev: LifecycleEvent)
    ensures
        (production_step(phase, ev).0 is Terminated && !(phase is Terminated)) ==> phase matches
            Phase::ShuttingDown { .. },
        (production_step(phase, ev).1 matches LifecycleAction::Exit { .. }) ==> phase matches
            Phase::ShuttingDown { .. },
        (production_step(phase, ev).1 matches LifecycleAction::ReportFailure { .. }) ==> phase
            matches Phase::ShuttingDown { .. },
{
}

/// A startup failure at any stage — negotiation, spawn, readiness, window —
/// routes through the supervisor's shutdown, is reported to the user, and
/// ends in a non-zero exit.
pub proof fn lemma_failure_routes_through_shutdown(phase: Phase, ev: LifecycleEvent)
    requires
        (phase is Negotiating && ev is NegotiationFailed) || (phase matches Phase::Spawning { .. }
            && ev is SpawnFailed) || (phase matches Phase::AwaitingReady { .. }
            && ev is ReadyTimedOut) || (phase matches Phase::Running { .. } && ev is WindowFailed),
    ensures
        production_step(phase, ev).1 is RunShutdown,
        production_step(phase, ev).0 matches Phase::ShuttingDown { failure: Some(_) },
        production_step(production_step(phase, ev).0, LifecycleEvent::ShutdownFinished).0 matches
            Phase::Terminated { exit_code } && exit_code != 0,
{
}

} // verus!
