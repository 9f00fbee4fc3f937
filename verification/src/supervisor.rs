//! Process supervision: at most one live sidecar handle, torn down exactly once.
//!
//! The supervisor owns the spawned sidecar's handle and exposes an idempotent
//! shutdown: of any number of shutdown triggers (menu action, window close,
//! application exit, startup failure), only the first takes the handle and
//! performs the kill sequence; all others find the one-shot flag already set
//! and return as no-ops. The kill sequence itself — send a graceful
//! termination request, poll liveness up to a bound, then escalate to a
//! single forced kill — is decided here; the embedding program performs the
//! OS calls (signals, liveness checks, sleeps) and reports their outcomes.

use vstd::prelude::*;

verus! {

/// Time allowed for the sidecar to exit after the graceful termination
/// request, before the forced kill.
pub const GRACEFUL_TIMEOUT_MS: u64 = 3000;

/// Sleep between liveness checks while waiting for a graceful exit.
pub const LIVENESS_POLL_MS: u64 = 100;

/// Reference to a running sidecar process. Created at spawn time, owned
/// exclusively by the supervisor, consumed exactly once at shutdown.
#[derive(Clone, Copy, PartialEq, Eq, Structural, Debug)]
pub struct SidecarHandle {
    /// Process identifier, when the platform reported one.
    pub pid: Option<u32>,
    /// Whether the killable OS handle is still owned: set at spawn, cleared
    /// by the one forced kill (or by a graceful exit that disarms it).
    pub child_held: bool,
}

impl SidecarHandle {
    /// A handle fresh from a successful spawn.
    pub fn new(pid: Option<u32>) -> (h: SidecarHandle)
        ensures
            h.pid == pid,
            h.child_held,
    {
        SidecarHandle { pid, child_held: true }
    }

    /// Takes the killable handle out, to force-kill the process or to reap
    /// one that exited gracefully. Returns whether it was still held: only
    /// then does the caller get to act on it, so the OS kill path runs at
    /// most once per handle.
    pub fn take_child(&mut self) -> (was_held: bool)
        ensures
            (was_held, *final(self)) == take_child_model(*old(self)),
            was_held == old(self).child_held,
            !final(self).child_held,
            final(self).pid == old(self).pid,
    {
        let was_held = self.child_held;
        self.child_held = false;
        was_held
    }

    /// Whether dropping the handle now must still force-kill the process.
    /// True exactly while the killable handle is held, so a handle released
    /// without an explicit shutdown still takes the process down with it —
    /// no orphaned sidecar — while a handle already consumed by the shutdown
    /// path is not killed a second time.
    pub fn kill_on_drop(&self) -> (b: bool)
        ensures
            b == self.child_held,
    {
        self.child_held
    }
}

/// Process-wide supervisor state: at most one live handle, plus the one-shot
/// "shutdown initiated" flag.
pub struct Supervisor {
    /// The single handle slot; `None` before spawn and forever after the
    /// first shutdown call.
    pub handle: Option<SidecarHandle>,
    /// Set by the first shutdown call, never cleared.
    pub shutting_down: bool,
}

impl Supervisor {
    /// Once shutdown has been initiated the slot stays empty.
    pub open spec fn wf(&self) -> bool {
        self.shutting_down ==> self.handle is None
    }

    /// The initial, empty state.
    pub fn new() -> (s: Supervisor)
        ensures
            s.handle is None,
            !s.shutting_down,
            s.wf(),
    {
        Supervisor { handle: None, shutting_down: false }
    }

    /// Stores the handle of a freshly spawned sidecar. The lifecycle spawns
    /// at most once and always before any shutdown trigger can fire.
    pub fn record_spawn(&mut self, h: SidecarHandle)
        requires
            !old(self).shutting_down,
        ensures
            final(self).handle == Some(h),
            !final(self).shutting_down,
            final(self).wf(),
    {
        self.handle = Some(h);
    }

    /// The one-shot entry to the kill sequence. Sets the flag and empties the
    /// slot; only the first call — the one that found the flag clear — gets
    /// the handle back and performs the kill sequence. Every later call is a
    /// no-op. The embedding program makes the check-and-set atomic, so of N
    /// concurrent triggers exactly one receives the handle.
    pub fn begin_shutdown(&mut self) -> (taken: Option<SidecarHandle>)
        requires
            old(self).wf(),
        ensures
            (*final(self), taken) == begin_shutdown_model(*old(self)),
            final(self).shutting_down,
            final(self).handle is None,
            final(self).wf(),
            taken == (if old(self).shutting_down {
                None::<SidecarHandle>
            } else {
                old(self).handle
            }),
    {
        let already = self.shutting_down;
        self.shutting_down = true;
        if already {
            None
        } else {
            self.handle.take()
        }
    }
}

/// What one shutdown call does to the supervisor, and what it yields.
pub open spec fn begin_shutdown_model(s: Supervisor) -> (Supervisor, Option<SidecarHandle>) {
    (
        Supervisor { handle: None, shutting_down: true },
        if s.shutting_down {
            None
        } else {
            s.handle
        },
    )
}

/// The state after `n` shutdown calls, and how many of them yielded a handle
/// — that is, how many performed the kill sequence.
pub open spec fn shutdown_calls(s: Supervisor, n: nat) -> (Supervisor, nat)
    decreases n,
{
    if n == 0 {
        (s, 0)
    } else {
        let (s1, taken) = begin_shutdown_model(s);
        let (s2, performed) = shutdown_calls(s1, (n - 1) as nat);
        (
            s2,
            performed + (if taken is Some {
                1nat
            } else {
                0nat
            }),
        )
    }
}

/// Shutdown is idempotent: of any `n >= 1` shutdown calls on one supervisor,
/// the kill sequence is performed at most once — exactly once when a handle
/// was live and shutdown had not begun — and the handle slot is empty after
/// any call.
pub proof fn lemma_shutdown_idempotent(s: Supervisor, n: nat)
    requires
        s.wf(),
        n >= 1,
    ensures
        shutdown_calls(s, n).0.handle is None,
        shutdown_calls(s, n).0.shutting_down,
        shutdown_calls(s, n).1 <= 1,
        s.handle is Some && !s.shutting_down ==> shutdown_calls(s, n).1 == 1,
        s.shutting_down ==> shutdown_calls(s, n).1 == 0,
    decreases n,
{
    let (s1, _) = begin_shutdown_model(s);
    if n > 1 {
        lemma_shutdown_idempotent(s1, (n - 1) as nat);
    } else {
        assert(shutdown_calls(s1, 0) == (s1, 0nat));
    }
}

/// The kill sequence owed to one taken handle.
#[derive(Clone, Copy, PartialEq, Eq, Structural, Debug)]
pub enum ShutdownPlan {
    /// A PID is known: request graceful termination, poll liveness up to the
    /// bound, force-kill only if the process outlives it.
    GracefulThenForce { pid: u32 },
    /// No PID is known: nothing to signal or poll, go straight to the
    /// forced kill of the owned handle.
    ForceOnly,
}

/// Decides the kill sequence for a taken handle.
pub fn shutdown_plan(h: &SidecarHandle) -> (p: ShutdownPlan)
    ensures
        p == (match h.pid {
            Some(pid) => ShutdownPlan::GracefulThenForce { pid },
            None => ShutdownPlan::ForceOnly,
        }),
{
    match h.pid {
        Some(pid) => ShutdownPlan::GracefulThenForce { pid },
        None => ShutdownPlan::ForceOnly,
    }
}

/// What the graceful-shutdown wait decides after each liveness poll.
#[derive(Clone, Copy, PartialEq, Eq, Structural, Debug)]
pub enum WaitStep {
    /// Sleep one poll interval, then check liveness again.
    PollAgain { sleep_ms: u64 },
    /// The process disappeared within the bound: shutdown is complete,
    /// no forced kill.
    Exited,
    /// The bound elapsed with the process still alive: issue the one
    /// forced kill and return.
    Escalate,
}

/// Tracks the bounded wait between the graceful termination request and the
/// forced-kill escalation.
pub struct GracefulWait {
    /// Time accounted so far.
    pub waited_ms: u64,
}

impl GracefulWait {
    /// Starts the wait, right after the termination request was sent.
    pub fn new() -> (w: GracefulWait)
        ensures
            w.waited_ms == 0,
    {
        GracefulWait { waited_ms: 0 }
    }

    /// Whether the bound has elapsed, in which case the wait escalates
    /// without another liveness check.
    pub fn timed_out(&self) -> (b: bool)
        ensures
            b == (self.waited_ms >= GRACEFUL_TIMEOUT_MS),
    {
        self.waited_ms >= GRACEFUL_TIMEOUT_MS
    }

    /// Records one liveness poll: a dead process ends the wait gracefully; a
    /// live one costs a poll interval, escalating once the bound is spent.
    pub fn observe_liveness(&mut self, alive: bool) -> (s: WaitStep)
        requires
            old(self).waited_ms < GRACEFUL_TIMEOUT_MS,
        ensures
            !alive ==> s == WaitStep::Exited && final(self).waited_ms == old(self).waited_ms,
            alive ==> final(self).waited_ms == old(self).waited_ms + LIVENESS_POLL_MS,
            alive && old(self).waited_ms + LIVENESS_POLL_MS < GRACEFUL_TIMEOUT_MS ==> s == (
            WaitStep::PollAgain { sleep_ms: LIVENESS_POLL_MS }),
            alive && old(self).waited_ms + LIVENESS_POLL_MS >= GRACEFUL_TIMEOUT_MS ==> s
                == WaitStep::Escalate,
    {
        if !alive {
            WaitStep::Exited
        } else {
            self.waited_ms = self.waited_ms + LIVENESS_POLL_MS;
            if self.waited_ms < GRACEFUL_TIMEOUT_MS {
                WaitStep::PollAgain { sleep_ms: LIVENESS_POLL_MS }
            } else {
                WaitStep::Escalate
            }
        }
    }
}

/// A liveness probe's report, as the embedding program got it from the
/// operating system.
#[derive(Clone, Copy, PartialEq, Eq, Structural, Debug)]
pub enum LivenessReport {
    /// The process exists.
    Alive,
    /// The process is gone.
    Gone,
    /// The probe itself failed; whether the process exists is unknown.
    ProbeFailed,
}

/// Failures on the shutdown path are absorbed, never fatal. A probe that
/// itself failed says nothing about the process, so the wait treats it as
/// still alive and keeps polling — converging on escalation within the bound
/// — rather than concluding an exit it never saw.
pub fn interpret_liveness(report: LivenessReport) -> (alive: bool)
    ensures
        alive == !(report is Gone),
{
    match report {
        LivenessReport::Gone => false,
        LivenessReport::Alive | LivenessReport::ProbeFailed => true,
    }
}

/// How a graceful wait ends, and with it the number of forced kills: one
/// exactly when it escalates, none when the process exited on its own.
#[derive(Clone, Copy, PartialEq, Eq, Structural, Debug)]
pub enum WaitOutcome {
    /// The process exited within the bound; no forced kill.
    ExitedGracefully,
    /// The process outlived the bound; exactly one forced kill.
    Escalated,
}

/// Model of a whole graceful wait against a fixed series of liveness
/// answers: `alive[k]` says the process was still alive at the `k`-th poll.
/// `None` means the series was too short to decide the wait.
pub open spec fn graceful_wait_run(alive: Seq<bool>, waited_ms: int) -> Option<WaitOutcome>
    decreases alive.len(),
{
    if waited_ms >= GRACEFUL_TIMEOUT_MS {
        Some(WaitOutcome::Escalated)
    } else if alive.len() == 0 {
        None
    } else if !alive[0] {
        Some(WaitOutcome::ExitedGracefully)
    } else {
        graceful_wait_run(alive.subrange(1, alive.len() as int), waited_ms + LIVENESS_POLL_MS)
    }
}

/// A process that exits on its own within the graceful-shutdown bound — dead
/// at the `i`-th poll, alive at every earlier one, with the bound not yet
/// spent — is never force-killed: the wait ends in `ExitedGracefully`.
pub proof fn lemma_graceful_exit_no_force_kill(alive: Seq<bool>, waited_ms: int, i: int)
    requires
        0 <= i < alive.len(),
        !alive[i],
        forall|j: int| 0 <= j < i ==> alive[j],
        0 <= waited_ms,
        waited_ms + i * LIVENESS_POLL_MS < GRACEFUL_TIMEOUT_MS,
    ensures
        graceful_wait_run(alive, waited_ms) == Some(WaitOutcome::ExitedGracefully),
    decreases i,
{
    if i > 0 {
        let rest = alive.subrange(1, alive.len() as int);
        assert(forall|j: int| 0 <= j < i - 1 ==> rest[j]);
        lemma_graceful_exit_no_force_kill(rest, waited_ms + LIVENESS_POLL_MS, i - 1);
    }
}

/// How many liveness polls a graceful wait can still make before it must
/// escalate. Being well-defined for every starting point, it bounds every
/// wait — shutdown cannot hang.
pub open spec fn polls_until_escalation(waited_ms: int) -> nat
    decreases (if waited_ms < GRACEFUL_TIMEOUT_MS {
        GRACEFUL_TIMEOUT_MS - waited_ms
    } else {
        0
    }),
{
    if waited_ms >= GRACEFUL_TIMEOUT_MS {
        0
    } else {
        1 + polls_until_escalation(waited_ms + LIVENESS_POLL_MS)
    }
}

/// A process that ignores the termination request — alive at every poll —
/// has the wait escalate within the bound: exactly one forced kill, and the
/// supervisor returns rather than waiting further.
pub proof fn lemma_ignored_signal_escalates(alive: Seq<bool>, waited_ms: int)
    requires
        forall|k: int| 0 <= k < alive.len() ==> alive[k],
        alive.len() >= polls_until_escalation(waited_ms),
        0 <= waited_ms,
    ensures
        graceful_wait_run(alive, waited_ms) == Some(WaitOutcome::Escalated),
    decreases alive.len(),
{
    if waited_ms < GRACEFUL_TIMEOUT_MS {
        lemma_ignored_signal_escalates(
            alive.subrange(1, alive.len() as int),
            waited_ms + LIVENESS_POLL_MS,
        );
    }
}

/// What taking the killable child does to a handle, and whether the caller
/// got it.
pub open spec fn take_child_model(h: SidecarHandle) -> (bool, SidecarHandle) {
    (h.child_held, SidecarHandle { pid: h.pid, child_held: false })
}

/// Forced kills issued when a handle's life ends in a drop: the drop path
/// kills exactly when the killable child is still held.
pub open spec fn kills_on_drop(h: SidecarHandle) -> int {
    if h.child_held {
        1int
    } else {
        0int
    }
}

/// A handle that still owns its killable child takes the process down
/// exactly once, whichever way its life ends. Dropped outright — without an
/// explicit shutdown — the drop path kills it, so no sidecar is orphaned;
/// consumed by the shutdown path first, the one taker acts on it and the
/// later drop no longer does — no double kill.
pub proof fn lemma_exactly_one_kill(h: SidecarHandle)
    requires
        h.child_held,
    ensures
        kills_on_drop(h) == 1,
        take_child_model(h).0,
        kills_on_drop(take_child_model(h).1) == 0,
{
}

} // verus!
