//! Readiness probing: wait until the sidecar's port accepts TCP connections.
//!
//! The prober is purely observational: the embedding program attempts a
//! loopback connection, reports whether it succeeded, and the prober decides
//! whether the sidecar is ready, whether to sleep one poll interval and try
//! again, or whether the bounded wait has elapsed. It never mutates sidecar
//! state and never triggers shutdown itself.

use vstd::prelude::*;

verus! {

/// Maximum time to wait for the sidecar to become reachable.
pub const READY_TIMEOUT_MS: u64 = 120000;

/// Sleep between connection attempts.
pub const READY_POLL_MS: u64 = 200;

/// Terminal outcome of a readiness probe; never retried after it is returned.
#[derive(Clone, Copy, PartialEq, Eq, Structural, Debug)]
pub enum ReadinessResult {
    /// The port accepted a connection after this much accumulated waiting.
    Ready { elapsed_ms: u64 },
    /// No listener appeared before the bound elapsed.
    TimedOut { elapsed_ms: u64 },
}

/// What the prober decides after one connection attempt.
#[derive(Clone, Copy, PartialEq, Eq, Structural, Debug)]
pub enum ProbeStep {
    /// The probe is over; stop polling.
    Done { result: ReadinessResult },
    /// Sleep this long, then attempt another connection.
    RetryAfter { sleep_ms: u64 },
}

/// Accumulates how long the probe has been waiting, against its bound.
pub struct Prober {
    /// Time accounted so far, in poll intervals.
    pub elapsed_ms: u64,
    /// The bound after which the probe gives up.
    pub timeout_ms: u64,
}

impl Prober {
    /// A fresh probe with the given bound. The bound is kept small enough
    /// that one more poll interval cannot overflow the accumulator.
    pub fn new(timeout_ms: u64) -> (p: Prober)
        requires
            timeout_ms <= u64::MAX - READY_POLL_MS,
        ensures
            p.elapsed_ms == 0,
            p.timeout_ms == timeout_ms,
    {
        Prober { elapsed_ms: 0, timeout_ms }
    }

    /// A fresh probe with the default bound.
    pub fn with_default_timeout() -> (p: Prober)
        ensures
            p.elapsed_ms == 0,
            p.timeout_ms == READY_TIMEOUT_MS,
    {
        Prober { elapsed_ms: 0, timeout_ms: READY_TIMEOUT_MS }
    }

    /// Decides on the outcome of one connection attempt: ready as soon as a
    /// connection succeeds, timed out once the bound has elapsed, otherwise
    /// one more poll interval of waiting.
    pub fn observe(&mut self, connected: bool) -> (s: ProbeStep)
        requires
            old(self).elapsed_ms <= old(self).timeout_ms + READY_POLL_MS,
            old(self).timeout_ms <= u64::MAX - READY_POLL_MS,
        ensures
            final(self).timeout_ms == old(self).timeout_ms,
            connected ==> s == (ProbeStep::Done {
                result: ReadinessResult::Ready { elapsed_ms: old(self).elapsed_ms },
            }) && final(self).elapsed_ms == old(self).elapsed_ms,
            !connected && old(self).elapsed_ms >= old(self).timeout_ms ==> s == (ProbeStep::Done {
                result: ReadinessResult::TimedOut { elapsed_ms: old(self).elapsed_ms },
            }) && final(self).elapsed_ms == old(self).elapsed_ms,
            !connected && old(self).elapsed_ms < old(self).timeout_ms ==> s == (ProbeStep::RetryAfter {
                sleep_ms: READY_POLL_MS,
            }) && final(self).elapsed_ms == old(self).elapsed_ms + READY_POLL_MS,
            final(self).elapsed_ms <= final(self).timeout_ms + READY_POLL_MS,
    {
        if connected {
            ProbeStep::Done { result: ReadinessResult::Ready { elapsed_ms: self.elapsed_ms } }
        } else if self.elapsed_ms >= self.timeout_ms {
            ProbeStep::Done { result: ReadinessResult::TimedOut { elapsed_ms: self.elapsed_ms } }
        } else {
            self.elapsed_ms = self.elapsed_ms + READY_POLL_MS;
            ProbeStep::RetryAfter { sleep_ms: READY_POLL_MS }
        }
    }
}

/// Model of a whole probe run against a fixed series of connection outcomes:
/// `conn[k]` says the `k`-th connection attempt succeeded. `None` means the
/// series was too short to decide the run.
pub open spec fn probe_run(conn: Seq<bool>, elapsed_ms: int, timeout_ms: int) -> Option<
    ReadinessResult,
>
    decreases conn.len(),
{
    if conn.len() == 0 {
        None
    } else if conn[0] {
        Some(ReadinessResult::Ready { elapsed_ms: elapsed_ms as u64 })
    } else if elapsed_ms >= timeout_ms {
        Some(ReadinessResult::TimedOut { elapsed_ms: elapsed_ms as u64 })
    } else {
        probe_run(conn.subrange(1, conn.len() as int), elapsed_ms + READY_POLL_MS, timeout_ms)
    }
}

/// How many connection attempts a probe can still make before it must stop:
/// one per poll interval left before the bound, plus the attempt that
/// observes the bound elapsed. Being well-defined for every starting point,
/// it bounds every probe run — no probe can poll forever.
pub open spec fn polls_until_timeout(elapsed_ms: int, timeout_ms: int) -> nat
    decreases (if elapsed_ms < timeout_ms {
        timeout_ms - elapsed_ms
    } else {
        0
    }),
{
    if elapsed_ms >= timeout_ms {
        1
    } else {
        1 + polls_until_timeout(elapsed_ms + READY_POLL_MS, timeout_ms)
    }
}

/// The probe returns `Ready` as soon as a listener exists: the first
/// connection attempt that succeeds — every earlier one having failed while
/// the bound still had room — ends the run with `Ready` and the waiting
/// accounted up to that attempt.
pub proof fn lemma_probe_ready_at_first_listener(
    conn: Seq<bool>,
    elapsed_ms: int,
    timeout_ms: int,
    i: int,
)
    requires
        0 <= i < conn.len(),
        conn[i],
        forall|j: int| 0 <= j < i ==> !conn[j],
        0 <= elapsed_ms,
        forall|j: int| 0 <= j < i ==> elapsed_ms + #[trigger] (j * READY_POLL_MS)
            < timeout_ms,
    ensures
        probe_run(conn, elapsed_ms, timeout_ms) == Some(
            ReadinessResult::Ready { elapsed_ms: (elapsed_ms + i * READY_POLL_MS) as u64 },
        ),
    decreases i,
{
    if i > 0 {
        let rest = conn.subrange(1, conn.len() as int);
        assert(forall|j: int| 0 <= j < i - 1 ==> !rest[j]);
        assert(forall|j: int| 0 <= j < i - 1 ==> (elapsed_ms + READY_POLL_MS) + #[trigger] (j
            * READY_POLL_MS) < timeout_ms) by {
            assert(forall|j: int| 0 <= j < i - 1 ==> (elapsed_ms + READY_POLL_MS) + #[trigger] (j
                * READY_POLL_MS) == elapsed_ms + (j + 1) * READY_POLL_MS) by (nonlinear_arith);
        }
        lemma_probe_ready_at_first_listener(rest, elapsed_ms + READY_POLL_MS, timeout_ms, i - 1);
        assert((elapsed_ms + READY_POLL_MS) + (i - 1) * READY_POLL_MS == elapsed_ms + i
            * READY_POLL_MS) by (nonlinear_arith);
    }
}

/// A probe against a port where a listener never appears cannot hang: after
/// at most `polls_until_timeout` attempts it returns `TimedOut` (and the
/// first successful connection, had there been one, would have returned
/// `Ready` at once).
pub proof fn lemma_probe_times_out(conn: Seq<bool>, elapsed_ms: int, timeout_ms: int)
    requires
        forall|k: int| 0 <= k < conn.len() ==> !conn[k],
        conn.len() >= polls_until_timeout(elapsed_ms, timeout_ms),
        0 <= elapsed_ms,
    ensures
        (match probe_run(conn, elapsed_ms, timeout_ms) {
            Some(r) => r matches ReadinessResult::TimedOut { .. },
            None => false,
        }),
    decreases conn.len(),
{
    if conn.len() > 0 && !conn[0] && elapsed_ms < timeout_ms {
        lemma_probe_times_out(
            conn.subrange(1, conn.len() as int),
            elapsed_ms + READY_POLL_MS,
            timeout_ms,
        );
    }
}

} // verus!
