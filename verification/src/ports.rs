//! Port negotiation: pick the TCP port the sidecar will listen on.
//!
//! A fixed, ordered list of preferred ports is tried first; the first one
//! that can be bound wins. Keeping a well-known port stable across launches
//! keeps externally registered callback URLs consistent. If every preferred
//! port is busy, the negotiator falls back to an OS-assigned ephemeral port.
//!
//! Binding sockets is the embedding program's job: it asks the negotiator
//! which port to try, attempts the bind, and reports the outcome back.

use vstd::prelude::*;

verus! {

/// Number of preferred ports tried before falling back to an ephemeral one.
pub const PREFERRED_PORT_COUNT: usize = 3;

/// The preferred ports, in the order they are tried.
pub open spec fn preferred_port_spec(i: int) -> u16 {
    if i == 0 {
        4000
    } else if i == 1 {
        3000
    } else {
        5173
    }
}

/// Returns the `i`-th preferred port.
pub fn preferred_port(i: usize) -> (p: u16)
    requires
        i < PREFERRED_PORT_COUNT,
    ensures
        p == preferred_port_spec(i as int),
{
    if i == 0 {
        4000
    } else if i == 1 {
        3000
    } else {
        5173
    }
}

/// The negotiated port, chosen once per launch and immutable afterward.
/// A bound TCP port is never zero.
#[derive(Clone, Copy, PartialEq, Eq, Structural, Debug)]
pub enum PortChoice {
    /// One of the preferred ports was free.
    Preferred { port: u16 },
    /// All preferred ports were busy; the OS assigned this one.
    Ephemeral { port: u16 },
}

impl PortChoice {
    /// The port number itself, however it was chosen.
    pub open spec fn port_spec(self) -> u16 {
        match self {
            PortChoice::Preferred { port } => port,
            PortChoice::Ephemeral { port } => port,
        }
    }

    /// Returns the port number.
    pub fn port(&self) -> (p: u16)
        ensures
            p == self.port_spec(),
    {
        match self {
            PortChoice::Preferred { port } => *port,
            PortChoice::Ephemeral { port } => *port,
        }
    }
}

/// No usable port could be found: even the ephemeral bind failed.
#[derive(Clone, Copy, PartialEq, Eq, Structural, Debug)]
pub struct NegotiationError;

/// What the negotiator asks the embedding program to attempt next.
#[derive(Clone, Copy, PartialEq, Eq, Structural, Debug)]
pub enum BindAttempt {
    /// Try to bind this preferred port on loopback.
    Preferred { port: u16 },
    /// Every preferred port was busy: bind port 0 and report what the OS assigned.
    Ephemeral,
}

/// Steps through the preferred-port list, one bind attempt at a time.
pub struct Negotiator {
    /// Index of the next preferred port to try.
    pub next_idx: usize,
}

impl Negotiator {
    /// A negotiator that has tried nothing yet.
    pub fn new() -> (n: Negotiator)
        ensures
            n.next_idx == 0,
    {
        Negotiator { next_idx: 0 }
    }

    /// What to attempt next: the next preferred port, or the ephemeral fallback
    /// once the whole preferred list has been reported busy.
    pub fn next_attempt(&self) -> (a: BindAttempt)
        requires
            self.next_idx <= PREFERRED_PORT_COUNT,
        ensures
            a == (if self.next_idx < PREFERRED_PORT_COUNT {
                BindAttempt::Preferred { port: preferred_port_spec(self.next_idx as int) }
            } else {
                BindAttempt::Ephemeral
            }),
    {
        if self.next_idx < PREFERRED_PORT_COUNT {
            BindAttempt::Preferred { port: preferred_port(self.next_idx) }
        } else {
            BindAttempt::Ephemeral
        }
    }

    /// Records the outcome of binding the current preferred port. A successful
    /// bind settles the negotiation on that port (the listener is released at
    /// once by the caller); a busy port advances to the next attempt.
    pub fn observe_bind(&mut self, bound: bool) -> (r: Option<PortChoice>)
        requires
            old(self).next_idx < PREFERRED_PORT_COUNT,
        ensures
            bound ==> r == Some(PortChoice::Preferred {
                port: preferred_port_spec(old(self).next_idx as int),
            }),
            !bound ==> r is None && final(self).next_idx == old(self).next_idx + 1,
            bound ==> final(self).next_idx == old(self).next_idx,
    {
        if bound {
            Some(PortChoice::Preferred { port: preferred_port(self.next_idx) })
        } else {
            self.next_idx = self.next_idx + 1;
            None
        }
    }
}

/// Turns the outcome of the ephemeral bind into the final negotiation result:
/// the OS-assigned port when the bind succeeded (a bound port is never zero),
/// or `NegotiationError` when even binding port 0 failed.
pub fn ephemeral_outcome(assigned: Option<u16>) -> (r: Result<PortChoice, NegotiationError>)
    ensures
        (match assigned {
            Some(p) if p > 0 => r == Ok::<PortChoice, NegotiationError>(PortChoice::Ephemeral { port: p }),
            _ => r == Err::<PortChoice, NegotiationError>(NegotiationError),
        }),
{
    match assigned {
        Some(p) if p > 0 => Ok(PortChoice::Ephemeral { port: p }),
        _ => Err(NegotiationError),
    }
}

/// Model of a whole negotiation run against a fixed picture of which
/// preferred ports are busy: `busy[i]` says the `i`-th preferred port could
/// not be bound. The run stops at the first free preferred port and falls
/// back to the ephemeral bind when none is free.
pub enum NegotiationOutcome {
    /// The `i`-th preferred port is chosen.
    FreePreferred { i: int },
    /// Every preferred port was busy; the ephemeral bind decides.
    NeedsEphemeral,
}

/// The outcome of running the negotiator from preferred index `i` onward.
pub open spec fn negotiation_run(busy: Seq<bool>, i: int) -> NegotiationOutcome
    decreases busy.len() - i,
{
    if i < 0 || i >= busy.len() {
        NegotiationOutcome::NeedsEphemeral
    } else if !busy[i] {
        NegotiationOutcome::FreePreferred { i }
    } else {
        negotiation_run(busy, i + 1)
    }
}

/// A preferred port is never zero, so every negotiated port is positive.
pub proof fn lemma_preferred_ports_positive(i: int)
    requires
        0 <= i < PREFERRED_PORT_COUNT,
    ensures
        preferred_port_spec(i) > 0,
{
}

/// For every picture of busy ports, the negotiation settles on the first
/// free preferred port — a port reported busy is never chosen — and falls
/// back to the ephemeral bind exactly when the whole preferred list is busy.
pub proof fn lemma_negotiation_first_free(busy: Seq<bool>, i: int)
    requires
        0 <= i <= busy.len(),
    ensures
        (match negotiation_run(busy, i) {
            NegotiationOutcome::FreePreferred { i: k } => {
                &&& i <= k < busy.len()
                &&& !busy[k]
                &&& forall|j: int| i <= j < k ==> busy[j]
            },
            NegotiationOutcome::NeedsEphemeral => forall|j: int| i <= j < busy.len() ==> busy[j],
        }),
    decreases busy.len() - i,
{
    if i < busy.len() && busy[i] {
        lemma_negotiation_first_free(busy, i + 1);
    }
}

} // verus!
