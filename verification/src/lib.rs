//! Lifecycle manager for a locally-bound sidecar server process.
//!
//! The library holds the decision logic of the manager: which port to hand
//! the sidecar, when a readiness probe gives up, how a graceful shutdown
//! escalates to a forced kill, and how the startup/shutdown state machine
//! reacts to events. All operating-system work (binding sockets, spawning
//! and signalling processes, opening windows) is performed by the embedding
//! program, which drives these machines and feeds their decisions back.

pub mod coordinator;
pub mod decimal;
pub mod launch;
pub mod navigation;
pub mod ports;
pub mod probe;
pub mod supervisor;
