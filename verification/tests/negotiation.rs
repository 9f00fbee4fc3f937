use sidecar_lifecycle::ports::{
    ephemeral_outcome, BindAttempt, NegotiationError, Negotiator, PortChoice,
};

#[test]
fn first_preferred_port_free() {
    let mut n = Negotiator::new();
    assert_eq!(n.next_attempt(), BindAttempt::Preferred { port: 4000 });
    let chosen = n.observe_bind(true);
    assert_eq!(chosen, Some(PortChoice::Preferred { port: 4000 }));
}

#[test]
fn first_busy_second_free() {
    let mut n = Negotiator::new();
    assert_eq!(n.next_attempt(), BindAttempt::Preferred { port: 4000 });
    assert_eq!(n.observe_bind(false), None);
    assert_eq!(n.next_attempt(), BindAttempt::Preferred { port: 3000 });
    let chosen = n.observe_bind(true);
    assert_eq!(chosen, Some(PortChoice::Preferred { port: 3000 }));
}

#[test]
fn two_busy_third_free() {
    let mut n = Negotiator::new();
    assert_eq!(n.observe_bind(false), None);
    assert_eq!(n.observe_bind(false), None);
    assert_eq!(n.next_attempt(), BindAttempt::Preferred { port: 5173 });
    let chosen = n.observe_bind(true);
    assert_eq!(chosen, Some(PortChoice::Preferred { port: 5173 }));
}

#[test]
fn all_preferred_busy_falls_back_to_ephemeral() {
    let mut n = Negotiator::new();
    assert_eq!(n.observe_bind(false), None);
    assert_eq!(n.observe_bind(false), None);
    assert_eq!(n.observe_bind(false), None);
    assert_eq!(n.next_attempt(), BindAttempt::Ephemeral);
    let chosen = ephemeral_outcome(Some(49152));
    assert_eq!(chosen, Ok(PortChoice::Ephemeral { port: 49152 }));
}

#[test]
fn ephemeral_bind_failure_is_fatal() {
    assert_eq!(ephemeral_outcome(None), Err(NegotiationError));
}

#[test]
fn ephemeral_port_zero_is_rejected() {
    assert_eq!(ephemeral_outcome(Some(0)), Err(NegotiationError));
}

#[test]
fn port_accessor_reads_either_variant() {
    assert_eq!(PortChoice::Preferred { port: 4000 }.port(), 4000);
    assert_eq!(PortChoice::Ephemeral { port: 50001 }.port(), 50001);
}
