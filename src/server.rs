//! The decisions of the connection acceptor and of the shutdown coordinator.

use vstd::prelude::*;

verus! {

/// How long the acceptor sleeps when no connection is pending, in
/// milliseconds.
pub const ACCEPT_POLL_MS: u64 = 200;

/// The TCP port the server listens on.
pub const TCP_PORT: u16 = 55022;

/// The unit id the server answers to.
pub const UNIT_ID: u8 = 1;

/// What a non-blocking accept gave.
#[derive(Debug, Clone, Copy, PartialEq, Eq, Structural)]
pub enum AcceptOutcome {
    /// A connection was accepted.
    Connection,
    /// No connection was pending.
    WouldBlock,
    /// The accept failed otherwise.
    Failed,
}

/// What the acceptor is to do next.
#[derive(Debug, Clone, Copy, PartialEq, Eq, Structural)]
pub enum AcceptorAction {
    /// Stop accepting: the shutdown flag is raised.
    Stop,
    /// Try to accept a connection.
    Accept,
    /// Hand the connection to a handler of its own, then poll again.
    Spawn,
    /// Sleep for `ms` milliseconds, then poll again.
    Sleep { ms: u64 },
    /// Raise the shutdown flag and end with the accept's error.
    Fail,
}

/// The acceptor's move at the top of its loop, with the shutdown flag as it
/// was read: it stops as soon as it sees the flag raised.
pub open spec fn poll_action(must_quit: bool) -> AcceptorAction {
    if must_quit {
        AcceptorAction::Stop
    } else {
        AcceptorAction::Accept
    }
}

/// The acceptor's move after an accept gave `outcome`: a connection is handed
/// on, an empty queue means a sleep of one poll interval, any other failure is
/// fatal.
pub open spec fn accept_action(outcome: AcceptOutcome) -> AcceptorAction {
    match outcome {
        AcceptOutcome::Connection => AcceptorAction::Spawn,
        AcceptOutcome::WouldBlock => AcceptorAction::Sleep { ms: ACCEPT_POLL_MS },
        AcceptOutcome::Failed => AcceptorAction::Fail,
    }
}

/// How long an action keeps the acceptor from its next poll, in
/// milliseconds.
pub open spec fn sleep_ms(action: AcceptorAction) -> nat {
    match action {
        AcceptorAction::Sleep { ms } => ms as nat,
        _ => 0,
    }
}

/// See [`poll_action`].
pub fn acceptor_poll(must_quit: bool) -> (r: AcceptorAction)
    ensures
        r == poll_action(must_quit),
{
    if must_quit {
        AcceptorAction::Stop
    } else {
        AcceptorAction::Accept
    }
}

/// See [`accept_action`].
pub fn acceptor_on_accept(outcome: AcceptOutcome) -> (r: AcceptorAction)
    ensures
        r == accept_action(outcome),
{
    match outcome {
        AcceptOutcome::Connection => AcceptorAction::Spawn,
        AcceptOutcome::WouldBlock => AcceptorAction::Sleep { ms: ACCEPT_POLL_MS },
        AcceptOutcome::Failed => AcceptorAction::Fail,
    }
}

/// Whatever an accept gives, the acceptor is back at its poll within one
/// poll interval, and a poll that sees the shutdown flag raised stops it: it
/// stops accepting within one poll interval of the flag being raised.
pub proof fn lemma_acceptor_stops_within_poll(outcome: AcceptOutcome)
    ensures
        sleep_ms(accept_action(outcome)) <= ACCEPT_POLL_MS,
        accept_action(outcome) != AcceptorAction::Accept,
        poll_action(true) == AcceptorAction::Stop,
{
}

/// The failures of the acceptor and of the simulation loop, in that order,
/// that are present.
pub open spec fn failures_of<E>(server: Result<(), E>, plc: Result<(), E>) -> Seq<E> {
    let s = if server is Err { seq![server->Err_0] } else { Seq::empty() };
    let p = if plc is Err { seq![plc->Err_0] } else { Seq::empty() };
    s + p
}

/// The outcome of the whole server once both of its loops have ended:
/// success when both succeeded, else every failure, none masking another.
pub fn combine_outcomes<E>(server: Result<(), E>, plc: Result<(), E>) -> (r: Result<(), Vec<E>>)
    ensures
        r is Ok <==> (server is Ok && plc is Ok),
        r is Err ==> r->Err_0@ == failures_of(server, plc),
{
    let mut failures: Vec<E> = Vec::new();
    match server {
        Ok(()) => {},
        Err(e) => failures.push(e),
    }
    match plc {
        Ok(()) => {},
        Err(e) => failures.push(e),
    }
    if failures.len() == 0 {
        Ok(())
    } else {
        Err(failures)
    }
}

} // verus!
