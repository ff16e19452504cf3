//! Per-connection duplex state machine.
//!
//! A session races two pollable operations — "a full inbound frame arrived"
//! and "an outbound event is ready" — and services exactly one per iteration.
//! The decision taken on each arrival is a pure function from state and event
//! to next state and action; the caller owns the sockets and queues, performs
//! the action, and feeds back the next event. An I/O fault is terminal for
//! this session only; an overflow indication is recovered locally and the
//! loop continues.

use crate::codec::ProtocolError;
use crate::hub::RecvOutcome;
use crate::messages::{Address, ClientToServerMessage, ServerToClientMessage};
use vstd::prelude::*;

verus! {

/// Lifecycle of one session.
#[derive(Clone, Copy, PartialEq, Eq, Structural, Debug)]
pub enum SessionState {
    /// Normal duplex operation.
    Active,
    /// The peer (or the local operator) asked to leave; one final notice is
    /// in flight, after which the write half is shut down.
    Draining,
    /// Terminal.
    Closed,
}

/// One arrival on a server-side session loop.
pub enum ServerSessionEvent {
    /// A full inbound frame was read and decoded.
    Frame(ClientToServerMessage),
    /// Reading or decoding failed terminally (stream ended mid-frame, or the
    /// payload was malformed).
    Fault(ProtocolError),
    /// The session's broadcast subscription yielded an outcome.
    Hub(RecvOutcome),
}

/// What the caller must do after one server-side step.
#[derive(Debug, PartialEq, Eq)]
pub enum ServerSessionAction {
    /// Hand the inbound message, with the peer's address, to the hub's
    /// inbound queue.
    ForwardToHub(ClientToServerMessage),
    /// Write this broadcast event to the peer's socket; a write fault comes
    /// back as the next event.
    SendToPeer(ServerToClientMessage),
    /// Log that this session fell behind by exactly this many events, then
    /// keep going: the overflow is recovered locally.
    NoteLag(u64),
    /// Send a best-effort departure notice to the peer (a write error here is
    /// deliberately ignored — the socket may already be half closed), shut
    /// the write half down, and report the session ended.
    Farewell,
    /// Tear this session down and report the error with the peer's address.
    /// No other session is affected.
    FailSession(ProtocolError),
    /// Nothing to service this round.
    Idle,
}

/// One step of the server-side session machine. Exactly one event is serviced;
/// the contract pins the successor state and the action for every case:
/// an inbound `Leave` drains the session; any other inbound message goes to
/// the hub; a broadcast event goes to the peer; a lag notice is logged and
/// survived; a closed hub drains the session; a fault closes it.
pub fn server_session_step(state: SessionState, event: ServerSessionEvent) -> (r: (
    SessionState,
    ServerSessionAction,
))
    requires
        state is Active,
    ensures
        ({
            let (next, act) = r;
            match event {
                ServerSessionEvent::Frame(m) => match m {
                    ClientToServerMessage::Leave => next is Draining && act is Farewell,
                    ClientToServerMessage::Ping => next is Active && act
                        == ServerSessionAction::ForwardToHub(ClientToServerMessage::Ping),
                    ClientToServerMessage::Send(s) => next is Active && act
                        == ServerSessionAction::ForwardToHub(ClientToServerMessage::Send(s)),
                },
                ServerSessionEvent::Fault(e) => next is Closed && act
                    == ServerSessionAction::FailSession(e),
                ServerSessionEvent::Hub(o) => match o {
                    RecvOutcome::Event(m) => next is Active && act
                        == ServerSessionAction::SendToPeer(m),
                    RecvOutcome::Lagged(n) => next is Active && act
                        == ServerSessionAction::NoteLag(n),
                    RecvOutcome::Empty => next is Active && act is Idle,
                    RecvOutcome::Closed => next is Draining && act is Farewell,
                },
            }
        }),
{
    match event {
        ServerSessionEvent::Frame(m) => match m {
            ClientToServerMessage::Leave => (SessionState::Draining, ServerSessionAction::Farewell),
            other => (SessionState::Active, ServerSessionAction::ForwardToHub(other)),
        },
        ServerSessionEvent::Fault(e) => (SessionState::Closed, ServerSessionAction::FailSession(e)),
        ServerSessionEvent::Hub(o) => match o {
            RecvOutcome::Event(m) => (SessionState::Active, ServerSessionAction::SendToPeer(m)),
            RecvOutcome::Lagged(n) => (SessionState::Active, ServerSessionAction::NoteLag(n)),
            RecvOutcome::Empty => (SessionState::Active, ServerSessionAction::Idle),
            RecvOutcome::Closed => (SessionState::Draining, ServerSessionAction::Farewell),
        },
    }
}

/// An operator command on the client console.
#[derive(Debug, PartialEq, Eq)]
pub enum ClientCommand {
    /// Leave the server and close.
    Quit,
    /// Probe the server.
    Ping,
    /// Send one chat line.
    Send(String),
}

/// Something the client surfaces to its operator.
#[derive(Debug, PartialEq, Eq)]
pub enum Notice {
    /// The server's heartbeat arrived and was answered.
    Pinged,
    /// A peer joined.
    Joined(Address),
    /// A peer left.
    Left(Address),
    /// A peer said something.
    Chat(String, Address),
}

/// One arrival on the client's session loop.
pub enum ClientSessionEvent {
    /// A full frame from the server was read and decoded.
    Frame(ServerToClientMessage),
    /// Reading or decoding failed terminally.
    Fault(ProtocolError),
    /// The operator issued a command.
    Command(ClientCommand),
}

/// What the caller must do after one client-side step.
#[derive(Debug, PartialEq, Eq)]
pub enum ClientSessionAction {
    /// Write this message to the server; a write fault comes back as the next
    /// event.
    SendToServer(ClientToServerMessage),
    /// The server's heartbeat arrived: write a `Ping` back (the protocol-level
    /// echo) and show the operator that it happened.
    AnswerPing,
    /// Show this to the operator.
    Show(Notice),
    /// Send the final `Leave`, shut the write half down, and close.
    SendLeave,
    /// Tear the session down and report the error; the client's single
    /// session is gone, so the process exits with a failure status.
    FailSession(ProtocolError),
}

/// One step of the client-side session machine; the contract pins every case.
/// A server `Ping` is answered and surfaced; presence and chat events are
/// surfaced; `quit` drains the session, while the other commands map one to
/// one onto protocol sends.
pub fn client_session_step(state: SessionState, event: ClientSessionEvent) -> (r: (
    SessionState,
    ClientSessionAction,
))
    requires
        state is Active,
    ensures
        ({
            let (next, act) = r;
            match event {
                ClientSessionEvent::Frame(m) => match m {
                    ServerToClientMessage::Ping => next is Active && act is AnswerPing,
                    ServerToClientMessage::Joined(a) => next is Active && act
                        == ClientSessionAction::Show(Notice::Joined(a)),
                    ServerToClientMessage::Left(a) => next is Active && act
                        == ClientSessionAction::Show(Notice::Left(a)),
                    ServerToClientMessage::Sent(s, a) => next is Active && act
                        == ClientSessionAction::Show(Notice::Chat(s, a)),
                },
                ClientSessionEvent::Fault(e) => next is Closed && act
                    == ClientSessionAction::FailSession(e),
                ClientSessionEvent::Command(c) => match c {
                    ClientCommand::Quit => next is Draining && act is SendLeave,
                    ClientCommand::Ping => next is Active && act
                        == ClientSessionAction::SendToServer(ClientToServerMessage::Ping),
                    ClientCommand::Send(s) => next is Active && act
                        == ClientSessionAction::SendToServer(ClientToServerMessage::Send(s)),
                },
            }
        }),
{
    match event {
        ClientSessionEvent::Frame(m) => match m {
            ServerToClientMessage::Ping => (SessionState::Active, ClientSessionAction::AnswerPing),
            ServerToClientMessage::Joined(a) => (
                SessionState::Active,
                ClientSessionAction::Show(Notice::Joined(a)),
            ),
            ServerToClientMessage::Left(a) => (
                SessionState::Active,
                ClientSessionAction::Show(Notice::Left(a)),
            ),
            ServerToClientMessage::Sent(s, a) => (
                SessionState::Active,
                ClientSessionAction::Show(Notice::Chat(s, a)),
            ),
        },
        ClientSessionEvent::Fault(e) => (SessionState::Closed, ClientSessionAction::FailSession(e)),
        ClientSessionEvent::Command(c) => match c {
            ClientCommand::Quit => (SessionState::Draining, ClientSessionAction::SendLeave),
            ClientCommand::Ping => (
                SessionState::Active,
                ClientSessionAction::SendToServer(ClientToServerMessage::Ping),
            ),
            ClientCommand::Send(s) => (
                SessionState::Active,
                ClientSessionAction::SendToServer(ClientToServerMessage::Send(s)),
            ),
        },
    }
}

/// Completes a drain: once the farewell write (best-effort) is done and the
/// write half is shut, the session is closed for good.
pub fn drain_complete(state: SessionState) -> (r: SessionState)
    requires
        state is Draining,
    ensures
        r is Closed,
{
    SessionState::Closed
}

} // verus!
