//! Protocol message values and their mathematical views.
//!
//! Text carried by a message is modelled in contracts as a sequence of
//! characters; an endpoint identity is a plain IPv4 address and port, used
//! only as a display/identity token.

use vstd::prelude::*;

verus! {

/// Transport-level endpoint identity: an IPv4 address and a port.
///
/// The hub and the sessions treat it as an opaque token: it names who joined,
/// left or spoke, and is never dialled back into a connection.
#[derive(Clone, Copy, PartialEq, Eq, Structural, Debug)]
pub struct Address {
    pub a: u8,
    pub b: u8,
    pub c: u8,
    pub d: u8,
    pub port: u16,
}

/// A message sent by a client to the server.
#[derive(Debug, PartialEq, Eq)]
pub enum ClientToServerMessage {
    /// The client is leaving; the session drains and closes.
    Leave,
    /// Liveness probe; the server logs its arrival.
    Ping,
    /// A chat line to fan out to every connected client.
    Send(String),
}

/// A message broadcast by the server to every connected client.
#[derive(Debug, PartialEq, Eq)]
pub enum ServerToClientMessage {
    /// Server-wide heartbeat probe; clients answer with a client `Ping`.
    Ping,
    /// A peer connected.
    Joined(Address),
    /// A peer disconnected.
    Left(Address),
    /// A peer sent a chat line.
    Sent(String, Address),
}

/// Mathematical value of a [`ClientToServerMessage`]: text as characters.
pub enum C2s {
    Leave,
    Ping,
    Send(Seq<char>),
}

/// Mathematical value of a [`ServerToClientMessage`]: text as characters.
pub enum S2c {
    Ping,
    Joined(Address),
    Left(Address),
    Sent(Seq<char>, Address),
}

impl View for ClientToServerMessage {
    type V = C2s;

    open spec fn view(&self) -> C2s {
        match self {
            ClientToServerMessage::Leave => C2s::Leave,
            ClientToServerMessage::Ping => C2s::Ping,
            ClientToServerMessage::Send(s) => C2s::Send(s@),
        }
    }
}

impl View for ServerToClientMessage {
    type V = S2c;

    open spec fn view(&self) -> S2c {
        match self {
            ServerToClientMessage::Ping => S2c::Ping,
            ServerToClientMessage::Joined(a) => S2c::Joined(*a),
            ServerToClientMessage::Left(a) => S2c::Left(*a),
            ServerToClientMessage::Sent(s, a) => S2c::Sent(s@, *a),
        }
    }
}

impl Clone for ClientToServerMessage {
    /// A clone denotes the same message value.
    fn clone(&self) -> (r: Self)
        ensures
            r@ == self@,
    {
        match self {
            ClientToServerMessage::Leave => ClientToServerMessage::Leave,
            ClientToServerMessage::Ping => ClientToServerMessage::Ping,
            ClientToServerMessage::Send(s) => ClientToServerMessage::Send(s.clone()),
        }
    }
}

impl Clone for ServerToClientMessage {
    /// A clone denotes the same message value; the hub relies on this when it
    /// hands one published event to many subscribers.
    fn clone(&self) -> (r: Self)
        ensures
            r@ == self@,
    {
        match self {
            ServerToClientMessage::Ping => ServerToClientMessage::Ping,
            ServerToClientMessage::Joined(a) => ServerToClientMessage::Joined(*a),
            ServerToClientMessage::Left(a) => ServerToClientMessage::Left(*a),
            ServerToClientMessage::Sent(s, a) => ServerToClientMessage::Sent(s.clone(), *a),
        }
    }
}

} // verus!
