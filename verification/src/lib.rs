//! Connection-protocol engine for a broadcast chat service.
//!
//! * [`messages`] — the protocol message values exchanged between client and
//!   server, and the endpoint identity token that names peers.
//! * [`codec`] — the wire codec: a length-prefixed frame around a
//!   self-describing binary (CBOR) encoding of one message value, written and
//!   parsed by verified functions on bytes, with proved round-trip and
//!   length-integrity laws.
//! * [`hub`] — the server-side broadcast hub: bounded per-subscriber queues
//!   over a single publish log, with exact overflow (lag) accounting, and
//!   proved fan-out, isolation and join-visibility laws.
//! * [`session`] — the per-connection duplex state machine, as pure step
//!   functions from state and event to next state and action; the caller owns
//!   the sockets and queues, performs each action, and feeds the next event
//!   back in.

pub mod codec;
pub mod hub;
pub mod messages;
pub mod session;
