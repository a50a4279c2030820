//! Session-transport core of a real-time media engine: a secure-transport
//! negotiator that drives a datagram handshake to completion, and an inbound
//! stream receiver that binds per-SSRC read pipelines, tracks simulcast
//! tracks with their repair streams, and tears everything down idempotently.
//!
//! The state machines and bookkeeping rules live here, fully verified; the
//! asynchronous shell (sockets, handshake I/O, interceptor calls) drives them
//! from outside and hands back plain values.

pub mod errors;
pub mod extmap;
pub mod receiver;
pub mod rtcp_codec;
pub mod text;
pub mod transport;
