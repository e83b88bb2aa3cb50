//! Client-side core of a remote input-forwarding system.
//!
//! The library models the two subsystems that carry the real logic:
//! connection orchestration (racing candidate servers, the protocol
//! version handshake, the timeout-bounded message loop) and the input
//! event pipeline (the portable event representation, its bit-exact
//! mapping to raw OS input codes, virtual device lifecycle and routing).
//! All I/O and native syscalls are performed by a thin shell around this
//! crate; the decisions they act on are made and verified here.

pub mod address;
pub mod device;
pub mod event;
pub mod protocol;
pub mod racer;
pub mod writer;

use vstd::prelude::*;

verus! {

/// A protocol version identifier as exchanged during the handshake.
pub type ProtocolVersion = u16;

/// The protocol version this client speaks.
pub const PROTOCOL_VERSION: ProtocolVersion = 1;

} // verus!
