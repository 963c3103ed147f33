//! Client-side wire transport for a multi-device messaging protocol:
//! length-prefixed framing, a Noise-pattern handshake that derives two
//! directional cipher states, and a compact binary codec for the
//! tree-structured stanzas exchanged after the handshake.

pub mod encoding;
pub mod jid;
pub mod token;
pub mod frame;
pub mod node;
pub mod codec;
pub mod crypto;
pub mod handshake;
pub mod session;
pub mod presence;
pub mod message;
pub mod jsontime;
pub mod call;
pub mod group;
pub mod user;
pub mod newsletter;

use vstd::prelude::*;

verus! {

/// Width of the big-endian frame length prefix, in bytes.
pub const FRAME_LENGTH_SIZE: usize = 3;

/// A frame payload must be strictly smaller than this (the length
/// prefix is three bytes, so `FRAME_MAX_SIZE - 1` is the largest
/// encodable length).
pub const FRAME_MAX_SIZE: usize = 0x1000000;

} // verus!
