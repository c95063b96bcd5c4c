//! WebSocket frame representation and wire-format serialization (RFC 6455,
//! section 5): the six-opcode tag type with strict decoding from a raw byte,
//! the `Frame` value, and the routine that writes a frame's variable-length
//! binary header and payload into a growable output buffer.

use vstd::prelude::*;

pub mod buffer;
pub mod frame;

verus! {

/// The errors this layer can produce. Decoding an opcode from a byte that is
/// not one of the six legal codes is the only failure; payload content never
/// causes an error.
#[derive(Debug, Clone, Copy, PartialEq, Eq, Structural)]
pub enum WebSocketError {
    /// A raw byte did not match any legal opcode.
    InvalidValue,
}

} // verus!
