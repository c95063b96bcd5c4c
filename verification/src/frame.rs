//! The WebSocket frame type and its wire-format serialization.

use vstd::prelude::*;

use bytes::Bytes;
use bytes::BytesMut;

use crate::WebSocketError;
use crate::buffer::be16;
use crate::buffer::be64;
use crate::buffer::bytes_as_slice;
use crate::buffer::bytes_from_vec;
use crate::buffer::bytes_len;
use crate::buffer::bytes_mut_capacity;
use crate::buffer::bytes_mut_len;
use crate::buffer::bytes_mut_reserve;
use crate::buffer::bytes_mut_seq;
use crate::buffer::bytes_seq;
use crate::buffer::put_slice;
use crate::buffer::put_u16_be;
use crate::buffer::put_u64_be;
use crate::buffer::put_u8;

verus! {

/// The opcode of a WebSocket frame: exactly six legal values, each bound to
/// the fixed 4-bit code the protocol assigns it (see `opcode_value`).
#[derive(Debug, Copy, Clone, PartialEq, Eq, Structural)]
pub enum OpCode {
    Continuation,
    Text,
    Binary,
    Close,
    Ping,
    Pong,
}

/// The numeric code of an opcode: the value placed in the low four bits of a
/// frame header's first byte.
pub open spec fn opcode_value(op: OpCode) -> u8 {
    match op {
        OpCode::Continuation => 0x0,
        OpCode::Text => 0x1,
        OpCode::Binary => 0x2,
        OpCode::Close => 0x8,
        OpCode::Ping => 0x9,
        OpCode::Pong => 0xA,
    }
}

/// Whether a byte is one of the six legal opcode codes.
pub open spec fn is_opcode_byte(v: u8) -> bool {
    v == 0x0 || v == 0x1 || v == 0x2 || v == 0x8 || v == 0x9 || v == 0xA
}

impl OpCode {
    /// The numeric code of this opcode.
    pub fn code(self) -> (r: u8)
        ensures
            r == opcode_value(self),
    {
        match self {
            OpCode::Continuation => 0x0,
            OpCode::Text => 0x1,
            OpCode::Binary => 0x2,
            OpCode::Close => 0x8,
            OpCode::Ping => 0x9,
            OpCode::Pong => 0xA,
        }
    }

    /// Decodes an opcode from a raw byte: succeeds exactly on the six legal
    /// codes, yielding the opcode whose numeric code equals the byte, and
    /// fails with `InvalidValue` on every other byte.
    pub fn try_from(v: u8) -> (r: Result<OpCode, WebSocketError>)
        ensures
            match r {
                Ok(op) => is_opcode_byte(v) && opcode_value(op) == v,
                Err(e) => !is_opcode_byte(v) && e == WebSocketError::InvalidValue,
            },
    {
        match v {
            0x0 => Ok(OpCode::Continuation),
            0x1 => Ok(OpCode::Text),
            0x2 => Ok(OpCode::Binary),
            0x8 => Ok(OpCode::Close),
            0x9 => Ok(OpCode::Ping),
            0xA => Ok(OpCode::Pong),
            _ => Err(WebSocketError::InvalidValue),
        }
    }
}

/// Whether a byte sequence is valid UTF-8 text.
pub uninterp spec fn is_utf8_seq(s: Seq<u8>) -> bool;

/// Relies on `core::str::from_utf8`: succeeds exactly when the bytes are
/// valid UTF-8, a function of the bytes alone.
#[verifier::external_body]
fn utf8_check(s: &[u8]) -> (r: bool)
    ensures
        r == is_utf8_seq(s@),
{
    std::str::from_utf8(s).is_ok()
}

/// One WebSocket protocol frame: the final-flag, the opcode, and the
/// application payload. A message may span several frames; this type
/// represents exactly one. No relation between the opcode and the payload's
/// content is enforced at this layer.
#[derive(Debug)]
pub struct Frame {
    /// Whether this is the final frame of a message.
    pub fin: bool,
    /// The opcode of the frame.
    pub opcode: OpCode,
    /// The payload of the frame: an immutable, reference-counted byte buffer,
    /// shareable without copying the bytes.
    pub payload: Bytes,
}

/// The largest number of bytes `write` sets aside for a header when it grows
/// the output buffer: a safety margin above the true maximum header size of
/// ten bytes.
pub const MAX_HEAD_SIZE: usize = 16;

/// The first byte of a frame header: the FIN bit in the high bit, the three
/// reserved bits zero, and the opcode's numeric code in the low four bits.
/// The mask bit of the following byte is always zero: this layer produces
/// unmasked frames only.
pub open spec fn first_byte(fin: bool, op: OpCode) -> u8 {
    if fin {
        0x80u8 | opcode_value(op)
    } else {
        opcode_value(op)
    }
}

/// How many bytes the header spends on the payload length: one literal byte
/// up to 125, a 126 marker plus two big-endian bytes up to 65535, and a 127
/// marker plus eight big-endian bytes beyond that.
pub open spec fn len_field_size(len: nat) -> nat {
    if len < 126 {
        1
    } else if len < 65536 {
        3
    } else {
        9
    }
}

/// The length field of a frame header for a payload of `len` bytes.
pub open spec fn len_field(len: nat) -> Seq<u8> {
    if len < 126 {
        seq![len as u8]
    } else if len < 65536 {
        seq![126u8] + be16(len as u16)
    } else {
        seq![127u8] + be64(len as u64)
    }
}

/// The full header of a frame: the first byte followed by the length field.
pub open spec fn header_bytes(fin: bool, op: OpCode, len: nat) -> Seq<u8> {
    seq![first_byte(fin, op)] + len_field(len)
}

impl Frame {
    /// Creates a new WebSocket frame from its three parts, with no validation
    /// beyond what the types already enforce.
    pub fn new(fin: bool, opcode: OpCode, payload: Bytes) -> (r: Self)
        ensures
            r.fin == fin,
            r.opcode == opcode,
            r.payload == payload,
    {
        Self { fin, opcode, payload }
    }

    /// Creates a final binary frame carrying `payload`.
    pub fn binary(payload: Bytes) -> (r: Self)
        ensures
            r.fin == true,
            r.opcode == OpCode::Binary,
            r.payload == payload,
    {
        Self { fin: true, opcode: OpCode::Binary, payload }
    }

    /// Creates a final Close frame whose payload is the two big-endian bytes
    /// of `code` followed by `reason`'s raw bytes. Neither the code's
    /// legality nor the reason's UTF-8 validity is checked here; the protocol
    /// leaves both to the caller.
    pub fn close(code: u16, reason: &[u8]) -> (r: Self)
        requires
            reason@.len() + 2 <= usize::MAX,
        ensures
            r.fin == true,
            r.opcode == OpCode::Close,
            bytes_seq(r.payload) == be16(code) + reason@,
    {
        let mut payload: Vec<u8> = Vec::with_capacity(2 + reason.len());
        payload.push(((code >> 8) & 0xFF) as u8);
        payload.push((code & 0xFF) as u8);
        proof {
            assert(payload@ =~= be16(code) + reason@.subrange(0, 0));
        }
        let mut i: usize = 0;
        while i < reason.len()
            invariant
                i <= reason@.len(),
                payload@ == be16(code) + reason@.subrange(0, i as int),
            decreases reason@.len() - i,
        {
            payload.push(reason[i]);
            proof {
                assert(payload@ =~= be16(code) + reason@.subrange(0, i + 1));
            }
            i = i + 1;
        }
        proof {
            assert(reason@.subrange(0, reason@.len() as int) =~= reason@);
        }
        Self { fin: true, opcode: OpCode::Close, payload: bytes_from_vec(payload) }
    }

    /// Creates a final Close frame from an already-encoded raw payload,
    /// including the leading status code if any. The payload's shape is not
    /// checked here.
    pub fn close_raw(payload: Bytes) -> (r: Self)
        ensures
            r.fin == true,
            r.opcode == OpCode::Close,
            r.payload == payload,
    {
        Self { fin: true, opcode: OpCode::Close, payload }
    }

    /// Creates a final Pong frame carrying `payload`.
    pub fn pong(payload: Bytes) -> (r: Self)
        ensures
            r.fin == true,
            r.opcode == OpCode::Pong,
            r.payload == payload,
    {
        Self { fin: true, opcode: OpCode::Pong, payload }
    }

    /// Whether the payload's bytes form valid UTF-8 text. Purely
    /// informational: no operation of this layer rejects a payload for its
    /// content.
    pub fn is_utf8(&self) -> (r: bool)
        ensures
            r == is_utf8_seq(bytes_seq(self.payload)),
    {
        utf8_check(bytes_as_slice(&self.payload))
    }

    /// Writes the frame's header — not the payload — onto the end of `buf`:
    /// the first byte, then the one-, three- or nine-byte length field.
    pub fn fmt_head(&mut self, buf: &mut BytesMut)
        requires
            bytes_mut_seq(*old(buf)).len() + 1 + len_field_size(
                bytes_seq(old(self).payload).len(),
            ) <= isize::MAX,
        ensures
            *final(self) == *old(self),
            bytes_mut_seq(*final(buf)) == bytes_mut_seq(*old(buf)) + header_bytes(
                old(self).fin,
                old(self).opcode,
                bytes_seq(old(self).payload).len(),
            ),
            bytes_mut_seq(*final(buf)).len() == bytes_mut_seq(*old(buf)).len() + 1
                + len_field_size(bytes_seq(old(self).payload).len()),
    {
        let code: u8 = self.opcode.code();
        let b0: u8 = if self.fin {
            0x80u8 | code
        } else {
            code
        };
        put_u8(buf, b0);

        let len: usize = bytes_len(&self.payload);
        if len < 126 {
            put_u8(buf, len as u8);
        } else if len < 65536 {
            put_u8(buf, 126);
            put_u16_be(buf, len as u16);
        } else {
            put_u8(buf, 127);
            put_u64_be(buf, len as u64);
        }
        proof {
            assert(bytes_mut_seq(*buf) =~= bytes_mut_seq(*old(buf)) + header_bytes(
                old(self).fin,
                old(self).opcode,
                len as nat,
            ));
        }
    }

    /// Serializes the whole frame onto the end of `buf`: grows the buffer up
    /// front when its spare capacity is smaller than the payload — so that
    /// the header and payload writes that follow need no further growth —
    /// then appends the header and the payload. Afterwards `buf` has grown by
    /// exactly the header followed by the payload.
    pub fn write(&mut self, buf: &mut BytesMut)
        requires
            bytes_mut_seq(*old(buf)).len() + bytes_seq(old(self).payload).len() + MAX_HEAD_SIZE
                <= isize::MAX,
        ensures
            *final(self) == *old(self),
            bytes_mut_seq(*final(buf)) == bytes_mut_seq(*old(buf)) + header_bytes(
                old(self).fin,
                old(self).opcode,
                bytes_seq(old(self).payload).len(),
            ) + bytes_seq(old(self).payload),
            bytes_mut_seq(*final(buf)).len() == bytes_mut_seq(*old(buf)).len() + 1
                + len_field_size(bytes_seq(old(self).payload).len()) + bytes_seq(
                old(self).payload,
            ).len(),
    {
        let len: usize = bytes_len(&self.payload);
        let spare: usize = bytes_mut_capacity(buf) - bytes_mut_len(buf);
        if len > spare {
            bytes_mut_reserve(buf, len + MAX_HEAD_SIZE - spare);
        }

        self.fmt_head(buf);
        put_slice(buf, bytes_as_slice(&self.payload));
    }
}

/// The FIN flag a receiver reads back from a header: the high bit of the
/// first byte.
pub open spec fn parsed_fin(h: Seq<u8>) -> bool {
    h[0] & 0x80 == 0x80
}

/// The opcode bits a receiver reads back from a header: the low four bits of
/// the first byte.
pub open spec fn parsed_opcode_bits(h: Seq<u8>) -> u8 {
    h[0] & 0x0F
}

/// The payload length a receiver reads back from a header: the second byte
/// when it is below 126, else the two- or eight-byte big-endian extension
/// that follows it. The mask bit is zero in every header this layer writes,
/// so the second byte is the length indicator itself.
pub open spec fn parsed_len(h: Seq<u8>) -> u64 {
    if h[1] < 126 {
        h[1] as u64
    } else if h[1] == 126 {
        ((h[2] as u64) << 8) | (h[3] as u64)
    } else {
        ((h[2] as u64) << 56) | ((h[3] as u64) << 48) | ((h[4] as u64) << 40) | ((h[5] as u64)
            << 32) | ((h[6] as u64) << 24) | ((h[7] as u64) << 16) | ((h[8] as u64) << 8) | (
        h[9] as u64)
    }
}

/// A header is as long as its length field plus the one leading byte.
pub proof fn lemma_header_len(fin: bool, op: OpCode, len: nat)
    ensures
        header_bytes(fin, op, len).len() == 1 + len_field_size(len),
{
}

/// Round trip of the header fields: for every final-flag, opcode and payload
/// length the protocol can carry, reading the serialized header back yields
/// the same final-flag, the opcode's numeric code, and the same length.
pub proof fn lemma_header_round_trip(fin: bool, op: OpCode, len: nat)
    requires
        len <= u64::MAX,
    ensures
        parsed_fin(header_bytes(fin, op, len)) == fin,
        parsed_opcode_bits(header_bytes(fin, op, len)) == opcode_value(op),
        parsed_len(header_bytes(fin, op, len)) == len,
{
    let h = header_bytes(fin, op, len);
    let c = opcode_value(op);
    assert(c == 0x0 || c == 0x1 || c == 0x2 || c == 0x8 || c == 0x9 || c == 0xA);
    assert(h[0] == first_byte(fin, op));
    assert((0x80u8 | c) & 0x80 == 0x80 && (0x80u8 | c) & 0x0F == c) by (bit_vector)
        requires
            c < 16,
    ;
    assert(c & 0x80 == 0 && c & 0x0F == c) by (bit_vector)
        requires
            c < 16,
    ;
    if len < 126 {
        assert(h[1] == len as u8);
    } else if len < 65536 {
        let w = len as u16;
        assert(h[1] == 126);
        assert(h[2] == be16(w)[0] && h[3] == be16(w)[1]);
        assert(((((w >> 8) & 0xFF) as u8 as u64) << 8) | ((w & 0xFF) as u8 as u64)
            == w as u64) by (bit_vector);
    } else {
        let v = len as u64;
        assert(h[1] == 127);
        assert(h[2] == be64(v)[0] && h[3] == be64(v)[1] && h[4] == be64(v)[2] && h[5] == be64(
            v,
        )[3] && h[6] == be64(v)[4] && h[7] == be64(v)[5] && h[8] == be64(v)[6] && h[9] == be64(
            v,
        )[7]);
        assert(((((v >> 56) & 0xFF) as u8 as u64) << 56) | ((((v >> 48) & 0xFF) as u8 as u64)
            << 48) | ((((v >> 40) & 0xFF) as u8 as u64) << 40) | ((((v >> 32) & 0xFF) as u8 as u64)
            << 32) | ((((v >> 24) & 0xFF) as u8 as u64) << 24) | ((((v >> 16) & 0xFF) as u8 as u64)
            << 16) | ((((v >> 8) & 0xFF) as u8 as u64) << 8) | ((v & 0xFF) as u8 as u64)
            == v) by (bit_vector);
    }
}

/// The shape of a serialized binary frame: for every payload, the bytes
/// `write` appends for the frame `binary(payload)` — the header followed by
/// the payload — number exactly one byte plus the length field plus the
/// payload, and their first byte is `0x82` (FIN set, opcode Binary).
pub proof fn lemma_binary_frame_shape(p: Seq<u8>)
    ensures
        (header_bytes(true, OpCode::Binary, p.len()) + p).len() == 1 + len_field_size(p.len())
            + p.len(),
        (header_bytes(true, OpCode::Binary, p.len()) + p)[0] == 0x82,
{
    lemma_header_len(true, OpCode::Binary, p.len());
    assert(0x80u8 | 0x02 == 0x82) by (bit_vector);
}

/// Whether an opcode marks a control frame (Close, Ping or Pong) rather than
/// a data frame (Continuation, Text or Binary).
pub fn is_control(opcode: OpCode) -> (r: bool)
    ensures
        r == (opcode == OpCode::Close || opcode == OpCode::Ping || opcode == OpCode::Pong),
{
    matches!(opcode, OpCode::Close | OpCode::Ping | OpCode::Pong)
}

} // verus!
