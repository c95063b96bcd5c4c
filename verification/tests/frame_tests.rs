use bytes::Bytes;
use bytes::BytesMut;

use ws_frame::WebSocketError;
use ws_frame::frame::Frame;
use ws_frame::frame::OpCode;
use ws_frame::frame::is_control;

fn opcode_of(b: u8) -> Option<OpCode> {
    match b {
        0x0 => Some(OpCode::Continuation),
        0x1 => Some(OpCode::Text),
        0x2 => Some(OpCode::Binary),
        0x8 => Some(OpCode::Close),
        0x9 => Some(OpCode::Ping),
        0xA => Some(OpCode::Pong),
        _ => None,
    }
}

#[test]
fn opcode_decode_every_byte() {
    for b in 0..=255u8 {
        match (OpCode::try_from(b), opcode_of(b)) {
            (Ok(op), Some(expected)) => {
                assert_eq!(op, expected);
                assert_eq!(op.code(), b);
            }
            (Err(e), None) => assert_eq!(e, WebSocketError::InvalidValue),
            (r, _) => panic!("decode of {} disagrees with the legal set: {:?}", b, r),
        }
    }
}

#[test]
fn control_frames_are_close_ping_pong() {
    assert!(!is_control(OpCode::Continuation));
    assert!(!is_control(OpCode::Text));
    assert!(!is_control(OpCode::Binary));
    assert!(is_control(OpCode::Close));
    assert!(is_control(OpCode::Ping));
    assert!(is_control(OpCode::Pong));
}

/// Reads back (fin, opcode bits, payload length, header size) from a
/// serialized header, the way a receiving peer would.
fn reparse_header(h: &[u8]) -> (bool, u8, u64, usize) {
    let fin = h[0] & 0x80 == 0x80;
    let opcode = h[0] & 0x0F;
    assert_eq!(h[1] & 0x80, 0, "mask bit must never be set");
    match h[1] {
        126 => {
            let len = u16::from_be_bytes([h[2], h[3]]);
            (fin, opcode, u64::from(len), 4)
        }
        127 => {
            let len = u64::from_be_bytes([h[2], h[3], h[4], h[5], h[6], h[7], h[8], h[9]]);
            (fin, opcode, len, 10)
        }
        n => (fin, opcode, u64::from(n), 2),
    }
}

#[test]
fn header_fields_round_trip() {
    let opcodes = [
        OpCode::Continuation,
        OpCode::Text,
        OpCode::Binary,
        OpCode::Close,
        OpCode::Ping,
        OpCode::Pong,
    ];
    let sizes = [0usize, 1, 5, 125, 126, 1000, 65535, 65536, 100000];
    for &opcode in &opcodes {
        for &fin in &[false, true] {
            for &size in &sizes {
                let mut f = Frame::new(fin, opcode, Bytes::from(vec![0x5Au8; size]));
                let mut buf = BytesMut::new();
                f.write(&mut buf);
                let (got_fin, got_op, got_len, head) = reparse_header(&buf[..]);
                assert_eq!(got_fin, fin);
                assert_eq!(got_op, opcode.code());
                assert_eq!(got_len, size as u64);
                assert_eq!(buf.len(), head + size);
                assert_eq!(&buf[head..], &vec![0x5Au8; size][..]);
            }
        }
    }
}

#[test]
fn length_field_tier_boundaries() {
    let mut f = Frame::binary(Bytes::from(vec![0u8; 125]));
    let mut buf = BytesMut::new();
    f.fmt_head(&mut buf);
    assert_eq!(buf.len(), 2);
    assert_eq!(buf[1], 125);

    let mut f = Frame::binary(Bytes::from(vec![0u8; 126]));
    let mut buf = BytesMut::new();
    f.fmt_head(&mut buf);
    assert_eq!(buf.len(), 4);
    assert_eq!(buf[1], 126);
    assert_eq!(u16::from_be_bytes([buf[2], buf[3]]), 126);

    let mut f = Frame::binary(Bytes::from(vec![0u8; 65535]));
    let mut buf = BytesMut::new();
    f.fmt_head(&mut buf);
    assert_eq!(buf.len(), 4);
    assert_eq!(buf[1], 126);
    assert_eq!(u16::from_be_bytes([buf[2], buf[3]]), 65535);

    let mut f = Frame::binary(Bytes::from(vec![0u8; 65536]));
    let mut buf = BytesMut::new();
    f.fmt_head(&mut buf);
    assert_eq!(buf.len(), 10);
    assert_eq!(buf[1], 127);
    let ext = u64::from_be_bytes([
        buf[2], buf[3], buf[4], buf[5], buf[6], buf[7], buf[8], buf[9],
    ]);
    assert_eq!(ext, 65536);
}

#[test]
fn close_encodes_code_then_reason() {
    let f = Frame::close(1000, b"bye");
    assert_eq!(f.fin, true);
    assert_eq!(f.opcode, OpCode::Close);
    assert_eq!(&f.payload[..], &[0x03, 0xE8, b'b', b'y', b'e']);
}

#[test]
fn close_with_empty_reason() {
    let f = Frame::close(1001, b"");
    assert_eq!(&f.payload[..], &[0x03, 0xE9]);
}

#[test]
fn close_raw_keeps_payload() {
    let f = Frame::close_raw(Bytes::from_static(&[0x03, 0xE8]));
    assert_eq!(f.fin, true);
    assert_eq!(f.opcode, OpCode::Close);
    assert_eq!(&f.payload[..], &[0x03, 0xE8]);
}

#[test]
fn pong_keeps_payload() {
    let f = Frame::pong(Bytes::from_static(b"ka"));
    assert_eq!(f.fin, true);
    assert_eq!(f.opcode, OpCode::Pong);
    assert_eq!(&f.payload[..], b"ka");
}

fn expected_head_size(len: usize) -> usize {
    if len < 126 {
        2
    } else if len < 65536 {
        4
    } else {
        10
    }
}

#[test]
fn binary_write_appends_header_then_payload() {
    for &size in &[0usize, 1, 125, 126, 65535, 65536] {
        let payload = vec![0xABu8; size];
        let mut f = Frame::binary(Bytes::from(payload.clone()));
        let mut buf = BytesMut::from(&b"prefix"[..]);
        let before = buf.len();
        f.write(&mut buf);
        assert_eq!(buf.len() - before, expected_head_size(size) + size);
        assert_eq!(buf[before], 0x80 | 0x02);
        assert_eq!(&buf[..before], b"prefix");
        assert_eq!(&buf[before + expected_head_size(size)..], &payload[..]);
    }
}

#[test]
fn write_reserves_capacity_up_front() {
    // With enough spare capacity for payload and header, write must not grow
    // the buffer at all.
    let mut f = Frame::binary(Bytes::from(vec![7u8; 100000]));
    let mut buf = BytesMut::with_capacity(100000 + 16);
    let cap_before = buf.capacity();
    f.write(&mut buf);
    assert_eq!(buf.capacity(), cap_before);

    // From an empty buffer, one write leaves room for header and payload in
    // a single up-front reservation.
    let mut f = Frame::binary(Bytes::from(vec![7u8; 100000]));
    let mut buf = BytesMut::new();
    f.write(&mut buf);
    assert!(buf.capacity() >= 100000 + 10);
}

#[test]
fn is_utf8_checks_payload_text() {
    let f = Frame::new(true, OpCode::Text, Bytes::from_static(&[0xFF, 0xFE]));
    assert!(!f.is_utf8());
    let f = Frame::new(true, OpCode::Text, Bytes::from_static(b"hello"));
    assert!(f.is_utf8());
}
