use ws_proto::error::ProtocolError;
use ws_proto::frame::Parser;
use ws_proto::mask::apply_mask;
use ws_proto::proto::OpCode;

const MAX: usize = 1 << 20;

fn roundtrip(fin: bool, op: OpCode, key: Option<[u8; 4]>, payload: &[u8]) {
    let server = key.is_some();
    let mut wire: Vec<u8> = Vec::new();
    Parser::write_message(&mut wire, fin, op, key, &payload.to_vec());
    let mut buf = wire.clone();
    let (rfin, rop, rpayload) = Parser::parse(&mut buf, server, MAX).unwrap().unwrap();
    assert_eq!(rfin, fin);
    assert_eq!(rop, op);
    assert_eq!(rpayload, payload.to_vec());
    assert!(buf.is_empty());
}

#[test]
fn masking_round_trip() {
    let key = [0x37u8, 0xfa, 0x21, 0x3d];
    let original = b"Hello".to_vec();
    let mut buf = original.clone();
    apply_mask(&mut buf, &key);
    assert_ne!(buf, original);
    // The masked sample from the protocol specification.
    assert_eq!(buf, vec![0x7f, 0x9f, 0x4d, 0x51, 0x58]);
    apply_mask(&mut buf, &key);
    assert_eq!(buf, original);
}

#[test]
fn frame_round_trip_all_length_classes() {
    let key = Some([1u8, 2, 3, 4]);
    for payload_len in [0usize, 1, 125, 126, 300, 65535, 65536, 70000] {
        let payload: Vec<u8> = (0..payload_len).map(|i| (i % 251) as u8).collect();
        roundtrip(true, OpCode::Binary, key, &payload);
        roundtrip(true, OpCode::Binary, None, &payload);
        roundtrip(false, OpCode::Text, None, &payload);
        roundtrip(false, OpCode::Continue, key, &payload);
    }
    roundtrip(true, OpCode::Ping, None, b"ping");
    roundtrip(true, OpCode::Pong, Some([9, 9, 9, 9]), b"");
    roundtrip(true, OpCode::Close, None, &[0x03, 0xe8]);
}

#[test]
fn exact_wire_format() {
    let mut wire: Vec<u8> = Vec::new();
    Parser::write_message(&mut wire, true, OpCode::Text, None, &b"Hi".to_vec());
    assert_eq!(wire, vec![0x81, 0x02, b'H', b'i']);

    let mut wire: Vec<u8> = Vec::new();
    Parser::write_message(&mut wire, false, OpCode::Binary, None, &vec![0u8; 126]);
    assert_eq!(&wire[..4], &[0x02, 0x7e, 0x00, 0x7e]);

    let mut wire: Vec<u8> = Vec::new();
    Parser::write_message(&mut wire, true, OpCode::Binary, None, &vec![0u8; 65536]);
    assert_eq!(
        &wire[..10],
        &[0x82, 0x7f, 0x00, 0x00, 0x00, 0x00, 0x00, 0x01, 0x00, 0x00]
    );
}

#[test]
fn control_frame_length_126_is_invalid() {
    // An unmasked Close frame declaring a 7-bit length field of 126.
    let mut buf = vec![0x88u8, 0x7e, 0x00, 0x7e];
    assert_eq!(
        Parser::parse(&mut buf, false, MAX),
        Err(ProtocolError::InvalidLength(126))
    );
    let mut buf = vec![0x89u8, 0x7e, 0x00, 0x7e];
    assert_eq!(
        Parser::parse(&mut buf, false, MAX),
        Err(ProtocolError::InvalidLength(126))
    );
    let mut buf = vec![0x8au8, 0x7e, 0x00, 0x7e];
    assert_eq!(
        Parser::parse(&mut buf, false, MAX),
        Err(ProtocolError::InvalidLength(126))
    );
}

#[test]
fn fragmented_control_frame_is_invalid() {
    // A Ping frame with fin = 0.
    let mut buf = vec![0x09u8, 0x00];
    assert_eq!(
        Parser::parse(&mut buf, false, MAX),
        Err(ProtocolError::InvalidLength(0))
    );
}

#[test]
fn masking_role_mismatches() {
    // The server must reject unmasked frames.
    let mut buf = vec![0x81u8, 0x01, b'x'];
    assert_eq!(
        Parser::parse(&mut buf, true, MAX),
        Err(ProtocolError::UnmaskedFrame)
    );
    // The client must reject masked frames.
    let mut buf = vec![0x81u8, 0x81, 1, 2, 3, 4, b'x'];
    assert_eq!(
        Parser::parse(&mut buf, false, MAX),
        Err(ProtocolError::MaskedFrame)
    );
}

#[test]
fn reserved_opcodes_and_bits_are_invalid() {
    for op in [0x3u8, 0x4, 0x5, 0x6, 0x7, 0xb, 0xc, 0xd, 0xe, 0xf] {
        let mut buf = vec![0x80u8 | op, 0x00];
        assert_eq!(
            Parser::parse(&mut buf, false, MAX),
            Err(ProtocolError::InvalidOpcode(op))
        );
    }
    // A set reserved header bit.
    let mut buf = vec![0xc1u8, 0x00];
    assert_eq!(Parser::parse(&mut buf, false, MAX), Err(ProtocolError::BadOpCode));
}

#[test]
fn incomplete_frames_consume_nothing() {
    // Nothing, a bare header, a truncated extended length, a truncated body.
    for bytes in [
        vec![],
        vec![0x81u8],
        vec![0x82u8, 0x7e, 0x01],
        vec![0x81u8, 0x05, b'a', b'b'],
    ] {
        let mut buf = bytes.clone();
        assert_eq!(Parser::parse(&mut buf, false, MAX), Ok(None));
        assert_eq!(buf, bytes);
    }
}

#[test]
fn oversized_declared_length_is_overflow() {
    // A declared length beyond the configured limit.
    let mut buf = vec![0x82u8, 0x7e, 0x01, 0x00];
    assert_eq!(Parser::parse(&mut buf, false, 255), Err(ProtocolError::Overflow));
    // A 64-bit length with its high bit set.
    let mut buf = vec![0x82u8, 0x7f, 0x80, 0, 0, 0, 0, 0, 0, 1];
    assert_eq!(
        Parser::parse(&mut buf, false, usize::MAX),
        Err(ProtocolError::Overflow)
    );
}

#[test]
fn parse_consumes_exactly_one_frame() {
    let mut wire: Vec<u8> = Vec::new();
    Parser::write_message(&mut wire, true, OpCode::Text, None, &b"one".to_vec());
    Parser::write_message(&mut wire, true, OpCode::Text, None, &b"two".to_vec());
    let (_, _, p1) = Parser::parse(&mut wire, false, MAX).unwrap().unwrap();
    assert_eq!(p1, b"one".to_vec());
    let (_, _, p2) = Parser::parse(&mut wire, false, MAX).unwrap().unwrap();
    assert_eq!(p2, b"two".to_vec());
    assert!(wire.is_empty());
}
