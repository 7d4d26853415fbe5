use ws_proto::codec::{parse_close_payload, write_close_payload, Codec, Item, Message};
use ws_proto::error::ProtocolError;
use ws_proto::proto::{CloseCode, CloseReason, OpCode};

fn feed_text_fragments(codec: &mut Codec, parts: &[&[u8]]) -> Result<Option<Message>, ProtocolError> {
    let n = parts.len();
    let mut last = Ok(None);
    for (i, p) in parts.iter().enumerate() {
        let fin = i == n - 1;
        let op = if i == 0 { OpCode::Text } else { OpCode::Continue };
        last = codec.feed(fin, op, p.to_vec());
        if i != n - 1 {
            assert_eq!(last, Ok(None));
        }
    }
    last
}

#[test]
fn fragmentation_reassembles_regardless_of_split() {
    let splits: &[&[&[u8]]] = &[
        &[b"Hello, world!"],
        &[b"Hello", b", world!"],
        &[b"H", b"", b"ello, wor", b"", b"ld!"],
        &[b"", b"Hello, world!", b""],
    ];
    for parts in splits {
        let mut codec = Codec::new();
        let out = feed_text_fragments(&mut codec, parts);
        assert_eq!(out, Ok(Some(Message::Text("Hello, world!".to_string()))));
    }
}

#[test]
fn binary_fragmentation_reassembles() {
    let mut codec = Codec::new();
    assert_eq!(codec.feed(false, OpCode::Binary, vec![1, 2]), Ok(None));
    assert_eq!(codec.feed(false, OpCode::Continue, vec![3]), Ok(None));
    assert_eq!(
        codec.feed(true, OpCode::Continue, vec![4, 5]),
        Ok(Some(Message::Binary(vec![1, 2, 3, 4, 5])))
    );
}

#[test]
fn control_frames_interleave_without_disturbing_assembly() {
    let mut codec = Codec::new();
    assert_eq!(codec.feed(false, OpCode::Text, b"Hel".to_vec()), Ok(None));
    // A ping arriving mid-fragmentation is emitted at once.
    assert_eq!(
        codec.feed(true, OpCode::Ping, b"hb".to_vec()),
        Ok(Some(Message::Ping(b"hb".to_vec())))
    );
    assert_eq!(
        codec.feed(true, OpCode::Pong, b"hb".to_vec()),
        Ok(Some(Message::Pong(b"hb".to_vec())))
    );
    // The fragmented message still reassembles.
    assert_eq!(
        codec.feed(true, OpCode::Continue, b"lo".to_vec()),
        Ok(Some(Message::Text("Hello".to_string())))
    );
}

#[test]
fn overflow_drops_assembly() {
    let mut codec = Codec::new().max_size(8);
    assert_eq!(codec.feed(false, OpCode::Text, b"12345".to_vec()), Ok(None));
    assert_eq!(
        codec.feed(true, OpCode::Continue, b"6789A".to_vec()),
        Err(ProtocolError::Overflow)
    );
    // The buffered fragment was dropped with the failure.
    assert_eq!(
        codec.feed(true, OpCode::Continue, b"x".to_vec()),
        Err(ProtocolError::ContinuationNotStarted)
    );
}

#[test]
fn malformed_continuations() {
    let mut codec = Codec::new();
    assert_eq!(
        codec.feed(true, OpCode::Continue, b"x".to_vec()),
        Err(ProtocolError::ContinuationNotStarted)
    );
    assert_eq!(codec.feed(false, OpCode::Text, b"a".to_vec()), Ok(None));
    assert_eq!(
        codec.feed(false, OpCode::Text, b"b".to_vec()),
        Err(ProtocolError::ContinuationStarted)
    );
    assert_eq!(
        codec.feed(true, OpCode::Binary, b"b".to_vec()),
        Err(ProtocolError::ContinuationStarted)
    );
    assert_eq!(codec.feed(true, OpCode::Bad, vec![]), Err(ProtocolError::BadOpCode));
}

#[test]
fn invalid_utf8_text_is_a_protocol_violation() {
    let mut codec = Codec::new();
    assert_eq!(
        codec.feed(true, OpCode::Text, vec![0xff, 0xfe]),
        Err(ProtocolError::Io)
    );
    let mut codec = Codec::new();
    assert_eq!(codec.feed(false, OpCode::Text, vec![0xe2, 0x82]), Ok(None));
    assert_eq!(
        codec.feed(true, OpCode::Continue, vec![0x10]),
        Err(ProtocolError::Io)
    );
    // The same leading bytes complete into valid UTF-8.
    let mut codec = Codec::new();
    assert_eq!(codec.feed(false, OpCode::Text, vec![0xe2, 0x82]), Ok(None));
    assert_eq!(
        codec.feed(true, OpCode::Continue, vec![0xac]),
        Ok(Some(Message::Text("\u{20ac}".to_string())))
    );
}

#[test]
fn close_payload_round_trip() {
    let reason = Some(CloseReason { code: CloseCode::Normal, description: None });
    let payload = write_close_payload(&reason);
    assert_eq!(payload, vec![0x03, 0xe8]);
    assert_eq!(parse_close_payload(&payload), reason);

    let reason = Some(CloseReason {
        code: CloseCode::Away,
        description: Some("bye".to_string()),
    });
    let payload = write_close_payload(&reason);
    assert_eq!(payload, vec![0x03, 0xe9, b'b', b'y', b'e']);
    assert_eq!(parse_close_payload(&payload), reason);

    assert_eq!(write_close_payload(&None), Vec::<u8>::new());
    assert_eq!(parse_close_payload(&vec![]), None);
    assert_eq!(parse_close_payload(&vec![0x03]), None);
    // An unknown numeric code is carried through.
    assert_eq!(
        parse_close_payload(&vec![0x0b, 0xb8]),
        Some(CloseReason { code: CloseCode::Other(3000), description: None })
    );
    // An invalid UTF-8 description is dropped, the code kept.
    assert_eq!(
        parse_close_payload(&vec![0x03, 0xf1, 0xff]),
        Some(CloseReason { code: CloseCode::Size, description: None })
    );
}

#[test]
fn decode_pumps_frames_to_messages() {
    // A client encodes (masked); the server-role codec decodes.
    let client = Codec::new().client_mode();
    let mut server = Codec::new();
    let key = Some([7u8, 7, 7, 7]);
    let mut wire: Vec<u8> = Vec::new();
    client.encode(
        &Message::Continuation(Item::FirstText(b"Hel".to_vec())),
        key,
        &mut wire,
    );
    client.encode(&Message::Continuation(Item::Last(b"lo".to_vec())), key, &mut wire);
    client.encode(&Message::Ping(b"p".to_vec()), key, &mut wire);

    assert_eq!(
        server.decode(&mut wire),
        Ok(Some(Message::Text("Hello".to_string())))
    );
    assert_eq!(server.decode(&mut wire), Ok(Some(Message::Ping(b"p".to_vec()))));
    assert_eq!(server.decode(&mut wire), Ok(None));
    assert!(wire.is_empty());
}

#[test]
fn decode_reports_incomplete_without_consuming() {
    let mut server = Codec::new();
    let client = Codec::new().client_mode();
    let mut wire: Vec<u8> = Vec::new();
    client.encode(&Message::Binary(b"abcdef".to_vec()), Some([1, 2, 3, 4]), &mut wire);
    let mut partial = wire[..wire.len() - 1].to_vec();
    let before = partial.clone();
    assert_eq!(server.decode(&mut partial), Ok(None));
    assert_eq!(partial, before);
}

#[test]
fn encode_message_kinds() {
    let server = Codec::new();
    let mut wire: Vec<u8> = Vec::new();
    server.encode(&Message::Text("Hi".to_string()), None, &mut wire);
    assert_eq!(wire, vec![0x81, 0x02, b'H', b'i']);

    let mut wire: Vec<u8> = Vec::new();
    server.encode(&Message::Pong(b"x".to_vec()), None, &mut wire);
    assert_eq!(wire, vec![0x8a, 0x01, b'x']);

    let mut wire: Vec<u8> = Vec::new();
    server.encode(
        &Message::Close(Some(CloseReason { code: CloseCode::Normal, description: None })),
        None,
        &mut wire,
    );
    assert_eq!(wire, vec![0x88, 0x02, 0x03, 0xe8]);

    let mut wire: Vec<u8> = Vec::new();
    server.encode(&Message::Nop, None, &mut wire);
    assert!(wire.is_empty());

    let mut wire: Vec<u8> = Vec::new();
    server.encode(
        &Message::Continuation(Item::FirstBinary(b"a".to_vec())),
        None,
        &mut wire,
    );
    server.encode(
        &Message::Continuation(Item::Continue(b"b".to_vec())),
        None,
        &mut wire,
    );
    server.encode(&Message::Continuation(Item::Last(b"c".to_vec())), None, &mut wire);
    assert_eq!(wire, vec![0x02, 0x01, b'a', 0x00, 0x01, b'b', 0x80, 0x01, b'c']);
}
