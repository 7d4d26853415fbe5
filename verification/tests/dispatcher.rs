use ws_proto::codec::Message;
use ws_proto::dispatcher::Dispatcher;
use ws_proto::error::ProtocolError;
use ws_proto::proto::{CloseCode, CloseReason};

#[test]
fn ping_is_echoed_automatically() {
    let mut d = Dispatcher::new();
    let (to_app, to_send) = d.on_inbound(Message::Ping(b"hb".to_vec()));
    assert_eq!(to_app, None);
    assert_eq!(to_send, Some(Message::Pong(b"hb".to_vec())));
    assert!(!d.is_closed());
}

#[test]
fn ping_reaches_the_application_when_echo_is_disabled() {
    let mut d = Dispatcher::new();
    d.set_auto_pong(false);
    let (to_app, to_send) = d.on_inbound(Message::Ping(b"hb".to_vec()));
    assert_eq!(to_app, Some(Message::Ping(b"hb".to_vec())));
    assert_eq!(to_send, None);
}

#[test]
fn remote_close_is_echoed_and_closes() {
    let mut d = Dispatcher::new();
    let reason = Some(CloseReason { code: CloseCode::Away, description: None });
    let (to_app, to_send) = d.on_inbound(Message::Close(reason.clone()));
    assert_eq!(to_app, Some(Message::Close(reason)));
    assert_eq!(to_send, None);
    assert!(!d.is_closed());
    // The dispatcher then emits the matching close frame and is closed.
    let echo = d.complete_close();
    assert_eq!(
        echo,
        Some(Message::Close(Some(CloseReason { code: CloseCode::Away, description: None })))
    );
    assert!(d.is_closed());
    assert_eq!(d.complete_close(), None);
    // Further output is refused.
    assert_eq!(
        d.on_outbound(Message::Text("late".to_string())),
        Err(ProtocolError::Io)
    );
}

#[test]
fn remote_close_without_reason_echoes_normal_closure() {
    let mut d = Dispatcher::new();
    d.on_inbound(Message::Close(None));
    let echo = d.complete_close();
    assert_eq!(
        echo,
        Some(Message::Close(Some(CloseReason { code: CloseCode::Normal, description: None })))
    );
    assert!(d.is_closed());
}

#[test]
fn local_close_waits_for_the_peer() {
    let mut d = Dispatcher::new();
    let sent = d.on_outbound(Message::Close(None)).unwrap();
    assert_eq!(sent, Message::Close(None));
    assert!(!d.is_closed());
    // In-flight messages still reach the application while closing.
    let (to_app, _) = d.on_inbound(Message::Text("tail".to_string()));
    assert_eq!(to_app, Some(Message::Text("tail".to_string())));
    // The peer's close acknowledges and the connection is closed.
    let (to_app, to_send) = d.on_inbound(Message::Close(None));
    assert_eq!(to_app, Some(Message::Close(None)));
    assert_eq!(to_send, None);
    assert!(d.is_closed());
}

#[test]
fn overflow_closes_with_message_too_big() {
    let mut d = Dispatcher::new();
    let frame = d.on_protocol_error(&ProtocolError::Overflow);
    assert_eq!(
        frame,
        Some(Message::Close(Some(CloseReason { code: CloseCode::Size, description: None })))
    );
    assert!(d.is_closed());
}

#[test]
fn protocol_errors_close_with_protocol_error_code() {
    for e in [
        ProtocolError::UnmaskedFrame,
        ProtocolError::MaskedFrame,
        ProtocolError::InvalidOpcode(3),
        ProtocolError::InvalidLength(126),
        ProtocolError::BadOpCode,
        ProtocolError::ContinuationNotStarted,
        ProtocolError::ContinuationStarted,
    ] {
        let mut d = Dispatcher::new();
        let frame = d.on_protocol_error(&e);
        assert_eq!(
            frame,
            Some(Message::Close(Some(CloseReason {
                code: CloseCode::Protocol,
                description: None
            })))
        );
        assert!(d.is_closed());
    }
    // A transport failure sends nothing: the transport is unusable.
    let mut d = Dispatcher::new();
    assert_eq!(d.on_protocol_error(&ProtocolError::Io), None);
    assert!(d.is_closed());
}

#[test]
fn outbound_messages_pass_through_while_open() {
    let mut d = Dispatcher::new();
    assert_eq!(
        d.on_outbound(Message::Text("hi".to_string())),
        Ok(Message::Text("hi".to_string()))
    );
    assert_eq!(
        d.on_outbound(Message::Binary(vec![1])),
        Ok(Message::Binary(vec![1]))
    );
}

#[test]
fn oversized_message_ends_with_message_too_big() {
    let mut codec = ws_proto::codec::Codec::new().max_size(4);
    let mut d = Dispatcher::new();
    assert_eq!(
        codec.feed(false, ws_proto::proto::OpCode::Text, b"abc".to_vec()),
        Ok(None)
    );
    let err = codec
        .feed(true, ws_proto::proto::OpCode::Continue, b"defg".to_vec())
        .unwrap_err();
    assert_eq!(err, ProtocolError::Overflow);
    let frame = d.on_protocol_error(&err);
    assert_eq!(
        frame,
        Some(Message::Close(Some(CloseReason { code: CloseCode::Size, description: None })))
    );
    assert!(d.is_closed());
}

#[test]
fn full_session_over_wire_bytes() {
    // A client sends a fragmented text message, a ping, then a close; the
    // server side decodes, echoes, and completes the close handshake.
    let client = ws_proto::codec::Codec::new().client_mode();
    let mut server = ws_proto::codec::Codec::new();
    let mut d = Dispatcher::new();
    let key = Some([0xa1u8, 0xb2, 0xc3, 0xd4]);
    let mut wire: Vec<u8> = Vec::new();
    client.encode(
        &Message::Continuation(ws_proto::codec::Item::FirstText(b"hi ".to_vec())),
        key,
        &mut wire,
    );
    client.encode(
        &Message::Continuation(ws_proto::codec::Item::Last(b"there".to_vec())),
        key,
        &mut wire,
    );
    client.encode(&Message::Ping(b"hb".to_vec()), key, &mut wire);
    client.encode(&Message::Close(None), key, &mut wire);

    let mut to_app: Vec<Message> = Vec::new();
    let mut sent: Vec<Message> = Vec::new();
    loop {
        match server.decode(&mut wire) {
            Ok(Some(msg)) => {
                let (app, send) = d.on_inbound(msg);
                if let Some(m) = app {
                    to_app.push(m);
                }
                if let Some(m) = send {
                    sent.push(m);
                }
                if let Some(m) = d.complete_close() {
                    sent.push(m);
                }
            }
            Ok(None) => break,
            Err(e) => panic!("unexpected protocol error: {:?}", e),
        }
    }
    assert_eq!(
        to_app,
        vec![
            Message::Text("hi there".to_string()),
            Message::Close(None),
        ]
    );
    assert_eq!(
        sent,
        vec![
            Message::Pong(b"hb".to_vec()),
            Message::Close(Some(CloseReason { code: CloseCode::Normal, description: None })),
        ]
    );
    assert!(d.is_closed());
}
