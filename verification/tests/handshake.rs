use ws_proto::error::HandshakeError;
use ws_proto::handshake::{handshake, handshake_response, verify_handshake};
use ws_proto::header::HeaderName;
use ws_proto::proto::hash_key;
use ws_proto::request::{Method, RequestHead};
use ws_proto::response::Response;

fn head() -> RequestHead {
    RequestHead::new()
}

#[test]
fn test_handshake() {
    let mut req = head();
    req.method = Method::Post;
    assert_eq!(
        HandshakeError::GetMethodRequired,
        verify_handshake(&req).unwrap_err(),
    );

    let req = head();
    assert_eq!(
        HandshakeError::NoWebsocketUpgrade,
        verify_handshake(&req).unwrap_err(),
    );

    let mut req = head();
    req.headers.insert(HeaderName::Upgrade, b"test".to_vec());
    assert_eq!(
        HandshakeError::NoWebsocketUpgrade,
        verify_handshake(&req).unwrap_err(),
    );

    let mut req = head();
    req.headers.insert(HeaderName::Upgrade, b"websocket".to_vec());
    assert_eq!(
        HandshakeError::NoConnectionUpgrade,
        verify_handshake(&req).unwrap_err(),
    );

    let mut req = head();
    req.headers.insert(HeaderName::Upgrade, b"websocket".to_vec());
    req.headers.insert(HeaderName::Connection, b"upgrade".to_vec());
    assert_eq!(
        HandshakeError::NoVersionHeader,
        verify_handshake(&req).unwrap_err(),
    );

    let mut req = head();
    req.headers.insert(HeaderName::Upgrade, b"websocket".to_vec());
    req.headers.insert(HeaderName::Connection, b"upgrade".to_vec());
    req.headers.insert(HeaderName::SecWebSocketVersion, b"5".to_vec());
    assert_eq!(
        HandshakeError::UnsupportedVersion,
        verify_handshake(&req).unwrap_err(),
    );

    let mut req = head();
    req.headers.insert(HeaderName::Upgrade, b"websocket".to_vec());
    req.headers.insert(HeaderName::Connection, b"upgrade".to_vec());
    req.headers.insert(HeaderName::SecWebSocketVersion, b"13".to_vec());
    assert_eq!(
        HandshakeError::BadWebsocketKey,
        verify_handshake(&req).unwrap_err(),
    );

    let mut req = head();
    req.headers.insert(HeaderName::Upgrade, b"websocket".to_vec());
    req.headers.insert(HeaderName::Connection, b"upgrade".to_vec());
    req.headers.insert(HeaderName::SecWebSocketVersion, b"13".to_vec());
    req.headers.insert(HeaderName::SecWebSocketKey, b"13".to_vec());
    assert_eq!(101, handshake_response(&req).finish().status());
}

#[test]
fn test_ws_error_http_response() {
    let resp: Response = Response::from_error(HandshakeError::GetMethodRequired);
    assert_eq!(resp.status(), 405);
    let resp: Response = Response::from_error(HandshakeError::NoWebsocketUpgrade);
    assert_eq!(resp.status(), 400);
    let resp: Response = Response::from_error(HandshakeError::NoConnectionUpgrade);
    assert_eq!(resp.status(), 400);
    let resp: Response = Response::from_error(HandshakeError::NoVersionHeader);
    assert_eq!(resp.status(), 400);
    let resp: Response = Response::from_error(HandshakeError::UnsupportedVersion);
    assert_eq!(resp.status(), 400);
    let resp: Response = Response::from_error(HandshakeError::BadWebsocketKey);
    assert_eq!(resp.status(), 400);
}

#[test]
fn error_responses_carry_reasons_and_allow_header() {
    let resp = Response::from_error(HandshakeError::GetMethodRequired);
    assert_eq!(
        resp.headers().get(&HeaderName::Allow),
        Some(&b"GET".to_vec())
    );
    assert!(resp.reason().is_none());
    let resp = Response::from_error(HandshakeError::NoWebsocketUpgrade);
    assert_eq!(
        resp.reason(),
        Some(&b"No WebSocket Upgrade header found".to_vec())
    );
    let resp = Response::from_error(HandshakeError::NoConnectionUpgrade);
    assert_eq!(resp.reason(), Some(&b"No Connection upgrade".to_vec()));
    let resp = Response::from_error(HandshakeError::NoVersionHeader);
    assert_eq!(
        resp.reason(),
        Some(&b"WebSocket version header is required".to_vec())
    );
    let resp = Response::from_error(HandshakeError::UnsupportedVersion);
    assert_eq!(
        resp.reason(),
        Some(&b"Unsupported WebSocket version".to_vec())
    );
    let resp = Response::from_error(HandshakeError::BadWebsocketKey);
    assert_eq!(resp.reason(), Some(&b"Handshake error".to_vec()));
}

#[test]
fn accept_key_matches_known_vectors() {
    // The sample key from the protocol specification.
    let accept = hash_key(&b"dGhlIHNhbXBsZSBub25jZQ==".to_vec());
    assert_eq!(accept, b"s3pPLMBiTxaQ9kYGzzhZRbK+xOo=".to_vec());
    // The key used by the handshake scenario above.
    let accept = hash_key(&b"13".to_vec());
    assert_eq!(accept, b"qRuMdykMYGEyIrjwimgOGL79D68=".to_vec());
}

#[test]
fn handshake_sets_upgrade_headers_and_accept() {
    let mut req = head();
    req.headers.insert(HeaderName::Upgrade, b"WebSocket".to_vec());
    req.headers.insert(HeaderName::Connection, b"keep-alive, Upgrade".to_vec());
    req.headers.insert(HeaderName::SecWebSocketVersion, b"13".to_vec());
    req.headers
        .insert(HeaderName::SecWebSocketKey, b"dGhlIHNhbXBsZSBub25jZQ==".to_vec());
    let resp = handshake(&req).unwrap().finish();
    assert_eq!(resp.status(), 101);
    assert_eq!(
        resp.headers().get(&HeaderName::Upgrade),
        Some(&b"websocket".to_vec())
    );
    assert_eq!(
        resp.headers().get(&HeaderName::Connection),
        Some(&b"upgrade".to_vec())
    );
    assert_eq!(
        resp.headers().get(&HeaderName::SecWebSocketAccept),
        Some(&b"s3pPLMBiTxaQ9kYGzzhZRbK+xOo=".to_vec())
    );
}

#[test]
fn connect_method_counts_as_upgrade_without_connection_header() {
    let mut req = head();
    req.method = Method::Connect;
    assert!(req.upgrade());
    let req = head();
    assert!(!req.upgrade());
}
