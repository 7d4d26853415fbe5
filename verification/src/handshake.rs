//! Handshake validation and response generation: the checks that gate entry
//! into the protocol, in their fixed order, and the 101 response that
//! completes the upgrade.

use vstd::prelude::*;

use crate::error::HandshakeError;
use crate::header::{contains_bytes, contains_sub, lower_seq, to_ascii_lower, HeaderName};
use crate::proto::{accept_key_of, hash_key};
use crate::request::{spec_upgrade, upgrade_token, Method, RequestHead};
use crate::response::ResponseBuilder;

verus! {

/// The bytes of the protocol token the `Upgrade` header must contain.
pub open spec fn websocket_token() -> Seq<u8> {
    seq![0x77u8, 0x65, 0x62, 0x73, 0x6f, 0x63, 0x6b, 0x65, 0x74]
}

/// The protocol token as a vector.
pub fn websocket_token_vec() -> (r: Vec<u8>)
    ensures
        r@ == websocket_token(),
{
    let r: Vec<u8> = vec![0x77, 0x65, 0x62, 0x73, 0x6f, 0x63, 0x6b, 0x65, 0x74];
    proof {
        assert(r@ =~= websocket_token());
    }
    r
}

/// Whether a version header value names a supported protocol version: the
/// tokens `13`, `8` and `7`.
pub open spec fn supported_version(v: Seq<u8>) -> bool {
    v == seq![0x31u8, 0x33] || v == seq![0x38u8] || v == seq![0x37u8]
}

/// The first failing handshake check, if any, in their fixed order: the
/// method must be GET; the `Upgrade` header must name the WebSocket protocol
/// case-insensitively; the `Connection` header must ask for an upgrade; the
/// version header must be present and name a supported version; the key
/// header must be present.
pub open spec fn verify_spec(h: RequestHead) -> Option<HandshakeError> {
    if h.method != Method::Get {
        Some(HandshakeError::GetMethodRequired)
    } else if !(h.headers.spec_get(HeaderName::Upgrade) matches Some(v) && contains_sub(
        lower_seq(v),
        websocket_token(),
    )) {
        Some(HandshakeError::NoWebsocketUpgrade)
    } else if !spec_upgrade(h) {
        Some(HandshakeError::NoConnectionUpgrade)
    } else if h.headers.spec_get(HeaderName::SecWebSocketVersion) is None {
        Some(HandshakeError::NoVersionHeader)
    } else if !(h.headers.spec_get(HeaderName::SecWebSocketVersion) matches Some(v)
        && supported_version(v)) {
        Some(HandshakeError::UnsupportedVersion)
    } else if h.headers.spec_get(HeaderName::SecWebSocketKey) is None {
        Some(HandshakeError::BadWebsocketKey)
    } else {
        None
    }
}

/// Verify a WebSocket handshake request, reporting the first failing check.
pub fn verify_handshake(req: &RequestHead) -> (r: Result<(), HandshakeError>)
    ensures
        r is Ok <==> verify_spec(*req) is None,
        r matches Err(e) ==> verify_spec(*req) == Some(e),
{
    if !(req.method == Method::Get) {
        return Err(HandshakeError::GetMethodRequired);
    }
    let has_upgrade_hdr = match req.headers.get(&HeaderName::Upgrade) {
        Some(v) => {
            let low = to_ascii_lower(v);
            let tok = websocket_token_vec();
            contains_bytes(&low, &tok)
        },
        None => false,
    };
    if !has_upgrade_hdr {
        return Err(HandshakeError::NoWebsocketUpgrade);
    }
    if !req.upgrade() {
        return Err(HandshakeError::NoConnectionUpgrade);
    }
    if !req.headers.contains_key(&HeaderName::SecWebSocketVersion) {
        return Err(HandshakeError::NoVersionHeader);
    }
    let supported = match req.headers.get(&HeaderName::SecWebSocketVersion) {
        Some(v) => {
            let v13: Vec<u8> = vec![0x31, 0x33];
            let v8: Vec<u8> = vec![0x38];
            let v7: Vec<u8> = vec![0x37];
            proof {
                assert(v13@ =~= seq![0x31u8, 0x33]);
                assert(v8@ =~= seq![0x38u8]);
                assert(v7@ =~= seq![0x37u8]);
            }
            crate::header::bytes_eq(v, &v13) || crate::header::bytes_eq(v, &v8)
                || crate::header::bytes_eq(v, &v7)
        },
        None => false,
    };
    if !supported {
        return Err(HandshakeError::UnsupportedVersion);
    }
    if !req.headers.contains_key(&HeaderName::SecWebSocketKey) {
        return Err(HandshakeError::BadWebsocketKey);
    }
    Ok(())
}

/// Create the handshake response for a verified request: status 101 with the
/// upgrade directives and the accept key computed from the request's key
/// header.
///
/// The request must carry a key header: `verify_handshake` establishes that.
pub fn handshake_response(req: &RequestHead) -> (r: ResponseBuilder)
    requires
        req.headers.spec_get(HeaderName::SecWebSocketKey) is Some,
    ensures
        r.spec_response().spec_status() == 101,
        r.spec_response().header_of(HeaderName::Upgrade) == Some(websocket_token()),
        r.spec_response().header_of(HeaderName::Connection) == Some(upgrade_token()),
        req.headers.spec_get(HeaderName::SecWebSocketKey) matches Some(k) ==> r.spec_response()
            .header_of(HeaderName::SecWebSocketAccept) == Some(accept_key_of(k)),
{
    let key: Vec<u8> = match req.headers.get(&HeaderName::SecWebSocketKey) {
        Some(k) => hash_key(k),
        None => {
            // Unreachable under the precondition.
            proof {
                assert(false);
            }
            Vec::new()
        },
    };
    let mut builder = ResponseBuilder::build(101);
    builder.upgrade(websocket_token_vec());
    builder.insert_header(HeaderName::SecWebSocketAccept, key);
    builder
}

/// Verify a WebSocket handshake request and create the response that
/// completes the upgrade, or report the first failing check.
pub fn handshake(req: &RequestHead) -> (r: Result<ResponseBuilder, HandshakeError>)
    ensures
        r is Ok <==> verify_spec(*req) is None,
        r matches Err(e) ==> verify_spec(*req) == Some(e),
        r matches Ok(b) ==> {
            &&& b.spec_response().spec_status() == 101
            &&& b.spec_response().header_of(HeaderName::Upgrade) == Some(websocket_token())
            &&& b.spec_response().header_of(HeaderName::Connection) == Some(upgrade_token())
            &&& (req.headers.spec_get(HeaderName::SecWebSocketKey) matches Some(k)
                ==> b.spec_response().header_of(HeaderName::SecWebSocketAccept) == Some(
                accept_key_of(k),
            ))
        },
{
    match verify_handshake(req) {
        Ok(()) => Ok(handshake_response(req)),
        Err(e) => Err(e),
    }
}

} // verus!
