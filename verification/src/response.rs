//! A model of the HTTP response at the handshake's interface boundary: the
//! status code, the reason phrase, the headers and the body as plain values,
//! and the error responses that handshake failures map to.

use vstd::prelude::*;

use crate::error::HandshakeError;
use crate::header::{HeaderMap, HeaderName};

verus! {

/// An HTTP response head with its body bytes.
#[derive(Debug)]
pub struct Response {
    status: u16,
    reason: Option<Vec<u8>>,
    headers: HeaderMap,
    body: Vec<u8>,
}

/// The reason phrase a handshake error carries in its HTTP response; the
/// method error carries none (its response bears an `Allow` header instead).
pub open spec fn reason_of(err: HandshakeError) -> Option<Seq<u8>> {
    match err {
        HandshakeError::GetMethodRequired => None,
        HandshakeError::NoWebsocketUpgrade => Some(
            seq![
                0x4eu8, 0x6f, 0x20, 0x57, 0x65, 0x62, 0x53, 0x6f, 0x63, 0x6b, 0x65, 0x74, 0x20,
                0x55, 0x70, 0x67, 0x72, 0x61, 0x64, 0x65, 0x20, 0x68, 0x65, 0x61, 0x64, 0x65,
                0x72, 0x20, 0x66, 0x6f, 0x75, 0x6e, 0x64,
            ],
        ),
        HandshakeError::NoConnectionUpgrade => Some(
            seq![
                0x4eu8, 0x6f, 0x20, 0x43, 0x6f, 0x6e, 0x6e, 0x65, 0x63, 0x74, 0x69, 0x6f, 0x6e,
                0x20, 0x75, 0x70, 0x67, 0x72, 0x61, 0x64, 0x65,
            ],
        ),
        HandshakeError::NoVersionHeader => Some(
            seq![
                0x57u8, 0x65, 0x62, 0x53, 0x6f, 0x63, 0x6b, 0x65, 0x74, 0x20, 0x76, 0x65, 0x72,
                0x73, 0x69, 0x6f, 0x6e, 0x20, 0x68, 0x65, 0x61, 0x64, 0x65, 0x72, 0x20, 0x69,
                0x73, 0x20, 0x72, 0x65, 0x71, 0x75, 0x69, 0x72, 0x65, 0x64,
            ],
        ),
        HandshakeError::UnsupportedVersion => Some(
            seq![
                0x55u8, 0x6e, 0x73, 0x75, 0x70, 0x70, 0x6f, 0x72, 0x74, 0x65, 0x64, 0x20, 0x57,
                0x65, 0x62, 0x53, 0x6f, 0x63, 0x6b, 0x65, 0x74, 0x20, 0x76, 0x65, 0x72, 0x73,
                0x69, 0x6f, 0x6e,
            ],
        ),
        HandshakeError::BadWebsocketKey => Some(
            seq![
                0x48u8, 0x61, 0x6e, 0x64, 0x73, 0x68, 0x61, 0x6b, 0x65, 0x20, 0x65, 0x72, 0x72,
                0x6f, 0x72,
            ],
        ),
    }
}

impl Response {
    /// The status code.
    pub closed spec fn spec_status(self) -> u16 {
        self.status
    }

    /// The reason phrase, if one was set.
    pub closed spec fn spec_reason(self) -> Option<Seq<u8>> {
        match self.reason {
            Some(v) => Some(v@),
            None => None,
        }
    }

    /// The value of a response header, if set.
    pub closed spec fn header_of(self, n: HeaderName) -> Option<Seq<u8>> {
        self.headers.spec_get(n)
    }

    /// The body bytes.
    pub closed spec fn spec_body(self) -> Seq<u8> {
        self.body@
    }

    /// A response with the given status, no reason, no headers and an empty
    /// body.
    pub fn new(status: u16) -> (r: Response)
        ensures
            r.spec_status() == status,
            r.spec_reason() is None,
            forall|n: HeaderName| #[trigger] r.header_of(n) is None,
            r.spec_body() == Seq::<u8>::empty(),
    {
        Response { status, reason: None, headers: HeaderMap::new(), body: Vec::new() }
    }

    /// The status code.
    pub fn status(&self) -> (r: u16)
        ensures
            r == self.spec_status(),
    {
        self.status
    }

    /// The reason phrase.
    pub fn reason(&self) -> (r: Option<&Vec<u8>>)
        ensures
            match r {
                Some(v) => self.spec_reason() == Some(v@),
                None => self.spec_reason() is None,
            },
    {
        match &self.reason {
            Some(v) => Some(v),
            None => None,
        }
    }

    /// Set the reason phrase.
    pub fn set_reason(&mut self, reason: Vec<u8>)
        ensures
            final(self).spec_reason() == Some(reason@),
            final(self).spec_status() == old(self).spec_status(),
            forall|n: HeaderName| #[trigger] final(self).header_of(n) == old(self).header_of(n),
            final(self).spec_body() == old(self).spec_body(),
    {
        self.reason = Some(reason);
    }

    /// The response headers.
    pub fn headers(&self) -> (r: &HeaderMap)
        ensures
            forall|n: HeaderName| #[trigger] r.spec_get(n) == self.header_of(n),
    {
        &self.headers
    }

    /// Set a header, replacing an earlier value.
    pub fn insert_header(&mut self, n: HeaderName, v: Vec<u8>)
        ensures
            final(self).header_of(n) == Some(v@),
            forall|m: HeaderName|
                !crate::header::name_eq(m, n) ==> #[trigger] final(self).header_of(m) == old(
                    self,
                ).header_of(m),
            final(self).spec_status() == old(self).spec_status(),
            final(self).spec_reason() == old(self).spec_reason(),
            final(self).spec_body() == old(self).spec_body(),
    {
        self.headers.insert(n, v);
    }

    /// Set the body bytes.
    pub fn set_body(&mut self, body: Vec<u8>)
        ensures
            final(self).spec_body() == body@,
            final(self).spec_status() == old(self).spec_status(),
            final(self).spec_reason() == old(self).spec_reason(),
            forall|n: HeaderName| #[trigger] final(self).header_of(n) == old(self).header_of(n),
    {
        self.body = body;
    }

    /// The concrete HTTP error response for a handshake failure:
    /// method-not-allowed with an `Allow: GET` header for the method error,
    /// bad-request with a descriptive reason phrase for every other one.
    pub fn from_error(err: HandshakeError) -> (r: Response)
        ensures
            err == HandshakeError::GetMethodRequired ==> r.spec_status() == 405 && r.header_of(
                HeaderName::Allow,
            ) == Some(seq![0x47u8, 0x45, 0x54]),
            err != HandshakeError::GetMethodRequired ==> r.spec_status() == 400,
            r.spec_reason() == reason_of(err),
    {
        match err {
            HandshakeError::GetMethodRequired => {
                let mut res = Response::new(405);
                let allow: Vec<u8> = vec![0x47, 0x45, 0x54];
                proof {
                    assert(allow@ =~= seq![0x47u8, 0x45, 0x54]);
                }
                res.insert_header(HeaderName::Allow, allow);
                res
            },
            HandshakeError::NoWebsocketUpgrade => {
                let mut res = Response::new(400);
                let reason: Vec<u8> = vec![0x4e, 0x6f, 0x20, 0x57, 0x65, 0x62, 0x53, 0x6f, 0x63,
                    0x6b, 0x65, 0x74, 0x20, 0x55, 0x70, 0x67, 0x72, 0x61, 0x64, 0x65, 0x20, 0x68,
                    0x65, 0x61, 0x64, 0x65, 0x72, 0x20, 0x66, 0x6f, 0x75, 0x6e, 0x64];
                assert(reason@ =~= reason_of(HandshakeError::NoWebsocketUpgrade)->Some_0);
                res.set_reason(reason);
                res
            },
            HandshakeError::NoConnectionUpgrade => {
                let mut res = Response::new(400);
                let reason: Vec<u8> = vec![0x4e, 0x6f, 0x20, 0x43, 0x6f, 0x6e, 0x6e, 0x65, 0x63,
                    0x74, 0x69, 0x6f, 0x6e, 0x20, 0x75, 0x70, 0x67, 0x72, 0x61, 0x64, 0x65];
                assert(reason@ =~= reason_of(HandshakeError::NoConnectionUpgrade)->Some_0);
                res.set_reason(reason);
                res
            },
            HandshakeError::NoVersionHeader => {
                let mut res = Response::new(400);
                let reason: Vec<u8> = vec![0x57, 0x65, 0x62, 0x53, 0x6f, 0x63, 0x6b, 0x65, 0x74,
                    0x20, 0x76, 0x65, 0x72, 0x73, 0x69, 0x6f, 0x6e, 0x20, 0x68, 0x65, 0x61, 0x64,
                    0x65, 0x72, 0x20, 0x69, 0x73, 0x20, 0x72, 0x65, 0x71, 0x75, 0x69, 0x72, 0x65,
                    0x64];
                assert(reason@ =~= reason_of(HandshakeError::NoVersionHeader)->Some_0);
                res.set_reason(reason);
                res
            },
            HandshakeError::UnsupportedVersion => {
                let mut res = Response::new(400);
                let reason: Vec<u8> = vec![0x55, 0x6e, 0x73, 0x75, 0x70, 0x70, 0x6f, 0x72, 0x74,
                    0x65, 0x64, 0x20, 0x57, 0x65, 0x62, 0x53, 0x6f, 0x63, 0x6b, 0x65, 0x74, 0x20,
                    0x76, 0x65, 0x72, 0x73, 0x69, 0x6f, 0x6e];
                assert(reason@ =~= reason_of(HandshakeError::UnsupportedVersion)->Some_0);
                res.set_reason(reason);
                res
            },
            HandshakeError::BadWebsocketKey => {
                let mut res = Response::new(400);
                let reason: Vec<u8> = vec![0x48, 0x61, 0x6e, 0x64, 0x73, 0x68, 0x61, 0x6b, 0x65,
                    0x20, 0x65, 0x72, 0x72, 0x6f, 0x72];
                assert(reason@ =~= reason_of(HandshakeError::BadWebsocketKey)->Some_0);
                res.set_reason(reason);
                res
            },
        }
    }
}

/// A response under construction: the handshake hands one of these to the
/// caller, which may add headers and a body before sending it.
#[derive(Debug)]
pub struct ResponseBuilder {
    resp: Response,
}

impl ResponseBuilder {
    /// The response built so far.
    pub closed spec fn spec_response(self) -> Response {
        self.resp
    }

    /// Start building from a status code.
    pub fn build(status: u16) -> (r: ResponseBuilder)
        ensures
            r.spec_response().spec_status() == status,
            r.spec_response().spec_reason() is None,
            forall|n: HeaderName| #[trigger] r.spec_response().header_of(n) is None,
            r.spec_response().spec_body() == Seq::<u8>::empty(),
    {
        ResponseBuilder { resp: Response::new(status) }
    }

    /// Mark the response as a protocol upgrade: set the `Upgrade` header to
    /// the protocol token and the `Connection` header to `upgrade`.
    pub fn upgrade(&mut self, token: Vec<u8>)
        ensures
            final(self).spec_response().header_of(HeaderName::Upgrade) == Some(token@),
            final(self).spec_response().header_of(HeaderName::Connection) == Some(
                crate::request::upgrade_token(),
            ),
            forall|m: HeaderName|
                !crate::header::name_eq(m, HeaderName::Upgrade) && !crate::header::name_eq(
                    m,
                    HeaderName::Connection,
                ) ==> #[trigger] final(self).spec_response().header_of(m) == old(
                    self,
                ).spec_response().header_of(m),
            final(self).spec_response().spec_status() == old(self).spec_response().spec_status(),
            final(self).spec_response().spec_reason() == old(self).spec_response().spec_reason(),
            final(self).spec_response().spec_body() == old(self).spec_response().spec_body(),
    {
        let conn = crate::request::upgrade_token_vec();
        self.resp.insert_header(HeaderName::Connection, conn);
        self.resp.insert_header(HeaderName::Upgrade, token);
    }

    /// Set a header on the response being built.
    pub fn insert_header(&mut self, n: HeaderName, v: Vec<u8>)
        ensures
            final(self).spec_response().header_of(n) == Some(v@),
            forall|m: HeaderName|
                !crate::header::name_eq(m, n) ==> #[trigger] final(self).spec_response().header_of(
                    m,
                ) == old(self).spec_response().header_of(m),
            final(self).spec_response().spec_status() == old(self).spec_response().spec_status(),
            final(self).spec_response().spec_reason() == old(self).spec_response().spec_reason(),
            final(self).spec_response().spec_body() == old(self).spec_response().spec_body(),
    {
        self.resp.insert_header(n, v);
    }

    /// Attach a body and hand the finished response out.
    pub fn body(self, body: Vec<u8>) -> (r: Response)
        ensures
            r.spec_body() == body@,
            r.spec_status() == self.spec_response().spec_status(),
            r.spec_reason() == self.spec_response().spec_reason(),
            forall|n: HeaderName|
                #[trigger] r.header_of(n) == self.spec_response().header_of(n),
    {
        let mut resp = self.resp;
        resp.set_body(body);
        resp
    }

    /// Hand the finished response out with an empty body.
    pub fn finish(self) -> (r: Response)
        ensures
            r == self.spec_response(),
    {
        self.resp
    }
}

} // verus!
