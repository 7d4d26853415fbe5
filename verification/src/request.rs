//! A model of the HTTP request at the handshake's interface boundary: method,
//! target, version and headers as plain values, with the payload and the
//! per-request data containers the surrounding server hands along.

use vstd::prelude::*;

use crate::frame::extend_from;
use crate::header::{
    contains_bytes, contains_sub, lower_seq, to_ascii_lower, HeaderMap, HeaderName,
};

verus! {

/// An HTTP request method.
#[derive(Clone, Copy, Debug, PartialEq, Eq, Structural)]
pub enum Method {
    Get,
    Head,
    Post,
    Put,
    Delete,
    Connect,
    Options,
    Trace,
    Patch,
}

/// An HTTP protocol version.
#[derive(Clone, Copy, Debug, PartialEq, Eq, Structural)]
pub enum Version {
    Http09,
    Http10,
    Http11,
    Http2,
    Http3,
}

/// The display bytes of a method.
pub open spec fn method_bytes(m: Method) -> Seq<u8> {
    match m {
        Method::Get => seq![0x47u8, 0x45, 0x54],
        Method::Head => seq![0x48u8, 0x45, 0x41, 0x44],
        Method::Post => seq![0x50u8, 0x4f, 0x53, 0x54],
        Method::Put => seq![0x50u8, 0x55, 0x54],
        Method::Delete => seq![0x44u8, 0x45, 0x4c, 0x45, 0x54, 0x45],
        Method::Connect => seq![0x43u8, 0x4f, 0x4e, 0x4e, 0x45, 0x43, 0x54],
        Method::Options => seq![0x4fu8, 0x50, 0x54, 0x49, 0x4f, 0x4e, 0x53],
        Method::Trace => seq![0x54u8, 0x52, 0x41, 0x43, 0x45],
        Method::Patch => seq![0x50u8, 0x41, 0x54, 0x43, 0x48],
    }
}

/// The display bytes of a version.
pub open spec fn version_bytes(v: Version) -> Seq<u8> {
    match v {
        Version::Http09 => seq![0x48u8, 0x54, 0x54, 0x50, 0x2f, 0x30, 0x2e, 0x39],
        Version::Http10 => seq![0x48u8, 0x54, 0x54, 0x50, 0x2f, 0x31, 0x2e, 0x30],
        Version::Http11 => seq![0x48u8, 0x54, 0x54, 0x50, 0x2f, 0x31, 0x2e, 0x31],
        Version::Http2 => seq![0x48u8, 0x54, 0x54, 0x50, 0x2f, 0x32, 0x2e, 0x30],
        Version::Http3 => seq![0x48u8, 0x54, 0x54, 0x50, 0x2f, 0x33, 0x2e, 0x30],
    }
}

/// A request target, split into its path and its optional query at the first
/// `?`.
#[derive(Debug)]
pub struct Uri {
    path: Vec<u8>,
    query: Option<Vec<u8>>,
}

/// Whether `i` is the position of the first `?` in `raw`.
pub open spec fn first_query_mark(raw: Seq<u8>, i: int) -> bool {
    &&& 0 <= i < raw.len()
    &&& raw[i] == 0x3f
    &&& forall|j: int| 0 <= j < i ==> raw[j] != 0x3f
}

impl Uri {
    /// The path part.
    pub closed spec fn spec_path(self) -> Seq<u8> {
        self.path@
    }

    /// The query part, without its leading `?`, if one was present.
    pub closed spec fn spec_query(self) -> Option<Seq<u8>> {
        match self.query {
            Some(q) => Some(q@),
            None => None,
        }
    }

    /// The root target `/` with no query.
    pub fn root() -> (r: Uri)
        ensures
            r.spec_path() == seq![0x2fu8],
            r.spec_query() is None,
    {
        let path: Vec<u8> = vec![0x2f];
        proof {
            assert(path@ =~= seq![0x2fu8]);
        }
        Uri { path, query: None }
    }

    /// Split a raw target at its first `?`: everything before it is the path,
    /// everything after it the query; with no `?` the whole target is the
    /// path.
    pub fn parse(raw: &Vec<u8>) -> (r: Uri)
        ensures
            (forall|j: int| 0 <= j < raw@.len() ==> raw@[j] != 0x3f) ==> r.spec_path() == raw@
                && r.spec_query() is None,
            forall|i: int|
                first_query_mark(raw@, i) ==> r.spec_path() == raw@.subrange(0, i)
                    && r.spec_query() == Some(raw@.subrange(i + 1, raw@.len() as int)),
    {
        let mut i: usize = 0;
        while i < raw.len()
            invariant
                i <= raw@.len(),
                forall|j: int| 0 <= j < i ==> raw@[j] != 0x3f,
            decreases raw@.len() - i,
        {
            if raw[i] == 0x3f {
                let mut path: Vec<u8> = Vec::new();
                let mut k: usize = 0;
                while k < i
                    invariant
                        k <= i < raw@.len(),
                        path@ == raw@.subrange(0, k as int),
                    decreases i - k,
                {
                    path.push(raw[k]);
                    assert(path@ =~= raw@.subrange(0, k + 1));
                    k += 1;
                }
                let mut query: Vec<u8> = Vec::new();
                let mut m: usize = i + 1;
                while m < raw.len()
                    invariant
                        i + 1 <= m <= raw@.len(),
                        query@ == raw@.subrange(i + 1, m as int),
                    decreases raw@.len() - m,
                {
                    query.push(raw[m]);
                    assert(query@ =~= raw@.subrange(i + 1, m + 1));
                    m += 1;
                }
                proof {
                    assert(first_query_mark(raw@, i as int));
                    assert forall|x: int| first_query_mark(raw@, x) implies x == i by {
                        if x < i {
                            assert(raw@[x] != 0x3f);
                        }
                        if x > i {
                            assert(raw@[i as int] != 0x3f);
                        }
                    }
                }
                return Uri { path, query: Some(query) };
            }
            i += 1;
        }
        let mut path: Vec<u8> = Vec::new();
        let mut k: usize = 0;
        while k < raw.len()
            invariant
                k <= raw@.len(),
                path@ == raw@.subrange(0, k as int),
            decreases raw@.len() - k,
        {
            path.push(raw[k]);
            assert(path@ =~= raw@.subrange(0, k + 1));
            k += 1;
        }
        proof {
            assert(path@ =~= raw@);
        }
        Uri { path, query: None }
    }

    /// The path bytes.
    pub fn path(&self) -> (r: &Vec<u8>)
        ensures
            r@ == self.spec_path(),
    {
        &self.path
    }

    /// The query bytes, if a query was present.
    pub fn query(&self) -> (r: Option<&Vec<u8>>)
        ensures
            match r {
                Some(q) => self.spec_query() == Some(q@),
                None => self.spec_query() is None,
            },
    {
        match &self.query {
            Some(q) => Some(q),
            None => None,
        }
    }
}

/// The head of an HTTP request: what the handshake validator reads.
#[derive(Debug)]
pub struct RequestHead {
    pub method: Method,
    pub uri: Uri,
    pub version: Version,
    pub headers: HeaderMap,
}

/// A fresh request head: GET for the root target over HTTP/1.1 with no
/// headers.
pub open spec fn fresh_head(h: RequestHead) -> bool {
    &&& h.method == Method::Get
    &&& h.version == Version::Http11
    &&& h.uri.spec_path() == seq![0x2fu8]
    &&& h.uri.spec_query() is None
    &&& forall|n: HeaderName| #[trigger] h.headers.spec_get(n) is None
}

/// The bytes of the token the `Connection` header must contain.
pub open spec fn upgrade_token() -> Seq<u8> {
    seq![0x75u8, 0x70, 0x67, 0x72, 0x61, 0x64, 0x65]
}

/// The `Connection` token as a vector.
pub fn upgrade_token_vec() -> (r: Vec<u8>)
    ensures
        r@ == upgrade_token(),
{
    let r: Vec<u8> = vec![0x75, 0x70, 0x67, 0x72, 0x61, 0x64, 0x65];
    proof {
        assert(r@ =~= upgrade_token());
    }
    r
}

/// Whether a request asks for a connection upgrade: its `Connection` header
/// value contains "upgrade" case-insensitively; with no such header, a
/// CONNECT request counts as an upgrade.
pub open spec fn spec_upgrade(h: RequestHead) -> bool {
    match h.headers.spec_get(HeaderName::Connection) {
        Some(v) => contains_sub(lower_seq(v), upgrade_token()),
        None => h.method == Method::Connect,
    }
}

impl RequestHead {
    /// A fresh head: GET for `/` over HTTP/1.1, no headers.
    pub fn new() -> (r: RequestHead)
        ensures
            fresh_head(r),
    {
        RequestHead {
            method: Method::Get,
            uri: Uri::root(),
            version: Version::Http11,
            headers: HeaderMap::new(),
        }
    }

    /// Whether this request asks for a connection upgrade.
    pub fn upgrade(&self) -> (r: bool)
        ensures
            r == spec_upgrade(*self),
    {
        match self.headers.get(&HeaderName::Connection) {
            Some(v) => {
                let low = to_ascii_lower(v);
                let tok = upgrade_token_vec();
                contains_bytes(&low, &tok)
            },
            None => self.method == Method::Connect,
        }
    }
}

/// A request body: none, or the complete bytes.
#[derive(Debug)]
pub enum Payload {
    Empty,
    Full(Vec<u8>),
}

/// First-match lookup in a data container's entries.
pub open spec fn ext_lookup(s: Seq<(u64, Vec<u8>)>, k: u64) -> Option<Seq<u8>>
    decreases s.len(),
{
    if s.len() == 0 {
        None
    } else if s[0].0 == k {
        Some(s[0].1@)
    } else {
        ext_lookup(s.drop_first(), k)
    }
}

/// A keyed data container for connection- and request-scoped values.
#[derive(Debug)]
pub struct Extensions {
    items: Vec<(u64, Vec<u8>)>,
}

impl Extensions {
    /// The value stored under a key, if any.
    pub closed spec fn spec_get(self, k: u64) -> Option<Seq<u8>> {
        ext_lookup(self.items@, k)
    }

    /// An empty container.
    pub fn new() -> (r: Extensions)
        ensures
            forall|k: u64| #[trigger] r.spec_get(k) is None,
    {
        Extensions { items: Vec::new() }
    }

    /// Store a value under a key, shadowing an earlier value.
    pub fn insert(&mut self, k: u64, v: Vec<u8>)
        ensures
            final(self).spec_get(k) == Some(v@),
            forall|k2: u64| k2 != k ==> #[trigger] final(self).spec_get(k2) == old(self).spec_get(k2),
    {
        let ghost pre = self.items@;
        self.items.insert(0, (k, v));
        proof {
            assert(self.items@.drop_first() =~= pre);
        }
    }

    /// The value stored under `k`, if any.
    pub fn get(&self, k: u64) -> (r: Option<&Vec<u8>>)
        ensures
            match r {
                Some(v) => self.spec_get(k) == Some(v@),
                None => self.spec_get(k) is None,
            },
    {
        proof {
            assert(self.items@.subrange(0, self.items@.len() as int) =~= self.items@);
        }
        let mut i: usize = 0;
        while i < self.items.len()
            invariant
                i <= self.items@.len(),
                ext_lookup(self.items@, k) == ext_lookup(
                    self.items@.subrange(i as int, self.items@.len() as int),
                    k,
                ),
            decreases self.items@.len() - i,
        {
            let ghost tail = self.items@.subrange(i as int, self.items@.len() as int);
            if self.items[i].0 == k {
                assert(ext_lookup(tail, k) == Some(self.items@[i as int].1@));
                return Some(&self.items[i].1);
            }
            proof {
                assert(tail.drop_first() =~= self.items@.subrange(
                    i + 1,
                    self.items@.len() as int,
                ));
            }
            i += 1;
        }
        None
    }
}

impl Default for Extensions {
    /// An empty container.
    fn default() -> (r: Extensions)
        ensures
            forall|k: u64| #[trigger] r.spec_get(k) is None,
    {
        Extensions::new()
    }
}

/// An HTTP request: its head, its payload, and the connection- and
/// request-scoped data containers.
#[derive(Debug)]
pub struct Request {
    payload: Payload,
    head: RequestHead,
    conn_data: Option<Extensions>,
    req_data: Extensions,
}

impl Request {
    /// The request head.
    pub closed spec fn spec_head(self) -> RequestHead {
        self.head
    }

    /// The payload.
    pub closed spec fn spec_payload(self) -> Payload {
        self.payload
    }

    /// The connection-scoped data container, if one was attached.
    pub closed spec fn spec_conn_data(self) -> Option<Extensions> {
        self.conn_data
    }

    /// The request-scoped data container.
    pub closed spec fn spec_req_data(self) -> Extensions {
        self.req_data
    }

    /// A fresh request: a fresh head, no payload, no attached data.
    pub fn new() -> (r: Request)
        ensures
            fresh_head(r.spec_head()),
            r.spec_payload() matches Payload::Empty,
            r.spec_conn_data() is None,
            forall|k: u64| #[trigger] r.spec_req_data().spec_get(k) is None,
    {
        Request {
            payload: Payload::Empty,
            head: RequestHead::new(),
            conn_data: None,
            req_data: Extensions::new(),
        }
    }

    /// A fresh request carrying `payload`.
    pub fn with_payload(payload: Payload) -> (r: Request)
        ensures
            fresh_head(r.spec_head()),
            r.spec_payload() == payload,
            r.spec_conn_data() is None,
            forall|k: u64| #[trigger] r.spec_req_data().spec_get(k) is None,
    {
        Request {
            payload,
            head: RequestHead::new(),
            conn_data: None,
            req_data: Extensions::new(),
        }
    }

    /// A request around an existing head, with no payload.
    pub fn from_head(head: RequestHead) -> (r: Request)
        ensures
            r.spec_head() == head,
            r.spec_payload() matches Payload::Empty,
            r.spec_conn_data() is None,
            forall|k: u64| #[trigger] r.spec_req_data().spec_get(k) is None,
    {
        Request { payload: Payload::Empty, head, conn_data: None, req_data: Extensions::new() }
    }

    /// Exchange the payload for another, handing the old one back beside the
    /// request.
    pub fn replace_payload(self, payload: Payload) -> (r: (Request, Payload))
        ensures
            r.0.spec_head() == self.spec_head(),
            r.0.spec_payload() == payload,
            r.0.spec_conn_data() == self.spec_conn_data(),
            r.0.spec_req_data() == self.spec_req_data(),
            r.1 == self.spec_payload(),
    {
        let Request { payload: old_payload, head, conn_data, req_data } = self;
        (Request { payload, head, conn_data, req_data }, old_payload)
    }

    /// The request's payload.
    pub fn payload(&self) -> (r: &Payload)
        ensures
            *r == self.spec_payload(),
    {
        &self.payload
    }

    /// Take the payload out, leaving none in its place.
    pub fn take_payload(&mut self) -> (r: Payload)
        ensures
            r == old(self).spec_payload(),
            final(self).spec_payload() matches Payload::Empty,
            final(self).spec_head() == old(self).spec_head(),
            final(self).spec_conn_data() == old(self).spec_conn_data(),
            final(self).spec_req_data() == old(self).spec_req_data(),
    {
        let mut p = Payload::Empty;
        core::mem::swap(&mut p, &mut self.payload);
        p
    }

    /// Split the request into its head and its payload.
    pub fn into_parts(self) -> (r: (RequestHead, Payload))
        ensures
            r.0 == self.spec_head(),
            r.1 == self.spec_payload(),
    {
        (self.head, self.payload)
    }

    /// The request head.
    pub fn head(&self) -> (r: &RequestHead)
        ensures
            *r == self.spec_head(),
    {
        &self.head
    }

    /// The request head, for modification.
    pub fn head_mut(&mut self) -> (r: &mut RequestHead)
        ensures
            *r == old(self).spec_head(),
            final(self).spec_head() == *final(r),
            final(self).spec_payload() == old(self).spec_payload(),
            final(self).spec_conn_data() == old(self).spec_conn_data(),
            final(self).spec_req_data() == old(self).spec_req_data(),
    {
        &mut self.head
    }

    /// The request's headers, for modification.
    pub fn headers_mut(&mut self) -> (r: &mut HeaderMap)
        ensures
            *r == old(self).spec_head().headers,
            final(self).spec_head().headers == *final(r),
            final(self).spec_head().method == old(self).spec_head().method,
            final(self).spec_head().uri == old(self).spec_head().uri,
            final(self).spec_head().version == old(self).spec_head().version,
            final(self).spec_payload() == old(self).spec_payload(),
            final(self).spec_conn_data() == old(self).spec_conn_data(),
            final(self).spec_req_data() == old(self).spec_req_data(),
    {
        &mut self.head.headers
    }

    /// The request's headers.
    pub fn headers(&self) -> (r: &HeaderMap)
        ensures
            *r == self.spec_head().headers,
    {
        &self.head.headers
    }

    /// The request target.
    pub fn uri(&self) -> (r: &Uri)
        ensures
            *r == self.spec_head().uri,
    {
        &self.head.uri
    }

    /// The request target, for modification.
    pub fn uri_mut(&mut self) -> (r: &mut Uri)
        ensures
            *r == old(self).spec_head().uri,
            final(self).spec_head().uri == *final(r),
            final(self).spec_head().headers == old(self).spec_head().headers,
            final(self).spec_head().method == old(self).spec_head().method,
            final(self).spec_head().version == old(self).spec_head().version,
            final(self).spec_payload() == old(self).spec_payload(),
            final(self).spec_conn_data() == old(self).spec_conn_data(),
            final(self).spec_req_data() == old(self).spec_req_data(),
    {
        &mut self.head.uri
    }

    /// The request method.
    pub fn method(&self) -> (r: Method)
        ensures
            r == self.spec_head().method,
    {
        self.head.method
    }

    /// The protocol version.
    pub fn version(&self) -> (r: Version)
        ensures
            r == self.spec_head().version,
    {
        self.head.version
    }

    /// The target path.
    pub fn path(&self) -> (r: &Vec<u8>)
        ensures
            r@ == self.spec_head().uri.spec_path(),
    {
        self.head.uri.path()
    }

    /// Whether the request asks for a connection upgrade.
    pub fn upgrade(&self) -> (r: bool)
        ensures
            r == spec_upgrade(self.spec_head()),
    {
        self.head.upgrade()
    }

    /// A connection-scoped value stored under `key`, if a container was
    /// attached and holds one.
    pub fn conn_data(&self, key: u64) -> (r: Option<&Vec<u8>>)
        ensures
            match r {
                Some(v) => self.spec_conn_data() matches Some(c) && c.spec_get(key) == Some(v@),
                None => match self.spec_conn_data() {
                    Some(c) => c.spec_get(key) is None,
                    None => true,
                },
            },
    {
        match &self.conn_data {
            Some(c) => c.get(key),
            None => None,
        }
    }

    /// Take the connection-scoped container out, if one was attached.
    pub fn take_conn_data(&mut self) -> (r: Option<Extensions>)
        ensures
            r == old(self).spec_conn_data(),
            final(self).spec_conn_data() is None,
            final(self).spec_head() == old(self).spec_head(),
            final(self).spec_payload() == old(self).spec_payload(),
            final(self).spec_req_data() == old(self).spec_req_data(),
    {
        let mut c: Option<Extensions> = None;
        core::mem::swap(&mut c, &mut self.conn_data);
        c
    }

    /// Take the request-scoped container out, leaving an empty one.
    pub fn take_req_data(&mut self) -> (r: Extensions)
        ensures
            r == old(self).spec_req_data(),
            forall|k: u64| #[trigger] final(self).spec_req_data().spec_get(k) is None,
            final(self).spec_head() == old(self).spec_head(),
            final(self).spec_payload() == old(self).spec_payload(),
            final(self).spec_conn_data() == old(self).spec_conn_data(),
    {
        let mut d = Extensions::new();
        core::mem::swap(&mut d, &mut self.req_data);
        d
    }

    /// Attach a connection-scoped container.
    pub fn set_conn_data(&mut self, data: Extensions)
        ensures
            final(self).spec_conn_data() == Some(data),
            final(self).spec_head() == old(self).spec_head(),
            final(self).spec_payload() == old(self).spec_payload(),
            final(self).spec_req_data() == old(self).spec_req_data(),
    {
        self.conn_data = Some(data);
    }

    /// The request-scoped container, for modification.
    pub fn req_data_mut(&mut self) -> (r: &mut Extensions)
        ensures
            *r == old(self).spec_req_data(),
            final(self).spec_req_data() == *final(r),
            final(self).spec_head() == old(self).spec_head(),
            final(self).spec_payload() == old(self).spec_payload(),
            final(self).spec_conn_data() == old(self).spec_conn_data(),
    {
        &mut self.req_data
    }

    /// A one-line rendering of the request for diagnostics: a leading line
    /// with version, method and path, a query line when a query is present,
    /// and a headers heading (entries are not rendered).
    pub fn debug_bytes(&self) -> (r: Vec<u8>)
        ensures
            r@ == debug_seq(self.spec_head()),
    {
        let mut out: Vec<u8> = Vec::new();
        let lead: Vec<u8> = vec![0x0a, 0x52, 0x65, 0x71, 0x75, 0x65, 0x73, 0x74, 0x20];
        extend_from(&mut out, &lead);
        let ver: Vec<u8> = match self.head.version {
            Version::Http09 => vec![0x48, 0x54, 0x54, 0x50, 0x2f, 0x30, 0x2e, 0x39],
            Version::Http10 => vec![0x48, 0x54, 0x54, 0x50, 0x2f, 0x31, 0x2e, 0x30],
            Version::Http11 => vec![0x48, 0x54, 0x54, 0x50, 0x2f, 0x31, 0x2e, 0x31],
            Version::Http2 => vec![0x48, 0x54, 0x54, 0x50, 0x2f, 0x32, 0x2e, 0x30],
            Version::Http3 => vec![0x48, 0x54, 0x54, 0x50, 0x2f, 0x33, 0x2e, 0x30],
        };
        proof {
            assert(ver@ =~= version_bytes(self.head.version));
        }
        extend_from(&mut out, &ver);
        out.push(0x20);
        let m: Vec<u8> = match self.head.method {
            Method::Get => vec![0x47, 0x45, 0x54],
            Method::Head => vec![0x48, 0x45, 0x41, 0x44],
            Method::Post => vec![0x50, 0x4f, 0x53, 0x54],
            Method::Put => vec![0x50, 0x55, 0x54],
            Method::Delete => vec![0x44, 0x45, 0x4c, 0x45, 0x54, 0x45],
            Method::Connect => vec![0x43, 0x4f, 0x4e, 0x4e, 0x45, 0x43, 0x54],
            Method::Options => vec![0x4f, 0x50, 0x54, 0x49, 0x4f, 0x4e, 0x53],
            Method::Trace => vec![0x54, 0x52, 0x41, 0x43, 0x45],
            Method::Patch => vec![0x50, 0x41, 0x54, 0x43, 0x48],
        };
        proof {
            assert(m@ =~= method_bytes(self.head.method));
        }
        extend_from(&mut out, &m);
        out.push(0x3a);
        extend_from(&mut out, self.head.uri.path());
        out.push(0x0a);
        match self.head.uri.query() {
            Some(q) => {
                let qlead: Vec<u8> = vec![0x20, 0x20, 0x71, 0x75, 0x65, 0x72, 0x79, 0x3a, 0x20,
                    0x3f, 0x22];
                extend_from(&mut out, &qlead);
                extend_from(&mut out, q);
                out.push(0x22);
                out.push(0x0a);
            },
            None => {},
        }
        let hdrs: Vec<u8> = vec![0x20, 0x20, 0x68, 0x65, 0x61, 0x64, 0x65, 0x72, 0x73, 0x3a, 0x0a];
        extend_from(&mut out, &hdrs);
        proof {
            assert(out@ =~= debug_seq(self.spec_head()));
        }
        out
    }
}

/// The diagnostic rendering of a request head.
pub open spec fn debug_seq(h: RequestHead) -> Seq<u8> {
    let lead = seq![0x0au8, 0x52, 0x65, 0x71, 0x75, 0x65, 0x73, 0x74, 0x20] + version_bytes(
        h.version,
    ) + seq![0x20u8] + method_bytes(h.method) + seq![0x3au8] + h.uri.spec_path() + seq![0x0au8];
    let q = match h.uri.spec_query() {
        Some(qv) => seq![0x20u8, 0x20, 0x71, 0x75, 0x65, 0x72, 0x79, 0x3a, 0x20, 0x3f, 0x22] + qv
            + seq![0x22u8, 0x0au8],
        None => Seq::empty(),
    };
    lead + q + seq![0x20u8, 0x20, 0x68, 0x65, 0x61, 0x64, 0x65, 0x72, 0x73, 0x3a, 0x0a]
}

} // verus!
