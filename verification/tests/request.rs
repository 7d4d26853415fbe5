use ws_proto::header::HeaderName;
use ws_proto::request::{Payload, Request, RequestHead, Uri};

#[test]
fn test_basics() {
    let msg = RequestHead::new();
    let mut req = Request::from_head(msg);
    req.headers_mut()
        .insert(HeaderName::ContentType, b"text/plain".to_vec());
    assert!(req.headers().contains_key(&HeaderName::ContentType));

    *req.uri_mut() = Uri::parse(&b"/index.html?q=1".to_vec());
    assert_eq!(req.uri().path(), &b"/index.html".to_vec());
    assert_eq!(req.uri().query(), Some(&b"q=1".to_vec()));

    let s = String::from_utf8(req.debug_bytes()).unwrap();
    assert!(s.contains("Request HTTP/1.1 GET:/index.html"));
}

#[test]
fn payload_handling() {
    let mut req = Request::with_payload(Payload::Full(b"body".to_vec()));
    match req.payload() {
        Payload::Full(b) => assert_eq!(b, &b"body".to_vec()),
        Payload::Empty => panic!("payload lost"),
    }
    let taken = req.take_payload();
    assert!(matches!(taken, Payload::Full(_)));
    assert!(matches!(req.take_payload(), Payload::Empty));

    let (req, old) = req.replace_payload(Payload::Full(b"new".to_vec()));
    assert!(matches!(old, Payload::Empty));
    let (_head, payload) = req.into_parts();
    assert!(matches!(payload, Payload::Full(_)));
}

#[test]
fn request_data_containers() {
    let mut req = Request::new();
    assert!(req.conn_data(7).is_none());
    assert!(req.take_conn_data().is_none());

    let mut ext = ws_proto::request::Extensions::new();
    ext.insert(7, b"peer".to_vec());
    req.set_conn_data(ext);
    assert_eq!(req.conn_data(7), Some(&b"peer".to_vec()));
    assert!(req.conn_data(8).is_none());
    let taken = req.take_conn_data();
    assert!(taken.is_some());
    assert!(req.conn_data(7).is_none());

    req.req_data_mut().insert(1, b"x".to_vec());
    let data = req.take_req_data();
    assert_eq!(data.get(1), Some(&b"x".to_vec()));
    let empty = req.take_req_data();
    assert!(empty.get(1).is_none());
}

#[test]
fn uri_without_query() {
    let uri = Uri::parse(&b"/plain".to_vec());
    assert_eq!(uri.path(), &b"/plain".to_vec());
    assert!(uri.query().is_none());
}
