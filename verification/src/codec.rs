//! The message codec: the continuation assembler that turns decoded frames
//! into application-visible messages, and the encoder that turns messages into
//! wire bytes. Both sit on top of the frame codec.

use vstd::prelude::*;
use vstd::utf8::{decode_utf8, encode_utf8, valid_utf8};

use crate::error::ProtocolError;
use crate::frame::{
    be2, be2_of, encode_spec, extend_from, key_view, parse_spec, ParseStep, Parser,
};
use crate::proto::{
    close_code_of, close_code_value, is_control, CloseCode, CloseReason, OpCode,
};

verus! {

/// One fragment of a fragmented message, for callers that work at the raw
/// fragment level on the encode side.
#[derive(Debug, PartialEq, Eq)]
pub enum Item {
    FirstText(Vec<u8>),
    FirstBinary(Vec<u8>),
    Continue(Vec<u8>),
    Last(Vec<u8>),
}

/// The application-visible unit: what the assembler produces and what the
/// encoder accepts.
#[derive(Debug, PartialEq, Eq)]
pub enum Message {
    /// A complete text message; always valid UTF-8.
    Text(String),
    /// A complete binary message.
    Binary(Vec<u8>),
    /// A raw fragment, for fragment-level senders.
    Continuation(Item),
    /// A ping with its payload.
    Ping(Vec<u8>),
    /// A pong with its payload.
    Pong(Vec<u8>),
    /// A close frame with its optional reason.
    Close(Option<CloseReason>),
    /// Nothing to transmit.
    Nop,
}

/// The mathematical value of an emitted message.
pub enum MsgV {
    Text(Seq<char>),
    Binary(Seq<u8>),
    Ping(Seq<u8>),
    Pong(Seq<u8>),
    Close(Option<(CloseCode, Option<Seq<char>>)>),
}

/// The mathematical value of a close reason.
pub open spec fn close_reason_view(r: CloseReason) -> (CloseCode, Option<Seq<char>>) {
    (
        r.code,
        match r.description {
            Some(s) => Some(s@),
            None => None,
        },
    )
}

/// Whether the exec message `m` denotes the value `v`.
pub open spec fn msg_matches(m: Message, v: MsgV) -> bool {
    match v {
        MsgV::Text(cs) => m matches Message::Text(s) && s@ == cs,
        MsgV::Binary(b) => m matches Message::Binary(p) && p@ == b,
        MsgV::Ping(b) => m matches Message::Ping(p) && p@ == b,
        MsgV::Pong(b) => m matches Message::Pong(p) && p@ == b,
        MsgV::Close(rv) => m matches Message::Close(r) && (match (r, rv) {
            (Some(cr), Some(crv)) => close_reason_view(cr) == crv,
            (None, None) => true,
            _ => false,
        }),
    }
}

/// The close reason a Close frame payload denotes: fewer than two bytes is no
/// reason; otherwise the first two bytes are the big-endian status code, and
/// the remaining bytes, when they are valid UTF-8, the description (an invalid
/// description is dropped, the code kept).
pub open spec fn close_reason_of(p: Seq<u8>) -> Option<(CloseCode, Option<Seq<char>>)> {
    if p.len() < 2 {
        None
    } else {
        let code = close_code_of(be2(p.subrange(0, 2)) as u16);
        let rest = p.subrange(2, p.len() as int);
        let desc = if p.len() > 2 && valid_utf8(rest) {
            Some(decode_utf8(rest))
        } else {
            None
        };
        Some((code, desc))
    }
}

/// The payload bytes of a Close frame carrying `reason`: nothing, or the
/// 2-byte big-endian status code followed by the UTF-8 description.
pub open spec fn close_payload_of(reason: Option<(CloseCode, Option<Seq<char>>)>) -> Seq<u8> {
    match reason {
        None => Seq::empty(),
        Some((c, None)) => be2_of(close_code_value(c) as u64),
        Some((c, Some(d))) => be2_of(close_code_value(c) as u64) + encode_utf8(d),
    }
}

/// Relies on `String::from_utf8`: it succeeds exactly on valid UTF-8 input and
/// returns the string whose characters are the decoding of the bytes.
#[verifier::external_body]
fn bytes_to_string(v: Vec<u8>) -> (r: Option<String>)
    ensures
        r is Some <==> valid_utf8(v@),
        r matches Some(s) ==> s@ == decode_utf8(v@),
{
    match String::from_utf8(v) {
        Ok(s) => Some(s),
        Err(_) => None,
    }
}

/// The UTF-8 bytes of a string, as a fresh vector.
fn string_bytes(s: &String) -> (r: Vec<u8>)
    ensures
        r@ == encode_utf8(s@),
{
    vstd::slice::slice_to_vec(s.as_str().as_bytes())
}

/// Parse the payload of a Close frame into its optional reason.
pub fn parse_close_payload(payload: &Vec<u8>) -> (r: Option<CloseReason>)
    ensures
        match (r, close_reason_of(payload@)) {
            (Some(cr), Some(v)) => close_reason_view(cr) == v,
            (None, None) => true,
            _ => false,
        },
{
    if payload.len() < 2 {
        return None;
    }
    let code_val: u16 = ((payload[0] as u16) << 8) | (payload[1] as u16);
    proof {
        let a = payload@[0];
        let b = payload@[1];
        assert((((a as u16) << 8) | (b as u16)) as u64 == ((a as u64) << 8) | (b as u64))
            by (bit_vector);
        assert(payload@.subrange(0, 2)[0] == a && payload@.subrange(0, 2)[1] == b);
        assert(code_val == be2(payload@.subrange(0, 2)) as u16);
    }
    let code = CloseCode::from_u16(code_val);
    let description: Option<String> = if payload.len() > 2 {
        let mut rest: Vec<u8> = Vec::new();
        let mut i: usize = 2;
        while i < payload.len()
            invariant
                2 <= i <= payload@.len(),
                rest@ == payload@.subrange(2, i as int),
            decreases payload@.len() - i,
        {
            rest.push(payload[i]);
            assert(rest@ =~= payload@.subrange(2, i + 1));
            i += 1;
        }
        assert(rest@ =~= payload@.subrange(2, payload@.len() as int));
        bytes_to_string(rest)
    } else {
        None
    };
    Some(CloseReason { code, description })
}

/// Build the payload of a Close frame from its optional reason.
///
/// A control frame's payload must stay within 125 bytes, so the encoded
/// description may take at most 123.
pub fn write_close_payload(reason: &Option<CloseReason>) -> (r: Vec<u8>)
    requires
        reason matches Some(cr) ==> (cr.description matches Some(d) ==> encode_utf8(d@).len()
            <= 123),
    ensures
        r@ == close_payload_of(
            match reason {
                Some(cr) => Some(close_reason_view(*cr)),
                None => None,
            },
        ),
        r@.len() <= 125,
{
    match reason {
        None => Vec::new(),
        Some(cr) => {
            let code_val = cr.code.to_u16();
            let mut out: Vec<u8> = Vec::new();
            let n: u64 = code_val as u64;
            proof {
                assert(n >> 8 <= 0xff && n & 0xff <= 0xff) by (bit_vector)
                    requires
                        n <= 0xffff,
                ;
            }
            out.push((n >> 8) as u8);
            out.push((n & 0xff) as u8);
            assert(out@ =~= be2_of(n));
            match &cr.description {
                Some(d) => {
                    let db = string_bytes(d);
                    extend_from(&mut out, &db);
                    assert(out@ =~= be2_of(n) + encode_utf8(d@));
                },
                None => {},
            }
            out
        },
    }
}

/// What the assembler does with one frame: its state afterwards and what it
/// hands out.
pub enum FeedOut {
    /// A complete message.
    OutMsg(MsgV),
    /// Nothing yet: a fragment was buffered.
    OutNone,
    /// The frame violated the fragmentation rules.
    OutErr(ProtocolError),
}

/// One assembler transition: the state after the frame and the output.
pub struct FeedStep {
    pub state: Option<(OpCode, Seq<u8>)>,
    pub out: FeedOut,
}

/// The continuation assembler's transition on one decoded frame, from a state
/// that is `Some((opcode, buffered bytes))` exactly while a fragmented message
/// is in progress.
///
/// Control frames are emitted immediately and never disturb the state. A data
/// frame starts or completes a message; a continuation frame extends or
/// completes the one in progress; an append that would push the buffered
/// message past `max` fails with an overflow and drops the buffer; a completed
/// text message that is not valid UTF-8 is a protocol violation.
pub open spec fn feed_spec(
    st: Option<(OpCode, Seq<u8>)>,
    fin: bool,
    op: OpCode,
    p: Seq<u8>,
    max: usize,
) -> FeedStep {
    if op == OpCode::Ping {
        FeedStep { state: st, out: FeedOut::OutMsg(MsgV::Ping(p)) }
    } else if op == OpCode::Pong {
        FeedStep { state: st, out: FeedOut::OutMsg(MsgV::Pong(p)) }
    } else if op == OpCode::Close {
        FeedStep { state: st, out: FeedOut::OutMsg(MsgV::Close(close_reason_of(p))) }
    } else if op == OpCode::Text || op == OpCode::Binary {
        if st is Some {
            FeedStep { state: st, out: FeedOut::OutErr(ProtocolError::ContinuationStarted) }
        } else if !fin {
            FeedStep { state: Some((op, p)), out: FeedOut::OutNone }
        } else if op == OpCode::Binary {
            FeedStep { state: None, out: FeedOut::OutMsg(MsgV::Binary(p)) }
        } else if valid_utf8(p) {
            FeedStep { state: None, out: FeedOut::OutMsg(MsgV::Text(decode_utf8(p))) }
        } else {
            FeedStep { state: None, out: FeedOut::OutErr(ProtocolError::Io) }
        }
    } else if op == OpCode::Continue {
        match st {
            None => FeedStep {
                state: None,
                out: FeedOut::OutErr(ProtocolError::ContinuationNotStarted),
            },
            Some((o, buf)) => {
                if buf.len() + p.len() > max {
                    FeedStep { state: None, out: FeedOut::OutErr(ProtocolError::Overflow) }
                } else if !fin {
                    FeedStep { state: Some((o, buf + p)), out: FeedOut::OutNone }
                } else if o == OpCode::Binary {
                    FeedStep { state: None, out: FeedOut::OutMsg(MsgV::Binary(buf + p)) }
                } else if valid_utf8(buf + p) {
                    FeedStep { state: None, out: FeedOut::OutMsg(MsgV::Text(decode_utf8(buf + p))) }
                } else {
                    FeedStep { state: None, out: FeedOut::OutErr(ProtocolError::Io) }
                }
            },
        }
    } else {
        FeedStep { state: st, out: FeedOut::OutErr(ProtocolError::BadOpCode) }
    }
}

/// The stateful codec of one connection: the connection role, the configured
/// size limit, and the continuation assembler's buffer.
pub struct Codec {
    server: bool,
    max_size: usize,
    active: Option<(OpCode, Vec<u8>)>,
}

impl Codec {
    /// The assembler state: `Some((opcode, bytes buffered so far))` exactly
    /// while a fragmented message is in progress.
    pub closed spec fn active_view(self) -> Option<(OpCode, Seq<u8>)> {
        match self.active {
            Some((op, b)) => Some((op, b@)),
            None => None,
        }
    }

    /// Whether this side expects masked frames from its peer (the server
    /// role).
    pub closed spec fn spec_server(self) -> bool {
        self.server
    }

    /// The configured maximum assembled-message and frame-payload size.
    pub closed spec fn spec_max(self) -> usize {
        self.max_size
    }

    /// A server-role codec with a 64 KiB size limit and no assembly in
    /// progress.
    pub fn new() -> (r: Codec)
        ensures
            r.spec_server(),
            r.spec_max() == 65536,
            r.active_view() is None,
    {
        Codec { server: true, max_size: 65536, active: None }
    }

    /// The same codec in the client role: the peer is a server and must not
    /// mask.
    pub fn client_mode(self) -> (r: Codec)
        ensures
            !r.spec_server(),
            r.spec_max() == self.spec_max(),
            r.active_view() == self.active_view(),
    {
        Codec { server: false, ..self }
    }

    /// The same codec with another maximum message size.
    pub fn max_size(self, size: usize) -> (r: Codec)
        ensures
            r.spec_server() == self.spec_server(),
            r.spec_max() == size,
            r.active_view() == self.active_view(),
    {
        Codec { max_size: size, ..self }
    }

    /// Feed one decoded frame to the continuation assembler; its behaviour is
    /// exactly `feed_spec` on the current state. Control frames pass through
    /// without touching the state, so they may interleave with an in-progress
    /// fragmented message.
    pub fn feed(&mut self, fin: bool, op: OpCode, payload: Vec<u8>) -> (r: Result<
        Option<Message>,
        ProtocolError,
    >)
        ensures
            ({
                let step = feed_spec(
                    old(self).active_view(),
                    fin,
                    op,
                    payload@,
                    old(self).spec_max(),
                );
                &&& final(self).active_view() == step.state
                &&& final(self).spec_server() == old(self).spec_server()
                &&& final(self).spec_max() == old(self).spec_max()
                &&& match step.out {
                    FeedOut::OutMsg(v) => r is Ok && r->Ok_0 is Some && msg_matches(
                        r->Ok_0->Some_0,
                        v,
                    ),
                    FeedOut::OutNone => r is Ok && r->Ok_0 is None,
                    FeedOut::OutErr(e) => r is Err && r->Err_0 == e,
                }
            }),
    {
        match op {
            OpCode::Ping => Ok(Some(Message::Ping(payload))),
            OpCode::Pong => Ok(Some(Message::Pong(payload))),
            OpCode::Close => Ok(Some(Message::Close(parse_close_payload(&payload)))),
            OpCode::Text | OpCode::Binary => {
                if self.active.is_some() {
                    return Err(ProtocolError::ContinuationStarted);
                }
                if !fin {
                    self.active = Some((op, payload));
                    return Ok(None);
                }
                match op {
                    OpCode::Binary => Ok(Some(Message::Binary(payload))),
                    _ => match bytes_to_string(payload) {
                        Some(s) => Ok(Some(Message::Text(s))),
                        None => Err(ProtocolError::Io),
                    },
                }
            },
            OpCode::Continue => {
                let mut st: Option<(OpCode, Vec<u8>)> = None;
                core::mem::swap(&mut st, &mut self.active);
                match st {
                    None => Err(ProtocolError::ContinuationNotStarted),
                    Some((o, mut buf)) => {
                        if buf.len() > self.max_size || payload.len() > self.max_size - buf.len() {
                            return Err(ProtocolError::Overflow);
                        }
                        extend_from(&mut buf, &payload);
                        if !fin {
                            self.active = Some((o, buf));
                            return Ok(None);
                        }
                        match o {
                            OpCode::Binary => Ok(Some(Message::Binary(buf))),
                            _ => match bytes_to_string(buf) {
                                Some(s) => Ok(Some(Message::Text(s))),
                                None => Err(ProtocolError::Io),
                            },
                        }
                    },
                }
            },
            OpCode::Bad => Err(ProtocolError::BadOpCode),
        }
    }
}

/// The result of pumping buffered bytes through the frame parser and the
/// assembler: the assembler state and the unconsumed bytes at the point where
/// pumping stops, and why it stops.
pub struct DecodeStep {
    pub state: Option<(OpCode, Seq<u8>)>,
    pub buf: Seq<u8>,
    pub out: FeedOut,
}

/// What repeatedly parsing frames from the front of `s` and feeding them to
/// the assembler yields: frames are consumed until one produces a complete
/// message or an error, or until the buffer holds no complete frame.
pub open spec fn decode_spec(
    st: Option<(OpCode, Seq<u8>)>,
    s: Seq<u8>,
    server: bool,
    max: usize,
) -> DecodeStep
    decreases s.len(),
{
    match parse_spec(s, server, max) {
        ParseStep::More => DecodeStep { state: st, buf: s, out: FeedOut::OutNone },
        ParseStep::Fail(e) => DecodeStep { state: st, buf: s, out: FeedOut::OutErr(e) },
        ParseStep::Frame(pf) => {
            if 2 <= pf.consumed <= s.len() {
                let rest = s.subrange(pf.consumed, s.len() as int);
                let fs = feed_spec(st, pf.fin, pf.opcode, pf.payload, max);
                match fs.out {
                    FeedOut::OutNone => decode_spec(fs.state, rest, server, max),
                    _ => DecodeStep { state: fs.state, buf: rest, out: fs.out },
                }
            } else {
                // Unreachable: a complete frame spans between 2 bytes and the
                // whole buffer (`lemma_parse_frame_consumed`).
                DecodeStep { state: st, buf: s, out: FeedOut::OutNone }
            }
        },
    }
}

impl Codec {
    /// Decode and consume as many frames as `src` holds until one yields a
    /// complete message or an error; `Ok(None)` means the buffer holds no
    /// complete frame beyond buffered fragments and the caller must supply
    /// more bytes. Its behaviour is exactly `decode_spec` on the current
    /// state and buffer.
    pub fn decode(&mut self, src: &mut Vec<u8>) -> (r: Result<Option<Message>, ProtocolError>)
        ensures
            ({
                let step = decode_spec(
                    old(self).active_view(),
                    old(src)@,
                    old(self).spec_server(),
                    old(self).spec_max(),
                );
                &&& final(self).active_view() == step.state
                &&& final(src)@ == step.buf
                &&& final(self).spec_server() == old(self).spec_server()
                &&& final(self).spec_max() == old(self).spec_max()
                &&& match step.out {
                    FeedOut::OutMsg(v) => r is Ok && r->Ok_0 is Some && msg_matches(
                        r->Ok_0->Some_0,
                        v,
                    ),
                    FeedOut::OutNone => r is Ok && r->Ok_0 is None,
                    FeedOut::OutErr(e) => r is Err && r->Err_0 == e,
                }
            }),
    {
        loop
            invariant
                self.spec_server() == old(self).spec_server(),
                self.spec_max() == old(self).spec_max(),
                decode_spec(self.active_view(), src@, self.spec_server(), self.spec_max())
                    == decode_spec(
                    old(self).active_view(),
                    old(src)@,
                    old(self).spec_server(),
                    old(self).spec_max(),
                ),
            decreases src@.len(),
        {
            let ghost pre_buf = src@;
            let server = self.server;
            let max = self.max_size;
            proof {
                crate::frame::lemma_parse_frame_consumed(pre_buf, server, max);
            }
            match Parser::parse(src, server, max) {
                Err(e) => {
                    return Err(e);
                },
                Ok(None) => {
                    return Ok(None);
                },
                Ok(Some((fin, op, payload))) => {
                    match self.feed(fin, op, payload) {
                        Ok(None) => {},
                        Ok(Some(m)) => {
                            return Ok(Some(m));
                        },
                        Err(e) => {
                            return Err(e);
                        },
                    }
                },
            }
        }
    }

    /// Encode one outbound message, appending its wire bytes to `dst`,
    /// masking exactly when a key is supplied. The client role must supply a
    /// key, the server role must not; the caller keeps control frames within
    /// 125 payload bytes (`msg_encodable`).
    pub fn encode(&self, msg: &Message, key: Option<[u8; 4]>, dst: &mut Vec<u8>)
        requires
            msg_encodable(*msg),
            (key_view(key) is Some) <==> !self.spec_server(),
        ensures
            final(dst)@ == old(dst)@ + msg_encoding(*msg, key_view(key)),
    {
        match msg {
            Message::Text(s) => {
                let b = string_bytes(s);
                Parser::write_message(dst, true, OpCode::Text, key, &b);
            },
            Message::Binary(b) => {
                Parser::write_message(dst, true, OpCode::Binary, key, b);
            },
            Message::Continuation(item) => match item {
                Item::FirstText(b) => {
                    Parser::write_message(dst, false, OpCode::Text, key, b);
                },
                Item::FirstBinary(b) => {
                    Parser::write_message(dst, false, OpCode::Binary, key, b);
                },
                Item::Continue(b) => {
                    Parser::write_message(dst, false, OpCode::Continue, key, b);
                },
                Item::Last(b) => {
                    Parser::write_message(dst, true, OpCode::Continue, key, b);
                },
            },
            Message::Ping(p) => {
                Parser::write_message(dst, true, OpCode::Ping, key, p);
            },
            Message::Pong(p) => {
                Parser::write_message(dst, true, OpCode::Pong, key, p);
            },
            Message::Close(r) => {
                let p = write_close_payload(r);
                Parser::write_message(dst, true, OpCode::Close, key, &p);
            },
            Message::Nop => {
                assert(dst@ =~= old(dst)@ + Seq::<u8>::empty());
            },
        }
    }
}

/// Whether an outbound message fits the wire format's size limits: control
/// payloads within 125 bytes, data payloads below 2^63.
pub open spec fn msg_encodable(m: Message) -> bool {
    match m {
        Message::Text(s) => encode_utf8(s@).len() < 0x8000000000000000,
        Message::Binary(b) => b@.len() < 0x8000000000000000,
        Message::Continuation(item) => match item {
            Item::FirstText(b) => b@.len() < 0x8000000000000000,
            Item::FirstBinary(b) => b@.len() < 0x8000000000000000,
            Item::Continue(b) => b@.len() < 0x8000000000000000,
            Item::Last(b) => b@.len() < 0x8000000000000000,
        },
        Message::Ping(p) => p@.len() <= 125,
        Message::Pong(p) => p@.len() <= 125,
        Message::Close(r) => match r {
            Some(cr) => match cr.description {
                Some(d) => encode_utf8(d@).len() <= 123,
                None => true,
            },
            None => true,
        },
        Message::Nop => true,
    }
}

/// The wire bytes of one outbound message: the frame encoding of its opcode
/// and payload, final except for non-last fragments.
pub open spec fn msg_encoding(m: Message, key: Option<Seq<u8>>) -> Seq<u8> {
    match m {
        Message::Text(s) => encode_spec(true, OpCode::Text, key, encode_utf8(s@)),
        Message::Binary(b) => encode_spec(true, OpCode::Binary, key, b@),
        Message::Continuation(item) => match item {
            Item::FirstText(b) => encode_spec(false, OpCode::Text, key, b@),
            Item::FirstBinary(b) => encode_spec(false, OpCode::Binary, key, b@),
            Item::Continue(b) => encode_spec(false, OpCode::Continue, key, b@),
            Item::Last(b) => encode_spec(true, OpCode::Continue, key, b@),
        },
        Message::Ping(p) => encode_spec(true, OpCode::Ping, key, p@),
        Message::Pong(p) => encode_spec(true, OpCode::Pong, key, p@),
        Message::Close(r) => encode_spec(
            true,
            OpCode::Close,
            key,
            close_payload_of(
                match r {
                    Some(cr) => Some(close_reason_view(cr)),
                    None => None,
                },
            ),
        ),
        Message::Nop => Seq::empty(),
    }
}

/// The concatenation of the first `k` fragments.
pub open spec fn cat_prefix(ps: Seq<Seq<u8>>, k: int) -> Seq<u8>
    decreases k,
{
    if k <= 0 {
        Seq::empty()
    } else {
        cat_prefix(ps, k - 1) + ps[k - 1]
    }
}

proof fn lemma_cat_prefix_len_mono(ps: Seq<Seq<u8>>, k: int, n: int)
    requires
        0 <= k <= n,
    ensures
        cat_prefix(ps, k).len() <= cat_prefix(ps, n).len(),
    decreases n,
{
    if k < n {
        lemma_cat_prefix_len_mono(ps, k, n - 1);
    }
}

/// The assembler state after the first `k` frames of a message of opcode `op`
/// split into the fragments `ps`: nothing before the first frame, then the
/// opcode with the fragments buffered so far.
pub open spec fn partial_state(op: OpCode, ps: Seq<Seq<u8>>, k: int) -> Option<(OpCode, Seq<u8>)> {
    if k == 0 {
        None
    } else {
        Some((op, cat_prefix(ps, k)))
    }
}

/// Fragmentation law: a data message split into an initial frame and any
/// number of continuation frames, the last one final, reassembles to exactly
/// the concatenation of the fragments — whatever the number of fragments or
/// the split points, empty fragments included. Every frame before the last
/// only extends the buffered state and emits nothing; the last one empties the
/// state and emits the whole message (for a text message, decoded from UTF-8
/// when valid, a protocol violation otherwise).
pub proof fn lemma_fragmentation(op: OpCode, ps: Seq<Seq<u8>>, max: usize)
    requires
        op == OpCode::Text || op == OpCode::Binary,
        ps.len() >= 1,
        cat_prefix(ps, ps.len() as int).len() <= max,
    ensures
        forall|k: int|
            0 <= k < ps.len() - 1 ==> feed_spec(
                partial_state(op, ps, k),
                false,
                (if k == 0 {
                    op
                } else {
                    OpCode::Continue
                }),
                ps[k],
                max,
            ) == (FeedStep { state: partial_state(op, ps, k + 1), out: FeedOut::OutNone }),
        ({
            let n = ps.len() as int;
            let whole = cat_prefix(ps, n);
            let last = feed_spec(
                partial_state(op, ps, n - 1),
                true,
                (if n == 1 {
                    op
                } else {
                    OpCode::Continue
                }),
                ps[n - 1],
                max,
            );
            &&& last.state is None
            &&& (op == OpCode::Binary ==> last.out == FeedOut::OutMsg(MsgV::Binary(whole)))
            &&& (op == OpCode::Text && valid_utf8(whole) ==> last.out == FeedOut::OutMsg(
                MsgV::Text(decode_utf8(whole)),
            ))
            &&& (op == OpCode::Text && !valid_utf8(whole) ==> last.out == FeedOut::OutErr(
                ProtocolError::Io,
            ))
        }),
{
    let n = ps.len() as int;
    assert forall|k: int| 0 <= k < n - 1 implies feed_spec(
        partial_state(op, ps, k),
        false,
        (if k == 0 {
            op
        } else {
            OpCode::Continue
        }),
        ps[k],
        max,
    ) == (FeedStep { state: partial_state(op, ps, k + 1), out: FeedOut::OutNone }) by {
        lemma_cat_prefix_len_mono(ps, k + 1, n);
        if k == 0 {
            assert(cat_prefix(ps, 1) =~= ps[0]);
        }
    }
    let whole = cat_prefix(ps, n);
    if n == 1 {
        assert(cat_prefix(ps, 1) =~= ps[0]);
        assert(whole == ps[0]);
    } else {
        lemma_cat_prefix_len_mono(ps, n, n);
    }
}

/// Control-frame interleaving law: whatever the assembler state — a
/// fragmented message in progress included — a control frame is emitted
/// immediately and the state is untouched.
pub proof fn lemma_control_interleaving(
    st: Option<(OpCode, Seq<u8>)>,
    fin: bool,
    op: OpCode,
    p: Seq<u8>,
    max: usize,
)
    requires
        is_control(op),
    ensures
        feed_spec(st, fin, op, p, max).state == st,
        op == OpCode::Ping ==> feed_spec(st, fin, op, p, max).out == FeedOut::OutMsg(MsgV::Ping(p)),
        op == OpCode::Pong ==> feed_spec(st, fin, op, p, max).out == FeedOut::OutMsg(MsgV::Pong(p)),
        op == OpCode::Close ==> feed_spec(st, fin, op, p, max).out == FeedOut::OutMsg(
            MsgV::Close(close_reason_of(p)),
        ),
{
}

} // verus!
