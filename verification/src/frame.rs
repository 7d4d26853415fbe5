//! The frame codec: a resumable parse of one frame from the front of an
//! append-only byte buffer, and the encoder that produces the wire format.

use vstd::prelude::*;

use crate::error::ProtocolError;
use crate::mask::{apply_mask, masked};
use crate::proto::{is_control, opcode_of, opcode_value, OpCode};

verus! {

/// Big-endian value of a 2-byte sequence.
pub open spec fn be2(s: Seq<u8>) -> u64
    recommends
        s.len() == 2,
{
    ((s[0] as u64) << 8) | (s[1] as u64)
}

/// The 2-byte big-endian encoding of a value below 2^16.
pub open spec fn be2_of(n: u64) -> Seq<u8>
    recommends
        n < 0x10000,
{
    seq![(n >> 8) as u8, (n & 0xff) as u8]
}

/// Big-endian value of an 8-byte sequence.
pub open spec fn be8(s: Seq<u8>) -> u64
    recommends
        s.len() == 8,
{
    ((s[0] as u64) << 56) | ((s[1] as u64) << 48) | ((s[2] as u64) << 40) | ((s[3] as u64) << 32)
        | ((s[4] as u64) << 24) | ((s[5] as u64) << 16) | ((s[6] as u64) << 8) | (s[7] as u64)
}

/// The 8-byte big-endian encoding of a value.
pub open spec fn be8_of(n: u64) -> Seq<u8> {
    seq![
        (n >> 56) as u8,
        ((n >> 48) & 0xff) as u8,
        ((n >> 40) & 0xff) as u8,
        ((n >> 32) & 0xff) as u8,
        ((n >> 24) & 0xff) as u8,
        ((n >> 16) & 0xff) as u8,
        ((n >> 8) & 0xff) as u8,
        (n & 0xff) as u8,
    ]
}

pub proof fn lemma_be2_roundtrip(n: u64)
    requires
        n < 0x10000,
    ensures
        be2(be2_of(n)) == n,
{
    assert((((n >> 8) as u8 as u64) << 8) | ((n & 0xff) as u8 as u64) == n) by (bit_vector)
        requires
            n < 0x10000,
    ;
}

pub proof fn lemma_be8_roundtrip(n: u64)
    ensures
        be8(be8_of(n)) == n,
{
    assert((((n >> 56) as u8 as u64) << 56) | ((((n >> 48) & 0xff) as u8 as u64) << 48) | ((((n
        >> 40) & 0xff) as u8 as u64) << 40) | ((((n >> 32) & 0xff) as u8 as u64) << 32) | ((((n
        >> 24) & 0xff) as u8 as u64) << 24) | ((((n >> 16) & 0xff) as u8 as u64) << 16) | ((((n
        >> 8) & 0xff) as u8 as u64) << 8) | ((n & 0xff) as u8 as u64) == n) by (bit_vector);
}

/// How many extended-length bytes follow the 2-byte header for a 7-bit length
/// field value.
pub open spec fn ext_len_bytes(len7: u8) -> int {
    if len7 == 126 {
        2
    } else if len7 == 127 {
        8
    } else {
        0
    }
}

/// The payload length a buffer declares, once the extended length bytes are
/// available.
pub open spec fn declared_len(s: Seq<u8>) -> u64
    recommends
        s.len() >= 2 + ext_len_bytes(s[1] & 0x7f),
{
    let len7 = s[1] & 0x7f;
    if len7 == 126 {
        be2(s.subrange(2, 4))
    } else if len7 == 127 {
        be8(s.subrange(2, 10))
    } else {
        len7 as u64
    }
}

/// One decoded frame: how many buffer bytes it occupied, its final-fragment
/// flag, its opcode, and its payload with any mask already removed.
pub struct ParsedFrame {
    pub consumed: int,
    pub fin: bool,
    pub opcode: OpCode,
    pub payload: Seq<u8>,
}

/// The outcome of attempting to parse one frame from the front of a buffer.
pub enum ParseStep {
    /// The buffer does not yet hold a complete frame; nothing is consumed.
    More,
    /// The frame at the front of the buffer is invalid.
    Fail(ProtocolError),
    /// A complete, valid frame.
    Frame(ParsedFrame),
}

/// What parsing the front of `s` yields, for a connection whose peer must mask
/// exactly when `server` is true, with `max_size` the largest accepted payload.
///
/// The checks run in this order: the mask bit must match the connection role;
/// the three reserved bits must be zero; the opcode must not be reserved; a
/// control frame must be final with a 7-bit length field of at most 125; a
/// declared length with its high bit set, or above `max_size`, is an overflow;
/// only then are missing bytes reported as `More`.
pub open spec fn parse_spec(s: Seq<u8>, server: bool, max_size: usize) -> ParseStep {
    if s.len() < 2 {
        ParseStep::More
    } else {
        let b0 = s[0];
        let b1 = s[1];
        let fin = b0 & 0x80 == 0x80;
        let opnib = b0 & 0x0f;
        let is_masked = b1 & 0x80 == 0x80;
        let len7 = b1 & 0x7f;
        if is_masked && !server {
            ParseStep::Fail(ProtocolError::MaskedFrame)
        } else if !is_masked && server {
            ParseStep::Fail(ProtocolError::UnmaskedFrame)
        } else if b0 & 0x70 != 0 {
            ParseStep::Fail(ProtocolError::BadOpCode)
        } else if opcode_of(opnib) == OpCode::Bad {
            ParseStep::Fail(ProtocolError::InvalidOpcode(opnib))
        } else if is_control(opcode_of(opnib)) && (len7 > 125 || !fin) {
            ParseStep::Fail(ProtocolError::InvalidLength(len7 as usize))
        } else if s.len() < 2 + ext_len_bytes(len7) {
            ParseStep::More
        } else {
            let len = declared_len(s);
            if len7 == 127 && len >= 0x8000000000000000 {
                ParseStep::Fail(ProtocolError::Overflow)
            } else if len > max_size as u64 {
                ParseStep::Fail(ProtocolError::Overflow)
            } else {
                let header = 2 + ext_len_bytes(len7) + if is_masked {
                    4int
                } else {
                    0int
                };
                if s.len() < header + len {
                    ParseStep::More
                } else {
                    let raw = s.subrange(header, header + len);
                    let payload = if is_masked {
                        masked(raw, s.subrange(header - 4, header))
                    } else {
                        raw
                    };
                    ParseStep::Frame(
                        ParsedFrame {
                            consumed: header + len,
                            fin,
                            opcode: opcode_of(opnib),
                            payload,
                        },
                    )
                }
            }
        }
    }
}

/// The first length byte (mask bit plus 7-bit length field) followed by the
/// extended length bytes, for a payload of `n` bytes.
pub open spec fn len_field(n: u64, has_mask: bool) -> Seq<u8> {
    let mbit: u8 = if has_mask {
        0x80
    } else {
        0
    };
    if n <= 125 {
        seq![mbit | (n as u8)]
    } else if n < 0x10000 {
        seq![mbit | 126] + be2_of(n)
    } else {
        seq![mbit | 127] + be8_of(n)
    }
}

/// The view of an optional exec mask key.
pub open spec fn key_view(k: Option<[u8; 4]>) -> Option<Seq<u8>> {
    match k {
        Some(a) => Some(a@),
        None => None,
    }
}

/// The wire bytes of one frame: the 2-byte header, extended length bytes as
/// the 125/126/127 thresholds require, the mask key if one is supplied, and
/// the payload, masked exactly when a key is supplied.
pub open spec fn encode_spec(fin: bool, op: OpCode, key: Option<Seq<u8>>, payload: Seq<u8>) -> Seq<
    u8,
>
    recommends
        op != OpCode::Bad,
        payload.len() < 0x8000000000000000,
        key matches Some(k) ==> k.len() == 4,
{
    let finbit: u8 = if fin {
        0x80
    } else {
        0
    };
    let b0 = finbit | opcode_value(op);
    let n = payload.len() as u64;
    match key {
        Some(k) => seq![b0] + len_field(n, true) + k + masked(payload, k),
        None => seq![b0] + len_field(n, false) + payload,
    }
}

/// Append a copy of `src` to `dst`.
pub fn extend_from(dst: &mut Vec<u8>, src: &Vec<u8>)
    ensures
        final(dst)@ == old(dst)@ + src@,
{
    let mut i: usize = 0;
    while i < src.len()
        invariant
            i <= src.len(),
            dst@ == old(dst)@ + src@.subrange(0, i as int),
        decreases src.len() - i,
    {
        dst.push(src[i]);
        assert(dst@ =~= old(dst)@ + src@.subrange(0, i + 1));
        i += 1;
    }
    assert(dst@ =~= old(dst)@ + src@);
}

/// The frame codec's entry points.
pub struct Parser;

impl Parser {
    /// Try to parse exactly one frame from the front of `src`.
    ///
    /// Returns `Ok(None)` and consumes nothing when the buffer does not yet
    /// hold a complete frame; returns the frame's final flag, opcode and
    /// unmasked payload, consuming exactly the parsed bytes, when it does; and
    /// reports the first validation failure otherwise, consuming nothing.
    pub fn parse(src: &mut Vec<u8>, server: bool, max_size: usize) -> (r: Result<
        Option<(bool, OpCode, Vec<u8>)>,
        ProtocolError,
    >)
        ensures
            ({
                let step = parse_spec(old(src)@, server, max_size);
                match step {
                    ParseStep::More => r is Ok && r->Ok_0 is None && final(src)@ == old(src)@,
                    ParseStep::Fail(e) => r is Err && r->Err_0 == e && final(src)@ == old(src)@,
                    ParseStep::Frame(pf) => r is Ok && r->Ok_0 is Some && {
                        let t = r->Ok_0->Some_0;
                        &&& t.0 == pf.fin
                        &&& t.1 == pf.opcode
                        &&& t.2@ == pf.payload
                        &&& final(src)@ == old(src)@.subrange(pf.consumed, old(src)@.len() as int)
                    },
                }
            }),
    {
        if src.len() < 2 {
            return Ok(None);
        }
        let b0 = src[0];
        let b1 = src[1];
        let fin = b0 & 0x80 == 0x80;
        let opnib = b0 & 0x0f;
        let is_masked = b1 & 0x80 == 0x80;
        let len7 = b1 & 0x7f;
        if is_masked && !server {
            return Err(ProtocolError::MaskedFrame);
        }
        if !is_masked && server {
            return Err(ProtocolError::UnmaskedFrame);
        }
        if b0 & 0x70 != 0 {
            return Err(ProtocolError::BadOpCode);
        }
        let opcode = OpCode::from_u8(opnib);
        if opcode == OpCode::Bad {
            return Err(ProtocolError::InvalidOpcode(opnib));
        }
        if opcode.is_control() && (len7 > 125 || !fin) {
            return Err(ProtocolError::InvalidLength(len7 as usize));
        }
        let ext: usize = if len7 == 126 {
            2
        } else if len7 == 127 {
            8
        } else {
            0
        };
        if src.len() < 2 + ext {
            return Ok(None);
        }
        let len: u64 = if len7 == 126 {
            ((src[2] as u64) << 8) | (src[3] as u64)
        } else if len7 == 127 {
            ((src[2] as u64) << 56) | ((src[3] as u64) << 48) | ((src[4] as u64) << 40) | ((src[5]
                as u64) << 32) | ((src[6] as u64) << 24) | ((src[7] as u64) << 16) | ((src[8]
                as u64) << 8) | (src[9] as u64)
        } else {
            len7 as u64
        };
        assert(len == declared_len(src@)) by {
            if len7 == 126 {
                assert(src@.subrange(2, 4)[0] == src@[2]);
                assert(src@.subrange(2, 4)[1] == src@[3]);
            } else if len7 == 127 {
                assert(forall|k: int| 0 <= k < 8 ==> src@.subrange(2, 10)[k] == src@[2 + k]);
            }
        }
        if len7 == 127 && len >= 0x8000000000000000 {
            return Err(ProtocolError::Overflow);
        }
        if len > max_size as u64 {
            return Err(ProtocolError::Overflow);
        }
        let len_us = len as usize;
        let header: usize = 2 + ext + if is_masked {
            4
        } else {
            0
        };
        if src.len() < header || src.len() - header < len_us {
            return Ok(None);
        }
        let mut payload: Vec<u8> = Vec::new();
        let mut i: usize = 0;
        while i < len_us
            invariant
                i <= len_us,
                header + len_us <= src@.len(),
                src@.len() <= usize::MAX,
                payload@ == src@.subrange(header as int, header + i),
            decreases len_us - i,
        {
            payload.push(src[header + i]);
            assert(payload@ =~= src@.subrange(header as int, header + i + 1));
            i += 1;
        }
        if is_masked {
            let key: [u8; 4] = [src[header - 4], src[header - 3], src[header - 2], src[header - 1]];
            assert(key@ =~= src@.subrange(header - 4, header as int));
            apply_mask(&mut payload, &key);
        }
        let mut rest: Vec<u8> = Vec::new();
        let consumed: usize = header + len_us;
        let mut j: usize = consumed;
        while j < src.len()
            invariant
                consumed <= j <= src@.len(),
                rest@ == src@.subrange(consumed as int, j as int),
            decreases src@.len() - j,
        {
            rest.push(src[j]);
            assert(rest@ =~= src@.subrange(consumed as int, j + 1));
            j += 1;
        }
        assert(rest@ =~= src@.subrange(consumed as int, src@.len() as int));
        *src = rest;
        Ok(Some((fin, opcode, payload)))
    }

    /// Append the wire format of one frame to `dst`, masking the payload in
    /// place of the output exactly when a key is supplied.
    ///
    /// Control frames must be final with a payload of at most 125 bytes: that
    /// is a caller contract, not a codec-reported error.
    #[verifier::rlimit(60)]
    pub fn write_message(
        dst: &mut Vec<u8>,
        fin: bool,
        op: OpCode,
        key: Option<[u8; 4]>,
        payload: &Vec<u8>,
    )
        requires
            op != OpCode::Bad,
            is_control(op) ==> fin && payload@.len() <= 125,
            payload@.len() < 0x8000000000000000,
        ensures
            final(dst)@ == old(dst)@ + encode_spec(fin, op, key_view(key), payload@),
    {
        let opv = op.to_u8();
        let b0: u8 = if fin {
            0x80 | opv
        } else {
            opv
        };
        proof {
            if !fin {
                assert(0u8 | opv == opv) by (bit_vector);
            }
        }
        dst.push(b0);
        let n: u64 = payload.len() as u64;
        let mbit: u8 = if key.is_some() {
            0x80
        } else {
            0
        };
        if payload.len() <= 125 {
            proof {
                assert(n <= 125 ==> (n as u8) as u64 == n) by (bit_vector);
            }
            dst.push(mbit | (payload.len() as u8));
        } else if payload.len() <= 0xffff {
            dst.push(mbit | 126);
            proof {
                assert(n >> 8 <= 0xff && n & 0xff <= 0xff) by (bit_vector)
                    requires
                        n <= 0xffff,
                ;
            }
            dst.push((n >> 8) as u8);
            dst.push((n & 0xff) as u8);
        } else {
            dst.push(mbit | 127);
            proof {
                assert(n >> 56 <= 0xff && (n >> 48) & 0xff <= 0xff && (n >> 40) & 0xff <= 0xff && (n
                    >> 32) & 0xff <= 0xff && (n >> 24) & 0xff <= 0xff && (n >> 16) & 0xff <= 0xff
                    && (n >> 8) & 0xff <= 0xff && n & 0xff <= 0xff) by (bit_vector);
            }
            dst.push((n >> 56) as u8);
            dst.push(((n >> 48) & 0xff) as u8);
            dst.push(((n >> 40) & 0xff) as u8);
            dst.push(((n >> 32) & 0xff) as u8);
            dst.push(((n >> 24) & 0xff) as u8);
            dst.push(((n >> 16) & 0xff) as u8);
            dst.push(((n >> 8) & 0xff) as u8);
            dst.push((n & 0xff) as u8);
        }
        match key {
            Some(k) => {
                dst.push(k[0]);
                dst.push(k[1]);
                dst.push(k[2]);
                dst.push(k[3]);
                let mut mp: Vec<u8> = Vec::new();
                extend_from(&mut mp, payload);
                apply_mask(&mut mp, &k);
                extend_from(dst, &mp);
                proof {
                    assert(k@ =~= seq![k@[0], k@[1], k@[2], k@[3]]);
                    assert(dst@ =~= old(dst)@ + encode_spec(fin, op, key_view(key), payload@));
                }
            },
            None => {
                extend_from(dst, payload);
                proof {
                    assert(dst@ =~= old(dst)@ + encode_spec(fin, op, key_view(key), payload@));
                }
            },
        }
    }
}

/// A complete frame occupies at least its 2-byte header and never more than
/// the buffer it was parsed from.
pub proof fn lemma_parse_frame_consumed(s: Seq<u8>, server: bool, max_size: usize)
    ensures
        parse_spec(s, server, max_size) matches ParseStep::Frame(pf) ==> 2 <= pf.consumed
            <= s.len(),
{
}

/// Frame round-trip law: for every valid combination of final flag, opcode,
/// payload (in any of the three length classes) and mask key whose presence
/// matches the connection role, parsing the encoded frame yields the frame
/// back, consuming exactly its bytes.
#[verifier::rlimit(100)]
pub proof fn lemma_frame_roundtrip(
    fin: bool,
    op: OpCode,
    key: Option<Seq<u8>>,
    payload: Seq<u8>,
    server: bool,
    max_size: usize,
)
    requires
        op != OpCode::Bad,
        is_control(op) ==> fin && payload.len() <= 125,
        payload.len() < 0x8000000000000000,
        payload.len() <= max_size,
        (key is Some) <==> server,
        key matches Some(k) ==> k.len() == 4,
    ensures
        ({
            let s = encode_spec(fin, op, key, payload);
            parse_spec(s, server, max_size) == ParseStep::Frame(
                ParsedFrame { consumed: s.len() as int, fin, opcode: op, payload },
            )
        }),
{
    let s = encode_spec(fin, op, key, payload);
    let finbit: u8 = if fin {
        0x80
    } else {
        0
    };
    let opv = opcode_value(op);
    let b0 = finbit | opv;
    let n = payload.len() as u64;
    let has_mask = key is Some;
    let mbit: u8 = if has_mask {
        0x80
    } else {
        0
    };
    let lf = len_field(n, has_mask);
    let keypart: Seq<u8> = match key {
        Some(k) => k,
        None => Seq::empty(),
    };
    let body: Seq<u8> = match key {
        Some(k) => masked(payload, k),
        None => payload,
    };
    assert(s =~= seq![b0] + lf + keypart + body);
    assert(opv == 0 || opv == 1 || opv == 2 || opv == 8 || opv == 9 || opv == 10);
    assert(b0 & 0x80 == finbit && b0 & 0x70 == 0 && b0 & 0x0f == opv) by (bit_vector)
        requires
            (finbit == 0 || finbit == 0x80),
            (opv == 0 || opv == 1 || opv == 2 || opv == 8 || opv == 9 || opv == 10),
            b0 == finbit | opv,
    ;
    assert(opcode_of(opv) == op);
    let l7v: u8 = if n <= 125 {
        n as u8
    } else if n < 0x10000 {
        126
    } else {
        127
    };
    let b1 = mbit | l7v;
    assert(lf[0] == b1);
    assert(s[0] == b0 && s[1] == b1);
    assert(b1 & 0x80 == mbit && b1 & 0x7f == l7v) by (bit_vector)
        requires
            (mbit == 0 || mbit == 0x80),
            l7v <= 127,
            b1 == mbit | l7v,
    ;
    assert((b1 & 0x80 == 0x80) == has_mask);
    let len7 = s[1] & 0x7f;
    assert(len7 == l7v);
    // The declared length decodes back to the payload length.
    let ext = ext_len_bytes(len7);
    assert(lf.len() == 1 + ext);
    assert(s.len() == 2 + ext + keypart.len() + payload.len());
    if n <= 125 {
        assert(n <= 125 ==> (n as u8) as u64 == n) by (bit_vector);
        assert(declared_len(s) == n);
    } else if n < 0x10000 {
        assert(s.subrange(2, 4) =~= be2_of(n));
        lemma_be2_roundtrip(n);
        assert(declared_len(s) == n);
    } else {
        assert(s.subrange(2, 10) =~= be8_of(n));
        lemma_be8_roundtrip(n);
        assert(declared_len(s) == n);
    }
    // No validation branch fires.
    if is_control(opcode_of(opv)) {
        assert(l7v <= 125);
    }
    assert(!(len7 == 127 && declared_len(s) >= 0x8000000000000000));
    assert(declared_len(s) <= max_size as u64);
    let header = 2 + ext + if has_mask {
        4int
    } else {
        0int
    };
    assert(s.len() == header + n);
    // The frame's pieces sit where the parser looks for them.
    match key {
        Some(k) => {
            assert(s.subrange(header - 4, header) =~= k);
            assert(s.subrange(header, header + n) =~= masked(payload, k));
            crate::mask::lemma_mask_involution(payload, k);
            assert(masked(masked(payload, k), k) == payload);
        },
        None => {
            assert(s.subrange(header, header + n) =~= payload);
        },
    }
    assert(parse_spec(s, server, max_size) == ParseStep::Frame(
        ParsedFrame { consumed: s.len() as int, fin, opcode: op, payload },
    ));
}

} // verus!
