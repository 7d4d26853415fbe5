//! Protocol-level vocabulary: opcodes, close codes, close reasons, and the
//! accept-key computation used by the handshake response.

use vstd::prelude::*;

verus! {

/// The 4-bit tag identifying a frame's purpose. `Bad` stands for the reserved
/// ranges `0x3..=0x7` and `0xB..=0xF`, which are invalid on the wire.
#[derive(Clone, Copy, Debug, PartialEq, Eq, Structural)]
pub enum OpCode {
    Continue,
    Text,
    Binary,
    Close,
    Ping,
    Pong,
    Bad,
}

/// Wire value of an opcode. `Bad` has no wire value of its own (every reserved
/// nibble maps to it), so encoding requires an opcode other than `Bad`.
pub open spec fn opcode_value(op: OpCode) -> u8
    recommends
        op != OpCode::Bad,
{
    match op {
        OpCode::Continue => 0,
        OpCode::Text => 1,
        OpCode::Binary => 2,
        OpCode::Close => 8,
        OpCode::Ping => 9,
        OpCode::Pong => 10,
        OpCode::Bad => 3,
    }
}

/// The opcode denoted by a 4-bit wire value; reserved values map to `Bad`.
pub open spec fn opcode_of(b: u8) -> OpCode {
    if b == 0 {
        OpCode::Continue
    } else if b == 1 {
        OpCode::Text
    } else if b == 2 {
        OpCode::Binary
    } else if b == 8 {
        OpCode::Close
    } else if b == 9 {
        OpCode::Ping
    } else if b == 10 {
        OpCode::Pong
    } else {
        OpCode::Bad
    }
}

/// Close, Ping and Pong are control opcodes: never fragmented, payload at most
/// 125 bytes.
pub open spec fn is_control(op: OpCode) -> bool {
    op == OpCode::Close || op == OpCode::Ping || op == OpCode::Pong
}

impl OpCode {
    /// Decode a 4-bit wire value; reserved values yield `Bad`.
    pub fn from_u8(b: u8) -> (r: OpCode)
        ensures
            r == opcode_of(b),
    {
        if b == 0 {
            OpCode::Continue
        } else if b == 1 {
            OpCode::Text
        } else if b == 2 {
            OpCode::Binary
        } else if b == 8 {
            OpCode::Close
        } else if b == 9 {
            OpCode::Ping
        } else if b == 10 {
            OpCode::Pong
        } else {
            OpCode::Bad
        }
    }

    /// Wire value of a valid opcode.
    pub fn to_u8(self) -> (r: u8)
        requires
            self != OpCode::Bad,
        ensures
            r == opcode_value(self),
    {
        match self {
            OpCode::Continue => 0,
            OpCode::Text => 1,
            OpCode::Binary => 2,
            OpCode::Close => 8,
            OpCode::Ping => 9,
            OpCode::Pong => 10,
            OpCode::Bad => 3,
        }
    }

    /// Whether this is a control opcode.
    pub fn is_control(self) -> (r: bool)
        ensures
            r == is_control(self),
    {
        match self {
            OpCode::Close | OpCode::Ping | OpCode::Pong => true,
            _ => false,
        }
    }
}

/// Status codes carried by a Close frame. `Other` is the escape for numeric
/// codes that are well-formed but not among the named ones.
#[derive(Clone, Copy, Debug, PartialEq, Eq, Structural)]
pub enum CloseCode {
    /// Normal closure (1000).
    Normal,
    /// The endpoint is going away (1001).
    Away,
    /// Protocol error (1002).
    Protocol,
    /// Unsupported data (1003).
    Unsupported,
    /// No status code was present (1005).
    Status,
    /// Abnormal closure (1006).
    Abnormal,
    /// Invalid payload data (1007).
    Invalid,
    /// Policy violation (1008).
    Policy,
    /// Message too big (1009).
    Size,
    /// Mandatory extension missing (1010).
    Extension,
    /// Internal server error (1011).
    Error,
    /// Service restart (1012).
    Restart,
    /// Try again later (1013).
    Again,
    /// Bad gateway (1014).
    BadGateway,
    /// TLS handshake failure (1015).
    Tls,
    /// Any other numeric code.
    Other(u16),
}

/// The 2-byte status value a close code maps to.
pub open spec fn close_code_value(c: CloseCode) -> u16 {
    match c {
        CloseCode::Normal => 1000,
        CloseCode::Away => 1001,
        CloseCode::Protocol => 1002,
        CloseCode::Unsupported => 1003,
        CloseCode::Status => 1005,
        CloseCode::Abnormal => 1006,
        CloseCode::Invalid => 1007,
        CloseCode::Policy => 1008,
        CloseCode::Size => 1009,
        CloseCode::Extension => 1010,
        CloseCode::Error => 1011,
        CloseCode::Restart => 1012,
        CloseCode::Again => 1013,
        CloseCode::BadGateway => 1014,
        CloseCode::Tls => 1015,
        CloseCode::Other(n) => n,
    }
}

/// The close code denoted by a 2-byte status value; unrecognized values map to
/// `Other`.
pub open spec fn close_code_of(n: u16) -> CloseCode {
    if n == 1000 {
        CloseCode::Normal
    } else if n == 1001 {
        CloseCode::Away
    } else if n == 1002 {
        CloseCode::Protocol
    } else if n == 1003 {
        CloseCode::Unsupported
    } else if n == 1005 {
        CloseCode::Status
    } else if n == 1006 {
        CloseCode::Abnormal
    } else if n == 1007 {
        CloseCode::Invalid
    } else if n == 1008 {
        CloseCode::Policy
    } else if n == 1009 {
        CloseCode::Size
    } else if n == 1010 {
        CloseCode::Extension
    } else if n == 1011 {
        CloseCode::Error
    } else if n == 1012 {
        CloseCode::Restart
    } else if n == 1013 {
        CloseCode::Again
    } else if n == 1014 {
        CloseCode::BadGateway
    } else if n == 1015 {
        CloseCode::Tls
    } else {
        CloseCode::Other(n)
    }
}

impl CloseCode {
    /// Decode a 2-byte status value.
    pub fn from_u16(n: u16) -> (r: CloseCode)
        ensures
            r == close_code_of(n),
    {
        if n == 1000 {
            CloseCode::Normal
        } else if n == 1001 {
            CloseCode::Away
        } else if n == 1002 {
            CloseCode::Protocol
        } else if n == 1003 {
            CloseCode::Unsupported
        } else if n == 1005 {
            CloseCode::Status
        } else if n == 1006 {
            CloseCode::Abnormal
        } else if n == 1007 {
            CloseCode::Invalid
        } else if n == 1008 {
            CloseCode::Policy
        } else if n == 1009 {
            CloseCode::Size
        } else if n == 1010 {
            CloseCode::Extension
        } else if n == 1011 {
            CloseCode::Error
        } else if n == 1012 {
            CloseCode::Restart
        } else if n == 1013 {
            CloseCode::Again
        } else if n == 1014 {
            CloseCode::BadGateway
        } else if n == 1015 {
            CloseCode::Tls
        } else {
            CloseCode::Other(n)
        }
    }

    /// The 2-byte status value of this close code.
    pub fn to_u16(self) -> (r: u16)
        ensures
            r == close_code_value(self),
    {
        match self {
            CloseCode::Normal => 1000,
            CloseCode::Away => 1001,
            CloseCode::Protocol => 1002,
            CloseCode::Unsupported => 1003,
            CloseCode::Status => 1005,
            CloseCode::Abnormal => 1006,
            CloseCode::Invalid => 1007,
            CloseCode::Policy => 1008,
            CloseCode::Size => 1009,
            CloseCode::Extension => 1010,
            CloseCode::Error => 1011,
            CloseCode::Restart => 1012,
            CloseCode::Again => 1013,
            CloseCode::BadGateway => 1014,
            CloseCode::Tls => 1015,
            CloseCode::Other(n) => n,
        }
    }
}

/// The reason a connection is closed: a status code and an optional
/// human-readable description.
#[derive(Clone, Debug, PartialEq, Eq)]
pub struct CloseReason {
    pub code: CloseCode,
    pub description: Option<String>,
}

/// The fixed GUID that the protocol appends to the client's key before
/// hashing, as a byte sequence.
pub open spec fn ws_guid() -> Seq<u8> {
    seq![
        0x32u8, 0x35, 0x38, 0x45, 0x41, 0x46, 0x41, 0x35, 0x2d, 0x45, 0x39, 0x31, 0x34, 0x2d,
        0x34, 0x37, 0x44, 0x41, 0x2d, 0x39, 0x35, 0x43, 0x41, 0x2d, 0x43, 0x35, 0x41, 0x42,
        0x30, 0x44, 0x43, 0x38, 0x35, 0x42, 0x31, 0x31,
    ]
}

fn ws_guid_bytes() -> (r: Vec<u8>)
    ensures
        r@ == ws_guid(),
{
    let r: Vec<u8> = vec![
        0x32u8, 0x35, 0x38, 0x45, 0x41, 0x46, 0x41, 0x35, 0x2d, 0x45, 0x39, 0x31, 0x34, 0x2d,
        0x34, 0x37, 0x44, 0x41, 0x2d, 0x39, 0x35, 0x43, 0x41, 0x2d, 0x43, 0x35, 0x41, 0x42,
        0x30, 0x44, 0x43, 0x38, 0x35, 0x42, 0x31, 0x31,
    ];
    proof {
        assert(r@ =~= ws_guid());
    }
    r
}

/// The 20-byte SHA-1 digest of a byte sequence; a function of the input alone,
/// whose value only the hash implementation defines.
pub uninterp spec fn sha1_of(s: Seq<u8>) -> Seq<u8>;

/// The standard padded base64 encoding of a byte sequence, as ASCII bytes; a
/// function of the input alone.
pub uninterp spec fn base64_of(s: Seq<u8>) -> Seq<u8>;

/// Relies on `sha1::Sha1` (the RustCrypto `Digest::digest` one-shot API): the
/// result is the 20-byte SHA-1 digest of the input, a function of the input
/// bytes alone.
#[verifier::external_body]
fn sha1_digest(input: &Vec<u8>) -> (r: Vec<u8>)
    ensures
        r@ == sha1_of(input@),
        r@.len() == 20,
{
    let digest = <sha1::Sha1 as sha1::Digest>::digest(input.as_slice());
    digest.to_vec()
}

/// Relies on `base64::engine::general_purpose::STANDARD` (`Engine::encode`):
/// the result is the padded standard-alphabet base64 text of the input, a
/// function of the input bytes alone, four output bytes per started group of
/// three input bytes.
#[verifier::external_body]
fn base64_encode(input: &Vec<u8>) -> (r: Vec<u8>)
    ensures
        r@ == base64_of(input@),
        r@.len() == 4 * ((input@.len() + 2) / 3),
{
    base64::Engine::encode(&base64::engine::general_purpose::STANDARD, input.as_slice())
        .into_bytes()
}

/// The handshake accept value for a client key: base64 of the SHA-1 digest of
/// the key followed by the protocol GUID.
pub open spec fn accept_key_of(key: Seq<u8>) -> Seq<u8> {
    base64_of(sha1_of(key + ws_guid()))
}

/// Compute the `Sec-WebSocket-Accept` value for a client's
/// `Sec-WebSocket-Key`: concatenate the key with the fixed GUID, take the
/// SHA-1 digest, and base64-encode it (28 ASCII bytes).
pub fn hash_key(key: &Vec<u8>) -> (r: Vec<u8>)
    ensures
        r@ == accept_key_of(key@),
        r@.len() == 28,
{
    let mut input: Vec<u8> = Vec::new();
    let mut i: usize = 0;
    while i < key.len()
        invariant
            i <= key.len(),
            input@ == key@.subrange(0, i as int),
        decreases key.len() - i,
    {
        input.push(key[i]);
        i += 1;
    }
    assert(input@ =~= key@);
    let guid = ws_guid_bytes();
    let mut j: usize = 0;
    while j < guid.len()
        invariant
            j <= guid.len(),
            guid@ == ws_guid(),
            input@ == key@ + guid@.subrange(0, j as int),
        decreases guid.len() - j,
    {
        input.push(guid[j]);
        j += 1;
    }
    assert(input@ =~= key@ + ws_guid());
    let digest = sha1_digest(&input);
    base64_encode(&digest)
}

} // verus!
