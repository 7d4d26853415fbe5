//! The two error taxonomies: handshake failures, which keep the connection an
//! ordinary HTTP exchange, and protocol errors, which are fatal to an open
//! WebSocket session.

use vstd::prelude::*;

use crate::proto::OpCode;

verus! {

/// Errors of an established WebSocket session. Every one of them forces the
/// connection toward `Closed`; none is retried.
#[derive(Clone, Copy, Debug, PartialEq, Eq, Structural)]
pub enum ProtocolError {
    /// Received an unmasked frame from a peer that must mask.
    UnmaskedFrame,
    /// Received a masked frame from a peer that must not mask.
    MaskedFrame,
    /// Encountered an opcode in one of the reserved ranges; carries the
    /// offending 4-bit value.
    InvalidOpcode(u8),
    /// Invalid control frame length or fragmentation; carries the declared
    /// 7-bit length field.
    InvalidLength(usize),
    /// A malformed frame or payload that fits no more specific variant:
    /// non-zero reserved header bits, or a data opcode the assembler cannot
    /// place.
    BadOpCode,
    /// A payload reached the configured size limit.
    Overflow,
    /// A continuation frame arrived with no fragmented message in progress.
    ContinuationNotStarted,
    /// A new initial data frame arrived while a fragmented message was still
    /// being assembled.
    ContinuationStarted,
    /// A continuation frame carried an opcode that cannot continue a message.
    ContinuationFragment(OpCode),
    /// Transport failure, or a completed text message that was not valid
    /// UTF-8. The underlying I/O error value stays at the transport boundary.
    Io,
}

/// Errors of the opening handshake. Each maps to a concrete HTTP error
/// response; the connection is never upgraded.
#[derive(Clone, Copy, Debug, PartialEq, Eq, Structural)]
pub enum HandshakeError {
    /// Only the GET method is allowed.
    GetMethodRequired,
    /// The `Upgrade` header is missing or does not name the WebSocket
    /// protocol.
    NoWebsocketUpgrade,
    /// The `Connection` header does not ask for an upgrade.
    NoConnectionUpgrade,
    /// The WebSocket version header is missing.
    NoVersionHeader,
    /// The WebSocket version is not one of the supported ones.
    UnsupportedVersion,
    /// The WebSocket key header is missing.
    BadWebsocketKey,
}

} // verus!
