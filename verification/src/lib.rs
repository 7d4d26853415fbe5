//! A verified WebSocket protocol engine: handshake validation and response,
//! frame encoding and decoding, payload masking, fragment reassembly, and the
//! connection-lifecycle state machine that ties them together.
//!
//! The engine works on plain values — bytes in, frames and messages out — and
//! every public operation carries a contract; the transport and the
//! surrounding HTTP server sit outside it.

pub mod mask;
pub mod error;
pub mod proto;
pub mod frame;
pub mod codec;
pub mod header;
pub mod request;
pub mod response;
pub mod handshake;
pub mod dispatcher;

pub use codec::{Codec, Item, Message};
pub use dispatcher::{ConnState, Dispatcher};
pub use error::{HandshakeError, ProtocolError};
pub use frame::Parser;
pub use handshake::{handshake, handshake_response, verify_handshake};
pub use proto::{hash_key, CloseCode, CloseReason, OpCode};
pub use request::Request;
pub use response::{Response, ResponseBuilder};
