//! The dispatcher's decision core: the connection-lifecycle state machine
//! that routes inbound messages to the application, echoes pings, and drives
//! the close handshake. The surrounding runtime performs the byte I/O and
//! hands events in; every decision here is a pure transition.

use vstd::prelude::*;

use crate::codec::Message;
use crate::error::ProtocolError;
use crate::proto::{CloseCode, CloseReason};

verus! {

/// The connection lifecycle. A close received from the peer parks the
/// connection in `ClosingRemote` with the code to echo; a close submitted by
/// the application parks it in `ClosingLocal` until the peer acknowledges.
/// `Closed` is terminal.
#[derive(Debug)]
pub enum ConnState {
    Open,
    ClosingLocal,
    ClosingRemote(Option<CloseCode>),
    Closed,
}

/// What one inbound message does: the state afterwards, the message handed to
/// the application, and the message to encode and send back.
pub open spec fn route_inbound(st: ConnState, auto_pong: bool, msg: Message) -> (
    ConnState,
    Option<Message>,
    Option<Message>,
) {
    match st {
        ConnState::ClosingRemote(c) => (ConnState::ClosingRemote(c), None, None),
        ConnState::Closed => (ConnState::Closed, None, None),
        _ => match msg {
            Message::Ping(p) => if auto_pong {
                (st, None, Some(Message::Pong(p)))
            } else {
                (st, Some(Message::Ping(p)), None)
            },
            Message::Close(r) => {
                let code = match r {
                    Some(cr) => Some(cr.code),
                    None => None,
                };
                match st {
                    ConnState::Open => (ConnState::ClosingRemote(code), Some(Message::Close(r)), None),
                    _ => (ConnState::Closed, Some(Message::Close(r)), None),
                }
            },
            Message::Nop => (st, None, None),
            m => (st, Some(m), None),
        },
    }
}

/// What one outbound application message does: in `Open` it is passed on to
/// the wire, a close moving the connection to `ClosingLocal`; in every other
/// state output is refused with the connection-unusable error.
pub open spec fn route_outbound(st: ConnState, msg: Message) -> (
    ConnState,
    Result<Message, ProtocolError>,
) {
    match st {
        ConnState::Open => match msg {
            Message::Close(r) => (ConnState::ClosingLocal, Ok(Message::Close(r))),
            m => (ConnState::Open, Ok(m)),
        },
        _ => (st, Err(ProtocolError::Io)),
    }
}

/// The close code sent for a protocol error: message-too-big for an overflow,
/// nothing for a transport failure (the transport is unusable), protocol-error
/// for everything else.
pub open spec fn error_close_code(e: ProtocolError) -> Option<CloseCode> {
    match e {
        ProtocolError::Overflow => Some(CloseCode::Size),
        ProtocolError::Io => None,
        _ => Some(CloseCode::Protocol),
    }
}

/// The full-duplex pump's decision state: the lifecycle position and whether
/// pings are echoed automatically.
#[derive(Debug)]
pub struct Dispatcher {
    state: ConnState,
    auto_pong: bool,
}

impl Dispatcher {
    /// The lifecycle state.
    pub closed spec fn spec_state(self) -> ConnState {
        self.state
    }

    /// Whether pings are echoed without application involvement.
    pub closed spec fn spec_auto_pong(self) -> bool {
        self.auto_pong
    }

    /// A dispatcher for a freshly upgraded connection, echoing pings
    /// automatically.
    pub fn new() -> (r: Dispatcher)
        ensures
            r.spec_state() matches ConnState::Open,
            r.spec_auto_pong(),
    {
        Dispatcher { state: ConnState::Open, auto_pong: true }
    }

    /// The same dispatcher with automatic ping echoing switched on or off.
    pub fn set_auto_pong(&mut self, auto_pong: bool)
        ensures
            final(self).spec_auto_pong() == auto_pong,
            final(self).spec_state() == old(self).spec_state(),
    {
        self.auto_pong = auto_pong;
    }

    /// Whether the connection is closed.
    pub fn is_closed(&self) -> (r: bool)
        ensures
            r == (self.spec_state() matches ConnState::Closed),
    {
        match self.state {
            ConnState::Closed => true,
            _ => false,
        }
    }

    /// Route one inbound message: forward it to the application, echo a ping,
    /// or start the remote close handshake; exactly `route_inbound`.
    pub fn on_inbound(&mut self, msg: Message) -> (r: (Option<Message>, Option<Message>))
        ensures
            ({
                let step = route_inbound(old(self).spec_state(), old(self).spec_auto_pong(), msg);
                &&& final(self).spec_state() == step.0
                &&& r.0 == step.1
                &&& r.1 == step.2
                &&& final(self).spec_auto_pong() == old(self).spec_auto_pong()
            }),
    {
        match &self.state {
            ConnState::ClosingRemote(_) => (None, None),
            ConnState::Closed => (None, None),
            _ => match msg {
                Message::Ping(p) => if self.auto_pong {
                    (None, Some(Message::Pong(p)))
                } else {
                    (Some(Message::Ping(p)), None)
                },
                Message::Close(r) => {
                    let code = match &r {
                        Some(cr) => Some(cr.code),
                        None => None,
                    };
                    match self.state {
                        ConnState::Open => {
                            self.state = ConnState::ClosingRemote(code);
                        },
                        _ => {
                            self.state = ConnState::Closed;
                        },
                    }
                    (Some(Message::Close(r)), None)
                },
                Message::Nop => (None, None),
                m => (Some(m), None),
            },
        }
    }

    /// Submit one outbound application message: exactly `route_outbound`.
    pub fn on_outbound(&mut self, msg: Message) -> (r: Result<Message, ProtocolError>)
        ensures
            ({
                let step = route_outbound(old(self).spec_state(), msg);
                &&& final(self).spec_state() == step.0
                &&& r == step.1
                &&& final(self).spec_auto_pong() == old(self).spec_auto_pong()
            }),
    {
        match &self.state {
            ConnState::Open => match msg {
                Message::Close(r) => {
                    self.state = ConnState::ClosingLocal;
                    Ok(Message::Close(r))
                },
                m => Ok(m),
            },
            _ => Err(ProtocolError::Io),
        }
    }

    /// Finish the remote close handshake: in `ClosingRemote` this emits the
    /// close frame to send — echoing the received code, or normal closure if
    /// none was given — and the connection reaches `Closed`; in every other
    /// state nothing happens.
    pub fn complete_close(&mut self) -> (r: Option<Message>)
        ensures
            match old(self).spec_state() {
                ConnState::ClosingRemote(c) => {
                    &&& final(self).spec_state() matches ConnState::Closed
                    &&& r == Some(
                        Message::Close(
                            Some(
                                CloseReason {
                                    code: match c {
                                        Some(code) => code,
                                        None => CloseCode::Normal,
                                    },
                                    description: None,
                                },
                            ),
                        ),
                    )
                },
                _ => final(self).spec_state() == old(self).spec_state() && r is None,
            },
            final(self).spec_auto_pong() == old(self).spec_auto_pong(),
    {
        match self.state {
            ConnState::ClosingRemote(c) => {
                self.state = ConnState::Closed;
                let code = match c {
                    Some(code) => code,
                    None => CloseCode::Normal,
                };
                Some(Message::Close(Some(CloseReason { code, description: None })))
            },
            _ => None,
        }
    }

    /// React to a protocol error: the connection reaches `Closed` at once and
    /// the best-effort close frame to send carries the matching close code —
    /// message-too-big for an overflow, protocol-error otherwise; a transport
    /// failure sends nothing.
    pub fn on_protocol_error(&mut self, e: &ProtocolError) -> (r: Option<Message>)
        ensures
            final(self).spec_state() matches ConnState::Closed,
            final(self).spec_auto_pong() == old(self).spec_auto_pong(),
            match error_close_code(*e) {
                Some(code) => r == Some(
                    Message::Close(Some(CloseReason { code, description: None })),
                ),
                None => r is None,
            },
    {
        self.state = ConnState::Closed;
        match e {
            ProtocolError::Overflow => Some(
                Message::Close(Some(CloseReason { code: CloseCode::Size, description: None })),
            ),
            ProtocolError::Io => None,
            _ => Some(
                Message::Close(Some(CloseReason { code: CloseCode::Protocol, description: None })),
            ),
        }
    }
}

} // verus!
