//! What one transport frame means to the connection. The transport is a
//! bidirectional text-frame socket the runtime owns; the library decides
//! here, per frame kind, whether the frame carries a protocol message,
//! must be answered in kind, is noise to ignore, or ends the connection.

use vstd::prelude::*;

use crate::decode::{decode_message, msg_ok, msg_rel};
use crate::json::parse_of;
use crate::messages::Message;

verus! {

/// One frame as read from the transport, as plain data.
#[derive(Debug, Clone, PartialEq, Eq)]
pub enum WireFrame {
    /// A text frame: the protocol's own messages travel in these.
    Text(String),
    /// A transport-level ping carrying this payload.
    PingFrame(Vec<u8>),
    /// A transport-level pong.
    PongFrame(Vec<u8>),
    /// A binary frame; the protocol never uses these.
    Binary(Vec<u8>),
    /// A close frame, with the peer's code and reason where it gave one.
    CloseFrame(Option<(u16, String)>),
}

/// What the connection must do with one frame.
#[derive(Debug, Clone, PartialEq, Eq)]
pub enum FrameStep {
    /// A well-formed protocol message: hand it to the actor.
    Deliver(Message),
    /// Unparseable text: log it and read on; never fatal.
    SkipMalformed { text: String },
    /// A transport-level ping: answer it with a pong of the same
    /// payload, then read on.
    ReplyPong(Vec<u8>),
    /// A frame kind the protocol never uses: log it and read on,
    /// without terminating the connection.
    SkipUnexpected,
    /// The peer closed the connection: fatal.
    FatalClosed(Option<(u16, String)>),
}

/// Classifies one transport frame. Text that decodes as a protocol
/// frame is delivered as exactly that message; malformed text is merely
/// skipped. An inbound transport ping is answered immediately with its
/// own payload. A close frame is fatal; any other unexpected frame kind
/// is logged and ignored without terminating the connection.
pub fn classify_frame(f: WireFrame) -> (r: FrameStep)
    ensures
        match f {
            WireFrame::Text(t) => {
                match parse_of(t@) {
                    Some(d) => {
                        if msg_ok(d) {
                            r matches FrameStep::Deliver(m) && msg_rel(m, d)
                        } else {
                            r == FrameStep::SkipMalformed { text: t }
                        }
                    },
                    None => r == FrameStep::SkipMalformed { text: t },
                }
            },
            WireFrame::PingFrame(d) => r == FrameStep::ReplyPong(d),
            WireFrame::PongFrame(d) => r == FrameStep::SkipUnexpected,
            WireFrame::Binary(d) => r == FrameStep::SkipUnexpected,
            WireFrame::CloseFrame(c) => r == FrameStep::FatalClosed(c),
        },
{
    match f {
        WireFrame::Text(t) => {
            match decode_message(t.as_str()) {
                Some(m) => FrameStep::Deliver(m),
                None => FrameStep::SkipMalformed { text: t },
            }
        },
        WireFrame::PingFrame(d) => FrameStep::ReplyPong(d),
        WireFrame::PongFrame(_) => FrameStep::SkipUnexpected,
        WireFrame::Binary(_) => FrameStep::SkipUnexpected,
        WireFrame::CloseFrame(c) => FrameStep::FatalClosed(c),
    }
}

} // verus!
