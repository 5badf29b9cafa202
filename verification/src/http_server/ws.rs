//! The websocket feed of random numbers: how each client frame is answered.

use vstd::prelude::*;

verus! {

/// The kind of a websocket frame.
#[derive(Clone, Copy, Debug, PartialEq, Eq, Structural)]
pub enum WsOpcode {
    Continuation,
    Text,
    Binary,
    Close,
    Ping,
    Pong,
}

/// What the server does with a frame the client sent.
#[derive(Clone, Copy, Debug, PartialEq, Eq, Structural)]
pub enum WsReply {
    /// Answer with a close frame (code 1000) echoing the payload.
    Close,
    /// Answer with a pong frame echoing the payload.
    Pong,
    /// Log the payload.
    Log,
    /// Do nothing.
    Ignore,
}

/// The close code the server answers a close frame with.
pub const NORMAL_CLOSURE: u16 = 1000u16;

/// The reply to each kind of frame.
pub open spec fn reply_spec(op: WsOpcode) -> WsReply {
    match op {
        WsOpcode::Close => WsReply::Close,
        WsOpcode::Ping => WsReply::Pong,
        WsOpcode::Binary | WsOpcode::Text => WsReply::Log,
        _ => WsReply::Ignore,
    }
}

/// Decides how to answer a frame from the client.
pub fn reply_to(op: WsOpcode) -> (r: WsReply)
    ensures
        r == reply_spec(op),
{
    match op {
        WsOpcode::Close => WsReply::Close,
        WsOpcode::Ping => WsReply::Pong,
        WsOpcode::Binary | WsOpcode::Text => WsReply::Log,
        _ => WsReply::Ignore,
    }
}

/// A close frame is answered with a close frame, a ping with a pong, data
/// frames (text or binary) are logged, and anything else is ignored.
pub proof fn law_replies(op: WsOpcode)
    ensures
        op == WsOpcode::Close <==> reply_spec(op) == WsReply::Close,
        op == WsOpcode::Ping <==> reply_spec(op) == WsReply::Pong,
        (op == WsOpcode::Text || op == WsOpcode::Binary) <==> reply_spec(op) == WsReply::Log,
{
}

} // verus!
