//! The browser ↔ drone logs WebSocket relay: what happens to each frame.

use vstd::prelude::*;
use crate::text::push_str;

verus! {

/// A frame read from one side of the relay.
#[derive(Debug, Clone, Copy, PartialEq, Eq, Structural)]
pub enum WsFrame {
    Text,
    Binary,
    Ping,
    Pong,
    Close,
    /// A raw frame of the WebSocket library, never relayed.
    Raw,
    /// The read failed.
    Failed,
}

/// What the relay does with a frame.
#[derive(Debug, Clone, Copy, PartialEq, Eq, Structural)]
pub enum RelayStep {
    /// Send it on to the other side (stopping if that send fails).
    Forward,
    /// Drop it and read on.
    Skip,
    /// End this direction, and with it the relay.
    Stop,
}

/// Data and control frames pass in both directions; a close or a failed read ends
/// the relay; raw frames are dropped.
pub open spec fn relay_step_of(f: WsFrame) -> RelayStep {
    match f {
        WsFrame::Text | WsFrame::Binary | WsFrame::Ping | WsFrame::Pong => RelayStep::Forward,
        WsFrame::Close | WsFrame::Failed => RelayStep::Stop,
        WsFrame::Raw => RelayStep::Skip,
    }
}

/// See [`relay_step_of`].
pub fn relay_step(f: WsFrame) -> (r: RelayStep)
    ensures
        r == relay_step_of(f),
{
    match f {
        WsFrame::Text | WsFrame::Binary | WsFrame::Ping | WsFrame::Pong => RelayStep::Forward,
        WsFrame::Close | WsFrame::Failed => RelayStep::Stop,
        WsFrame::Raw => RelayStep::Skip,
    }
}

/// The text frame sent to the browser when the drone side cannot be reached.
pub open spec fn connect_error_text(error: Seq<char>) -> Seq<char> {
    "{\"type\":\"error\",\"detail\":\"drone_logs_ws_connect_failed: "@ + error + "\"}"@
}

/// See [`connect_error_text`]; `error` is the connection error's message, put in as it is.
pub fn logs_ws_connect_error(error: &str) -> (r: String)
    ensures
        r@ == connect_error_text(error@),
{
    let mut s = String::from_str("{\"type\":\"error\",\"detail\":\"drone_logs_ws_connect_failed: ");
    push_str(&mut s, error);
    push_str(&mut s, "\"}");
    s
}

} // verus!
