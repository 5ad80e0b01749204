use vstd::prelude::*;

verus! {

/// A WebSocket frame as a connection's message loop reads it.
#[derive(Debug, Clone, PartialEq, Eq)]
pub enum IncomingMessage {
    /// A text frame.
    Text(String),
    /// The peer closed the connection.
    Close,
    /// Any other frame (binary, ping, pong).
    Other,
}

/// What a connection's message loop does after a frame.
#[derive(Debug, Clone, Copy, PartialEq, Eq, Structural)]
pub enum ConnectionStep {
    /// Keep reading frames.
    Continue,
    /// Leave the loop and drop the connection.
    Stop,
}

/// A connection stays open until the peer closes it.
pub open spec fn step_after(msg: IncomingMessage) -> ConnectionStep {
    match msg {
        IncomingMessage::Close => ConnectionStep::Stop,
        _ => ConnectionStep::Continue,
    }
}

/// Decides whether a connection's message loop goes on after `msg`.
pub fn next_step(msg: &IncomingMessage) -> (r: ConnectionStep)
    ensures
        r == step_after(*msg),
        r == ConnectionStep::Stop <==> *msg is Close,
{
    match msg {
        IncomingMessage::Close => ConnectionStep::Stop,
        _ => ConnectionStep::Continue,
    }
}


/// A connection's loop stops after a frame exactly when the peer closed the
/// connection: every text frame, whatever it says, and every other frame keep
/// it reading.
pub proof fn lemma_only_close_stops(msg: IncomingMessage)
    ensures
        step_after(msg) == ConnectionStep::Stop <==> msg is Close,
        msg is Text ==> step_after(msg) == ConnectionStep::Continue,
        msg is Other ==> step_after(msg) == ConnectionStep::Continue,
{
}

} // verus!
