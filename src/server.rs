use vstd::prelude::*;
use crate::datagram_echo::{DatagramEchoAction, DatagramEchoEvent, DatagramEchoState, datagram_echo_next};
use crate::stream_echo::{StreamEchoAction, StreamEchoEvent, StreamEchoState, stream_echo_next};

verus! {

/// What waiting for the peer's next stream gave.
#[derive(Clone, Copy, Debug, PartialEq, Eq, Structural)]
pub enum StreamAcceptOutcome {
    /// A bidirectional stream was opened.
    Opened,
    /// The peer closed the connection at the application level.
    ApplicationClosed,
    /// The connection failed otherwise.
    Failed,
}

/// What the connection's stream-accept loop does next.
#[derive(Clone, Copy, Debug, PartialEq, Eq, Structural)]
pub enum StreamAcceptAction {
    /// Start an echo task for the new stream and wait for the next one.
    SpawnEcho,
    /// End the loop normally.
    End,
    /// End the loop and report an unexpected connection failure.
    EndWithError,
}

pub open spec fn stream_accept_next(outcome: StreamAcceptOutcome) -> StreamAcceptAction {
    match outcome {
        StreamAcceptOutcome::Opened => StreamAcceptAction::SpawnEcho,
        StreamAcceptOutcome::ApplicationClosed => StreamAcceptAction::End,
        StreamAcceptOutcome::Failed => StreamAcceptAction::EndWithError,
    }
}

/// Decides on the outcome of waiting for the next stream: a new stream gets
/// its own echo task; an application-level close ends the loop as expected;
/// any other failure ends it as an error.
pub fn stream_accept_step(outcome: StreamAcceptOutcome) -> (r: StreamAcceptAction)
    ensures
        r == stream_accept_next(outcome),
{
    match outcome {
        StreamAcceptOutcome::Opened => StreamAcceptAction::SpawnEcho,
        StreamAcceptOutcome::ApplicationClosed => StreamAcceptAction::End,
        StreamAcceptOutcome::Failed => StreamAcceptAction::EndWithError,
    }
}

/// Closing a connection ends all of its work: the stream-accept loop ends
/// without error on an application-level close, the datagram worker stops
/// when its receive fails, and every stream task, whatever its state, stops
/// when its read or write fails.
pub proof fn lemma_close_ends_all_workers(
    datagram_state: DatagramEchoState,
    stream_state: StreamEchoState,
    stream_event: StreamEchoEvent,
)
    requires
        stream_event == StreamEchoEvent::ReadFailed || stream_event
            == StreamEchoEvent::WriteFailed,
    ensures
        stream_accept_next(StreamAcceptOutcome::ApplicationClosed) == StreamAcceptAction::End,
        datagram_echo_next(datagram_state, DatagramEchoEvent::ReceiveFailed) == (
            DatagramEchoState::Closed,
            DatagramEchoAction::Stop,
        ),
        stream_echo_next(stream_state, stream_event).0.is_terminal(),
        stream_echo_next(stream_state, stream_event).1 == StreamEchoAction::Stop,
{
}

} // verus!
