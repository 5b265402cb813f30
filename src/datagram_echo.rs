use vstd::prelude::*;

verus! {

/// Where a connection's datagram echo worker stands.
#[derive(Clone, Copy, Debug, PartialEq, Eq, Structural)]
pub enum DatagramEchoState {
    /// Waiting for the next inbound datagram.
    Waiting,
    /// Sending back the datagram just received.
    Echoing,
    /// The connection closed or failed; the worker has ended.
    Closed,
}

/// What the transport reported for the operation the worker last asked for.
#[derive(Debug, PartialEq, Eq)]
pub enum DatagramEchoEvent {
    /// A datagram arrived with this payload.
    Received(Vec<u8>),
    /// Receiving failed: the connection is closed or broken.
    ReceiveFailed,
    /// The echo was handed to the transport.
    Sent,
    /// The echo could not be sent.
    SendFailed,
}

/// What the worker asks of the transport next.
#[derive(Debug, PartialEq, Eq)]
pub enum DatagramEchoAction {
    /// Wait for the next datagram.
    Receive,
    /// Report that the last echo could not be sent, then wait for the next
    /// datagram.
    ReportAndReceive,
    /// Send a datagram with these bytes.
    Send(Vec<u8>),
    /// End the worker.
    Stop,
}

/// One transition of the datagram worker. A datagram received is sent back
/// unchanged; a failed send is reported and the worker goes on; a failed
/// receive, or an event that does not answer the pending operation, ends it.
pub open spec fn datagram_echo_next(state: DatagramEchoState, event: DatagramEchoEvent) -> (
    DatagramEchoState,
    DatagramEchoAction,
) {
    match (state, event) {
        (DatagramEchoState::Waiting, DatagramEchoEvent::Received(data)) => (
            DatagramEchoState::Echoing,
            DatagramEchoAction::Send(data),
        ),
        (DatagramEchoState::Echoing, DatagramEchoEvent::Sent) => (
            DatagramEchoState::Waiting,
            DatagramEchoAction::Receive,
        ),
        (DatagramEchoState::Echoing, DatagramEchoEvent::SendFailed) => (
            DatagramEchoState::Waiting,
            DatagramEchoAction::ReportAndReceive,
        ),
        _ => (DatagramEchoState::Closed, DatagramEchoAction::Stop),
    }
}

/// The first request of a fresh datagram worker.
pub fn datagram_echo_start() -> (r: (DatagramEchoState, DatagramEchoAction))
    ensures
        r == (DatagramEchoState::Waiting, DatagramEchoAction::Receive),
{
    (DatagramEchoState::Waiting, DatagramEchoAction::Receive)
}

/// Advances the datagram worker by the outcome of its pending operation.
pub fn datagram_echo_step(state: DatagramEchoState, event: DatagramEchoEvent) -> (r: (
    DatagramEchoState,
    DatagramEchoAction,
))
    ensures
        r == datagram_echo_next(state, event),
{
    match state {
        DatagramEchoState::Waiting => match event {
            DatagramEchoEvent::Received(data) => (
                DatagramEchoState::Echoing,
                DatagramEchoAction::Send(data),
            ),
            _ => (DatagramEchoState::Closed, DatagramEchoAction::Stop),
        },
        DatagramEchoState::Echoing => match event {
            DatagramEchoEvent::Sent => (DatagramEchoState::Waiting, DatagramEchoAction::Receive),
            DatagramEchoEvent::SendFailed => (
                DatagramEchoState::Waiting,
                DatagramEchoAction::ReportAndReceive,
            ),
            _ => (DatagramEchoState::Closed, DatagramEchoAction::Stop),
        },
        DatagramEchoState::Closed => (DatagramEchoState::Closed, DatagramEchoAction::Stop),
    }
}

/// Closing ends the worker: once receiving fails, as it does after the
/// connection closes, the worker stops from any state.
pub proof fn lemma_datagram_echo_stops_on_close(state: DatagramEchoState)
    ensures
        datagram_echo_next(state, DatagramEchoEvent::ReceiveFailed) == (
            DatagramEchoState::Closed,
            DatagramEchoAction::Stop,
        ),
{
}

} // verus!
