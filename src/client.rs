use vstd::prelude::*;
use crate::datagram_echo::{DatagramEchoAction, DatagramEchoEvent, DatagramEchoState, datagram_echo_next};
use crate::protocol::{EXCHANGE_TIMEOUT_SECS, STREAM_READ_BUDGET};
use crate::stream_echo::{
    StreamEchoEvent, StreamEchoState, is_clean_echo_trace, lemma_stream_echo_returns_input,
    read_bytes, stream_echo_run, written_bytes,
};

verus! {

/// Which channel the client's single exchange uses.
#[derive(Clone, Copy, Debug, PartialEq, Eq, Structural)]
pub enum ExchangeMode {
    Datagram,
    Stream,
}

/// Why an exchange failed.
#[derive(Clone, Copy, Debug, PartialEq, Eq, Structural)]
pub enum ExchangeError {
    /// No response came within the timeout.
    Timeout,
    /// The connection, or an operation on it, failed.
    Connection,
    /// The stream response exceeded the read budget.
    ResponseTooLong,
}

/// Where the client's exchange stands.
#[derive(Debug, PartialEq, Eq)]
pub enum ExchangeState {
    /// Handing the request datagram to the transport.
    SendingDatagram,
    /// Waiting, under the timeout, for the response datagram.
    AwaitingDatagram,
    /// Opening a stream; the request bytes wait to be written.
    OpeningStream(Vec<u8>),
    /// Writing the request on the stream.
    Writing,
    /// Signalling end of input on the send half.
    Finishing,
    /// Reading, under the timeout, the response until the peer ends it.
    AwaitingStream,
    /// The outcome has been reported.
    Done,
}

/// What the transport reported for the operation last asked for.
#[derive(Debug, PartialEq, Eq)]
pub enum ExchangeEvent {
    /// The operation succeeded and returned no data.
    Completed,
    /// The response arrived with these bytes.
    Response(Vec<u8>),
    /// The timeout expired before a response arrived.
    TimedOut,
    /// The stream response went past the read budget.
    ResponseTooLong,
    /// The operation failed.
    Failed,
}

/// What the client asks of the transport next.
#[derive(Debug, PartialEq, Eq)]
pub enum ExchangeAction {
    SendDatagram(Vec<u8>),
    ReceiveDatagram { timeout_secs: u64 },
    OpenStream,
    Write(Vec<u8>),
    FinishWrite,
    ReadToEnd { budget: usize, timeout_secs: u64 },
    /// Report the one outcome of the run.
    Report(Result<Vec<u8>, ExchangeError>),
    /// Nothing more: the outcome was already reported.
    Stop,
}

/// The first step of an exchange of `payload` in `mode`.
pub open spec fn exchange_begin(mode: ExchangeMode, payload: Vec<u8>) -> (
    ExchangeState,
    ExchangeAction,
) {
    match mode {
        ExchangeMode::Datagram => (
            ExchangeState::SendingDatagram,
            ExchangeAction::SendDatagram(payload),
        ),
        ExchangeMode::Stream => (ExchangeState::OpeningStream(payload), ExchangeAction::OpenStream),
    }
}

/// One transition of the exchange. Each step waits for the previous
/// operation to complete; the response, bounded by the read budget on a
/// stream, is reported as it came. A timeout is reported as such; any other
/// failure, or an event that does not answer the pending operation, as a
/// connection failure. There are no retries.
pub open spec fn exchange_next(state: ExchangeState, event: ExchangeEvent) -> (
    ExchangeState,
    ExchangeAction,
) {
    match (state, event) {
        (ExchangeState::Done, _) => (ExchangeState::Done, ExchangeAction::Stop),
        (_, ExchangeEvent::TimedOut) => (
            ExchangeState::Done,
            ExchangeAction::Report(Err(ExchangeError::Timeout)),
        ),
        (ExchangeState::SendingDatagram, ExchangeEvent::Completed) => (
            ExchangeState::AwaitingDatagram,
            ExchangeAction::ReceiveDatagram { timeout_secs: EXCHANGE_TIMEOUT_SECS },
        ),
        (ExchangeState::AwaitingDatagram, ExchangeEvent::Response(data)) => (
            ExchangeState::Done,
            ExchangeAction::Report(Ok(data)),
        ),
        (ExchangeState::OpeningStream(payload), ExchangeEvent::Completed) => (
            ExchangeState::Writing,
            ExchangeAction::Write(payload),
        ),
        (ExchangeState::Writing, ExchangeEvent::Completed) => (
            ExchangeState::Finishing,
            ExchangeAction::FinishWrite,
        ),
        (ExchangeState::Finishing, ExchangeEvent::Completed) => (
            ExchangeState::AwaitingStream,
            ExchangeAction::ReadToEnd {
                budget: STREAM_READ_BUDGET,
                timeout_secs: EXCHANGE_TIMEOUT_SECS,
            },
        ),
        (ExchangeState::AwaitingStream, ExchangeEvent::ResponseTooLong) => (
            ExchangeState::Done,
            ExchangeAction::Report(Err(ExchangeError::ResponseTooLong)),
        ),
        (ExchangeState::AwaitingStream, ExchangeEvent::Response(data)) => (
            ExchangeState::Done,
            ExchangeAction::Report(
                if data@.len() <= STREAM_READ_BUDGET {
                    Ok(data)
                } else {
                    Err(ExchangeError::ResponseTooLong)
                },
            ),
        ),
        _ => (ExchangeState::Done, ExchangeAction::Report(Err(ExchangeError::Connection))),
    }
}

/// Starts an exchange of `payload` in `mode`.
pub fn exchange_start(mode: ExchangeMode, payload: Vec<u8>) -> (r: (
    ExchangeState,
    ExchangeAction,
))
    ensures
        r == exchange_begin(mode, payload),
{
    match mode {
        ExchangeMode::Datagram => (
            ExchangeState::SendingDatagram,
            ExchangeAction::SendDatagram(payload),
        ),
        ExchangeMode::Stream => (ExchangeState::OpeningStream(payload), ExchangeAction::OpenStream),
    }
}

/// Advances the exchange by the outcome of its pending operation.
pub fn exchange_step(state: ExchangeState, event: ExchangeEvent) -> (r: (
    ExchangeState,
    ExchangeAction,
))
    ensures
        r == exchange_next(state, event),
{
    let failed = (ExchangeState::Done, ExchangeAction::Report(Err(ExchangeError::Connection)));
    match state {
        ExchangeState::Done => (ExchangeState::Done, ExchangeAction::Stop),
        _ => match event {
            ExchangeEvent::TimedOut => (
                ExchangeState::Done,
                ExchangeAction::Report(Err(ExchangeError::Timeout)),
            ),
            ExchangeEvent::Failed => failed,
            ExchangeEvent::ResponseTooLong => match state {
                ExchangeState::AwaitingStream => (
                    ExchangeState::Done,
                    ExchangeAction::Report(Err(ExchangeError::ResponseTooLong)),
                ),
                _ => failed,
            },
            ExchangeEvent::Completed => match state {
                ExchangeState::SendingDatagram => (
                    ExchangeState::AwaitingDatagram,
                    ExchangeAction::ReceiveDatagram { timeout_secs: EXCHANGE_TIMEOUT_SECS },
                ),
                ExchangeState::OpeningStream(payload) => (
                    ExchangeState::Writing,
                    ExchangeAction::Write(payload),
                ),
                ExchangeState::Writing => (ExchangeState::Finishing, ExchangeAction::FinishWrite),
                ExchangeState::Finishing => (
                    ExchangeState::AwaitingStream,
                    ExchangeAction::ReadToEnd {
                        budget: STREAM_READ_BUDGET,
                        timeout_secs: EXCHANGE_TIMEOUT_SECS,
                    },
                ),
                _ => failed,
            },
            ExchangeEvent::Response(data) => match state {
                ExchangeState::AwaitingDatagram => (
                    ExchangeState::Done,
                    ExchangeAction::Report(Ok(data)),
                ),
                ExchangeState::AwaitingStream => {
                    if data.len() <= STREAM_READ_BUDGET {
                        (ExchangeState::Done, ExchangeAction::Report(Ok(data)))
                    } else {
                        (
                            ExchangeState::Done,
                            ExchangeAction::Report(Err(ExchangeError::ResponseTooLong)),
                        )
                    }
                },
                _ => failed,
            },
        },
    }
}

/// The address to connect to: the first one that resolution returned, or
/// none when it returned none.
pub fn first_resolved<T>(addrs: Vec<T>) -> (r: Option<T>)
    ensures
        addrs@.len() == 0 ==> r is None,
        addrs@.len() > 0 ==> r == Some(addrs@[0]),
{
    let mut addrs = addrs;
    if addrs.len() == 0 {
        None
    } else {
        Some(addrs.swap_remove(0))
    }
}

/// A wait for the response never hangs the client: when the timeout
/// expires in any unfinished state, the exchange ends and reports a timeout.
pub proof fn lemma_timeout_is_reported(state: ExchangeState)
    requires
        state != ExchangeState::Done,
    ensures
        exchange_next(state, ExchangeEvent::TimedOut) == (
            ExchangeState::Done,
            ExchangeAction::Report(Err::<Vec<u8>, ExchangeError>(ExchangeError::Timeout)),
        ),
{
}

/// Datagram round trip: the client sends `payload`, the server's worker
/// sends back what it received, and the client reports exactly that.
pub proof fn lemma_datagram_round_trip(payload: Vec<u8>)
    ensures
        exchange_begin(ExchangeMode::Datagram, payload).1 == ExchangeAction::SendDatagram(payload),
        exchange_next(exchange_begin(ExchangeMode::Datagram, payload).0, ExchangeEvent::Completed)
            == (
            ExchangeState::AwaitingDatagram,
            ExchangeAction::ReceiveDatagram { timeout_secs: EXCHANGE_TIMEOUT_SECS },
        ),
        datagram_echo_next(DatagramEchoState::Waiting, DatagramEchoEvent::Received(payload)).1
            == DatagramEchoAction::Send(payload),
        exchange_next(ExchangeState::AwaitingDatagram, ExchangeEvent::Response(payload)) == (
            ExchangeState::Done,
            ExchangeAction::Report(Ok::<Vec<u8>, ExchangeError>(payload)),
        ),
{
}

/// Stream round trip: the client opens a stream, writes `payload` and ends
/// its input; the server's task reads it in any chunking and writes it
/// back; when the bytes delivered to the client are those the task wrote
/// and fit the read budget, the client reports exactly `payload`.
pub proof fn lemma_stream_round_trip(
    payload: Vec<u8>,
    server_events: Seq<StreamEchoEvent>,
    response: Vec<u8>,
)
    requires
        payload@.len() <= STREAM_READ_BUDGET,
        is_clean_echo_trace(server_events),
        read_bytes(server_events) == payload@,
        response@ == written_bytes(stream_echo_run(StreamEchoState::Reading, server_events).1),
    ensures
        exchange_begin(ExchangeMode::Stream, payload).1 == ExchangeAction::OpenStream,
        exchange_next(exchange_begin(ExchangeMode::Stream, payload).0, ExchangeEvent::Completed)
            == (ExchangeState::Writing, ExchangeAction::Write(payload)),
        exchange_next(ExchangeState::Writing, ExchangeEvent::Completed) == (
            ExchangeState::Finishing,
            ExchangeAction::FinishWrite,
        ),
        exchange_next(ExchangeState::Finishing, ExchangeEvent::Completed) == (
            ExchangeState::AwaitingStream,
            ExchangeAction::ReadToEnd {
                budget: STREAM_READ_BUDGET,
                timeout_secs: EXCHANGE_TIMEOUT_SECS,
            },
        ),
        exchange_next(ExchangeState::AwaitingStream, ExchangeEvent::Response(response)) == (
            ExchangeState::Done,
            ExchangeAction::Report(Ok::<Vec<u8>, ExchangeError>(response)),
        ),
        response@ == payload@,
{
    lemma_stream_echo_returns_input(server_events);
}

} // verus!
