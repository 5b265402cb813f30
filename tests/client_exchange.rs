use quic_echo::client::{
    exchange_start, exchange_step, first_resolved, ExchangeAction, ExchangeError, ExchangeEvent,
    ExchangeMode, ExchangeState,
};
use quic_echo::protocol::{probe_payload, EXCHANGE_TIMEOUT_SECS, STREAM_READ_BUDGET};

#[test]
fn datagram_exchange_ping() {
    let (state, action) = exchange_start(ExchangeMode::Datagram, probe_payload());
    assert_eq!(action, ExchangeAction::SendDatagram(b"ping".to_vec()));
    let (state, action) = exchange_step(state, ExchangeEvent::Completed);
    assert_eq!(action, ExchangeAction::ReceiveDatagram { timeout_secs: 5 });
    let (state, action) = exchange_step(state, ExchangeEvent::Response(b"ping".to_vec()));
    assert_eq!(state, ExchangeState::Done);
    assert_eq!(action, ExchangeAction::Report(Ok(b"ping".to_vec())));
}

#[test]
fn stream_exchange_ping() {
    let (state, action) = exchange_start(ExchangeMode::Stream, probe_payload());
    assert_eq!(action, ExchangeAction::OpenStream);
    let (state, action) = exchange_step(state, ExchangeEvent::Completed);
    assert_eq!(action, ExchangeAction::Write(b"ping".to_vec()));
    let (state, action) = exchange_step(state, ExchangeEvent::Completed);
    assert_eq!(action, ExchangeAction::FinishWrite);
    let (state, action) = exchange_step(state, ExchangeEvent::Completed);
    assert_eq!(
        action,
        ExchangeAction::ReadToEnd { budget: 65536, timeout_secs: EXCHANGE_TIMEOUT_SECS }
    );
    let (state, action) = exchange_step(state, ExchangeEvent::Response(b"ping".to_vec()));
    assert_eq!(state, ExchangeState::Done);
    assert_eq!(action, ExchangeAction::Report(Ok(b"ping".to_vec())));
}

#[test]
fn datagram_exchange_timeout() {
    let (state, action) =
        exchange_step(ExchangeState::AwaitingDatagram, ExchangeEvent::TimedOut);
    assert_eq!(state, ExchangeState::Done);
    assert_eq!(action, ExchangeAction::Report(Err(ExchangeError::Timeout)));
}

#[test]
fn stream_exchange_timeout() {
    let (_, action) = exchange_step(ExchangeState::AwaitingStream, ExchangeEvent::TimedOut);
    assert_eq!(action, ExchangeAction::Report(Err(ExchangeError::Timeout)));
}

#[test]
fn server_close_is_connection_error_not_timeout() {
    let (state, action) = exchange_step(ExchangeState::AwaitingDatagram, ExchangeEvent::Failed);
    assert_eq!(state, ExchangeState::Done);
    assert_eq!(action, ExchangeAction::Report(Err(ExchangeError::Connection)));
    let (_, action) = exchange_step(ExchangeState::AwaitingStream, ExchangeEvent::Failed);
    assert_eq!(action, ExchangeAction::Report(Err(ExchangeError::Connection)));
}

#[test]
fn datagram_send_failure_ends_exchange() {
    let (_, action) = exchange_step(ExchangeState::SendingDatagram, ExchangeEvent::Failed);
    assert_eq!(action, ExchangeAction::Report(Err(ExchangeError::Connection)));
}

#[test]
fn stream_response_at_budget_is_accepted() {
    let data = vec![7u8; STREAM_READ_BUDGET];
    let (_, action) = exchange_step(ExchangeState::AwaitingStream, ExchangeEvent::Response(data.clone()));
    assert_eq!(action, ExchangeAction::Report(Ok(data)));
}

#[test]
fn stream_response_over_budget_is_refused() {
    let data = vec![7u8; STREAM_READ_BUDGET + 1];
    let (_, action) = exchange_step(ExchangeState::AwaitingStream, ExchangeEvent::Response(data));
    assert_eq!(action, ExchangeAction::Report(Err(ExchangeError::ResponseTooLong)));
}

#[test]
fn done_exchange_does_nothing_more() {
    let (state, action) = exchange_step(ExchangeState::Done, ExchangeEvent::Response(b"x".to_vec()));
    assert_eq!(state, ExchangeState::Done);
    assert_eq!(action, ExchangeAction::Stop);
}

#[test]
fn out_of_order_event_is_a_connection_error() {
    let (_, action) = exchange_step(ExchangeState::Writing, ExchangeEvent::Response(b"x".to_vec()));
    assert_eq!(action, ExchangeAction::Report(Err(ExchangeError::Connection)));
}

#[test]
fn first_resolved_address() {
    assert_eq!(first_resolved(vec![3u32, 1, 2]), Some(3));
    assert_eq!(first_resolved::<u32>(Vec::new()), None);
}

#[test]
fn transport_reported_overlong_response() {
    let (state, action) = exchange_step(ExchangeState::AwaitingStream, ExchangeEvent::ResponseTooLong);
    assert_eq!(state, ExchangeState::Done);
    assert_eq!(action, ExchangeAction::Report(Err(ExchangeError::ResponseTooLong)));
    let (_, action) = exchange_step(ExchangeState::AwaitingDatagram, ExchangeEvent::ResponseTooLong);
    assert_eq!(action, ExchangeAction::Report(Err(ExchangeError::Connection)));
}
