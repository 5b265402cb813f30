use vstd::prelude::*;

verus! {

/// Where one stream's echo task stands.
#[derive(Clone, Copy, Debug, PartialEq, Eq, Structural)]
pub enum StreamEchoState {
    /// Waiting for the next read on the receive half.
    Reading,
    /// Waiting for the write of the last chunk read to complete.
    Writing,
    /// The peer ended its input and the send half was finished.
    Finished,
    /// A read or a write failed; no further I/O on this stream.
    Aborted,
}

/// What the transport reported for the operation the task last asked for.
#[derive(Debug, PartialEq, Eq)]
pub enum StreamEchoEvent {
    /// A read completed with these bytes; no bytes means end of input.
    Read(Vec<u8>),
    /// The read failed.
    ReadFailed,
    /// The whole chunk was written.
    WriteDone,
    /// The write failed.
    WriteFailed,
}

/// What the task asks of the transport next.
#[derive(Debug, PartialEq, Eq)]
pub enum StreamEchoAction {
    /// Read the next chunk from the receive half.
    Read,
    /// Write these bytes, all of them, to the send half.
    Write(Vec<u8>),
    /// Signal end of input on the send half, then stop.
    Finish,
    /// Stop without further I/O.
    Stop,
}

impl StreamEchoState {
    pub open spec fn is_terminal(self) -> bool {
        self == StreamEchoState::Finished || self == StreamEchoState::Aborted
    }
}

/// One transition of the echo task. Bytes read are written back as they
/// are; an empty read finishes the send half; any failure, or an event
/// that does not answer the pending operation, aborts the task.
pub open spec fn stream_echo_next(state: StreamEchoState, event: StreamEchoEvent) -> (
    StreamEchoState,
    StreamEchoAction,
) {
    match (state, event) {
        (StreamEchoState::Reading, StreamEchoEvent::Read(data)) => if data@.len() == 0 {
            (StreamEchoState::Finished, StreamEchoAction::Finish)
        } else {
            (StreamEchoState::Writing, StreamEchoAction::Write(data))
        },
        (StreamEchoState::Writing, StreamEchoEvent::WriteDone) => (
            StreamEchoState::Reading,
            StreamEchoAction::Read,
        ),
        (StreamEchoState::Finished, _) => (StreamEchoState::Finished, StreamEchoAction::Stop),
        _ => (StreamEchoState::Aborted, StreamEchoAction::Stop),
    }
}

/// The first request of a fresh echo task.
pub fn stream_echo_start() -> (r: (StreamEchoState, StreamEchoAction))
    ensures
        r == (StreamEchoState::Reading, StreamEchoAction::Read),
{
    (StreamEchoState::Reading, StreamEchoAction::Read)
}

/// Advances one stream's echo task by the outcome of its pending operation.
pub fn stream_echo_step(state: StreamEchoState, event: StreamEchoEvent) -> (r: (
    StreamEchoState,
    StreamEchoAction,
))
    ensures
        r == stream_echo_next(state, event),
{
    match state {
        StreamEchoState::Reading => match event {
            StreamEchoEvent::Read(data) => {
                if data.len() == 0 {
                    (StreamEchoState::Finished, StreamEchoAction::Finish)
                } else {
                    (StreamEchoState::Writing, StreamEchoAction::Write(data))
                }
            },
            _ => (StreamEchoState::Aborted, StreamEchoAction::Stop),
        },
        StreamEchoState::Writing => match event {
            StreamEchoEvent::WriteDone => (StreamEchoState::Reading, StreamEchoAction::Read),
            _ => (StreamEchoState::Aborted, StreamEchoAction::Stop),
        },
        StreamEchoState::Finished => (StreamEchoState::Finished, StreamEchoAction::Stop),
        StreamEchoState::Aborted => (StreamEchoState::Aborted, StreamEchoAction::Stop),
    }
}

/// The state reached and the actions issued when the task starting in
/// `state` is fed `events` in order.
pub open spec fn stream_echo_run(state: StreamEchoState, events: Seq<StreamEchoEvent>) -> (
    StreamEchoState,
    Seq<StreamEchoAction>,
)
    decreases events.len(),
{
    if events.len() == 0 {
        (state, seq![])
    } else {
        let prev = stream_echo_run(state, events.drop_last());
        let next = stream_echo_next(prev.0, events.last());
        (next.0, prev.1.push(next.1))
    }
}

/// The bytes that a sequence of actions writes, in order.
pub open spec fn written_bytes(actions: Seq<StreamEchoAction>) -> Seq<u8>
    decreases actions.len(),
{
    if actions.len() == 0 {
        seq![]
    } else {
        written_bytes(actions.drop_last()) + match actions.last() {
            StreamEchoAction::Write(data) => data@,
            _ => seq![],
        }
    }
}

/// The bytes that a sequence of events reports as read, in order.
pub open spec fn read_bytes(events: Seq<StreamEchoEvent>) -> Seq<u8>
    decreases events.len(),
{
    if events.len() == 0 {
        seq![]
    } else {
        read_bytes(events.drop_last()) + match events.last() {
            StreamEchoEvent::Read(data) => data@,
            _ => seq![],
        }
    }
}

/// A faultless exchange on one stream: the peer's input arrives in
/// non-empty chunks, each chunk's write completes before the next read,
/// and an empty read ends it.
pub open spec fn is_clean_echo_trace(events: Seq<StreamEchoEvent>) -> bool {
    &&& events.len() % 2 == 1
    &&& forall|i: int|
        0 <= i < events.len() - 1 && i % 2 == 0 ==> {
            &&& events[i] is Read
            &&& events[i]->Read_0@.len() > 0
        }
    &&& forall|i: int|
        0 <= i < events.len() && i % 2 == 1 ==> events[i] == StreamEchoEvent::WriteDone
    &&& events.last() is Read
    &&& events.last()->Read_0@.len() == 0
}

proof fn lemma_clean_prefix(events: Seq<StreamEchoEvent>, k: int)
    requires
        is_clean_echo_trace(events),
        0 <= k,
        2 * k < events.len(),
    ensures
        stream_echo_run(StreamEchoState::Reading, events.take(2 * k)).0
            == StreamEchoState::Reading,
        written_bytes(stream_echo_run(StreamEchoState::Reading, events.take(2 * k)).1)
            == read_bytes(events.take(2 * k)),
    decreases k,
{
    if k == 0 {
        assert(events.take(0) =~= seq![]);
    } else {
        lemma_clean_prefix(events, k - 1);
        let a = events.take(2 * k - 2);
        let b = events.take(2 * k - 1);
        let c = events.take(2 * k);
        assert(b.drop_last() =~= a);
        assert(c.drop_last() =~= b);
        assert(b.last() == events[2 * k - 2]);
        assert(c.last() == events[2 * k - 1]);
        assert(events[2 * k - 2] is Read);
        assert(events[2 * k - 1] == StreamEchoEvent::WriteDone);
        let ra = stream_echo_run(StreamEchoState::Reading, a);
        let rb = stream_echo_run(StreamEchoState::Reading, b);
        let rc = stream_echo_run(StreamEchoState::Reading, c);
        assert(rb.1.drop_last() =~= ra.1);
        assert(rc.1.drop_last() =~= rb.1);
        assert(written_bytes(rb.1) =~= written_bytes(ra.1) + events[2 * k - 2]->Read_0@);
        assert(written_bytes(rc.1) =~= written_bytes(rb.1));
        assert(read_bytes(b) =~= read_bytes(a) + events[2 * k - 2]->Read_0@);
        assert(read_bytes(c) =~= read_bytes(b));
    }
}

/// Echo round trip: whatever bytes the peer sends on a stream, in
/// whatever chunking, the task writes back exactly those bytes, in order,
/// and then finishes the send half.
pub proof fn lemma_stream_echo_returns_input(events: Seq<StreamEchoEvent>)
    requires
        is_clean_echo_trace(events),
    ensures
        stream_echo_run(StreamEchoState::Reading, events).0 == StreamEchoState::Finished,
        stream_echo_run(StreamEchoState::Reading, events).1.last() == StreamEchoAction::Finish,
        written_bytes(stream_echo_run(StreamEchoState::Reading, events).1) == read_bytes(
            events,
        ),
{
    let k = (events.len() - 1) / 2;
    lemma_clean_prefix(events, k);
    let p = events.take(2 * k);
    assert(events.drop_last() =~= p);
    let rp = stream_echo_run(StreamEchoState::Reading, p);
    let r = stream_echo_run(StreamEchoState::Reading, events);
    assert(r.1.drop_last() =~= rp.1);
    assert(events.last()->Read_0@.len() == 0);
    assert(written_bytes(r.1) =~= written_bytes(rp.1));
    assert(read_bytes(events) =~= read_bytes(p) + events.last()->Read_0@);
    assert(read_bytes(events) =~= read_bytes(p));
}

/// Echo tasks keyed by stream, each started when its stream is first seen.
pub open spec fn stream_pool_run(schedule: Seq<(u64, StreamEchoEvent)>) -> Map<
    u64,
    (StreamEchoState, Seq<StreamEchoAction>),
>
    decreases schedule.len(),
{
    if schedule.len() == 0 {
        Map::empty()
    } else {
        let pool = stream_pool_run(schedule.drop_last());
        let (id, event) = schedule.last();
        let cur = if pool.contains_key(id) {
            pool[id]
        } else {
            (StreamEchoState::Reading, seq![])
        };
        let next = stream_echo_next(cur.0, event);
        pool.insert(id, (next.0, cur.1.push(next.1)))
    }
}

/// The events of one stream, in the order they occur in the schedule.
pub open spec fn events_of(schedule: Seq<(u64, StreamEchoEvent)>, id: u64) -> Seq<
    StreamEchoEvent,
>
    decreases schedule.len(),
{
    if schedule.len() == 0 {
        seq![]
    } else if schedule.last().0 == id {
        events_of(schedule.drop_last(), id).push(schedule.last().1)
    } else {
        events_of(schedule.drop_last(), id)
    }
}

/// Streams do not mix: however the events of concurrent streams on one
/// connection interleave, each stream's task does exactly what it would
/// do on that stream's own events alone.
pub proof fn lemma_streams_are_independent(schedule: Seq<(u64, StreamEchoEvent)>, id: u64)
    ensures
        events_of(schedule, id).len() > 0 ==> stream_pool_run(schedule).contains_key(id),
        stream_pool_run(schedule).contains_key(id) ==> stream_pool_run(schedule)[id]
            == stream_echo_run(StreamEchoState::Reading, events_of(schedule, id)),
    decreases schedule.len(),
{
    if schedule.len() > 0 {
        let prev = schedule.drop_last();
        lemma_streams_are_independent(prev, id);
        let own = events_of(schedule, id);
        if schedule.last().0 == id {
            assert(own.drop_last() =~= events_of(prev, id));
            assert(own.last() == schedule.last().1);
            if !stream_pool_run(prev).contains_key(id) {
                assert(events_of(prev, id) =~= seq![]);
            }
            let cur = if stream_pool_run(prev).contains_key(id) {
                stream_pool_run(prev)[id]
            } else {
                (StreamEchoState::Reading, seq![])
            };
            assert(cur == stream_echo_run(StreamEchoState::Reading, events_of(prev, id)));
            assert(stream_pool_run(schedule)[id] == stream_echo_run(StreamEchoState::Reading, own));
        } else {
            assert(own == events_of(prev, id));
        }
    }
}

} // verus!
