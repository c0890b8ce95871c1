//! What holds of a stream over everything that happens to it.
use vstd::prelude::*;

use crate::address::AddrView;
use crate::effect::{Effect, StreamEffectView};
use crate::error::IoError;
use crate::ready::{read_event, write_event};
use crate::state::State;
use crate::stream_model::{unconnected, Step, StreamView, READ_BUFFER_SIZE};

verus! {

/// Something that happens to a stream.
pub enum StreamEvent {
    /// It is registered with an event loop.
    Register,
    /// Its registration is changed.
    Reregister,
    /// The system answers to the start of connecting.
    ConnectScheduled(Result<(), IoError>),
    /// The system answers to the start of a read.
    ReadScheduled { ready: Set<int>, then_writable: bool, result: Result<(), IoError> },
    /// The system answers to the start of a write.
    WriteScheduled { buf: Seq<u8>, pos: usize, result: Result<(), IoError> },
    /// The operation that connects completes.
    ConnectDone(Result<(), IoError>),
    /// The call that completes the connection returns.
    ConnectCompleted(Result<(), IoError>),
    /// A read completes, with these bytes.
    ReadDone(Result<Seq<u8>, IoError>),
    /// A write completes, after so many bytes.
    WriteDone(Result<usize, IoError>),
    /// Someone wants to read as many bytes as there is room for.
    Read(nat),
    /// Someone wants to write these bytes.
    Write(Seq<u8>),
    /// Someone asks for an error.
    TakeError,
    /// The system answers to a shutdown.
    ShutdownDone(Result<(), IoError>),
}

impl StreamEvent {
    /// What follows from the event.
    pub open spec fn step(self, stream: StreamView) -> Step {
        match self {
            StreamEvent::Register => stream.register(),
            StreamEvent::Reregister => stream.post_register(),
            StreamEvent::ConnectScheduled(result) => stream.connect_scheduled(result),
            StreamEvent::ReadScheduled { ready, then_writable, result } => stream.read_scheduled(
                ready,
                then_writable,
                result,
            ),
            StreamEvent::WriteScheduled { buf, pos, result } => stream.write_scheduled(
                buf,
                pos,
                result,
            ),
            StreamEvent::ConnectDone(result) => stream.connect_done(result),
            StreamEvent::ConnectCompleted(result) => stream.connect_completed(result),
            StreamEvent::ReadDone(result) => stream.read_done(result),
            StreamEvent::WriteDone(result) => stream.write_done(result),
            StreamEvent::Read(room) => stream.serve_read(room).step,
            StreamEvent::Write(bytes) => stream.serve_write(bytes).step,
            StreamEvent::TakeError => stream.take_error().rest(),
            StreamEvent::ShutdownDone(result) => stream.shutdown_done(result),
        }
    }

    /// The event is the completion of an operation. Its handler takes over the
    /// reference that was kept for it.
    pub open spec fn completes(self) -> bool {
        self is ConnectDone || self is ReadDone || self is WriteDone
    }

    /// Whether the stream is connected, if the event decides that: the operation
    /// that connects has failed, or the call that completes the connection has
    /// returned.
    pub open spec fn connect_outcome(self) -> Option<Result<(), IoError>> {
        match self {
            StreamEvent::ConnectDone(Err(e)) => Some(Err(e)),
            StreamEvent::ConnectCompleted(result) => Some(result),
            _ => None,
        }
    }
}

/// A stream and what has happened to it.
pub struct History {
    /// The stream.
    pub stream: StreamView,
    /// An operation of which the driver is just telling the system.
    pub starting: Option<StreamEffectView>,
    /// Whether the operation that connects is in flight.
    pub connect_in_flight: bool,
    /// Whether the call that completes the connection is being made.
    pub connect_completing: bool,
    /// Whether the last read was refused because nobody is connected.
    pub unconnected: bool,
    /// How many references to the stream are kept for completions.
    pub retained: int,
    /// Whether the connection was shut down, one half of it or both.
    pub shut: bool,
    /// The bytes that reads have brought.
    pub received: Seq<u8>,
    /// The bytes that were handed out.
    pub delivered: Seq<u8>,
    /// The bytes that were taken for writing, since the error of a write was last
    /// handed out.
    pub accepted: Seq<u8>,
    /// The bytes that the system has written, since then.
    pub sent: Seq<u8>,
    /// The bytes that were taken and those that were written, up to each error of
    /// a write that was handed out.
    pub ended: Seq<(Seq<u8>, Seq<u8>)>,
}

/// The number of references that the driver has to keep.
pub open spec fn retains(effects: Seq<StreamEffectView>) -> int
    decreases effects.len(),
{
    if effects.len() == 0 {
        0
    } else {
        retains(effects.drop_last()) + if effects.last() is Retain {
            1int
        } else {
            0
        }
    }
}

/// The operation that the driver has to start, which is always what it does last.
pub open spec fn started(effects: Seq<StreamEffectView>) -> Option<StreamEffectView> {
    if effects.len() == 0 {
        None
    } else {
        match effects.last() {
            Effect::StartConnect(_) => Some(effects.last()),
            Effect::StartRead { .. } => Some(effects.last()),
            Effect::StartWrite { .. } => Some(effects.last()),
            _ => None,
        }
    }
}

/// One if the condition holds, and zero otherwise.
pub open spec fn count(condition: bool) -> int {
    if condition {
        1
    } else {
        0
    }
}

impl History {
    /// A stream to which nothing has happened: one that is connected already or,
    /// where there is an address, one that connects once it is registered.
    pub open spec fn fresh(socket: usize, addr: Option<AddrView>) -> History {
        History {
            stream: StreamView::fresh(socket, addr, addr is Some),
            starting: None,
            connect_in_flight: false,
            connect_completing: false,
            unconnected: false,
            retained: 0,
            shut: false,
            received: Seq::empty(),
            delivered: Seq::empty(),
            accepted: Seq::empty(),
            sent: Seq::empty(),
            ended: Seq::empty(),
        }
    }

    /// The event can happen now. While the driver tells the system of an
    /// operation, only the system's answer can; an operation completes only if it
    /// is in flight, and with no more bytes than it was given. No more bytes can be
    /// written at once than fit in memory.
    pub open spec fn allows(self, event: StreamEvent) -> bool {
        match self.starting {
            Some(Effect::StartConnect(_)) => event is ConnectScheduled,
            Some(Effect::StartRead { ready, then_writable, .. }) => {
                &&& event is ReadScheduled
                &&& event->ReadScheduled_ready == ready
                &&& event->ReadScheduled_then_writable == then_writable
            },
            Some(Effect::StartWrite { buf, pos }) => {
                &&& event is WriteScheduled
                &&& event->WriteScheduled_buf == buf
                &&& event->WriteScheduled_pos == pos
            },
            _ => match event {
                StreamEvent::ConnectScheduled(_) => false,
                StreamEvent::ReadScheduled { .. } => false,
                StreamEvent::WriteScheduled { .. } => false,
                StreamEvent::ConnectDone(_) => self.connect_in_flight,
                StreamEvent::ConnectCompleted(_) => self.connect_completing,
                StreamEvent::ReadDone(result) => self.stream.read matches State::Pending(size) && (
                result matches Ok(data) ==> data.len() <= size),
                StreamEvent::Write(bytes) => bytes.len() <= usize::MAX,
                StreamEvent::WriteDone(result) => self.stream.write matches State::Pending((buf, pos))
                    && (result matches Ok(n) ==> pos + n <= buf.len()),
                _ => true,
            },
        }
    }

    /// The history after the event.
    pub open spec fn next(self, event: StreamEvent) -> History {
        let step = event.step(self.stream);
        History {
            stream: step.post,
            starting: started(step.effects),
            connect_in_flight: match event {
                StreamEvent::ConnectScheduled(result) => result is Ok,
                StreamEvent::ConnectDone(_) => false,
                _ => self.connect_in_flight,
            },
            connect_completing: match event {
                StreamEvent::ConnectDone(_) => step.effects.contains(Effect::CompleteConnect),
                StreamEvent::ConnectCompleted(_) => false,
                _ => self.connect_completing,
            },
            unconnected: match event {
                StreamEvent::ReadScheduled { result, .. } => unconnected(result),
                _ => self.unconnected,
            },
            retained: self.retained + retains(step.effects) - count(event.completes()),
            shut: self.shut || event matches StreamEvent::ShutdownDone(Ok(_)),
            received: match event {
                StreamEvent::ReadDone(Ok(data)) => self.received + data,
                _ => self.received,
            },
            delivered: match event {
                StreamEvent::Read(room) => match self.stream.serve_read(room).result {
                    Ok(bytes) => self.delivered + bytes,
                    Err(_) => self.delivered,
                },
                _ => self.delivered,
            },
            accepted: match event {
                StreamEvent::Write(bytes) => match self.stream.serve_write(bytes).result {
                    Ok(_) => self.accepted + bytes,
                    Err(_) => self.accepted,
                },
                StreamEvent::TakeError if self.stream.write_error_pending() => Seq::empty(),
                _ => self.accepted,
            },
            sent: match (event, self.stream.write) {
                (StreamEvent::WriteDone(Ok(n)), State::Pending((buf, pos))) => self.sent
                    + buf.subrange(pos as int, pos + n),
                (StreamEvent::TakeError, State::Failed(_)) if self.stream.write_error_pending() => {
                    Seq::empty()
                },
                _ => self.sent,
            },
            ended: match event {
                StreamEvent::TakeError if self.stream.write_error_pending() => self.ended.push(
                    (self.accepted, self.sent),
                ),
                _ => self.ended,
            },
        }
    }

    /// The bytes that were taken for writing and still wait to be written.
    pub open spec fn unsent(self) -> Seq<u8> {
        match (self.stream.write, self.starting) {
            (State::Pending((buf, pos)), _) => buf.skip(pos as int),
            (_, Some(Effect::StartWrite { buf, pos })) => buf.skip(pos as int),
            _ => Seq::empty(),
        }
    }

    /// The operation of which the driver is telling the system is one that the
    /// stream has room for.
    pub open spec fn valid_start(self) -> bool {
        match self.starting {
            None => true,
            Some(Effect::StartConnect(_)) => self.stream.connecting && !self.connect_in_flight,
            Some(Effect::StartRead { size, ready, .. }) => size == READ_BUFFER_SIZE
                && self.stream.read_starting(ready),
            Some(Effect::StartWrite { buf, pos }) => self.stream.write_starting(buf, pos),
            Some(_) => false,
        }
    }

    /// The stream connects at most once: while its address is kept, or while it is
    /// being connected, it counts as connecting, and there is no error of it yet.
    pub open spec fn valid_connect(self) -> bool {
        &&& self.stream.deferred_connect is Some ==> self.stream.connecting
            && !self.connect_in_flight && !(self.starting matches Some(Effect::StartConnect(_)))
        &&& self.connect_in_flight ==> self.stream.connecting
        &&& self.connect_completing ==> !self.stream.connecting
        &&& self.stream.connecting || self.connect_completing ==> self.stream.connect_error is None
    }

    /// One reference is kept for each operation in flight.
    pub open spec fn valid_references(self) -> bool {
        self.retained == count(self.stream.read is Pending) + count(self.stream.write is Pending)
            + count(self.connect_in_flight)
    }

    /// No byte is lost on the way in, none comes twice, and they keep their order.
    pub open spec fn valid_input(self) -> bool {
        self.received == self.delivered + self.stream.buffered()
    }

    /// No byte is lost on the way out, none is written twice, and they keep their
    /// order; where a write has failed, some of the last bytes up to there may not
    /// have been written.
    pub open spec fn valid_output(self) -> bool {
        &&& forall|i: int|
            0 <= i < self.ended.len() ==> (#[trigger] self.ended[i]).1.is_prefix_of(self.ended[i].0)
        &&& if self.stream.write is Failed {
            self.sent.is_prefix_of(self.accepted)
        } else {
            self.accepted == self.sent + self.unsent()
        }
    }

    /// Unless the connection was shut down, the stream is said to be readable
    /// while a read has an outcome to hand out, and to be writable after a write
    /// has failed.
    pub open spec fn valid_readiness(self) -> bool {
        !self.shut ==> {
            &&& self.stream.read is Done || self.stream.read is Failed
                ==> self.stream.readiness.contains(read_event())
            &&& self.stream.write is Failed ==> self.stream.readiness.contains(write_event())
        }
    }

    /// The stream is registered, not on its way to be connected, and not known to
    /// be without anybody who is connected.
    pub open spec fn live(self) -> bool {
        &&& self.stream.registered
        &&& !self.stream.connecting
        &&& !self.connect_completing
        &&& !self.unconnected
    }

    /// A read that is started after nobody was connected offers the stream for
    /// writing. A live stream never stands still: a read is under way or has an outcome to
    /// hand out, and unless the connection was shut down the stream is said to be
    /// writable while nothing waits to be written.
    pub open spec fn valid_progress(self) -> bool {
        &&& self.unconnected ==> self.stream.read is Idle && (self.starting matches Some(
            Effect::StartRead { then_writable, .. },
        ) ==> then_writable)
        &&& self.live() ==> {
            &&& self.stream.read is Idle ==> (self.starting matches Some(Effect::StartRead { .. }))
            &&& !self.shut && self.stream.write is Idle ==> {
                ||| self.stream.readiness.contains(write_event())
                ||| self.starting matches Some(Effect::StartWrite { .. })
                ||| self.starting matches Some(Effect::StartRead { then_writable: true, .. })
            }
        }
    }

    /// All of this.
    pub open spec fn valid(self) -> bool {
        &&& self.stream.valid()
        &&& self.valid_start()
        &&& self.valid_connect()
        &&& self.valid_references()
        &&& self.valid_input()
        &&& self.valid_output()
        &&& self.valid_readiness()
        &&& self.valid_progress()
    }

    /// The history after the events.
    pub open spec fn after(self, events: Seq<StreamEvent>) -> History
        decreases events.len(),
    {
        if events.len() == 0 {
            self
        } else {
            self.next(events[0]).after(events.drop_first())
        }
    }

    /// The events can happen one after the other.
    pub open spec fn allows_all(self, events: Seq<StreamEvent>) -> bool
        decreases events.len(),
    {
        events.len() == 0 || self.allows(events[0]) && self.next(events[0]).allows_all(
            events.drop_first(),
        )
    }
}

/// A history that is valid stays valid, whatever happens next.
pub proof fn law_events_keep_history_valid(history: History, event: StreamEvent)
    requires
        history.valid(),
        history.allows(event),
    ensures
        history.next(event).valid(),
{
    reveal_with_fuel(retains, 4);
    let next = history.next(event);
    assert(next.stream.valid());
    assert(next.valid_start());
    assert(next.valid_connect());
    assert(next.valid_references());
    lemma_input_stays_valid(history, event);
    lemma_output_stays_valid(history, event);
    assert(next.valid_readiness());
    lemma_progress_stays_valid(history, event);
}

proof fn lemma_progress_stays_valid(history: History, event: StreamEvent)
    requires
        history.valid(),
        history.allows(event),
    ensures
        history.next(event).valid_progress(),
{
}

proof fn lemma_input_stays_valid(history: History, event: StreamEvent)
    requires
        history.valid(),
        history.allows(event),
    ensures
        history.next(event).valid_input(),
{
    let next = history.next(event);
    match event {
        StreamEvent::ReadDone(Ok(data)) => {
            assert(history.stream.buffered() =~= Seq::empty());
            assert(next.stream.buffered() =~= data);
            assert(next.received =~= next.delivered + next.stream.buffered());
        },
        StreamEvent::Read(room) => {
            match history.stream.serve_read(room).result {
                Ok(bytes) => {
                    assert(history.stream.buffered() =~= bytes + next.stream.buffered());
                    assert(next.received =~= next.delivered + next.stream.buffered());
                },
                Err(_) => {},
            }
        },
        _ => {
            assert(next.stream.buffered() =~= history.stream.buffered());
        },
    }
}

proof fn lemma_output_stays_valid(history: History, event: StreamEvent)
    requires
        history.valid(),
        history.allows(event),
    ensures
        history.next(event).valid_output(),
{
    let next = history.next(event);
    match event {
        StreamEvent::Write(bytes) => {
            if history.stream.serve_write(bytes).result is Ok {
                assert(history.unsent() =~= Seq::empty());
                assert(next.unsent() =~= bytes);
                assert(next.accepted =~= next.sent + next.unsent());
            } else {
                assert(next.unsent() =~= history.unsent());
            }
        },
        StreamEvent::WriteDone(Ok(n)) => {
            assert(history.unsent() =~= next.sent.skip(history.sent.len() as int) + next.unsent());
            assert(next.accepted =~= next.sent + next.unsent());
        },
        _ => {
            if next.stream.write is Failed {
                assert(next.sent.is_prefix_of(next.accepted));
            } else {
                assert(next.unsent() =~= history.unsent());
            }
        },
    }
}

/// Whatever happens to a stream, its history is valid: operations are started and
/// completed one at a time per direction, one reference is kept for each operation
/// in flight, no byte is lost or doubled in either direction, a live stream never
/// stands still, and as long as it is not shut down it is readable exactly when
/// there is something to hand out.
pub proof fn law_every_history_is_valid(
    socket: usize,
    addr: Option<AddrView>,
    events: Seq<StreamEvent>,
)
    requires
        History::fresh(socket, addr).allows_all(events),
    ensures
        History::fresh(socket, addr).after(events).valid(),
{
    reveal_with_fuel(retains, 1);
    let fresh = History::fresh(socket, addr);
    assert(fresh.valid());
    lemma_histories_stay_valid(fresh, events);
}

proof fn lemma_histories_stay_valid(history: History, events: Seq<StreamEvent>)
    requires
        history.valid(),
        history.allows_all(events),
    ensures
        history.after(events).valid(),
    decreases events.len(),
{
    if events.len() > 0 {
        law_events_keep_history_valid(history, events[0]);
        lemma_histories_stay_valid(history.next(events[0]), events.drop_first());
    }
}

/// Until the stream is registered with an event loop, reading and writing are
/// answered with `WouldBlock`, and nothing else happens.
pub proof fn law_unregistered_stream_would_block(stream: StreamView, room: nat, bytes: Seq<u8>)
    requires
        !stream.registered,
    ensures
        stream.serve_read(room).result == Err::<Seq<u8>, IoError>(IoError::WouldBlock),
        stream.serve_read(room).step == stream.rest(),
        stream.serve_write(bytes).result == Err::<nat, IoError>(IoError::WouldBlock),
        stream.serve_write(bytes).step == stream.rest(),
{
}

/// A registered stream that is said to be readable answers a read with bytes that
/// it has, or with the error of the read that has failed.
pub proof fn law_readable_stream_has_outcome(stream: StreamView, room: nat)
    requires
        stream.valid(),
        stream.registered,
        stream.readiness.contains(read_event()),
    ensures
        match stream.serve_read(room).result {
            Ok(bytes) => bytes.is_prefix_of(stream.buffered()) && (bytes.len() == room || bytes
                == stream.buffered()),
            Err(e) => stream.read == State::<usize, (Seq<u8>, usize)>::Failed(e),
        },
{
    if let Ok(bytes) = stream.serve_read(room).result {
        if bytes.len() < room {
            assert(bytes =~= stream.buffered());
        }
    }
}

/// Bytes are handed out in the order in which they came, each once.
pub proof fn law_reads_keep_order(history: History)
    requires
        history.valid(),
    ensures
        history.delivered.is_prefix_of(history.received),
{
}

/// Bytes are written in the order in which they were taken, each once; when no
/// write is under way and none has failed, all of them are written that were taken
/// since the error of a write was last handed out. Of those before, the first ones
/// up to each such error are written.
pub proof fn law_writes_keep_order(history: History)
    requires
        history.valid(),
    ensures
        history.sent.is_prefix_of(history.accepted),
        forall|i: int|
            0 <= i < history.ended.len() ==> (#[trigger] history.ended[i]).1.is_prefix_of(
                history.ended[i].0,
            ),
        history.stream.write is Idle && !(history.starting matches Some(Effect::StartWrite { .. }))
            ==> history.sent == history.accepted,
{
}

/// After a write has failed, every further write is answered with `WouldBlock` until
/// `take_error` has handed out the failure: nothing else that happens to the stream
/// takes it away, and it is handed out once.
pub proof fn law_failed_write_stays(history: History, event: StreamEvent, bytes: Seq<u8>)
    requires
        history.valid(),
        history.allows(event),
        history.stream.write is Failed,
    ensures
        history.stream.serve_write(bytes).result == Err::<nat, IoError>(IoError::WouldBlock),
        history.next(event).stream.write == if event is TakeError
            && history.stream.connect_error is None {
            State::Idle
        } else {
            history.stream.write
        },
        history.stream.connect_error is None ==> history.stream.pending_error() == Some(
            history.stream.write->Failed_0,
        ),
        history.stream.connect_error is None ==> history.stream.take_error().pending_error() is None,
{
}

/// A completion always finds the state and the reference that it takes over: the
/// stream counts as connecting when the operation that connects completes.
pub proof fn law_completions_are_expected(history: History, event: StreamEvent)
    requires
        history.valid(),
        history.allows(event),
        event.completes(),
    ensures
        history.retained >= 1,
        event is ConnectDone ==> history.stream.connecting,
        event is ReadDone ==> history.stream.read is Pending,
        event is WriteDone ==> history.stream.write is Pending,
{
}

/// Once connecting has ended, with or without an error, the stream becomes
/// writable, unless a write is in flight or one has failed before a shutdown: at
/// once, or as soon as the system has answered to the read that is started first,
/// other than that nobody is connected. The error that is then kept for `take_error`
/// says how it went: there is none exactly if the stream is connected.
pub proof fn law_connected_stream_is_writable(
    history: History,
    event: StreamEvent,
    scheduled: Result<(), IoError>,
)
    requires
        history.valid(),
        history.allows(event),
        event.connect_outcome() is Some,
        !(history.stream.write is Pending),
        history.stream.write is Failed ==> !history.shut,
    ensures
        ({
            let done = history.next(event);
            &&& done.stream.connect_error == match event.connect_outcome()->0 {
                Ok(_) => None,
                Err(e) => Some(e),
            }
            &&& match done.starting {
                Some(Effect::StartRead { ready, then_writable, .. }) => unconnected(scheduled)
                    || done.next(
                    StreamEvent::ReadScheduled { ready, then_writable, result: scheduled },
                ).stream.readiness.contains(write_event()),
                _ => done.stream.readiness.contains(write_event()),
            }
        }),
{
}

/// The call that completes the connection is made if the operation that connects
/// has succeeded, and in no other case. The first error of the two is the one that
/// is kept.
pub proof fn law_connect_is_completed_after_success(history: History, event: StreamEvent)
    requires
        history.valid(),
        history.allows(event),
    ensures
        event.step(history.stream).effects.contains(Effect::CompleteConnect) <==> event
            matches StreamEvent::ConnectDone(Ok(_)),
        event matches StreamEvent::ConnectDone(Ok(_)) ==> history.next(event).connect_completing
            && history.next(event).stream.connect_error is None,
        event matches StreamEvent::ConnectDone(Err(e)) ==> !history.next(event).connect_completing
            && history.next(event).stream.connect_error == Some(e),
        event matches StreamEvent::ConnectCompleted(Err(e)) ==> history.next(
            event,
        ).stream.connect_error == Some(e),
{
    if event matches StreamEvent::ConnectDone(Ok(_)) {
        assert(event.step(history.stream).effects[0] == Effect::<Set<int>, Seq<u8>, AddrView>::CompleteConnect);
    }
}

/// Where the system answers to the start of a read that nobody is connected, there
/// is no read, nothing is said to the event loop, and reading would block.
pub proof fn law_unconnected_stream_does_not_read(
    stream: StreamView,
    ready: Set<int>,
    then_writable: bool,
    result: Result<(), IoError>,
    room: nat,
)
    requires
        stream.read_starting(ready),
        unconnected(result),
    ensures
        stream.read_scheduled(ready, then_writable, result) == stream.rest(),
        stream.read is Idle,
        !stream.readiness.contains(read_event()),
        stream.serve_read(room).result == Err::<Seq<u8>, IoError>(IoError::WouldBlock),
{
}

/// The error of connecting is kept until it is asked for, and then handed out once.
pub proof fn law_connect_error_is_kept(history: History, event: StreamEvent)
    requires
        history.valid(),
        history.allows(event),
        history.stream.connect_error is Some,
    ensures
        history.next(event).stream.connect_error == if event is TakeError {
            None
        } else {
            history.stream.connect_error
        },
{
}

/// A live stream is served: while no operation is just being started, it has an
/// outcome of a read to hand out or a read in flight that will bring one, and unless
/// the connection was shut down it is said to be readable in the first case, and
/// writable if nothing waits to be written.
pub proof fn law_live_stream_is_served(history: History)
    requires
        history.valid(),
        history.live(),
        history.starting is None,
    ensures
        !(history.stream.read is Idle),
        !history.shut && !(history.stream.read is Pending) ==> history.stream.readiness.contains(
            read_event(),
        ),
        !history.shut && !(history.stream.write is Pending)
            ==> history.stream.readiness.contains(write_event()),
{
}

/// Once a request has used up the bytes that were read, or has handed out the error
/// of a read, the stream is not readable and the next read is started. The next
/// request would block, unless that read is refused: then it hands out the refusal,
/// other than that nobody is connected.
pub proof fn law_spent_read_starts_the_next(
    stream: StreamView,
    room: nat,
    answer: Result<(), IoError>,
    more: nat,
)
    requires
        stream.valid(),
        stream.registered,
        stream.read is Done || stream.read is Failed,
        stream.buffered().len() <= room,
    ensures
        ({
            let step = stream.serve_read(room).step;
            let answered = step.post.read_scheduled(stream.readiness, false, answer).post;
            &&& !step.post.readiness.contains(read_event())
            &&& started(step.effects) == Some(
                Effect::<Set<int>, Seq<u8>, AddrView>::StartRead {
                    size: READ_BUFFER_SIZE,
                    ready: stream.readiness,
                    then_writable: false,
                },
            )
            &&& answered.serve_read(more).result == match answer {
                Err(e) if !e.unconnected() => Err::<Seq<u8>, IoError>(e),
                _ => Err(IoError::WouldBlock),
            }
        }),
{
}

/// After a write was taken, the next one would block, whether the system takes the
/// first or refuses it; it does so until the first has completed or its error was
/// handed out.
pub proof fn law_second_write_would_block(
    stream: StreamView,
    bytes: Seq<u8>,
    answer: Result<(), IoError>,
    more: Seq<u8>,
)
    requires
        stream.registered,
        stream.write is Idle,
    ensures
        stream.serve_write(bytes).result == Ok::<nat, IoError>(bytes.len()),
        stream.serve_write(bytes).step.post.write_scheduled(bytes, 0, answer).post.serve_write(
            more,
        ).result == Err::<nat, IoError>(IoError::WouldBlock),
{
}

} // verus!
