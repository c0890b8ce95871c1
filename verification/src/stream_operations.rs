//! What each operation of a stream does, by what goes in and what comes out.
use vstd::prelude::*;

use crate::address::{AddrView, SocketAddr};
use crate::effect::{trace, Effect, StreamEffect, StreamEffectView};
use crate::error::IoError;
use crate::ready::{read_event, ready_events, write_event};
use crate::state::State;
use crate::stream::{addr_view, takes};
use crate::stream_laws::{History, StreamEvent};
use crate::stream_model::{Step, StreamView};
use crate::task::{answered, run, Goal, Progress, Reply, Stage, TaskView};
use crate::task_laws::law_deferred_task_makes_a_nonblocking_socket;

verus! {

/// The events that the event loop was last told of, where it was told of `before`
/// before these effects.
pub open spec fn told(before: Set<int>, effects: Seq<StreamEffectView>) -> Set<int>
    decreases effects.len(),
{
    if effects.len() == 0 {
        before
    } else {
        match effects.last() {
            Effect::SetReadiness(events) => events,
            _ => told(before, effects.drop_last()),
        }
    }
}

/// The events that the event loop was last told of, after everything that has
/// happened to a stream.
pub open spec fn told_over(before: Set<int>, history: History, events: Seq<StreamEvent>) -> Set<int>
    decreases events.len(),
{
    if events.len() == 0 {
        before
    } else {
        told_over(
            told(before, events[0].step(history.stream).effects),
            history.next(events[0]),
            events.drop_first(),
        )
    }
}

/// The addresses that the effects start to connect to.
pub open spec fn connects(effects: Seq<StreamEffectView>) -> Seq<AddrView>
    decreases effects.len(),
{
    if effects.len() == 0 {
        Seq::empty()
    } else {
        match effects.last() {
            Effect::StartConnect(addr) => connects(effects.drop_last()).push(addr),
            _ => connects(effects.drop_last()),
        }
    }
}

/// The addresses that a stream starts to connect to, over everything that happens to
/// it.
pub open spec fn connects_over(history: History, events: Seq<StreamEvent>) -> Seq<AddrView>
    decreases events.len(),
{
    if events.len() == 0 {
        Seq::empty()
    } else {
        connects(events[0].step(history.stream).effects) + connects_over(
            history.next(events[0]),
            events.drop_first(),
        )
    }
}

/// The event loop knows what a stream is ready for: after every step it was last told
/// of exactly the events that the stream holds itself ready for.
pub proof fn law_event_loop_is_told(history: History, event: StreamEvent)
    requires
        history.allows(event),
    ensures
        told(history.stream.readiness, event.step(history.stream).effects) == event.step(
            history.stream,
        ).post.readiness,
{
    reveal_with_fuel(told, 4);
}

/// The event loop knows what a stream is ready for at every time, beginning with
/// nothing.
pub proof fn law_event_loop_is_always_told(
    socket: usize,
    addr: Option<AddrView>,
    events: Seq<StreamEvent>,
)
    requires
        History::fresh(socket, addr).allows_all(events),
    ensures
        told_over(Set::empty(), History::fresh(socket, addr), events) == History::fresh(
            socket,
            addr,
        ).after(events).stream.readiness,
{
    lemma_told_over(History::fresh(socket, addr), events);
}

proof fn lemma_told_over(history: History, events: Seq<StreamEvent>)
    requires
        history.allows_all(events),
    ensures
        told_over(history.stream.readiness, history, events) == history.after(
            events,
        ).stream.readiness,
    decreases events.len(),
{
    if events.len() > 0 {
        law_event_loop_is_told(history, events[0]);
        lemma_told_over(history.next(events[0]), events.drop_first());
    }
}

/// A stream that was made for an address starts to connect when it is first
/// registered, to that very address and to no other. It never does so again, and a
/// stream that was made without an address never does so at all.
pub proof fn law_stream_connects_to_its_address(
    socket: usize,
    addr: Option<AddrView>,
    events: Seq<StreamEvent>,
)
    requires
        History::fresh(socket, addr).allows_all(events),
    ensures
        connects_over(History::fresh(socket, addr), events) == match addr {
            Some(a) if events.contains(StreamEvent::Register) => seq![a],
            _ => Seq::empty(),
        },
{
    lemma_connects_over(History::fresh(socket, addr), events);
}

proof fn lemma_connects_over(history: History, events: Seq<StreamEvent>)
    requires
        history.allows_all(events),
    ensures
        connects_over(history, events) == match history.stream.deferred_connect {
            Some(a) if events.contains(StreamEvent::Register) => seq![a],
            _ => Seq::empty(),
        },
    decreases events.len(),
{
    if events.len() > 0 {
        reveal_with_fuel(connects, 4);
        let rest = events.drop_first();
        lemma_connects_over(history.next(events[0]), rest);
        if rest.contains(StreamEvent::Register) {
            let i = rest.index_of(StreamEvent::Register);
            assert(events[i + 1] == StreamEvent::Register);
        }
        if events.contains(StreamEvent::Register) && events[0] != StreamEvent::Register {
            let i = events.index_of(StreamEvent::Register);
            assert(rest[i - 1] == StreamEvent::Register);
        }
        assert(connects_over(history, events) =~= match history.stream.deferred_connect {
            Some(a) if events.contains(StreamEvent::Register) => seq![a],
            _ => Seq::empty(),
        });
    }
}

/// A stream that connects to a path starts, when it is registered, the one operation
/// that connects its socket to the address of exactly that path.
pub proof fn law_connect_reaches_the_path(
    path: Seq<u8>,
    start: Progress<usize, AddrView, TaskView>,
    replies: Seq<Reply>,
)
    requires
        start matches Progress::Next(_, task) && task == (TaskView {
            goal: Goal::Deferred(path),
            stage: Stage::Create,
        }),
        answered(start, replies),
        run(start, replies) is Complete,
        path.len() > 0,
    ensures
        ({
            let socket = run(start, replies)->Complete_0;
            let addr = run(start, replies)->Complete_1;
            let step = StreamView::fresh(socket, addr, true).register();
            &&& step.post.socket == socket
            &&& step.post.registered
            &&& step.post.connecting
            &&& step.post.deferred_connect is None
            &&& step.effects.len() == 1
            &&& step.effects[0] matches Effect::StartConnect(a)
            &&& a.family == 1
            &&& a.pathname() == Some(path)
        }),
{
    law_deferred_task_makes_a_nonblocking_socket(path, start, replies);
}

/// A stream starts with its socket and its address, not registered, ready for
/// nothing, with no operation and no error.
pub proof fn law_fresh_stream_is_at_rest(socket: usize, addr: Option<AddrView>, connecting: bool)
    ensures
        ({
            let stream = StreamView::fresh(socket, addr, connecting);
            &&& stream.socket == socket
            &&& stream.deferred_connect == addr
            &&& stream.connecting == connecting
            &&& !stream.registered
            &&& forall|event: int| !stream.readiness.contains(event)
            &&& stream.read is Idle
            &&& stream.write is Idle
            &&& stream.connect_error is None
            &&& stream.pending_error() is None
        }),
{
}

/// What happens to a stream touches nothing that it is not about: the socket stays,
/// a stream stays registered, its address goes with the first registration, it stops
/// connecting when that operation completes, and an error of connecting comes and
/// goes only with the events that bring it and take it. Each half changes only by
/// what happens to that half.
pub proof fn law_events_touch_what_they_are_about(history: History, event: StreamEvent)
    requires
        history.allows(event),
    ensures
        ({
            let pre = history.stream;
            let post = event.step(pre).post;
            &&& post.socket == pre.socket
            &&& post.registered <==> pre.registered || event is Register
            &&& post.deferred_connect == if event is Register {
                None
            } else {
                pre.deferred_connect
            }
            &&& post.connecting <==> pre.connecting && !(event is ConnectDone)
            &&& post.connect_error == match event {
                StreamEvent::ConnectDone(Err(e)) => Some(e),
                StreamEvent::ConnectCompleted(Err(e)) => Some(e),
                StreamEvent::TakeError => None,
                _ => pre.connect_error,
            }
            &&& !(event is ReadScheduled || event is ReadDone || event is Read) ==> post.read
                == pre.read
            &&& !(event is WriteScheduled || event is WriteDone || event is TakeError)
                ==> post.write == pre.write
            &&& forall|other: int|
                other != read_event() && other != write_event() && !(event is ShutdownDone) && !(
                event is ReadScheduled) ==> (post.readiness.contains(other)
                    <==> pre.readiness.contains(other))
            &&& event is Write || event is WriteScheduled || event is WriteDone ==> (
            post.readiness.contains(read_event()) <==> pre.readiness.contains(read_event()))
            &&& event is Read || event is ReadDone ==> (post.readiness.contains(write_event())
                <==> pre.readiness.contains(write_event()))
            &&& event is TakeError || event is ConnectScheduled ==> post.readiness == pre.readiness
        }),
{
}

/// Serving a stream, after it was registered or connected: where there is no read, it
/// stops being readable, and one of eight kibibytes is started, which remembers what the
/// stream was ready for and offers it for writing afterwards. Otherwise the stream
/// becomes writable at once, unless something was written that is not settled.
pub proof fn law_served_stream_reads_and_offers_writing(stream: StreamView)
    ensures
        ({
            let step = stream.post_register();
            if stream.read is Idle {
                &&& step.effects.len() == 2
                &&& step.effects[0] == Effect::<Set<int>, Seq<u8>, AddrView>::SetReadiness(
                    step.post.readiness,
                )
                &&& step.effects[1] matches Effect::StartRead { size, ready, then_writable }
                &&& size == 8 * 1024
                &&& ready == stream.readiness
                &&& then_writable
                &&& forall|event: int|
                    step.post.readiness.contains(event) <==> stream.readiness.contains(event)
                        && event != read_event()
            } else if stream.write is Idle {
                &&& step.effects.len() == 1
                &&& step.effects[0] == Effect::<Set<int>, Seq<u8>, AddrView>::SetReadiness(
                    step.post.readiness,
                )
                &&& forall|event: int|
                    step.post.readiness.contains(event) <==> stream.readiness.contains(event)
                        || event == write_event()
            } else {
                &&& step.effects.len() == 0
                &&& step.post.readiness == stream.readiness
            }
        }),
{
}

/// Registering a stream that has no address serves it as registering it again does.
/// With an address it does nothing but start to connect: neither a read is started nor
/// is anything said to the event loop until it is known how that went.
pub proof fn law_registration_serves_or_connects(stream: StreamView)
    ensures
        stream.deferred_connect is None ==> stream.register().effects
            == stream.post_register().effects && stream.register().post.readiness
            == stream.post_register().post.readiness,
        stream.deferred_connect matches Some(addr) ==> {
            &&& stream.register().effects.len() == 1
            &&& stream.register().effects[0] == Effect::<Set<int>, Seq<u8>, AddrView>::StartConnect(
                addr,
            )
            &&& stream.register().post.readiness == stream.readiness
        },
{
}

/// One reference is kept for the operation that connects if the system has taken it,
/// and none otherwise. When it has succeeded, the one thing to do is to complete the
/// connection. When it has failed, and when the connection was completed or could not
/// be, the stream is served as after a registration.
pub proof fn law_connecting_ends_in_service(stream: StreamView, result: Result<(), IoError>)
    ensures
        stream.connect_scheduled(result).effects.len() == if result is Ok {
            1nat
        } else {
            0
        },
        result is Ok ==> stream.connect_scheduled(result).effects[0] is Retain,
        result is Ok ==> stream.connect_done(result).effects.len() == 1 && stream.connect_done(
            result,
        ).effects[0] is CompleteConnect && stream.connect_done(result).post.readiness
            == stream.readiness,
        result is Err ==> stream.connect_done(result).effects == stream.post_register().effects
            && stream.connect_done(result).post.readiness == stream.post_register().post.readiness,
        stream.connect_completed(result).effects == stream.post_register().effects,
        stream.connect_completed(result).post.readiness == stream.post_register().post.readiness,
{
}

/// A read that the system has taken is in flight with a buffer of eight kibibytes, and one
/// reference is kept for it. One that the system has refused leaves its error, and the
/// event loop is told that the stream is readable, besides what it was ready for before.
/// Either way the stream is then offered for writing if that was asked for and nothing
/// was written. Where nobody is connected, nothing of this happens.
pub proof fn law_answer_to_a_read_is_kept(
    stream: StreamView,
    ready: Set<int>,
    then_writable: bool,
    result: Result<(), IoError>,
)
    ensures
        ({
            let step = stream.read_scheduled(ready, then_writable, result);
            let offers = then_writable && stream.write is Idle;
            match result {
                Ok(_) => {
                    &&& step.post.read matches State::Pending(size)
                    &&& size == 8 * 1024
                    &&& step.effects.len() == 1 + if offers {
                        1int
                    } else {
                        0
                    }
                    &&& step.effects[0] is Retain
                    &&& offers ==> step.effects[1] == Effect::<
                        Set<int>,
                        Seq<u8>,
                        AddrView,
                    >::SetReadiness(step.post.readiness)
                    &&& forall|event: int|
                        step.post.readiness.contains(event) <==> stream.readiness.contains(event)
                            || offers && event == write_event()
                },
                Err(IoError::Os(536)) => {
                    &&& step.post == stream
                    &&& step.effects.len() == 0
                },
                Err(e) => {
                    &&& step.post.read matches State::Failed(kept)
                    &&& kept == e
                    &&& step.effects.len() == 1 + if offers {
                        1int
                    } else {
                        0
                    }
                    &&& step.effects[0] matches Effect::SetReadiness(first)
                    &&& forall|event: int|
                        first.contains(event) <==> ready.contains(event) || event == read_event()
                    &&& offers ==> step.effects[1] == Effect::<
                        Set<int>,
                        Seq<u8>,
                        AddrView,
                    >::SetReadiness(step.post.readiness)
                    &&& forall|event: int|
                        step.post.readiness.contains(event) <==> first.contains(event) || offers
                            && event == write_event()
                },
            }
        }),
{
}

/// Every read that completes, with bytes or with an error, is announced: the event loop
/// is told, once, that the stream is readable, besides what it was ready for before.
/// Nothing else is done. The next request gets the first of the bytes, as many as there
/// are and as there is room for, or that very error.
pub proof fn law_completed_read_is_announced(
    stream: StreamView,
    result: Result<Seq<u8>, IoError>,
    room: nat,
)
    requires
        result matches Ok(data) ==> data.len() <= usize::MAX,
    ensures
        ({
            let post = stream.read_done(result).post;
            match result {
                Ok(data) => {
                    &&& post.read == State::<usize, (Seq<u8>, usize)>::Done((data, 0))
                    &&& stream.registered ==> {
                        &&& post.serve_read(room).result matches Ok(bytes)
                        &&& bytes.is_prefix_of(data)
                        &&& bytes.len() == room || bytes == data
                    }
                },
                Err(e) => {
                    &&& post.read == State::<usize, (Seq<u8>, usize)>::Failed(e)
                    &&& stream.registered ==> post.serve_read(room).result == Err::<
                        Seq<u8>,
                        IoError,
                    >(e)
                },
            }
        }),
        ({
            let step = stream.read_done(result);
            &&& step.effects.len() == 1
            &&& step.effects[0] matches Effect::SetReadiness(events)
            &&& events == step.post.readiness
            &&& forall|event: int|
                events.contains(event) <==> stream.readiness.contains(event) || event
                    == read_event()
        }),
{
    if let Ok(data) = result {
        if stream.registered {
            let bytes = stream.read_done(result).post.serve_read(room).result->Ok_0;
            assert(bytes =~= data.take(bytes.len() as int));
            if data.len() <= room {
                assert(bytes =~= data);
            }
        }
    }
}

/// The bytes of a read that has completed are handed out from the first to the last, in
/// as many requests as it takes: two requests for `first` and `second` bytes give what
/// one request for both would give, and a request with enough room gives all of them.
pub proof fn law_reads_hand_out_what_came(
    stream: StreamView,
    data: Seq<u8>,
    first: nat,
    second: nat,
)
    requires
        stream.registered,
        data.len() <= usize::MAX,
        first < data.len(),
    ensures
        ({
            let done = stream.read_done(Ok(data)).post;
            let one = done.serve_read(first);
            let two = one.step.post.serve_read(second);
            &&& one.result matches Ok(head)
            &&& head == data.take(first as int)
            &&& one.step.effects.len() == 0
            &&& one.step.post.readiness == done.readiness
            &&& two.result matches Ok(tail)
            &&& first + second <= data.len() ==> head + tail == data.take((first + second) as int)
            &&& first + second > data.len() ==> head + tail == data
        }),
        data.len() <= second ==> stream.read_done(Ok(data)).post.serve_read(second).result == Ok::<
            Seq<u8>,
            IoError,
        >(data),
{
    let done = stream.read_done(Ok(data)).post;
    let one = done.serve_read(first);
    let two = one.step.post.serve_read(second);
    assert(one.result->Ok_0 =~= data.take(first as int));
    if first + second <= data.len() {
        assert(one.result->Ok_0 + two.result->Ok_0 =~= data.take((first + second) as int));
    } else {
        assert(one.result->Ok_0 + two.result->Ok_0 =~= data);
    }
    if data.len() <= second {
        assert(done.serve_read(second).result->Ok_0 =~= data);
    }
}

/// A request on a registered stream that has bytes gives the next ones, as many as there
/// are and as there is room for, and moves on by that many.
pub proof fn law_read_gives_the_next_bytes(
    stream: StreamView,
    data: Seq<u8>,
    cur: usize,
    room: nat,
)
    requires
        stream.registered,
        stream.read == State::<usize, (Seq<u8>, usize)>::Done((data, cur)),
        cur <= data.len() <= usize::MAX,
    ensures
        ({
            let served = stream.serve_read(room);
            &&& served.result matches Ok(bytes)
            &&& bytes.len() <= room
            &&& bytes.len() <= data.len() - cur
            &&& bytes.len() == room || bytes.len() == data.len() - cur
            &&& forall|i: int| 0 <= i < bytes.len() ==> bytes[i] == data[cur + i]
            &&& cur + bytes.len() < data.len() ==> {
                &&& served.step.post.read == State::<usize, (Seq<u8>, usize)>::Done(
                    (data, (cur + bytes.len()) as usize),
                )
                &&& served.step.post.readiness == stream.readiness
                &&& served.step.effects.len() == 0
            }
            &&& cur + bytes.len() == data.len() ==> starts_the_next_read(stream, served.step)
        }),
{
}

/// The outcome of the last read is gone, the event loop is told that the stream is not
/// readable, and the next read is started.
pub open spec fn starts_the_next_read(stream: StreamView, step: Step) -> bool {
    &&& step.post.read is Idle
    &&& step.effects.len() == 2
    &&& step.effects[0] == Effect::<Set<int>, Seq<u8>, AddrView>::SetReadiness(step.post.readiness)
    &&& step.effects[1] matches Effect::StartRead { size, ready, then_writable }
    &&& size == 8 * 1024
    &&& ready == stream.readiness
    &&& !then_writable
    &&& forall|event: int|
        step.post.readiness.contains(event) <==> stream.readiness.contains(event) && event
            != read_event()
}

/// The error of a read is handed out by the next request, and the next read is started.
/// Every other request, on a stream that is not registered or has no outcome of a read,
/// is answered with `WouldBlock`, and changes nothing.
pub proof fn law_read_without_bytes_fails(stream: StreamView, room: nat)
    requires
        !stream.registered || !(stream.read is Done),
    ensures
        stream.registered && stream.read is Failed ==> stream.serve_read(room).result == Err::<
            Seq<u8>,
            IoError,
        >(stream.read->Failed_0) && starts_the_next_read(stream, stream.serve_read(room).step),
        !(stream.registered && stream.read is Failed) ==> stream.serve_read(room).result == Err::<
            Seq<u8>,
            IoError,
        >(IoError::WouldBlock) && stream.serve_read(room).step.post == stream && stream.serve_read(
            room,
        ).step.effects.len() == 0,
{
}

/// A write is taken as a whole if the stream is registered and nothing was written that
/// is not settled: the event loop is told that the stream is not writable, and the write
/// of exactly these bytes is started. Otherwise it is answered with `WouldBlock`, and
/// changes nothing.
pub proof fn law_write_is_taken_whole_or_not(stream: StreamView, bytes: Seq<u8>)
    ensures
        stream.registered && stream.write is Idle ==> {
            let served = stream.serve_write(bytes);
            &&& served.result == Ok::<nat, IoError>(bytes.len())
            &&& starts_a_write(stream, served.step, bytes)
        },
        !(stream.registered && stream.write is Idle) ==> {
            let served = stream.serve_write(bytes);
            &&& served.result == Err::<nat, IoError>(IoError::WouldBlock)
            &&& served.step.post == stream
            &&& served.step.effects.len() == 0
        },
{
    assert(bytes.skip(0) =~= bytes);
}

/// The event loop is told that the stream is not writable, and a write of exactly these
/// bytes is started.
pub open spec fn starts_a_write(stream: StreamView, step: Step, bytes: Seq<u8>) -> bool {
    &&& step.post.write is Idle
    &&& step.effects.len() == 2
    &&& step.effects[0] == Effect::<Set<int>, Seq<u8>, AddrView>::SetReadiness(step.post.readiness)
    &&& step.effects[1] matches Effect::StartWrite { buf, pos }
    &&& pos <= buf.len()
    &&& buf.skip(pos as int) == bytes
    &&& forall|event: int|
        step.post.readiness.contains(event) <==> stream.readiness.contains(event) && event
            != write_event()
}

/// A write that the system has taken is in flight as it was started, and one reference is
/// kept for it. One that the system has refused leaves its error, and the event loop is
/// told that the stream is writable, besides what it was ready for before.
pub proof fn law_answer_to_a_write_is_kept(
    stream: StreamView,
    buf: Seq<u8>,
    pos: usize,
    result: Result<(), IoError>,
)
    ensures
        ({
            let step = stream.write_scheduled(buf, pos, result);
            &&& step.effects.len() == 1
            &&& match result {
                Ok(_) => {
                    &&& step.post.write == State::<(Seq<u8>, usize), (Seq<u8>, usize)>::Pending(
                        (buf, pos),
                    )
                    &&& step.effects[0] is Retain
                    &&& step.post.readiness == stream.readiness
                },
                Err(e) => fails_to_write(stream, step, e),
            }
        }),
{
}

/// The error of a write is kept, and the event loop is told that the stream is writable,
/// besides what it was ready for before.
pub open spec fn fails_to_write(stream: StreamView, step: Step, error: IoError) -> bool {
    &&& step.post.write == State::<(Seq<u8>, usize), (Seq<u8>, usize)>::Failed(error)
    &&& becomes_writable(stream, step)
}

/// The event loop is told that the stream is writable, besides what it was ready for
/// before.
pub open spec fn becomes_writable(stream: StreamView, step: Step) -> bool {
    &&& step.effects.len() == 1
    &&& step.effects[0] == Effect::<Set<int>, Seq<u8>, AddrView>::SetReadiness(step.post.readiness)
    &&& forall|event: int|
        step.post.readiness.contains(event) <==> stream.readiness.contains(event) || event
            == write_event()
}

/// When a write completes, the bytes that it has written are done with: if none are left,
/// the stream becomes writable, and otherwise a write of exactly the bytes that are left
/// is started. If it has failed, its error is kept.
pub proof fn law_completed_write_goes_on_with_the_rest(
    stream: StreamView,
    buf: Seq<u8>,
    pos: usize,
    result: Result<usize, IoError>,
)
    requires
        stream.write == State::<(Seq<u8>, usize), (Seq<u8>, usize)>::Pending((buf, pos)),
        pos <= buf.len() <= usize::MAX,
        result matches Ok(n) ==> pos + n <= buf.len(),
    ensures
        ({
            let step = stream.write_done(result);
            let left = buf.skip(pos as int);
            match result {
                Ok(n) if n == left.len() => step.post.write is Idle && becomes_writable(
                    stream,
                    step,
                ),
                Ok(n) => starts_a_write(stream, step, left.skip(n as int)),
                Err(e) => fails_to_write(stream, step, e),
            }
        }),
{
    if let Ok(n) = result {
        assert(buf.skip(pos as int).skip(n as int) =~= buf.skip(pos + n));
    }
}

/// A shutdown that was done is told to the event loop, which then takes the stream to be
/// ready for nothing. One that was refused changes nothing. Neither touches the operations
/// in flight.
pub proof fn law_shutdown_takes_readiness_away(stream: StreamView, result: Result<(), IoError>)
    ensures
        ({
            let step = stream.shutdown_done(result);
            match result {
                Ok(_) => {
                    &&& step.effects.len() == 1
                    &&& step.effects[0] == Effect::<Set<int>, Seq<u8>, AddrView>::SetReadiness(
                        step.post.readiness,
                    )
                    &&& forall|event: int| !step.post.readiness.contains(event)
                    &&& step.post.read == stream.read
                    &&& step.post.write == stream.write
                },
                Err(_) => {
                    &&& step.effects.len() == 0
                    &&& step.post == stream
                },
            }
        }),
{
}

/// `take_error` hands out the error of connecting before that of a write, and each of them
/// once: asking as often as there are errors hands out all of them, and then there is none.
/// A write that has failed is settled when its error was handed out, and not before.
/// Nothing else changes.
pub proof fn law_errors_are_taken_one_by_one(stream: StreamView)
    ensures
        ({
            let post = stream.take_error();
            &&& match (stream.connect_error, stream.write) {
                (Some(e), _) => {
                    &&& stream.pending_error() == Some(e)
                    &&& post.write == stream.write
                    &&& post.pending_error() == match stream.write {
                        State::Failed(w) => Some(w),
                        _ => None,
                    }
                },
                (None, State::Failed(e)) => {
                    &&& stream.pending_error() == Some(e)
                    &&& post.write is Idle
                    &&& post.pending_error() is None
                },
                _ => {
                    &&& stream.pending_error() is None
                    &&& post == stream
                },
            }
            &&& post.connect_error is None
            &&& post.socket == stream.socket
            &&& post.registered == stream.registered
            &&& post.readiness == stream.readiness
            &&& post.connecting == stream.connecting
            &&& post.read == stream.read
            &&& post.deferred_connect == stream.deferred_connect
        }),
{
}

/// A stream that goes away cancels the operation that connects exactly if it is on its way
/// to be connected, and the read exactly if one is in flight. It never cancels a write, and
/// does nothing else.
pub proof fn law_dropped_stream_cancels_reads_and_connects(stream: StreamView)
    ensures
        ({
            let effects = stream.drop_effects();
            &&& stream.connecting <==> exists|i: int|
                0 <= i < effects.len() && effects[i] is CancelConnect
            &&& stream.read is Pending <==> exists|i: int|
                0 <= i < effects.len() && effects[i] is CancelRead
            &&& forall|i: int|
                0 <= i < effects.len() ==> effects[i] is CancelConnect || effects[i] is CancelRead
            &&& forall|i: int, j: int|
                0 <= i < j < effects.len() ==> effects[i] is CancelConnect && effects[j]
                    is CancelRead
        }),
{
    let effects = stream.drop_effects();
    if stream.connecting {
        assert(effects[0] is CancelConnect);
    }
    if stream.read is Pending {
        assert(effects[effects.len() - 1] is CancelRead);
    }
}

/// An address shows what it holds, and no address is shown where there is none.
pub proof fn law_address_is_shown_if_there_is_one(addr: Option<SocketAddr>)
    ensures
        match addr {
            Some(a) => addr_view(addr) == Some(a@),
            None => addr_view(addr) is None,
        },
{
}

/// The driver is handed the effects of a step, all of them, in their order, and with
/// everything that they hold.
pub proof fn law_driver_gets_the_effects(step: Step, post: StreamView, effects: Seq<StreamEffect>)
    requires
        takes(step, post, effects),
    ensures
        post == step.post,
        effects.len() == step.effects.len(),
        forall|i: int|
            #![trigger effects[i]]
            0 <= i < effects.len() ==> match step.effects[i] {
                Effect::SetReadiness(events) => effects[i] matches Effect::SetReadiness(ready)
                    && ready_events(ready) == events,
                Effect::Retain => effects[i] is Retain,
                Effect::StartConnect(a) => effects[i] matches Effect::StartConnect(addr) && addr@
                    == a,
                Effect::CompleteConnect => effects[i] is CompleteConnect,
                Effect::StartRead { size, ready, then_writable } => {
                    &&& effects[i] matches Effect::StartRead {
                        size: s,
                        ready: r,
                        then_writable: t,
                    }
                    &&& s == size
                    &&& ready_events(r) == ready
                    &&& t == then_writable
                },
                Effect::StartWrite { buf, pos } => {
                    &&& effects[i] matches Effect::StartWrite { buf: b, pos: p }
                    &&& b@ == buf
                    &&& p == pos
                },
                Effect::CancelConnect => effects[i] is CancelConnect,
                Effect::CancelRead => effects[i] is CancelRead,
            },
{
    assert forall|i: int| #![trigger effects[i]] 0 <= i < effects.len() implies effects[i]@
        == step.effects[i] by {
        assert(trace(effects)[i] == step.effects[i]);
    }
}

} // verus!
