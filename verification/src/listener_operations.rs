//! What each operation of a listener does, by what goes in and what comes out.
use vstd::prelude::*;

use crate::address::AddrView;
use crate::effect::{accept_trace, AcceptEffect, ListenerEffect, ListenerEffectView};
use crate::error::IoError;
use crate::listener::{made, takes};
use crate::listener_laws::{ListenerEvent, ListenerHistory};
use crate::listener_model::{AcceptStep, ListenerView};
use crate::net;
use crate::ready::{read_event, ready_events};
use crate::state::State;
use crate::stream_model::StreamView;

verus! {

/// The events that the event loop was last told of, where it was told of `before`
/// before these effects.
pub open spec fn told(before: Set<int>, effects: Seq<ListenerEffectView>) -> Set<int>
    decreases effects.len(),
{
    if effects.len() == 0 {
        before
    } else {
        match effects.last() {
            AcceptEffect::SetReadiness(events) => events,
            _ => told(before, effects.drop_last()),
        }
    }
}

/// The events that the event loop was last told of, after everything that has happened to a
/// listener.
pub open spec fn told_over(
    before: Set<int>,
    history: ListenerHistory,
    events: Seq<ListenerEvent>,
) -> Set<int>
    decreases events.len(),
{
    if events.len() == 0 {
        before
    } else {
        told_over(
            told(before, events[0].step(history.listener).effects),
            history.next(events[0]),
            events.drop_first(),
        )
    }
}

/// The event loop knows what a listener is ready for: after every step it was last told of
/// exactly the events that the listener holds itself ready for.
pub proof fn law_event_loop_is_told(history: ListenerHistory, event: ListenerEvent)
    requires
        history.valid(),
        history.allows(event),
    ensures
        told(history.listener.readiness, event.step(history.listener).effects) == event.step(
            history.listener,
        ).post.readiness,
{
    reveal_with_fuel(told, 4);
}

/// The event loop knows what a listener is ready for at every time, beginning with nothing.
pub proof fn law_event_loop_is_always_told(socket: usize, events: Seq<ListenerEvent>)
    requires
        ListenerHistory::fresh(socket).allows_all(events),
    ensures
        told_over(Set::empty(), ListenerHistory::fresh(socket), events) == ListenerHistory::fresh(
            socket,
        ).after(events).listener.readiness,
{
    let fresh = ListenerHistory::fresh(socket);
    crate::listener_laws::law_every_history_is_valid(socket, Seq::empty());
    assert(fresh.after(Seq::empty()) == fresh);
    lemma_told_over(fresh, events);
}

proof fn lemma_told_over(history: ListenerHistory, events: Seq<ListenerEvent>)
    requires
        history.valid(),
        history.allows_all(events),
    ensures
        told_over(history.listener.readiness, history, events) == history.after(
            events,
        ).listener.readiness,
    decreases events.len(),
{
    if events.len() > 0 {
        law_event_loop_is_told(history, events[0]);
        crate::listener_laws::law_events_keep_history_valid(history, events[0]);
        lemma_told_over(history.next(events[0]), events.drop_first());
    }
}

/// A listener starts with its socket, not registered, ready for nothing and without an accept.
pub proof fn law_fresh_listener_is_at_rest(socket: usize)
    ensures
        ({
            let listener = ListenerView::fresh(socket);
            &&& listener.socket == socket
            &&& !listener.registered
            &&& forall|event: int| !listener.readiness.contains(event)
            &&& listener.accept is Idle
            &&& listener.held().len() == 0
        }),
{
}

/// What happens to a listener touches nothing that it is not about: the socket stays, a
/// listener stays registered, and the state of the accept changes only by what happens to it.
pub proof fn law_events_touch_what_they_are_about(history: ListenerHistory, event: ListenerEvent)
    requires
        history.valid(),
        history.allows(event),
    ensures
        ({
            let pre = history.listener;
            let post = event.step(pre).post;
            &&& post.socket == pre.socket
            &&& post.registered <==> pre.registered || event is Register
            &&& event is Register || event is Reregister ==> post.accept == pre.accept
            &&& forall|other: int|
                other != read_event() ==> (post.readiness.contains(other)
                    <==> pre.readiness.contains(other))
        }),
{
}

/// The event loop is told that the listener is not readable, and a socket for the next
/// connection is asked for, which remembers what the listener was ready for.
pub open spec fn starts_the_next_accept(listener: ListenerView, step: AcceptStep) -> bool {
    &&& step.post.accept is Idle
    &&& step.effects.len() == 2
    &&& step.effects[0] == AcceptEffect::<Set<int>>::SetReadiness(step.post.readiness)
    &&& step.effects[1] == (AcceptEffect::<Set<int>>::MakeSocket { ready: listener.readiness })
    &&& forall|event: int|
        step.post.readiness.contains(event) <==> listener.readiness.contains(event) && event
            != read_event()
}

/// Registering a listener, for the first time or again, starts an accept if there is none,
/// neither one under way nor one whose outcome was not handed out. Otherwise nothing is said
/// and nothing is done.
pub proof fn law_registered_listener_accepts(listener: ListenerView)
    ensures
        listener.accept is Idle ==> starts_the_next_accept(listener, listener.register())
            && starts_the_next_accept(listener, listener.schedule_accept()),
        !(listener.accept is Idle) ==> {
            &&& listener.register().effects.len() == 0
            &&& listener.register().post.accept == listener.accept
            &&& listener.register().post.readiness == listener.readiness
            &&& listener.schedule_accept().effects.len() == 0
            &&& listener.schedule_accept().post == listener
        },
{
}

/// The error is kept, and the event loop is told that the listener is readable, besides what
/// it was ready for before the accept was asked for.
pub open spec fn keeps_the_refusal(
    ready: Set<int>,
    step: AcceptStep,
    told_at: int,
    error: IoError,
) -> bool {
    &&& step.post.accept == State::<usize, (StreamView, AddrView)>::Failed(error)
    &&& step.effects[told_at] == AcceptEffect::<Set<int>>::SetReadiness(step.post.readiness)
    &&& forall|event: int|
        step.post.readiness.contains(event) <==> ready.contains(event) || event == read_event()
}

/// When a socket was made, the accept is started on exactly that socket, and nothing is said
/// to the event loop yet. When none was made, the error is kept for whoever asks for a
/// connection.
pub proof fn law_made_socket_accepts(
    listener: ListenerView,
    ready: Set<int>,
    socket: Result<usize, IoError>,
)
    ensures
        ({
            let step = listener.socket_made(ready, socket);
            &&& step.effects.len() == 1
            &&& match socket {
                Ok(raw) => {
                    &&& step.effects[0] == (AcceptEffect::<Set<int>>::StartAccept {
                        ready,
                        socket: raw,
                    })
                    &&& step.post == listener
                },
                Err(e) => keeps_the_refusal(ready, step, 0, e),
            }
        }),
{
}

/// An accept that the system has taken is in flight on its socket, and one reference is kept
/// for it. One that the system has refused leaves its error for whoever asks for a connection,
/// and its socket is closed.
pub proof fn law_answer_to_an_accept_is_kept(
    listener: ListenerView,
    ready: Set<int>,
    socket: usize,
    taken: Result<(), IoError>,
)
    ensures
        ({
            let step = listener.accept_scheduled(ready, socket, taken);
            match taken {
                Ok(_) => {
                    &&& step.effects.len() == 1
                    &&& step.effects[0] is Retain
                    &&& step.post.accept == State::<usize, (StreamView, AddrView)>::Pending(socket)
                    &&& step.post.readiness == listener.readiness
                },
                Err(e) => {
                    &&& step.effects.len() == 2
                    &&& step.effects[0] == AcceptEffect::<Set<int>>::Close(socket)
                    &&& keeps_the_refusal(ready, step, 1, e)
                },
            }
        }),
{
}

/// When an accept has completed, the address of the peer is asked for if the connection could
/// be completed, and nothing else happens until it is known. Otherwise that error is the outcome.
pub proof fn law_completed_accept_asks_for_the_peer(
    listener: ListenerView,
    socket: usize,
    completed: Result<(), IoError>,
)
    requires
        listener.accept == State::<usize, (StreamView, AddrView)>::Pending(socket),
    ensures
        match completed {
            Ok(_) => {
                &&& listener.accept_done(completed).post == listener
                &&& listener.accept_done(completed).effects.len() == 1
                &&& listener.accept_done(completed).effects[0] is ReadRemote
            },
            Err(e) => fails_to_accept(listener, listener.accept_done(completed), socket, e),
        },
{
}

/// The error is kept, the event loop is told that the listener is readable, besides what it
/// was ready for before, and then the socket is closed.
pub open spec fn fails_to_accept(
    listener: ListenerView,
    step: AcceptStep,
    socket: usize,
    error: IoError,
) -> bool {
    &&& step.effects.len() == 2
    &&& keeps_the_refusal(listener.readiness, step, 0, error)
    &&& step.effects[1] == AcceptEffect::<Set<int>>::Close(socket)
}

/// When the peer is known, the connection waits to be handed out, as a stream on its own socket
/// that is at rest and connected, with exactly that peer; the event loop is told, once, that the
/// listener is readable. When it is not known, the error is kept and the socket is closed.
pub proof fn law_accepted_connection_is_announced(
    listener: ListenerView,
    socket: usize,
    outcome: Result<Option<AddrView>, IoError>,
)
    requires
        listener.accept == State::<usize, (StreamView, AddrView)>::Pending(socket),
    ensures
        ({
            let step = listener.accept_parsed(outcome);
            match outcome {
                Ok(Some(addr)) => {
                    &&& step.effects.len() == 1
                    &&& step.effects[0] == AcceptEffect::<Set<int>>::SetReadiness(
                        step.post.readiness,
                    )
                    &&& forall|event: int|
                        step.post.readiness.contains(event) <==> listener.readiness.contains(event)
                            || event == read_event()
                    &&& step.post.accept matches State::Done((stream, peer))
                    &&& peer == addr
                    &&& stream.socket == socket
                    &&& !stream.registered && !stream.connecting
                    &&& stream.read is Idle && stream.write is Idle
                    &&& stream.deferred_connect is None && stream.connect_error is None
                    &&& forall|event: int| !stream.readiness.contains(event)
                },
                Ok(None) => fails_to_accept(listener, step, socket, IoError::NoRemoteAddress),
                Err(e) => fails_to_accept(listener, step, socket, e),
            }
        }),
{
}

/// A request on a registered listener hands out the connection or the error that waits there,
/// as it is, and starts the next accept. Every other request is answered with `WouldBlock`, and
/// changes nothing.
pub proof fn law_accept_hands_out_what_waits(listener: ListenerView)
    ensures
        match listener.accept {
            State::Done((stream, addr)) if listener.registered => {
                &&& listener.serve_accept().result == Ok::<(StreamView, AddrView), IoError>(
                    (stream, addr),
                )
                &&& starts_the_next_accept(listener, listener.serve_accept().step)
            },
            State::Failed(e) if listener.registered => {
                &&& listener.serve_accept().result == Err::<(StreamView, AddrView), IoError>(e)
                &&& starts_the_next_accept(listener, listener.serve_accept().step)
            },
            _ => {
                &&& listener.serve_accept().result == Err::<(StreamView, AddrView), IoError>(
                    IoError::WouldBlock,
                )
                &&& listener.serve_accept().step.post == listener
                &&& listener.serve_accept().step.effects.len() == 0
            },
        },
{
}

/// A listener that goes away cancels an accept exactly if one is in flight, and does nothing
/// else. Besides its own socket it leaves that of a connection which was not handed out, and no
/// other, to be closed.
pub proof fn law_dropped_listener_cancels_its_accept(listener: ListenerView)
    ensures
        listener.drop_effects().len() == if listener.accept is Pending {
            1nat
        } else {
            0
        },
        listener.accept is Pending ==> listener.drop_effects()[0] is CancelAccept,
        match listener.accept {
            State::Pending(raw) => listener.held().len() == 1 && listener.held()[0] == raw,
            State::Done((stream, _)) => listener.held().len() == 1 && listener.held()[0]
                == stream.socket,
            _ => listener.held().len() == 0,
        },
{
}

/// The driver is handed the effects of a step, all of them, in their order, and with everything
/// that they hold.
pub proof fn law_driver_gets_the_effects(
    step: AcceptStep,
    post: ListenerView,
    effects: Seq<ListenerEffect>,
)
    requires
        takes(step, post, effects),
    ensures
        post == step.post,
        effects.len() == step.effects.len(),
        forall|i: int|
            #![trigger effects[i]]
            0 <= i < effects.len() ==> match step.effects[i] {
                AcceptEffect::SetReadiness(events) => {
                    &&& effects[i] matches AcceptEffect::SetReadiness(ready)
                    &&& ready_events(ready) == events
                },
                AcceptEffect::Retain => effects[i] is Retain,
                AcceptEffect::MakeSocket { ready } => {
                    &&& effects[i] matches AcceptEffect::MakeSocket { ready: r }
                    &&& ready_events(r) == ready
                },
                AcceptEffect::StartAccept { ready, socket } => {
                    &&& effects[i] matches AcceptEffect::StartAccept { ready: r, socket: s }
                    &&& ready_events(r) == ready
                    &&& s == socket
                },
                AcceptEffect::ReadRemote => effects[i] is ReadRemote,
                AcceptEffect::CancelAccept => effects[i] is CancelAccept,
                AcceptEffect::Close(socket) => effects[i] matches AcceptEffect::Close(s) && s
                    == socket,
            },
{
    assert forall|i: int| #![trigger effects[i]] 0 <= i < effects.len() implies effects[i]@
        == step.effects[i] by {
        assert(accept_trace(effects)[i] == step.effects[i]);
    }
}

/// The outcome of making a socket is the number of that socket, or the error.
pub proof fn law_outcome_shows_the_socket(socket: Result<net::UnixStream, IoError>)
    ensures
        match socket {
            Ok(stream) => made(socket) == Ok::<usize, IoError>(stream@),
            Err(e) => made(socket) == Err::<usize, IoError>(e),
        },
{
}

} // verus!
