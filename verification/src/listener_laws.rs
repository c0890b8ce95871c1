//! What holds of a listener over everything that happens to it.
use vstd::prelude::*;

use crate::address::AddrView;
use crate::effect::{AcceptEffect, ListenerEffectView};
use crate::error::IoError;
use crate::listener_model::{AcceptStep, ListenerView};
use crate::ready::read_event;
use crate::state::State;
use crate::stream_model::StreamView;

verus! {

/// Something that happens to a listener.
pub enum ListenerEvent {
    /// It is registered with an event loop.
    Register,
    /// Its registration is changed.
    Reregister,
    /// A socket is made for a connection.
    SocketMade { ready: Set<int>, socket: Result<usize, IoError> },
    /// The system answers to the start of an accept.
    AcceptScheduled { ready: Set<int>, socket: usize, taken: Result<(), IoError> },
    /// An accept completes, and the call that completes the connection returns.
    AcceptDone(Result<(), IoError>),
    /// The address of the peer is read.
    AcceptParsed(Result<Option<AddrView>, IoError>),
    /// Someone wants a connection.
    Accept,
}

impl ListenerEvent {
    /// What follows from the event.
    pub open spec fn step(self, listener: ListenerView) -> AcceptStep {
        match self {
            ListenerEvent::Register => listener.register(),
            ListenerEvent::Reregister => listener.schedule_accept(),
            ListenerEvent::SocketMade { ready, socket } => listener.socket_made(ready, socket),
            ListenerEvent::AcceptScheduled { ready, socket, taken } => listener.accept_scheduled(
                ready,
                socket,
                taken,
            ),
            ListenerEvent::AcceptDone(completed) => listener.accept_done(completed),
            ListenerEvent::AcceptParsed(outcome) => listener.accept_parsed(outcome),
            ListenerEvent::Accept => listener.serve_accept().step,
        }
    }
}

/// A listener and what has happened to it.
pub struct ListenerHistory {
    /// The listener.
    pub listener: ListenerView,
    /// What the driver is just doing for an accept: making a socket, telling the
    /// system of it, or reading the address of a peer.
    pub starting: Option<ListenerEffectView>,
    /// How many references to the listener are kept for completions.
    pub retained: int,
    /// The sockets that were made for connections.
    pub made: Seq<usize>,
    /// Those of them that were handed out or closed, in the same order.
    pub settled: Seq<usize>,
}

/// The number of references that the driver has to keep.
pub open spec fn retains(effects: Seq<ListenerEffectView>) -> int
    decreases effects.len(),
{
    if effects.len() == 0 {
        0
    } else {
        retains(effects.drop_last()) + if effects.last() is Retain {
            1int
        } else {
            0
        }
    }
}

/// The sockets that the driver has to close.
pub open spec fn closes(effects: Seq<ListenerEffectView>) -> Seq<usize>
    decreases effects.len(),
{
    if effects.len() == 0 {
        Seq::empty()
    } else {
        match effects.last() {
            AcceptEffect::Close(socket) => closes(effects.drop_last()).push(socket),
            _ => closes(effects.drop_last()),
        }
    }
}

/// What the driver has to do for an accept, which is what it does last.
pub open spec fn started(effects: Seq<ListenerEffectView>) -> Option<ListenerEffectView> {
    if effects.len() == 0 {
        None
    } else {
        match effects.last() {
            AcceptEffect::MakeSocket { .. } => Some(effects.last()),
            AcceptEffect::StartAccept { .. } => Some(effects.last()),
            AcceptEffect::ReadRemote => Some(effects.last()),
            _ => None,
        }
    }
}

impl ListenerHistory {
    /// A listener to which nothing has happened.
    pub open spec fn fresh(socket: usize) -> ListenerHistory {
        ListenerHistory {
            listener: ListenerView::fresh(socket),
            starting: None,
            retained: 0,
            made: Seq::empty(),
            settled: Seq::empty(),
        }
    }

    /// The event can happen now. While the driver does something for an accept, only
    /// the outcome of that can.
    pub open spec fn allows(self, event: ListenerEvent) -> bool {
        match self.starting {
            Some(AcceptEffect::MakeSocket { ready }) => {
                &&& event is SocketMade
                &&& event->SocketMade_ready == ready
            },
            Some(AcceptEffect::StartAccept { ready, socket }) => {
                &&& event is AcceptScheduled
                &&& event->AcceptScheduled_ready == ready
                &&& event->AcceptScheduled_socket == socket
            },
            Some(AcceptEffect::ReadRemote) => event is AcceptParsed,
            _ => match event {
                ListenerEvent::SocketMade { .. } => false,
                ListenerEvent::AcceptScheduled { .. } => false,
                ListenerEvent::AcceptParsed(_) => false,
                ListenerEvent::AcceptDone(_) => self.listener.accept is Pending,
                _ => true,
            },
        }
    }

    /// The socket of a connection that the listener holds, or that the driver holds
    /// while it tells the system of an accept on it.
    pub open spec fn held(self) -> Seq<usize> {
        match self.starting {
            Some(AcceptEffect::StartAccept { socket, .. }) => seq![socket],
            _ => self.listener.held(),
        }
    }

    /// What the driver is doing is something that the listener has room for.
    pub open spec fn valid_start(self) -> bool {
        match self.starting {
            None => true,
            Some(AcceptEffect::MakeSocket { ready }) => self.listener.accept_starting(ready),
            Some(AcceptEffect::StartAccept { ready, .. }) => self.listener.accept_starting(ready),
            Some(AcceptEffect::ReadRemote) => self.listener.accept is Pending,
            Some(_) => false,
        }
    }

    /// The history after the event.
    pub open spec fn next(self, event: ListenerEvent) -> ListenerHistory {
        let step = event.step(self.listener);
        ListenerHistory {
            listener: step.post,
            starting: started(step.effects),
            retained: self.retained + retains(step.effects) - if event is AcceptDone {
                1int
            } else {
                0
            },
            made: match event {
                ListenerEvent::SocketMade { socket: Ok(raw), .. } => self.made.push(raw),
                _ => self.made,
            },
            settled: match event {
                ListenerEvent::Accept => match self.listener.serve_accept().result {
                    Ok((stream, _)) => self.settled.push(stream.socket),
                    Err(_) => self.settled,
                },
                _ => self.settled + closes(step.effects),
            },
        }
    }

    /// What every history keeps to: an accept is started only where there is room
    /// for it, a registered listener always has one that is under way or has an
    /// outcome, one reference is kept for an accept in flight, and every socket
    /// that was made for a connection is handed out or closed, once, or is the one
    /// that is still held.
    pub open spec fn valid(self) -> bool {
        &&& self.listener.valid()
        &&& self.valid_start()
        &&& self.listener.registered && self.listener.accept is Idle ==> self.starting is Some
        &&& self.retained == if self.listener.accept is Pending && self.starting is None {
            1int
        } else {
            0
        }
        &&& self.made == self.settled + self.held()
    }

    /// The history after the events.
    pub open spec fn after(self, events: Seq<ListenerEvent>) -> ListenerHistory
        decreases events.len(),
    {
        if events.len() == 0 {
            self
        } else {
            self.next(events[0]).after(events.drop_first())
        }
    }

    /// The events can happen one after the other.
    pub open spec fn allows_all(self, events: Seq<ListenerEvent>) -> bool
        decreases events.len(),
    {
        events.len() == 0 || self.allows(events[0]) && self.next(events[0]).allows_all(
            events.drop_first(),
        )
    }
}

/// A history that is valid stays valid, whatever happens next.
pub proof fn law_events_keep_history_valid(history: ListenerHistory, event: ListenerEvent)
    requires
        history.valid(),
        history.allows(event),
    ensures
        history.next(event).valid(),
{
    reveal_with_fuel(retains, 4);
    reveal_with_fuel(closes, 4);
    let next = history.next(event);
    assert(next.made =~= next.settled + next.held());
}

/// The address of a peer is read if the call that completes the connection has
/// succeeded, and in no other case. The first error of the two is the one that is
/// kept.
pub proof fn law_remote_is_read_after_success(history: ListenerHistory, event: ListenerEvent)
    requires
        history.valid(),
        history.allows(event),
    ensures
        event.step(history.listener).effects.contains(AcceptEffect::ReadRemote) <==> event
            matches ListenerEvent::AcceptDone(Ok(_)),
        event matches ListenerEvent::AcceptDone(Err(e)) ==> history.next(event).listener.accept
            == State::<usize, (StreamView, AddrView)>::Failed(e),
        event matches ListenerEvent::AcceptParsed(Err(e)) ==> history.next(event).listener.accept
            == State::<usize, (StreamView, AddrView)>::Failed(e),
        event matches ListenerEvent::AcceptParsed(Ok(None)) ==> history.next(
            event,
        ).listener.accept == State::<usize, (StreamView, AddrView)>::Failed(
            IoError::NoRemoteAddress,
        ),
{
    if event matches ListenerEvent::AcceptDone(Ok(_)) {
        assert(event.step(history.listener).effects[0] == AcceptEffect::<Set<int>>::ReadRemote);
    }
}

/// An accept is started if a socket was made for it, and in no other case.
pub proof fn law_accept_is_started_on_a_socket(history: ListenerHistory, event: ListenerEvent)
    requires
        history.valid(),
        history.allows(event),
    ensures
        history.next(event).starting matches Some(AcceptEffect::StartAccept { socket, .. }) ==> event
            is SocketMade && event->SocketMade_socket == Ok::<usize, IoError>(socket),
        event matches ListenerEvent::SocketMade { ready, socket: Ok(raw) } ==> history.next(
            event,
        ).starting == Some(AcceptEffect::StartAccept { ready, socket: raw }),
        event matches ListenerEvent::SocketMade { socket: Err(e), .. } ==> history.next(
            event,
        ).listener.accept == State::<usize, (StreamView, AddrView)>::Failed(e),
{
}

/// Whatever happens to a listener, its history is valid: one accept is under way
/// at a time, with one reference kept for it, and no socket of a connection is
/// lost, handed out twice or closed while it is in use.
pub proof fn law_every_history_is_valid(socket: usize, events: Seq<ListenerEvent>)
    requires
        ListenerHistory::fresh(socket).allows_all(events),
    ensures
        ListenerHistory::fresh(socket).after(events).valid(),
{
    let fresh = ListenerHistory::fresh(socket);
    assert(fresh.made =~= fresh.settled + fresh.held());
    lemma_histories_stay_valid(fresh, events);
}

proof fn lemma_histories_stay_valid(history: ListenerHistory, events: Seq<ListenerEvent>)
    requires
        history.valid(),
        history.allows_all(events),
    ensures
        history.after(events).valid(),
    decreases events.len(),
{
    if events.len() > 0 {
        law_events_keep_history_valid(history, events[0]);
        lemma_histories_stay_valid(history.next(events[0]), events.drop_first());
    }
}

/// Until the listener is registered with an event loop, a request for a connection
/// is answered with `WouldBlock`, and nothing else happens.
pub proof fn law_unregistered_listener_would_block(listener: ListenerView)
    requires
        !listener.registered,
    ensures
        listener.serve_accept().result == Err::<(StreamView, AddrView), IoError>(
            IoError::WouldBlock,
        ),
        listener.serve_accept().step == listener.rest(),
{
}

/// A registered listener is readable exactly if it has a connection or an error to
/// hand out. After it has handed that out it is not readable, and the next request
/// is answered with `WouldBlock`, until another accept has an outcome.
pub proof fn law_outcomes_are_handed_out_once(listener: ListenerView)
    requires
        listener.valid(),
        listener.registered,
        listener.readiness.contains(read_event()),
    ensures
        match listener.serve_accept().result {
            Ok(accepted) => listener.accept == State::<usize, (StreamView, AddrView)>::Done(accepted),
            Err(e) => listener.accept == State::<usize, (StreamView, AddrView)>::Failed(e),
        },
        !listener.serve_accept().step.post.readiness.contains(read_event()),
        listener.serve_accept().step.post.serve_accept().result == Err::<
            (StreamView, AddrView),
            IoError,
        >(IoError::WouldBlock),
{
}

/// A connection is handed out on the socket on which it was accepted, with the
/// address of its peer, as a stream that is not registered yet.
pub proof fn law_accepted_connection_is_handed_out(
    listener: ListenerView,
    socket: usize,
    addr: AddrView,
)
    requires
        listener.valid(),
        listener.registered,
        listener.accept == State::<usize, (StreamView, AddrView)>::Pending(socket),
    ensures
        ({
            let parsed = listener.accept_done(Ok(())).post.accept_parsed(Ok(Some(addr))).post;
            &&& parsed.readiness.contains(read_event())
            &&& parsed.serve_accept().result == Ok::<
                (StreamView, AddrView),
                IoError,
            >((StreamView::fresh(socket, None, false), addr))
        }),
{
}

/// A registered listener is served: while no accept is just being started, either
/// one is in flight, or the listener is readable and has an outcome to hand out.
pub proof fn law_registered_listener_is_served(history: ListenerHistory)
    requires
        history.valid(),
        history.listener.registered,
        history.starting is None,
    ensures
        history.listener.accept is Pending || history.listener.readiness.contains(read_event()),
{
}

/// After a listener has handed out an outcome, the next accept is started. The next
/// request would block if the system takes that, and otherwise hands out why there
/// is no accept.
pub proof fn law_next_accept_is_started(
    listener: ListenerView,
    socket: Result<usize, IoError>,
    taken: Result<(), IoError>,
)
    requires
        listener.valid(),
        listener.registered,
        listener.accept is Done || listener.accept is Failed,
    ensures
        ({
            let step = listener.serve_accept().step;
            let made = step.post.socket_made(listener.readiness, socket);
            &&& started(step.effects) == Some(
                AcceptEffect::<Set<int>>::MakeSocket { ready: listener.readiness },
            )
            &&& match socket {
                Ok(raw) => {
                    &&& started(made.effects) == Some(
                        AcceptEffect::<Set<int>>::StartAccept {
                            ready: listener.readiness,
                            socket: raw,
                        },
                    )
                    &&& made.post.accept_scheduled(
                        listener.readiness,
                        raw,
                        taken,
                    ).post.serve_accept().result == match taken {
                        Ok(_) => Err::<(StreamView, AddrView), IoError>(IoError::WouldBlock),
                        Err(e) => Err(e),
                    }
                },
                Err(e) => made.post.serve_accept().result == Err::<(StreamView, AddrView), IoError>(
                    e,
                ),
            }
        }),
{
}

} // verus!
