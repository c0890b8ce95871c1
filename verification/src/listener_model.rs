//! How a listener turns completed operations into readiness, as
//! `stream_model` says it of streams.
use vstd::prelude::*;

use crate::address::AddrView;
use crate::effect::{AcceptEffect, ListenerEffectView};
use crate::error::IoError;
use crate::ready::{read_event, socket_events};
use crate::state::State;
use crate::stream_model::StreamView;

verus! {

/// What a listener holds.
pub struct ListenerView {
    /// The socket.
    pub socket: usize,
    /// Whether the listener is associated with an event loop.
    pub registered: bool,
    /// The events that the listener was last said to be ready for.
    pub readiness: Set<int>,
    /// An operation in flight accepts a connection on this socket; a finished one
    /// has left a stream and the address of its peer.
    pub accept: State<usize, (StreamView, AddrView)>,
}

/// What follows from something that happens to a listener.
pub struct AcceptStep {
    /// The state afterwards.
    pub post: ListenerView,
    /// What the driver has to do.
    pub effects: Seq<ListenerEffectView>,
}

/// What follows from a request for a connection.
pub struct ServedAccept {
    /// What the request returns.
    pub result: Result<(StreamView, AddrView), IoError>,
    /// What follows besides.
    pub step: AcceptStep,
}

impl ListenerView {
    /// A listener that was just made from a socket.
    pub open spec fn fresh(socket: usize) -> ListenerView {
        ListenerView {
            socket,
            registered: false,
            readiness: Set::empty(),
            accept: State::Idle,
        }
    }

    /// What every listener keeps to: it is readable exactly while an accept has an
    /// outcome to hand out, and a stream that waits there is as it was made.
    pub open spec fn valid(self) -> bool {
        &&& socket_events(self.readiness)
        &&& self.readiness.contains(read_event()) <==> (self.accept is Done || self.accept
            is Failed)
        &&& self.accept matches State::Done((stream, _)) ==> stream == StreamView::fresh(
            stream.socket,
            None,
            false,
        )
    }

    /// The listener says nothing and does nothing.
    pub open spec fn rest(self) -> AcceptStep {
        AcceptStep { post: self, effects: Seq::empty() }
    }

    /// The listener says that it is ready for these events.
    pub open spec fn announce(self, readiness: Set<int>) -> AcceptStep {
        AcceptStep {
            post: ListenerView { readiness, ..self },
            effects: seq![AcceptEffect::SetReadiness(readiness)],
        }
    }

    /// The listener becomes ready for these events, besides those that it is ready
    /// for already.
    pub open spec fn add_readiness(self, events: Set<int>) -> AcceptStep {
        self.announce(events.union(self.readiness))
    }

    /// An accept is started if there is none, neither one in flight nor one whose
    /// outcome was not handed out yet. Until it completes the listener is not
    /// readable.
    pub open spec fn schedule_accept(self) -> AcceptStep {
        if self.accept is Idle {
            let ready = self.readiness.remove(read_event());
            AcceptStep {
                post: ListenerView { readiness: ready, ..self },
                effects: seq![
                    AcceptEffect::SetReadiness(ready),
                    AcceptEffect::MakeSocket { ready: self.readiness },
                ],
            }
        } else {
            self.rest()
        }
    }

    /// An accept was asked for of which the system was not told yet; before that
    /// the listener was ready for these events.
    pub open spec fn accept_starting(self, ready: Set<int>) -> bool {
        &&& self.accept is Idle
        &&& socket_events(ready)
        &&& self.readiness == ready.remove(read_event())
    }

    /// A socket was made for the connection, or that has failed. If it was made,
    /// and only then, an accept on it is started. A failure is kept, and makes the
    /// listener readable, so that it is asked for.
    pub open spec fn socket_made(self, ready: Set<int>, socket: Result<usize, IoError>) -> AcceptStep {
        match socket {
            Ok(raw) => AcceptStep {
                post: self,
                effects: seq![AcceptEffect::StartAccept { ready, socket: raw }],
            },
            Err(e) => self.accept_refused(ready, e),
        }
    }

    /// The system has taken the accept, or has refused it. Then the socket, which
    /// is without use, is closed.
    pub open spec fn accept_scheduled(
        self,
        ready: Set<int>,
        socket: usize,
        taken: Result<(), IoError>,
    ) -> AcceptStep {
        match taken {
            Ok(_) => AcceptStep {
                post: ListenerView { accept: State::Pending(socket), ..self },
                effects: seq![AcceptEffect::Retain],
            },
            Err(e) => {
                let failed = self.accept_refused(ready, e);
                AcceptStep {
                    post: failed.post,
                    effects: seq![AcceptEffect::Close(socket)] + failed.effects,
                }
            },
        }
    }

    /// No accept was started, because of this error.
    pub open spec fn accept_refused(self, ready: Set<int>, error: IoError) -> AcceptStep {
        ListenerView { accept: State::Failed(error), ..self }.announce(
            ready.union(set![read_event()]),
        )
    }

    /// An accept has completed, and the call that completes the connection was made.
    /// If that has succeeded, and only then, the address of the peer is read.
    pub open spec fn accept_done(self, completed: Result<(), IoError>) -> AcceptStep {
        match completed {
            Ok(_) => AcceptStep { post: self, effects: seq![AcceptEffect::ReadRemote] },
            Err(e) => self.accept_parsed(Err(e)),
        }
    }

    /// The accept has an outcome: the address of the peer if it is known. Without
    /// that the connection is of no use, and its socket is closed.
    pub open spec fn accept_parsed(self, outcome: Result<Option<AddrView>, IoError>) -> AcceptStep {
        match (self.accept, outcome) {
            (State::Pending(raw), Ok(Some(addr))) => ListenerView {
                accept: State::Done((StreamView::fresh(raw, None, false), addr)),
                ..self
            }.add_readiness(set![read_event()]),
            (State::Pending(raw), _) => {
                let error = match outcome {
                    Err(e) => e,
                    Ok(_) => IoError::NoRemoteAddress,
                };
                let failed = ListenerView { accept: State::Failed(error), ..self }.add_readiness(
                    set![read_event()],
                );
                AcceptStep {
                    post: failed.post,
                    effects: failed.effects + seq![AcceptEffect::Close(raw)],
                }
            },
            _ => arbitrary(),
        }
    }

    /// Someone wants a connection. The outcome of an accept is handed out once,
    /// and the next accept is started.
    pub open spec fn serve_accept(self) -> ServedAccept {
        let next = ListenerView { accept: State::Idle, ..self }.schedule_accept();
        match self.accept {
            State::Done((stream, addr)) if self.registered => ServedAccept {
                result: Ok((stream, addr)),
                step: next,
            },
            State::Failed(e) if self.registered => ServedAccept { result: Err(e), step: next },
            _ => ServedAccept { result: Err(IoError::WouldBlock), step: self.rest() },
        }
    }

    /// The listener was registered with an event loop.
    pub open spec fn register(self) -> AcceptStep {
        ListenerView { registered: true, ..self }.schedule_accept()
    }

    /// What is to be cancelled when the listener goes away.
    pub open spec fn drop_effects(self) -> Seq<ListenerEffectView> {
        if self.accept is Pending {
            seq![AcceptEffect::CancelAccept]
        } else {
            Seq::empty()
        }
    }

    /// The socket of a connection that was not handed out yet.
    pub open spec fn held(self) -> Seq<usize> {
        match self.accept {
            State::Pending(raw) => seq![raw],
            State::Done((stream, _)) => seq![stream.socket],
            _ => Seq::empty(),
        }
    }
}

} // verus!
