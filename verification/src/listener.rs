//! Listeners whose operations run in the background of an event loop.
use mio::Ready;
use vstd::prelude::*;

use crate::address::{AddrView, SocketAddr};
use crate::effect::{accept_trace, AcceptEffect, ListenerEffect};
use crate::error::{would_block, IoError};
use crate::listener_model::{AcceptStep, ListenerView};
use crate::net;
use crate::ready::{read_event, ready_events, ready_or, socket_events, without_events};
use crate::socket::{Call, Interface, Socket, SOL_SOCKET, SO_ERROR};
use crate::state::State;
use crate::stream::{addr_view, UnixStream};
use crate::task::{init_start, Goal, SocketTask, Stage, TaskView};

verus! {

/// A listening Unix domain socket that an event loop serves.
pub struct UnixListener {
    registered: bool,
    socket: net::UnixListener,
    readiness: Ready,
    io: ListenerIo,
}

struct ListenerIo {
    accept: State<net::UnixStream, (UnixStream, SocketAddr)>,
}

impl View for UnixListener {
    type V = ListenerView;

    closed spec fn view(&self) -> ListenerView {
        ListenerView {
            socket: self.socket@,
            registered: self.registered,
            readiness: ready_events(self.readiness),
            accept: match self.io.accept {
                State::Idle => State::Idle,
                State::Pending(stream) => State::Pending(stream@),
                State::Done((stream, addr)) => State::Done((stream@, addr@)),
                State::Failed(e) => State::Failed(e),
            },
        }
    }
}

/// The driver has the effects of this step to do, and this is the state after it.
pub open spec fn takes(step: AcceptStep, post: ListenerView, effects: Seq<ListenerEffect>) -> bool {
    &&& post == step.post
    &&& accept_trace(effects) =~= step.effects
}

/// As `takes`, where the driver has effects to do before.
pub open spec fn adds(
    step: AcceptStep,
    post: ListenerView,
    before: Seq<ListenerEffect>,
    after: Seq<ListenerEffect>,
) -> bool {
    &&& post == step.post
    &&& accept_trace(after) =~= accept_trace(before) + step.effects
}

/// The outcome, without the representation of the socket.
pub open spec fn made(socket: Result<net::UnixStream, IoError>) -> Result<usize, IoError> {
    match socket {
        Ok(stream) => Ok(stream@),
        Err(e) => Err(e),
    }
}

impl UnixListener {
    /// Binds a new listener to a path. It is made from the socket of the task by
    /// `from_raw_socket`.
    pub fn bind(interface: &mut Interface, path: &[u8]) -> (start: (Call<SocketAddr>, SocketTask))
        ensures
            start.0@ == init_start(old(interface)@, Goal::Listen(path@)).0,
            start.1@ == init_start(old(interface)@, Goal::Listen(path@)).1,
            final(interface)@,
    {
        net::UnixListener::bind(interface, path)
    }

    /// Accepts a new incoming connection to this listener.
    ///
    /// This may return `WouldBlock`. This means a stream may be ready at a later
    /// point and one should wait for a notification before calling `accept`
    /// again.
    ///
    /// If an accepted stream is returned, the remote address of the peer is
    /// returned along with it.
    pub fn accept(&mut self) -> (out: (
        Result<Option<(UnixStream, SocketAddr)>, IoError>,
        Vec<ListenerEffect>,
    ))
        requires
            old(self)@.valid(),
            old(self)@.registered ==> (old(self)@.accept matches State::Failed(e) ==> !e.blocks()),
        ensures
            takes(old(self)@.serve_accept().step, final(self)@, out.1@),
            match (old(self)@.serve_accept().result, out.0) {
                (Ok((stream, addr)), Ok(Some(accepted))) => accepted.0@ == stream && accepted.1@
                    == addr && stream.valid(),
                (Err(expected), Err(e)) => e == expected,
                _ => false,
            },
            final(self)@.valid(),
    {
        let mut effects: Vec<ListenerEffect> = Vec::new();
        // Make sure we're associated with an event loop
        if !self.registered() {
            return (Err(would_block()), effects);
        }
        let mut state: State<net::UnixStream, (UnixStream, SocketAddr)> = State::Idle;
        std::mem::swap(&mut state, &mut self.io.accept);
        let ret = match state {
            State::Idle => return (Err(would_block()), effects),
            State::Pending(s) => {
                self.io.accept = State::Pending(s);
                return (Err(would_block()), effects);
            },
            State::Done((s, a)) => Ok(Some((s, a))),
            State::Failed(e) => Err(e),
        };
        self.schedule_accept(&mut effects);
        (ret, effects)
    }

    /// Starts to take the last error of the socket.
    pub fn take_error(&self) -> (call: Call<SocketAddr>)
        ensures
            call@ == (Call::<AddrView>::GetSockOpt {
                socket: self@.socket,
                level: SOL_SOCKET,
                name: SO_ERROR,
            }),
    {
        self.socket.take_error()
    }

    /// Creates a new independently owned handle to the underlying socket. The
    /// listener for it is the one that `from_raw_socket` makes.
    pub fn try_clone(&self) -> (start: (Call<SocketAddr>, SocketTask))
        ensures
            start.0@ == (Call::<AddrView>::DuplicateSocket { socket: self@.socket }),
            start.1@ == (TaskView { goal: Goal::Socket, stage: Stage::Duplicate }),
    {
        self.socket.try_clone()
    }

    /// Starts to read the socket address of the local half of this connection.
    pub fn local_addr(&self) -> (call: Call<SocketAddr>)
        ensures
            call@ == (Call::<AddrView>::GetSockName { socket: self@.socket }),
    {
        self.socket.local_addr()
    }

    fn registered(&self) -> (registered: bool)
        ensures
            registered == self@.registered,
    {
        self.registered
    }

    /// The listener was registered with an event loop.
    pub fn register(&mut self) -> (effects: Vec<ListenerEffect>)
        requires
            old(self)@.valid(),
        ensures
            takes(old(self)@.register(), final(self)@, effects@),
            final(self)@.valid(),
    {
        let mut effects: Vec<ListenerEffect> = Vec::new();
        self.registered = true;
        self.post_register(&mut effects);
        effects
    }

    /// The registration of the listener with its event loop was changed.
    pub fn reregister(&mut self) -> (effects: Vec<ListenerEffect>)
        requires
            old(self)@.valid(),
        ensures
            takes(old(self)@.schedule_accept(), final(self)@, effects@),
            final(self)@.valid(),
    {
        let mut effects: Vec<ListenerEffect> = Vec::new();
        self.post_register(&mut effects);
        effects
    }

    /// A socket was made for the accept that an effect asked for, or that has failed.
    /// Where it was made, the accept is to be started.
    pub fn socket_made(&mut self, ready: Ready, socket: Result<net::UnixStream, IoError>) -> (effects:
        Vec<ListenerEffect>)
        requires
            old(self)@.valid(),
            old(self)@.accept_starting(ready_events(ready)),
        ensures
            takes(
                old(self)@.socket_made(ready_events(ready), made(socket)),
                final(self)@,
                effects@,
            ),
            final(self)@.valid(),
    {
        let mut effects: Vec<ListenerEffect> = Vec::new();
        match socket {
            Ok(sock) => {
                let socket: usize = sock.into_raw_socket();
                effects.push(AcceptEffect::StartAccept { ready, socket });
            },
            Err(e) => self.accept_refused(ready, e, &mut effects),
        }
        effects
    }

    /// The accept that an effect asked for was handed to the system.
    pub fn accept_scheduled(
        &mut self,
        ready: Ready,
        socket: usize,
        taken: Result<(), IoError>,
    ) -> (effects: Vec<ListenerEffect>)
        requires
            old(self)@.valid(),
            old(self)@.accept_starting(ready_events(ready)),
        ensures
            takes(
                old(self)@.accept_scheduled(ready_events(ready), socket, taken),
                final(self)@,
                effects@,
            ),
            final(self)@.valid(),
    {
        let mut effects: Vec<ListenerEffect> = Vec::new();
        match taken {
            Ok(_) => {
                self.io.accept = State::Pending(net::UnixStream::from_raw_socket(socket));
                effects.push(AcceptEffect::Retain);
            },
            Err(e) => {
                effects.push(AcceptEffect::Close(socket));
                self.accept_refused(ready, e, &mut effects);
            },
        }
        effects
    }

    fn accept_refused(&mut self, ready: Ready, error: IoError, effects: &mut Vec<ListenerEffect>)
        requires
            old(self)@.valid(),
            old(self)@.accept_starting(ready_events(ready)),
        ensures
            adds(
                old(self)@.accept_refused(ready_events(ready), error),
                final(self)@,
                old(effects)@,
                final(effects)@,
            ),
            final(self)@.valid(),
    {
        // We're now readable to give out the error.
        self.io.accept = State::Failed(error);
        let ready = ready_or(ready, Ready::readable());
        self.set_readiness(ready, effects);
    }

    /// An accept has completed, and the call that completes the connection was made.
    /// Where it has succeeded, the address of the peer is to be read.
    pub fn accept_done(&mut self, completed: Result<(), IoError>) -> (effects: Vec<ListenerEffect>)
        requires
            old(self)@.valid(),
            old(self)@.accept is Pending,
        ensures
            takes(old(self)@.accept_done(completed), final(self)@, effects@),
            final(self)@.valid(),
    {
        match completed {
            Ok(_) => {
                let mut effects: Vec<ListenerEffect> = Vec::new();
                effects.push(AcceptEffect::ReadRemote);
                effects
            },
            Err(e) => self.accept_parsed(Err(e)),
        }
    }

    /// The address of the peer was read, if the system knows it, or the accept has
    /// failed.
    pub fn accept_parsed(&mut self, outcome: Result<Option<SocketAddr>, IoError>) -> (effects: Vec<
        ListenerEffect,
    >)
        requires
            old(self)@.valid(),
            old(self)@.accept is Pending,
        ensures
            takes(
                old(self)@.accept_parsed(
                    match outcome {
                        Ok(addr) => Ok(addr_view(addr)),
                        Err(e) => Err(e),
                    },
                ),
                final(self)@,
                effects@,
            ),
            final(self)@.valid(),
    {
        let mut effects: Vec<ListenerEffect> = Vec::new();
        // Move out of the `Pending` state.
        let mut state: State<net::UnixStream, (UnixStream, SocketAddr)> = State::Idle;
        std::mem::swap(&mut state, &mut self.io.accept);
        if let State::Pending(sock) = state {
            let raw: usize = sock.into_raw_socket();
            let error = match outcome {
                Ok(Some(addr)) => {
                    self.io.accept = State::Done((UnixStream::from_raw_socket(raw), addr));
                    self.add_readiness(Ready::readable(), &mut effects);
                    return effects;
                },
                Ok(None) => IoError::NoRemoteAddress,
                Err(e) => e,
            };
            self.io.accept = State::Failed(error);
            // Flag our readiness that there is an outcome.
            self.add_readiness(Ready::readable(), &mut effects);
            effects.push(AcceptEffect::Close(raw));
        }
        effects
    }

    /// Whether an accept is in flight.
    pub fn is_accepting(&self) -> (accepting: bool)
        ensures
            accepting == (self@.accept is Pending),
    {
        match self.io.accept {
            State::Pending(_) => true,
            _ => false,
        }
    }

    /// The error that the next call of `accept` hands out, if there is one.
    pub fn failure(&self) -> (error: Option<IoError>)
        ensures
            error == match self@.accept {
                State::Failed(e) if self@.registered => Some(e),
                _ => None,
            },
    {
        match self.io.accept {
            State::Failed(e) if self.registered => Some(e),
            _ => None,
        }
    }

    /// What is to be cancelled when the listener goes away.
    pub fn drop(&self) -> (effects: Vec<ListenerEffect>)
        ensures
            accept_trace(effects@) == self@.drop_effects(),
    {
        let mut effects: Vec<ListenerEffect> = Vec::new();
        match self.io.accept {
            State::Pending(_) => {
                effects.push(AcceptEffect::CancelAccept);
            },
            _ => {},
        }
        effects
    }

    /// Gives up the listener once nothing refers to it any more. The sockets are
    /// to be closed: its own, and that of a connection that was not handed out.
    pub fn into_sockets(self) -> (sockets: Vec<Socket>)
        ensures
            sockets@.map_values(|socket: Socket| socket@) == seq![self@.socket] + self@.held(),
    {
        let mut sockets: Vec<Socket> = Vec::new();
        sockets.push(Socket::from_raw_socket(self.socket.into_raw_socket()));
        match self.io.accept {
            State::Pending(sock) => {
                sockets.push(Socket::from_raw_socket(sock.into_raw_socket()));
            },
            State::Done((stream, _)) => {
                sockets.push(stream.into_socket());
            },
            _ => {},
        }
        sockets
    }

    /// The number by which the system knows the socket.
    pub fn as_raw_socket(&self) -> (raw: usize)
        ensures
            raw == self@.socket,
    {
        self.socket.as_raw_socket()
    }

    /// The listener of a listening socket that the system knows by this number.
    pub fn from_raw_socket(raw: usize) -> (listener: UnixListener)
        ensures
            listener@ == ListenerView::fresh(raw),
            listener@.valid(),
    {
        UnixListener {
            registered: false,
            socket: net::UnixListener::from_raw_socket(raw),
            readiness: Ready::empty(),
            io: ListenerIo { accept: State::Idle },
        }
    }

    fn schedule_accept(&mut self, effects: &mut Vec<ListenerEffect>)
        requires
            socket_events(old(self)@.readiness),
            if old(self)@.accept is Idle {
                (ListenerView {
                    readiness: old(self)@.readiness.remove(read_event()),
                    ..old(self)@
                }).valid()
            } else {
                old(self)@.valid()
            },
        ensures
            adds(old(self)@.schedule_accept(), final(self)@, old(effects)@, final(effects)@),
            final(self)@.valid(),
    {
        match self.io.accept {
            State::Idle => {},
            _ => return ,
        }
        // Turn off our read readiness
        let ready = self.readiness;
        let rest = without_events(ready, Ready::readable());
        self.set_readiness(rest, effects);
        let ghost told = accept_trace(effects@);
        effects.push(AcceptEffect::MakeSocket { ready });
        proof {
            assert(accept_trace(effects@) =~= told.push(
                AcceptEffect::MakeSocket { ready: ready_events(ready) },
            ));
            assert(self@.readiness =~= old(self)@.readiness.remove(read_event()));
        }
    }

    fn add_readiness(&mut self, ready: Ready, effects: &mut Vec<ListenerEffect>)
        ensures
            adds(
                old(self)@.add_readiness(ready_events(ready)),
                final(self)@,
                old(effects)@,
                final(effects)@,
            ),
    {
        let ready = ready_or(ready, self.readiness);
        self.set_readiness(ready, effects);
    }

    fn post_register(&mut self, effects: &mut Vec<ListenerEffect>)
        requires
            old(self)@.valid(),
        ensures
            adds(old(self)@.schedule_accept(), final(self)@, old(effects)@, final(effects)@),
            final(self)@.valid(),
    {
        self.schedule_accept(effects);
    }

    fn set_readiness(&mut self, ready: Ready, effects: &mut Vec<ListenerEffect>)
        ensures
            adds(
                old(self)@.announce(ready_events(ready)),
                final(self)@,
                old(effects)@,
                final(effects)@,
            ),
    {
        self.readiness = ready;
        effects.push(AcceptEffect::SetReadiness(ready));
    }
}

} // verus!
