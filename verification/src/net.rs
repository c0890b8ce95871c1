//! Unix domain sockets whose operations block.
use vstd::prelude::*;
use vstd::slice::slice_to_vec;

use crate::address::{AddrView, SocketAddr};
use crate::socket::{
    create_call, nonblocking_call, shutdown_code, Call, Interface, Shutdown, Socket, SOL_SOCKET,
    SO_ERROR,
};
use crate::task::{init_start, Goal, SocketTask, Stage, TaskView};

verus! {

/// A Unix stream socket.
#[derive(Debug)]
pub struct UnixStream {
    socket: Socket,
}

impl View for UnixStream {
    type V = usize;

    closed spec fn view(&self) -> usize {
        self.socket@
    }
}

impl UnixStream {
    /// Makes a socket that is not connected.
    pub fn new() -> (start: (Call<SocketAddr>, SocketTask))
        ensures
            start.0@ == create_call(),
            start.1@ == (TaskView { goal: Goal::Socket, stage: Stage::Create }),
    {
        Socket::new()
    }

    /// Connects to the socket named by `path`. If the socket interface has not been
    /// started, that is done first.
    pub fn connect(interface: &mut Interface, path: &[u8]) -> (start: (
        Call<SocketAddr>,
        SocketTask,
    ))
        ensures
            start.0@ == init_start(old(interface)@, Goal::Connect(path@)).0,
            start.1@ == init_start(old(interface)@, Goal::Connect(path@)).1,
            final(interface)@,
    {
        SocketTask::init(interface, Goal::Connect(slice_to_vec(path)))
    }

    /// Creates a new independently owned handle to the underlying socket.
    pub fn try_clone(&self) -> (start: (Call<SocketAddr>, SocketTask))
        ensures
            start.0@ == (Call::<AddrView>::DuplicateSocket { socket: self@ }),
            start.1@ == (TaskView { goal: Goal::Socket, stage: Stage::Duplicate }),
    {
        self.socket.duplicate()
    }

    /// Starts to read the socket address of the local half of this connection.
    pub fn local_addr(&self) -> (call: Call<SocketAddr>)
        ensures
            call@ == (Call::<AddrView>::GetSockName { socket: self@ }),
    {
        Call::GetSockName { socket: self.socket.as_raw_socket() }
    }

    /// Starts to read the socket address of the remote half of this connection.
    pub fn peer_addr(&self) -> (call: Call<SocketAddr>)
        ensures
            call@ == (Call::<AddrView>::GetPeerName { socket: self@ }),
    {
        Call::GetPeerName { socket: self.socket.as_raw_socket() }
    }

    /// Starts to move the socket into or out of nonblocking mode.
    pub fn set_nonblocking(&self, nonblocking: bool) -> (call: Call<SocketAddr>)
        ensures
            call@ == nonblocking_call(self@, nonblocking),
    {
        self.socket.set_nonblocking(nonblocking)
    }

    /// Starts to read the value of the `SO_ERROR` option.
    pub fn take_error(&self) -> (call: Call<SocketAddr>)
        ensures
            call@ == (Call::<AddrView>::GetSockOpt {
                socket: self@,
                level: SOL_SOCKET,
                name: SO_ERROR,
            }),
    {
        self.socket.take_error()
    }

    /// Starts to shut down the read, write, or both halves of this connection.
    pub fn shutdown(&self, how: Shutdown) -> (call: Call<SocketAddr>)
        ensures
            call@ == (Call::<AddrView>::Shutdown { socket: self@, how: shutdown_code(how) }),
    {
        self.socket.shutdown(how)
    }

    /// The number by which the system knows the socket.
    pub fn as_raw_socket(&self) -> (raw: usize)
        ensures
            raw == self@,
    {
        self.socket.as_raw_socket()
    }

    /// The stream whose socket the system knows by this number.
    pub fn from_raw_socket(raw: usize) -> (stream: UnixStream)
        ensures
            stream@ == raw,
    {
        UnixStream { socket: Socket::from_raw_socket(raw) }
    }

    /// Gives up the stream for the number by which the system knows its socket.
    pub fn into_raw_socket(self) -> (raw: usize)
        ensures
            raw == self@,
    {
        self.socket.into_raw_socket()
    }
}

/// A Unix domain socket server.
#[derive(Debug)]
pub struct UnixListener {
    socket: Socket,
}

impl View for UnixListener {
    type V = usize;

    closed spec fn view(&self) -> usize {
        self.socket@
    }
}

impl UnixListener {
    /// Creates a new `UnixListener` bound to the specified socket. If the socket
    /// interface has not been started, that is done first.
    pub fn bind(interface: &mut Interface, path: &[u8]) -> (start: (Call<SocketAddr>, SocketTask))
        ensures
            start.0@ == init_start(old(interface)@, Goal::Listen(path@)).0,
            start.1@ == init_start(old(interface)@, Goal::Listen(path@)).1,
            final(interface)@,
    {
        SocketTask::init(interface, Goal::Listen(slice_to_vec(path)))
    }

    /// Accepts a new incoming connection to this listener, and finds the remote
    /// peer's address.
    pub fn accept(&self) -> (start: (Call<SocketAddr>, SocketTask))
        ensures
            start.0@ == (Call::<AddrView>::Accept { socket: self@ }),
            start.1@ == (TaskView { goal: Goal::Peer, stage: Stage::Accept }),
    {
        SocketTask::accept(Goal::Peer, self.socket.as_raw_socket())
    }

    /// Creates a new independently owned handle to the underlying socket.
    pub fn try_clone(&self) -> (start: (Call<SocketAddr>, SocketTask))
        ensures
            start.0@ == (Call::<AddrView>::DuplicateSocket { socket: self@ }),
            start.1@ == (TaskView { goal: Goal::Socket, stage: Stage::Duplicate }),
    {
        self.socket.duplicate()
    }

    /// Starts to read the local socket address of this listener.
    pub fn local_addr(&self) -> (call: Call<SocketAddr>)
        ensures
            call@ == (Call::<AddrView>::GetSockName { socket: self@ }),
    {
        Call::GetSockName { socket: self.socket.as_raw_socket() }
    }

    /// Starts to move the socket into or out of nonblocking mode.
    pub fn set_nonblocking(&self, nonblocking: bool) -> (call: Call<SocketAddr>)
        ensures
            call@ == nonblocking_call(self@, nonblocking),
    {
        self.socket.set_nonblocking(nonblocking)
    }

    /// Starts to read the value of the `SO_ERROR` option.
    pub fn take_error(&self) -> (call: Call<SocketAddr>)
        ensures
            call@ == (Call::<AddrView>::GetSockOpt {
                socket: self@,
                level: SOL_SOCKET,
                name: SO_ERROR,
            }),
    {
        self.socket.take_error()
    }

    /// Returns the incoming connections, one after the other.
    pub fn incoming<'a>(&'a self) -> (incoming: Incoming<'a>)
        ensures
            incoming@ == self@,
    {
        Incoming { listener: self }
    }

    /// The number by which the system knows the socket.
    pub fn as_raw_socket(&self) -> (raw: usize)
        ensures
            raw == self@,
    {
        self.socket.as_raw_socket()
    }

    /// The listener whose socket the system knows by this number.
    pub fn from_raw_socket(raw: usize) -> (listener: UnixListener)
        ensures
            listener@ == raw,
    {
        UnixListener { socket: Socket::from_raw_socket(raw) }
    }

    /// Gives up the listener for the number by which the system knows its socket.
    pub fn into_raw_socket(self) -> (raw: usize)
        ensures
            raw == self@,
    {
        self.socket.into_raw_socket()
    }
}

/// The incoming connections to a [`UnixListener`]. There is always a next one.
#[derive(Debug)]
pub struct Incoming<'a> {
    listener: &'a UnixListener,
}

impl<'a> View for Incoming<'a> {
    type V = usize;

    closed spec fn view(&self) -> usize {
        self.listener@
    }
}

impl<'a> Incoming<'a> {
    /// Accepts the next connection. The address that is found with its socket is
    /// of no interest.
    pub fn next(&mut self) -> (start: Option<(Call<SocketAddr>, SocketTask)>)
        ensures
            final(self)@ == old(self)@,
            start matches Some((call, task)) && call@ == (Call::<AddrView>::Accept {
                socket: old(self)@,
            }) && task@ == (TaskView { goal: Goal::Peer, stage: Stage::Accept }),
    {
        Some(self.listener.accept())
    }

    /// How many connections are left at least, and at most if that is known.
    pub fn size_hint(&self) -> (hint: (usize, Option<usize>))
        ensures
            hint == (usize::MAX, None::<usize>),
    {
        (usize::MAX, None)
    }
}

} // verus!
