//! What a state machine asks its driver to do.
use mio::Ready;
use vstd::prelude::*;

use crate::address::{AddrView, SocketAddr};
use crate::ready::ready_events;

verus! {

/// Something for the driver of a stream to do. The driver does the effects of one
/// step in their order. `R` is the type of readiness sets, `B` that of buffers
/// and `A` that of addresses.
pub enum Effect<R, B, A> {
    /// Tell the event loop that the stream is ready for these events.
    SetReadiness(R),
    /// Keep the stream alive until the operation that was just started completes.
    Retain,
    /// Start to connect to the address, and hand the outcome to
    /// `connect_scheduled`.
    StartConnect(A),
    /// Make the call that completes the connection, and hand its outcome to
    /// `connect_completed`.
    CompleteConnect,
    /// Start to read into a buffer of `size` bytes, and hand the outcome to
    /// `read_scheduled`, together with what else is given here: the events that
    /// the stream was ready for, and whether it is to become writable.
    StartRead { size: usize, ready: R, then_writable: bool },
    /// Start to write what is in the buffer from this position on, and hand the
    /// outcome to `write_scheduled`, together with the buffer and the position.
    StartWrite { buf: B, pos: usize },
    /// Cancel the operation that connects.
    CancelConnect,
    /// Cancel the operation that reads.
    CancelRead,
}

/// An effect of a stream.
pub type StreamEffect = Effect<Ready, Vec<u8>, SocketAddr>;

/// What an effect of a stream holds.
pub type StreamEffectView = Effect<Set<int>, Seq<u8>, AddrView>;

impl View for Effect<Ready, Vec<u8>, SocketAddr> {
    type V = Effect<Set<int>, Seq<u8>, AddrView>;

    open spec fn view(&self) -> Effect<Set<int>, Seq<u8>, AddrView> {
        match *self {
            Effect::SetReadiness(ready) => Effect::SetReadiness(ready_events(ready)),
            Effect::Retain => Effect::Retain,
            Effect::StartConnect(addr) => Effect::StartConnect(addr@),
            Effect::CompleteConnect => Effect::CompleteConnect,
            Effect::StartRead { size, ready, then_writable } => Effect::StartRead {
                size,
                ready: ready_events(ready),
                then_writable,
            },
            Effect::StartWrite { buf, pos } => Effect::StartWrite { buf: buf@, pos },
            Effect::CancelConnect => Effect::CancelConnect,
            Effect::CancelRead => Effect::CancelRead,
        }
    }
}

/// What the effects hold.
pub open spec fn trace(effects: Seq<StreamEffect>) -> Seq<StreamEffectView> {
    effects.map_values(|effect: StreamEffect| effect@)
}

/// Something for the driver of a listener to do, as with streams. `R` is the type
/// of readiness sets.
pub enum AcceptEffect<R> {
    /// Tell the event loop that the listener is ready for these events.
    SetReadiness(R),
    /// Keep the listener alive until the operation that was just started
    /// completes.
    Retain,
    /// Make a socket for a connection, and hand the outcome to `socket_made`,
    /// together with what is given here: the events that the listener was ready
    /// for.
    MakeSocket { ready: R },
    /// Start to accept a connection on the socket, and hand the outcome to
    /// `accept_scheduled`, together with what is given here.
    StartAccept { ready: R, socket: usize },
    /// Read the address of the peer of the connection that was accepted, and hand
    /// the outcome to `accept_parsed`.
    ReadRemote,
    /// Cancel the operation that accepts.
    CancelAccept,
    /// Close the socket.
    Close(usize),
}

/// An effect of a listener.
pub type ListenerEffect = AcceptEffect<Ready>;

/// What an effect of a listener holds.
pub type ListenerEffectView = AcceptEffect<Set<int>>;

impl View for AcceptEffect<Ready> {
    type V = AcceptEffect<Set<int>>;

    open spec fn view(&self) -> AcceptEffect<Set<int>> {
        match *self {
            AcceptEffect::SetReadiness(ready) => AcceptEffect::SetReadiness(ready_events(ready)),
            AcceptEffect::Retain => AcceptEffect::Retain,
            AcceptEffect::MakeSocket { ready } => AcceptEffect::MakeSocket {
                ready: ready_events(ready),
            },
            AcceptEffect::StartAccept { ready, socket } => AcceptEffect::StartAccept {
                ready: ready_events(ready),
                socket,
            },
            AcceptEffect::ReadRemote => AcceptEffect::ReadRemote,
            AcceptEffect::CancelAccept => AcceptEffect::CancelAccept,
            AcceptEffect::Close(socket) => AcceptEffect::Close(socket),
        }
    }
}

/// What the effects hold.
pub open spec fn accept_trace(effects: Seq<ListenerEffect>) -> Seq<ListenerEffectView> {
    effects.map_values(|effect: ListenerEffect| effect@)
}

} // verus!
