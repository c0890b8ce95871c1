//! Streams whose operations run in the background of an event loop.
use mio::Ready;
use vstd::prelude::*;
use vstd::slice::slice_to_vec;

use crate::address::{AddrView, SocketAddr};
use crate::effect::{trace, Effect, StreamEffect};
use crate::error::{would_block, IoError};
use crate::net;
use crate::ready::{read_event, ready_events, ready_or, socket_events, without_events, write_event};
use crate::socket::{create_call, shutdown_code, status_outcome, Call, Shutdown, Socket};
use crate::state::State;
use crate::stream_model::{unconnected, Step, StreamView, READ_BUFFER_SIZE};
use crate::task::{Goal, SocketTask, Stage, TaskView};

verus! {

/// A Unix domain socket that an event loop serves.
///
/// It holds the socket, what the event loop was told about it, and the state of
/// the operations that were started to turn completed operations into
/// readiness.
pub struct UnixStream {
    registered: bool,
    socket: net::UnixStream,
    readiness: Ready,
    connecting: bool,
    io: StreamIo,
}

struct StreamIo {
    read: State<usize, (Vec<u8>, usize)>,
    write: State<(Vec<u8>, usize), (Vec<u8>, usize)>,
    deferred_connect: Option<SocketAddr>,
    connect_error: Option<IoError>,
}

/// The address, if there is one, without its representation.
pub open spec fn addr_view(addr: Option<SocketAddr>) -> Option<AddrView> {
    match addr {
        Some(addr) => Some(addr@),
        None => None,
    }
}

impl View for UnixStream {
    type V = StreamView;

    closed spec fn view(&self) -> StreamView {
        StreamView {
            socket: self.socket@,
            registered: self.registered,
            readiness: ready_events(self.readiness),
            connecting: self.connecting,
            read: match self.io.read {
                State::Idle => State::Idle,
                State::Pending(size) => State::Pending(size),
                State::Done((data, cur)) => State::Done((data@, cur)),
                State::Failed(e) => State::Failed(e),
            },
            write: match self.io.write {
                State::Idle => State::Idle,
                State::Pending((buf, pos)) => State::Pending((buf@, pos)),
                State::Done((buf, pos)) => State::Done((buf@, pos)),
                State::Failed(e) => State::Failed(e),
            },
            deferred_connect: addr_view(self.io.deferred_connect),
            connect_error: self.io.connect_error,
        }
    }
}

/// The driver has the effects of this step to do, and this is the state after it.
pub open spec fn takes(step: Step, post: StreamView, effects: Seq<StreamEffect>) -> bool {
    &&& post == step.post
    &&& trace(effects) =~= step.effects
}

/// As `takes`, where the driver has effects to do before.
pub open spec fn adds(
    step: Step,
    post: StreamView,
    before: Seq<StreamEffect>,
    after: Seq<StreamEffect>,
) -> bool {
    &&& post == step.post
    &&& trace(after) =~= trace(before) + step.effects
}

/// The outcome, without the number of a success.
pub open spec fn unit(result: Result<i32, IoError>) -> Result<(), IoError> {
    match result {
        Ok(_) => Ok(()),
        Err(e) => Err(e),
    }
}

impl UnixStream {
    fn new(socket: usize, addr: Option<SocketAddr>) -> (stream: UnixStream)
        ensures
            stream@ == StreamView::fresh(socket, addr_view(addr), false),
    {
        UnixStream {
            registered: false,
            socket: net::UnixStream::from_raw_socket(socket),
            readiness: Ready::empty(),
            connecting: false,
            io: StreamIo {
                read: State::Idle,
                write: State::Idle,
                deferred_connect: addr,
                connect_error: None,
            },
        }
    }

    /// Connects to the socket named by `path`.
    ///
    /// The task makes a nonblocking socket and finds the address for it; `_connect`
    /// makes the stream from both. The stream may not be readable or writable yet,
    /// as it is connected in the background. It should be registered with an event
    /// loop to wait on both of these properties being available.
    pub fn connect(path: &[u8]) -> (start: (Call<SocketAddr>, SocketTask))
        ensures
            start.0@ == create_call(),
            start.1@ == (TaskView { goal: Goal::Deferred(path@), stage: Stage::Create }),
    {
        SocketTask::create(Goal::Deferred(slice_to_vec(path)))
    }

    /// The stream of a nonblocking socket that connects to the address as soon as
    /// there is an event loop.
    pub fn _connect(socket: Socket, addr: SocketAddr) -> (stream: UnixStream)
        ensures
            stream@ == StreamView::fresh(socket@, Some(addr@), true),
            stream@.valid(),
    {
        let mut stream = UnixStream::new(socket.into_raw_socket(), Some(addr));
        stream.connecting = true;
        stream
    }

    /// Takes any internal error that has happened after the last I/O operation
    /// which hasn't been retrieved yet. (The error of a read is handed out by
    /// `read`.)
    ///
    /// This is particularly useful when detecting failed attempts to `connect`.
    /// After a completed `connect` flags this stream as writable then callers must
    /// invoke this method to determine whether the connection actually succeeded.
    /// The error of a write that was taken is handed out here too; afterwards the
    /// stream can be written again.
    pub fn take_error(&mut self) -> (result: Result<Option<IoError>, IoError>)
        ensures
            result == Ok::<Option<IoError>, IoError>(old(self)@.pending_error()),
            final(self)@ == old(self)@.take_error(),
            old(self)@.valid() ==> final(self)@.valid(),
    {
        if let Some(e) = self.io.connect_error.take() {
            return Ok(Some(e));
        }
        match self.io.write {
            State::Failed(e) => {
                self.io.write = State::Idle;
                Ok(Some(e))
            },
            _ => Ok(None),
        }
    }

    /// Creates a new independently owned handle to the underlying socket. The
    /// stream for it is the one that `from_raw_socket` makes.
    pub fn try_clone(&self) -> (start: (Call<SocketAddr>, SocketTask))
        ensures
            start.0@ == (Call::<AddrView>::DuplicateSocket { socket: self@.socket }),
            start.1@ == (TaskView { goal: Goal::Socket, stage: Stage::Duplicate }),
    {
        self.socket.try_clone()
    }

    /// Starts to read the socket address of the local half of this connection.
    pub fn local_addr(&self) -> (call: Call<SocketAddr>)
        ensures
            call@ == (Call::<AddrView>::GetSockName { socket: self@.socket }),
    {
        self.socket.local_addr()
    }

    /// Starts to read the socket address of the remote half of this connection.
    pub fn peer_addr(&self) -> (call: Call<SocketAddr>)
        ensures
            call@ == (Call::<AddrView>::GetPeerName { socket: self@.socket }),
    {
        self.socket.peer_addr()
    }

    /// Starts to shut down the read, write, or both halves of this connection.
    pub fn shutdown(&self, how: Shutdown) -> (call: Call<SocketAddr>)
        ensures
            call@ == (Call::<AddrView>::Shutdown { socket: self@.socket, how: shutdown_code(how) }),
    {
        self.socket.shutdown(how)
    }

    /// Ends the shutdown. Where it was done, the stream is not ready for anything.
    pub fn shutdown_done(&mut self, status: i32, last_error: i32) -> (out: (
        Result<(), IoError>,
        Vec<StreamEffect>,
    ))
        requires
            old(self)@.valid(),
        ensures
            out.0 == unit(status_outcome(status, last_error)),
            takes(old(self)@.shutdown_done(out.0), final(self)@, out.1@),
            final(self)@.valid(),
    {
        let mut effects: Vec<StreamEffect> = Vec::new();
        match Socket::shutdown_done(status, last_error) {
            Ok(_) => {
                self.set_readiness(Ready::empty(), &mut effects);
                (Ok(()), effects)
            },
            Err(e) => (Err(e), effects),
        }
    }

    fn registered(&self) -> (registered: bool)
        ensures
            registered == self@.registered,
    {
        self.registered
    }

    /// Reads bytes into `buf`, as many as there are and as it has room for.
    ///
    /// While there are none, because the stream is not registered or because a
    /// read is in flight, this is answered with `WouldBlock`. The error of a read
    /// is handed out once.
    pub fn read(&mut self, buf: &mut [u8]) -> (out: (Result<usize, IoError>, Vec<StreamEffect>))
        requires
            old(self)@.valid(),
        ensures
            takes(old(self)@.serve_read(old(buf)@.len()).step, final(self)@, out.1@),
            match (old(self)@.serve_read(old(buf)@.len()).result, out.0) {
                (Ok(bytes), Ok(n)) => n == bytes.len() && final(buf)@ == bytes + old(buf)@.skip(
                    n as int,
                ),
                (Err(expected), Err(e)) => e == expected && final(buf)@ == old(buf)@,
                _ => false,
            },
            final(self)@.valid(),
    {
        let mut effects: Vec<StreamEffect> = Vec::new();
        // Make sure we're registered
        if !self.registered() {
            return (Err(would_block()), effects);
        }
        let mut state: State<usize, (Vec<u8>, usize)> = State::Idle;
        std::mem::swap(&mut state, &mut self.io.read);
        match state {
            // In theory not possible once the stream is registered, but return
            // would block for now.
            State::Idle => (Err(would_block()), effects),
            // A read is in flight, still waiting for it to finish
            State::Pending(size) => {
                self.io.read = State::Pending(size);
                (Err(would_block()), effects)
            },
            // We previously read something into `data`, try to copy out some
            // data. If we copy out all the data schedule a new read and
            // otherwise store the buffer to get read later.
            State::Done((data, cur)) => {
                let len: usize = data.len();
                let n: usize = copy_out(&data, cur, buf);
                let next: usize = cur + n;
                if next != len {
                    self.io.read = State::Done((data, next));
                } else {
                    self.schedule_read(false, &mut effects);
                }
                (Ok(n), effects)
            },
            // Looks like an in-flight read hit an error, return that here while
            // we schedule a new one.
            State::Failed(e) => {
                self.schedule_read(false, &mut effects);
                (Err(e), effects)
            },
        }
    }

    /// Writes the bytes of `buf`: takes a copy of all of them and writes that in
    /// the background.
    ///
    /// While a write is in flight, after one has failed until `take_error` has handed
    /// out its error, and while the stream is not registered, this is answered with
    /// `WouldBlock`.
    pub fn write(&mut self, buf: &[u8]) -> (out: (Result<usize, IoError>, Vec<StreamEffect>))
        requires
            old(self)@.valid(),
        ensures
            takes(old(self)@.serve_write(buf@).step, final(self)@, out.1@),
            match (old(self)@.serve_write(buf@).result, out.0) {
                (Ok(expected), Ok(n)) => n == expected,
                (Err(expected), Err(e)) => e == expected,
                _ => false,
            },
            final(self)@.valid(),
    {
        let mut effects: Vec<StreamEffect> = Vec::new();
        // Make sure we're registered
        if !self.registered() {
            return (Err(would_block()), effects);
        }
        // Make sure there's no writes pending
        match self.io.write {
            State::Idle => {},
            _ => return (Err(would_block()), effects),
        }
        // Move `buf` onto the heap and fire off the write
        self.schedule_write(slice_to_vec(buf), 0, &mut effects);
        (Ok(buf.len()), effects)
    }

    /// Flushes nothing: a write that was taken is on its way already.
    pub fn flush(&mut self) -> (result: Result<(), IoError>)
        ensures
            result is Ok,
            final(self)@ == old(self)@,
    {
        Ok(())
    }

    /// The stream was registered with an event loop.
    ///
    /// If it was connected before being registered, that request is processed now,
    /// and the outcome of `connect_scheduled` is that of the registration.
    pub fn register(&mut self) -> (effects: Vec<StreamEffect>)
        requires
            old(self)@.valid(),
        ensures
            takes(old(self)@.register(), final(self)@, effects@),
            final(self)@.valid(),
    {
        let mut effects: Vec<StreamEffect> = Vec::new();
        self.registered = true;
        if let Some(addr) = self.io.deferred_connect.take() {
            effects.push(Effect::StartConnect(addr));
            return effects;
        }
        self.post_register(&mut effects);
        effects
    }

    /// The registration of the stream with its event loop was changed.
    pub fn reregister(&mut self) -> (effects: Vec<StreamEffect>)
        requires
            old(self)@.valid(),
        ensures
            takes(old(self)@.post_register(), final(self)@, effects@),
            final(self)@.valid(),
    {
        let mut effects: Vec<StreamEffect> = Vec::new();
        self.post_register(&mut effects);
        effects
    }

    /// The operation that connects was handed to the system.
    pub fn connect_scheduled(&mut self, result: Result<(), IoError>) -> (out: (
        Result<(), IoError>,
        Vec<StreamEffect>,
    ))
        requires
            old(self)@.valid(),
        ensures
            out.0 == result,
            takes(old(self)@.connect_scheduled(result), final(self)@, out.1@),
            final(self)@.valid(),
    {
        let mut effects: Vec<StreamEffect> = Vec::new();
        if result.is_ok() {
            effects.push(Effect::Retain);
        }
        (result, effects)
    }

    /// The read that an effect asked for was handed to the system.
    ///
    /// Returns `true` if a normal error happened or if the read is in flight. If
    /// nobody is connected then `false` is returned, and there is no read.
    pub fn read_scheduled(
        &mut self,
        ready: Ready,
        then_writable: bool,
        result: Result<(), IoError>,
    ) -> (out: (bool, Vec<StreamEffect>))
        requires
            old(self)@.valid(),
            old(self)@.read_starting(ready_events(ready)),
        ensures
            takes(
                old(self)@.read_scheduled(ready_events(ready), then_writable, result),
                final(self)@,
                out.1@,
            ),
            out.0 == !unconnected(result),
            final(self)@.valid(),
    {
        let mut effects: Vec<StreamEffect> = Vec::new();
        match result {
            Ok(_) => {
                self.io.read = State::Pending(READ_BUFFER_SIZE);
                effects.push(Effect::Retain);
            },
            // There is nothing to read from.
            Err(e) if e.is_unconnected() => return (false, effects),
            // If some other error happened, though, we're now readable to give out
            // the error.
            Err(e) => {
                self.io.read = State::Failed(e);
                let ready = ready_or(ready, Ready::readable());
                self.set_readiness(ready, &mut effects);
            },
        }
        if then_writable {
            self.offer_write(&mut effects);
        }
        (true, effects)
    }

    /// The write that an effect asked for was handed to the system.
    pub fn write_scheduled(
        &mut self,
        buf: Vec<u8>,
        pos: usize,
        result: Result<(), IoError>,
    ) -> (effects: Vec<StreamEffect>)
        requires
            old(self)@.valid(),
            old(self)@.write_starting(buf@, pos),
        ensures
            takes(old(self)@.write_scheduled(buf@, pos, result), final(self)@, effects@),
            final(self)@.valid(),
    {
        let mut effects: Vec<StreamEffect> = Vec::new();
        match result {
            Ok(_) => {
                self.io.write = State::Pending((buf, pos));
                effects.push(Effect::Retain);
            },
            Err(e) => {
                self.io.write = State::Failed(e);
                self.add_readiness(Ready::writable(), &mut effects);
            },
        }
        effects
    }

    /// The operation that connects has completed. Where it has succeeded, the call
    /// that completes the connection is to be made.
    pub fn connect_done(&mut self, result: Result<(), IoError>) -> (effects: Vec<StreamEffect>)
        requires
            old(self)@.valid(),
            old(self)@.connecting,
        ensures
            takes(old(self)@.connect_done(result), final(self)@, effects@),
            final(self)@.valid(),
    {
        let mut effects: Vec<StreamEffect> = Vec::new();
        // Flag ourselves as no longer connecting.
        self.connecting = false;
        match result {
            Ok(_) => {
                effects.push(Effect::CompleteConnect);
                effects
            },
            Err(e) => self.connect_completed(Err(e)),
        }
    }

    /// The call that completes the connection was made, or connecting has failed
    /// before.
    pub fn connect_completed(&mut self, result: Result<(), IoError>) -> (effects: Vec<StreamEffect>)
        requires
            old(self)@.valid(),
        ensures
            takes(old(self)@.connect_completed(result), final(self)@, effects@),
            final(self)@.valid(),
    {
        let mut effects: Vec<StreamEffect> = Vec::new();
        // Stash away our connect error if one happened.
        if let Err(e) = result {
            self.io.connect_error = Some(e);
        }
        // We essentially just finished a registration, so kick off a read and
        // register write readiness.
        self.post_register(&mut effects);
        effects
    }

    /// A read has completed: `buf` is its buffer, and the result says how many
    /// bytes of it were filled.
    pub fn read_done(&mut self, buf: Vec<u8>, result: Result<usize, IoError>) -> (effects: Vec<
        StreamEffect,
    >)
        requires
            old(self)@.valid(),
            old(self)@.read is Pending,
            result matches Ok(n) ==> n <= buf@.len(),
        ensures
            takes(
                old(self)@.read_done(
                    match result {
                        Ok(n) => Ok(buf@.take(n as int)),
                        Err(e) => Err(e),
                    },
                ),
                final(self)@,
                effects@,
            ),
            final(self)@.valid(),
    {
        let mut effects: Vec<StreamEffect> = Vec::new();
        let mut buf = buf;
        // Move out of the `Pending` state.
        match result {
            Ok(n) => {
                buf.truncate(n);
                self.io.read = State::Done((buf, 0));
            },
            Err(e) => {
                self.io.read = State::Failed(e);
            },
        }
        // Flag our readiness that we've got data.
        self.add_readiness(Ready::readable(), &mut effects);
        effects
    }

    /// A write has completed; the result says how many bytes were written.
    pub fn write_done(&mut self, result: Result<usize, IoError>) -> (effects: Vec<StreamEffect>)
        requires
            old(self)@.valid(),
            old(self)@.write matches State::Pending((buf, pos)) && (result matches Ok(n) ==> pos + n
                <= buf.len()),
        ensures
            takes(old(self)@.write_done(result), final(self)@, effects@),
            final(self)@.valid(),
    {
        let mut effects: Vec<StreamEffect> = Vec::new();
        // Make the state change out of `Pending`. If we wrote the entire buffer
        // then we're writable again and otherwise we schedule another write.
        let mut state: State<(Vec<u8>, usize), (Vec<u8>, usize)> = State::Idle;
        std::mem::swap(&mut state, &mut self.io.write);
        if let State::Pending((buf, pos)) = state {
            match result {
                Ok(n) => {
                    let len: usize = buf.len();
                    let new_pos: usize = pos + n;
                    if new_pos == len {
                        self.add_readiness(Ready::writable(), &mut effects);
                    } else {
                        self.schedule_write(buf, new_pos, &mut effects);
                    }
                },
                Err(e) => {
                    self.io.write = State::Failed(e);
                    self.add_readiness(Ready::writable(), &mut effects);
                },
            }
        }
        effects
    }

    /// Whether the stream is on its way to be connected.
    pub fn is_connecting(&self) -> (connecting: bool)
        ensures
            connecting == self@.connecting,
    {
        self.connecting
    }

    /// Whether a read is in flight.
    pub fn is_reading(&self) -> (reading: bool)
        ensures
            reading == (self@.read is Pending),
    {
        match self.io.read {
            State::Pending(_) => true,
            _ => false,
        }
    }

    /// How many bytes the write in flight has been given, if there is one.
    pub fn writing(&self) -> (len: Option<usize>)
        requires
            self@.valid(),
        ensures
            len == match self@.write {
                State::Pending((buf, pos)) => Some((buf.len() - pos) as usize),
                _ => None,
            },
    {
        match &self.io.write {
            State::Pending((buf, pos)) => Some(buf.len() - *pos),
            _ => None,
        }
    }

    /// What is to be cancelled when the stream goes away. Writes are not, to
    /// ensure that everything is flushed out.
    pub fn drop(&self) -> (effects: Vec<StreamEffect>)
        ensures
            trace(effects@) == self@.drop_effects(),
    {
        let mut effects: Vec<StreamEffect> = Vec::new();
        if self.connecting {
            effects.push(Effect::CancelConnect);
        }
        match self.io.read {
            State::Pending(_) => {
                effects.push(Effect::CancelRead);
            },
            _ => {},
        }
        effects
    }

    /// Gives up the stream once nothing refers to it any more. Its socket is to be
    /// closed.
    pub fn into_socket(self) -> (socket: Socket)
        ensures
            socket@ == self@.socket,
    {
        Socket::from_raw_socket(self.socket.into_raw_socket())
    }

    /// The number by which the system knows the socket.
    pub fn as_raw_socket(&self) -> (raw: usize)
        ensures
            raw == self@.socket,
    {
        self.socket.as_raw_socket()
    }

    /// The stream of a connected socket that the system knows by this number.
    pub fn from_raw_socket(raw: usize) -> (stream: UnixStream)
        ensures
            stream@ == StreamView::fresh(raw, None, false),
            stream@.valid(),
    {
        UnixStream::new(raw, None)
    }

    fn schedule_read(&mut self, then_writable: bool, effects: &mut Vec<StreamEffect>)
        requires
            socket_events(old(self)@.readiness),
            if old(self)@.read is Idle {
                (StreamView {
                    readiness: old(self)@.readiness.remove(read_event()),
                    ..old(self)@
                }).valid()
            } else {
                old(self)@.valid()
            },
        ensures
            adds(
                old(self)@.schedule_read(then_writable),
                final(self)@,
                old(effects)@,
                final(effects)@,
            ),
            final(self)@.valid(),
    {
        // Check to see if a read is already scheduled/completed
        match self.io.read {
            State::Idle => {},
            _ => {
                if then_writable {
                    self.offer_write(effects);
                }
                return;
            },
        }
        // Turn off our read readiness
        let ready = self.readiness;
        let rest = without_events(ready, Ready::readable());
        self.set_readiness(rest, effects);
        let ghost told = trace(effects@);
        effects.push(Effect::StartRead { size: READ_BUFFER_SIZE, ready, then_writable });
        proof {
            assert(trace(effects@) =~= told.push(
                Effect::StartRead {
                    size: READ_BUFFER_SIZE,
                    ready: ready_events(ready),
                    then_writable,
                },
            ));
            assert(self@.readiness =~= old(self)@.readiness.remove(read_event()));
        }
    }

    fn schedule_write(&mut self, buf: Vec<u8>, pos: usize, effects: &mut Vec<StreamEffect>)
        requires
            old(self)@.valid(),
            old(self)@.write is Idle,
        ensures
            adds(
                old(self)@.schedule_write(buf@, pos),
                final(self)@,
                old(effects)@,
                final(effects)@,
            ),
            final(self)@.valid(),
    {
        // Very similar to `schedule_read` above, just done for the write half.
        let rest = without_events(self.readiness, Ready::writable());
        self.set_readiness(rest, effects);
        let ghost told = trace(effects@);
        let ghost bytes = buf@;
        effects.push(Effect::StartWrite { buf, pos });
        proof {
            assert(trace(effects@) =~= told.push(Effect::StartWrite { buf: bytes, pos }));
            assert(self@.readiness =~= old(self)@.readiness.remove(write_event()));
        }
    }

    fn post_register(&mut self, effects: &mut Vec<StreamEffect>)
        requires
            old(self)@.valid(),
        ensures
            adds(old(self)@.post_register(), final(self)@, old(effects)@, final(effects)@),
            final(self)@.valid(),
    {
        self.schedule_read(true, effects);
    }

    fn offer_write(&mut self, effects: &mut Vec<StreamEffect>)
        ensures
            adds(old(self)@.offer_write(), final(self)@, old(effects)@, final(effects)@),
    {
        if let State::Idle = self.io.write {
            self.add_readiness(Ready::writable(), effects);
        }
    }

    fn add_readiness(&mut self, ready: Ready, effects: &mut Vec<StreamEffect>)
        ensures
            adds(
                old(self)@.add_readiness(ready_events(ready)),
                final(self)@,
                old(effects)@,
                final(effects)@,
            ),
    {
        let ready = ready_or(ready, self.readiness);
        self.set_readiness(ready, effects);
    }

    fn set_readiness(&mut self, ready: Ready, effects: &mut Vec<StreamEffect>)
        ensures
            adds(
                old(self)@.announce(ready_events(ready)),
                final(self)@,
                old(effects)@,
                final(effects)@,
            ),
    {
        self.readiness = ready;
        effects.push(Effect::SetReadiness(ready));
    }
}

/// Copies bytes from where `cur` points on, as many as there are and as `buf` has
/// room for.
fn copy_out(data: &Vec<u8>, cur: usize, buf: &mut [u8]) -> (n: usize)
    requires
        cur <= data@.len(),
    ensures
        n == if old(buf)@.len() < data@.len() - cur {
            old(buf)@.len() as int
        } else {
            data@.len() - cur
        },
        final(buf)@ == data@.subrange(cur as int, cur + n) + old(buf)@.skip(n as int),
{
    let len: usize = data.len();
    let left: usize = len - cur;
    let n: usize = if buf.len() < left {
        buf.len()
    } else {
        left
    };
    let mut i: usize = 0;
    while i < n
        invariant
            i <= n <= old(buf)@.len(),
            cur + n <= len == data@.len(),
            buf@ == data@.subrange(cur as int, cur + i) + old(buf)@.skip(i as int),
        decreases n - i,
    {
        buf[i] = data[cur + i];
        i += 1;
    }
    n
}

} // verus!
