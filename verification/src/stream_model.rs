//! How a stream turns completed operations into readiness.
//!
//! The functions here say, for every state of a stream and everything that can
//! happen to it, which state follows and what the driver has to do.
use vstd::prelude::*;

use crate::address::AddrView;
use crate::effect::{Effect, StreamEffectView};
use crate::error::IoError;
use crate::ready::{read_event, socket_events, write_event};
use crate::state::State;

verus! {

/// How many bytes one read asks the system for at most.
pub const READ_BUFFER_SIZE: usize = 8192;

/// The system has refused a read because nobody is connected.
pub open spec fn unconnected(result: Result<(), IoError>) -> bool {
    result matches Err(e) && e.unconnected()
}

/// What a stream holds.
pub struct StreamView {
    /// The socket.
    pub socket: usize,
    /// Whether the stream is associated with an event loop.
    pub registered: bool,
    /// The events that the stream was last said to be ready for.
    pub readiness: Set<int>,
    /// Whether the stream is on its way to be connected.
    pub connecting: bool,
    /// The read half: an operation in flight has a buffer of so many bytes; a
    /// finished one has left bytes, of which so many were handed out already.
    pub read: State<usize, (Seq<u8>, usize)>,
    /// The write half: an operation in flight writes what is in the buffer from
    /// the position on.
    pub write: State<(Seq<u8>, usize), (Seq<u8>, usize)>,
    /// The address to connect to once there is an event loop.
    pub deferred_connect: Option<AddrView>,
    /// Why connecting has failed, until someone has asked.
    pub connect_error: Option<IoError>,
}

/// What follows from something that happens to a stream.
pub struct Step {
    /// The state afterwards.
    pub post: StreamView,
    /// What the driver has to do.
    pub effects: Seq<StreamEffectView>,
}

/// What follows from a request to read or to write.
pub struct Served<T> {
    /// What the request returns.
    pub result: Result<T, IoError>,
    /// What follows besides.
    pub step: Step,
}

impl StreamView {
    /// A stream that was just made from a socket.
    pub open spec fn fresh(socket: usize, addr: Option<AddrView>, connecting: bool) -> StreamView {
        StreamView {
            socket,
            registered: false,
            readiness: Set::empty(),
            connecting,
            read: State::Idle,
            write: State::Idle,
            deferred_connect: addr,
            connect_error: None,
        }
    }

    /// What every stream keeps to.
    ///
    /// A stream is readable only if a read has an outcome to hand out, and not
    /// writable while a write is in flight. A buffer that is kept has bytes left
    /// in it, unless it was empty from the start, and fits in memory.
    pub open spec fn valid(self) -> bool {
        &&& socket_events(self.readiness)
        &&& self.readiness.contains(read_event()) ==> self.read is Done || self.read is Failed
        &&& match self.read {
            State::Pending(size) => size == READ_BUFFER_SIZE,
            State::Done((data, cur)) => (cur == 0 || cur < data.len()) && data.len() <= usize::MAX,
            _ => true,
        }
        &&& match self.write {
            State::Pending((buf, pos)) => (pos == 0 || pos < buf.len()) && buf.len()
                <= usize::MAX && !self.readiness.contains(write_event()),
            State::Done(_) => false,
            _ => true,
        }
    }

    /// The stream says nothing and does nothing.
    pub open spec fn rest(self) -> Step {
        Step { post: self, effects: Seq::empty() }
    }

    /// The stream says that it is ready for these events.
    pub open spec fn announce(self, readiness: Set<int>) -> Step {
        Step {
            post: StreamView { readiness, ..self },
            effects: seq![Effect::SetReadiness(readiness)],
        }
    }

    /// The stream becomes ready for these events, besides those that it is ready
    /// for already.
    pub open spec fn add_readiness(self, events: Set<int>) -> Step {
        self.announce(events.union(self.readiness))
    }

    /// The stream becomes writable, if there is nothing that waits to be written.
    pub open spec fn offer_write(self) -> Step {
        if self.write is Idle {
            self.add_readiness(set![write_event()])
        } else {
            self.rest()
        }
    }

    /// A read of at most `READ_BUFFER_SIZE` bytes is started if there is none, neither
    /// one in flight nor one whose outcome was not handed out yet. Until it completes
    /// the stream is not readable. Afterwards, where this is asked for, the stream is
    /// offered for writing.
    pub open spec fn schedule_read(self, then_writable: bool) -> Step {
        if self.read is Idle {
            let ready = self.readiness.remove(read_event());
            Step {
                post: StreamView { readiness: ready, ..self },
                effects: seq![
                    Effect::SetReadiness(ready),
                    Effect::StartRead {
                        size: READ_BUFFER_SIZE,
                        ready: self.readiness,
                        then_writable,
                    },
                ],
            }
        } else if then_writable {
            self.offer_write()
        } else {
            self.rest()
        }
    }

    /// A read was asked for of which the system was not told yet; before that the
    /// stream was ready for these events.
    pub open spec fn read_starting(self, ready: Set<int>) -> bool {
        &&& self.read is Idle
        &&& socket_events(ready)
        &&& self.readiness == ready.remove(read_event())
    }

    /// A write was asked for of which the system was not told yet.
    pub open spec fn write_starting(self, buf: Seq<u8>, pos: usize) -> bool {
        &&& self.write is Idle
        &&& !self.readiness.contains(write_event())
        &&& pos == 0 || pos < buf.len()
        &&& buf.len() <= usize::MAX
    }

    /// The system has taken a read, or has refused it. A refusal is kept, and
    /// makes the stream readable, so that it is asked for. Where nobody is
    /// connected, though, there is no read, and the stream is not offered for
    /// writing either.
    pub open spec fn read_scheduled(
        self,
        ready: Set<int>,
        then_writable: bool,
        result: Result<(), IoError>,
    ) -> Step {
        if unconnected(result) {
            self.rest()
        } else {
            self.read_settled(ready, then_writable, result)
        }
    }

    /// As `read_scheduled`, where a read is in flight or its refusal is kept.
    pub open spec fn read_settled(
        self,
        ready: Set<int>,
        then_writable: bool,
        result: Result<(), IoError>,
    ) -> Step {
        let first = match result {
            Ok(_) => Step {
                post: StreamView { read: State::Pending(READ_BUFFER_SIZE), ..self },
                effects: seq![Effect::Retain],
            },
            Err(e) => StreamView { read: State::Failed(e), ..self }.announce(
                ready.union(set![read_event()]),
            ),
        };
        if then_writable {
            let second = first.post.offer_write();
            Step { post: second.post, effects: first.effects + second.effects }
        } else {
            first
        }
    }

    /// A read has completed.
    pub open spec fn read_done(self, result: Result<Seq<u8>, IoError>) -> Step {
        StreamView {
            read: match result {
                Ok(data) => State::Done((data, 0)),
                Err(e) => State::Failed(e),
            },
            ..self
        }.add_readiness(set![read_event()])
    }

    /// Someone wants to read as many bytes as there is room for.
    ///
    /// Bytes that were read before are handed out from where the last request
    /// ended. Once all of them are handed out, and once an error is handed out,
    /// the next read is started.
    pub open spec fn serve_read(self, room: nat) -> Served<Seq<u8>> {
        match self.read {
            State::Done((data, cur)) if self.registered => {
                let n = if room < data.len() - cur {
                    room as int
                } else {
                    data.len() - cur
                };
                Served {
                    result: Ok(data.subrange(cur as int, cur + n)),
                    step: if cur + n != data.len() {
                        StreamView { read: State::Done((data, (cur + n) as usize)), ..self }.rest()
                    } else {
                        StreamView { read: State::Idle, ..self }.schedule_read(false)
                    },
                }
            },
            State::Failed(e) if self.registered => Served {
                result: Err(e),
                step: StreamView { read: State::Idle, ..self }.schedule_read(false),
            },
            _ => Served { result: Err(IoError::WouldBlock), step: self.rest() },
        }
    }

    /// A write of what is in the buffer from the position on is started. Until it
    /// completes the stream is not writable.
    pub open spec fn schedule_write(self, buf: Seq<u8>, pos: usize) -> Step {
        let ready = self.readiness.remove(write_event());
        Step {
            post: StreamView { readiness: ready, ..self },
            effects: seq![Effect::SetReadiness(ready), Effect::StartWrite { buf, pos }],
        }
    }

    /// The system has taken a write, or has refused it.
    pub open spec fn write_scheduled(
        self,
        buf: Seq<u8>,
        pos: usize,
        result: Result<(), IoError>,
    ) -> Step {
        match result {
            Ok(_) => Step {
                post: StreamView { write: State::Pending((buf, pos)), ..self },
                effects: seq![Effect::Retain],
            },
            Err(e) => StreamView { write: State::Failed(e), ..self }.add_readiness(set![write_event()]),
        }
    }

    /// A write of so many bytes has completed. Where bytes of the buffer are left,
    /// they are written next.
    pub open spec fn write_done(self, result: Result<usize, IoError>) -> Step {
        match (self.write, result) {
            (State::Pending((buf, pos)), Ok(n)) => {
                let idle = StreamView { write: State::Idle, ..self };
                if pos + n == buf.len() {
                    idle.add_readiness(set![write_event()])
                } else {
                    idle.schedule_write(buf, (pos + n) as usize)
                }
            },
            (_, Err(e)) => StreamView { write: State::Failed(e), ..self }.add_readiness(set![write_event()]),
            _ => arbitrary(),
        }
    }

    /// Someone wants to write these bytes. All of them are taken, or none.
    pub open spec fn serve_write(self, bytes: Seq<u8>) -> Served<nat> {
        if self.registered && self.write is Idle {
            Served { result: Ok(bytes.len()), step: self.schedule_write(bytes, 0) }
        } else {
            Served { result: Err(IoError::WouldBlock), step: self.rest() }
        }
    }

    /// The stream was registered with an event loop again, or is connected.
    pub open spec fn post_register(self) -> Step {
        self.schedule_read(true)
    }

    /// The stream was registered with an event loop. A stream that was to connect
    /// starts to do so; any other starts to read and is offered for writing.
    pub open spec fn register(self) -> Step {
        let registered = StreamView { registered: true, ..self };
        match self.deferred_connect {
            Some(addr) => Step {
                post: StreamView { deferred_connect: None, ..registered },
                effects: seq![Effect::StartConnect(addr)],
            },
            None => registered.post_register(),
        }
    }

    /// The system has taken the operation that connects, or has refused it.
    pub open spec fn connect_scheduled(self, result: Result<(), IoError>) -> Step {
        Step {
            post: self,
            effects: if result is Ok {
                seq![Effect::Retain]
            } else {
                Seq::empty()
            },
        }
    }

    /// The operation that connects has completed. If it has succeeded, and only
    /// then, the call that completes the connection is made.
    pub open spec fn connect_done(self, result: Result<(), IoError>) -> Step {
        let done = StreamView { connecting: false, ..self };
        match result {
            Ok(_) => Step { post: done, effects: seq![Effect::CompleteConnect] },
            Err(e) => done.connect_completed(Err(e)),
        }
    }

    /// It is known whether the stream is connected. An error is kept for
    /// `take_error`; either way the stream starts to read and is offered for
    /// writing.
    pub open spec fn connect_completed(self, result: Result<(), IoError>) -> Step {
        StreamView {
            connect_error: match result {
                Ok(_) => self.connect_error,
                Err(e) => Some(e),
            },
            ..self
        }.post_register()
    }

    /// The error that `take_error` hands out: that of connecting or, where there is
    /// none, that of a write.
    pub open spec fn pending_error(self) -> Option<IoError> {
        match (self.connect_error, self.write) {
            (Some(e), _) => Some(e),
            (None, State::Failed(e)) => Some(e),
            _ => None,
        }
    }

    /// The error that `take_error` hands out is that of a write.
    pub open spec fn write_error_pending(self) -> bool {
        self.connect_error is None && self.write is Failed
    }

    /// The error that `take_error` hands out was handed out. After that of a write,
    /// there is nothing that waits to be written.
    pub open spec fn take_error(self) -> StreamView {
        if self.write_error_pending() {
            StreamView { write: State::Idle, ..self }
        } else {
            StreamView { connect_error: None, ..self }
        }
    }

    /// The halves of the connection were shut down, or the system has refused.
    pub open spec fn shutdown_done(self, result: Result<(), IoError>) -> Step {
        match result {
            Ok(_) => self.announce(Set::empty()),
            Err(_) => self.rest(),
        }
    }

    /// What is to be cancelled when the stream goes away: what connects and what
    /// reads, but not what writes, so that everything is flushed out.
    pub open spec fn drop_effects(self) -> Seq<StreamEffectView> {
        (if self.connecting {
            seq![Effect::CancelConnect]
        } else {
            Seq::empty()
        }) + (if self.read is Pending {
            seq![Effect::CancelRead]
        } else {
            Seq::empty()
        })
    }

    /// The bytes that were read and not handed out yet.
    pub open spec fn buffered(self) -> Seq<u8> {
        match self.read {
            State::Done((data, cur)) => data.skip(cur as int),
            _ => Seq::empty(),
        }
    }
}

} // verus!
