//! Tasks that make a socket in several calls of the system.
//!
//! A task is the rest of such a sequence of calls. It is resumed with what the
//! last call returned, and tells the next call to make, or how the sequence has
//! ended.
use vstd::prelude::*;

use crate::address::{
    parts_address, path_address, plausible_len, representable, AddrView, SockaddrUn, SocketAddr,
    AF_UNIX,
};
use crate::error::IoError;
use crate::socket::{
    create_call, cvt, cvt_z, init, no_inherit_call, nonblocking_call, startup_call, status_outcome,
    Call, Interface, Socket, INVALID_SOCKET, SOCKET_ERROR, SOCK_STREAM, WSA_FLAG_OVERLAPPED,
};

verus! {

/// How many connections may wait at a listening socket.
pub const BACKLOG: i32 = 128;

/// What a task makes; `P` is the type of paths.
pub enum Goal<P> {
    /// A socket.
    Socket,
    /// A socket for an accepted connection, with the address of its peer.
    Peer,
    /// A socket that is connected to the socket at a path.
    Connect(P),
    /// A socket that waits for connections at a path.
    Listen(P),
    /// A nonblocking socket, with the address that it is to be connected to.
    Deferred(P),
}

/// Which call a task waits for; `K` is the type of sockets, `A` that of
/// addresses.
pub enum Stage<K, A> {
    /// The call that starts the socket interface.
    Startup,
    /// The call that makes a socket.
    Create,
    /// The call that takes a connection.
    Accept,
    /// The call that describes a socket.
    Duplicate,
    /// The call that makes the socket that was described.
    CreateDuplicate,
    /// The call that keeps child processes from inheriting the socket. The
    /// address of the peer is known where the socket was accepted for it.
    NoInherit(K, Option<Result<A, IoError>>),
    /// The call that makes the socket nonblocking.
    NonBlocking(K),
    /// The call that connects the socket.
    Connect(K),
    /// The call that gives the socket its address.
    Bind(K),
    /// The call that lets the socket wait for connections.
    Listen(K),
}

/// What the system says of a socket that it has described.
#[derive(Clone, Copy, Debug, PartialEq, Eq, Structural)]
pub struct ProtocolInfo {
    /// The address family.
    pub family: i32,
    /// The socket type.
    pub kind: i32,
    /// The protocol.
    pub protocol: i32,
}

/// What a call of the system returned, with the code of the error that it gave
/// where the call failed.
pub enum Reply {
    /// A call that makes a socket.
    Socket { raw: usize, last_error: i32 },
    /// A call that takes a connection and writes the address of the peer.
    Accepted { raw: usize, last_error: i32, addr: SockaddrUn, len: i32 },
    /// A call that describes a socket.
    Described { status: i32, last_error: i32, info: ProtocolInfo },
    /// Any other call.
    Status { status: i32, last_error: i32 },
}

/// How far a task has come; `K` is the type of sockets, `A` that of addresses,
/// and `T` that of tasks.
pub enum Progress<K, A, T> {
    /// The task goes on with a call.
    Next(Call<A>, T),
    /// The task has made its socket, and has found an address for it.
    Complete(K, Option<A>),
    /// The task has failed. The socket, if there is one, is to be closed.
    Fail(IoError, Option<K>),
}

/// A task that makes a socket.
pub struct SocketTask {
    goal: Goal<Vec<u8>>,
    stage: Stage<Socket, SocketAddr>,
}

/// What a task holds.
pub struct TaskView {
    /// What the task makes.
    pub goal: Goal<Seq<u8>>,
    /// Which call it waits for.
    pub stage: Stage<usize, AddrView>,
}

impl View for Goal<Vec<u8>> {
    type V = Goal<Seq<u8>>;

    open spec fn view(&self) -> Goal<Seq<u8>> {
        match *self {
            Goal::Socket => Goal::Socket,
            Goal::Peer => Goal::Peer,
            Goal::Connect(path) => Goal::Connect(path@),
            Goal::Listen(path) => Goal::Listen(path@),
            Goal::Deferred(path) => Goal::Deferred(path@),
        }
    }
}

/// The address of the peer, without its representation.
pub open spec fn peer_view(peer: Option<Result<SocketAddr, IoError>>) -> Option<
    Result<AddrView, IoError>,
> {
    match peer {
        Some(Ok(addr)) => Some(Ok(addr@)),
        Some(Err(e)) => Some(Err(e)),
        None => None,
    }
}

impl View for Stage<Socket, SocketAddr> {
    type V = Stage<usize, AddrView>;

    open spec fn view(&self) -> Stage<usize, AddrView> {
        match *self {
            Stage::Startup => Stage::Startup,
            Stage::Create => Stage::Create,
            Stage::Accept => Stage::Accept,
            Stage::Duplicate => Stage::Duplicate,
            Stage::CreateDuplicate => Stage::CreateDuplicate,
            Stage::NoInherit(socket, peer) => Stage::NoInherit(socket@, peer_view(peer)),
            Stage::NonBlocking(socket) => Stage::NonBlocking(socket@),
            Stage::Connect(socket) => Stage::Connect(socket@),
            Stage::Bind(socket) => Stage::Bind(socket@),
            Stage::Listen(socket) => Stage::Listen(socket@),
        }
    }
}

impl View for SocketTask {
    type V = TaskView;

    closed spec fn view(&self) -> TaskView {
        TaskView { goal: self.goal@, stage: self.stage@ }
    }
}

impl View for Progress<Socket, SocketAddr, SocketTask> {
    type V = Progress<usize, AddrView, TaskView>;

    open spec fn view(&self) -> Progress<usize, AddrView, TaskView> {
        match *self {
            Progress::Next(call, task) => Progress::Next(call@, task@),
            Progress::Complete(socket, Some(addr)) => Progress::Complete(socket@, Some(addr@)),
            Progress::Complete(socket, None) => Progress::Complete(socket@, None),
            Progress::Fail(error, Some(socket)) => Progress::Fail(error, Some(socket@)),
            Progress::Fail(error, None) => Progress::Fail(error, None),
        }
    }
}

impl Reply {
    /// The reply is one to the call that the task waits for. The socket interface
    /// always starts, and where the task reads the address of a peer, the system has
    /// given a length that fits it.
    pub open spec fn answers(self, task: TaskView) -> bool {
        match task.stage {
            Stage::Startup => self matches Reply::Status { status, .. } && status == 0,
            Stage::Create | Stage::CreateDuplicate => self is Socket,
            Stage::Accept => self matches Reply::Accepted { raw, len, .. } && (task.goal is Peer
                && raw != INVALID_SOCKET ==> plausible_len(len)),
            Stage::Duplicate => self is Described,
            _ => self is Status,
        }
    }

    /// The call to which this is a reply in this stage has succeeded.
    pub open spec fn succeeds(self, stage: Stage<usize, AddrView>) -> bool {
        match (stage, self) {
            (Stage::NoInherit(_, _), Reply::Status { status, .. }) => status != 0,
            (Stage::NonBlocking(_), Reply::Status { status, .. }) => status == 0,
            (_, Reply::Status { status, .. }) => status != SOCKET_ERROR,
            (_, Reply::Described { status, .. }) => status != SOCKET_ERROR,
            (_, Reply::Socket { raw, .. }) => raw != INVALID_SOCKET,
            (_, Reply::Accepted { raw, .. }) => raw != INVALID_SOCKET,
        }
    }

    /// The socket that the call has opened, if it has opened one.
    pub open spec fn opened(self) -> Option<usize> {
        match self {
            Reply::Socket { raw, .. } if raw != INVALID_SOCKET => Some(raw),
            Reply::Accepted { raw, .. } if raw != INVALID_SOCKET => Some(raw),
            _ => None,
        }
    }
}

/// A call that opens a socket has returned.
pub open spec fn after_open(
    goal: Goal<Seq<u8>>,
    raw: usize,
    last_error: i32,
    peer: Option<Result<AddrView, IoError>>,
) -> Progress<usize, AddrView, TaskView> {
    if raw == INVALID_SOCKET {
        Progress::Fail(IoError::Os(last_error), None)
    } else {
        Progress::Next(no_inherit_call(raw), TaskView { goal, stage: Stage::NoInherit(raw, peer) })
    }
}

/// Child processes do not inherit the socket any more.
pub open spec fn after_no_inherit(
    goal: Goal<Seq<u8>>,
    socket: usize,
    peer: Option<Result<AddrView, IoError>>,
) -> Progress<usize, AddrView, TaskView> {
    match (goal, peer) {
        (Goal::Socket, _) => Progress::Complete(socket, None),
        (Goal::Peer, Some(Err(e))) => Progress::Fail(e, Some(socket)),
        (Goal::Peer, Some(Ok(addr))) => Progress::Complete(socket, Some(addr)),
        (Goal::Peer, None) => Progress::Complete(socket, None),
        (Goal::Connect(path), _) => if representable(path) {
            Progress::Next(
                Call::Connect { socket, addr: path_address(path) },
                TaskView { goal, stage: Stage::Connect(socket) },
            )
        } else {
            Progress::Fail(IoError::InvalidInput, Some(socket))
        },
        (Goal::Listen(path), _) => if representable(path) {
            Progress::Next(
                Call::Bind { socket, addr: path_address(path) },
                TaskView { goal, stage: Stage::Bind(socket) },
            )
        } else {
            Progress::Fail(IoError::InvalidInput, Some(socket))
        },
        (Goal::Deferred(_), _) => Progress::Next(
            nonblocking_call(socket, true),
            TaskView { goal, stage: Stage::NonBlocking(socket) },
        ),
    }
}

/// The socket has become nonblocking.
pub open spec fn after_nonblocking(
    goal: Goal<Seq<u8>>,
    socket: usize,
) -> Progress<usize, AddrView, TaskView> {
    match goal {
        Goal::Deferred(path) => if representable(path) {
            Progress::Complete(socket, Some(path_address(path)))
        } else {
            Progress::Fail(IoError::InvalidInput, Some(socket))
        },
        _ => Progress::Complete(socket, None),
    }
}

/// How a task starts that needs the socket interface: with the call that starts it
/// or, if it was started, with the one that makes a socket.
pub open spec fn init_start(started: bool, goal: Goal<Seq<u8>>) -> (Call<AddrView>, TaskView) {
    if started {
        (create_call(), TaskView { goal, stage: Stage::Create })
    } else {
        (startup_call(), TaskView { goal, stage: Stage::Startup })
    }
}

impl TaskView {
    /// The address of the peer is known where the task is to find it, and a
    /// task makes its socket nonblocking, connects it or lets it listen only
    /// where that is what the socket is for and the path makes an address.
    pub open spec fn consistent(self) -> bool {
        match self.stage {
            Stage::Startup => self.goal is Connect || self.goal is Listen,
            Stage::Create => !(self.goal is Peer),
            Stage::Accept => self.goal is Socket || self.goal is Peer,
            Stage::Duplicate | Stage::CreateDuplicate => self.goal is Socket,
            Stage::NoInherit(_, peer) => self.goal is Peer <==> peer is Some,
            Stage::NonBlocking(_) => self.goal is Deferred,
            Stage::Connect(_) => self.goal matches Goal::Connect(path) && representable(path),
            Stage::Bind(_) | Stage::Listen(_) => self.goal matches Goal::Listen(path)
                && representable(path),
        }
    }

    /// The path that the task is to use, if it is to use one.
    pub open spec fn path(self) -> Option<Seq<u8>> {
        match self.goal {
            Goal::Connect(path) => Some(path),
            Goal::Listen(path) => Some(path),
            Goal::Deferred(path) => Some(path),
            _ => None,
        }
    }

    /// The same task at another stage.
    pub open spec fn at(self, stage: Stage<usize, AddrView>) -> TaskView {
        TaskView { stage, ..self }
    }

    /// The open socket that the task holds.
    pub open spec fn held(self) -> Option<usize> {
        match self.stage {
            Stage::NoInherit(socket, _) => Some(socket),
            Stage::NonBlocking(socket) => Some(socket),
            Stage::Connect(socket) => Some(socket),
            Stage::Bind(socket) => Some(socket),
            Stage::Listen(socket) => Some(socket),
            _ => None,
        }
    }

    /// How many calls the task can still make.
    pub open spec fn calls_left(self) -> nat {
        match self.stage {
            Stage::Startup => 5,
            Stage::Duplicate => 5,
            Stage::CreateDuplicate => 4,
            Stage::Create => 4,
            Stage::Accept => 4,
            Stage::NoInherit(_, _) => 3,
            Stage::Bind(_) => 2,
            _ => 1,
        }
    }

    /// How the task goes on from a reply to its call.
    pub open spec fn step(self, reply: Reply) -> Progress<usize, AddrView, TaskView> {
        match (self.stage, reply) {
            (Stage::Startup, Reply::Status { .. }) => Progress::Next(
                create_call(),
                self.at(Stage::Create),
            ),
            (Stage::Create, Reply::Socket { raw, last_error }) => after_open(
                self.goal,
                raw,
                last_error,
                None,
            ),
            (Stage::CreateDuplicate, Reply::Socket { raw, last_error }) => after_open(
                self.goal,
                raw,
                last_error,
                None,
            ),
            (Stage::Accept, Reply::Accepted { raw, last_error, addr, len }) => after_open(
                self.goal,
                raw,
                last_error,
                if self.goal is Peer {
                    Some(parts_address(addr, len))
                } else {
                    None
                },
            ),
            (Stage::Duplicate, Reply::Described { status, last_error, info }) => match status_outcome(
                status,
                last_error,
            ) {
                Ok(_) => Progress::Next(
                    Call::CreateDuplicate {
                        family: info.family,
                        kind: info.kind,
                        protocol: info.protocol,
                        flags: WSA_FLAG_OVERLAPPED,
                    },
                    self.at(Stage::CreateDuplicate),
                ),
                Err(e) => Progress::Fail(e, None),
            },
            (Stage::NoInherit(socket, peer), Reply::Status { status, last_error }) => if status
                == 0 {
                Progress::Fail(IoError::Os(last_error), Some(socket))
            } else {
                after_no_inherit(self.goal, socket, peer)
            },
            (Stage::NonBlocking(socket), Reply::Status { status, last_error }) => if status != 0 {
                Progress::Fail(IoError::Os(last_error), Some(socket))
            } else {
                after_nonblocking(self.goal, socket)
            },
            (Stage::Connect(socket), Reply::Status { status, last_error }) => match status_outcome(
                status,
                last_error,
            ) {
                Ok(_) => Progress::Complete(socket, None),
                Err(e) => Progress::Fail(e, Some(socket)),
            },
            (Stage::Bind(socket), Reply::Status { status, last_error }) => match status_outcome(
                status,
                last_error,
            ) {
                Ok(_) => Progress::Next(
                    Call::Listen { socket, backlog: BACKLOG },
                    self.at(Stage::Listen(socket)),
                ),
                Err(e) => Progress::Fail(e, Some(socket)),
            },
            (Stage::Listen(socket), Reply::Status { status, last_error }) => match status_outcome(
                status,
                last_error,
            ) {
                Ok(_) => Progress::Complete(socket, None),
                Err(e) => Progress::Fail(e, Some(socket)),
            },
            _ => arbitrary(),
        }
    }
}

impl SocketTask {
    /// The stage fits what the task makes.
    #[verifier::type_invariant]
    spec fn well_formed(self) -> bool {
        self@.consistent()
    }

    /// Starts with the call that makes a socket.
    pub(crate) fn create(goal: Goal<Vec<u8>>) -> (start: (Call<SocketAddr>, SocketTask))
        requires
            !(goal is Peer),
        ensures
            start.0@ == create_call(),
            start.1@ == (TaskView { goal: goal@, stage: Stage::Create }),
    {
        let call = Call::CreateSocket {
            family: AF_UNIX as i32,
            kind: SOCK_STREAM,
            protocol: 0,
            flags: WSA_FLAG_OVERLAPPED,
        };
        (call, SocketTask { goal, stage: Stage::Create })
    }

    /// Starts with the call that starts the socket interface, if that was not done,
    /// and otherwise with the one that makes a socket.
    pub(crate) fn init(interface: &mut Interface, goal: Goal<Vec<u8>>) -> (start: (
        Call<SocketAddr>,
        SocketTask,
    ))
        requires
            goal is Connect || goal is Listen,
        ensures
            start.0@ == init_start(old(interface)@, goal@).0,
            start.1@ == init_start(old(interface)@, goal@).1,
            final(interface)@,
    {
        match init(interface) {
            Some(call) => (call, SocketTask { goal, stage: Stage::Startup }),
            None => SocketTask::create(goal),
        }
    }

    /// Starts with the call that takes a connection from `listener`.
    pub(crate) fn accept(goal: Goal<Vec<u8>>, listener: usize) -> (start: (
        Call<SocketAddr>,
        SocketTask,
    ))
        requires
            goal is Socket || goal is Peer,
        ensures
            start.0@ == (Call::<AddrView>::Accept { socket: listener }),
            start.1@ == (TaskView { goal: goal@, stage: Stage::Accept }),
    {
        (Call::Accept { socket: listener }, SocketTask { goal, stage: Stage::Accept })
    }

    /// Starts with the call that describes a socket.
    pub(crate) fn duplicate(socket: usize) -> (start: (Call<SocketAddr>, SocketTask))
        ensures
            start.0@ == (Call::<AddrView>::DuplicateSocket { socket }),
            start.1@ == (TaskView { goal: Goal::Socket, stage: Stage::Duplicate }),
    {
        (
            Call::DuplicateSocket { socket },
            SocketTask { goal: Goal::Socket, stage: Stage::Duplicate },
        )
    }

    fn opened(
        goal: Goal<Vec<u8>>,
        raw: usize,
        last_error: i32,
        peer: Option<Result<SocketAddr, IoError>>,
    ) -> (progress: Progress<Socket, SocketAddr, SocketTask>)
        requires
            goal is Peer <==> peer is Some,
        ensures
            progress@ == after_open(
                    goal@,
                    raw,
                    last_error,
                    peer_view(peer),
                ),
    {
        if raw == INVALID_SOCKET {
            return Progress::Fail(IoError::Os(last_error), None);
        }
        let socket = Socket::from_raw_socket(raw);
        let call = socket.set_no_inherit();
        Progress::Next(call, SocketTask { goal, stage: Stage::NoInherit(socket, peer) })
    }

    /// Goes on from what the call returned that the task waits for.
    pub fn resume(self, reply: Reply) -> (progress: Progress<Socket, SocketAddr, SocketTask>)
        requires
            reply.answers(self@),
        ensures
            progress@ == self@.step(reply),
    {
        proof {
            use_type_invariant(&self);
        }
        let SocketTask { goal, stage } = self;
        match (stage, reply) {
            (Stage::Startup, Reply::Status { .. }) => {
                let (call, task) = SocketTask::create(goal);
                Progress::Next(call, task)
            },
            (Stage::Create, Reply::Socket { raw, last_error }) => {
                SocketTask::opened(goal, raw, last_error, None)
            },
            (Stage::CreateDuplicate, Reply::Socket { raw, last_error }) => {
                SocketTask::opened(goal, raw, last_error, None)
            },
            (Stage::Accept, Reply::Accepted { raw, last_error, addr, len }) => {
                if raw == INVALID_SOCKET {
                    return Progress::Fail(IoError::Os(last_error), None);
                }
                let peer = match goal {
                    Goal::Peer => Some(SocketAddr::from_parts(addr, len)),
                    _ => None,
                };
                SocketTask::opened(goal, raw, last_error, peer)
            },
            (Stage::Duplicate, Reply::Described { status, last_error, info }) => {
                match cvt(status, last_error) {
                    Ok(_) => Progress::Next(
                        Call::CreateDuplicate {
                            family: info.family,
                            kind: info.kind,
                            protocol: info.protocol,
                            flags: WSA_FLAG_OVERLAPPED,
                        },
                        SocketTask { goal, stage: Stage::CreateDuplicate },
                    ),
                    Err(e) => Progress::Fail(e, None),
                }
            },
            (Stage::NoInherit(socket, peer), Reply::Status { status, last_error }) => {
                match cvt_z(status, last_error) {
                    Ok(_) => SocketTask::sealed(goal, socket, peer),
                    Err(e) => Progress::Fail(e, Some(socket)),
                }
            },
            (Stage::NonBlocking(socket), Reply::Status { status, last_error }) => {
                match Socket::set_nonblocking_done(status, last_error) {
                    Ok(_) => match goal {
                        Goal::Deferred(path) => match SocketAddr::from_path(path.as_slice()) {
                            Ok(addr) => Progress::Complete(socket, Some(addr)),
                            Err(e) => Progress::Fail(e, Some(socket)),
                        },
                        _ => Progress::Complete(socket, None),
                    },
                    Err(e) => Progress::Fail(e, Some(socket)),
                }
            },
            (Stage::Connect(socket), Reply::Status { status, last_error }) => {
                match cvt(status, last_error) {
                    Ok(_) => Progress::Complete(socket, None),
                    Err(e) => Progress::Fail(e, Some(socket)),
                }
            },
            (Stage::Bind(socket), Reply::Status { status, last_error }) => {
                match cvt(status, last_error) {
                    Ok(_) => Progress::Next(
                        Call::Listen { socket: socket.as_raw_socket(), backlog: BACKLOG },
                        SocketTask { goal, stage: Stage::Listen(socket) },
                    ),
                    Err(e) => Progress::Fail(e, Some(socket)),
                }
            },
            (Stage::Listen(socket), Reply::Status { status, last_error }) => {
                match cvt(status, last_error) {
                    Ok(_) => Progress::Complete(socket, None),
                    Err(e) => Progress::Fail(e, Some(socket)),
                }
            },
            // Not reached: no other reply answers the call of the stage.
            _ => Progress::Fail(IoError::InvalidInput, None),
        }
    }

    fn sealed(
        goal: Goal<Vec<u8>>,
        socket: Socket,
        peer: Option<Result<SocketAddr, IoError>>,
    ) -> (progress: Progress<Socket, SocketAddr, SocketTask>)
        requires
            goal is Peer <==> peer is Some,
        ensures
            progress@ == after_no_inherit(
                    goal@,
                    socket@,
                    peer_view(peer),
                ),
    {
        match goal {
            Goal::Socket => Progress::Complete(socket, None),
            Goal::Peer => match peer {
                Some(Ok(addr)) => Progress::Complete(socket, Some(addr)),
                Some(Err(e)) => Progress::Fail(e, Some(socket)),
                None => Progress::Complete(socket, None),
            },
            Goal::Connect(path) => match SocketAddr::from_path(path.as_slice()) {
                Ok(addr) => Progress::Next(
                    Call::Connect { socket: socket.as_raw_socket(), addr },
                    SocketTask { goal: Goal::Connect(path), stage: Stage::Connect(socket) },
                ),
                Err(e) => Progress::Fail(e, Some(socket)),
            },
            Goal::Listen(path) => match SocketAddr::from_path(path.as_slice()) {
                Ok(addr) => Progress::Next(
                    Call::Bind { socket: socket.as_raw_socket(), addr },
                    SocketTask { goal: Goal::Listen(path), stage: Stage::Bind(socket) },
                ),
                Err(e) => Progress::Fail(e, Some(socket)),
            },
            Goal::Deferred(path) => Progress::Next(
                socket.set_nonblocking(true),
                SocketTask { goal: Goal::Deferred(path), stage: Stage::NonBlocking(socket) },
            ),
        }
    }
}

/// The socket that a task has made so far: it holds it, hands it out or gives it
/// back to be closed.
pub open spec fn socket_of(progress: Progress<usize, AddrView, TaskView>) -> Option<usize> {
    match progress {
        Progress::Next(_, task) => task.held(),
        Progress::Complete(socket, _) => Some(socket),
        Progress::Fail(_, socket) => socket,
    }
}

/// Where a task has come after the replies; those behind its end do not count.
pub open spec fn run(
    progress: Progress<usize, AddrView, TaskView>,
    replies: Seq<Reply>,
) -> Progress<usize, AddrView, TaskView>
    decreases replies.len(),
{
    match progress {
        Progress::Next(_, task) if replies.len() > 0 => run(
            task.step(replies[0]),
            replies.drop_first(),
        ),
        _ => progress,
    }
}

/// Each of the replies is one to the call that the task makes at that point.
pub open spec fn answered(
    progress: Progress<usize, AddrView, TaskView>,
    replies: Seq<Reply>,
) -> bool
    decreases replies.len(),
{
    match progress {
        Progress::Next(_, task) if replies.len() > 0 => replies[0].answers(task) && answered(
            task.step(replies[0]),
            replies.drop_first(),
        ),
        _ => true,
    }
}

/// Each of the calls that the task makes succeeds.
pub open spec fn all_succeed(
    progress: Progress<usize, AddrView, TaskView>,
    replies: Seq<Reply>,
) -> bool
    decreases replies.len(),
{
    match progress {
        Progress::Next(_, task) if replies.len() > 0 => replies[0].succeeds(task.stage)
            && all_succeed(task.step(replies[0]), replies.drop_first()),
        _ => true,
    }
}

/// The sockets that the calls of the task have opened, in order.
pub open spec fn opened_by(
    progress: Progress<usize, AddrView, TaskView>,
    replies: Seq<Reply>,
) -> Seq<usize>
    decreases replies.len(),
{
    match progress {
        Progress::Next(_, task) if replies.len() > 0 => {
            let rest = opened_by(task.step(replies[0]), replies.drop_first());
            match replies[0].opened() {
                Some(socket) => seq![socket] + rest,
                None => rest,
            }
        },
        _ => Seq::empty(),
    }
}

/// The reply gives no address of a peer but one of a Unix domain socket.
pub open spec fn usable_peer(reply: Reply) -> bool {
    reply matches Reply::Accepted { addr, len, .. } ==> parts_address(addr, len) is Ok
}

/// The task at this point, if it has not ended, fits what it makes.
pub open spec fn consistent_progress(progress: Progress<usize, AddrView, TaskView>) -> bool {
    progress matches Progress::Next(_, task) ==> task.consistent()
}

/// A reply keeps a task consistent and changes neither what it makes nor, once it
/// has a socket, that socket.
pub proof fn law_step_keeps_socket(task: TaskView, reply: Reply)
    requires
        task.consistent(),
        reply.answers(task),
    ensures
        consistent_progress(task.step(reply)),
        task.step(reply) matches Progress::Next(_, next) ==> next.goal == task.goal,
        socket_of(task.step(reply)) == match task.held() {
            Some(socket) => Some(socket),
            None => reply.opened(),
        },
        task.held() is Some ==> reply.opened() is None,
{
}

/// Every task ends: after as many replies as it has calls left to make it makes
/// no further call.
pub proof fn law_tasks_end(
    call: Call<AddrView>,
    task: TaskView,
    replies: Seq<Reply>,
)
    requires
        task.consistent(),
        answered(Progress::Next(call, task), replies),
        replies.len() >= task.calls_left(),
    ensures
        !(run(Progress::Next(call, task), replies) is Next),
    decreases replies.len(),
{
    law_step_keeps_socket(task, replies[0]);
    match task.step(replies[0]) {
        Progress::Next(next_call, next) => {
            law_tasks_end(next_call, next, replies.drop_first());
        },
        ended => {
            assert(run(ended, replies.drop_first()) == ended);
        },
    }
}

/// No socket is leaked, and none is closed twice: a task that starts without a
/// socket opens at most one. It holds that socket until it ends, and then either
/// hands it out or, where it fails, gives it back to be closed.
pub proof fn law_no_socket_leaks(
    call: Call<AddrView>,
    task: TaskView,
    replies: Seq<Reply>,
)
    requires
        task.consistent(),
        task.held() is None,
        answered(Progress::Next(call, task), replies),
    ensures
        socket_of(run(Progress::Next(call, task), replies)) == if opened_by(
            Progress::Next(call, task),
            replies,
        ).len() == 0 {
            None
        } else {
            Some(opened_by(Progress::Next(call, task), replies)[0])
        },
        opened_by(Progress::Next(call, task), replies).len() <= 1,
        run(Progress::Next(call, task), replies) is Complete ==> opened_by(
            Progress::Next(call, task),
            replies,
        ).len() == 1,
{
    lemma_run_keeps_socket(Progress::Next(call, task), replies);
}

proof fn lemma_run_keeps_socket(
    progress: Progress<usize, AddrView, TaskView>,
    replies: Seq<Reply>,
)
    requires
        consistent_progress(progress),
        answered(progress, replies),
    ensures
        socket_of(progress) is Some ==> socket_of(run(progress, replies)) == socket_of(progress)
            && opened_by(progress, replies).len() == 0,
        socket_of(progress) is None ==> opened_by(progress, replies).len() <= 1 && socket_of(
            run(progress, replies),
        ) == if opened_by(progress, replies).len() == 0 {
            None
        } else {
            Some(opened_by(progress, replies)[0])
        },
    decreases replies.len(),
{
    match progress {
        Progress::Next(_, task) if replies.len() > 0 => {
            law_step_keeps_socket(task, replies[0]);
            lemma_run_keeps_socket(task.step(replies[0]), replies.drop_first());
        },
        _ => {},
    }
}

/// A path that cannot be the path of an address never makes a socket. Where no
/// call of the system fails, the task that was to use it fails with
/// `InvalidInput`, and the socket is closed.
pub proof fn law_unusable_path_fails(
    progress: Progress<usize, AddrView, TaskView>,
    path: Seq<u8>,
    replies: Seq<Reply>,
)
    requires
        progress matches Progress::Next(_, task) && task.consistent() && task.path() == Some(path),
        !representable(path),
        answered(progress, replies),
    ensures
        !(run(progress, replies) is Complete),
        all_succeed(progress, replies) && !(run(progress, replies) is Next) ==> run(
            progress,
            replies,
        ) matches Progress::Fail(IoError::InvalidInput, Some(_)),
    decreases replies.len(),
{
    if replies.len() > 0 {
        let task = progress->Next_1;
        law_step_keeps_socket(task, replies[0]);
        if task.step(replies[0]) is Next {
            law_unusable_path_fails(task.step(replies[0]), path, replies.drop_first());
        }
    }
}

/// Where no call of the system fails, the path, if there is one, can be the path
/// of an address, and the address of the peer, if it is asked for, is that of a
/// Unix domain socket, a task makes its socket.
pub proof fn law_successful_calls_complete(
    call: Call<AddrView>,
    task: TaskView,
    replies: Seq<Reply>,
)
    requires
        task.consistent(),
        task.path() matches Some(path) ==> representable(path),
        task.stage matches Stage::NoInherit(_, Some(peer)) ==> peer is Ok,
        task.goal is Peer ==> forall|i: int|
            0 <= i < replies.len() ==> usable_peer(#[trigger] replies[i]),
        answered(Progress::Next(call, task), replies),
        all_succeed(Progress::Next(call, task), replies),
    ensures
        !(run(Progress::Next(call, task), replies) is Fail),
        replies.len() >= task.calls_left() ==> run(Progress::Next(call, task), replies) is Complete,
    decreases replies.len(),
{
    if replies.len() > 0 {
        law_step_keeps_socket(task, replies[0]);
        match task.step(replies[0]) {
            Progress::Next(next_call, next) => {
                law_successful_calls_complete(next_call, next, replies.drop_first());
            },
            ended => {
                assert(run(ended, replies.drop_first()) == ended);
            },
        }
    }
}

/// A task that finds the address of a peer, or that is to connect later, hands
/// out an address with its socket; no other task does.
pub proof fn law_completed_task_has_address(
    progress: Progress<usize, AddrView, TaskView>,
    goal: Goal<Seq<u8>>,
    replies: Seq<Reply>,
)
    requires
        progress matches Progress::Next(_, task) && task.consistent() && task.goal == goal,
        answered(progress, replies),
    ensures
        run(progress, replies) matches Progress::Complete(_, addr) ==> (addr is Some <==> (
        goal is Peer || goal is Deferred)),
        goal matches Goal::Deferred(path) ==> (run(progress, replies) matches Progress::Complete(
            _,
            addr,
        ) ==> addr == Some(path_address(path))),
    decreases replies.len(),
{
    if replies.len() > 0 {
        let task = progress->Next_1;
        law_step_keeps_socket(task, replies[0]);
        if task.step(replies[0]) is Next {
            law_completed_task_has_address(task.step(replies[0]), goal, replies.drop_first());
        }
    }
}

} // verus!
