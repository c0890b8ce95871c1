//! Which calls a task makes, and what it makes of their replies.
use vstd::prelude::*;

use crate::address::{
    law_path_address_holds_the_path, law_path_address_names_path, law_representable_paths,
    parts_address, path_address, representable, AddrView, SocketAddr,
};
use crate::error::IoError;
use crate::socket::{Call, Socket};
use crate::task::{
    answered, init_start, peer_view, run, Goal, Progress, Reply, SocketTask, Stage, TaskView,
};

verus! {

/// The address is that of a Unix domain socket, and names the path; the empty path is named
/// by an address without a name. Behind the path there are zeros, of which one counts.
pub open spec fn names(addr: AddrView, path: Seq<u8>) -> bool {
    &&& addr.family == 1
    &&& addr.path.len() == 108
    &&& addr.len == if path.len() == 0 {
        2
    } else {
        3 + path.len()
    }
    &&& forall|i: int| path.len() <= i < 108 ==> addr.path[i] == 0
    &&& match addr.pathname() {
        Some(name) => path.len() > 0 && name == path,
        None => path.len() == 0,
    }
}

/// The calls that a task has made, those to which there are replies.
pub open spec fn calls(
    progress: Progress<usize, AddrView, TaskView>,
    replies: Seq<Reply>,
) -> Seq<Call<AddrView>>
    decreases replies.len(),
{
    match progress {
        Progress::Next(call, task) if replies.len() > 0 => seq![call] + calls(
            task.step(replies[0]),
            replies.drop_first(),
        ),
        _ => Seq::empty(),
    }
}

/// The call has opened this socket, and the system has not refused it.
pub open spec fn opens(reply: Reply, socket: usize) -> bool {
    &&& socket != usize::MAX
    &&& match reply {
        Reply::Socket { raw, .. } => raw == socket,
        Reply::Accepted { raw, .. } => raw == socket,
        _ => false,
    }
}

/// The status with which the call has returned.
pub open spec fn status_of(reply: Reply) -> i32 {
    match reply {
        Reply::Status { status, .. } => status,
        Reply::Described { status, .. } => status,
        _ => 0,
    }
}

/// The code of the error that the system gave.
pub open spec fn code_of(reply: Reply) -> i32 {
    match reply {
        Reply::Socket { last_error, .. } => last_error,
        Reply::Accepted { last_error, .. } => last_error,
        Reply::Described { last_error, .. } => last_error,
        Reply::Status { last_error, .. } => last_error,
    }
}

/// The system has refused the call for which a task waits at this stage: there is no socket,
/// or the status is the one that stands for a failure of that call.
pub open spec fn refused(stage: Stage<usize, AddrView>, reply: Reply) -> bool {
    match (stage, reply) {
        (_, Reply::Socket { raw, .. }) => raw == usize::MAX,
        (_, Reply::Accepted { raw, .. }) => raw == usize::MAX,
        (_, Reply::Described { status, .. }) => status == -1,
        (Stage::Startup, _) => false,
        (Stage::NoInherit(_, _), Reply::Status { status, .. }) => status == 0,
        (Stage::NonBlocking(_), Reply::Status { status, .. }) => status != 0,
        (_, Reply::Status { status, .. }) => status == -1,
    }
}

/// The socket that the call of this stage works on, if there is one.
pub open spec fn worked_on(stage: Stage<usize, AddrView>) -> Option<usize> {
    match stage {
        Stage::NoInherit(socket, _) => Some(socket),
        Stage::NonBlocking(socket) => Some(socket),
        Stage::Connect(socket) => Some(socket),
        Stage::Bind(socket) => Some(socket),
        Stage::Listen(socket) => Some(socket),
        _ => None,
    }
}

proof fn lemma_path_address_names(path: Seq<u8>)
    requires
        representable(path),
    ensures
        names(path_address(path), path),
{
    law_path_address_names_path(path);
    law_path_address_holds_the_path(path);
}

/// A task takes every reply of the kind that its call has, whether that call has succeeded or
/// not, with every status, code and description. Only the socket interface must have started,
/// and a peer whose address is to be read must have an address of a length that fits.
pub proof fn law_task_takes_every_reply_to_its_call(task: TaskView, reply: Reply)
    ensures
        reply.answers(task) <==> match (task.stage, reply) {
            (Stage::Startup, Reply::Status { status, .. }) => status == 0,
            (Stage::Create, Reply::Socket { .. }) => true,
            (Stage::CreateDuplicate, Reply::Socket { .. }) => true,
            (Stage::Accept, Reply::Accepted { raw, len, .. }) => !(task.goal is Peer) || raw
                == usize::MAX || len == 0 || 2 <= len <= 110,
            (Stage::Duplicate, Reply::Described { .. }) => true,
            (_, Reply::Status { .. }) => worked_on(task.stage) is Some,
            _ => false,
        },
{
}

/// A call that the system has refused ends the task, at every stage: it fails with the code
/// that the system gave, and the socket that it holds is given back to be closed.
pub proof fn law_refused_call_fails_the_task(task: TaskView, reply: Reply)
    requires
        task.consistent(),
        reply.answers(task),
        refused(task.stage, reply),
    ensures
        task.step(reply) == Progress::<usize, AddrView, TaskView>::Fail(
            IoError::Os(code_of(reply)),
            worked_on(task.stage),
        ),
{
}

/// A task fails for no other reason than that a call was refused, that its path cannot be the
/// path of an address, or that the address of the peer is not that of a Unix domain socket.
/// In the last two cases the error is `InvalidInput` or that of the address, and the socket is
/// given back to be closed.
pub proof fn law_task_fails_only_for_a_reason(task: TaskView, reply: Reply)
    requires
        task.consistent(),
        reply.answers(task),
        !refused(task.stage, reply),
        task.step(reply) is Fail,
    ensures
        task.step(reply)->Fail_1 == worked_on(task.stage),
        match task.goal {
            Goal::Connect(path) => {
                &&& task.stage is NoInherit
                &&& !(path.len() <= 107 && forall|i: int| 0 <= i < path.len() ==> path[i] != 0)
                &&& task.step(reply)->Fail_0 is InvalidInput
            },
            Goal::Listen(path) => {
                &&& task.stage is NoInherit
                &&& !(path.len() <= 107 && forall|i: int| 0 <= i < path.len() ==> path[i] != 0)
                &&& task.step(reply)->Fail_0 is InvalidInput
            },
            Goal::Deferred(path) => {
                &&& task.stage is NonBlocking
                &&& !(path.len() <= 107 && forall|i: int| 0 <= i < path.len() ==> path[i] != 0)
                &&& task.step(reply)->Fail_0 is InvalidInput
            },
            Goal::Peer => task.stage matches Stage::NoInherit(_, Some(Err(e)))
                && task.step(reply)->Fail_0 == e,
            Goal::Socket => false,
        },
{
    match task.goal {
        Goal::Connect(path) => law_representable_paths(path),
        Goal::Listen(path) => law_representable_paths(path),
        Goal::Deferred(path) => law_representable_paths(path),
        _ => {},
    }
}

/// A path that cannot be the path of an address fails its task where the address is needed.
pub proof fn law_unusable_path_is_refused_where_it_is_needed(task: TaskView, reply: Reply)
    requires
        task.consistent(),
        reply.answers(task),
        !refused(task.stage, reply),
        match (task.goal, task.stage) {
            (Goal::Connect(path), Stage::NoInherit(_, _)) => path.len() > 107 || path.contains(0),
            (Goal::Listen(path), Stage::NoInherit(_, _)) => path.len() > 107 || path.contains(0),
            (Goal::Deferred(path), Stage::NonBlocking(_)) => path.len() > 107 || path.contains(0),
            _ => false,
        },
    ensures
        task.step(reply) == Progress::<usize, AddrView, TaskView>::Fail(
            IoError::InvalidInput,
            worked_on(task.stage),
        ),
{
}

/// Every call that a task makes next is the right one for what it makes, with the right
/// arguments. The call that keeps child processes from inheriting a socket names the socket
/// that was just opened; the second socket of a duplicate is made as the first one was
/// described; and a socket is connected or bound to an address that names the path of the
/// task. The task goes on making the same thing, and its call works on the same socket.
pub proof fn law_next_call_is_the_right_one(task: TaskView, reply: Reply)
    requires
        task.consistent(),
        reply.answers(task),
        task.step(reply) is Next,
    ensures
        !refused(task.stage, reply),
        task.step(reply)->Next_1.goal == task.goal,
        task.held() is Some ==> worked_on(task.step(reply)->Next_1.stage) == worked_on(task.stage),
        match (task.step(reply)->Next_1.stage, task.step(reply)->Next_0) {
            (Stage::Create, Call::CreateSocket { family, kind, protocol, flags }) => {
                &&& task.stage is Startup
                &&& family == 1 && kind == 1 && protocol == 0 && flags == 1
            },
            (Stage::CreateDuplicate, Call::CreateDuplicate { family, kind, protocol, flags }) => {
                &&& task.stage is Duplicate
                &&& reply matches Reply::Described { info, .. }
                &&& family == info.family && kind == info.kind && protocol == info.protocol
                &&& flags == 1
            },
            (Stage::NoInherit(socket, peer), Call::SetHandleInformation { handle, mask, flags }) => {
                &&& opens(reply, socket)
                &&& handle == socket && mask == 1 && flags == 0
                &&& match (task.goal, reply) {
                    (Goal::Peer, Reply::Accepted { addr, len, .. }) => peer == Some(
                        parts_address(addr, len),
                    ),
                    _ => peer is None,
                }
            },
            (Stage::NonBlocking(socket), Call::IoControl { socket: named, command, argument }) => {
                &&& task.stage is NoInherit && task.goal is Deferred
                &&& named == socket && command == 0x8004667e - 0x1_0000_0000 && argument == 1
            },
            (Stage::Connect(socket), Call::Connect { socket: named, addr }) => {
                &&& task.stage is NoInherit
                &&& task.goal matches Goal::Connect(path)
                &&& named == socket && names(addr, path)
            },
            (Stage::Bind(socket), Call::Bind { socket: named, addr }) => {
                &&& task.stage is NoInherit
                &&& task.goal matches Goal::Listen(path)
                &&& named == socket && names(addr, path)
            },
            (Stage::Listen(socket), Call::Listen { socket: named, backlog }) => {
                &&& task.stage is Bind
                &&& named == socket && backlog == 128
            },
            _ => false,
        },
{
    match task.goal {
        Goal::Connect(path) if representable(path) => lemma_path_address_names(path),
        Goal::Listen(path) if representable(path) => lemma_path_address_names(path),
        _ => {},
    }
}

/// A task completes only by a call that the system has not refused, and by the last one that
/// its socket needs. It hands out that socket, with the address of the peer or the address
/// that names its path where there is one to hand out.
pub proof fn law_task_completes_by_its_last_call(task: TaskView, reply: Reply)
    requires
        task.consistent(),
        reply.answers(task),
        task.step(reply) is Complete,
    ensures
        !refused(task.stage, reply),
        Some(task.step(reply)->Complete_0) == worked_on(task.stage),
        match (task.goal, task.stage) {
            (Goal::Socket, Stage::NoInherit(_, _)) => task.step(reply)->Complete_1 is None,
            (Goal::Peer, Stage::NoInherit(_, Some(Ok(peer)))) => task.step(reply)->Complete_1
                == Some(peer),
            (Goal::Connect(_), Stage::Connect(_)) => task.step(reply)->Complete_1 is None,
            (Goal::Listen(_), Stage::Listen(_)) => task.step(reply)->Complete_1 is None,
            (Goal::Deferred(path), Stage::NonBlocking(_)) => task.step(
                reply,
            )->Complete_1 matches Some(addr) && names(addr, path),
            _ => false,
        },
{
    match task.goal {
        Goal::Deferred(path) if representable(path) => lemma_path_address_names(path),
        _ => {},
    }
}

/// What is left of the replies begins with the next one.
proof fn lemma_replies_in_order(replies: Seq<Reply>)
    ensures
        replies.len() >= 2 ==> replies.drop_first()[0] == replies[1],
        replies.len() >= 3 ==> replies.drop_first().drop_first()[0] == replies[2],
        replies.len() >= 4 ==> replies.drop_first().drop_first().drop_first()[0] == replies[3],
{
}

/// A listener is made only after four calls that all have succeeded, in this order: its socket
/// was made, child processes were kept from inheriting it, it was bound to an address that
/// names the path, and it was let wait for connections.
pub proof fn law_listen_task_binds_and_listens(
    path: Seq<u8>,
    start: Progress<usize, AddrView, TaskView>,
    replies: Seq<Reply>,
)
    requires
        start matches Progress::Next(_, task) && task == (TaskView {
            goal: Goal::Listen(path),
            stage: Stage::Create,
        }),
        answered(start, replies),
        run(start, replies) is Complete,
    ensures
        ({
            let socket = run(start, replies)->Complete_0;
            let made = calls(start, replies);
            &&& run(start, replies)->Complete_1 is None
            &&& replies.len() >= 4
            &&& opens(replies[0], socket)
            &&& status_of(replies[1]) != 0
            &&& status_of(replies[2]) != -1
            &&& status_of(replies[3]) != -1
            &&& made.len() == 4
            &&& made[0] == start->Next_0
            &&& made[1] == (Call::<AddrView>::SetHandleInformation {
                handle: socket,
                mask: 1,
                flags: 0,
            })
            &&& made[2] matches Call::Bind { socket: bound, addr }
            &&& bound == socket && names(addr, path)
            &&& made[3] == (Call::<AddrView>::Listen { socket, backlog: 128 })
        }),
{
    reveal_with_fuel(run, 6);
    reveal_with_fuel(answered, 6);
    reveal_with_fuel(calls, 6);
    lemma_replies_in_order(replies);
    if representable(path) {
        lemma_path_address_names(path);
    }
}

/// A connected socket is handed out only after three calls that all have succeeded, in this
/// order: it was made, child processes were kept from inheriting it, and it was connected to
/// an address that names the path.
pub proof fn law_connect_task_connects(
    path: Seq<u8>,
    start: Progress<usize, AddrView, TaskView>,
    replies: Seq<Reply>,
)
    requires
        start matches Progress::Next(_, task) && task == (TaskView {
            goal: Goal::Connect(path),
            stage: Stage::Create,
        }),
        answered(start, replies),
        run(start, replies) is Complete,
    ensures
        ({
            let socket = run(start, replies)->Complete_0;
            let made = calls(start, replies);
            &&& run(start, replies)->Complete_1 is None
            &&& replies.len() >= 3
            &&& opens(replies[0], socket)
            &&& status_of(replies[1]) != 0
            &&& status_of(replies[2]) != -1
            &&& made.len() == 3
            &&& made[0] == start->Next_0
            &&& made[1] == (Call::<AddrView>::SetHandleInformation {
                handle: socket,
                mask: 1,
                flags: 0,
            })
            &&& made[2] matches Call::Connect { socket: connected, addr }
            &&& connected == socket && names(addr, path)
        }),
{
    reveal_with_fuel(run, 6);
    reveal_with_fuel(answered, 6);
    reveal_with_fuel(calls, 6);
    lemma_replies_in_order(replies);
    if representable(path) {
        lemma_path_address_names(path);
    }
}

/// A socket that is to be connected later is handed out with an address that names its path,
/// and only after it was made, kept from child processes and made nonblocking.
pub proof fn law_deferred_task_makes_a_nonblocking_socket(
    path: Seq<u8>,
    start: Progress<usize, AddrView, TaskView>,
    replies: Seq<Reply>,
)
    requires
        start matches Progress::Next(_, task) && task == (TaskView {
            goal: Goal::Deferred(path),
            stage: Stage::Create,
        }),
        answered(start, replies),
        run(start, replies) is Complete,
    ensures
        ({
            let socket = run(start, replies)->Complete_0;
            let made = calls(start, replies);
            &&& run(start, replies)->Complete_1 matches Some(addr)
            &&& names(addr, path)
            &&& replies.len() >= 3
            &&& opens(replies[0], socket)
            &&& status_of(replies[1]) != 0
            &&& status_of(replies[2]) == 0
            &&& made.len() == 3
            &&& made[0] == start->Next_0
            &&& made[1] == (Call::<AddrView>::SetHandleInformation {
                handle: socket,
                mask: 1,
                flags: 0,
            })
            &&& made[2] matches Call::IoControl { socket: changed, command, argument }
            &&& changed == socket && command == 0x8004667e - 0x1_0000_0000 && argument == 1
        }),
{
    reveal_with_fuel(run, 6);
    reveal_with_fuel(answered, 6);
    reveal_with_fuel(calls, 6);
    lemma_replies_in_order(replies);
    if representable(path) {
        lemma_path_address_names(path);
    }
}

/// A connection is taken by one call and kept from child processes by another. Where the
/// address of the peer is asked for, it is the one that the system wrote with the connection.
pub proof fn law_accept_task_takes_the_connection(
    goal: Goal<Seq<u8>>,
    start: Progress<usize, AddrView, TaskView>,
    replies: Seq<Reply>,
)
    requires
        goal is Socket || goal is Peer,
        start matches Progress::Next(_, task) && task == (TaskView { goal, stage: Stage::Accept }),
        answered(start, replies),
        run(start, replies) is Complete,
    ensures
        ({
            let socket = run(start, replies)->Complete_0;
            let made = calls(start, replies);
            &&& replies.len() >= 2
            &&& opens(replies[0], socket)
            &&& status_of(replies[1]) != 0
            &&& made.len() == 2
            &&& made[0] == start->Next_0
            &&& made[1] == (Call::<AddrView>::SetHandleInformation {
                handle: socket,
                mask: 1,
                flags: 0,
            })
            &&& replies[0] matches Reply::Accepted { addr, len, .. }
            &&& match (goal, run(start, replies)->Complete_1) {
                (Goal::Peer, Some(peer)) => {
                    &&& peer.family == addr.sun_family
                    &&& peer.path == addr.sun_path@
                    &&& len != 0 ==> peer.len == len && peer.family == 1
                    &&& len == 0 ==> peer.len == 2
                },
                (Goal::Socket, None) => true,
                _ => false,
            }
        }),
{
    reveal_with_fuel(run, 6);
    reveal_with_fuel(answered, 6);
    reveal_with_fuel(calls, 6);
    lemma_replies_in_order(replies);
}

/// A socket of its own is made by one call and kept from child processes by another.
pub proof fn law_socket_task_makes_a_socket(
    start: Progress<usize, AddrView, TaskView>,
    replies: Seq<Reply>,
)
    requires
        start matches Progress::Next(_, task) && task == (TaskView {
            goal: Goal::Socket,
            stage: Stage::Create,
        }),
        answered(start, replies),
        run(start, replies) is Complete,
    ensures
        ({
            let socket = run(start, replies)->Complete_0;
            let made = calls(start, replies);
            &&& run(start, replies)->Complete_1 is None
            &&& replies.len() >= 2
            &&& opens(replies[0], socket)
            &&& status_of(replies[1]) != 0
            &&& made.len() == 2
            &&& made[0] == start->Next_0
            &&& made[1] == (Call::<AddrView>::SetHandleInformation {
                handle: socket,
                mask: 1,
                flags: 0,
            })
        }),
{
    reveal_with_fuel(run, 6);
    reveal_with_fuel(answered, 6);
    reveal_with_fuel(calls, 6);
    lemma_replies_in_order(replies);
}

/// A second socket for a connection is the one that the system makes from its own description
/// of the first: of the family, the type and the protocol that were described, for overlapped
/// operations.
pub proof fn law_duplicate_is_made_as_described(
    start: Progress<usize, AddrView, TaskView>,
    replies: Seq<Reply>,
)
    requires
        start matches Progress::Next(_, task) && task == (TaskView {
            goal: Goal::Socket,
            stage: Stage::Duplicate,
        }),
        answered(start, replies),
        run(start, replies) is Complete,
    ensures
        ({
            let socket = run(start, replies)->Complete_0;
            let made = calls(start, replies);
            &&& run(start, replies)->Complete_1 is None
            &&& replies.len() >= 3
            &&& replies[0] matches Reply::Described { status, info, .. }
            &&& status != -1
            &&& opens(replies[1], socket)
            &&& status_of(replies[2]) != 0
            &&& made.len() == 3
            &&& made[0] == start->Next_0
            &&& made[1] matches Call::CreateDuplicate { family, kind, protocol, flags }
            &&& family == info.family && kind == info.kind && protocol == info.protocol
            &&& flags == 1
            &&& made[2] == (Call::<AddrView>::SetHandleInformation {
                handle: socket,
                mask: 1,
                flags: 0,
            })
        }),
{
    reveal_with_fuel(run, 6);
    reveal_with_fuel(answered, 6);
    reveal_with_fuel(calls, 6);
    lemma_replies_in_order(replies);
}

/// A task that needs the socket interface starts it first exactly if that was not done, and
/// then makes the same socket as it does otherwise.
pub proof fn law_interface_starts_before_the_socket(goal: Goal<Seq<u8>>, reply: Reply)
    requires
        reply matches Reply::Status { status, .. } && status == 0,
    ensures
        init_start(false, goal).0 == (Call::<AddrView>::Startup { version: 0x0202 }),
        init_start(false, goal).1.goal == goal,
        init_start(false, goal).1.stage is Startup,
        init_start(true, goal).0 == (Call::<AddrView>::CreateSocket {
            family: 1,
            kind: 1,
            protocol: 0,
            flags: 1,
        }),
        init_start(true, goal).1.goal == goal,
        init_start(true, goal).1.stage is Create,
        init_start(false, goal).1.step(reply) == Progress::<usize, AddrView, TaskView>::Next(
            init_start(true, goal).0,
            init_start(true, goal).1,
        ),
{
}

/// What a task has come to is handed to the driver with everything that it holds.
pub proof fn law_progress_shows_what_it_holds(progress: Progress<Socket, SocketAddr, SocketTask>)
    ensures
        match progress {
            Progress::Next(call, task) => progress@ matches Progress::Next(c, t) && c == call@ && t
                == task@,
            Progress::Complete(socket, addr) => {
                &&& progress@ matches Progress::Complete(s, a)
                &&& s == socket@
                &&& match (addr, a) {
                    (Some(addr), Some(a)) => a == addr@,
                    (None, None) => true,
                    _ => false,
                }
            },
            Progress::Fail(error, socket) => {
                &&& progress@ matches Progress::Fail(e, s)
                &&& e == error
                &&& match (socket, s) {
                    (Some(socket), Some(s)) => s == socket@,
                    (None, None) => true,
                    _ => false,
                }
            },
        },
{
}

/// What a task is to make, and the address of a peer that it has found, are shown as they are.
pub proof fn law_task_shows_what_it_holds(
    goal: Goal<Vec<u8>>,
    peer: Option<Result<SocketAddr, IoError>>,
)
    ensures
        match goal {
            Goal::Socket => goal@ is Socket,
            Goal::Peer => goal@ is Peer,
            Goal::Connect(path) => goal@ == Goal::<Seq<u8>>::Connect(path@),
            Goal::Listen(path) => goal@ == Goal::<Seq<u8>>::Listen(path@),
            Goal::Deferred(path) => goal@ == Goal::<Seq<u8>>::Deferred(path@),
        },
        match (peer, peer_view(peer)) {
            (Some(Ok(addr)), Some(Ok(seen))) => seen == addr@,
            (Some(Err(e)), Some(Err(seen))) => seen == e,
            (None, None) => true,
            _ => false,
        },
{
}

} // verus!
