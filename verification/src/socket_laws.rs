//! What the calls of the system ask for, and what their outcomes mean.
use vstd::prelude::*;

use crate::address::{AddrView, SocketAddr};
use crate::error::IoError;
use crate::ready::{read_event, socket_events, write_event};
use crate::socket::{
    create_call, init_call, no_inherit_call, nonblocking_call, shutdown_code, startup_call,
    status_outcome, Call, Shutdown, INVALID_SOCKET, SOCKET_ERROR, SOL_SOCKET, SO_ERROR,
};
use crate::stream::unit;

verus! {

/// A socket is made of the family of Unix domain sockets (1), as a byte stream (1), with the
/// default protocol (0), for overlapped operations (1). The socket interface is started in
/// version 2.2.
pub proof fn law_sockets_are_unix_streams()
    ensures
        create_call() == (Call::<AddrView>::CreateSocket {
            family: 1,
            kind: 1,
            protocol: 0,
            flags: 1,
        }),
        startup_call() == (Call::<AddrView>::Startup { version: 0x0202 }),
{
}

/// A call that changes a socket names that socket. The flag that child processes inherit it
/// (1) is named in the mask and not set, and the command for the blocking mode has a nonzero
/// argument exactly where the socket is not to block.
pub proof fn law_calls_name_their_socket(socket: usize, other: usize, nonblocking: bool)
    ensures
        no_inherit_call(socket) == (Call::<AddrView>::SetHandleInformation {
            handle: socket,
            mask: 1,
            flags: 0,
        }),
        nonblocking_call(socket, nonblocking) matches Call::IoControl {
            socket: named,
            command,
            argument,
        } && named == socket && command == 0x8004667e - 0x1_0000_0000 && (argument == 1
            <==> nonblocking) && (argument == 0 <==> !nonblocking),
        no_inherit_call(socket) == no_inherit_call(other) ==> socket == other,
        nonblocking_call(socket, true) != nonblocking_call(other, false),
{
}

/// Each way to shut down has the code of its own: receiving, sending, both.
pub proof fn law_shutdown_codes(how: Shutdown)
    ensures
        shutdown_code(how) == 0 <==> how is Read,
        shutdown_code(how) == 1 <==> how is Write,
        shutdown_code(how) == 2 <==> how is Both,
{
}

/// A call fails exactly where its status is minus one, and then with the code that the system
/// gave; any other status is handed on.
pub proof fn law_status_tells_failure(status: i32, last_error: i32)
    ensures
        status_outcome(status, last_error) is Err <==> status == -1,
        status_outcome(status, last_error) matches Err(e) ==> e == IoError::Os(last_error),
        status_outcome(status, last_error) matches Ok(s) ==> s == status,
        unit(status_outcome(status, last_error)) is Ok <==> status != -1,
        unit(status_outcome(status, last_error)) matches Err(e) ==> e == IoError::Os(last_error),
{
}

/// The last error of a socket is option 0x1007 at the level of sockets in general, 0xffff. The
/// system returns the greatest number in place of a socket, and minus one as the status of a
/// failure; neither is what a call that has succeeded returns.
pub proof fn law_numbers_of_the_system(raw: usize, status: i32)
    ensures
        SOL_SOCKET == 0xffff,
        SO_ERROR == 0x1007,
        raw < usize::MAX ==> raw != INVALID_SOCKET,
        raw <= INVALID_SOCKET,
        status >= 0 ==> status > SOCKET_ERROR,
        status < 0 ==> status <= SOCKET_ERROR,
{
}

/// Starting the socket interface makes a call exactly if it was not started.
pub proof fn law_interface_is_started_if_it_was_not(started: bool)
    ensures
        init_call(started) is None <==> started,
        init_call(started) matches Some(call) ==> call == (Call::<AddrView>::Startup {
            version: 0x0202,
        }),
{
}

/// The errors that say "not now" are the library's own and code 10035, and the one that says
/// that nobody is connected is code 536.
pub proof fn law_errors_are_told_apart(error: IoError)
    ensures
        error.blocks() <==> error is WouldBlock || error == IoError::Os(10035),
        error.unconnected() <==> error == IoError::Os(536),
        !(error.blocks() && error.unconnected()),
{
}

/// Being readable is the lowest bit of a readiness set, being writable the next one, and
/// sockets know no other.
pub proof fn law_events_of_sockets(events: Set<int>)
    ensures
        read_event() == 0,
        write_event() == 1,
        socket_events(events) <==> forall|event: int|
            events.contains(event) ==> event == 0 || event == 1,
{
    if socket_events(events) {
        assert forall|event: int| events.contains(event) implies event == 0 || event == 1 by {
            assert(set![read_event(), write_event()].contains(event));
        }
    }
}

/// A call shows everything that it holds.
pub proof fn law_call_shows_what_it_holds(call: Call<SocketAddr>)
    ensures
        match call {
            Call::Startup { version } => call@ == (Call::<AddrView>::Startup { version }),
            Call::CreateSocket { family, kind, protocol, flags } => call@ == (Call::<
                AddrView,
            >::CreateSocket { family, kind, protocol, flags }),
            Call::DuplicateSocket { socket } => call@ == (Call::<AddrView>::DuplicateSocket {
                socket,
            }),
            Call::CreateDuplicate { family, kind, protocol, flags } => call@ == (Call::<
                AddrView,
            >::CreateDuplicate { family, kind, protocol, flags }),
            Call::SetHandleInformation { handle, mask, flags } => call@ == (Call::<
                AddrView,
            >::SetHandleInformation { handle, mask, flags }),
            Call::Accept { socket } => call@ == (Call::<AddrView>::Accept { socket }),
            Call::Connect { socket, addr } => call@ == (Call::<AddrView>::Connect {
                socket,
                addr: addr@,
            }),
            Call::Bind { socket, addr } => call@ == (Call::<AddrView>::Bind {
                socket,
                addr: addr@,
            }),
            Call::Listen { socket, backlog } => call@ == (Call::<AddrView>::Listen {
                socket,
                backlog,
            }),
            Call::IoControl { socket, command, argument } => call@ == (Call::<
                AddrView,
            >::IoControl { socket, command, argument }),
            Call::Shutdown { socket, how } => call@ == (Call::<AddrView>::Shutdown {
                socket,
                how,
            }),
            Call::GetSockOpt { socket, level, name } => call@ == (Call::<AddrView>::GetSockOpt {
                socket,
                level,
                name,
            }),
            Call::GetSockName { socket } => call@ == (Call::<AddrView>::GetSockName { socket }),
            Call::GetPeerName { socket } => call@ == (Call::<AddrView>::GetPeerName { socket }),
            Call::CloseSocket { socket } => call@ == (Call::<AddrView>::CloseSocket { socket }),
        },
{
}

} // verus!
