//! Sockets, and the calls of the system that work on them.
//!
//! Nothing here calls the system. A function that needs it returns the `Call`
//! to make, and takes what came back as an argument of the function that goes
//! on from there.
use vstd::prelude::*;

use crate::address::{parts_address, plausible_len, viewed, AddrView, SockaddrUn, SocketAddr};
use crate::error::IoError;
use crate::task::{Goal, Stage, SocketTask, TaskView};

verus! {

/// The version of the socket interface that is asked for: 2.2.
pub const WINSOCK_VERSION: u16 = 0x202;

/// The socket type of a byte stream.
pub const SOCK_STREAM: i32 = 1;

/// The flag of a socket that takes overlapped operations.
pub const WSA_FLAG_OVERLAPPED: u32 = 1;

/// The flag of a handle that child processes inherit.
pub const HANDLE_FLAG_INHERIT: u32 = 1;

/// What the system returns in place of a socket that it could not make.
pub const INVALID_SOCKET: usize = usize::MAX;

/// The status of a call that failed.
pub const SOCKET_ERROR: i32 = -1;

/// The command that sets whether a socket blocks.
pub const FIONBIO: i32 = -2147195266;

/// The level of the options of sockets in general.
pub const SOL_SOCKET: i32 = 0xffff;

/// The option that holds the last error of a socket.
pub const SO_ERROR: i32 = 0x1007;

/// The code for shutting down the receiving half.
pub const SD_RECEIVE: i32 = 0;

/// The code for shutting down the sending half.
pub const SD_SEND: i32 = 1;

/// The code for shutting down both halves.
pub const SD_BOTH: i32 = 2;

/// A call of the system; `A` is the type of socket addresses.
pub enum Call<A> {
    /// Start the socket interface.
    Startup { version: u16 },
    /// Make a socket.
    CreateSocket { family: i32, kind: i32, protocol: i32, flags: u32 },
    /// Describe a socket to this process, so that it can be made once more.
    DuplicateSocket { socket: usize },
    /// Make the socket that the last `DuplicateSocket` described.
    CreateDuplicate { family: i32, kind: i32, protocol: i32, flags: u32 },
    /// Set those flags of a handle that `mask` names.
    SetHandleInformation { handle: usize, mask: u32, flags: u32 },
    /// Take a connection from a listening socket.
    Accept { socket: usize },
    /// Connect a socket to an address.
    Connect { socket: usize, addr: A },
    /// Give a socket an address.
    Bind { socket: usize, addr: A },
    /// Let a socket wait for connections.
    Listen { socket: usize, backlog: i32 },
    /// Change how a socket does its input and output.
    IoControl { socket: usize, command: i32, argument: u32 },
    /// Shut down the halves of a connection that `how` names.
    Shutdown { socket: usize, how: i32 },
    /// Read an option of a socket.
    GetSockOpt { socket: usize, level: i32, name: i32 },
    /// Read the local address of a socket.
    GetSockName { socket: usize },
    /// Read the remote address of a socket.
    GetPeerName { socket: usize },
    /// Give a socket back to the system.
    CloseSocket { socket: usize },
}

impl View for Call<SocketAddr> {
    type V = Call<AddrView>;

    open spec fn view(&self) -> Call<AddrView> {
        match *self {
            Call::Startup { version } => Call::Startup { version },
            Call::CreateSocket { family, kind, protocol, flags } => Call::CreateSocket {
                family,
                kind,
                protocol,
                flags,
            },
            Call::DuplicateSocket { socket } => Call::DuplicateSocket { socket },
            Call::CreateDuplicate { family, kind, protocol, flags } => Call::CreateDuplicate {
                family,
                kind,
                protocol,
                flags,
            },
            Call::SetHandleInformation { handle, mask, flags } => Call::SetHandleInformation {
                handle,
                mask,
                flags,
            },
            Call::Accept { socket } => Call::Accept { socket },
            Call::Connect { socket, addr } => Call::Connect { socket, addr: addr@ },
            Call::Bind { socket, addr } => Call::Bind { socket, addr: addr@ },
            Call::Listen { socket, backlog } => Call::Listen { socket, backlog },
            Call::IoControl { socket, command, argument } => Call::IoControl {
                socket,
                command,
                argument,
            },
            Call::Shutdown { socket, how } => Call::Shutdown { socket, how },
            Call::GetSockOpt { socket, level, name } => Call::GetSockOpt { socket, level, name },
            Call::GetSockName { socket } => Call::GetSockName { socket },
            Call::GetPeerName { socket } => Call::GetPeerName { socket },
            Call::CloseSocket { socket } => Call::CloseSocket { socket },
        }
    }
}

/// Which halves of a connection to shut down.
#[derive(Clone, Copy, Debug, PartialEq, Eq, Structural)]
pub enum Shutdown {
    /// The half that receives.
    Read,
    /// The half that sends.
    Write,
    /// Both halves.
    Both,
}

/// The system's code for the halves to shut down.
pub open spec fn shutdown_code(how: Shutdown) -> i32 {
    match how {
        Shutdown::Read => SD_RECEIVE,
        Shutdown::Write => SD_SEND,
        Shutdown::Both => SD_BOTH,
    }
}

/// The socket interface of this process.
pub struct Interface {
    started: bool,
}

impl View for Interface {
    type V = bool;

    closed spec fn view(&self) -> bool {
        self.started
    }
}

impl Interface {
    /// An interface that has not been started.
    pub fn new() -> (interface: Interface)
        ensures
            !interface@,
    {
        Interface { started: false }
    }
}

/// The call that starts the socket interface.
pub open spec fn startup_call() -> Call<AddrView> {
    Call::Startup { version: WINSOCK_VERSION }
}

/// The call that starting the interface makes, if it makes one.
pub open spec fn init_call(started: bool) -> Option<Call<AddrView>> {
    if started {
        None
    } else {
        Some(startup_call())
    }
}

/// The calls that starting the interface so many times makes.
pub open spec fn init_calls(started: bool, times: nat) -> Seq<Call<AddrView>>
    decreases times,
{
    if times == 0 {
        Seq::empty()
    } else {
        let later = init_calls(true, (times - 1) as nat);
        match init_call(started) {
            Some(call) => seq![call] + later,
            None => later,
        }
    }
}

/// Starting the interface any number of times is the same as starting it once, and
/// starting it when it was started already does nothing.
pub proof fn law_init_starts_once(started: bool, times: nat)
    requires
        times > 0,
    ensures
        init_calls(started, times) == init_calls(started, 1),
        init_calls(true, times) == Seq::<Call<AddrView>>::empty(),
        init_calls(false, times) == seq![startup_call()],
    decreases times,
{
    reveal_with_fuel(init_calls, 2);
    if times > 1 {
        law_init_starts_once(true, (times - 1) as nat);
    }
}

/// Checks whether the socket interface has been started already, and if not,
/// starts it: the call is to be made before any other.
pub fn init(interface: &mut Interface) -> (call: Option<Call<SocketAddr>>)
    ensures
        match call {
            Some(call) => init_call(old(interface)@) == Some(call@),
            None => init_call(old(interface)@) is None,
        },
        final(interface)@,
{
    if interface.started {
        return None;
    }
    interface.started = true;
    Some(Call::Startup { version: WINSOCK_VERSION })
}

/// Numbers that can be asked whether they are zero.
pub trait IsZero {
    /// The number.
    spec fn number(&self) -> int;

    /// Whether the number is zero.
    fn is_zero(&self) -> (zero: bool)
        ensures
            zero == (self.number() == 0),
    ;
}

impl IsZero for i8 {
    open spec fn number(&self) -> int {
        *self as int
    }

    fn is_zero(&self) -> (zero: bool) {
        *self == 0
    }
}

impl IsZero for i16 {
    open spec fn number(&self) -> int {
        *self as int
    }

    fn is_zero(&self) -> (zero: bool) {
        *self == 0
    }
}

impl IsZero for i32 {
    open spec fn number(&self) -> int {
        *self as int
    }

    fn is_zero(&self) -> (zero: bool) {
        *self == 0
    }
}

impl IsZero for i64 {
    open spec fn number(&self) -> int {
        *self as int
    }

    fn is_zero(&self) -> (zero: bool) {
        *self == 0
    }
}

impl IsZero for isize {
    open spec fn number(&self) -> int {
        *self as int
    }

    fn is_zero(&self) -> (zero: bool) {
        *self == 0
    }
}

impl IsZero for u8 {
    open spec fn number(&self) -> int {
        *self as int
    }

    fn is_zero(&self) -> (zero: bool) {
        *self == 0
    }
}

impl IsZero for u16 {
    open spec fn number(&self) -> int {
        *self as int
    }

    fn is_zero(&self) -> (zero: bool) {
        *self == 0
    }
}

impl IsZero for u32 {
    open spec fn number(&self) -> int {
        *self as int
    }

    fn is_zero(&self) -> (zero: bool) {
        *self == 0
    }
}

impl IsZero for u64 {
    open spec fn number(&self) -> int {
        *self as int
    }

    fn is_zero(&self) -> (zero: bool) {
        *self == 0
    }
}

impl IsZero for usize {
    open spec fn number(&self) -> int {
        *self as int
    }

    fn is_zero(&self) -> (zero: bool) {
        *self == 0
    }
}

/// The result of a call that returns zero where it fails; `last_error` is the
/// code that the system gave for the failure.
pub fn cvt_z<I: IsZero>(i: I, last_error: i32) -> (result: Result<I, IoError>)
    ensures
        result == if i.number() == 0 {
            Err(IoError::Os(last_error))
        } else {
            Ok(i)
        },
{
    if i.is_zero() {
        Err(IoError::Os(last_error))
    } else {
        Ok(i)
    }
}

/// The outcome of a call whose status is `SOCKET_ERROR` where it fails.
pub open spec fn status_outcome(status: i32, last_error: i32) -> Result<i32, IoError> {
    if status == SOCKET_ERROR {
        Err(IoError::Os(last_error))
    } else {
        Ok(status)
    }
}

/// The result of a call that returns `SOCKET_ERROR` where it fails.
pub fn cvt(status: i32, last_error: i32) -> (result: Result<i32, IoError>)
    ensures
        result == status_outcome(status, last_error),
{
    if status == SOCKET_ERROR {
        Err(IoError::Os(last_error))
    } else {
        Ok(status)
    }
}

/// The result of cancelling an overlapped operation, a call that returns zero
/// where it fails.
pub fn cancel(ret: i32, last_error: i32) -> (result: Result<(), IoError>)
    ensures
        result == if ret == 0 {
            Err::<(), IoError>(IoError::Os(last_error))
        } else {
            Ok(())
        },
{
    if ret == 0 {
        Err(IoError::Os(last_error))
    } else {
        Ok(())
    }
}

/// Starts to read an option of a socket.
pub fn getsockopt(sock: &Socket, opt: i32, val: i32) -> (call: Call<SocketAddr>)
    ensures
        call == (Call::<SocketAddr>::GetSockOpt { socket: sock@, level: opt, name: val }),
{
    Call::GetSockOpt { socket: sock.raw, level: opt, name: val }
}

/// Ends reading an option: `slot` is the value that the system wrote, `len` how
/// many bytes it wrote, and `size` how many a value has.
pub fn getsockopt_done<T: Copy>(
    status: i32,
    last_error: i32,
    slot: T,
    len: usize,
    size: usize,
) -> (result: Result<T, IoError>)
    requires
        status != SOCKET_ERROR ==> len == size,
    ensures
        result == match status_outcome(status, last_error) {
            Ok(_) => Ok(slot),
            Err(e) => Err(e),
        },
{
    match cvt(status, last_error) {
        Ok(_) => Ok(slot),
        Err(e) => Err(e),
    }
}

/// Ends reading an address of a socket: `addr` is what the system wrote, and
/// `len` how much of it counts.
pub fn address_done(status: i32, last_error: i32, addr: SockaddrUn, len: i32) -> (result: Result<
    SocketAddr,
    IoError,
>)
    requires
        status != SOCKET_ERROR ==> plausible_len(len),
    ensures
        viewed(result) == match status_outcome(status, last_error) {
            Ok(_) => parts_address(addr, len),
            Err(e) => Err(e),
        },
{
    match cvt(status, last_error) {
        Ok(_) => SocketAddr::from_parts(addr, len),
        Err(e) => Err(e),
    }
}

/// A socket of the system. It stays open until the call of `Socket::drop` has
/// been made.
#[derive(Debug)]
pub struct Socket {
    raw: usize,
}

impl View for Socket {
    type V = usize;

    closed spec fn view(&self) -> usize {
        self.raw
    }
}

impl Socket {
    /// Makes a socket for byte streams that takes overlapped operations and
    /// that child processes do not inherit.
    pub fn new() -> (start: (Call<SocketAddr>, SocketTask))
        ensures
            start.0@ == create_call(),
            start.1@ == (TaskView { goal: Goal::Socket, stage: Stage::Create }),
    {
        SocketTask::create(Goal::Socket)
    }

    /// Takes a connection from this socket, as a socket that child processes do
    /// not inherit.
    pub fn accept(&self) -> (start: (Call<SocketAddr>, SocketTask))
        ensures
            start.0@ == (Call::<AddrView>::Accept { socket: self@ }),
            start.1@ == (TaskView { goal: Goal::Socket, stage: Stage::Accept }),
    {
        SocketTask::accept(Goal::Socket, self.raw)
    }

    /// Makes a second socket for the connection of this one, which child
    /// processes do not inherit.
    pub fn duplicate(&self) -> (start: (Call<SocketAddr>, SocketTask))
        ensures
            start.0@ == (Call::<AddrView>::DuplicateSocket { socket: self@ }),
            start.1@ == (TaskView { goal: Goal::Socket, stage: Stage::Duplicate }),
    {
        SocketTask::duplicate(self.raw)
    }

    /// Starts to keep child processes from inheriting the socket.
    pub fn set_no_inherit(&self) -> (call: Call<SocketAddr>)
        ensures
            call@ == no_inherit_call(self@),
    {
        Call::SetHandleInformation { handle: self.raw, mask: HANDLE_FLAG_INHERIT, flags: 0 }
    }

    /// Starts to move the socket into or out of nonblocking mode.
    pub fn set_nonblocking(&self, nonblocking: bool) -> (call: Call<SocketAddr>)
        ensures
            call@ == nonblocking_call(self@, nonblocking),
    {
        Call::IoControl {
            socket: self.raw,
            command: FIONBIO,
            argument: if nonblocking { 1 } else { 0 },
        }
    }

    /// Ends the change of the blocking mode: the status is zero where it was made.
    pub fn set_nonblocking_done(status: i32, last_error: i32) -> (result: Result<(), IoError>)
        ensures
            result == if status == 0 {
                Ok::<(), IoError>(())
            } else {
                Err(IoError::Os(last_error))
            },
    {
        if status == 0 {
            Ok(())
        } else {
            Err(IoError::Os(last_error))
        }
    }

    /// Starts to shut down one half or both halves of the connection.
    pub fn shutdown(&self, how: Shutdown) -> (call: Call<SocketAddr>)
        ensures
            call@ == (Call::<AddrView>::Shutdown { socket: self@, how: shutdown_code(how) }),
    {
        let how: i32 = match how {
            Shutdown::Write => SD_SEND,
            Shutdown::Read => SD_RECEIVE,
            Shutdown::Both => SD_BOTH,
        };
        Call::Shutdown { socket: self.raw, how }
    }

    /// Ends the shutdown.
    pub fn shutdown_done(status: i32, last_error: i32) -> (result: Result<(), IoError>)
        ensures
            result == match status_outcome(status, last_error) {
                Ok(_) => Ok::<(), IoError>(()),
                Err(e) => Err(e),
            },
    {
        match cvt(status, last_error) {
            Ok(_) => Ok(()),
            Err(e) => Err(e),
        }
    }

    /// Starts to read the last error of the socket.
    pub fn take_error(&self) -> (call: Call<SocketAddr>)
        ensures
            call@ == (Call::<AddrView>::GetSockOpt {
                socket: self@,
                level: SOL_SOCKET,
                name: SO_ERROR,
            }),
    {
        getsockopt(self, SOL_SOCKET, SO_ERROR)
    }

    /// Ends reading the last error: `raw` is the code that the system wrote into
    /// `len` bytes. The code zero stands for no error.
    pub fn take_error_done(status: i32, last_error: i32, raw: i32, len: usize) -> (result: Result<
        Option<IoError>,
        IoError,
    >)
        requires
            status != SOCKET_ERROR ==> len == 4,
        ensures
            result == match status_outcome(status, last_error) {
                Ok(_) => Ok(
                    if raw == 0 {
                        None
                    } else {
                        Some(IoError::Os(raw))
                    },
                ),
                Err(e) => Err(e),
            },
    {
        let raw: i32 = match getsockopt_done(status, last_error, raw, len, 4) {
            Ok(raw) => raw,
            Err(e) => return Err(e),
        };
        if raw == 0 {
            Ok(None)
        } else {
            Ok(Some(IoError::Os(raw)))
        }
    }

    /// Closes the socket. What the call returns is of no interest.
    pub fn drop(self) -> (call: Call<SocketAddr>)
        ensures
            call@ == (Call::<AddrView>::CloseSocket { socket: self@ }),
    {
        Call::CloseSocket { socket: self.raw }
    }

    /// The number by which the system knows the socket.
    pub fn as_raw_socket(&self) -> (raw: usize)
        ensures
            raw == self@,
    {
        self.raw
    }

    /// The socket that the system knows by this number.
    pub fn from_raw_socket(raw: usize) -> (socket: Socket)
        ensures
            socket@ == raw,
    {
        Socket { raw }
    }

    /// Gives up the socket for the number by which the system knows it.
    pub fn into_raw_socket(self) -> (raw: usize)
        ensures
            raw == self@,
    {
        self.raw
    }
}

/// The call that makes a socket for byte streams.
pub open spec fn create_call() -> Call<AddrView> {
    Call::CreateSocket {
        family: crate::address::AF_UNIX as i32,
        kind: SOCK_STREAM,
        protocol: 0,
        flags: WSA_FLAG_OVERLAPPED,
    }
}

/// The call that keeps child processes from inheriting a socket.
pub open spec fn no_inherit_call(socket: usize) -> Call<AddrView> {
    Call::SetHandleInformation { handle: socket, mask: HANDLE_FLAG_INHERIT, flags: 0 }
}

/// The call that sets whether a socket blocks.
pub open spec fn nonblocking_call(socket: usize, nonblocking: bool) -> Call<AddrView> {
    Call::IoControl {
        socket,
        command: FIONBIO,
        argument: if nonblocking {
            1
        } else {
            0
        },
    }
}

} // verus!
