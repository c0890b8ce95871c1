use mio_uds_windows::address::{SockaddrUn, AF_UNIX};
use mio_uds_windows::error::{would_block, IoError};
use mio_uds_windows::net;
use mio_uds_windows::socket::{
    address_done, cancel, cvt, cvt_z, getsockopt, getsockopt_done, init, Call, Interface, IsZero,
    Shutdown, Socket, INVALID_SOCKET,
};
use mio_uds_windows::task::{Progress, ProtocolInfo, Reply};
use mio_uds_windows::UnixListener;

fn peer(path: &[u8]) -> SockaddrUn {
    let mut sun_path = [0; 108];
    sun_path[..path.len()].copy_from_slice(path);
    SockaddrUn { sun_family: AF_UNIX, sun_path }
}

#[test]
fn interface_is_started_once() {
    let mut interface = Interface::new();
    assert!(matches!(init(&mut interface), Some(Call::Startup { version: 0x202 })));
    assert!(init(&mut interface).is_none());
    assert!(init(&mut interface).is_none());
}

#[test]
fn interface_is_started_before_the_first_socket() {
    let mut interface = Interface::new();
    let (call, task) = net::UnixStream::connect(&mut interface, b"/tmp/sock");
    assert!(matches!(call, Call::Startup { version: 0x202 }));
    assert!(matches!(
        task.resume(Reply::Status { status: 0, last_error: 0 }),
        Progress::Next(Call::CreateSocket { family: 1, kind: 1, protocol: 0, flags: 1 }, _)
    ));
    let (call, _) = net::UnixStream::connect(&mut interface, b"/tmp/sock");
    assert!(matches!(call, Call::CreateSocket { .. }));
    let (call, _) = UnixListener::bind(&mut interface, b"/tmp/sock");
    assert!(matches!(call, Call::CreateSocket { .. }));
    let (call, _) = UnixListener::bind(&mut Interface::new(), b"/tmp/sock");
    assert!(matches!(call, Call::Startup { .. }));
}

#[test]
fn zero_is_zero() {
    assert!(0i8.is_zero() && 0i16.is_zero() && 0i32.is_zero() && 0i64.is_zero() && 0isize.is_zero());
    assert!(0u8.is_zero() && 0u16.is_zero() && 0u32.is_zero() && 0u64.is_zero() && 0usize.is_zero());
    assert!(!(-1i8).is_zero() && !1u64.is_zero());
}

#[test]
fn statuses() {
    assert_eq!(cvt_z(0i32, 87), Err(IoError::Os(87)));
    assert_eq!(cvt_z(3i32, 87), Ok(3));
    assert_eq!(cvt(-1, 10061), Err(IoError::Os(10061)));
    assert_eq!(cvt(0, 10061), Ok(0));
    assert_eq!(cvt(5, 10061), Ok(5));
    assert_eq!(cancel(0, 1168), Err(IoError::Os(1168)));
    assert_eq!(cancel(1, 1168), Ok(()));
    assert_eq!(would_block(), IoError::WouldBlock);
}

#[test]
fn new_socket() {
    let (call, task) = Socket::new();
    assert!(matches!(call, Call::CreateSocket { family: 1, kind: 1, protocol: 0, flags: 1 }));
    match task.resume(Reply::Socket { raw: 40, last_error: 0 }) {
        Progress::Next(Call::SetHandleInformation { handle: 40, mask: 1, flags: 0 }, task) => {
            match task.resume(Reply::Status { status: 1, last_error: 0 }) {
                Progress::Complete(socket, None) => assert_eq!(socket.as_raw_socket(), 40),
                _ => panic!(),
            }
        }
        _ => panic!(),
    }
}

#[test]
fn new_socket_is_refused() {
    let (_, task) = Socket::new();
    match task.resume(Reply::Socket { raw: INVALID_SOCKET, last_error: 10047 }) {
        Progress::Fail(IoError::Os(10047), None) => {}
        _ => panic!(),
    }
}

#[test]
fn socket_that_stays_inheritable_is_closed() {
    let (_, task) = Socket::new();
    match task.resume(Reply::Socket { raw: 40, last_error: 0 }) {
        Progress::Next(_, task) => match task.resume(Reply::Status { status: 0, last_error: 6 }) {
            Progress::Fail(IoError::Os(6), Some(socket)) => {
                assert!(matches!(socket.drop(), Call::CloseSocket { socket: 40 }))
            }
            _ => panic!(),
        },
        _ => panic!(),
    }
}

#[test]
fn accepted_socket() {
    let listener = Socket::from_raw_socket(3);
    let (call, task) = listener.accept();
    assert!(matches!(call, Call::Accept { socket: 3 }));
    let reply = Reply::Accepted { raw: 9, last_error: 0, addr: peer(b"p"), len: 4 };
    match task.resume(reply) {
        Progress::Next(Call::SetHandleInformation { handle: 9, .. }, task) => {
            match task.resume(Reply::Status { status: 1, last_error: 0 }) {
                Progress::Complete(socket, None) => assert_eq!(socket.into_raw_socket(), 9),
                _ => panic!(),
            }
        }
        _ => panic!(),
    }
}

#[test]
fn duplicate_socket() {
    let socket = Socket::from_raw_socket(3);
    let (call, task) = socket.duplicate();
    assert!(matches!(call, Call::DuplicateSocket { socket: 3 }));
    let info = ProtocolInfo { family: 1, kind: 2, protocol: 5 };
    match task.resume(Reply::Described { status: 0, last_error: 0, info }) {
        Progress::Next(Call::CreateDuplicate { family: 1, kind: 2, protocol: 5, flags: 1 }, task) => {
            match task.resume(Reply::Socket { raw: 4, last_error: 0 }) {
                Progress::Next(Call::SetHandleInformation { handle: 4, mask: 1, flags: 0 }, task) => {
                    match task.resume(Reply::Status { status: 1, last_error: 0 }) {
                        Progress::Complete(socket, None) => assert_eq!(socket.as_raw_socket(), 4),
                        _ => panic!(),
                    }
                }
                _ => panic!(),
            }
        }
        _ => panic!(),
    }
}

#[test]
fn duplicate_is_refused() {
    let (_, task) = net::UnixStream::from_raw_socket(3).try_clone();
    let info = ProtocolInfo { family: 0, kind: 0, protocol: 0 };
    match task.resume(Reply::Described { status: -1, last_error: 10038, info }) {
        Progress::Fail(IoError::Os(10038), None) => {}
        _ => panic!(),
    }
}

#[test]
fn blocking_mode() {
    let socket = Socket::from_raw_socket(3);
    assert!(matches!(
        socket.set_nonblocking(true),
        Call::IoControl { socket: 3, command: -2147195266, argument: 1 }
    ));
    assert!(matches!(socket.set_nonblocking(false), Call::IoControl { argument: 0, .. }));
    assert_eq!(Socket::set_nonblocking_done(0, 5), Ok(()));
    assert_eq!(Socket::set_nonblocking_done(-1, 5), Err(IoError::Os(5)));
    assert_eq!(-2147195266i32 as u32, 0x8004667e);
}

#[test]
fn shutdown_codes() {
    let stream = net::UnixStream::from_raw_socket(3);
    assert!(matches!(stream.shutdown(Shutdown::Read), Call::Shutdown { socket: 3, how: 0 }));
    assert!(matches!(stream.shutdown(Shutdown::Write), Call::Shutdown { socket: 3, how: 1 }));
    assert!(matches!(stream.shutdown(Shutdown::Both), Call::Shutdown { socket: 3, how: 2 }));
    assert_eq!(Socket::shutdown_done(0, 0), Ok(()));
    assert_eq!(Socket::shutdown_done(-1, 10057), Err(IoError::Os(10057)));
}

#[test]
fn options_and_errors() {
    let socket = Socket::from_raw_socket(3);
    assert!(matches!(getsockopt(&socket, 6, 1), Call::GetSockOpt { socket: 3, level: 6, name: 1 }));
    assert!(matches!(socket.take_error(), Call::GetSockOpt { level: 0xffff, name: 0x1007, .. }));
    assert_eq!(getsockopt_done(0, 0, 17u8, 1, 1), Ok(17));
    assert_eq!(getsockopt_done(-1, 9, 17u8, 0, 1), Err(IoError::Os(9)));
    assert_eq!(Socket::take_error_done(0, 0, 0, 4), Ok(None));
    assert_eq!(Socket::take_error_done(0, 0, 10061, 4), Ok(Some(IoError::Os(10061))));
    assert_eq!(Socket::take_error_done(-1, 10038, 0, 0), Err(IoError::Os(10038)));
}

#[test]
fn addresses_of_a_socket() {
    let stream = net::UnixStream::from_raw_socket(3);
    assert!(matches!(stream.local_addr(), Call::GetSockName { socket: 3 }));
    assert!(matches!(stream.peer_addr(), Call::GetPeerName { socket: 3 }));
    let addr = address_done(0, 0, peer(b"/tmp/sock"), 12).unwrap();
    assert_eq!(addr.as_pathname(), Some(&b"/tmp/sock"[..]));
    assert!(matches!(address_done(-1, 10057, peer(b""), 0), Err(IoError::Os(10057))));
}

#[test]
fn blocking_listener() {
    let mut interface = Interface::new();
    init(&mut interface);
    let (call, task) = net::UnixListener::bind(&mut interface, b"/tmp/sock");
    assert!(matches!(call, Call::CreateSocket { .. }));
    let task = match task.resume(Reply::Socket { raw: 8, last_error: 0 }) {
        Progress::Next(Call::SetHandleInformation { .. }, task) => task,
        _ => panic!(),
    };
    let task = match task.resume(Reply::Status { status: 1, last_error: 0 }) {
        Progress::Next(Call::Bind { socket: 8, addr }, task) => {
            assert_eq!(addr.as_pathname(), Some(&b"/tmp/sock"[..]));
            task
        }
        _ => panic!(),
    };
    let task = match task.resume(Reply::Status { status: 0, last_error: 0 }) {
        Progress::Next(Call::Listen { socket: 8, backlog: 128 }, task) => task,
        _ => panic!(),
    };
    match task.resume(Reply::Status { status: -1, last_error: 10048 }) {
        Progress::Fail(IoError::Os(10048), Some(socket)) => assert_eq!(socket.as_raw_socket(), 8),
        _ => panic!(),
    }
}

#[test]
fn blocking_connect_is_refused() {
    let mut interface = Interface::new();
    init(&mut interface);
    let (_, task) = net::UnixStream::connect(&mut interface, b"/tmp/sock");
    let task = match task.resume(Reply::Socket { raw: 8, last_error: 0 }) {
        Progress::Next(_, task) => task,
        _ => panic!(),
    };
    let task = match task.resume(Reply::Status { status: 1, last_error: 0 }) {
        Progress::Next(Call::Connect { socket: 8, .. }, task) => task,
        _ => panic!(),
    };
    match task.resume(Reply::Status { status: -1, last_error: 10061 }) {
        Progress::Fail(IoError::Os(10061), Some(socket)) => assert_eq!(socket.as_raw_socket(), 8),
        _ => panic!(),
    }
}

#[test]
fn incoming_connections_never_end() {
    let listener = net::UnixListener::from_raw_socket(5);
    let mut incoming = listener.incoming();
    assert_eq!(incoming.size_hint(), (usize::MAX, None));
    for raw in 20..22 {
        let (call, task) = incoming.next().unwrap();
        assert!(matches!(call, Call::Accept { socket: 5 }));
        let task = match task.resume(Reply::Accepted { raw, last_error: 0, addr: peer(b"/p"), len: 5 }) {
            Progress::Next(_, task) => task,
            _ => panic!(),
        };
        match task.resume(Reply::Status { status: 1, last_error: 0 }) {
            Progress::Complete(socket, Some(addr)) => {
                assert_eq!(socket.as_raw_socket(), raw);
                assert_eq!(addr.as_pathname(), Some(&b"/p"[..]));
            }
            _ => panic!(),
        }
    }
}

#[test]
fn accepted_peer_of_another_family() {
    let listener = net::UnixListener::from_raw_socket(5);
    let (_, task) = listener.accept();
    let addr = SockaddrUn { sun_family: 2, sun_path: [0; 108] };
    let task = match task.resume(Reply::Accepted { raw: 6, last_error: 0, addr, len: 16 }) {
        Progress::Next(_, task) => task,
        _ => panic!(),
    };
    match task.resume(Reply::Status { status: 1, last_error: 0 }) {
        Progress::Fail(IoError::InvalidInput, Some(socket)) => assert_eq!(socket.as_raw_socket(), 6),
        _ => panic!(),
    }
}

#[test]
fn accept_is_refused() {
    let (_, task) = net::UnixListener::from_raw_socket(5).accept();
    let reply = Reply::Accepted { raw: INVALID_SOCKET, last_error: 10024, addr: peer(b""), len: 0 };
    match task.resume(reply) {
        Progress::Fail(IoError::Os(10024), None) => {}
        _ => panic!(),
    }
}

#[test]
fn raw_numbers() {
    assert_eq!(net::UnixStream::from_raw_socket(11).as_raw_socket(), 11);
    assert_eq!(net::UnixStream::from_raw_socket(11).into_raw_socket(), 11);
    assert_eq!(net::UnixListener::from_raw_socket(12).as_raw_socket(), 12);
    assert_eq!(net::UnixListener::from_raw_socket(12).into_raw_socket(), 12);
    assert!(matches!(net::UnixStream::new().0, Call::CreateSocket { .. }));
    assert!(matches!(
        net::UnixListener::from_raw_socket(12).take_error(),
        Call::GetSockOpt { socket: 12, .. }
    ));
    assert!(matches!(
        net::UnixListener::from_raw_socket(12).local_addr(),
        Call::GetSockName { socket: 12 }
    ));
    assert!(matches!(
        net::UnixListener::from_raw_socket(12).set_nonblocking(true),
        Call::IoControl { socket: 12, argument: 1, .. }
    ));
}

#[test]
fn messages() {
    assert_eq!(IoError::WouldBlock.message(), Some("would block"));
    assert_eq!(IoError::NoRemoteAddress.message(), Some("could not obtain remote address"));
    assert_eq!(IoError::InvalidInput.message(), None);
    assert_eq!(IoError::Os(5).message(), None);
}

#[test]
fn accepted_socket_without_the_address() {
    let (_, task) = Socket::from_raw_socket(5).accept();
    let reply = Reply::Accepted { raw: 6, last_error: 0, addr: peer(b"/p"), len: 1 };
    match task.resume(reply) {
        Progress::Next(Call::SetHandleInformation { handle: 6, .. }, task) => {
            match task.resume(Reply::Status { status: 1, last_error: 0 }) {
                Progress::Complete(socket, None) => assert_eq!(socket.as_raw_socket(), 6),
                _ => panic!(),
            }
        }
        _ => panic!(),
    }
}

#[test]
fn errors_without_a_connection() {
    assert!(IoError::Os(536).is_unconnected());
    assert!(!IoError::Os(535).is_unconnected());
    assert!(!IoError::WouldBlock.is_unconnected());
}

#[test]
fn errors_that_block() {
    assert!(IoError::WouldBlock.is_would_block());
    assert!(IoError::Os(10035).is_would_block());
    assert!(!IoError::Os(10036).is_would_block());
    assert!(!IoError::InvalidInput.is_would_block());
    assert!(!IoError::NoRemoteAddress.is_would_block());
}
