use mio_uds_windows::address::{sockaddr_un, SockaddrUn, SocketAddr, AF_UNIX};
use mio_uds_windows::error::IoError;
use mio_uds_windows::net;
use mio_uds_windows::socket::{Call, Interface};
use mio_uds_windows::task::{Progress, Reply, SocketTask};
use mio_uds_windows::UnixListener;
use mio_uds_windows::UnixStream;
use tempdir::TempDir;

/// Answers to every call as if it had succeeded; the socket is number 7.
fn finish(start: (Call<SocketAddr>, SocketTask)) -> (Result<(usize, Option<SocketAddr>), IoError>, Option<usize>) {
    let (mut call, mut task) = start;
    loop {
        let reply = match call {
            Call::Startup { .. } => Reply::Status { status: 0, last_error: 0 },
            Call::CreateSocket { .. } => Reply::Socket { raw: 7, last_error: 0 },
            Call::SetHandleInformation { .. } => Reply::Status { status: 1, last_error: 0 },
            Call::Connect { .. } => Reply::Status { status: 0, last_error: 0 },
            Call::Bind { .. } => Reply::Status { status: 0, last_error: 0 },
            Call::Listen { .. } => Reply::Status { status: 0, last_error: 0 },
            Call::IoControl { .. } => Reply::Status { status: 0, last_error: 0 },
            _ => panic!("unexpected call"),
        };
        match task.resume(reply) {
            Progress::Next(c, t) => {
                call = c;
                task = t;
            }
            Progress::Complete(socket, addr) => return (Ok((socket.into_raw_socket(), addr)), None),
            Progress::Fail(e, socket) => return (Err(e), socket.map(|s| s.into_raw_socket())),
        }
    }
}

fn zeros() -> SockaddrUn {
    SockaddrUn { sun_family: AF_UNIX, sun_path: [0; 108] }
}

#[test]
fn long_path() {
    let dir = TempDir::new("mio-uds-windows").unwrap();
    let socket_path = dir.path()
                         .join("asdfasdfasdfasdfasdfasdfasdfasdfasdfasdfasdfasdfasdfasdfasdfa\
                                sasdfasdfasdasdfasdfasdfadfasdfasdfasdfasdfasdf");
    let socket_path = socket_path.to_str().unwrap().as_bytes();
    match finish(net::UnixStream::connect(&mut Interface::new(), socket_path)).0 {
        Err(IoError::InvalidInput) => {}
        Err(e) => panic!("unexpected error {:?}", e),
        Ok(_) => panic!("unexpected success"),
    }

    match finish(net::UnixListener::bind(&mut Interface::new(), socket_path)).0 {
        Err(IoError::InvalidInput) => {}
        Err(e) => panic!("unexpected error {:?}", e),
        Ok(_) => panic!("unexpected success"),
    }
}

#[test]
fn abstract_namespace_not_allowed() {
    assert!(finish(net::UnixStream::connect(&mut Interface::new(), b"\0asdf")).0.is_err());
}

#[test]
fn refused_path_closes_the_socket() {
    let (result, close) = finish(net::UnixStream::connect(&mut Interface::new(), b"\0asdf"));
    assert!(matches!(result, Err(IoError::InvalidInput)));
    assert_eq!(close, Some(7));
    let (result, close) = finish(UnixStream::connect(b"a\0b"));
    assert!(matches!(result, Err(IoError::InvalidInput)));
    assert_eq!(close, Some(7));
    let (result, close) = finish(UnixListener::bind(&mut Interface::new(), &[b'x'; 108]));
    assert!(matches!(result, Err(IoError::InvalidInput)));
    assert_eq!(close, Some(7));
}

#[test]
fn usable_paths_make_sockets() {
    let (result, close) = finish(net::UnixStream::connect(&mut Interface::new(), b"/tmp/sock"));
    assert_eq!(result.unwrap().0, 7);
    assert_eq!(close, None);
    let (result, _) = finish(net::UnixListener::bind(&mut Interface::new(), &[b'x'; 107]));
    assert_eq!(result.unwrap().0, 7);
    let (socket, addr) = finish(UnixStream::connect(b"/tmp/sock")).0.unwrap();
    assert_eq!(socket, 7);
    assert_eq!(addr.unwrap().as_pathname(), Some(&b"/tmp/sock"[..]));
}

#[test]
fn address_of_a_path() {
    let (addr, len) = sockaddr_un(b"ab").unwrap();
    assert_eq!(addr.sun_family, 1);
    assert_eq!(len, 5);
    assert_eq!(&addr.sun_path[..4], &[b'a', b'b', 0, 0]);
    assert!(addr.sun_path[2..].iter().all(|b| *b == 0));
}

#[test]
fn address_of_the_empty_path() {
    let (_, len) = sockaddr_un(b"").unwrap();
    assert_eq!(len, 2);
    assert_eq!(SocketAddr::from_path(b"").unwrap().as_pathname(), None);
}

#[test]
fn longest_path() {
    let path = [b'p'; 107];
    let (addr, len) = sockaddr_un(&path).unwrap();
    assert_eq!(len, 110);
    assert_eq!(addr.sun_path[106], b'p');
    assert_eq!(addr.sun_path[107], 0);
    assert!(matches!(sockaddr_un(&[b'p'; 108]), Err(IoError::InvalidInput)));
    assert!(matches!(SocketAddr::from_path(&[b'p'; 108]), Err(IoError::InvalidInput)));
}

#[test]
fn path_survives_the_system() {
    let addr = SocketAddr::from_path(b"/path/to/my/socket").unwrap();
    let (raw, len) = addr.to_parts();
    let back = SocketAddr::from_parts(raw, len).unwrap();
    assert_eq!(back.as_pathname(), Some(&b"/path/to/my/socket"[..]));
}

#[test]
fn different_paths_have_different_addresses() {
    let (a, _) = sockaddr_un(b"/tmp/a").unwrap();
    let (b, _) = sockaddr_un(b"/tmp/b").unwrap();
    assert_ne!(a.sun_path, b.sun_path);
}

#[test]
fn address_without_a_name() {
    assert_eq!(SocketAddr::from_parts(zeros(), 0).unwrap().as_pathname(), None);
    assert_eq!(SocketAddr::from_parts(zeros(), 2).unwrap().as_pathname(), None);
    assert_eq!(SocketAddr::from_parts(zeros(), 110).unwrap().as_pathname(), None);
}

#[test]
fn address_without_a_zero_byte() {
    let addr = SockaddrUn { sun_family: AF_UNIX, sun_path: [b'z'; 108] };
    assert_eq!(SocketAddr::from_parts(addr, 110).unwrap().as_pathname(), Some(&[b'z'; 108][..]));
    assert_eq!(SocketAddr::from_parts(addr, 5).unwrap().as_pathname(), Some(&b"zzz"[..]));
}

#[test]
fn address_of_another_family() {
    let addr = SockaddrUn { sun_family: 2, sun_path: [0; 108] };
    assert!(matches!(SocketAddr::from_parts(addr, 16), Err(IoError::InvalidInput)));
    assert!(SocketAddr::from_parts(addr, 0).is_ok());
}
