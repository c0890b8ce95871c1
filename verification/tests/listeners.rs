use mio::Ready;
use mio_uds_windows::address::SocketAddr;
use mio_uds_windows::effect::{AcceptEffect, ListenerEffect};
use mio_uds_windows::error::IoError;
use mio_uds_windows::net;
use mio_uds_windows::socket::Call;
use mio_uds_windows::UnixListener;

#[derive(Default)]
struct Driver {
    told: Vec<Ready>,
    retained: usize,
    closed: Vec<usize>,
}

impl Driver {
    fn perform(&mut self, effects: Vec<ListenerEffect>) -> Option<Ready> {
        let mut start = None;
        for effect in effects {
            match effect {
                AcceptEffect::SetReadiness(ready) => self.told.push(ready),
                AcceptEffect::Retain => self.retained += 1,
                AcceptEffect::Close(socket) => self.closed.push(socket),
                AcceptEffect::MakeSocket { ready } => start = Some(ready),
                AcceptEffect::StartAccept { .. } => panic!("no socket was made"),
                AcceptEffect::ReadRemote => panic!("no accept has completed"),
                AcceptEffect::CancelAccept => panic!("nothing was dropped"),
            }
        }
        start
    }

    /// Performs the effects of an accept that has completed, up to its outcome.
    fn read_remote(
        &mut self,
        listener: &mut UnixListener,
        outcome: Result<Option<SocketAddr>, IoError>,
    ) {
        let effects = listener.accept_done(Ok(()));
        assert_eq!(effects.len(), 1);
        assert!(matches!(effects[0], AcceptEffect::ReadRemote));
        let effects = listener.accept_parsed(outcome);
        assert!(self.perform(effects).is_none());
    }

    fn start_accept(&mut self, listener: &mut UnixListener, effects: Vec<ListenerEffect>, raw: usize) {
        let ready = self.perform(effects).expect("no accept was started");
        let ready = made_socket(listener, ready, raw);
        let effects = listener.accept_scheduled(ready, raw, Ok(()));
        assert!(self.perform(effects).is_none());
    }
}

/// Hands in the socket that was asked for; the accept on it is to be started.
fn made_socket(listener: &mut UnixListener, ready: Ready, raw: usize) -> Ready {
    let socket = net::UnixStream::from_raw_socket(raw);
    let mut effects = listener.socket_made(ready, Ok(socket));
    assert_eq!(effects.len(), 1);
    match effects.pop() {
        Some(AcceptEffect::StartAccept { ready, socket }) => {
            assert_eq!(socket, raw);
            ready
        }
        _ => panic!("no accept was started"),
    }
}

fn registered() -> (Driver, UnixListener) {
    let mut driver = Driver::default();
    let mut listener = UnixListener::from_raw_socket(3);
    let effects = listener.register();
    driver.start_accept(&mut listener, effects, 20);
    (driver, listener)
}

fn peer() -> SocketAddr {
    SocketAddr::from_path(b"/tmp/peer").unwrap()
}

#[test]
fn listener_would_block_until_registered() {
    let mut listener = UnixListener::from_raw_socket(3);
    let (result, effects) = listener.accept();
    assert!(matches!(result, Err(IoError::WouldBlock)));
    assert!(effects.is_empty());
    assert!(matches!(listener.failure(), None));
}

#[test]
fn accepts_once_and_would_block() {
    let (mut driver, mut listener) = registered();
    assert_eq!(driver.told, vec![Ready::empty()]);
    assert_eq!(driver.retained, 1);
    assert!(listener.is_accepting());
    assert!(matches!(listener.accept().0, Err(IoError::WouldBlock)));

    driver.read_remote(&mut listener, Ok(Some(peer())));
    assert!(driver.told.last().unwrap().is_readable());

    let (result, effects) = listener.accept();
    let (stream, addr) = result.unwrap().unwrap();
    assert_eq!(stream.as_raw_socket(), 20);
    assert_eq!(addr.as_pathname(), Some(&b"/tmp/peer"[..]));
    driver.start_accept(&mut listener, effects, 21);
    assert_eq!(*driver.told.last().unwrap(), Ready::empty());
    assert_eq!(driver.retained, 2);

    assert!(matches!(listener.accept().0, Err(IoError::WouldBlock)));
    assert!(driver.closed.is_empty());
}

#[test]
fn accepted_stream_is_not_registered() {
    let (mut driver, mut listener) = registered();
    driver.read_remote(&mut listener, Ok(Some(peer())));
    let (mut stream, _) = listener.accept().0.unwrap().unwrap();
    assert!(!stream.is_connecting());
    assert_eq!(stream.read(&mut [0; 1]).0, Err(IoError::WouldBlock));
}

#[test]
fn peer_without_an_address() {
    let (mut driver, mut listener) = registered();
    driver.read_remote(&mut listener, Ok(None));
    assert_eq!(driver.closed, vec![20]);
    assert!(driver.told.last().unwrap().is_readable());
    let (result, effects) = listener.accept();
    assert!(matches!(result, Err(IoError::NoRemoteAddress)));
    driver.start_accept(&mut listener, effects, 21);
}

#[test]
fn failed_accept() {
    let (mut driver, mut listener) = registered();
    let effects = listener.accept_done(Err(IoError::Os(995)));
    driver.perform(effects);
    assert_eq!(driver.closed, vec![20]);
    assert_eq!(listener.failure(), Some(IoError::Os(995)));
    assert!(matches!(listener.accept().0, Err(IoError::Os(995))));
}

#[test]
fn remote_address_that_cannot_be_read() {
    let (mut driver, mut listener) = registered();
    driver.read_remote(&mut listener, Err(IoError::Os(10014)));
    assert_eq!(driver.closed, vec![20]);
    assert!(matches!(listener.accept().0, Err(IoError::Os(10014))));
}

#[test]
fn accept_that_is_refused_closes_the_socket() {
    let mut driver = Driver::default();
    let mut listener = UnixListener::from_raw_socket(3);
    let effects = listener.register();
    let ready = driver.perform(effects).unwrap();
    let ready = made_socket(&mut listener, ready, 30);
    let effects = listener.accept_scheduled(ready, 30, Err(IoError::Os(10022)));
    assert!(matches!(effects[0], AcceptEffect::Close(30)));
    driver.perform(effects);
    assert_eq!(driver.told, vec![Ready::empty(), Ready::readable()]);
    assert_eq!(driver.retained, 0);
    assert!(matches!(listener.accept().0, Err(IoError::Os(10022))));
}

#[test]
fn no_socket_for_a_connection() {
    let mut driver = Driver::default();
    let mut listener = UnixListener::from_raw_socket(3);
    let effects = listener.register();
    let ready = driver.perform(effects).unwrap();
    let effects = listener.socket_made(ready, Err(IoError::Os(10024)));
    assert!(driver.perform(effects).is_none());
    assert_eq!(driver.retained, 0);
    assert!(driver.closed.is_empty());
    assert!(matches!(listener.accept().0, Err(IoError::Os(10024))));
}

#[test]
fn registering_again_does_not_accept_twice() {
    let (_, mut listener) = registered();
    assert!(listener.reregister().is_empty());
}

#[test]
fn dropped_listener() {
    let (mut driver, mut listener) = registered();
    let effects = listener.drop();
    assert_eq!(effects.len(), 1);
    assert!(matches!(effects[0], AcceptEffect::CancelAccept));
    driver.read_remote(&mut listener, Ok(Some(peer())));
    assert!(listener.drop().is_empty());
    let raw: Vec<usize> = listener.into_sockets().iter().map(|s| s.as_raw_socket()).collect();
    assert_eq!(raw, vec![3, 20]);
    let (_, listener) = registered();
    let raw: Vec<usize> = listener.into_sockets().iter().map(|s| s.as_raw_socket()).collect();
    assert_eq!(raw, vec![3, 20]);
    let raw: Vec<usize> =
        UnixListener::from_raw_socket(4).into_sockets().iter().map(|s| s.as_raw_socket()).collect();
    assert_eq!(raw, vec![4]);
}

#[test]
fn calls_of_a_listener() {
    let listener = UnixListener::from_raw_socket(3);
    assert_eq!(listener.as_raw_socket(), 3);
    assert!(matches!(listener.take_error(), Call::GetSockOpt { socket: 3, level: 0xffff, name: 0x1007 }));
    assert!(matches!(listener.local_addr(), Call::GetSockName { socket: 3 }));
    assert!(matches!(listener.try_clone().0, Call::DuplicateSocket { socket: 3 }));
}
