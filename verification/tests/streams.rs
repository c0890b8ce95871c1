use mio::Ready;
use mio_uds_windows::address::SocketAddr;
use mio_uds_windows::effect::{Effect, StreamEffect};
use mio_uds_windows::error::IoError;
use mio_uds_windows::socket::{Call, Shutdown, Socket};
use mio_uds_windows::UnixStream;

/// What the event loop was told, how many references are kept, and which
/// operation is to be started, if there is one.
#[derive(Default)]
struct Driver {
    told: Vec<Ready>,
    retained: usize,
}

impl Driver {
    fn perform(&mut self, effects: Vec<StreamEffect>) -> Option<StreamEffect> {
        let mut start = None;
        for effect in effects {
            match effect {
                Effect::SetReadiness(ready) => self.told.push(ready),
                Effect::Retain => self.retained += 1,
                other => start = Some(other),
            }
        }
        start
    }

    fn ready(&self) -> Ready {
        *self.told.last().unwrap()
    }

    /// Performs effects that start a read, which the system takes.
    fn start_read(&mut self, stream: &mut UnixStream, effects: Vec<StreamEffect>) {
        match self.perform(effects) {
            Some(Effect::StartRead { size, ready, then_writable }) => {
                assert_eq!(size, 8192);
                let (scheduled, effects) = stream.read_scheduled(ready, then_writable, Ok(()));
                assert!(scheduled);
                assert!(self.perform(effects).is_none());
            }
            _ => panic!("no read was started"),
        }
    }

    /// Performs effects that start a write, which the system takes.
    fn start_write(&mut self, stream: &mut UnixStream, effects: Vec<StreamEffect>) -> Vec<u8> {
        match self.perform(effects) {
            Some(Effect::StartWrite { buf, pos }) => {
                let bytes = buf[pos..].to_vec();
                let effects = stream.write_scheduled(buf, pos, Ok(()));
                assert!(self.perform(effects).is_none());
                bytes
            }
            _ => panic!("no write was started"),
        }
    }
}

fn registered() -> (Driver, UnixStream) {
    let mut driver = Driver::default();
    let mut stream = UnixStream::from_raw_socket(7);
    let effects = stream.register();
    driver.start_read(&mut stream, effects);
    (driver, stream)
}

fn both() -> Ready {
    Ready::readable() | Ready::writable()
}

#[test]
fn would_block_until_registered() {
    let mut stream = UnixStream::from_raw_socket(7);
    let mut buf = [5; 4];
    let (result, effects) = stream.read(&mut buf);
    assert_eq!(result, Err(IoError::WouldBlock));
    assert!(effects.is_empty());
    assert_eq!(buf, [5; 4]);
    let (result, effects) = stream.write(b"abc");
    assert_eq!(result, Err(IoError::WouldBlock));
    assert!(effects.is_empty());
    assert_eq!(stream.flush(), Ok(()));
}

#[test]
fn registration_starts_a_read_and_offers_writing() {
    let (driver, mut stream) = registered();
    assert_eq!(driver.told, vec![Ready::empty(), Ready::writable()]);
    assert_eq!(driver.retained, 1);
    assert!(stream.is_reading());
    let (result, effects) = stream.read(&mut [0; 4]);
    assert_eq!(result, Err(IoError::WouldBlock));
    assert!(effects.is_empty());
}

#[test]
fn registration_with_a_read_that_is_refused() {
    let mut driver = Driver::default();
    let mut stream = UnixStream::from_raw_socket(7);
    let effects = stream.register();
    match driver.perform(effects) {
        Some(Effect::StartRead { size: 8192, ready, then_writable }) => {
            let (scheduled, effects) = stream.read_scheduled(ready, then_writable, Err(IoError::Os(10057)));
            assert!(scheduled);
            assert!(driver.perform(effects).is_none());
        }
        _ => panic!(),
    }
    assert_eq!(driver.told, vec![Ready::empty(), Ready::readable(), both()]);
    assert_eq!(driver.retained, 0);
    let (result, effects) = stream.read(&mut [0; 4]);
    assert_eq!(result, Err(IoError::Os(10057)));
    driver.start_read(&mut stream, effects);
    assert_eq!(driver.ready(), Ready::writable());
}

#[test]
fn reads_in_pieces() {
    let (mut driver, mut stream) = registered();
    let effects = stream.read_done(vec![1, 2, 3, 4, 5, 0, 0, 0], Ok(5));
    assert!(driver.perform(effects).is_none());
    assert_eq!(driver.ready(), both());

    let mut buf = [9; 3];
    let (result, effects) = stream.read(&mut buf);
    assert_eq!(result, Ok(3));
    assert_eq!(buf, [1, 2, 3]);
    assert!(effects.is_empty());

    let (result, effects) = stream.read(&mut []);
    assert_eq!(result, Ok(0));
    assert!(effects.is_empty());

    let mut buf = [9; 4];
    let (result, effects) = stream.read(&mut buf);
    assert_eq!(result, Ok(2));
    assert_eq!(buf, [4, 5, 9, 9]);
    driver.start_read(&mut stream, effects);
    assert_eq!(driver.ready(), Ready::writable());
    assert_eq!(driver.retained, 2);
    assert_eq!(stream.read(&mut buf).0, Err(IoError::WouldBlock));
}

#[test]
fn end_of_stream_is_an_empty_read() {
    let (mut driver, mut stream) = registered();
    let effects = stream.read_done(vec![0; 16], Ok(0));
    driver.perform(effects);
    let (result, effects) = stream.read(&mut [0; 4]);
    assert_eq!(result, Ok(0));
    driver.start_read(&mut stream, effects);
}

#[test]
fn failed_read_is_reported_once() {
    let (mut driver, mut stream) = registered();
    let effects = stream.read_done(vec![0; 16], Err(IoError::Os(10054)));
    driver.perform(effects);
    assert_eq!(driver.ready(), both());
    let (result, effects) = stream.read(&mut [0; 4]);
    assert_eq!(result, Err(IoError::Os(10054)));
    driver.start_read(&mut stream, effects);
    assert_eq!(driver.ready(), Ready::writable());
    assert_eq!(stream.read(&mut [0; 4]).0, Err(IoError::WouldBlock));
}

#[test]
fn writes_in_pieces() {
    let (mut driver, mut stream) = registered();
    let (result, effects) = stream.write(b"hello world");
    assert_eq!(result, Ok(11));
    let mut sent = Vec::new();
    let bytes = driver.start_write(&mut stream, effects);
    assert_eq!(bytes, b"hello world");
    assert_eq!(driver.ready(), Ready::empty());
    assert_eq!(stream.writing(), Some(11));
    assert_eq!(stream.write(b"!").0, Err(IoError::WouldBlock));

    sent.extend_from_slice(&bytes[..4]);
    let effects = stream.write_done(Ok(4));
    let bytes = driver.start_write(&mut stream, effects);
    assert_eq!(bytes, b"o world");
    assert_eq!(stream.writing(), Some(7));

    sent.extend_from_slice(&bytes);
    let effects = stream.write_done(Ok(7));
    assert!(driver.perform(effects).is_none());
    assert_eq!(sent, b"hello world");
    assert_eq!(driver.ready(), Ready::writable());
    assert_eq!(stream.writing(), None);
    assert_eq!(stream.write(b"!").0, Ok(1));
}

#[test]
fn write_keeps_the_stream_readable() {
    let (mut driver, mut stream) = registered();
    let effects = stream.read_done(vec![1], Ok(1));
    driver.perform(effects);
    let (_, effects) = stream.write(b"x");
    driver.start_write(&mut stream, effects);
    assert_eq!(driver.ready(), Ready::readable());
    let effects = stream.write_done(Ok(1));
    driver.perform(effects);
    assert_eq!(driver.ready(), both());
}

#[test]
fn empty_write() {
    let (mut driver, mut stream) = registered();
    let (result, effects) = stream.write(b"");
    assert_eq!(result, Ok(0));
    assert_eq!(driver.start_write(&mut stream, effects), b"");
    let effects = stream.write_done(Ok(0));
    assert!(driver.perform(effects).is_none());
    assert_eq!(driver.ready(), Ready::writable());
}

#[test]
fn failed_write_blocks_until_its_error_is_taken() {
    let (mut driver, mut stream) = registered();
    let (_, effects) = stream.write(b"abc");
    driver.start_write(&mut stream, effects);
    let effects = stream.write_done(Err(IoError::Os(10054)));
    driver.perform(effects);
    assert_eq!(driver.ready(), Ready::writable());
    assert_eq!(stream.write(b"d").0, Err(IoError::WouldBlock));
    let effects = stream.reregister();
    assert!(effects.is_empty());
    assert_eq!(stream.write(b"d").0, Err(IoError::WouldBlock));

    assert_eq!(stream.take_error(), Ok(Some(IoError::Os(10054))));
    assert_eq!(stream.take_error(), Ok(None));
    let (result, effects) = stream.write(b"de");
    assert_eq!(result, Ok(2));
    assert_eq!(driver.start_write(&mut stream, effects), b"de");
}

#[test]
fn write_that_is_refused() {
    let (mut driver, mut stream) = registered();
    let (result, effects) = stream.write(b"abc");
    assert_eq!(result, Ok(3));
    match driver.perform(effects) {
        Some(Effect::StartWrite { buf, pos }) => {
            assert_eq!((&buf[..], pos), (&b"abc"[..], 0));
            let effects = stream.write_scheduled(buf, pos, Err(IoError::Os(10058)));
            driver.perform(effects);
        }
        _ => panic!(),
    }
    assert_eq!(driver.ready(), Ready::writable());
    assert_eq!(driver.retained, 1);
    assert_eq!(stream.write(b"d").0, Err(IoError::WouldBlock));
}

#[test]
fn connects_once_it_is_registered() {
    let mut driver = Driver::default();
    let addr = SocketAddr::from_path(b"/tmp/foo").unwrap();
    let mut stream = UnixStream::_connect(Socket::from_raw_socket(7), addr);
    assert!(stream.is_connecting());
    let effects = stream.register();
    match driver.perform(effects) {
        Some(Effect::StartConnect(addr)) => {
            assert_eq!(addr.as_pathname(), Some(&b"/tmp/foo"[..]));
        }
        _ => panic!(),
    }
    let (result, effects) = stream.connect_scheduled(Ok(()));
    assert_eq!(result, Ok(()));
    assert!(driver.perform(effects).is_none());
    assert_eq!(driver.retained, 1);
    assert!(driver.told.is_empty());

    let effects = stream.connect_done(Ok(()));
    assert!(matches!(driver.perform(effects), Some(Effect::CompleteConnect)));
    assert!(!stream.is_reading());
    let effects = stream.connect_completed(Ok(()));
    driver.start_read(&mut stream, effects);
    assert!(!stream.is_connecting());
    assert_eq!(driver.ready(), Ready::writable());
    assert_eq!(stream.take_error(), Ok(None));

    let effects = stream.read_done(vec![0; 8], Ok(0));
    driver.perform(effects);
    assert_eq!(driver.ready(), both());
}

#[test]
fn connect_that_is_refused_at_once() {
    let addr = SocketAddr::from_path(b"/tmp/foo").unwrap();
    let mut stream = UnixStream::_connect(Socket::from_raw_socket(7), addr);
    stream.register();
    let (result, effects) = stream.connect_scheduled(Err(IoError::Os(10022)));
    assert_eq!(result, Err(IoError::Os(10022)));
    assert!(effects.is_empty());
}

#[test]
fn failed_connect_is_reported_by_take_error() {
    let mut driver = Driver::default();
    let addr = SocketAddr::from_path(b"/tmp/foo").unwrap();
    let mut stream = UnixStream::_connect(Socket::from_raw_socket(7), addr);
    stream.register();
    stream.connect_scheduled(Ok(()));
    let effects = stream.connect_done(Err(IoError::Os(10061)));
    match driver.perform(effects) {
        Some(Effect::StartRead { size: 8192, ready, then_writable }) => {
            let (scheduled, effects) = stream.read_scheduled(ready, then_writable, Err(IoError::Os(10057)));
            assert!(scheduled);
            driver.perform(effects);
        }
        _ => panic!(),
    }
    assert_eq!(driver.ready(), both());
    assert_eq!(stream.take_error(), Ok(Some(IoError::Os(10061))));
    assert_eq!(stream.take_error(), Ok(None));
}

#[test]
fn reads_many_buffers() {
    const N: usize = 1024 * 1024;
    let (mut driver, mut stream) = registered();
    let mut amt = 0;
    while amt < N {
        let effects = stream.read_done(vec![0; 8192], Ok(8192));
        driver.perform(effects);
        assert!(driver.ready().is_readable());
        let mut buf = [0; 1024];
        loop {
            match stream.read(&mut buf) {
                (Ok(n), effects) => {
                    amt += n;
                    if !effects.is_empty() {
                        driver.start_read(&mut stream, effects);
                    }
                }
                (Err(IoError::WouldBlock), _) => break,
                (Err(e), _) => panic!("{:?}", e),
            }
        }
        assert!(!driver.ready().is_readable());
    }
    assert_eq!(amt, N);
    assert_eq!(driver.retained, N / 8192 + 1);
}

#[test]
fn shutdown_is_not_ready_for_anything() {
    let (mut driver, mut stream) = registered();
    assert!(matches!(stream.shutdown(Shutdown::Write), Call::Shutdown { socket: 7, how: 1 }));
    let (result, effects) = stream.shutdown_done(-1, 10057);
    assert_eq!(result, Err(IoError::Os(10057)));
    assert!(effects.is_empty());
    let (result, effects) = stream.shutdown_done(0, 0);
    assert_eq!(result, Ok(()));
    driver.perform(effects);
    assert_eq!(driver.ready(), Ready::empty());
}

#[test]
fn dropped_stream_cancels_reads_but_not_writes() {
    let (mut driver, mut stream) = registered();
    let (_, effects) = stream.write(b"x");
    driver.start_write(&mut stream, effects);
    let effects = stream.drop();
    assert_eq!(effects.len(), 1);
    assert!(matches!(effects[0], Effect::CancelRead));
    let addr = SocketAddr::from_path(b"/tmp/foo").unwrap();
    let stream = UnixStream::_connect(Socket::from_raw_socket(9), addr);
    let effects = stream.drop();
    assert_eq!(effects.len(), 1);
    assert!(matches!(effects[0], Effect::CancelConnect));
    assert_eq!(stream.into_socket().as_raw_socket(), 9);
}

#[test]
fn calls_of_a_stream() {
    let stream = UnixStream::from_raw_socket(7);
    assert_eq!(stream.as_raw_socket(), 7);
    assert!(matches!(stream.local_addr(), Call::GetSockName { socket: 7 }));
    assert!(matches!(stream.peer_addr(), Call::GetPeerName { socket: 7 }));
    assert!(matches!(stream.try_clone().0, Call::DuplicateSocket { socket: 7 }));
}

#[test]
fn connect_error_is_kept_until_it_is_asked_for() {
    let mut driver = Driver::default();
    let addr = SocketAddr::from_path(b"/tmp/sock").unwrap();
    let mut stream = UnixStream::_connect(Socket::from_raw_socket(9), addr);
    let effects = stream.register();
    assert!(matches!(driver.perform(effects), Some(Effect::StartConnect(_))));
    let (_, effects) = stream.connect_scheduled(Ok(()));
    assert!(driver.perform(effects).is_none());
    let effects = stream.connect_done(Err(IoError::Os(10061)));
    driver.start_read(&mut stream, effects);
    assert_eq!(driver.ready(), Ready::writable());
    let effects = stream.read_done(vec![1, 2], Ok(2));
    assert!(driver.perform(effects).is_none());
    assert_eq!(stream.read(&mut [0; 1]).0, Ok(1));
    let effects = stream.reregister();
    assert!(driver.perform(effects).is_none());
    assert_eq!(driver.ready(), both());
    assert_eq!(stream.take_error(), Ok(Some(IoError::Os(10061))));
    assert_eq!(stream.take_error(), Ok(None));
}

#[test]
fn live_stream_is_writable_while_nothing_is_written() {
    let (mut driver, mut stream) = registered();
    for round in 0..3u8 {
        assert!(stream.is_reading());
        assert!(driver.ready().contains(Ready::writable()));
        let effects = stream.read_done(vec![round], Ok(1));
        assert!(driver.perform(effects).is_none());
        assert_eq!(driver.ready(), both());
        let (result, effects) = stream.read(&mut [0; 8]);
        assert_eq!(result, Ok(1));
        driver.start_read(&mut stream, effects);
    }
}

#[test]
fn connect_error_comes_before_a_write_error() {
    let mut driver = Driver::default();
    let addr = SocketAddr::from_path(b"/tmp/sock").unwrap();
    let mut stream = UnixStream::_connect(Socket::from_raw_socket(9), addr);
    stream.register();
    stream.connect_scheduled(Ok(()));
    let (_, effects) = stream.write(b"abc");
    driver.start_write(&mut stream, effects);
    let effects = stream.write_done(Err(IoError::Os(10057)));
    driver.perform(effects);
    let effects = stream.connect_done(Err(IoError::Os(10061)));
    driver.start_read(&mut stream, effects);
    assert_eq!(stream.take_error(), Ok(Some(IoError::Os(10061))));
    assert_eq!(stream.take_error(), Ok(Some(IoError::Os(10057))));
    assert_eq!(stream.take_error(), Ok(None));
}

#[test]
fn connection_that_cannot_be_completed() {
    let mut driver = Driver::default();
    let addr = SocketAddr::from_path(b"/tmp/sock").unwrap();
    let mut stream = UnixStream::_connect(Socket::from_raw_socket(9), addr);
    stream.register();
    stream.connect_scheduled(Ok(()));
    let effects = stream.connect_done(Ok(()));
    assert!(matches!(driver.perform(effects), Some(Effect::CompleteConnect)));
    assert!(!stream.is_connecting());
    let effects = stream.connect_completed(Err(IoError::Os(10022)));
    driver.start_read(&mut stream, effects);
    assert_eq!(driver.ready(), Ready::writable());
    assert_eq!(stream.take_error(), Ok(Some(IoError::Os(10022))));
}

#[test]
fn no_read_without_a_connection() {
    let mut driver = Driver::default();
    let mut stream = UnixStream::from_raw_socket(7);
    let effects = stream.register();
    match driver.perform(effects) {
        Some(Effect::StartRead { size: 8192, ready, then_writable: true }) => {
            let (scheduled, effects) = stream.read_scheduled(ready, true, Err(IoError::Os(536)));
            assert!(!scheduled);
            assert!(effects.is_empty());
        }
        _ => panic!(),
    }
    assert_eq!(driver.ready(), Ready::empty());
    assert!(!stream.is_reading());
    assert_eq!(stream.read(&mut [0; 4]).0, Err(IoError::WouldBlock));
    let effects = stream.reregister();
    driver.start_read(&mut stream, effects);
    assert!(stream.is_reading());
    assert_eq!(driver.ready(), Ready::writable());
}
