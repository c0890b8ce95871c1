//! State machines behind Unix domain sockets on Windows.
//!
//! On Windows an event loop serves sockets by completion: an operation is handed
//! to the system, which says later that it is done. The users of an event loop
//! expect readiness: they are told that a socket can be read or written, and do
//! that themselves. The types here hold the state, buffers included, that turns
//! the one into the other.
//!
//! Nothing here calls the system. A method that needs it returns what its driver
//! has to do: a `Call`, with a `SocketTask` where several calls follow one
//! another, or a list of effects. The driver hands back what came of it.
//!
//! # Streams and listeners
//!
//! `UnixStream` can be read and written once it is associated with an event loop.
//! Until this happens all I/O operations return a "would block" error. The
//! `connect` method succeeds asynchronously, and a completion can be detected once
//! the stream is writable. `UnixListener` hands out streams in the same way. The
//! types in `net` are the sockets without an event loop.
pub mod address;
pub mod effect;
pub mod error;
pub mod listener;
pub mod listener_laws;
pub mod listener_model;
pub mod listener_operations;
pub mod net;
pub mod ready;
pub mod socket;
pub mod socket_laws;
pub mod state;
pub mod stream;
pub mod stream_laws;
pub mod stream_model;
pub mod stream_operations;
pub mod task;
pub mod task_laws;

pub use listener::UnixListener;
pub use stream::UnixStream;
