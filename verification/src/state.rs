//! The state of one half of a socket.
use vstd::prelude::*;

use crate::error::IoError;

verus! {

/// How far an I/O operation has come: `T` is what an operation in flight holds,
/// `U` what a finished one has left behind.
pub enum State<T, U> {
    /// No I/O operation is in progress.
    Idle,
    /// An I/O operation is in progress.
    Pending(T),
    /// I/O has finished with this value.
    Done(U),
    /// There was an I/O error.
    Failed(IoError),
}

} // verus!
