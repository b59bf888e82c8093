//! The errors that a request can end with.
use vstd::prelude::*;

verus! {

/// The error codes that the socket layer itself answers with.
#[derive(Debug, Clone, Copy, PartialEq, Eq, Structural)]
pub enum Errno {
    /// Resource unavailable, or the operation would block.
    Again,
    /// Invalid argument.
    Inval,
    /// I/O error.
    Io,
    /// The socket is not connected.
    Notconn,
    /// Not supported, or the operation is not supported on this socket.
    Notsup,
    /// The operation timed out.
    Timedout,
}

/// The errors that the virtual network replies with.
#[derive(Debug, Clone, Copy, PartialEq, Eq, Structural)]
pub enum NetworkError {
    /// The handle given was not usable.
    InvalidFd,
    /// The file exists already.
    AlreadyExists,
    /// A resource could not be locked.
    Lock,
    /// Something failed when doing I/O.
    IOError,
    /// The address was in use.
    AddressInUse,
    /// The address could not be found.
    AddressNotAvailable,
    /// A pipe was closed.
    BrokenPipe,
    /// There was not enough memory.
    InsufficientMemory,
    /// The connection was aborted.
    ConnectionAborted,
    /// The connection request was refused.
    ConnectionRefused,
    /// The connection was reset.
    ConnectionReset,
    /// The operation was interrupted before it could finish.
    Interrupted,
    /// Internal data was invalid.
    InvalidData,
    /// The provided data was invalid.
    InvalidInput,
    /// There was no open connection.
    NotConnected,
    /// The requested device could not be accessed.
    NoDevice,
    /// The caller was not allowed to perform the operation.
    PermissionDenied,
    /// The operation did not complete within the given time.
    TimedOut,
    /// The data ended where more was expected.
    UnexpectedEof,
    /// The operation would block; it can be tried again.
    WouldBlock,
    /// A call to write returned zero.
    WriteZero,
    /// Too many files are open.
    TooManyOpenFiles,
    /// The operation is not supported.
    Unsupported,
    /// Some other error.
    UnknownError,
}

/// Why a request failed.
#[derive(Debug, Clone, Copy, PartialEq, Eq, Structural)]
pub enum SocketError {
    /// The socket layer refused the request with this code.
    Errno(Errno),
    /// The request ended with this error of the network. The runtime that
    /// embeds the library gives the guest the error code it stands for.
    Net(NetworkError),
}

/// A network reply as the answer to the guest: a success is handed on as it
/// is, an error as the network's error.
pub open spec fn answered<T>(reply: Result<T, NetworkError>) -> Result<T, SocketError> {
    match reply {
        Ok(value) => Ok(value),
        Err(error) => Err(SocketError::Net(error)),
    }
}

/// Turns a network reply into the answer to the guest.
pub fn answer<T>(reply: Result<T, NetworkError>) -> (answer: Result<T, SocketError>)
    ensures
        answer == answered(reply),
{
    match reply {
        Ok(value) => Ok(value),
        Err(error) => Err(SocketError::Net(error)),
    }
}

} // verus!
