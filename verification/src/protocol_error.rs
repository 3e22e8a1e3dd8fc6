//! Transport errors and their semantic classification.

use vstd::prelude::*;

verus! {

/// The semantic category of a protocol error.
#[derive(Clone, Copy, Debug, Eq, PartialEq, Structural)]
pub enum ProtocolErrorKind {
    /// The arguments of a request could not be parsed.
    InvalidArgs,
    /// Any other error.
    Other,
}

/// The kind of a transport error, as `std::io::ErrorKind` tells them apart.
#[derive(Clone, Copy, Debug, Eq, PartialEq, Structural)]
pub enum IoErrorKind {
    NotFound,
    PermissionDenied,
    ConnectionRefused,
    ConnectionReset,
    HostUnreachable,
    NetworkUnreachable,
    ConnectionAborted,
    NotConnected,
    AddrInUse,
    AddrNotAvailable,
    NetworkDown,
    BrokenPipe,
    AlreadyExists,
    WouldBlock,
    NotADirectory,
    IsADirectory,
    DirectoryNotEmpty,
    ReadOnlyFilesystem,
    StaleNetworkFileHandle,
    InvalidInput,
    InvalidData,
    TimedOut,
    WriteZero,
    StorageFull,
    NotSeekable,
    QuotaExceeded,
    FileTooLarge,
    ResourceBusy,
    ExecutableFileBusy,
    Deadlock,
    CrossesDevices,
    TooManyLinks,
    InvalidFilename,
    ArgumentListTooLong,
    Interrupted,
    Unsupported,
    UnexpectedEof,
    OutOfMemory,
    /// Any other kind.
    Other,
}

/// An error of the transport.
#[derive(Clone, Debug, Eq, PartialEq)]
pub struct IoError {
    pub kind: IoErrorKind,
    pub message: String,
    /// The classification that dispatch gave to the error, if any.
    pub class: Option<ProtocolErrorKind>,
}

impl IoError {
    /// Creates an error without a classification.
    pub fn new(kind: IoErrorKind, message: String) -> (e: Self)
        ensures
            e == (IoError { kind, message, class: None }),
    {
        IoError { kind, message, class: None }
    }

    /// Gives the error a classification. Kind and message stay as they are.
    pub fn classified(self, class: ProtocolErrorKind) -> (e: Self)
        ensures
            e == (IoError { kind: self.kind, message: self.message, class: Some(class) }),
    {
        IoError { kind: self.kind, message: self.message, class: Some(class) }
    }
}

/// The category of a transport error: its classification, or `Other` where
/// it has none.
pub open spec fn category(e: IoError) -> ProtocolErrorKind {
    match e.class {
        Some(class) => class,
        None => ProtocolErrorKind::Other,
    }
}

impl ProtocolErrorKind {
    /// Returns the category of a transport error.
    pub fn of_io_error(e: &IoError) -> (kind: ProtocolErrorKind)
        ensures
            kind == category(*e),
    {
        match e.class {
            Some(class) => class,
            None => ProtocolErrorKind::Other,
        }
    }
}

/// An error is created with the kind and the message given and without a
/// classification. To classify it changes neither kind nor message, and its
/// category is the classification that it was given, or `Other` as long as it
/// was given none.
pub proof fn errors_keep_kind_and_message(
    kind: IoErrorKind,
    message: String,
    e: IoError,
    class: ProtocolErrorKind,
    classified: IoError,
    before: ProtocolErrorKind,
    after: ProtocolErrorKind,
)
    requires
        call_ensures(IoError::new, (kind, message), e),
        call_ensures(IoError::classified, (e, class), classified),
        call_ensures(ProtocolErrorKind::of_io_error, (&e,), before),
        call_ensures(ProtocolErrorKind::of_io_error, (&classified,), after),
    ensures
        e.kind == kind && classified.kind == kind,
        e.message == message && classified.message == message,
        before is Other,
        after == class,
{
}

} // verus!
