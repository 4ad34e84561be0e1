//! Errors of host functions as scripts get to see them: a message and the
//! name of an error class, handed over in one tagged value.

use vstd::prelude::*;

verus! {

/// The kinds of I/O failure that have an error class of their own.
#[derive(Clone, Copy, Debug, PartialEq, Eq, Structural)]
pub enum IoErrorKind {
    NotFound,
    PermissionDenied,
    AlreadyExists,
    WouldBlock,
    InvalidInput,
    InvalidData,
    TimedOut,
    WriteZero,
    Interrupted,
    UnexpectedEof,
    BrokenPipe,
    ConnectionRefused,
    ConnectionReset,
    ConnectionAborted,
    NotConnected,
    AddrInUse,
    AddrNotAvailable,
    /// Any kind without a class of its own.
    Other,
}

/// An error of a host function.
#[derive(Debug)]
pub enum DenoError {
    /// An I/O failure: its kind and its message.
    Io(IoErrorKind, String),
    BadResource(String),
    Busy(String),
    NotSupported(String),
    FilesystemLoop(String),
    IsADirectory(String),
    NetworkUnreachable(String),
    NotADirectory(String),
    Http(String),
    Other(String),
}

/// The result of a host function.
pub type DenoResult<T> = Result<T, DenoError>;

/// The result of a host function on its way into a script: the value, or the
/// message of the error together with the name of its class.
pub enum JsResult<T> {
    /// The value.
    Value(T),
    /// The error.
    Failed {
        /// The message.
        error: String,
        /// The name of the error class.
        kind: String,
    },
}

/// The name of the error class of an I/O failure. Invalid input and invalid
/// data share one class.
pub open spec fn io_class(kind: IoErrorKind) -> Seq<char> {
    match kind {
        IoErrorKind::NotFound => "NotFound"@,
        IoErrorKind::PermissionDenied => "PermissionDenied"@,
        IoErrorKind::AlreadyExists => "AlreadyExists"@,
        IoErrorKind::WouldBlock => "WouldBlock"@,
        IoErrorKind::InvalidInput => "InvalidData"@,
        IoErrorKind::InvalidData => "InvalidData"@,
        IoErrorKind::TimedOut => "TimedOut"@,
        IoErrorKind::WriteZero => "WriteZero"@,
        IoErrorKind::Interrupted => "Interrupted"@,
        IoErrorKind::UnexpectedEof => "UnexpectedEof"@,
        IoErrorKind::BrokenPipe => "BrokenPipe"@,
        IoErrorKind::ConnectionRefused => "ConnectionRefused"@,
        IoErrorKind::ConnectionReset => "ConnectionReset"@,
        IoErrorKind::ConnectionAborted => "ConnectionAborted"@,
        IoErrorKind::NotConnected => "NotConnected"@,
        IoErrorKind::AddrInUse => "AddrInUse"@,
        IoErrorKind::AddrNotAvailable => "AddrNotAvailable"@,
        IoErrorKind::Other => "Other"@,
    }
}

impl DenoError {
    /// The name of the error class.
    pub open spec fn class(&self) -> Seq<char> {
        match *self {
            DenoError::Io(kind, _) => io_class(kind),
            DenoError::BadResource(_) => "BadResource"@,
            DenoError::Busy(_) => "Busy"@,
            DenoError::NotSupported(_) => "NotSupported"@,
            DenoError::FilesystemLoop(_) => "FilesystemLoop"@,
            DenoError::IsADirectory(_) => "IsADirectory"@,
            DenoError::NetworkUnreachable(_) => "NetworkUnreachable"@,
            DenoError::NotADirectory(_) => "NotADirectory"@,
            DenoError::Http(_) => "Http"@,
            DenoError::Other(_) => "Other"@,
        }
    }

    /// The message.
    pub open spec fn text(&self) -> Seq<char> {
        match *self {
            DenoError::Io(_, message) => message@,
            DenoError::BadResource(message) => message@,
            DenoError::Busy(message) => message@,
            DenoError::NotSupported(message) => message@,
            DenoError::FilesystemLoop(message) => message@,
            DenoError::IsADirectory(message) => message@,
            DenoError::NetworkUnreachable(message) => message@,
            DenoError::NotADirectory(message) => message@,
            DenoError::Http(message) => message@,
            DenoError::Other(message) => message@,
        }
    }

    /// The name of the error class under which a script sees the error.
    pub fn error_class(&self) -> (name: &'static str)
        ensures
            name@ == self.class(),
    {
        match self {
            DenoError::Io(kind, _) => match kind {
                IoErrorKind::NotFound => "NotFound",
                IoErrorKind::PermissionDenied => "PermissionDenied",
                IoErrorKind::AlreadyExists => "AlreadyExists",
                IoErrorKind::WouldBlock => "WouldBlock",
                IoErrorKind::InvalidInput => "InvalidData",
                IoErrorKind::InvalidData => "InvalidData",
                IoErrorKind::TimedOut => "TimedOut",
                IoErrorKind::WriteZero => "WriteZero",
                IoErrorKind::Interrupted => "Interrupted",
                IoErrorKind::UnexpectedEof => "UnexpectedEof",
                IoErrorKind::BrokenPipe => "BrokenPipe",
                IoErrorKind::ConnectionRefused => "ConnectionRefused",
                IoErrorKind::ConnectionReset => "ConnectionReset",
                IoErrorKind::ConnectionAborted => "ConnectionAborted",
                IoErrorKind::NotConnected => "NotConnected",
                IoErrorKind::AddrInUse => "AddrInUse",
                IoErrorKind::AddrNotAvailable => "AddrNotAvailable",
                IoErrorKind::Other => "Other",
            },
            DenoError::BadResource(_) => "BadResource",
            DenoError::Busy(_) => "Busy",
            DenoError::NotSupported(_) => "NotSupported",
            DenoError::FilesystemLoop(_) => "FilesystemLoop",
            DenoError::IsADirectory(_) => "IsADirectory",
            DenoError::NetworkUnreachable(_) => "NetworkUnreachable",
            DenoError::NotADirectory(_) => "NotADirectory",
            DenoError::Http(_) => "Http",
            DenoError::Other(_) => "Other",
        }
    }

    /// The message of the error.
    pub fn message(&self) -> (message: &str)
        ensures
            message@ == self.text(),
    {
        match self {
            DenoError::Io(_, message) => message.as_str(),
            DenoError::BadResource(message) => message.as_str(),
            DenoError::Busy(message) => message.as_str(),
            DenoError::NotSupported(message) => message.as_str(),
            DenoError::FilesystemLoop(message) => message.as_str(),
            DenoError::IsADirectory(message) => message.as_str(),
            DenoError::NetworkUnreachable(message) => message.as_str(),
            DenoError::NotADirectory(message) => message.as_str(),
            DenoError::Http(message) => message.as_str(),
            DenoError::Other(message) => message.as_str(),
        }
    }
}

impl<T> JsResult<T> {
    /// Turns the result of a host function into what a script gets: a value stays the value, an
    /// error becomes its message and the name of its class. This is the one
    /// place where errors take the shape in which scripts see them.
    pub fn from_result(result: DenoResult<T>) -> (js: Self)
        ensures
            match result {
                Ok(value) => js == JsResult::Value::<T>(value),
                Err(e) => js matches JsResult::Failed { error, kind } && error@ == e.text() && kind@
                    == e.class(),
            },
    {
        match result {
            Ok(value) => JsResult::Value(value),
            Err(e) => {
                let error = e.message().to_owned();
                let kind = e.error_class().to_owned();
                JsResult::Failed { error, kind }
            },
        }
    }
}

} // verus!
