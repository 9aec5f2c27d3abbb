//! Input and output failures as plain values.
use vstd::prelude::*;

verus! {

/// The category of an input or output failure.
#[derive(Clone, Copy, Debug, PartialEq, Eq, Structural)]
pub enum ErrorKind {
    NotFound,
    PermissionDenied,
    WouldBlock,
    InvalidInput,
    InvalidData,
    TimedOut,
    WriteZero,
    Interrupted,
    Unsupported,
    UnexpectedEof,
    BrokenPipe,
    ConnectionAborted,
    Other,
}

/// A failure with its category, the operating system's code when there is one,
/// and the text that describes it.
#[derive(Clone, Debug, PartialEq, Eq)]
pub struct IoError {
    pub kind: ErrorKind,
    pub code: Option<i32>,
    pub message: String,
}

/// The error type `std::io::Error`.
#[verifier::external_type_specification]
#[verifier::external_body]
pub struct ExIoError(std::io::Error);

/// `std::io::Error::from_raw_os_error`: the error that a code stands for. What it says depends
/// on the platform, so nothing is claimed of it.
#[verifier::external_body]
fn os_error(code: i32) -> std::io::Error {
    std::io::Error::from_raw_os_error(code)
}

/// `std::io::Error::kind`: the category of an error. It depends on the platform, so nothing is
/// claimed of it.
#[verifier::external_body]
fn os_error_kind(error: &std::io::Error) -> ErrorKind {
    match error.kind() {
        std::io::ErrorKind::NotFound => ErrorKind::NotFound,
        std::io::ErrorKind::PermissionDenied => ErrorKind::PermissionDenied,
        std::io::ErrorKind::WouldBlock => ErrorKind::WouldBlock,
        std::io::ErrorKind::InvalidInput => ErrorKind::InvalidInput,
        std::io::ErrorKind::TimedOut => ErrorKind::TimedOut,
        std::io::ErrorKind::Interrupted => ErrorKind::Interrupted,
        std::io::ErrorKind::Unsupported => ErrorKind::Unsupported,
        std::io::ErrorKind::BrokenPipe => ErrorKind::BrokenPipe,
        std::io::ErrorKind::ConnectionAborted => ErrorKind::ConnectionAborted,
        _ => ErrorKind::Other,
    }
}

/// `ToString::to_string` of a `std::io::Error`: the platform's description of it. It depends
/// on the platform, so nothing is claimed of it.
#[verifier::external_body]
fn os_error_text(error: &std::io::Error) -> String {
    error.to_string()
}

impl IoError {
    /// Whether this failure carries no operating-system code and has the given
    /// category and text.
    pub open spec fn is_simple(&self, kind: ErrorKind, message: Seq<char>) -> bool {
        &&& self.kind == kind
        &&& self.code is None
        &&& self.message@ == message
    }

    /// A failure of the library's own, without an operating-system code.
    pub fn new(kind: ErrorKind, message: &str) -> (error: Self)
        ensures
            error.is_simple(kind, message@),
    {
        IoError { kind, code: None, message: message.to_owned() }
    }

    /// A failure that the operating system reported with this code. Its category and text
    /// are the platform's.
    pub fn from_raw_os_error(code: i32) -> (error: Self)
        ensures
            error.code == Some(code),
    {
        let error = os_error(code);
        IoError {
            kind: os_error_kind(&error),
            code: Some(code),
            message: os_error_text(&error),
        }
    }

    /// The category of the failure.
    pub fn kind(&self) -> (kind: ErrorKind)
        ensures
            kind == self.kind,
    {
        self.kind
    }

    /// The operating system's code, when the failure came from it.
    pub fn raw_os_error(&self) -> (code: Option<i32>)
        ensures
            code == self.code,
    {
        self.code
    }
}

} // verus!
