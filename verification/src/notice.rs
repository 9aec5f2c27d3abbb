//! Typed events of a session, each failure with its cause.
use crate::error::{self, CloseResult, FailureKind, OperationError};
use crate::fault::{ErrorKind, IoError};
use bytes::Bytes;
use vstd::prelude::*;

verus! {

/// A spawn that failed, with the operating system's code when there is one.
#[derive(Clone, Copy, Debug, PartialEq, Eq, Structural)]
pub struct Failure {
    pub kind: FailureKind,
    pub native_code: Option<i32>,
}

/// The category of a spawn that failed with this kind of error.
pub open spec fn spawn_failure_kind(kind: ErrorKind) -> FailureKind {
    match kind {
        ErrorKind::InvalidInput | ErrorKind::InvalidData => FailureKind::InvalidArgument,
        ErrorKind::WouldBlock => FailureKind::Backpressure,
        ErrorKind::Unsupported => FailureKind::Unsupported,
        ErrorKind::BrokenPipe | ErrorKind::ConnectionAborted => FailureKind::InfrastructureLost,
        _ => FailureKind::NativeFailure,
    }
}

impl Failure {
    /// The failure that an error stands for.
    pub fn from_io(error: &IoError) -> (failure: Failure)
        ensures
            failure == (Failure {
                kind: spawn_failure_kind(error.kind),
                native_code: error.code,
            }),
    {
        let kind = match error.kind() {
            ErrorKind::InvalidInput | ErrorKind::InvalidData => FailureKind::InvalidArgument,
            ErrorKind::WouldBlock => FailureKind::Backpressure,
            ErrorKind::Unsupported => FailureKind::Unsupported,
            ErrorKind::BrokenPipe | ErrorKind::ConnectionAborted => FailureKind::InfrastructureLost,
            _ => FailureKind::NativeFailure,
        };
        Failure { kind, native_code: error.raw_os_error() }
    }
}

/// One event of a session.
#[derive(Debug, PartialEq, Eq)]
pub enum Notice {
    Output { handle: u64, bytes: Bytes },
    InputFailed { handle: u64, failure: OperationError },
    OutputFailed { handle: u64, failure: OperationError },
    ExitFailed { handle: u64, failure: OperationError },
    BrokerLost { handle: u64, failure: OperationError },
    OutputDone(u64),
    Exit { handle: u64, status: i64 },
    Closed { handle: u64, result: CloseResult },
    SpawnReady { request: u64, handle: u64 },
    SpawnFailed { request: u64, failure: Failure },
    ModeChanged { handle: u64, modes: [bool; 3] },
    ModeFailed { handle: u64, failure: OperationError },
}

/// The route of a notice: its session, or the request of a spawn that failed.
pub open spec fn route_of(notice: Notice) -> u64 {
    match notice {
        Notice::Output { handle, .. } => handle,
        Notice::InputFailed { handle, .. } => handle,
        Notice::OutputFailed { handle, .. } => handle,
        Notice::ExitFailed { handle, .. } => handle,
        Notice::BrokerLost { handle, .. } => handle,
        Notice::OutputDone(handle) => handle,
        Notice::Exit { handle, .. } => handle,
        Notice::Closed { handle, .. } => handle,
        Notice::SpawnReady { handle, .. } => handle,
        Notice::SpawnFailed { request, .. } => request,
        Notice::ModeChanged { handle, .. } => handle,
        Notice::ModeFailed { handle, .. } => handle,
    }
}

impl Notice {
    /// The route of the notice.
    pub fn handle(&self) -> (route: u64)
        ensures
            route == route_of(*self),
    {
        match self {
            Notice::Output { handle, .. } => *handle,
            Notice::InputFailed { handle, .. } => *handle,
            Notice::OutputFailed { handle, .. } => *handle,
            Notice::ExitFailed { handle, .. } => *handle,
            Notice::BrokerLost { handle, .. } => *handle,
            Notice::OutputDone(handle) => *handle,
            Notice::Exit { handle, .. } => *handle,
            Notice::Closed { handle, .. } => *handle,
            Notice::SpawnReady { handle, .. } => *handle,
            Notice::SpawnFailed { request, .. } => *request,
            Notice::ModeChanged { handle, .. } => *handle,
            Notice::ModeFailed { handle, .. } => *handle,
        }
    }
}

/// The notice that tells of a spawn.
pub fn spawn_notice(request: u64, result: &Result<u64, IoError>) -> (notice: Notice)
    ensures
        notice == match *result {
            Ok(handle) => Notice::SpawnReady { request, handle },
            Err(error) => Notice::SpawnFailed {
                request,
                failure: Failure {
                    kind: spawn_failure_kind(error.kind),
                    native_code: error.code,
                },
            },
        },
{
    match result {
        Ok(handle) => Notice::SpawnReady { request, handle: *handle },
        Err(error) => Notice::SpawnFailed { request, failure: Failure::from_io(error) },
    }
}

} // verus!
