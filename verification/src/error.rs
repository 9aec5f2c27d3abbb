//! Typed failures of a native session.
use crate::fault::{ErrorKind, IoError};
use crate::text;
use bytes::Bytes;
use vstd::prelude::*;

verus! {

/// The operation that failed.
#[derive(Clone, Copy, Debug, PartialEq, Eq, Structural)]
pub enum Operation {
    /// Native runtime construction or ownership.
    Runtime,
    /// Child and terminal spawn.
    Spawn,
    /// Terminal input delivery.
    Write,
    /// Terminal output delivery or cancellation.
    Output,
    /// Terminal resize.
    Resize,
    /// Child or terminal-job termination.
    Terminate,
    /// Direct-child exit-status observation.
    Exit,
    /// Metadata snapshot or terminal-mode observation.
    Metadata,
    /// Session cleanup.
    Close,
}

/// The category of a failure.
#[derive(Clone, Copy, Debug, PartialEq, Eq, Structural)]
pub enum FailureKind {
    /// Caller input was invalid.
    InvalidArgument,
    /// A bounded queue could not accept the complete operation.
    Backpressure,
    /// The operation does not apply in the current state.
    WrongState,
    /// The requested capability is unavailable.
    Unsupported,
    /// The session or one direction of it is over.
    Closed,
    /// An operating-system operation failed.
    NativeFailure,
    /// Runtime ownership or event infrastructure was lost.
    InfrastructureLost,
}

/// The name of an operation.
pub open spec fn operation_text(operation: Operation) -> Seq<char> {
    match operation {
        Operation::Runtime => "runtime"@,
        Operation::Spawn => "spawn"@,
        Operation::Write => "write"@,
        Operation::Output => "output"@,
        Operation::Resize => "resize"@,
        Operation::Terminate => "termination"@,
        Operation::Exit => "exit observation"@,
        Operation::Metadata => "metadata"@,
        Operation::Close => "close"@,
    }
}

/// The name of a category.
pub open spec fn kind_text(kind: FailureKind) -> Seq<char> {
    match kind {
        FailureKind::InvalidArgument => "invalid argument"@,
        FailureKind::Backpressure => "backpressure"@,
        FailureKind::WrongState => "wrong state"@,
        FailureKind::Unsupported => "unsupported operation"@,
        FailureKind::Closed => "closed state"@,
        FailureKind::NativeFailure => "native failure"@,
        FailureKind::InfrastructureLost => "infrastructure loss"@,
    }
}

impl Operation {
    /// The operation's name.
    pub fn name(&self) -> (name: &'static str)
        ensures
            name@ == operation_text(*self),
    {
        match self {
            Operation::Runtime => "runtime",
            Operation::Spawn => "spawn",
            Operation::Write => "write",
            Operation::Output => "output",
            Operation::Resize => "resize",
            Operation::Terminate => "termination",
            Operation::Exit => "exit observation",
            Operation::Metadata => "metadata",
            Operation::Close => "close",
        }
    }
}

impl FailureKind {
    /// The category's name.
    pub fn name(&self) -> (name: &'static str)
        ensures
            name@ == kind_text(*self),
    {
        match self {
            FailureKind::InvalidArgument => "invalid argument",
            FailureKind::Backpressure => "backpressure",
            FailureKind::WrongState => "wrong state",
            FailureKind::Unsupported => "unsupported operation",
            FailureKind::Closed => "closed state",
            FailureKind::NativeFailure => "native failure",
            FailureKind::InfrastructureLost => "infrastructure loss",
        }
    }
}

/// A failure of a native session, with the operating system's code when there is one.
#[derive(Clone, Copy, Debug, PartialEq, Eq, Structural)]
pub struct OperationError {
    pub operation: Operation,
    pub kind: FailureKind,
    pub native_code: Option<i32>,
}

/// The text of a failure.
pub open spec fn failure_text(failure: OperationError) -> Seq<char> {
    let plain = operation_text(failure.operation) + " failed with "@ + kind_text(failure.kind);
    match failure.native_code {
        Some(code) => plain + " (native code "@ + text::decimal_of(code as int) + ")"@,
        None => plain,
    }
}

/// The category of an operation that failed with this kind of error. A broken pipe of the
/// operating system is a native failure, not a clean end.
pub open spec fn operation_kind_of(kind: ErrorKind) -> FailureKind {
    match kind {
        ErrorKind::InvalidInput | ErrorKind::InvalidData => FailureKind::InvalidArgument,
        ErrorKind::WouldBlock => FailureKind::Backpressure,
        ErrorKind::Unsupported => FailureKind::Unsupported,
        _ => FailureKind::NativeFailure,
    }
}

impl OperationError {
    /// A failure with these properties.
    pub fn new(operation: Operation, kind: FailureKind, native_code: Option<i32>) -> (failure: Self)
        ensures
            failure == (OperationError { operation, kind, native_code }),
    {
        OperationError { operation, kind, native_code }
    }

    /// The operation that failed.
    pub fn operation(self) -> (operation: Operation)
        ensures
            operation == self.operation,
    {
        self.operation
    }

    /// The category of the failure.
    pub fn kind(self) -> (kind: FailureKind)
        ensures
            kind == self.kind,
    {
        self.kind
    }

    /// The operating system's code.
    pub fn native_code(self) -> (code: Option<i32>)
        ensures
            code == self.native_code,
    {
        self.native_code
    }

    /// The failure of an operation that an error stopped.
    pub fn from_io(operation: Operation, error: &IoError) -> (failure: Self)
        ensures
            failure == (OperationError {
                operation,
                kind: operation_kind_of(error.kind),
                native_code: error.code,
            }),
    {
        let kind = match error.kind() {
            ErrorKind::InvalidInput | ErrorKind::InvalidData => FailureKind::InvalidArgument,
            ErrorKind::WouldBlock => FailureKind::Backpressure,
            ErrorKind::Unsupported => FailureKind::Unsupported,
            _ => FailureKind::NativeFailure,
        };
        OperationError::new(operation, kind, error.raw_os_error())
    }

    /// The text of the failure.
    pub fn to_string(&self) -> (message: String)
        ensures
            message@ == failure_text(*self),
    {
        let mut message = String::new();
        message.append(self.operation.name());
        message.append(" failed with ");
        message.append(self.kind.name());
        if let Some(code) = self.native_code {
            message.append(" (native code ");
            message.append(text::decimal(code as i64).as_str());
            message.append(")");
        }
        assert(message@ =~= failure_text(*self));
        message
    }
}

/// A failure of the runtime's infrastructure.
pub open spec fn lost_failure(operation: Operation) -> OperationError {
    OperationError { operation, kind: FailureKind::InfrastructureLost, native_code: None }
}

/// The end of a session's input.
pub open spec fn closed_input() -> OperationError {
    OperationError {
        operation: Operation::Write,
        kind: FailureKind::Closed,
        native_code: None,
    }
}

/// The end of a session's input.
pub fn input_closed() -> (failure: OperationError)
    ensures
        failure == closed_input(),
{
    OperationError::new(Operation::Write, FailureKind::Closed, None)
}

/// A failure of the runtime's infrastructure.
pub fn infrastructure_failure(operation: Operation) -> (failure: OperationError)
    ensures
        failure == lost_failure(operation),
{
    OperationError::new(operation, FailureKind::InfrastructureLost, None)
}

/// A terminal size is outside the native bounds.
#[derive(Clone, Copy, Debug, PartialEq, Eq, Structural)]
pub struct InvalidSize;

impl InvalidSize {
    /// The text of the failure.
    pub fn to_string(&self) -> (message: String)
        ensures
            message@ == "terminal rows and columns must be in 1..=32767"@,
    {
        let mut message = String::new();
        message.append("terminal rows and columns must be in 1..=32767");
        assert(message@ =~= "terminal rows and columns must be in 1..=32767"@);
        message
    }
}

/// A prefix before an error's text.
fn prefixed(prefix: &str, error: &IoError) -> (message: String)
    ensures
        message@ == prefix@ + error.message@,
{
    let mut message = String::new();
    message.append(prefix);
    message.append(error.message.as_str());
    assert(message@ =~= prefix@ + error.message@);
    message
}

/// A native runtime could not be created.
#[derive(Debug)]
pub enum RuntimeError {
    /// A Unix broker could not be selected or prepared.
    Broker(IoError),
    /// Native initialization failed.
    Native(IoError),
}

impl RuntimeError {
    /// The text of the failure.
    pub fn to_string(&self) -> (message: String)
        ensures
            message@ == match *self {
                RuntimeError::Broker(error) => "Unix broker selection failed: "@ + error.message@,
                RuntimeError::Native(error) => "native runtime initialization failed: "@
                    + error.message@,
            },
    {
        match self {
            RuntimeError::Broker(error) => prefixed("Unix broker selection failed: ", error),
            RuntimeError::Native(error) => prefixed(
                "native runtime initialization failed: ",
                error,
            ),
        }
    }
}

/// A child could not be attached to a pseudo terminal.
#[derive(Debug)]
pub enum SpawnError {
    /// The executable is empty.
    EmptyExecutable,
    /// A value holds a NUL.
    ContainsNul { field: &'static str },
    /// An environment key is empty or holds a separator.
    InvalidEnvironmentKey,
    /// A capacity is outside the supported range.
    InvalidCapacity { field: &'static str, bytes: usize },
    /// The graceful-close timeout is too long.
    InvalidCloseTimeout,
    /// The native spawn failed.
    Native(IoError),
    /// The session could not be published.
    Activation,
}

/// The text of a failed spawn.
pub open spec fn spawn_text(error: SpawnError) -> Seq<char> {
    match error {
        SpawnError::EmptyExecutable => "the executable must not be empty"@,
        SpawnError::ContainsNul { field } => field@ + " contains a NUL byte"@,
        SpawnError::InvalidEnvironmentKey =>
            "environment keys must be nonempty and must not contain '='"@,
        SpawnError::InvalidCapacity { field, bytes } => field@ + " capacity "@ + text::decimal_of(
            bytes as int,
        ) + " is outside 1..=67108864"@,
        SpawnError::InvalidCloseTimeout => "graceful close timeout must not exceed 60 seconds"@,
        SpawnError::Native(error) => "native spawn failed: "@ + error.message@,
        SpawnError::Activation => "native session activation failed"@,
    }
}

impl SpawnError {
    /// The text of the failure.
    pub fn to_string(&self) -> (message: String)
        ensures
            message@ == spawn_text(*self),
    {
        let mut message = String::new();
        match self {
            SpawnError::EmptyExecutable => {
                message.append("the executable must not be empty");
            },
            SpawnError::ContainsNul { field } => {
                message.append(field);
                message.append(" contains a NUL byte");
            },
            SpawnError::InvalidEnvironmentKey => {
                message.append("environment keys must be nonempty and must not contain '='");
            },
            SpawnError::InvalidCapacity { field, bytes } => {
                message.append(field);
                message.append(" capacity ");
                message.append(text::digits(*bytes as u64, 10).as_str());
                message.append(" is outside 1..=67108864");
            },
            SpawnError::InvalidCloseTimeout => {
                message.append("graceful close timeout must not exceed 60 seconds");
            },
            SpawnError::Native(error) => {
                return prefixed("native spawn failed: ", error);
            },
            SpawnError::Activation => {
                message.append("native session activation failed");
            },
        }
        assert(message@ =~= spawn_text(*self));
        message
    }
}

/// Why a write was not accepted.
#[derive(Clone, Copy, Debug, PartialEq, Eq, Structural)]
pub enum WriteErrorKind {
    /// There is nothing to write.
    Empty,
    /// The bounded input queue cannot accept the complete buffer now.
    Backpressure,
    /// The input is over.
    Closed,
    /// The runtime cannot tell whether it owns the session.
    Infrastructure,
}

/// The text of a rejected write.
pub open spec fn write_text(kind: WriteErrorKind) -> Seq<char> {
    match kind {
        WriteErrorKind::Empty => "an input write must contain at least one byte"@,
        WriteErrorKind::Backpressure => "the bounded input queue is full"@,
        WriteErrorKind::Closed => "the session input is closed"@,
        WriteErrorKind::Infrastructure => "the native runtime is unavailable"@,
    }
}

impl WriteErrorKind {
    /// The text of the rejection.
    pub fn to_string(&self) -> (message: String)
        ensures
            message@ == write_text(*self),
    {
        let mut message = String::new();
        match self {
            WriteErrorKind::Empty => {
                message.append("an input write must contain at least one byte");
            },
            WriteErrorKind::Backpressure => {
                message.append("the bounded input queue is full");
            },
            WriteErrorKind::Closed => {
                message.append("the session input is closed");
            },
            WriteErrorKind::Infrastructure => {
                message.append("the native runtime is unavailable");
            },
        }
        assert(message@ =~= write_text(*self));
        message
    }
}

/// A rejected write, with the bytes that were not taken over.
#[derive(Debug, PartialEq, Eq)]
pub struct WriteError {
    pub kind: WriteErrorKind,
    pub bytes: Bytes,
    pub failure: Option<OperationError>,
}

impl WriteError {
    /// A rejected write.
    pub fn new(kind: WriteErrorKind, bytes: Bytes, failure: Option<OperationError>) -> (error: Self)
        ensures
            error.kind == kind,
            error.bytes == bytes,
            error.failure == failure,
    {
        WriteError { kind, bytes, failure }
    }

    /// Why the complete write was rejected.
    pub fn kind(&self) -> (kind: WriteErrorKind)
        ensures
            kind == self.kind,
    {
        self.kind
    }

    /// What had failed before, if anything.
    pub fn failure(&self) -> (failure: Option<OperationError>)
        ensures
            failure == self.failure,
    {
        self.failure
    }

    /// The bytes that were not accepted.
    pub fn into_bytes(self) -> (bytes: Bytes)
        ensures
            bytes == self.bytes,
    {
        self.bytes
    }

    /// The text of the rejection.
    pub fn to_string(&self) -> (message: String)
        ensures
            message@ == write_text(self.kind),
    {
        self.kind.to_string()
    }
}

/// A control of a session failed.
#[derive(Clone, Copy, Debug, PartialEq, Eq, Structural)]
pub struct ControlError {
    pub failure: OperationError,
}

impl ControlError {
    /// A failed control.
    pub fn new(failure: OperationError) -> (error: Self)
        ensures
            error.failure == failure,
    {
        ControlError { failure }
    }

    /// The failure.
    pub fn failure(&self) -> (failure: OperationError)
        ensures
            failure == self.failure,
    {
        self.failure
    }

    /// The text of the failure.
    pub fn to_string(&self) -> (message: String)
        ensures
            message@ == failure_text(self.failure),
    {
        self.failure.to_string()
    }
}

/// How a session's cleanup ended, with everything that failed on the way.
#[derive(Clone, Copy, Debug, PartialEq, Eq, Structural)]
pub struct CloseResult {
    pub input_failure: Option<OperationError>,
    pub output_failure: Option<OperationError>,
    pub cleanup_failure: Option<OperationError>,
}

impl Default for CloseResult {
    fn default() -> (result: Self)
        ensures
            result == (CloseResult {
                input_failure: None,
                output_failure: None,
                cleanup_failure: None,
            }),
    {
        CloseResult { input_failure: None, output_failure: None, cleanup_failure: None }
    }
}

/// The failure that stands for a cleanup: the cleanup's own before the input's before the
/// output's.
pub open spec fn primary_of(result: CloseResult) -> Option<OperationError> {
    if result.cleanup_failure is Some {
        result.cleanup_failure
    } else if result.input_failure is Some {
        result.input_failure
    } else {
        result.output_failure
    }
}

impl CloseResult {
    /// Whether nothing failed.
    pub fn is_success(self) -> (success: bool)
        ensures
            success == (self.input_failure is None && self.output_failure is None
                && self.cleanup_failure is None),
            success == (primary_of(self) is None),
    {
        self.input_failure.is_none() && self.output_failure.is_none()
            && self.cleanup_failure.is_none()
    }

    /// The failure that stands for the cleanup.
    pub fn primary_failure(self) -> (failure: Option<OperationError>)
        ensures
            failure == primary_of(self),
    {
        if self.cleanup_failure.is_some() {
            self.cleanup_failure
        } else if self.input_failure.is_some() {
            self.input_failure
        } else {
            self.output_failure
        }
    }
}

/// An explicit close could not be started or seen through.
#[derive(Debug)]
pub enum CloseError {
    /// The close could not be started.
    Native(IoError),
    /// The runtime ended without a result.
    CompletionLost,
    /// The cleanup ended with failures.
    Failed(CloseResult),
}

/// The text of a failed close.
pub open spec fn close_text(error: CloseError) -> Seq<char> {
    match error {
        CloseError::Native(error) => "native close failed: "@ + error.message@,
        CloseError::CompletionLost => "native close completion was not published"@,
        CloseError::Failed(result) => match primary_of(result) {
            Some(failure) => "native close completed with failures"@ + ": "@ + failure_text(
                failure,
            ),
            None => "native close completed with failures"@,
        },
    }
}

impl CloseError {
    /// The text of the failure.
    pub fn to_string(&self) -> (message: String)
        ensures
            message@ == close_text(*self),
    {
        let mut message = String::new();
        match self {
            CloseError::Native(error) => {
                return prefixed("native close failed: ", error);
            },
            CloseError::CompletionLost => {
                message.append("native close completion was not published");
            },
            CloseError::Failed(result) => {
                message.append("native close completed with failures");
                if let Some(failure) = result.primary_failure() {
                    message.append(": ");
                    message.append(failure.to_string().as_str());
                }
            },
        }
        assert(message@ =~= close_text(*self));
        message
    }
}

/// The event source has closed and holds no further events.
#[derive(Clone, Copy, Debug, PartialEq, Eq, Structural)]
pub struct RecvError;

impl RecvError {
    /// The text of the failure.
    pub fn to_string(&self) -> (message: String)
        ensures
            message@ == "the native event source closed"@,
    {
        let mut message = String::new();
        message.append("the native event source closed");
        assert(message@ =~= "the native event source closed"@);
        message
    }
}

/// A session's metadata could not be had.
#[derive(Clone, Copy, Debug, PartialEq, Eq, Structural)]
pub struct MetadataError {
    pub failure: OperationError,
}

impl MetadataError {
    /// Metadata that could not be had.
    pub fn new(failure: OperationError) -> (error: Self)
        ensures
            error.failure == failure,
    {
        MetadataError { failure }
    }

    /// The failure.
    pub fn failure(&self) -> (failure: OperationError)
        ensures
            failure == self.failure,
    {
        self.failure
    }

    /// The text of the failure.
    pub fn to_string(&self) -> (message: String)
        ensures
            message@ == failure_text(self.failure),
    {
        self.failure.to_string()
    }
}

} // verus!
