//! The values that cross the C interface, and the rules on them.
use crate::engine_event::{CloseResult, Failure, FailureKind};
use crate::fault::{ErrorKind, IoError};
use crate::spawn::{MAX_CELL_DIMENSION, MAX_PIXEL_DIMENSION};
use vstd::prelude::*;
use vstd::slice::slice_subrange;
use vstd::slice::slice_to_vec;

verus! {

/// The version of the C interface.
pub const ABI_VERSION: u32 = 1;

pub const STATUS_OK: u32 = 0;

pub const STATUS_INVALID_ARGUMENT: u32 = 1;

pub const STATUS_STALE_HANDLE: u32 = 2;

pub const STATUS_WRONG_STATE: u32 = 3;

pub const STATUS_BACKPRESSURE: u32 = 4;

pub const STATUS_UNSUPPORTED: u32 = 5;

pub const STATUS_CLOSED: u32 = 6;

pub const STATUS_END_OF_STREAM: u32 = 7;

pub const STATUS_BUSY: u32 = 8;

pub const STATUS_OS_ERROR: u32 = 9;

pub const STATUS_INTERNAL: u32 = 10;

pub const STATUS_BUFFER_TOO_SMALL: u32 = 11;

pub const ERROR_DOMAIN_NONE: u32 = 0;

pub const ERROR_DOMAIN_ARGUMENT: u32 = 1;

pub const ERROR_DOMAIN_STATE: u32 = 2;

pub const ERROR_DOMAIN_INPUT: u32 = 3;

pub const ERROR_DOMAIN_OUTPUT: u32 = 4;

pub const ERROR_DOMAIN_RUNTIME: u32 = 6;

pub const ERROR_DOMAIN_OS: u32 = 7;

pub const ERROR_NONE: u32 = 0;

pub const ERROR_INVALID_ARGUMENT: u32 = 1;

pub const ERROR_STALE_HANDLE: u32 = 2;

pub const ERROR_WRONG_STATE: u32 = 3;

pub const ERROR_QUEUE_FULL: u32 = 4;

pub const ERROR_UNSUPPORTED: u32 = 5;

pub const ERROR_CLOSED: u32 = 6;

pub const ERROR_NATIVE_FAILURE: u32 = 7;

pub const ERROR_INFRASTRUCTURE_LOST: u32 = 8;

pub const OPERATION_NONE: u32 = 0;

pub const OPERATION_RUNTIME_CREATE: u32 = 1;

pub const OPERATION_RUNTIME_SHUTDOWN: u32 = 2;

pub const OPERATION_SPAWN: u32 = 3;

pub const OPERATION_WRITE: u32 = 4;

pub const OPERATION_OUTPUT: u32 = 5;

pub const OPERATION_RESIZE: u32 = 6;

pub const OPERATION_TERMINATE: u32 = 7;

pub const OPERATION_METADATA: u32 = 8;

pub const OPERATION_CLOSE: u32 = 9;

pub const EVENT_SPAWN_READY: u32 = 1;

pub const EVENT_SPAWN_FAILED: u32 = 2;

pub const EVENT_OUTPUT: u32 = 3;

pub const EVENT_INPUT_FAILED: u32 = 4;

pub const EVENT_OUTPUT_FAILED: u32 = 5;

pub const EVENT_INFRASTRUCTURE_FAILED: u32 = 6;

pub const EVENT_OUTPUT_DONE: u32 = 7;

pub const EVENT_EXIT: u32 = 8;

pub const EVENT_CLOSE_COMPLETE: u32 = 9;

pub const EVENT_MODE_CHANGED: u32 = 10;

pub const EVENT_CLOSE_INPUT_FAILED: u32 = 1;

pub const EVENT_CLOSE_OUTPUT_FAILED: u32 = 2;

pub const EVENT_CLOSE_CLEANUP_FAILED: u32 = 4;

pub const MODE_CANONICAL: u32 = 1;

pub const MODE_ECHO: u32 = 2;

pub const MODE_SIGNALS: u32 = 4;

pub const CAPABILITY_SIGNALS: u32 = 1;

pub const CAPABILITY_PROCESS_GROUPS: u32 = 2;

pub const CAPABILITY_TERMINAL_MODES: u32 = 4;

pub const CAPABILITY_CONPTY: u32 = 8;

pub const CAPABILITY_TERMINAL_NAME: u32 = 16;

pub const SNAPSHOT_HAS_MODE: u32 = 1;

pub const SNAPSHOT_HAS_TTY_NAME: u32 = 2;

pub const SPAWN_INHERIT_ENVIRONMENT: u32 = 1;

pub const MAX_SESSION_CAPACITY: u64 = 67_108_864;

/// The longest graceful-close timeout, in microseconds.
pub const MAX_CLOSE_TIMEOUT_US: u64 = 60_000_000;

/// The sizes of the C structures, in bytes.
pub const ERROR_SIZE: u32 = 64;

pub const RUNTIME_OPTIONS_SIZE: u32 = 56;

pub const SPAWN_OPTIONS_SIZE: u32 = 144;

pub const SESSION_SNAPSHOT_SIZE: u32 = 96;

pub const EVENT_SIZE: u32 = 136;

/// A failure as C callers see it.
#[derive(Clone, Copy, Debug, PartialEq, Eq)]
pub struct Error {
    pub struct_size: u32,
    pub domain: u32,
    pub kind: u32,
    pub operation: u32,
    pub native_code: i32,
    pub flags: u32,
    pub context: [u64; 2],
    pub reserved: [u64; 3],
}

/// The failure with these properties.
pub open spec fn error_of(domain: u32, kind: u32, operation: u32, native_code: i32) -> Error {
    Error {
        struct_size: ERROR_SIZE,
        domain,
        kind,
        operation,
        native_code,
        flags: 0,
        context: [0, 0],
        reserved: [0, 0, 0],
    }
}

/// No failure.
pub open spec fn no_error() -> Error {
    error_of(ERROR_DOMAIN_NONE, ERROR_NONE, OPERATION_NONE, 0)
}

impl Error {
    /// The failure with these properties.
    pub fn value(domain: u32, kind: u32, operation: u32, native_code: i32) -> (error: Self)
        ensures
            error == error_of(domain, kind, operation, native_code),
    {
        Error {
            struct_size: ERROR_SIZE,
            domain,
            kind,
            operation,
            native_code,
            flags: 0,
            context: [0, 0],
            reserved: [0, 0, 0],
        }
    }

    /// No failure.
    pub fn none() -> (error: Self)
        ensures
            error == no_error(),
    {
        Error::value(ERROR_DOMAIN_NONE, ERROR_NONE, OPERATION_NONE, 0)
    }
}

/// A status with the failure that is stored beside it.
#[derive(Clone, Copy, Debug, PartialEq, Eq)]
pub struct Reply {
    pub status: u32,
    pub error: Error,
}

/// Success.
pub open spec fn done() -> Reply {
    Reply { status: STATUS_OK, error: no_error() }
}

/// A status without a failure.
pub open spec fn plain(status: u32) -> Reply {
    Reply { status, error: no_error() }
}

/// An operation on a handle that names nothing.
pub open spec fn stale(operation: u32) -> Reply {
    Reply {
        status: STATUS_STALE_HANDLE,
        error: error_of(ERROR_DOMAIN_STATE, ERROR_STALE_HANDLE, operation, 0),
    }
}

/// An operation with an argument that is not acceptable.
pub open spec fn invalid(operation: u32) -> Reply {
    Reply {
        status: STATUS_INVALID_ARGUMENT,
        error: error_of(ERROR_DOMAIN_ARGUMENT, ERROR_INVALID_ARGUMENT, operation, 0),
    }
}

/// An operation in the wrong state, with the status that it is answered.
pub open spec fn misplaced(status: u32, operation: u32) -> Reply {
    Reply { status, error: error_of(ERROR_DOMAIN_STATE, ERROR_WRONG_STATE, operation, 0) }
}

/// An operation that failed with the runtime's infrastructure.
pub open spec fn lost(operation: u32) -> Reply {
    Reply {
        status: STATUS_INTERNAL,
        error: error_of(ERROR_DOMAIN_RUNTIME, ERROR_INFRASTRUCTURE_LOST, operation, 0),
    }
}

/// An operation that the operating system failed.
pub open spec fn refused(operation: u32) -> Reply {
    Reply {
        status: STATUS_OS_ERROR,
        error: error_of(ERROR_DOMAIN_OS, ERROR_NATIVE_FAILURE, operation, 0),
    }
}

impl Reply {
    /// Success.
    pub fn done() -> (reply: Reply)
        ensures
            reply == done(),
    {
        Reply { status: STATUS_OK, error: Error::none() }
    }

    /// A status without a failure.
    pub fn plain(status: u32) -> (reply: Reply)
        ensures
            reply == plain(status),
    {
        Reply { status, error: Error::none() }
    }

    /// An operation on a handle that names nothing.
    pub fn stale(operation: u32) -> (reply: Reply)
        ensures
            reply == stale(operation),
    {
        Reply { status: STATUS_STALE_HANDLE, error: stale_error(operation) }
    }

    /// An operation with an argument that is not acceptable.
    pub fn invalid(operation: u32) -> (reply: Reply)
        ensures
            reply == invalid(operation),
    {
        Reply { status: STATUS_INVALID_ARGUMENT, error: invalid_error(operation) }
    }

    /// An operation in the wrong state, with the status that it is answered.
    pub fn misplaced(status: u32, operation: u32) -> (reply: Reply)
        ensures
            reply == misplaced(status, operation),
    {
        Reply { status, error: Error::value(ERROR_DOMAIN_STATE, ERROR_WRONG_STATE, operation, 0) }
    }

    /// An operation that failed with the runtime's infrastructure.
    pub fn lost(operation: u32) -> (reply: Reply)
        ensures
            reply == lost(operation),
    {
        Reply {
            status: STATUS_INTERNAL,
            error: Error::value(ERROR_DOMAIN_RUNTIME, ERROR_INFRASTRUCTURE_LOST, operation, 0),
        }
    }

    /// An operation that the operating system failed.
    pub fn refused(operation: u32) -> (reply: Reply)
        ensures
            reply == refused(operation),
    {
        Reply {
            status: STATUS_OS_ERROR,
            error: Error::value(ERROR_DOMAIN_OS, ERROR_NATIVE_FAILURE, operation, 0),
        }
    }
}

/// Whether an optional destination for a failure has a compatible layout.
pub fn error_is_valid(error: Option<&Error>) -> (valid: bool)
    ensures
        valid == (error matches Some(error) ==> error.struct_size >= ERROR_SIZE),
{
    match error {
        Some(error) => error.struct_size >= ERROR_SIZE,
        None => true,
    }
}

/// Clears a destination that has a compatible layout.
pub fn clear_error(error: &mut Error)
    ensures
        *final(error) == if old(error).struct_size >= ERROR_SIZE {
            no_error()
        } else {
            *old(error)
        },
{
    if error.struct_size >= ERROR_SIZE {
        *error = Error::none();
    }
}

/// Stores a failure in a destination that has a compatible layout.
pub fn set_error(error: &mut Error, value: Error)
    ensures
        *final(error) == if old(error).struct_size >= ERROR_SIZE {
            value
        } else {
            *old(error)
        },
{
    if error.struct_size >= ERROR_SIZE {
        *error = value;
    }
}

/// The failure of an operation on a handle that names nothing.
pub fn stale_error(operation: u32) -> (error: Error)
    ensures
        error == error_of(ERROR_DOMAIN_STATE, ERROR_STALE_HANDLE, operation, 0),
{
    Error::value(ERROR_DOMAIN_STATE, ERROR_STALE_HANDLE, operation, 0)
}

/// The failure of an operation with an argument that is not acceptable.
pub fn invalid_error(operation: u32) -> (error: Error)
    ensures
        error == error_of(ERROR_DOMAIN_ARGUMENT, ERROR_INVALID_ARGUMENT, operation, 0),
{
    Error::value(ERROR_DOMAIN_ARGUMENT, ERROR_INVALID_ARGUMENT, operation, 0)
}

/// How an operation that failed with an error of this kind and code is answered.
pub open spec fn io_reply(operation: u32, kind: ErrorKind, code: Option<i32>) -> Reply {
    let native_code = match code {
        Some(value) => value,
        None => 0,
    };
    match kind {
        ErrorKind::InvalidInput | ErrorKind::InvalidData => invalid(operation),
        ErrorKind::Unsupported => Reply {
            status: STATUS_UNSUPPORTED,
            error: error_of(ERROR_DOMAIN_OS, ERROR_UNSUPPORTED, operation, native_code),
        },
        _ => Reply {
            status: STATUS_OS_ERROR,
            error: error_of(ERROR_DOMAIN_OS, ERROR_NATIVE_FAILURE, operation, native_code),
        },
    }
}

/// The operating system's code of an error, or zero.
pub fn native_code(error: &IoError) -> (code: i32)
    ensures
        code == match error.code {
            Some(value) => value,
            None => 0,
        },
{
    match error.raw_os_error() {
        Some(value) => value,
        None => 0,
    }
}

/// How an operation that failed with an error is answered.
pub fn io_error(operation: u32, error: &IoError) -> (result: (u32, Error))
    ensures
        result.0 == io_reply(operation, error.kind, error.code).status,
        result.1 == io_reply(operation, error.kind, error.code).error,
{
    match error.kind() {
        ErrorKind::InvalidInput | ErrorKind::InvalidData => (
            STATUS_INVALID_ARGUMENT,
            invalid_error(operation),
        ),
        ErrorKind::Unsupported => (
            STATUS_UNSUPPORTED,
            Error::value(ERROR_DOMAIN_OS, ERROR_UNSUPPORTED, operation, native_code(error)),
        ),
        _ => (
            STATUS_OS_ERROR,
            Error::value(ERROR_DOMAIN_OS, ERROR_NATIVE_FAILURE, operation, native_code(error)),
        ),
    }
}

/// The failure that an engine's failure is shown as.
pub open spec fn failure_error_of(operation: u32, failure: Failure) -> Error {
    let native_code = match failure.native_code {
        Some(value) => value,
        None => 0,
    };
    match failure.kind {
        FailureKind::InvalidInput => error_of(
            ERROR_DOMAIN_ARGUMENT,
            ERROR_INVALID_ARGUMENT,
            operation,
            native_code,
        ),
        FailureKind::Backpressure => error_of(
            ERROR_DOMAIN_STATE,
            ERROR_QUEUE_FULL,
            operation,
            native_code,
        ),
        FailureKind::Unsupported => error_of(
            ERROR_DOMAIN_OS,
            ERROR_UNSUPPORTED,
            operation,
            native_code,
        ),
        FailureKind::Infrastructure => error_of(
            ERROR_DOMAIN_RUNTIME,
            ERROR_INFRASTRUCTURE_LOST,
            operation,
            native_code,
        ),
        _ => error_of(ERROR_DOMAIN_OS, ERROR_NATIVE_FAILURE, operation, native_code),
    }
}

/// The failure that an engine's failure is shown as.
pub fn failure_error(operation: u32, failure: Failure) -> (error: Error)
    ensures
        error == failure_error_of(operation, failure),
{
    let (domain, kind): (u32, u32) = match failure.kind {
        FailureKind::InvalidInput => (ERROR_DOMAIN_ARGUMENT, ERROR_INVALID_ARGUMENT),
        FailureKind::Backpressure => (ERROR_DOMAIN_STATE, ERROR_QUEUE_FULL),
        FailureKind::Unsupported => (ERROR_DOMAIN_OS, ERROR_UNSUPPORTED),
        FailureKind::NotFound | FailureKind::PermissionDenied | FailureKind::Other => (
            ERROR_DOMAIN_OS,
            ERROR_NATIVE_FAILURE,
        ),
        FailureKind::Infrastructure => (ERROR_DOMAIN_RUNTIME, ERROR_INFRASTRUCTURE_LOST),
    };
    let code: i32 = match failure.native_code {
        Some(value) => value,
        None => 0,
    };
    Error::value(domain, kind, operation, code)
}

/// The bits of a terminal mode: canonical input, echo and signals.
pub open spec fn mode_bits_of(modes: [bool; 3]) -> u32 {
    ((if modes[0] {
        MODE_CANONICAL as int
    } else {
        0
    }) + (if modes[1] {
        MODE_ECHO as int
    } else {
        0
    }) + (if modes[2] {
        MODE_SIGNALS as int
    } else {
        0
    })) as u32
}

/// The bits of a terminal mode.
pub fn mode_bits(modes: [bool; 3]) -> (bits: u32)
    ensures
        bits == mode_bits_of(modes),
{
    let mut bits: u32 = 0;
    if modes[0] {
        bits = bits + MODE_CANONICAL;
    }
    if modes[1] {
        bits = bits + MODE_ECHO;
    }
    if modes[2] {
        bits = bits + MODE_SIGNALS;
    }
    bits
}

/// The flags of a completed close.
pub open spec fn close_flags_of(result: CloseResult) -> u32 {
    ((if result.input_failed {
        EVENT_CLOSE_INPUT_FAILED as int
    } else {
        0
    }) + (if result.output_failed {
        EVENT_CLOSE_OUTPUT_FAILED as int
    } else {
        0
    }) + (if result.cleanup_failed {
        EVENT_CLOSE_CLEANUP_FAILED as int
    } else {
        0
    })) as u32
}

/// The flags of a completed close.
pub fn close_flags(result: CloseResult) -> (flags: u32)
    ensures
        flags == close_flags_of(result),
{
    let mut flags: u32 = 0;
    if result.input_failed {
        flags = flags + EVENT_CLOSE_INPUT_FAILED;
    }
    if result.output_failed {
        flags = flags + EVENT_CLOSE_OUTPUT_FAILED;
    }
    if result.cleanup_failed {
        flags = flags + EVENT_CLOSE_CLEANUP_FAILED;
    }
    flags
}

/// The failure of a completed close: its cleanup's before its input's before its output's.
pub open spec fn close_error_of(result: CloseResult) -> Error {
    if result.cleanup_failed {
        error_of(ERROR_DOMAIN_RUNTIME, ERROR_INFRASTRUCTURE_LOST, OPERATION_CLOSE, 0)
    } else if result.input_failed {
        error_of(ERROR_DOMAIN_INPUT, ERROR_NATIVE_FAILURE, OPERATION_CLOSE, 0)
    } else if result.output_failed {
        error_of(ERROR_DOMAIN_OUTPUT, ERROR_NATIVE_FAILURE, OPERATION_CLOSE, 0)
    } else {
        no_error()
    }
}

/// The failure of a completed close.
pub fn close_error(result: CloseResult) -> (error: Error)
    ensures
        error == close_error_of(result),
{
    if result.cleanup_failed {
        Error::value(ERROR_DOMAIN_RUNTIME, ERROR_INFRASTRUCTURE_LOST, OPERATION_CLOSE, 0)
    } else if result.input_failed {
        Error::value(ERROR_DOMAIN_INPUT, ERROR_NATIVE_FAILURE, OPERATION_CLOSE, 0)
    } else if result.output_failed {
        Error::value(ERROR_DOMAIN_OUTPUT, ERROR_NATIVE_FAILURE, OPERATION_CLOSE, 0)
    } else {
        Error::none()
    }
}

/// The two families of platforms.
#[derive(Clone, Copy, Debug, PartialEq, Eq, Structural)]
pub enum Platform {
    Unix,
    Windows,
}

/// What a runtime can do on a platform.
pub open spec fn capabilities_of(platform: Platform) -> u32 {
    match platform {
        Platform::Unix => 23,
        Platform::Windows => CAPABILITY_CONPTY,
    }
}

/// What a runtime can do on a platform: signals, process groups, terminal modes and
/// terminal names on Unix, a pseudo console on Windows.
pub fn capabilities(platform: Platform) -> (bits: u32)
    ensures
        bits == capabilities_of(platform),
{
    match platform {
        Platform::Unix => CAPABILITY_SIGNALS + CAPABILITY_PROCESS_GROUPS
            + CAPABILITY_TERMINAL_MODES + CAPABILITY_TERMINAL_NAME,
        Platform::Windows => CAPABILITY_CONPTY,
    }
}

/// Whether a platform has terminal modes.
pub fn has_terminal_modes(platform: Platform) -> (modes: bool)
    ensures
        modes == (capabilities_of(platform) & CAPABILITY_TERMINAL_MODES != 0),
{
    proof {
        assert(23u32 & 4u32 != 0) by (bit_vector);
        assert(8u32 & 4u32 == 0) by (bit_vector);
    }
    capabilities(platform) & CAPABILITY_TERMINAL_MODES != 0
}

/// The version of the C interface.
pub fn ptyx_abi_version() -> (version: u32)
    ensures
        version == ABI_VERSION,
{
    ABI_VERSION
}

/// The text of a failure.
pub open spec fn message_of(domain: u32, kind: u32) -> &'static str {
    if domain == ERROR_DOMAIN_NONE && kind == ERROR_NONE {
        "no error"
    } else if domain == ERROR_DOMAIN_ARGUMENT && kind == ERROR_INVALID_ARGUMENT {
        "invalid argument"
    } else if domain == ERROR_DOMAIN_STATE && kind == ERROR_STALE_HANDLE {
        "stale handle"
    } else if domain == ERROR_DOMAIN_STATE && kind == ERROR_WRONG_STATE {
        "operation is invalid in the current state"
    } else if domain == ERROR_DOMAIN_INPUT && kind == ERROR_QUEUE_FULL {
        "input capacity is exhausted"
    } else if kind == ERROR_UNSUPPORTED {
        "operation is unsupported"
    } else if kind == ERROR_CLOSED {
        "session is closed"
    } else if kind == ERROR_INFRASTRUCTURE_LOST {
        "native runtime infrastructure was lost"
    } else {
        "native operation failed"
    }
}

/// The text of a failure.
pub fn error_message(error: &Error) -> (message: &'static str)
    ensures
        message == message_of(error.domain, error.kind),
{
    let (domain, kind): (u32, u32) = (error.domain, error.kind);
    if domain == ERROR_DOMAIN_NONE && kind == ERROR_NONE {
        "no error"
    } else if domain == ERROR_DOMAIN_ARGUMENT && kind == ERROR_INVALID_ARGUMENT {
        "invalid argument"
    } else if domain == ERROR_DOMAIN_STATE && kind == ERROR_STALE_HANDLE {
        "stale handle"
    } else if domain == ERROR_DOMAIN_STATE && kind == ERROR_WRONG_STATE {
        "operation is invalid in the current state"
    } else if domain == ERROR_DOMAIN_INPUT && kind == ERROR_QUEUE_FULL {
        "input capacity is exhausted"
    } else if kind == ERROR_UNSUPPORTED {
        "operation is unsupported"
    } else if kind == ERROR_CLOSED {
        "session is closed"
    } else if kind == ERROR_INFRASTRUCTURE_LOST {
        "native runtime infrastructure was lost"
    } else {
        "native operation failed"
    }
}

/// What a formatted failure comes to: the status, the length of the text when it is
/// known, and what is written to the target.
#[derive(Debug, PartialEq, Eq)]
pub struct Formatted {
    pub status: u32,
    pub required: Option<u64>,
    pub written: Vec<u8>,
}

/// Formats a failure for a target of some capacity. The text is written whole or not at
/// all, with a zero behind it where there is room for one.
pub fn ptyx_error_format(error: Option<&Error>, has_target: bool, capacity: u64) -> (formatted:
    Formatted)
    ensures
        ({
            let acceptable = error is Some && error.unwrap().struct_size >= ERROR_SIZE && (capacity
                == 0 || has_target);
            let text = vstd::utf8::encode_utf8(
                message_of(error.unwrap().domain, error.unwrap().kind)@,
            );
            if !acceptable {
                &&& formatted.status == STATUS_INVALID_ARGUMENT
                &&& formatted.required is None
                &&& formatted.written@.len() == 0
            } else {
                &&& formatted.required == Some(text.len() as u64)
                &&& if capacity > usize::MAX {
                    &&& formatted.status == STATUS_INVALID_ARGUMENT
                    &&& formatted.written@.len() == 0
                } else if capacity < text.len() {
                    &&& formatted.status == STATUS_BUFFER_TOO_SMALL
                    &&& formatted.written@.len() == 0
                } else {
                    &&& formatted.status == STATUS_OK
                    &&& formatted.written@ == if capacity > text.len() {
                        text.push(0)
                    } else {
                        text
                    }
                }
            }
        }),
{
    let error = match error {
        Some(error) => error,
        None => {
            return Formatted {
                status: STATUS_INVALID_ARGUMENT,
                required: None,
                written: Vec::new(),
            };
        },
    };
    if error.struct_size < ERROR_SIZE || (capacity != 0 && !has_target) {
        return Formatted { status: STATUS_INVALID_ARGUMENT, required: None, written: Vec::new() };
    }
    let message = error_message(error).as_bytes();
    let required: Option<u64> = Some(message.len() as u64);
    if capacity > usize::MAX as u64 {
        return Formatted { status: STATUS_INVALID_ARGUMENT, required, written: Vec::new() };
    }
    let capacity: usize = capacity as usize;
    if capacity < message.len() {
        return Formatted { status: STATUS_BUFFER_TOO_SMALL, required, written: Vec::new() };
    }
    let mut written: Vec<u8> = slice_to_vec(message);
    if capacity > message.len() {
        written.push(0);
    }
    Formatted { status: STATUS_OK, required, written }
}

/// The size of a terminal.
#[derive(Clone, Copy, Debug, PartialEq, Eq, Structural)]
pub struct Size {
    pub rows: u32,
    pub columns: u32,
    pub pixel_width: u32,
    pub pixel_height: u32,
}

impl Size {
    /// Whether a terminal can have this size.
    pub open spec fn ok(&self) -> bool {
        &&& 1 <= self.rows <= MAX_CELL_DIMENSION
        &&& 1 <= self.columns <= MAX_CELL_DIMENSION
        &&& self.pixel_width <= MAX_PIXEL_DIMENSION
        &&& self.pixel_height <= MAX_PIXEL_DIMENSION
    }

    /// Whether a terminal can have this size.
    pub fn is_valid(&self) -> (valid: bool)
        ensures
            valid == self.ok(),
    {
        self.rows != 0 && self.columns != 0 && self.rows <= MAX_CELL_DIMENSION && self.columns
            <= MAX_CELL_DIMENSION && self.pixel_width <= MAX_PIXEL_DIMENSION && self.pixel_height
            <= MAX_PIXEL_DIMENSION
    }
}

/// An event as C callers see it. The bytes of an output event are those of the lease
/// that its token names.
#[derive(Clone, Copy, Debug, PartialEq, Eq)]
pub struct Event {
    pub struct_size: u32,
    pub kind: u32,
    pub flags: u32,
    pub reserved0: u32,
    pub session: u64,
    pub token: u64,
    pub data_length: u64,
    pub value: i64,
    pub error: Error,
    pub reserved: [u64; 2],
}

/// An event that says nothing.
pub open spec fn empty_event(struct_size: u32) -> Event {
    Event {
        struct_size,
        kind: 0,
        flags: 0,
        reserved0: 0,
        session: 0,
        token: 0,
        data_length: 0,
        value: 0,
        error: no_error(),
        reserved: [0, 0],
    }
}

impl Event {
    /// An event that says nothing.
    pub fn empty(struct_size: u32) -> (event: Self)
        ensures
            event == empty_event(struct_size),
    {
        Event {
            struct_size,
            kind: 0,
            flags: 0,
            reserved0: 0,
            session: 0,
            token: 0,
            data_length: 0,
            value: 0,
            error: Error::none(),
            reserved: [0, 0],
        }
    }
}

/// Whether four reserved words are zero.
pub open spec fn all_zero(words: [u64; 4]) -> bool {
    words[0] == 0 && words[1] == 0 && words[2] == 0 && words[3] == 0
}

/// Whether four reserved words are zero.
pub fn is_zero(words: &[u64; 4]) -> (zero: bool)
    ensures
        zero == all_zero(*words),
{
    words[0] == 0 && words[1] == 0 && words[2] == 0 && words[3] == 0
}

/// Bytes that a caller lends: the storage, unless there is none, and how much of it.
#[derive(Clone, Debug)]
pub struct BytesView {
    pub data: Option<Vec<u8>>,
    pub length: u64,
}

impl BytesView {
    /// Whether the storage holds as much as it is said to.
    pub open spec fn readable(&self) -> bool {
        self.data matches Some(data) ==> data@.len() >= self.length
    }

    /// The bytes, unless the view is not acceptable.
    pub open spec fn text(&self) -> Option<Seq<u8>> {
        if self.length > isize::MAX {
            None
        } else if self.length == 0 {
            Some(Seq::empty())
        } else {
            match self.data {
                Some(data) => Some(data@.take(self.length as int)),
                None => None,
            }
        }
    }
}

/// The bytes of a view, unless it is not acceptable.
pub fn borrowed_bytes(view: &BytesView) -> (result: Result<Vec<u8>, ()>)
    requires
        view.readable(),
    ensures
        match result {
            Ok(bytes) => view.text() == Some(bytes@),
            Err(()) => view.text() is None,
        },
{
    if view.length > isize::MAX as u64 {
        return Err(());
    }
    if view.length == 0 {
        let empty: Vec<u8> = Vec::new();
        assert(empty@ =~= Seq::<u8>::empty());
        return Ok(empty);
    }
    match &view.data {
        Some(data) => {
            let taken: Vec<u8> = slice_to_vec(
                slice_subrange(data.as_slice(), 0, view.length as usize),
            );
            assert(taken@ =~= data@.take(view.length as int));
            Ok(taken)
        },
        None => Err(()),
    }
}

/// The options of a runtime.
#[derive(Clone, Debug)]
pub struct RuntimeOptions {
    pub struct_size: u32,
    pub flags: u32,
    pub broker_path: BytesView,
    pub reserved: [u64; 4],
}

/// The broker that the options name: none where it is found by default.
pub open spec fn broker_path_of(options: Option<RuntimeOptions>) -> Result<Option<Seq<u8>>, ()> {
    match options {
        Some(options) => if options.struct_size < RUNTIME_OPTIONS_SIZE || options.flags != 0
            || !all_zero(options.reserved) {
            Err(())
        } else {
            match options.broker_path.text() {
                Some(path) => if path.len() == 0 {
                    Ok(None)
                } else {
                    Ok(Some(path))
                },
                None => Err(()),
            }
        },
        None => Ok(None),
    }
}

/// The broker that the options name: none where it is found by default.
pub fn runtime_broker_path(options: Option<&RuntimeOptions>) -> (result: Result<
    Option<Vec<u8>>,
    (),
>)
    requires
        options matches Some(options) ==> options.broker_path.readable(),
    ensures
        match (
            result,
            broker_path_of(
                match options {
                    Some(options) => Some(*options),
                    None => None,
                },
            ),
        ) {
            (Ok(Some(path)), Ok(Some(expected))) => path@ == expected,
            (Ok(None), Ok(None)) => true,
            (Err(()), Err(())) => true,
            _ => false,
        },
{
    match options {
        Some(options) => {
            if options.struct_size < RUNTIME_OPTIONS_SIZE || options.flags != 0 || !is_zero(
                &options.reserved,
            ) {
                return Err(());
            }
            let path = match borrowed_bytes(&options.broker_path) {
                Ok(path) => path,
                Err(()) => {
                    return Err(());
                },
            };
            if path.len() == 0 {
                Ok(None)
            } else {
                Ok(Some(path))
            }
        },
        None => Ok(None),
    }
}

} // verus!
