//! What the users of a session see of it.
use crate::buffer;
use crate::c_snapshot::Metadata;
use crate::engine_event::{self, Notice};
use crate::error::SpawnError;
use crate::fault::IoError;
use crate::options::{self, Size};
use crate::session;
use crate::session::WRITE_INFRASTRUCTURE_FAILURE;
use bytes::Bytes;
use vstd::prelude::*;

verus! {

/// How a child ended.
#[derive(Clone, Copy, Debug, PartialEq, Eq, Structural)]
pub enum ExitStatus {
    /// It returned a code.
    Exited(u32),
    /// A signal ended it.
    Signaled(u32),
}

/// What an engine's status means: a negative one is a signal's number.
pub open spec fn exit_of(status: i64) -> Option<ExitStatus> {
    if 0 <= status <= u32::MAX {
        Some(ExitStatus::Exited(status as u32))
    } else if -(u32::MAX as int) <= status < 0 {
        Some(ExitStatus::Signaled((-status) as u32))
    } else {
        None
    }
}

impl ExitStatus {
    /// What an engine's status means.
    pub fn from_engine(status: i64) -> (result: Option<ExitStatus>)
        ensures
            result == exit_of(status),
    {
        if status < 0 {
            if status < -(u32::MAX as i64) {
                return None;
            }
            let signal: i64 = -status;
            Some(ExitStatus::Signaled(signal as u32))
        } else if status > u32::MAX as i64 {
            None
        } else {
            Some(ExitStatus::Exited(status as u32))
        }
    }
}

/// The input flags of a terminal.
#[derive(Clone, Copy, Debug, PartialEq, Eq, Structural)]
pub struct TerminalMode {
    pub canonical: bool,
    pub echo: bool,
    pub signals: bool,
}

impl TerminalMode {
    /// The mode with the engine's flags.
    pub fn from_engine(modes: [bool; 3]) -> (mode: TerminalMode)
        ensures
            mode == (TerminalMode { canonical: modes[0], echo: modes[1], signals: modes[2] }),
    {
        TerminalMode { canonical: modes[0], echo: modes[1], signals: modes[2] }
    }
}

/// How a session's cleanup ended.
#[derive(Clone, Copy, Debug, PartialEq, Eq, Structural)]
pub struct CloseResult {
    pub input_failed: bool,
    pub output_failed: bool,
    pub cleanup_failed: bool,
}

impl Default for CloseResult {
    /// Nothing failed.
    fn default() -> (result: CloseResult)
        ensures
            !result.input_failed,
            !result.output_failed,
            !result.cleanup_failed,
    {
        CloseResult { input_failed: false, output_failed: false, cleanup_failed: false }
    }
}

/// The result that an engine gave.
pub open spec fn close_of(result: engine_event::CloseResult) -> CloseResult {
    CloseResult {
        input_failed: result.input_failed,
        output_failed: result.output_failed,
        cleanup_failed: result.cleanup_failed,
    }
}

impl CloseResult {
    /// The result that an engine gave.
    pub fn from_engine(result: engine_event::CloseResult) -> (converted: CloseResult)
        ensures
            converted == close_of(result),
    {
        CloseResult {
            input_failed: result.input_failed,
            output_failed: result.output_failed,
            cleanup_failed: result.cleanup_failed,
        }
    }

    /// Whether nothing failed.
    pub fn is_success(self) -> (success: bool)
        ensures
            success == (!self.input_failed && !self.output_failed && !self.cleanup_failed),
    {
        !self.input_failed && !self.output_failed && !self.cleanup_failed
    }
}

/// A native runtime could not be created.
#[derive(Debug)]
pub enum RuntimeError {
    /// Unix needs a broker.
    MissingBroker,
    /// Native initialization failed.
    Native(IoError),
}

impl RuntimeError {
    /// The text of the failure.
    pub fn to_string(&self) -> (message: String)
        ensures
            message@ == match *self {
                RuntimeError::MissingBroker => "a Unix broker path is required"@,
                RuntimeError::Native(error) => "native runtime initialization failed: "@
                    + error.message@,
            },
    {
        let mut message = String::new();
        match self {
            RuntimeError::MissingBroker => {
                message.append("a Unix broker path is required");
                assert(message@ =~= "a Unix broker path is required"@);
            },
            RuntimeError::Native(error) => {
                message.append("native runtime initialization failed: ");
                message.append(error.message.as_str());
                assert(message@ =~= "native runtime initialization failed: "@ + error.message@);
            },
        }
        message
    }
}

/// Why a write was not accepted.
#[derive(Clone, Copy, Debug, PartialEq, Eq, Structural)]
pub enum WriteError {
    Empty,
    Backpressure,
    Closed,
    Infrastructure,
}

impl WriteError {
    /// The text of the rejection.
    pub fn to_string(&self) -> (message: String)
        ensures
            message@ == match *self {
                WriteError::Empty => "an input write must contain at least one byte"@,
                WriteError::Backpressure => "the bounded input queue is full"@,
                WriteError::Closed => "the session input is closed"@,
                WriteError::Infrastructure => "the native runtime is unavailable"@,
            },
    {
        let text: &'static str = match self {
            WriteError::Empty => "an input write must contain at least one byte",
            WriteError::Backpressure => "the bounded input queue is full",
            WriteError::Closed => "the session input is closed",
            WriteError::Infrastructure => "the native runtime is unavailable",
        };
        let mut message = String::new();
        message.append(text);
        assert(message@ =~= text@);
        message
    }
}

/// A control of a session failed.
#[derive(Clone, Copy, Debug, PartialEq, Eq)]
pub struct ControlError {
    pub operation: &'static str,
}

impl ControlError {
    /// A failed control.
    pub fn new(operation: &'static str) -> (error: Self)
        ensures
            error.operation == operation,
    {
        ControlError { operation }
    }

    /// The operation that failed.
    pub fn operation(&self) -> (operation: &'static str)
        ensures
            operation == self.operation,
    {
        self.operation
    }

    /// The text of the failure.
    pub fn to_string(&self) -> (message: String)
        ensures
            message@ == "native "@ + self.operation@ + " failed"@,
    {
        let mut message = String::new();
        message.append("native ");
        message.append(self.operation);
        message.append(" failed");
        assert(message@ =~= "native "@ + self.operation@ + " failed"@);
        message
    }
}

/// A truth value as text.
pub open spec fn flag_text(flag: bool) -> Seq<char> {
    if flag {
        "true"@
    } else {
        "false"@
    }
}

/// An explicit close could not be started or seen through.
#[derive(Debug)]
pub enum CloseError {
    Native(IoError),
    CompletionLost,
    Failed(CloseResult),
}

/// The text of a failed close.
pub open spec fn close_text(error: CloseError) -> Seq<char> {
    match error {
        CloseError::Native(error) => "native close failed: "@ + error.message@,
        CloseError::CompletionLost => "native close completion was not published"@,
        CloseError::Failed(result) => "native close completed with failures: input="@ + flag_text(
            result.input_failed,
        ) + ", output="@ + flag_text(result.output_failed) + ", cleanup="@ + flag_text(
            result.cleanup_failed,
        ),
    }
}

/// A truth value as text.
fn flag_name(flag: bool) -> (name: &'static str)
    ensures
        name@ == flag_text(flag),
{
    if flag {
        "true"
    } else {
        "false"
    }
}

impl CloseError {
    /// The text of the failure.
    pub fn to_string(&self) -> (message: String)
        ensures
            message@ == close_text(*self),
    {
        let mut message = String::new();
        match self {
            CloseError::Native(error) => {
                message.append("native close failed: ");
                message.append(error.message.as_str());
            },
            CloseError::CompletionLost => {
                message.append("native close completion was not published");
            },
            CloseError::Failed(result) => {
                message.append("native close completed with failures: input=");
                message.append(flag_name(result.input_failed));
                message.append(", output=");
                message.append(flag_name(result.output_failed));
                message.append(", cleanup=");
                message.append(flag_name(result.cleanup_failed));
            },
        }
        assert(message@ =~= close_text(*self));
        message
    }
}

/// A session's metadata could not be had.
#[derive(Clone, Copy, Debug, PartialEq, Eq, Structural)]
pub struct MetadataError;

impl MetadataError {
    /// The text of the failure.
    pub fn to_string(&self) -> (message: String)
        ensures
            message@ == "native session metadata is unavailable"@,
    {
        let mut message = String::new();
        message.append("native session metadata is unavailable");
        assert(message@ =~= "native session metadata is unavailable"@);
        message
    }
}

/// What a runtime is made with.
#[derive(Debug)]
pub struct RuntimeBuilder {
    pub broker_path: Option<Vec<u8>>,
}

impl RuntimeBuilder {
    /// A builder with the platform's defaults.
    pub fn new() -> (builder: Self)
        ensures
            builder.broker_path is None,
    {
        RuntimeBuilder { broker_path: None }
    }

    /// The builder with this broker.
    pub fn broker_path(self, path: Vec<u8>) -> (builder: Self)
        ensures
            builder.broker_path == Some(path),
    {
        RuntimeBuilder { broker_path: Some(path) }
    }

    /// The broker that a Unix runtime is made with.
    pub fn unix_broker(self) -> (result: Result<Vec<u8>, RuntimeError>)
        ensures
            result == match self.broker_path {
                Some(path) => Ok::<Vec<u8>, RuntimeError>(path),
                None => Err(RuntimeError::MissingBroker),
            },
    {
        match self.broker_path {
            Some(path) => Ok(path),
            None => Err(RuntimeError::MissingBroker),
        }
    }
}

impl Default for RuntimeBuilder {
    fn default() -> (builder: Self)
        ensures
            builder.broker_path is None,
    {
        RuntimeBuilder::new()
    }
}

/// Output of a session. Its length is credited to the session when it is given back.
#[derive(Debug)]
pub struct OutputChunk {
    pub bytes: Bytes,
}

impl OutputChunk {
    /// Output with these bytes.
    pub fn new(bytes: Bytes) -> (chunk: OutputChunk)
        ensures
            chunk.bytes == bytes,
    {
        OutputChunk { bytes }
    }

    /// The number of bytes.
    pub fn len(&self) -> (length: usize)
        ensures
            length == buffer::bytes_of(self.bytes).len(),
    {
        self.bytes.len()
    }

    /// Whether there are no bytes.
    pub fn is_empty(&self) -> (empty: bool)
        ensures
            empty == (buffer::bytes_of(self.bytes).len() == 0),
    {
        self.bytes.is_empty()
    }

    /// The bytes.
    pub fn as_slice(&self) -> (slice: &[u8])
        ensures
            slice@ == buffer::bytes_of(self.bytes),
    {
        buffer::bytes_slice(&self.bytes)
    }
}

/// One event of a session. `C` is what its consumer gets of the output.
#[derive(Debug)]
pub enum Event<C> {
    Output(C),
    OutputDone,
    InputFailed,
    OutputFailed,
    InfrastructureFailed,
    Exited(ExitStatus),
    Closed(CloseResult),
    ModeChanged(TerminalMode),
}

impl<C> Event<C> {
    /// The event with its output shown as another.
    pub fn map_output<D, F: FnOnce(C) -> D>(self, show: F) -> (event: Event<D>)
        requires
            self matches Event::Output(chunk) ==> call_requires(show, (chunk,)),
        ensures
            match self {
                Event::Output(chunk) => event matches Event::Output(shown) && call_ensures(
                    show,
                    (chunk,),
                    shown,
                ),
                Event::OutputDone => event == Event::<D>::OutputDone,
                Event::InputFailed => event == Event::<D>::InputFailed,
                Event::OutputFailed => event == Event::<D>::OutputFailed,
                Event::InfrastructureFailed => event == Event::<D>::InfrastructureFailed,
                Event::Exited(status) => event == Event::<D>::Exited(status),
                Event::Closed(result) => event == Event::<D>::Closed(result),
                Event::ModeChanged(mode) => event == Event::<D>::ModeChanged(mode),
            },
    {
        match self {
            Event::Output(chunk) => Event::Output(show(chunk)),
            Event::OutputDone => Event::OutputDone,
            Event::InputFailed => Event::InputFailed,
            Event::OutputFailed => Event::OutputFailed,
            Event::InfrastructureFailed => Event::InfrastructureFailed,
            Event::Exited(status) => Event::Exited(status),
            Event::Closed(result) => Event::Closed(result),
            Event::ModeChanged(mode) => Event::ModeChanged(mode),
        }
    }
}

/// The event that a notice is shown as. A status that means nothing, and a notice of a
/// spawn, say that the infrastructure failed.
pub open spec fn event_of(notice: Notice) -> Event<OutputChunk> {
    match notice {
        Notice::Output { bytes, .. } => Event::Output(OutputChunk { bytes }),
        Notice::InputFailed(_) => Event::InputFailed,
        Notice::OutputFailed(_) => Event::OutputFailed,
        Notice::BrokerLost(_) => Event::InfrastructureFailed,
        Notice::OutputDone(_) => Event::OutputDone,
        Notice::Exit { status, .. } => match exit_of(status) {
            Some(exit) => Event::Exited(exit),
            None => Event::InfrastructureFailed,
        },
        Notice::Closed { result, .. } => Event::Closed(close_of(result)),
        Notice::SpawnReady { .. } => Event::InfrastructureFailed,
        Notice::SpawnFailed { .. } => Event::InfrastructureFailed,
        Notice::ModeChanged { modes, .. } => Event::ModeChanged(
            TerminalMode { canonical: modes[0], echo: modes[1], signals: modes[2] },
        ),
    }
}

/// The event that a notice is shown as.
pub fn convert(notice: Notice) -> (event: Event<OutputChunk>)
    ensures
        event == event_of(notice),
{
    match notice {
        Notice::Output { handle: _, bytes } => Event::Output(OutputChunk::new(bytes)),
        Notice::InputFailed(_) => Event::InputFailed,
        Notice::OutputFailed(_) => Event::OutputFailed,
        Notice::BrokerLost(_) => Event::InfrastructureFailed,
        Notice::OutputDone(_) => Event::OutputDone,
        Notice::Exit { handle: _, status } => match ExitStatus::from_engine(status) {
            Some(exit) => Event::Exited(exit),
            None => Event::InfrastructureFailed,
        },
        Notice::Closed { handle: _, result } => Event::Closed(CloseResult::from_engine(result)),
        Notice::SpawnReady { .. } | Notice::SpawnFailed { .. } => Event::InfrastructureFailed,
        Notice::ModeChanged { handle: _, modes } => Event::ModeChanged(
            TerminalMode::from_engine(modes),
        ),
    }
}

/// A session's metadata.
#[derive(Debug, PartialEq, Eq)]
pub struct SessionSnapshot {
    pub process_id: u64,
    pub size: Size,
    pub terminal_mode: Option<TerminalMode>,
    pub terminal_name: Option<Vec<u8>>,
}

impl SessionSnapshot {
    /// The child's number.
    pub fn process_id(&self) -> (process: u64)
        ensures
            process == self.process_id,
    {
        self.process_id
    }

    /// The size of the terminal.
    pub fn size(&self) -> (size: Size)
        ensures
            size == self.size,
    {
        self.size
    }

    /// The terminal's mode, where the platform has one.
    pub fn terminal_mode(&self) -> (mode: Option<TerminalMode>)
        ensures
            mode == self.terminal_mode,
    {
        self.terminal_mode
    }

    /// The terminal's name, where the platform has one.
    pub fn terminal_name(&self) -> (name: Option<&Vec<u8>>)
        ensures
            match name {
                Some(name) => self.terminal_name == Some(*name),
                None => self.terminal_name is None,
            },
    {
        self.terminal_name.as_ref()
    }
}

/// The metadata that an engine gave.
pub fn snapshot_of(metadata: Option<Metadata>) -> (result: Result<SessionSnapshot, MetadataError>)
    ensures
        match result {
            Ok(snapshot) => {
                &&& metadata matches Some(metadata)
                &&& metadata.pid >= 0
                &&& options::native_ok(metadata.size)
                &&& snapshot.size.wf()
                &&& snapshot.process_id == metadata.pid
                &&& snapshot.size == (Size {
                    rows: metadata.size[0] as u16,
                    columns: metadata.size[1] as u16,
                    pixel_width: metadata.size[2] as u16,
                    pixel_height: metadata.size[3] as u16,
                })
                &&& snapshot.terminal_mode == match metadata.mode {
                    Some(modes) => Some(
                        TerminalMode { canonical: modes[0], echo: modes[1], signals: modes[2] },
                    ),
                    None => None,
                }
                &&& snapshot.terminal_name == metadata.tty_name
            },
            Err(_) => metadata matches Some(metadata) ==> metadata.pid < 0 || !options::native_ok(
                metadata.size,
            ),
        },
{
    let metadata = match metadata {
        Some(metadata) => metadata,
        None => {
            return Err(MetadataError);
        },
    };
    if metadata.pid < 0 {
        return Err(MetadataError);
    }
    let size = match Size::from_native(metadata.size) {
        Some(size) => size,
        None => {
            return Err(MetadataError);
        },
    };
    let terminal_mode: Option<TerminalMode> = match metadata.mode {
        Some(modes) => Some(TerminalMode::from_engine(modes)),
        None => None,
    };
    Ok(
        SessionSnapshot {
            process_id: metadata.pid as u64,
            size,
            terminal_mode,
            terminal_name: metadata.tty_name,
        },
    )
}

/// What a spawn that was awaited came to.
pub fn spawn_outcome(completion: Option<Result<u64, IoError>>) -> (result: Result<u64, SpawnError>)
    ensures
        result == match completion {
            Some(Ok(handle)) => Ok::<u64, SpawnError>(handle),
            Some(Err(error)) => Err(SpawnError::Native(error)),
            None => Err(SpawnError::Activation),
        },
{
    match completion {
        Some(Ok(handle)) => Ok(handle),
        Some(Err(error)) => Err(SpawnError::Native(error)),
        None => Err(SpawnError::Activation),
    }
}

/// The session that is given up when nobody waits for its spawn any more.
pub fn dropped_spawn(taken: Option<Result<u64, IoError>>) -> (abandon: Option<u64>)
    ensures
        abandon == match taken {
            Some(Ok(handle)) => Some(handle),
            _ => None,
        },
{
    match taken {
        Some(Ok(handle)) => Some(handle),
        _ => None,
    }
}

/// Whether a session is published: its events can be received and the engine activated
/// it. One that is not is given up.
pub fn publish_session(has_receiver: bool, activated: bool) -> (result: Result<(), SpawnError>)
    ensures
        result == if has_receiver && activated {
            Ok::<(), SpawnError>(())
        } else {
            Err(SpawnError::Activation)
        },
{
    if has_receiver && activated {
        Ok(())
    } else {
        Err(SpawnError::Activation)
    }
}

/// How a session's close stands.
#[derive(Clone, Copy, Debug, PartialEq, Eq, Structural)]
pub enum CachedClose {
    Complete(CloseResult),
    Lost,
}

impl CachedClose {
    /// What the engine's completion means.
    pub fn from_engine(completion: Option<engine_event::CloseResult>) -> (cached: CachedClose)
        ensures
            cached == match completion {
                Some(result) => CachedClose::Complete(close_of(result)),
                None => CachedClose::Lost,
            },
    {
        match completion {
            Some(result) => CachedClose::Complete(CloseResult::from_engine(result)),
            None => CachedClose::Lost,
        }
    }

    /// The result that a waiter gets.
    pub fn result(self) -> (result: Result<(), CloseError>)
        ensures
            result == close_outcome(self),
    {
        match self {
            CachedClose::Complete(result) => {
                if result.is_success() {
                    Ok(())
                } else {
                    Err(CloseError::Failed(result))
                }
            },
            CachedClose::Lost => Err(CloseError::CompletionLost),
        }
    }
}

/// The result that a waiter gets.
pub open spec fn close_outcome(cached: CachedClose) -> Result<(), CloseError> {
    match cached {
        CachedClose::Complete(result) => if !result.input_failed && !result.output_failed
            && !result.cleanup_failed {
            Ok(())
        } else {
            Err(CloseError::Failed(result))
        },
        CachedClose::Lost => Err(CloseError::CompletionLost),
    }
}

/// A session's close, which all its waiters share. `C` is the engine's completion, `W`
/// what wakes a waiter.
pub struct CloseState<C, W> {
    pub completion: Option<C>,
    pub completion_waiting: bool,
    pub result: Option<CachedClose>,
    pub wakers: Vec<Option<W>>,
}

/// What a waiter does.
pub enum WaitStep<C> {
    /// The result is there.
    Ready(CachedClose),
    /// Wait for the engine, then finish the close.
    Await(C),
    /// Another waiter waits for the engine; wait for that one.
    Block,
}

impl<C, W> CloseState<C, W> {
    /// Whether a close has been asked for.
    pub open spec fn started(&self) -> bool {
        self.completion is Some || self.completion_waiting || self.result is Some
    }

    /// A session that nobody closes.
    pub fn new() -> (state: Self)
        ensures
            !state.started(),
            state.wakers@.len() == 0,
    {
        CloseState { completion: None, completion_waiting: false, result: None, wakers: Vec::new() }
    }

    /// Whether the engine has to be asked to close: once only.
    pub fn needs_start(&self) -> (needed: bool)
        ensures
            needed == !self.started(),
    {
        self.completion.is_none() && !self.completion_waiting && self.result.is_none()
    }

    /// Takes the engine's answer to the close.
    pub fn after_start(&mut self, started: Result<C, IoError>) -> (result: Result<(), CloseError>)
        requires
            !old(self).started(),
        ensures
            final(self).completion_waiting == old(self).completion_waiting,
            final(self).result == old(self).result,
            final(self).wakers == old(self).wakers,
            match started {
                Ok(completion) => result is Ok && final(self).completion == Some(completion),
                Err(error) => result == Err::<(), CloseError>(CloseError::Native(error))
                    && final(self).completion is None,
            },
    {
        match started {
            Ok(completion) => {
                self.completion = Some(completion);
                Ok(())
            },
            Err(error) => Err(CloseError::Native(error)),
        }
    }

    /// What a waiter does. The first to ask waits for the engine.
    pub fn wait_close(&mut self) -> (step: WaitStep<C>)
        ensures
            final(self).result == old(self).result,
            final(self).wakers == old(self).wakers,
            match old(self).result {
                Some(cached) => {
                    &&& step == WaitStep::<C>::Ready(cached)
                    &&& final(self).completion == old(self).completion
                    &&& final(self).completion_waiting == old(self).completion_waiting
                },
                None => match old(self).completion {
                    Some(completion) => {
                        &&& step == WaitStep::Await(completion)
                        &&& final(self).completion is None
                        &&& final(self).completion_waiting
                    },
                    None => {
                        &&& step is Block
                        &&& final(self).completion is None
                        &&& final(self).completion_waiting == old(self).completion_waiting
                    },
                },
            },
    {
        if let Some(cached) = self.result {
            return WaitStep::Ready(cached);
        }
        match self.completion.take() {
            Some(completion) => {
                self.completion_waiting = true;
                WaitStep::Await(completion)
            },
            None => WaitStep::Block,
        }
    }

    /// Takes note that the engine's completion came to one who polled it: that one finishes
    /// the close, and the others wait for it.
    pub fn completion_came(&mut self)
        ensures
            final(self).completion is None,
            final(self).completion_waiting,
            final(self).result == old(self).result,
            final(self).wakers == old(self).wakers,
    {
        self.completion = None;
        self.completion_waiting = true;
    }

    /// Ends the close. The first result stays; everyone who waits is woken.
    pub fn finish_close(&mut self, result: CachedClose) -> (finished: (CachedClose, Vec<W>))
        ensures
            finished.0 == match old(self).result {
                Some(cached) => cached,
                None => result,
            },
            finished.1@ == present(old(self).wakers@),
            final(self).result == Some(finished.0),
            final(self).completion == old(self).completion,
            !final(self).completion_waiting,
            final(self).wakers@.len() == 0,
    {
        let cached: CachedClose = match self.result {
            Some(cached) => cached,
            None => result,
        };
        self.result = Some(cached);
        self.completion_waiting = false;
        let ghost slots = self.wakers@;
        let mut waiting: Vec<W> = Vec::new();
        let count: usize = self.wakers.len();
        assert(slots.skip(0) =~= slots);
        assert(present(slots.take(0)) =~= Seq::<W>::empty());
        let mut index: usize = 0;
        while index < count
            invariant
                index <= count,
                count == slots.len(),
                self.wakers@ == slots.skip(index as int),
                waiting@ == present(slots.take(index as int)),
                self.result == Some(cached),
                self.completion == old(self).completion,
                !self.completion_waiting,
            decreases count - index,
        {
            let slot: Option<W> = self.wakers.remove(0);
            proof {
                assert(self.wakers@ =~= slots.skip(index + 1));
                let taken = slots.take(index + 1);
                assert(taken.drop_last() =~= slots.take(index as int));
                assert(taken.last() == slot);
            }
            if let Some(waker) = slot {
                waiting.push(waker);
            }
            index = index + 1;
        }
        assert(slots.take(count as int) =~= slots);
        (cached, waiting)
    }

    /// Looks at the close without waiting: the result, or the waiter's waker is kept.
    pub fn poll_waiting(&mut self, index: &mut Option<usize>, waker: W) -> (result: Option<
        CachedClose,
    >)
        ensures
            result == old(self).result,
            final(self).result == old(self).result,
            final(self).completion == old(self).completion,
            final(self).completion_waiting == old(self).completion_waiting,
            match result {
                Some(_) => final(self).wakers == old(self).wakers && *final(index) == *old(index),
                None => registered(
                    old(self).wakers@,
                    *old(index),
                    waker,
                    final(self).wakers@,
                    *final(index),
                ),
            },
    {
        if self.result.is_some() {
            return self.result;
        }
        register_waker(&mut self.wakers, index, waker);
        None
    }
}

/// The wakers that are there.
pub open spec fn present<W>(slots: Seq<Option<W>>) -> Seq<W>
    decreases slots.len(),
{
    if slots.len() == 0 {
        Seq::empty()
    } else {
        match slots.last() {
            Some(waker) => present(slots.drop_last()).push(waker),
            None => present(slots.drop_last()),
        }
    }
}

/// Whether a waker is kept: in its waiter's slot where that is there, else in the first
/// that is vacant, else in a new one.
pub open spec fn registered<W>(
    before: Seq<Option<W>>,
    index: Option<usize>,
    waker: W,
    after: Seq<Option<W>>,
    place: Option<usize>,
) -> bool {
    if index is Some && index.unwrap() < before.len() && before[index.unwrap() as int] is Some {
        after == before.update(index.unwrap() as int, Some(waker)) && place == index
    } else {
        &&& place is Some
        &&& place.unwrap() <= before.len()
        &&& forall|i: int| 0 <= i < place.unwrap() ==> (#[trigger] before[i]) is Some
        &&& if place.unwrap() < before.len() {
            before[place.unwrap() as int] is None && after == before.update(
                place.unwrap() as int,
                Some(waker),
            )
        } else {
            after == before.push(Some(waker))
        }
    }
}

/// Keeps a waiter's waker.
pub fn register_waker<W>(wakers: &mut Vec<Option<W>>, index: &mut Option<usize>, waker: W)
    ensures
        registered(old(wakers)@, *old(index), waker, final(wakers)@, *final(index)),
{
    if let Some(place) = *index {
        if place < wakers.len() && wakers[place].is_some() {
            wakers.set(place, Some(waker));
            return;
        }
    }
    let count: usize = wakers.len();
    let mut vacant: usize = 0;
    while vacant < count && wakers[vacant].is_some()
        invariant
            count == wakers@.len(),
            vacant <= count,
            forall|i: int| 0 <= i < vacant ==> (#[trigger] wakers@[i]) is Some,
        decreases count - vacant,
    {
        vacant = vacant + 1;
    }
    if vacant < count {
        wakers.set(vacant, Some(waker));
    } else {
        wakers.push(Some(waker));
    }
    *index = Some(vacant);
}

/// Slots without the vacant ones at their end.
pub open spec fn trimmed<W>(slots: Seq<Option<W>>) -> Seq<Option<W>>
    decreases slots.len(),
{
    if slots.len() > 0 && slots.last() is None {
        trimmed(slots.drop_last())
    } else {
        slots
    }
}

/// Slots after a waiter left.
pub open spec fn cleared<W>(slots: Seq<Option<W>>, index: usize) -> Seq<Option<W>> {
    trimmed(
        if index < slots.len() {
            slots.update(index as int, None)
        } else {
            slots
        },
    )
}

/// Forgets a waiter's waker.
pub fn clear_waker<W>(wakers: &mut Vec<Option<W>>, index: usize)
    ensures
        final(wakers)@ == cleared(old(wakers)@, index),
{
    if index < wakers.len() {
        wakers.set(index, None);
    }
    let ghost marked = wakers@;
    while wakers.len() > 0 && wakers[wakers.len() - 1].is_none()
        invariant
            trimmed(wakers@) == trimmed(marked),
        decreases wakers@.len(),
    {
        let ghost before = wakers@;
        let _vacant = wakers.pop();
        assert(wakers@ =~= before.drop_last());
    }
}

/// Waiters that come and go leave no slot behind: a new waiter that leaves again leaves
/// the slots as they were.
pub proof fn waiter_leaves_no_slot<W>(
    before: Seq<Option<W>>,
    waker: W,
    after: Seq<Option<W>>,
    place: Option<usize>,
)
    requires
        before.len() == 0 || before.last() is Some,
        registered(before, None, waker, after, place),
    ensures
        cleared(after, place.unwrap()) == before,
{
    reveal_with_fuel(trimmed, 2);
    let index = place.unwrap() as int;
    let marked = after.update(index, None);
    if index < before.len() {
        assert(marked =~= before);
    } else {
        assert(marked.drop_last() =~= before);
    }
}

/// Whether a write can be handed to the engine.
pub open spec fn write_start(control: SessionControl, bytes: Seq<u8>) -> Result<(), WriteError> {
    if bytes.len() == 0 {
        Err(WriteError::Empty)
    } else if control.closing {
        Err(WriteError::Closed)
    } else {
        Ok(())
    }
}

/// After a close, begun or over, every write of some bytes is answered as closed.
pub proof fn closed_session_takes_no_write(control: SessionControl, bytes: Seq<u8>)
    requires
        control.wf(),
        control.closing || control.closed,
        bytes.len() > 0,
    ensures
        write_start(control, bytes) == Err::<(), WriteError>(WriteError::Closed),
{
}

/// What a session's users do to it, beside its events.
pub struct SessionControl {
    pub handle: u64,
    pub closing: bool,
    pub closed: bool,
    pub output_cancelled: bool,
    pub observing_modes: bool,
}

impl SessionControl {
    /// A session that was just published.
    pub fn new(handle: u64) -> (control: SessionControl)
        ensures
            control == (SessionControl {
                handle,
                closing: false,
                closed: false,
                output_cancelled: false,
                observing_modes: false,
            }),
            control.wf(),
    {
        SessionControl {
            handle,
            closing: false,
            closed: false,
            output_cancelled: false,
            observing_modes: false,
        }
    }

    /// A session that is closed is one whose close was started.
    pub open spec fn wf(&self) -> bool {
        self.closed ==> self.closing
    }

    /// Takes note that the engine started the close: no write is handed over any more.
    pub fn mark_closing(&mut self)
        ensures
            *final(self) == (SessionControl { closing: true, ..*old(self) }),
            final(self).wf(),
    {
        self.closing = true;
    }

    /// Takes note that the close is over: no write is handed over, and no output credited,
    /// any more.
    pub fn mark_closed(&mut self)
        ensures
            *final(self) == (SessionControl { closing: true, closed: true, ..*old(self) }),
            final(self).wf(),
    {
        self.closing = true;
        self.closed = true;
    }

    /// Whether a write can be handed to the engine.
    pub fn begin_write(&self, bytes: &Bytes) -> (result: Result<(), WriteError>)
        ensures
            result == write_start(*self, buffer::bytes_of(*bytes)),
    {
        if bytes.is_empty() {
            return Err(WriteError::Empty);
        }
        if self.closing {
            return Err(WriteError::Closed);
        }
        Ok(())
    }

    /// What the engine's answer to a write means.
    pub fn after_write(code: i64) -> (result: Result<(), WriteError>)
        ensures
            result == if code == 1 {
                Ok::<(), WriteError>(())
            } else if code == 0 {
                Err(WriteError::Backpressure)
            } else if code == WRITE_INFRASTRUCTURE_FAILURE {
                Err(WriteError::Infrastructure)
            } else {
                Err(WriteError::Closed)
            },
    {
        if code == 1 {
            Ok(())
        } else if code == 0 {
            Err(WriteError::Backpressure)
        } else if code == WRITE_INFRASTRUCTURE_FAILURE {
            Err(WriteError::Infrastructure)
        } else {
            Err(WriteError::Closed)
        }
    }

    /// What the engine's answer to a control means.
    pub fn after_control(operation: &'static str, accepted: bool) -> (result: Result<
        (),
        ControlError,
    >)
        ensures
            result == if accepted {
                Ok::<(), ControlError>(())
            } else {
                Err(ControlError { operation })
            },
    {
        if accepted {
            Ok(())
        } else {
            Err(ControlError::new(operation))
        }
    }

    /// What the engine's answer to a termination means.
    pub fn after_terminate(delivered: Option<bool>) -> (result: Result<bool, ControlError>)
        ensures
            result == match delivered {
                Some(value) => Ok::<bool, ControlError>(value),
                None => Err(ControlError { operation: "termination" }),
            },
    {
        match delivered {
            Some(value) => Ok(value),
            None => Err(ControlError::new("termination")),
        }
    }

    /// How much of returned output is credited to the engine.
    pub fn release_output(&self, bytes: usize) -> (credit: Option<usize>)
        ensures
            credit == if bytes != 0 && !self.closed {
                Some(bytes)
            } else {
                None
            },
    {
        if bytes != 0 && !self.closed {
            Some(bytes)
        } else {
            None
        }
    }

    /// Whether the engine has to be asked to end the output.
    pub fn begin_cancel_output(&self) -> (ask: bool)
        ensures
            ask == !(self.closed || self.output_cancelled),
    {
        !(self.closed || self.output_cancelled)
    }

    /// Takes the engine's answer to the end of the output.
    pub fn after_cancel_output(&mut self, accepted: bool) -> (result: Result<(), ControlError>)
        ensures
            result == if accepted {
                Ok::<(), ControlError>(())
            } else {
                Err(ControlError { operation: "output cancellation" })
            },
            *final(self) == (SessionControl {
                output_cancelled: old(self).output_cancelled || accepted,
                ..*old(self)
            }),
            old(self).wf() ==> final(self).wf(),
    {
        if accepted {
            self.output_cancelled = true;
            Ok(())
        } else {
            Err(ControlError::new("output cancellation"))
        }
    }

    /// Whether the engine has to be asked to observe modes: not where they are observed as
    /// asked, nor on a closed session, where they can only be switched off.
    pub fn begin_observe_modes(&mut self, observe: bool) -> (result: Result<bool, ControlError>)
        ensures
            if old(self).observing_modes == observe {
                result == Ok::<bool, ControlError>(false) && *final(self) == *old(self)
            } else if old(self).closed && observe {
                result == Err::<bool, ControlError>(
                    ControlError { operation: "terminal-mode observation" },
                ) && *final(self) == *old(self)
            } else if old(self).closed {
                result == Ok::<bool, ControlError>(false) && *final(self) == (SessionControl {
                    observing_modes: false,
                    ..*old(self)
                })
            } else {
                result == Ok::<bool, ControlError>(true) && *final(self) == *old(self)
            },
            old(self).wf() ==> final(self).wf(),
    {
        if self.observing_modes == observe {
            return Ok(false);
        }
        if self.closed {
            if observe {
                return Err(ControlError::new("terminal-mode observation"));
            }
            self.observing_modes = false;
            return Ok(false);
        }
        Ok(true)
    }

    /// Takes the engine's answer to the observation of modes.
    pub fn after_observe_modes(&mut self, observe: bool, accepted: bool) -> (result: Result<
        (),
        ControlError,
    >)
        ensures
            result == if accepted {
                Ok::<(), ControlError>(())
            } else {
                Err(ControlError { operation: "terminal-mode observation" })
            },
            *final(self) == (SessionControl {
                observing_modes: if accepted {
                    observe
                } else {
                    old(self).observing_modes
                },
                ..*old(self)
            }),
            old(self).wf() ==> final(self).wf(),
    {
        if accepted {
            self.observing_modes = observe;
            Ok(())
        } else {
            Err(ControlError::new("terminal-mode observation"))
        }
    }

    /// The session that is given up when nobody controls it any more.
    pub fn abandoned(&self) -> (abandon: Option<u64>)
        ensures
            abandon == if self.closed {
                None
            } else {
                Some(self.handle)
            },
    {
        if self.closed {
            None
        } else {
            Some(self.handle)
        }
    }
}

} // verus!
