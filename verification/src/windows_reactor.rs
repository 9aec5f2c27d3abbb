//! The reactor of the Windows engine: what every command, completion and deadline does to
//! the sessions.
use crate::buffer;
use crate::control::Control;
use crate::error::{self, CloseResult, FailureKind, Operation, OperationError};
use crate::fault::{ErrorKind, IoError};
use crate::handle;
use crate::notice::Notice;
use crate::reactor;
use crate::registry::{self, GenerationRegistry};
use crate::session::{self, InputAdmission};
use crate::windows_budget;
use crate::windows_session::{
    self, Console, ConsoleStep, Flight, Follow, Life, Outbox, OutboxModel, ReadDone, Stage, WindowsSession, MAX_NOW,
};
use crate::windows_spawn::Coord;
use bytes::Bytes;
use vstd::prelude::*;

verus! {

/// How long the reactor waits while a console closes, in milliseconds.
pub const CLOSE_POLL: u32 = 100;

/// A wait without end.
pub const INFINITE: u32 = 0xffff_ffff;

/// The mark of a completion that tells of a console's close.
pub const CLOSE_KEY_TAG: u64 = 0x4000_0000_0000_0000;

/// The completion that tells of room among the notices.
pub const NOTICE_AVAILABLE_KEY: u64 = 0x8000_0000_0000_0000;

/// The mark of a completion that tells of a child's exit.
pub const PROCESS_EXIT_KEY_TAG: u64 = 0x2000_0000_0000_0000;

/// The platform's code for a pipe whose other end is gone.
pub const ERROR_BROKEN_PIPE: i32 = 109;

/// The platform's code for a transfer that was cancelled.
pub const ERROR_OPERATION_ABORTED: i32 = 995;

/// A request to the reactor.
#[derive(Debug)]
pub enum WindowsCommand {
    Activate { handle: u64 },
    Write { handle: u64, bytes: Bytes },
    CancelOutput { handle: u64 },
    Size { handle: u64 },
    ProcessId { handle: u64 },
    Resize { handle: u64, size: [u32; 4] },
    Signal { handle: u64, signal: i32 },
    CloseStart { handle: u64, waiter: u64 },
    Abandon { handle: u64 },
    Shutdown,
}

/// The session that a command is for, or zero.
pub open spec fn command_target(command: WindowsCommand) -> u64 {
    match command {
        WindowsCommand::Activate { handle } => handle,
        WindowsCommand::Write { handle, .. } => handle,
        WindowsCommand::CancelOutput { handle } => handle,
        WindowsCommand::Size { handle } => handle,
        WindowsCommand::ProcessId { handle } => handle,
        WindowsCommand::Resize { handle, .. } => handle,
        WindowsCommand::Signal { handle, .. } => handle,
        WindowsCommand::CloseStart { handle, .. } => handle,
        WindowsCommand::Abandon { handle } => handle,
        WindowsCommand::Shutdown => 0,
    }
}

impl WindowsCommand {
    /// The session that the command is for, or zero.
    pub fn handle(&self) -> (handle: u64)
        ensures
            handle == command_target(*self),
    {
        match self {
            WindowsCommand::Activate { handle } => *handle,
            WindowsCommand::Write { handle, .. } => *handle,
            WindowsCommand::CancelOutput { handle } => *handle,
            WindowsCommand::Size { handle } => *handle,
            WindowsCommand::ProcessId { handle } => *handle,
            WindowsCommand::Resize { handle, .. } => *handle,
            WindowsCommand::Signal { handle, .. } => *handle,
            WindowsCommand::CloseStart { handle, .. } => *handle,
            WindowsCommand::Abandon { handle } => *handle,
            WindowsCommand::Shutdown => 0,
        }
    }
}

/// What the caller of a command is told.
#[derive(Debug)]
pub enum WindowsReply {
    Nothing,
    Activated(Result<(), IoError>),
    Done(Result<(), OperationError>),
    Size(Result<[u32; 4], OperationError>),
    ProcessId(Result<i64, OperationError>),
    Flag(bool),
    Signalled(Result<bool, OperationError>),
    /// What the work comes to.
    Outside,
}

/// What the reactor's thread has to do.
#[derive(Debug)]
pub enum WindowsWork {
    Done,
    /// Do these for the session, in order.
    Follow { handle: u64, steps: Vec<Follow> },
    /// Resize the console, then report to `after_resize`.
    Resize { handle: u64, size: [u32; 4], coord: Coord },
    /// Kill the session's processes, then report to `after_terminate`.
    Terminate { handle: u64 },
    /// Take down every session and stop.
    Stop,
}

/// What one command came to.
#[derive(Debug)]
pub struct WindowsOutcome {
    pub work: WindowsWork,
    pub reply: WindowsReply,
}

/// What a completion of the port means.
#[derive(Clone, Copy, Debug, PartialEq, Eq, Structural)]
pub enum PortEvent {
    /// The wait was over before anything came.
    Timeout,
    ConsoleClosed(u64),
    NoticeAvailable,
    ProcessExited(u64),
    Commands,
    /// A read or write of this session ended.
    Transfer(u64),
}

/// What a completion of the port means.
pub open spec fn port_event_of(key: u64, transfer: bool, timed_out: bool) -> PortEvent {
    if transfer {
        PortEvent::Transfer(key)
    } else if timed_out {
        PortEvent::Timeout
    } else if key & CLOSE_KEY_TAG != 0 {
        PortEvent::ConsoleClosed(key & !CLOSE_KEY_TAG)
    } else if key == NOTICE_AVAILABLE_KEY {
        PortEvent::NoticeAvailable
    } else if key & PROCESS_EXIT_KEY_TAG != 0 {
        PortEvent::ProcessExited(key & !PROCESS_EXIT_KEY_TAG)
    } else if key == 0 {
        PortEvent::Commands
    } else {
        PortEvent::Transfer(key)
    }
}

/// What a completion of the port means: its key, and whether it is that of a read or write.
pub fn port_event(key: u64, transfer: bool, timed_out: bool) -> (event: PortEvent)
    ensures
        event == port_event_of(key, transfer, timed_out),
{
    if transfer {
        return PortEvent::Transfer(key);
    }
    if timed_out {
        return PortEvent::Timeout;
    }
    if key & CLOSE_KEY_TAG != 0 {
        return PortEvent::ConsoleClosed(key & !CLOSE_KEY_TAG);
    }
    if key == NOTICE_AVAILABLE_KEY {
        return PortEvent::NoticeAvailable;
    }
    if key & PROCESS_EXIT_KEY_TAG != 0 {
        return PortEvent::ProcessExited(key & !PROCESS_EXIT_KEY_TAG);
    }
    if key == 0 {
        return PortEvent::Commands;
    }
    PortEvent::Transfer(key)
}

/// The key that tells of a console's close.
pub fn close_key(handle: u64) -> (key: u64)
    ensures
        key == handle | CLOSE_KEY_TAG,
{
    handle | CLOSE_KEY_TAG
}

/// The key that tells of a child's exit.
pub fn exit_key(handle: u64) -> (key: u64)
    ensures
        key == handle | PROCESS_EXIT_KEY_TAG,
{
    handle | PROCESS_EXIT_KEY_TAG
}

/// The reactor's sessions.
pub struct WindowsReactor {
    pub sessions: GenerationRegistry<WindowsSession>,
}

/// An operation on a session that is not there, or not in a state for it.
pub open spec fn wrong_state(operation: Operation) -> OperationError {
    OperationError { operation, kind: FailureKind::WrongState, native_code: None }
}

/// An operation with an argument that is not acceptable.
pub open spec fn bad_argument(operation: Operation) -> OperationError {
    OperationError { operation, kind: FailureKind::InvalidArgument, native_code: None }
}

/// The follow-up work of a session.
pub open spec fn follows(outcome: &WindowsOutcome, handle: u64, steps: Seq<Follow>) -> bool {
    outcome.work matches WindowsWork::Follow { handle: session, steps: list } && session == handle
        && list@ == steps
}

/// What a write of a session does. One that is not taken gives its room back and is told as
/// lost.
pub open spec fn write_taken(
    before: &WindowsSession,
    after: &WindowsSession,
    box_before: OutboxModel,
    box_after: OutboxModel,
    handle: u64,
    bytes: Bytes,
) -> bool {
    let length = buffer::bytes_of(bytes).len();
    let taken = !before.life.stage.close_started && !before.input.failed && length > 0;
    &&& after.output == before.output
    &&& after.same_facts(before)
    &&& if taken {
        &&& after.life == before.life
        &&& box_after == box_before
        &&& after.input.pending() == before.input.pending() + buffer::bytes_of(bytes)
        &&& after.input.queue@.len() == before.input.queue@.len() + 1
        &&& after.input.admission == before.input.admission
        &&& after.input.same_flags(&before.input)
    } else {
        let failure = match before.life.faults.input {
            Some(earlier) => earlier,
            None => error::closed_input(),
        };
        &&& after.input.pending() == before.input.pending()
        &&& after.input.same_flags(&before.input)
        &&& after.input.admission == given_back(before.input.admission, length as usize)
        &&& (after.life, box_after) == windows_session::input_lost(
            before.life,
            box_before,
            handle,
            failure,
        )
    }
}

/// An admission that got the room of one write back.
pub open spec fn given_back(admission: InputAdmission, length: usize) -> InputAdmission {
    InputAdmission {
        bytes: if length <= admission.bytes {
            (admission.bytes - length) as usize
        } else {
            0
        },
        entries: if 1 <= admission.entries {
            (admission.entries - 1) as usize
        } else {
            0
        },
        ..admission
    }
}

/// Whether a console can have these dimensions.
pub open spec fn resizable(size: [u32; 4]) -> bool {
    1 <= size[0] <= i16::MAX && 1 <= size[1] <= i16::MAX
}

impl WindowsReactor {
    /// What a handle names.
    pub open spec fn at(&self, handle: u64) -> Option<WindowsSession> {
        self.sessions.resolve(handle)
    }

    /// Every session is well formed.
    pub open spec fn wf(&self) -> bool {
        &&& self.sessions.wf()
        &&& forall|handle: u64|
            (#[trigger] self.sessions.resolve(handle)) matches Some(session) ==> session.wf()
    }

    /// Nobody was told of the close of a session that is there. From an empty reactor on, every
    /// step keeps this.
    pub open spec fn orderly(&self) -> bool {
        forall|handle: u64|
            (#[trigger] self.sessions.resolve(handle)) matches Some(session)
                ==> !session.life.stage.close_notified
    }

    /// Only one session may differ from the other reactor.
    pub open spec fn same_but(&self, other: &WindowsReactor, handle: u64) -> bool {
        forall|peer: u64| peer != handle ==> #[trigger] self.at(peer) == other.at(peer)
    }

    /// Nothing differs from the other reactor.
    pub open spec fn same(&self, other: &WindowsReactor) -> bool {
        self.sessions == other.sessions
    }

    /// A reactor without sessions.
    pub fn new() -> (reactor: WindowsReactor)
        ensures
            reactor.wf(),
            reactor.orderly(),
            forall|handle: u64| #[trigger] reactor.at(handle) is None,
    {
        WindowsReactor { sessions: GenerationRegistry::new() }
    }

    /// Takes a session that was started.
    pub fn add(&mut self, session: WindowsSession) -> (handle: u64)
        requires
            old(self).wf(),
            session.wf(),
            old(self).sessions.slots@.len() < u32::MAX,
        ensures
            final(self).wf(),
            old(self).orderly() && !session.life.stage.close_notified ==> final(self).orderly(),
            old(self).at(handle) is None,
            final(self).at(handle) == Some(session),
            final(self).same_but(old(self), handle),
    {
        self.sessions.insert(session)
    }

    /// Drops a session, in whatever state. The result says what becomes of its console.
    pub fn drop_session(&mut self, handle: u64) -> (step: ConsoleStep)
        requires
            old(self).wf(),
        ensures
            final(self).wf(),
            old(self).orderly() ==> final(self).orderly(),
            final(self).at(handle) is None,
            final(self).same_but(old(self), handle),
            step == forced_step(old(self).at(handle)),
    {
        match self.sessions.remove(handle) {
            Some(session) => {
                let mut session = session;
                session.force_console_close()
            },
            None => ConsoleStep::Nothing,
        }
    }

    /// Activates a session.
    fn activate(&mut self, handle: u64, outbox: &mut Outbox) -> (outcome: WindowsOutcome)
        requires
            old(self).wf(),
        ensures
            final(self).wf(),
            old(self).orderly() ==> final(self).orderly(),
            activate_step(old(self), final(self), old(outbox)@, final(outbox)@, handle, &outcome),
    {
        match self.sessions.get_mut(handle) {
            Some(session) => {
                let result = session.activate(handle, outbox);
                let work = if result.is_ok() {
                    let mut steps: Vec<Follow> = Vec::new();
                    steps.push(Follow::EnsureRead);
                    steps.push(Follow::EnsureWrite);
                    steps.push(Follow::Refresh);
                    assert(steps@ =~= activate_follow());
                    WindowsWork::Follow { handle, steps }
                } else {
                    WindowsWork::Done
                };
                WindowsOutcome { work, reply: WindowsReply::Activated(result) }
            },
            None => WindowsOutcome {
                work: WindowsWork::Done,
                reply: WindowsReply::Activated(
                    Err(IoError::new(ErrorKind::NotFound, "stale session")),
                ),
            },
        }
    }

    /// Takes a write.
    fn write(&mut self, handle: u64, bytes: Bytes, outbox: &mut Outbox) -> (outcome: WindowsOutcome)
        requires
            old(self).wf(),
            old(self).at(handle) matches Some(session) ==> session.input.bytes + buffer::bytes_of(
                bytes,
            ).len() <= usize::MAX && session.input.entries < usize::MAX,
        ensures
            final(self).wf(),
            old(self).orderly() ==> final(self).orderly(),
            write_step(
                old(self),
                final(self),
                old(outbox)@,
                final(outbox)@,
                handle,
                bytes,
                &outcome,
            ),
    {
        let length: usize = bytes.len();
        match self.sessions.get_mut(handle) {
            Some(session) => {
                let close_started = session.life.stage.close_started;
                match session.input.enqueue_write(bytes, close_started) {
                    Ok(()) => {
                        if session.life.stage.active {
                            let mut steps: Vec<Follow> = Vec::new();
                            steps.push(Follow::EnsureWrite);
                            assert(steps@ =~= seq![Follow::EnsureWrite]);
                            WindowsOutcome {
                                work: WindowsWork::Follow { handle, steps },
                                reply: WindowsReply::Nothing,
                            }
                        } else {
                            WindowsOutcome { work: WindowsWork::Done, reply: WindowsReply::Nothing }
                        }
                    },
                    Err(_rejected) => {
                        session.input.admission.release(length, 1);
                        let failure: OperationError = match session.life.faults.input {
                            Some(earlier) => earlier,
                            None => error::input_closed(),
                        };
                        session.life.notify_input_failure(handle, outbox, failure);
                        WindowsOutcome { work: WindowsWork::Done, reply: WindowsReply::Nothing }
                    },
                }
            },
            None => WindowsOutcome { work: WindowsWork::Done, reply: WindowsReply::Nothing },
        }
    }

    /// Ends a session's output.
    fn cancel_output(&mut self, handle: u64) -> (outcome: WindowsOutcome)
        requires
            old(self).wf(),
        ensures
            final(self).wf(),
            old(self).orderly() ==> final(self).orderly(),
            cancel_step(old(self), final(self), handle, &outcome),
    {
        match self.sessions.get_mut(handle) {
            Some(session) => {
                session.cancel_output();
                let mut steps: Vec<Follow> = Vec::new();
                steps.push(Follow::EnsureRead);
                assert(steps@ =~= seq![Follow::EnsureRead]);
                WindowsOutcome {
                    work: WindowsWork::Follow { handle, steps },
                    reply: WindowsReply::Done(Ok(())),
                }
            },
            None => WindowsOutcome {
                work: WindowsWork::Done,
                reply: WindowsReply::Done(
                    Err(OperationError::new(Operation::Output, FailureKind::WrongState, None)),
                ),
            },
        }
    }

    /// Checks a new size for a session's console.
    fn begin_resize(&self, handle: u64, size: [u32; 4]) -> (outcome: WindowsOutcome)
        ensures
            resize_step(self, handle, size, &outcome),
    {
        let session = match self.sessions.get(handle) {
            Some(session) => session,
            None => {
                return resize_refused(FailureKind::WrongState);
            },
        };
        if size[0] == 0 || size[0] > i16::MAX as u32 || size[1] == 0 || size[1] > i16::MAX as u32 {
            return resize_refused(FailureKind::InvalidArgument);
        }
        if !session.life.console.owned {
            return resize_refused(FailureKind::WrongState);
        }
        let coord = Coord { x: size[1] as i16, y: size[0] as i16 };
        WindowsOutcome {
            work: WindowsWork::Resize { handle, size, coord },
            reply: WindowsReply::Outside,
        }
    }

    /// Takes the platform's answer to a resize: a negative result is a failure.
    pub fn after_resize(&mut self, handle: u64, size: [u32; 4], result: i32) -> (outcome: Result<
        (),
        OperationError,
    >)
        requires
            old(self).wf(),
        ensures
            final(self).wf(),
            old(self).orderly() ==> final(self).orderly(),
            final(self).same_but(old(self), handle),
            outcome == if result >= 0 {
                Ok::<(), OperationError>(())
            } else {
                Err(
                    OperationError {
                        operation: Operation::Resize,
                        kind: FailureKind::NativeFailure,
                        native_code: Some(result),
                    },
                )
            },
            final(self).at(handle) == match old(self).at(handle) {
                Some(session) => Some(
                    if result >= 0 {
                        WindowsSession { size, ..session }
                    } else {
                        session
                    },
                ),
                None => None,
            },
    {
        if result < 0 {
            return Err(
                OperationError::new(Operation::Resize, FailureKind::NativeFailure, Some(result)),
            );
        }
        match self.sessions.get_mut(handle) {
            Some(session) => {
                session.size = size;
            },
            None => {},
        }
        Ok(())
    }

    /// Checks a signal for a session's processes. A child that has exited is not signalled.
    fn begin_signal(&self, handle: u64, signal: i32) -> (outcome: WindowsOutcome)
        ensures
            signal_step(self, handle, signal, &outcome),
    {
        let session = match self.sessions.get(handle) {
            Some(session) => session,
            None => {
                return signal_refused(FailureKind::WrongState);
            },
        };
        if signal <= 0 {
            return signal_refused(FailureKind::InvalidArgument);
        }
        if session.life.exit.status.is_some() {
            return WindowsOutcome {
                work: WindowsWork::Done,
                reply: WindowsReply::Signalled(Ok(false)),
            };
        }
        WindowsOutcome { work: WindowsWork::Terminate { handle }, reply: WindowsReply::Outside }
    }

    /// What the platform's answer to a signal means.
    pub fn after_terminate(result: Result<(), IoError>) -> (outcome: Result<bool, OperationError>)
        ensures
            outcome == match result {
                Ok(()) => Ok::<bool, OperationError>(true),
                Err(failure) => Err(
                    OperationError {
                        operation: Operation::Terminate,
                        kind: error::operation_kind_of(failure.kind),
                        native_code: failure.code,
                    },
                ),
            },
    {
        match result {
            Ok(()) => Ok(true),
            Err(failure) => Err(OperationError::from_io(Operation::Terminate, &failure)),
        }
    }

    /// Starts an explicit close.
    fn close_start(&mut self, handle: u64, waiter: u64, outbox: &mut Outbox) -> (outcome:
        WindowsOutcome)
        requires
            old(self).wf(),
            old(self).at(handle) matches Some(session) ==> session.close_waiters@.len()
                < usize::MAX,
        ensures
            final(self).wf(),
            old(self).orderly() ==> final(self).orderly(),
            close_step(
                old(self),
                final(self),
                old(outbox)@,
                final(outbox)@,
                handle,
                waiter,
                &outcome,
            ),
    {
        match self.sessions.get_mut(handle) {
            Some(session) => {
                let steps = session.begin_close(handle, outbox, waiter);
                WindowsOutcome {
                    work: WindowsWork::Follow { handle, steps },
                    reply: WindowsReply::Flag(true),
                }
            },
            None => WindowsOutcome { work: WindowsWork::Done, reply: WindowsReply::Flag(false) },
        }
    }

    /// Gives a session up.
    pub fn abandon(&mut self, handle: u64, outbox: &mut Outbox) -> (outcome: WindowsOutcome)
        requires
            old(self).wf(),
        ensures
            final(self).wf(),
            old(self).orderly() ==> final(self).orderly(),
            abandon_step(old(self), final(self), old(outbox)@, final(outbox)@, handle, &outcome),
    {
        match self.sessions.get_mut(handle) {
            Some(session) => {
                let steps = session.abandon(handle, outbox);
                WindowsOutcome {
                    work: WindowsWork::Follow { handle, steps },
                    reply: WindowsReply::Nothing,
                }
            },
            None => WindowsOutcome { work: WindowsWork::Done, reply: WindowsReply::Nothing },
        }
    }

    /// Takes a command.
    pub fn process(&mut self, command: WindowsCommand, outbox: &mut Outbox) -> (outcome:
        WindowsOutcome)
        requires
            old(self).wf(),
            command matches WindowsCommand::Write { handle, bytes } ==> (old(self).at(
                handle,
            ) matches Some(session) ==> session.input.bytes + buffer::bytes_of(bytes).len()
                <= usize::MAX && session.input.entries < usize::MAX),
            command matches WindowsCommand::CloseStart { handle, waiter } ==> (old(self).at(
                handle,
            ) matches Some(session) ==> session.close_waiters@.len() < usize::MAX),
        ensures
            final(self).wf(),
            old(self).orderly() ==> final(self).orderly(),
            process_step(
                old(self),
                final(self),
                old(outbox)@,
                final(outbox)@,
                command,
                &outcome,
            ),
    {
        match command {
            WindowsCommand::Activate { handle } => self.activate(handle, outbox),
            WindowsCommand::Write { handle, bytes } => self.write(handle, bytes, outbox),
            WindowsCommand::CancelOutput { handle } => self.cancel_output(handle),
            WindowsCommand::Size { handle } => {
                let result: Result<[u32; 4], OperationError> = match self.sessions.get(handle) {
                    Some(session) => Ok(session.size),
                    None => Err(
                        OperationError::new(Operation::Metadata, FailureKind::WrongState, None),
                    ),
                };
                WindowsOutcome { work: WindowsWork::Done, reply: WindowsReply::Size(result) }
            },
            WindowsCommand::ProcessId { handle } => {
                let result: Result<i64, OperationError> = match self.sessions.get(handle) {
                    Some(session) => Ok(session.pid as i64),
                    None => Err(
                        OperationError::new(Operation::Metadata, FailureKind::WrongState, None),
                    ),
                };
                WindowsOutcome { work: WindowsWork::Done, reply: WindowsReply::ProcessId(result) }
            },
            WindowsCommand::Resize { handle, size } => self.begin_resize(handle, size),
            WindowsCommand::Signal { handle, signal } => self.begin_signal(handle, signal),
            WindowsCommand::CloseStart { handle, waiter } => self.close_start(
                handle,
                waiter,
                outbox,
            ),
            WindowsCommand::Abandon { handle } => self.abandon(handle, outbox),
            WindowsCommand::Shutdown => WindowsOutcome {
                work: WindowsWork::Stop,
                reply: WindowsReply::Nothing,
            },
        }
    }
}

/// A refused resize.
fn resize_refused(kind: FailureKind) -> (outcome: WindowsOutcome)
    ensures
        outcome.work is Done,
        outcome.reply == WindowsReply::Done(
            Err(OperationError { operation: Operation::Resize, kind, native_code: None }),
        ),
{
    WindowsOutcome {
        work: WindowsWork::Done,
        reply: WindowsReply::Done(Err(OperationError::new(Operation::Resize, kind, None))),
    }
}

/// A refused signal.
fn signal_refused(kind: FailureKind) -> (outcome: WindowsOutcome)
    ensures
        outcome.work is Done,
        outcome.reply == WindowsReply::Signalled(
            Err(OperationError { operation: Operation::Terminate, kind, native_code: None }),
        ),
{
    WindowsOutcome {
        work: WindowsWork::Done,
        reply: WindowsReply::Signalled(
            Err(OperationError::new(Operation::Terminate, kind, None)),
        ),
    }
}

/// What is to be done for a session that was activated.
pub open spec fn activate_follow() -> Seq<Follow> {
    seq![Follow::EnsureRead, Follow::EnsureWrite, Follow::Refresh]
}

/// What activating a session does.
pub open spec fn activate_step(
    before: &WindowsReactor,
    after: &WindowsReactor,
    box_before: OutboxModel,
    box_after: OutboxModel,
    handle: u64,
    outcome: &WindowsOutcome,
) -> bool {
    &&& after.same_but(before, handle)
    &&& match (before.at(handle), after.at(handle)) {
        (Some(old_session), Some(new_session)) => {
            &&& outcome.reply matches WindowsReply::Activated(result)
            &&& windows_session::activated(
                &old_session,
                &new_session,
                box_before,
                box_after,
                handle,
                result,
            )
            &&& if result is Ok {
                follows(outcome, handle, activate_follow())
            } else {
                outcome.work is Done
            }
        },
        (None, None) => {
            &&& outcome.work is Done
            &&& box_after == box_before
            &&& outcome.reply matches WindowsReply::Activated(Err(error)) && error.is_simple(
                ErrorKind::NotFound,
                "stale session"@,
            )
        },
        _ => false,
    }
}

/// What a write does. One for a session that is gone is dropped.
pub open spec fn write_step(
    before: &WindowsReactor,
    after: &WindowsReactor,
    box_before: OutboxModel,
    box_after: OutboxModel,
    handle: u64,
    bytes: Bytes,
    outcome: &WindowsOutcome,
) -> bool {
    &&& after.same_but(before, handle)
    &&& outcome.reply is Nothing
    &&& match (before.at(handle), after.at(handle)) {
        (Some(old_session), Some(new_session)) => {
            &&& write_taken(&old_session, &new_session, box_before, box_after, handle, bytes)
            &&& if old_session.life.stage.active && !old_session.life.stage.close_started
                && !old_session.input.failed && buffer::bytes_of(bytes).len() > 0 {
                follows(outcome, handle, seq![Follow::EnsureWrite])
            } else {
                outcome.work is Done
            }
        },
        (None, None) => outcome.work is Done && box_after == box_before,
        _ => false,
    }
}

/// What the end of a session's output does.
pub open spec fn cancel_step(
    before: &WindowsReactor,
    after: &WindowsReactor,
    handle: u64,
    outcome: &WindowsOutcome,
) -> bool {
    &&& after.same_but(before, handle)
    &&& match (before.at(handle), after.at(handle)) {
        (Some(old_session), Some(new_session)) => {
            &&& windows_session::output_cancelled(&old_session, &new_session)
            &&& outcome.reply == WindowsReply::Done(Ok(()))
            &&& follows(outcome, handle, seq![Follow::EnsureRead])
        },
        (None, None) => outcome.work is Done && outcome.reply == WindowsReply::Done(
            Err(wrong_state(Operation::Output)),
        ),
        _ => false,
    }
}

/// What a resize comes to.
pub open spec fn resize_step(
    reactor: &WindowsReactor,
    handle: u64,
    size: [u32; 4],
    outcome: &WindowsOutcome,
) -> bool {
    match reactor.at(handle) {
        Some(session) => if !resizable(size) {
            outcome.work is Done && outcome.reply == WindowsReply::Done(
                Err(bad_argument(Operation::Resize)),
            )
        } else if !session.life.console.owned {
            outcome.work is Done && outcome.reply == WindowsReply::Done(
                Err(wrong_state(Operation::Resize)),
            )
        } else {
            &&& outcome.reply is Outside
            &&& outcome.work matches WindowsWork::Resize { handle: target, size: asked, coord }
            &&& target == handle
            &&& asked == size
            &&& coord.x == size[1]
            &&& coord.y == size[0]
        },
        None => outcome.work is Done && outcome.reply == WindowsReply::Done(
            Err(wrong_state(Operation::Resize)),
        ),
    }
}

/// What a signal comes to.
pub open spec fn signal_step(
    reactor: &WindowsReactor,
    handle: u64,
    signal: i32,
    outcome: &WindowsOutcome,
) -> bool {
    match reactor.at(handle) {
        Some(session) => if signal <= 0 {
            outcome.work is Done && outcome.reply == WindowsReply::Signalled(
                Err(bad_argument(Operation::Terminate)),
            )
        } else if session.life.exit.status is Some {
            outcome.work is Done && outcome.reply == WindowsReply::Signalled(Ok(false))
        } else {
            &&& outcome.reply is Outside
            &&& outcome.work matches WindowsWork::Terminate { handle: target } && target == handle
        },
        None => outcome.work is Done && outcome.reply == WindowsReply::Signalled(
            Err(wrong_state(Operation::Terminate)),
        ),
    }
}

/// What an explicit close does.
pub open spec fn close_step(
    before: &WindowsReactor,
    after: &WindowsReactor,
    box_before: OutboxModel,
    box_after: OutboxModel,
    handle: u64,
    waiter: u64,
    outcome: &WindowsOutcome,
) -> bool {
    &&& after.same_but(before, handle)
    &&& match (before.at(handle), after.at(handle)) {
        (Some(old_session), Some(new_session)) => {
            &&& windows_session::closing(
                &old_session,
                &new_session,
                box_before,
                box_after,
                handle,
                waiter,
            )
            &&& outcome.reply == WindowsReply::Flag(true)
            &&& follows(
                outcome,
                handle,
                windows_session::close_follow(!old_session.life.stage.close_started),
            )
        },
        (None, None) => outcome.work is Done && outcome.reply == WindowsReply::Flag(false)
            && box_after == box_before,
        _ => false,
    }
}

/// What giving a session up does.
pub open spec fn abandon_step(
    before: &WindowsReactor,
    after: &WindowsReactor,
    box_before: OutboxModel,
    box_after: OutboxModel,
    handle: u64,
    outcome: &WindowsOutcome,
) -> bool {
    &&& after.same_but(before, handle)
    &&& outcome.reply is Nothing
    &&& match (before.at(handle), after.at(handle)) {
        (Some(old_session), Some(new_session)) => {
            &&& windows_session::given_up(
                &old_session,
                &new_session,
                box_before,
                box_after,
                handle,
            )
            &&& follows(
                outcome,
                handle,
                windows_session::close_follow(!old_session.life.stage.close_started),
            )
        },
        (None, None) => outcome.work is Done && box_after == box_before,
        _ => false,
    }
}

/// What a command does.
pub open spec fn process_step(
    before: &WindowsReactor,
    after: &WindowsReactor,
    box_before: OutboxModel,
    box_after: OutboxModel,
    command: WindowsCommand,
    outcome: &WindowsOutcome,
) -> bool {
    match command {
        WindowsCommand::Activate { handle } => activate_step(
            before,
            after,
            box_before,
            box_after,
            handle,
            outcome,
        ),
        WindowsCommand::Write { handle, bytes } => write_step(
            before,
            after,
            box_before,
            box_after,
            handle,
            bytes,
            outcome,
        ),
        WindowsCommand::CancelOutput { handle } => cancel_step(before, after, handle, outcome)
            && box_after == box_before,
        WindowsCommand::Size { handle } => {
            &&& after.same(before)
            &&& box_after == box_before
            &&& outcome.work is Done
            &&& outcome.reply == WindowsReply::Size(
                match before.at(handle) {
                    Some(session) => Ok(session.size),
                    None => Err(wrong_state(Operation::Metadata)),
                },
            )
        },
        WindowsCommand::ProcessId { handle } => {
            &&& after.same(before)
            &&& box_after == box_before
            &&& outcome.work is Done
            &&& outcome.reply == WindowsReply::ProcessId(
                match before.at(handle) {
                    Some(session) => Ok(session.pid as i64),
                    None => Err(wrong_state(Operation::Metadata)),
                },
            )
        },
        WindowsCommand::Resize { handle, size } => after.same(before) && box_after == box_before
            && resize_step(before, handle, size, outcome),
        WindowsCommand::Signal { handle, signal } => after.same(before) && box_after == box_before
            && signal_step(before, handle, signal, outcome),
        WindowsCommand::CloseStart { handle, waiter } => close_step(
            before,
            after,
            box_before,
            box_after,
            handle,
            waiter,
            outcome,
        ),
        WindowsCommand::Abandon { handle } => abandon_step(
            before,
            after,
            box_before,
            box_after,
            handle,
            outcome,
        ),
        WindowsCommand::Shutdown => {
            &&& after.same(before)
            &&& box_after == box_before
            &&& outcome.work is Stop
            &&& outcome.reply is Nothing
        },
    }
}

/// What setting a new session up comes to.
#[derive(Debug)]
pub enum AddStep {
    /// The session was dropped. Its processes are to be killed and its console closed as the
    /// step says.
    Refused { failure: IoError, console: ConsoleStep },
    /// Its child has exited already.
    Exited,
    /// Its child is to be watched.
    Watch,
}

/// Which transfer ended, and how.
#[derive(Debug)]
pub enum Transfer {
    Read(ReadDone),
    Write(Result<usize, IoError>),
    Other,
}

/// The end of a read as the platform reports it: a pipe that is broken or was cancelled is
/// the end of the output, and so is a read of nothing.
pub open spec fn read_outcome_of(error: Option<IoError>, data: Vec<u8>) -> ReadDone {
    match error {
        Some(failure) => if failure.code == Some(ERROR_BROKEN_PIPE) || failure.code == Some(
            ERROR_OPERATION_ABORTED,
        ) {
            ReadDone::End
        } else {
            ReadDone::Failed(failure)
        },
        None => if data@.len() == 0 {
            ReadDone::End
        } else {
            ReadDone::Data(data)
        },
    }
}

/// What a read came to.
pub fn read_outcome(error: Option<IoError>, data: Vec<u8>) -> (done: ReadDone)
    ensures
        done == read_outcome_of(error, data),
{
    match error {
        Some(failure) => {
            let over = match failure.raw_os_error() {
                Some(code) => code == ERROR_BROKEN_PIPE || code == ERROR_OPERATION_ABORTED,
                None => false,
            };
            if over {
                ReadDone::End
            } else {
                ReadDone::Failed(failure)
            }
        },
        None => if data.len() == 0 {
            ReadDone::End
        } else {
            ReadDone::Data(data)
        },
    }
}

/// A session whose console is closed.
pub open spec fn with_console_closed(session: WindowsSession, permit: bool) -> WindowsSession {
    WindowsSession {
        life: Life {
            console: Console { permit, close_done: true, ..session.life.console },
            ..session.life
        },
        ..session
    }
}

/// A session whose output no longer waits for room among the notices.
pub open spec fn unblocked(session: WindowsSession) -> WindowsSession {
    WindowsSession {
        life: Life { flight: Flight { blocked: false, ..session.life.flight }, ..session.life },
        ..session
    }
}

/// What a transfer that ended does.
pub open spec fn transfer_step(
    before: &WindowsReactor,
    after: &WindowsReactor,
    box_before: OutboxModel,
    box_after: OutboxModel,
    handle: u64,
    transfer: Transfer,
    now: u64,
    work: &WindowsWork,
) -> bool {
    &&& after.same_but(before, handle)
    &&& match (before.at(handle), after.at(handle)) {
        (Some(old_session), Some(new_session)) => {
            &&& work matches WindowsWork::Follow { handle: session, steps }
            &&& session == handle
            &&& match transfer {
                Transfer::Read(done) => if old_session.life.flight.reading is Some {
                    windows_session::read_ended(
                        &old_session,
                        &new_session,
                        box_before,
                        box_after,
                        handle,
                        done,
                        now,
                        steps@,
                    )
                } else {
                    windows_session::strayed(
                        &old_session,
                        &new_session,
                        box_before,
                        box_after,
                        handle,
                        steps@,
                    )
                },
                Transfer::Write(done) => if old_session.life.flight.writing {
                    windows_session::write_ended(
                        &old_session,
                        &new_session,
                        box_before,
                        box_after,
                        handle,
                        done,
                        steps@,
                    )
                } else {
                    windows_session::strayed(
                        &old_session,
                        &new_session,
                        box_before,
                        box_after,
                        handle,
                        steps@,
                    )
                },
                Transfer::Other => windows_session::strayed(
                    &old_session,
                    &new_session,
                    box_before,
                    box_after,
                    handle,
                    steps@,
                ),
            }
        },
        (None, None) => *work is Done && box_after == box_before,
        _ => false,
    }
}

impl WindowsReactor {
    /// Takes the outcome of joining a new session's pipes to the port, and whether its child
    /// has exited.
    pub fn after_associate(
        &mut self,
        handle: u64,
        associated: Result<(), IoError>,
        exited: bool,
    ) -> (step: AddStep)
        requires
            old(self).wf(),
        ensures
            final(self).wf(),
            old(self).orderly() ==> final(self).orderly(),
            final(self).same_but(old(self), handle),
            match associated {
                Err(failure) => {
                    &&& step matches AddStep::Refused { failure: told, console }
                    &&& told == failure
                    &&& console == forced_step(old(self).at(handle))
                    &&& final(self).at(handle) is None
                },
                Ok(()) => {
                    &&& final(self).at(handle) == old(self).at(handle)
                    &&& if exited {
                        step is Exited
                    } else {
                        step is Watch
                    }
                },
            },
    {
        match associated {
            Err(failure) => {
                let console = self.drop_session(handle);
                AddStep::Refused { failure, console }
            },
            Ok(()) => if exited {
                AddStep::Exited
            } else {
                AddStep::Watch
            },
        }
    }

    /// Takes a control.
    pub fn control(&mut self, control: Control, outbox: &mut Outbox) -> (outcome: WindowsOutcome)
        requires
            old(self).wf(),
        ensures
            final(self).wf(),
            old(self).orderly() ==> final(self).orderly(),
            control_step(old(self), final(self), old(outbox)@, final(outbox)@, control, &outcome),
    {
        match control {
            Control::Credit { handle, bytes } => {
                match self.sessions.get_mut(handle) {
                    Some(session) => {
                        if session.credit(bytes) {
                            let mut steps: Vec<Follow> = Vec::new();
                            steps.push(Follow::EnsureRead);
                            steps.push(Follow::Refresh);
                            assert(steps@ =~= seq![Follow::EnsureRead, Follow::Refresh]);
                            return WindowsOutcome {
                                work: WindowsWork::Follow { handle, steps },
                                reply: WindowsReply::Nothing,
                            };
                        }
                    },
                    None => {},
                }
                WindowsOutcome { work: WindowsWork::Done, reply: WindowsReply::Nothing }
            },
            Control::Abandon { handle } => self.abandon(handle, outbox),
        }
    }

    /// Takes the end of a console's close, with its permit where that came back.
    pub fn console_closed(&mut self, handle: u64, permit: bool) -> (work: WindowsWork)
        requires
            old(self).wf(),
        ensures
            final(self).wf(),
            old(self).orderly() ==> final(self).orderly(),
            final(self).same_but(old(self), handle),
            match old(self).at(handle) {
                Some(session) => {
                    &&& final(self).at(handle) == Some(with_console_closed(session, permit))
                    &&& work matches WindowsWork::Follow { handle: target, steps }
                    &&& target == handle
                    &&& steps@ == seq![Follow::EnsureRead, Follow::Refresh]
                },
                None => work is Done && final(self).at(handle) is None,
            },
    {
        match self.sessions.get_mut(handle) {
            Some(session) => {
                session.console_closed(permit);
                let mut steps: Vec<Follow> = Vec::new();
                steps.push(Follow::EnsureRead);
                steps.push(Follow::Refresh);
                assert(steps@ =~= seq![Follow::EnsureRead, Follow::Refresh]);
                WindowsWork::Follow { handle, steps }
            },
            None => WindowsWork::Done,
        }
    }

    /// Takes the closes that ended, each with its permit.
    pub fn collect_completed_closes(&mut self, completed: &Vec<u64>)
        requires
            old(self).wf(),
        ensures
            final(self).wf(),
            old(self).orderly() ==> final(self).orderly(),
            forall|handle: u64| #[trigger]
                final(self).at(handle) == match old(self).at(handle) {
                    Some(session) => Some(
                        if completed@.contains(handle) {
                            with_console_closed(session, true)
                        } else {
                            session
                        },
                    ),
                    None => None,
                },
    {
        for index in 0..completed.len()
            invariant
                self.wf(),
                forall|handle: u64| #[trigger]
                    self.at(handle) == match old(self).at(handle) {
                        Some(session) => Some(
                            if completed@.take(index as int).contains(handle) {
                                with_console_closed(session, true)
                            } else {
                                session
                            },
                        ),
                        None => None,
                    },
        {
            let handle: u64 = completed[index];
            let ghost before = *self;
            match self.sessions.get_mut(handle) {
                Some(session) => {
                    session.console_closed(true);
                },
                None => {},
            }
            proof {
                let earlier = completed@.take(index as int);
                let later = completed@.take(index + 1);
                assert(later == earlier.push(handle));
                assert forall|other: u64| later.contains(other) == (earlier.contains(other) || other
                    == handle) by {
                    if earlier.contains(other) {
                        let i = choose|i: int| 0 <= i < earlier.len() && earlier[i] == other;
                        assert(later[i] == other);
                    }
                    assert(later[index as int] == handle);
                    if later.contains(other) && other != handle {
                        let i = choose|i: int| 0 <= i < later.len() && later[i] == other;
                        assert(earlier[i] == other);
                    }
                }
                assert forall|other: u64| #[trigger]
                    self.at(other) == match old(self).at(other) {
                        Some(session) => Some(
                            if later.contains(other) {
                                with_console_closed(session, true)
                            } else {
                                session
                            },
                        ),
                        None => None,
                    } by {
                    assert(before.at(other) == before.sessions.resolve(other));
                    assert(later.contains(other) == (earlier.contains(other) || other == handle));
                }
            }
        }
        assert(completed@.take(completed@.len() as int) =~= completed@);
        proof {
            assert forall|handle: u64|
                (#[trigger] self.sessions.resolve(handle)) is Some && old(
                    self).orderly() implies !self.sessions.resolve(
                handle,
            ).unwrap().life.stage.close_notified by {
                assert(self.at(handle) == self.sessions.resolve(handle));
                assert(old(self).at(handle) == old(self).sessions.resolve(handle));
            }
        }
    }

    /// Takes word of room among the notices.
    pub fn unblock(&mut self)
        requires
            old(self).wf(),
        ensures
            final(self).wf(),
            old(self).orderly() ==> final(self).orderly(),
            forall|handle: u64| #[trigger]
                final(self).at(handle) == match old(self).at(handle) {
                    Some(session) => Some(unblocked(session)),
                    None => None,
                },
    {
        let handles = self.sessions.handles();
        let ghost items = registry::occupants(self.sessions.slots@);
        for index in 0..handles.len()
            invariant
                self.wf(),
                items == registry::occupants(old(self).sessions.slots@),
                handles@ == items.map_values(|item: (u64, WindowsSession)| item.0),
                forall|handle: u64| #[trigger]
                    self.at(handle) == match old(self).at(handle) {
                        Some(session) => Some(
                            if handles@.take(index as int).contains(handle) {
                                unblocked(session)
                            } else {
                                session
                            },
                        ),
                        None => None,
                    },
        {
            let handle: u64 = handles[index];
            let ghost before = *self;
            match self.sessions.get_mut(handle) {
                Some(session) => {
                    session.life.flight.blocked = false;
                },
                None => {},
            }
            proof {
                let earlier = handles@.take(index as int);
                let later = handles@.take(index + 1);
                assert(later == earlier.push(handle));
                assert forall|other: u64| later.contains(other) == (earlier.contains(other) || other
                    == handle) by {
                    if earlier.contains(other) {
                        let i = choose|i: int| 0 <= i < earlier.len() && earlier[i] == other;
                        assert(later[i] == other);
                    }
                    assert(later[index as int] == handle);
                    if later.contains(other) && other != handle {
                        let i = choose|i: int| 0 <= i < later.len() && later[i] == other;
                        assert(earlier[i] == other);
                    }
                }
                assert forall|other: u64| #[trigger]
                    self.at(other) == match old(self).at(other) {
                        Some(session) => Some(
                            if later.contains(other) {
                                unblocked(session)
                            } else {
                                session
                            },
                        ),
                        None => None,
                    } by {
                    assert(before.at(other) == before.sessions.resolve(other));
                    assert(later.contains(other) == (earlier.contains(other) || other == handle));
                }
            }
        }
        proof {
            assert(handles@.take(handles@.len() as int) =~= handles@);
            assert forall|handle: u64| old(self).at(handle) is Some implies #[trigger] handles@.contains(
                handle,
            ) by {
                registry::live_is_occupant(old(self).sessions.slots@, handle);
                let i = choose|i: int|
                    0 <= i < items.len() && #[trigger] items[i] == (
                        handle,
                        registry::resolve(old(self).sessions.slots@, handle).unwrap(),
                    );
                assert(handles@[i] == handle);
            }
        }
        proof {
            assert forall|handle: u64|
                (#[trigger] self.sessions.resolve(handle)) is Some && old(
                    self).orderly() implies !self.sessions.resolve(
                handle,
            ).unwrap().life.stage.close_notified by {
                assert(self.at(handle) == self.sessions.resolve(handle));
                assert(old(self).at(handle) == old(self).sessions.resolve(handle));
            }
        }
    }

    /// Takes the exit of a child, as `process_exited` of its session does.
    pub fn process_exited(
        &mut self,
        handle: u64,
        exited: Option<Result<u32, IoError>>,
        outbox: &mut Outbox,
    ) -> (work: WindowsWork)
        requires
            old(self).wf(),
        ensures
            final(self).wf(),
            old(self).orderly() ==> final(self).orderly(),
            final(self).same_but(old(self), handle),
            match (old(self).at(handle), final(self).at(handle)) {
                (Some(before), Some(after)) => {
                    &&& work matches WindowsWork::Follow { handle: target, steps }
                    &&& target == handle
                    &&& windows_session::exit_seen(
                        &before,
                        &after,
                        old(outbox)@,
                        final(outbox)@,
                        handle,
                        exited,
                        steps@,
                    )
                },
                (None, None) => work is Done && final(outbox)@ == old(outbox)@,
                _ => false,
            },
    {
        match self.sessions.get_mut(handle) {
            Some(session) => {
                let steps = session.process_exited(handle, outbox, exited);
                WindowsWork::Follow { handle, steps }
            },
            None => WindowsWork::Done,
        }
    }

    /// Takes a transfer that ended. One that is not in flight is a loss of the session.
    pub fn transfer_completed(
        &mut self,
        handle: u64,
        transfer: Transfer,
        outbox: &mut Outbox,
        now: u64,
    ) -> (work: WindowsWork)
        requires
            old(self).wf(),
            now <= MAX_NOW,
            (transfer matches Transfer::Read(ReadDone::Data(data)) && old(self).at(handle)
                is Some && old(self).at(handle).unwrap().life.flight.reading is Some) ==> 0
                < transfer->Read_0->Data_0@.len() <= old(self).at(
                handle,
            ).unwrap().life.flight.reading.unwrap(),
            (transfer matches Transfer::Write(Ok(amount)) && amount > 0 && old(self).at(handle)
                is Some && old(self).at(handle).unwrap().life.flight.writing && !old(self).at(
                handle,
            ).unwrap().input.failed) ==> (old(self).at(handle).unwrap().input.queue@.len() > 0
                && transfer->Write_0->Ok_0 <= old(self).at(
                handle,
            ).unwrap().input.queue@[0].rest().len()),
        ensures
            final(self).wf(),
            old(self).orderly() ==> final(self).orderly(),
            transfer_step(
                old(self),
                final(self),
                old(outbox)@,
                final(outbox)@,
                handle,
                transfer,
                now,
                &work,
            ),
    {
        match self.sessions.get_mut(handle) {
            Some(session) => {
                let steps = match transfer {
                    Transfer::Read(done) => if session.life.flight.reading.is_some() {
                        session.read_completed(handle, outbox, done, now)
                    } else {
                        session.stray_completion(handle, outbox)
                    },
                    Transfer::Write(done) => if session.life.flight.writing {
                        session.write_completed(handle, outbox, done)
                    } else {
                        session.stray_completion(handle, outbox)
                    },
                    Transfer::Other => session.stray_completion(handle, outbox),
                };
                WindowsWork::Follow { handle, steps }
            },
            None => WindowsWork::Done,
        }
    }

    /// Refreshes a session's output before the reactor waits.
    pub fn refresh_due(&mut self, handle: u64, outbox: &mut Outbox, now: u64) -> (work: WindowsWork)
        requires
            old(self).wf(),
        ensures
            final(self).wf(),
            old(self).orderly() ==> final(self).orderly(),
            final(self).same_but(old(self), handle),
            match (old(self).at(handle), final(self).at(handle)) {
                (Some(before), Some(after)) => {
                    &&& windows_session::refreshed(
                        &before,
                        &after,
                        old(outbox)@,
                        final(outbox)@,
                        handle,
                        now,
                    )
                    &&& work matches WindowsWork::Follow { handle: target, steps }
                    &&& target == handle
                    &&& steps@ == windows_session::if_exited(after.life, seq![Follow::EnsureRead])
                },
                (None, None) => work is Done && final(outbox)@ == old(outbox)@,
                _ => false,
            },
    {
        match self.sessions.get_mut(handle) {
            Some(session) => {
                session.refresh_output(handle, outbox, now);
                let mut steps: Vec<Follow> = Vec::new();
                steps.push(Follow::EnsureRead);
                if session.life.exit.status.is_some() {
                    steps.push(Follow::CloseConsole);
                }
                assert(steps@ =~= windows_session::if_exited(
                    session.life,
                    seq![Follow::EnsureRead],
                ));
                WindowsWork::Follow { handle, steps }
            },
            None => WindowsWork::Done,
        }
    }
}

/// What closing a console comes to, whatever its child does.
pub open spec fn forced_step(session: Option<WindowsSession>) -> ConsoleStep {
    match session {
        Some(session) => if session.life.console.close_started || !session.life.console.owned {
            ConsoleStep::Nothing
        } else if session.life.console.permit {
            ConsoleStep::Submit
        } else {
            ConsoleStep::CloseNow
        },
        None => ConsoleStep::Nothing,
    }
}

/// What a control does.
pub open spec fn control_step(
    before: &WindowsReactor,
    after: &WindowsReactor,
    box_before: OutboxModel,
    box_after: OutboxModel,
    control: Control,
    outcome: &WindowsOutcome,
) -> bool {
    match control {
        Control::Credit { handle, bytes } => {
            &&& after.same_but(before, handle)
            &&& box_after == box_before
            &&& outcome.reply is Nothing
            &&& match (before.at(handle), after.at(handle)) {
                (Some(old_session), Some(new_session)) => {
                    &&& windows_session::credited(&old_session, &new_session, bytes)
                    &&& if bytes <= old_session.output.outstanding {
                        follows(outcome, handle, seq![Follow::EnsureRead, Follow::Refresh])
                    } else {
                        outcome.work is Done
                    }
                },
                (None, None) => outcome.work is Done,
                _ => false,
            }
        },
        Control::Abandon { handle } => abandon_step(
            before,
            after,
            box_before,
            box_after,
            handle,
            outcome,
        ),
    }
}

/// A session that is over: what those who wait for it are told.
#[derive(Debug)]
pub struct ReapedSession {
    pub handle: u64,
    pub result: CloseResult,
    pub waiters: Vec<u64>,
    /// The notices that it could still have sent.
    pub reservations: usize,
}

/// What is told of a session that is over.
pub ghost struct ReapedModel {
    pub handle: u64,
    pub result: CloseResult,
    pub waiters: Seq<u64>,
    pub reservations: usize,
}

impl View for ReapedSession {
    type V = ReapedModel;

    open spec fn view(&self) -> ReapedModel {
        ReapedModel {
            handle: self.handle,
            result: self.result,
            waiters: self.waiters@,
            reservations: self.reservations,
        }
    }
}

/// Whether a closed session is over.
pub open spec fn reapable(session: WindowsSession) -> bool {
    &&& !session.life.stage.abandoned
    &&& session.life.stage.close_started
    &&& windows_session::is_terminal(&session)
}

/// How a session's cleanup ended.
pub open spec fn result_of(session: WindowsSession) -> CloseResult {
    CloseResult {
        input_failure: session.life.faults.input,
        output_failure: session.life.faults.output,
        cleanup_failure: session.life.faults.cleanup,
    }
}

/// The notices after those of the sessions that are over, in order.
pub open spec fn reaped_box(
    items: Seq<(u64, WindowsSession)>,
    outbox: OutboxModel,
) -> OutboxModel
    decreases items.len(),
{
    if items.len() == 0 {
        outbox
    } else {
        let before = reaped_box(items.drop_last(), outbox);
        let (handle, session) = items.last();
        if reapable(session) && !session.life.stage.close_notified {
            windows_session::told(
                Life {
                    stage: Stage { close_notified: true, ..session.life.stage },
                    ..session.life
                },
                before,
                Notice::Closed { handle, result: result_of(session) },
            ).1
        } else {
            before
        }
    }
}

/// The sessions that are over, in order. Those who wait are told once.
pub open spec fn reaped_of(items: Seq<(u64, WindowsSession)>) -> Seq<ReapedModel>
    decreases items.len(),
{
    if items.len() == 0 {
        Seq::empty()
    } else {
        let before = reaped_of(items.drop_last());
        let (handle, session) = items.last();
        if reapable(session) {
            before.push(
                ReapedModel {
                    handle,
                    result: result_of(session),
                    waiters: if session.life.stage.close_notified {
                        Seq::empty()
                    } else {
                        session.close_waiters@
                    },
                    reservations: if session.life.stage.close_notified
                        || session.life.reservations == 0 {
                        session.life.reservations
                    } else {
                        (session.life.reservations - 1) as usize
                    },
                },
            )
        } else {
            before
        }
    }
}

/// Whether a session's activation did not come in time, or it was given up without a close.
pub open spec fn expired(session: WindowsSession, now: u64) -> bool {
    let stage = session.life.stage;
    ||| !stage.active && !stage.abandoned && (stage.activation_deadline matches Some(deadline)
        && deadline <= now)
    ||| stage.abandoned && !stage.close_started
}

/// The next deadline of a session: that of output which can be handed out, and that of its
/// activation.
pub open spec fn deadline_of(session: WindowsSession) -> Option<u64> {
    let output = if !session.life.flight.blocked && session.life.flight.lease_bytes == 0
        && session.output.bytes > 0 {
        session.output.deadline
    } else {
        None
    };
    let activation = if !session.life.stage.active && !session.life.stage.abandoned {
        session.life.stage.activation_deadline
    } else {
        None
    };
    reactor::earlier_of(output, activation)
}

/// The next deadline of all sessions.
pub open spec fn earliest_deadline(slots: Seq<registry::Slot<WindowsSession>>) -> Option<u64>
    decreases slots.len(),
{
    if slots.len() == 0 {
        None
    } else {
        let rest = earliest_deadline(slots.drop_last());
        match slots.last().value {
            Some(session) => reactor::earlier_of(rest, deadline_of(session)),
            None => rest,
        }
    }
}

/// Whether a console's close is under way.
pub open spec fn is_closing(session: WindowsSession) -> bool {
    session.life.console.close_started && !session.life.console.close_done
}

/// Whether the console of some session closes.
pub open spec fn any_closing(slots: Seq<registry::Slot<WindowsSession>>) -> bool {
    exists|i: int|
        0 <= i < slots.len() && (#[trigger] slots[i]).value is Some && is_closing(
            slots[i].value.unwrap(),
        )
}

/// How long the reactor waits for the port: until the next deadline, in whole milliseconds
/// and at least one, but not longer than the poll interval while a console closes.
pub open spec fn wait_of(deadline: Option<u64>, polling: bool, now: u64) -> int {
    let cap = if polling {
        CLOSE_POLL as int
    } else {
        INFINITE as int
    };
    match deadline {
        None => cap,
        Some(deadline) => if deadline <= now {
            0
        } else {
            let millis = (deadline - now) / 1_000_000;
            let bounded = if millis < 1 {
                1
            } else if millis > INFINITE - 1 {
                INFINITE - 1
            } else {
                millis
            };
            if bounded < cap {
                bounded
            } else {
                cap
            }
        },
    }
}

/// The next deadline of a session.
fn session_deadline(session: &WindowsSession) -> (deadline: Option<u64>)
    ensures
        deadline == deadline_of(*session),
{
    let output: Option<u64> = windows_budget::output_notification_deadline(
        session.life.flight.blocked,
        session.life.flight.lease_bytes != 0,
        session.output.bytes == 0,
        session.output.deadline,
    );
    let activation: Option<u64> = if !session.life.stage.active && !session.life.stage.abandoned {
        session.life.stage.activation_deadline
    } else {
        None
    };
    reactor::earlier(output, activation)
}

impl WindowsReactor {
    /// Lets the closed sessions go that are over.
    pub fn reap_closed(&mut self, outbox: &mut Outbox) -> (reaped: Vec<ReapedSession>)
        requires
            old(self).wf(),
        ensures
            final(self).wf(),
            old(self).orderly() ==> final(self).orderly(),
            forall|handle: u64| #[trigger]
                final(self).at(handle) == match old(self).at(handle) {
                    Some(session) => if reapable(session) {
                        None
                    } else {
                        Some(session)
                    },
                    None => None,
                },
            final(outbox)@ == reaped_box(
                registry::occupants(old(self).sessions.slots@),
                old(outbox)@,
            ),
            reaped@.map_values(|one: ReapedSession| one@) == reaped_of(
                registry::occupants(old(self).sessions.slots@),
            ),
    {
        let handles = self.sessions.handles();
        let ghost items = registry::occupants(self.sessions.slots@);
        let mut reaped: Vec<ReapedSession> = Vec::new();
        proof {
            registry::occupants_are_live(self.sessions.slots@);
            assert(items.take(0) =~= Seq::empty());
            assert(reaped@.map_values(|one: ReapedSession| one@) =~= reaped_of(items.take(0)));
        }
        for index in 0..handles.len()
            invariant
                self.wf(),
                old(self).wf(),
                items == registry::occupants(old(self).sessions.slots@),
                handles@ == items.map_values(|item: (u64, WindowsSession)| item.0),
                forall|i: int|
                    0 <= i < items.len() ==> old(self).at((#[trigger] items[i]).0) == Some(
                        items[i].1,
                    ),
                forall|i: int|
                    0 <= i < items.len() ==> self.at((#[trigger] items[i]).0) == if i < index
                        && reapable(items[i].1) {
                        None
                    } else {
                        Some(items[i].1)
                    },
                forall|handle: u64|
                    old(self).at(handle) is None ==> #[trigger] self.at(handle) is None,
                outbox@ == reaped_box(items.take(index as int), old(outbox)@),
                reaped@.map_values(|one: ReapedSession| one@) == reaped_of(
                    items.take(index as int),
                ),
        {
            let handle: u64 = handles[index];
            let ghost before = *self;
            let ghost list = reaped@;
            proof {
                assert(handle == items[index as int].0);
                assert(items.take(index + 1).drop_last() =~= items.take(index as int));
                assert(items.take(index + 1).last() == items[index as int]);
                assert forall|i: int| 0 <= i < items.len() && i != index implies (
                #[trigger] items[i]).0 != handle by {
                    if i < index {
                        registry::occupants_are_distinct(old(self).sessions.slots@, i, index as int);
                    } else {
                        registry::occupants_are_distinct(old(self).sessions.slots@, index as int, i);
                    }
                }
                assert(self.sessions.resolve(handle) == Some(items[index as int].1));
            }
            let complete = match self.sessions.get(handle) {
                Some(session) => !session.life.stage.abandoned && session.life.stage.close_started
                    && session.terminal(),
                None => false,
            };
            if complete {
                if let Some(mut session) = self.sessions.remove(handle) {
                    let result = session.close_result();
                    let mut waiters: Vec<u64> = Vec::new();
                    if !session.life.stage.close_notified {
                        session.life.stage.close_notified = true;
                        waiters = session.close_waiters;
                        session.life.send_lifecycle_notice(
                            outbox,
                            Notice::Closed { handle, result },
                        );
                    }
                    let reservations: usize = session.life.reservations;
                    let one = ReapedSession { handle, result, waiters, reservations };
                    reaped.push(one);
                    assert(reaped@.map_values(|one: ReapedSession| one@) =~= list.map_values(
                        |one: ReapedSession| one@,
                    ).push(one@));
                    assert(items[index as int].1.life.stage.close_notified ==> one@.waiters
                        =~= Seq::empty());
                }
            }
            proof {
                assert forall|i: int| 0 <= i < items.len() implies self.at(
                    (#[trigger] items[i]).0,
                ) == if i < index + 1 && reapable(items[i].1) {
                    None
                } else {
                    Some(items[i].1)
                } by {
                    if i != index {
                        assert(items[i].0 != handle);
                        assert(self.sessions.resolve(items[i].0) == before.sessions.resolve(
                            items[i].0,
                        ));
                    }
                }
                assert forall|other: u64| old(self).at(other) is None implies #[trigger] self.at(
                    other,
                ) is None by {
                    assert(before.at(other) is None);
                    assert(self.sessions.resolve(other) is None);
                }
            }
        }
        proof {
            assert(items.take(items.len() as int) =~= items);
            assert forall|handle: u64| old(self).at(handle) is Some implies #[trigger] self.at(
                handle,
            ) == if reapable(old(self).at(handle).unwrap()) {
                None
            } else {
                old(self).at(handle)
            } by {
                registry::live_is_occupant(old(self).sessions.slots@, handle);
                let i = choose|i: int|
                    0 <= i < items.len() && #[trigger] items[i] == (
                        handle,
                        registry::resolve(old(self).sessions.slots@, handle).unwrap(),
                    );
                assert(self.at(items[i].0) == if reapable(items[i].1) {
                    None
                } else {
                    Some(items[i].1)
                });
            }
        }
        proof {
            assert forall|handle: u64|
                (#[trigger] self.sessions.resolve(handle)) is Some && old(
                    self).orderly() implies !self.sessions.resolve(
                handle,
            ).unwrap().life.stage.close_notified by {
                assert(self.at(handle) == self.sessions.resolve(handle));
                assert(old(self).at(handle) == old(self).sessions.resolve(handle));
            }
        }
        reaped
    }

    /// Gives a session up whose time is over.
    pub fn expire(&mut self, handle: u64, outbox: &mut Outbox, now: u64) -> (outcome: WindowsOutcome)
        requires
            old(self).wf(),
        ensures
            final(self).wf(),
            old(self).orderly() ==> final(self).orderly(),
            if old(self).at(handle) is Some && expired(old(self).at(handle).unwrap(), now) {
                abandon_step(
                    old(self),
                    final(self),
                    old(outbox)@,
                    final(outbox)@,
                    handle,
                    &outcome,
                )
            } else {
                &&& final(self).same(old(self))
                &&& final(outbox)@ == old(outbox)@
                &&& outcome.work is Done
                &&& outcome.reply is Nothing
            },
    {
        let over = match self.sessions.get(handle) {
            Some(session) => {
                let stage = session.life.stage;
                let late = match stage.activation_deadline {
                    Some(deadline) => deadline <= now,
                    None => false,
                };
                (!stage.active && !stage.abandoned && late) || (stage.abandoned
                    && !stage.close_started)
            },
            None => false,
        };
        if over {
            self.abandon(handle, outbox)
        } else {
            WindowsOutcome { work: WindowsWork::Done, reply: WindowsReply::Nothing }
        }
    }

    /// Lets a session go that was given up and is over. The result says how many notices it
    /// could still have sent, where it went.
    pub fn forget_abandoned(&mut self, handle: u64) -> (left: Option<usize>)
        requires
            old(self).wf(),
        ensures
            final(self).wf(),
            old(self).orderly() ==> final(self).orderly(),
            final(self).same_but(old(self), handle),
            match old(self).at(handle) {
                Some(session) => if session.life.stage.abandoned && windows_session::is_terminal(
                    &session,
                ) {
                    left == Some(session.life.reservations) && final(self).at(handle) is None
                } else {
                    left is None && final(self).at(handle) == Some(session)
                },
                None => left is None && final(self).at(handle) is None,
            },
    {
        let left = match self.sessions.get(handle) {
            Some(session) => if session.life.stage.abandoned && session.terminal() {
                Some(session.life.reservations)
            } else {
                None
            },
            None => None,
        };
        if left.is_some() {
            let _session = self.sessions.remove(handle);
        }
        left
    }

    /// How long the reactor waits for the port, in milliseconds.
    pub fn output_timeout(&self, now: u64) -> (timeout: u32)
        requires
            self.wf(),
        ensures
            timeout == wait_of(
                earliest_deadline(self.sessions.slots@),
                any_closing(self.sessions.slots@),
                now,
            ),
    {
        let mut earliest: Option<u64> = None;
        let mut polling = false;
        for index in 0..self.sessions.slots.len()
            invariant
                self.wf(),
                earliest == earliest_deadline(self.sessions.slots@.take(index as int)),
                polling == any_closing(self.sessions.slots@.take(index as int)),
        {
            let ghost before = self.sessions.slots@.take(index as int);
            let ghost taken = self.sessions.slots@.take(index + 1);
            proof {
                assert(taken.drop_last() =~= before);
                assert(taken.last() == self.sessions.slots@[index as int]);
                assert(forall|i: int| 0 <= i < index ==> taken[i] == #[trigger] before[i]);
                if any_closing(before) {
                    let i = choose|i: int|
                        0 <= i < before.len() && (#[trigger] before[i]).value is Some && is_closing(
                            before[i].value.unwrap(),
                        );
                    assert(taken[i] == before[i]);
                }
                if any_closing(taken) {
                    let i = choose|i: int|
                        0 <= i < taken.len() && (#[trigger] taken[i]).value is Some && is_closing(
                            taken[i].value.unwrap(),
                        );
                    if i < index {
                        assert(before[i] == taken[i]);
                    }
                }
                assert(taken[index as int] == self.sessions.slots@[index as int]);
            }
            if let Some(session) = &self.sessions.slots[index].value {
                earliest = reactor::earlier(earliest, session_deadline(session));
                if session.life.console.close_started && !session.life.console.close_done {
                    polling = true;
                }
            }
        }
        assert(self.sessions.slots@.take(self.sessions.slots@.len() as int)
            =~= self.sessions.slots@);
        match earliest {
            None => if polling {
                CLOSE_POLL
            } else {
                INFINITE
            },
            Some(deadline) => {
                if deadline <= now {
                    return 0;
                }
                let millis: u64 = (deadline - now) / 1_000_000;
                let timeout: u32 = if millis < 1 {
                    1
                } else if millis > 0xffff_fffe {
                    0xffff_fffe
                } else {
                    millis as u32
                };
                if polling && timeout > CLOSE_POLL {
                    CLOSE_POLL
                } else {
                    timeout
                }
            },
        }
    }

    /// Takes down every session at the end of the runtime. The result says of each what
    /// becomes of its console.
    pub fn shutdown_all(&mut self) -> (ended: Vec<(u64, ConsoleStep)>)
        requires
            old(self).wf(),
        ensures
            final(self).wf(),
            old(self).orderly() ==> final(self).orderly(),
            forall|handle: u64| #[trigger] final(self).at(handle) is None,
            ended@ == registry::occupants(old(self).sessions.slots@).map_values(
                |item: (u64, WindowsSession)| (item.0, forced_step(Some(item.1))),
            ),
    {
        let handles = self.sessions.handles();
        let ghost items = registry::occupants(self.sessions.slots@);
        let mut ended: Vec<(u64, ConsoleStep)> = Vec::new();
        proof {
            registry::occupants_are_live(self.sessions.slots@);
        }
        for index in 0..handles.len()
            invariant
                self.wf(),
                old(self).wf(),
                items == registry::occupants(old(self).sessions.slots@),
                handles@ == items.map_values(|item: (u64, WindowsSession)| item.0),
                ended@ == items.take(index as int).map_values(
                    |item: (u64, WindowsSession)| (item.0, forced_step(Some(item.1))),
                ),
                forall|i: int|
                    index <= i < items.len() ==> self.at((#[trigger] items[i]).0) == Some(
                        items[i].1,
                    ),
                forall|handle: u64|
                    (#[trigger] self.at(handle)) is Some ==> old(self).at(handle) is Some,
                forall|i: int| 0 <= i < index ==> self.at((#[trigger] items[i]).0) is None,
        {
            let handle: u64 = handles[index];
            let ghost before = *self;
            proof {
                assert(handle == items[index as int].0);
                assert forall|i: int| 0 <= i < items.len() && i != index implies (
                #[trigger] items[i]).0 != handle by {
                    if i < index {
                        registry::occupants_are_distinct(old(self).sessions.slots@, i, index as int);
                    } else {
                        registry::occupants_are_distinct(old(self).sessions.slots@, index as int, i);
                    }
                }
            }
            let step = self.drop_session(handle);
            ended.push((handle, step));
            proof {
                assert(step == forced_step(Some(items[index as int].1)));
                assert(items.take(index + 1) =~= items.take(index as int).push(
                    items[index as int],
                ));
                assert(ended@ =~= items.take(index + 1).map_values(
                    |item: (u64, WindowsSession)| (item.0, forced_step(Some(item.1))),
                ));
                assert forall|other: u64| (#[trigger] self.at(other)) is Some implies old(self).at(
                    other,
                ) is Some by {
                    assert(other != handle);
                    assert(self.at(other) == before.at(other));
                }
            }
        }
        proof {
            assert(items.take(items.len() as int) =~= items);
            assert forall|handle: u64| #[trigger] self.at(handle) is None by {
                if self.at(handle) is Some {
                    assert(old(self).at(handle) is Some);
                    registry::live_is_occupant(old(self).sessions.slots@, handle);
                    let i = choose|i: int|
                        0 <= i < items.len() && #[trigger] items[i] == (
                            handle,
                            registry::resolve(old(self).sessions.slots@, handle).unwrap(),
                        );
                    assert(self.at(items[i].0) is None);
                }
            }
        }
        proof {
            assert forall|handle: u64|
                (#[trigger] self.sessions.resolve(handle)) is Some && old(
                    self).orderly() implies !self.sessions.resolve(
                handle,
            ).unwrap().life.stage.close_notified by {
                assert(self.at(handle) == self.sessions.resolve(handle));
                assert(old(self).at(handle) == old(self).sessions.resolve(handle));
            }
        }
        ended
    }
}

/// A tagged key is told from every other and leads to its session: no handle of a session
/// reaches the bits of the tags.
pub proof fn keys_lead_to_their_session(reactor: &WindowsReactor, handle: u64)
    requires
        reactor.wf(),
        reactor.at(handle) is Some,
    ensures
        port_event_of(handle | CLOSE_KEY_TAG, false, false) == PortEvent::ConsoleClosed(handle),
        port_event_of(handle | PROCESS_EXIT_KEY_TAG, false, false) == PortEvent::ProcessExited(
            handle,
        ),
        port_event_of(handle, true, false) == PortEvent::Transfer(handle),
        port_event_of(0, false, false) == PortEvent::Commands,
        port_event_of(NOTICE_AVAILABLE_KEY, false, false) == PortEvent::NoticeAvailable,
{
    let (index, generation) = handle::handle_parts_of(handle).unwrap();
    assert(reactor.sessions.slots@[index as int].generation <= registry::MAX_NOTICE_GENERATION);
    assert(handle < 0x2000_0000_0000_0000u64);
    assert((handle | 0x4000_0000_0000_0000u64) & 0x4000_0000_0000_0000u64 != 0
        && (handle | 0x4000_0000_0000_0000u64) & !0x4000_0000_0000_0000u64 == handle
        && (handle | 0x2000_0000_0000_0000u64) & 0x4000_0000_0000_0000u64 == 0
        && (handle | 0x2000_0000_0000_0000u64) & 0x2000_0000_0000_0000u64 != 0
        && (handle | 0x2000_0000_0000_0000u64) & !0x2000_0000_0000_0000u64 == handle
        && (handle | 0x2000_0000_0000_0000u64) != 0x8000_0000_0000_0000u64) by (bit_vector)
        requires
            handle < 0x2000_0000_0000_0000u64,
    ;
    assert(0x8000_0000_0000_0000u64 & 0x4000_0000_0000_0000u64 == 0 && 0u64
        & 0x4000_0000_0000_0000u64 == 0 && 0u64 & 0x2000_0000_0000_0000u64 == 0) by (bit_vector);
}

} // verus!
