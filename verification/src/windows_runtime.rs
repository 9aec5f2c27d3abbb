//! The front of the Windows engine: what callers may hand to its reactor, and how much of
//! it.
use crate::buffer;
use crate::control::{Control, ControlQueue, WakeGate};
use crate::error::{self, FailureKind, Operation, OperationError, WriteError, WriteErrorKind};
use crate::fault::IoError;
use crate::runtime::{takes_in_turn, CommandTurn, COMMAND_CAPACITY};
use crate::session::{InputAdmission, InputState, Sent};
use crate::windows_budget::{self, AdmissionResult, LockAttempt, WindowsAdmission};
use crate::windows_reactor::{WindowsCommand, WindowsReactor};
use crate::windows_session::{Faults, Life, WindowsSession};
use bytes::Bytes;
use std::collections::VecDeque;
use vstd::prelude::*;

verus! {

/// The Windows runtime as its callers see it.
pub struct WindowsRuntime {
    pub reactor: WindowsReactor,
    pub commands: VecDeque<WindowsCommand>,
    pub controls: ControlQueue,
    pub wake: WakeGate,
    /// Whether the reactor takes commands.
    pub running: bool,
}

/// A session's admission, with what ended it: the loss of the runtime, or else the failure
/// of its input.
pub open spec fn admission_of(session: WindowsSession) -> WindowsAdmission {
    WindowsAdmission {
        inner: session.input.admission,
        failure: if session.life.faults.refused is Some {
            session.life.faults.refused
        } else {
            session.life.faults.input
        },
    }
}

/// What a write comes to when the reactor is awake, or cannot be woken.
pub open spec fn write_outcome(
    runtime: &WindowsRuntime,
    handle: u64,
    length: nat,
    awake: bool,
) -> AdmissionResult {
    match runtime.reactor.at(handle) {
        Some(session) => if !session.input.admission.open {
            AdmissionResult::Closed
        } else if length == 0 {
            AdmissionResult::Accepted
        } else if !windows_budget::finds_room(session.input.admission, length) {
            AdmissionResult::Backpressure
        } else if !awake || !runtime.running {
            AdmissionResult::Infrastructure
        } else if runtime.commands@.len() >= COMMAND_CAPACITY {
            AdmissionResult::Backpressure
        } else {
            AdmissionResult::Accepted
        },
        None => AdmissionResult::Closed,
    }
}

/// A session with another admission. Only a loss of the runtime is kept as a failure.
pub open spec fn with_admission(
    session: WindowsSession,
    admission: WindowsAdmission,
) -> WindowsSession {
    WindowsSession {
        input: InputState { admission: admission.inner, ..session.input },
        life: Life {
            faults: Faults {
                refused: if session.input.admission.open && !admission.inner.open {
                    admission.failure
                } else {
                    session.life.faults.refused
                },
                ..session.life.faults
            },
            ..session.life
        },
        ..session
    }
}

/// A session after a write that came to this outcome.
pub open spec fn session_after(
    session: WindowsSession,
    length: nat,
    outcome: AdmissionResult,
) -> WindowsSession {
    match outcome {
        AdmissionResult::Accepted => if length > 0 {
            with_admission(
                session,
                windows_budget::grown_admission(admission_of(session), length as usize),
            )
        } else {
            session
        },
        AdmissionResult::Infrastructure => with_admission(
            session,
            windows_budget::lost_admission(admission_of(session)),
        ),
        _ => session,
    }
}

/// What a write does: its session's admission changes as its outcome says, the reactor's
/// wake is on its way exactly when it was before or the write needed it and got it, and
/// exactly an accepted write of some bytes joins the commands.
pub open spec fn written(
    before: &WindowsRuntime,
    after: &WindowsRuntime,
    handle: u64,
    bytes: Seq<u8>,
    posted: bool,
) -> bool {
    let awake = before.wake.pending || posted;
    let outcome = write_outcome(before, handle, bytes.len(), awake);
    &&& after.controls == before.controls
    &&& after.running == before.running
    &&& after.reactor.same_but(&before.reactor, handle)
    &&& match before.reactor.at(handle) {
        Some(session) => {
            &&& after.reactor.at(handle) == Some(session_after(session, bytes.len(), outcome))
            &&& after.wake.pending == (before.wake.pending || (posted && windows_budget::finds_room(
                session.input.admission,
                bytes.len(),
            )))
        },
        None => after.reactor.at(handle) is None && after.wake == before.wake,
    }
    &&& if outcome is Accepted && bytes.len() > 0 {
        &&& after.commands@.len() == before.commands@.len() + 1
        &&& after.commands@.drop_last() == before.commands@
        &&& after.commands@.last() matches WindowsCommand::Write { handle: target, bytes: data }
            && target == handle && buffer::bytes_of(data) == bytes
    } else {
        after.commands@ == before.commands@
    }
}

/// What ended a session's admission, if anything did.
pub open spec fn sticky_failure(runtime: &WindowsRuntime, handle: u64) -> Option<OperationError> {
    match runtime.reactor.at(handle) {
        Some(session) => admission_of(session).failure,
        None => None,
    }
}

impl WindowsRuntime {
    /// The reactor's and the queues' invariants.
    pub open spec fn wf(&self) -> bool {
        &&& self.reactor.wf()
        &&& self.controls.wf()
        &&& self.commands@.len() <= COMMAND_CAPACITY
    }

    /// A runtime without sessions.
    pub fn new() -> (runtime: WindowsRuntime)
        ensures
            runtime.wf(),
            forall|handle: u64| #[trigger] runtime.reactor.at(handle) is None,
            runtime.commands@.len() == 0,
            runtime.controls.values@.len() == 0,
            runtime.controls.lifecycle@.len() == 0,
            !runtime.wake.pending,
            runtime.running,
    {
        WindowsRuntime {
            reactor: WindowsReactor::new(),
            commands: VecDeque::new(),
            controls: ControlQueue::new(),
            wake: WakeGate::new(),
            running: true,
        }
    }

    /// Whether a write of this length needs a wake of the reactor that is not yet on its
    /// way. Such a wake is posted before the write is made.
    pub fn needs_wake(&self, handle: u64, length: usize) -> (needed: bool)
        requires
            self.wf(),
        ensures
            needed == (!self.wake.pending && (self.reactor.at(handle) matches Some(session)
                && windows_budget::finds_room(session.input.admission, length as nat))),
    {
        match self.reactor.sessions.get(handle) {
            Some(session) => {
                let admission = &session.input.admission;
                !self.wake.pending && admission.open && length > 0 && length <= admission.capacity
                    - admission.bytes && admission.entries < admission.entry_capacity()
            },
            None => false,
        }
    }

    /// Admits a write of this length. The result is its outcome.
    fn reserve(&mut self, handle: u64, length: usize, posted: bool) -> (outcome: AdmissionResult)
        requires
            old(self).wf(),
        ensures
            final(self).wf(),
            final(self).commands == old(self).commands,
            final(self).controls == old(self).controls,
            final(self).running == old(self).running,
            final(self).reactor.same_but(&old(self).reactor, handle),
            outcome == write_outcome(
                old(self),
                handle,
                length as nat,
                old(self).wake.pending || posted,
            ),
            match old(self).reactor.at(handle) {
                Some(session) => {
                    &&& final(self).reactor.at(handle) == Some(
                        session_after(session, length as nat, outcome),
                    )
                    &&& final(self).wake.pending == (old(self).wake.pending || (posted
                        && windows_budget::finds_room(session.input.admission, length as nat)))
                },
                None => final(self).reactor.at(handle) is None && final(self).wake == old(self).wake,
            },
    {
        let needed = self.needs_wake(handle, length);
        let awake = self.wake.pending || posted;
        let sent = if !self.running {
            Sent::Disconnected
        } else if self.commands.len() >= COMMAND_CAPACITY {
            Sent::Full
        } else {
            Sent::Queued
        };
        if needed && posted {
            let _send = self.wake.request();
        }
        match self.reactor.sessions.get_mut(handle) {
            Some(session) => {
                let failure = match session.life.faults.refused {
                    Some(refused) => Some(refused),
                    None => session.life.faults.input,
                };
                let mut admission = WindowsAdmission { inner: session.input.admission, failure };
                let wake = || -> (answer: bool)
                    ensures
                        answer == awake,
                    { awake };
                let send = || -> (answer: Sent)
                    ensures
                        answer == sent,
                    { sent };
                let outcome = admission.admit_write_with(length, LockAttempt::Taken, wake, send);
                if session.input.admission.open && !admission.inner.open {
                    session.life.faults.refused = admission.failure;
                }
                session.input.admission = admission.inner;
                outcome
            },
            None => AdmissionResult::Closed,
        }
    }

    /// What ended a session's admission, if anything did.
    fn sticky(&self, handle: u64) -> (failure: Option<OperationError>)
        requires
            self.wf(),
        ensures
            failure == sticky_failure(self, handle),
    {
        match self.reactor.sessions.get(handle) {
            Some(session) => match session.life.faults.refused {
                Some(refused) => Some(refused),
                None => session.life.faults.input,
            },
            None => None,
        }
    }

    /// Writes bytes that the caller gives away. `posted` says whether a wake that the write
    /// needs was posted. A write that is not accepted hands its bytes back.
    pub fn write(&mut self, handle: u64, bytes: Bytes, posted: bool) -> (result: Result<
        (),
        WriteError,
    >)
        requires
            old(self).wf(),
        ensures
            final(self).wf(),
            written(old(self), final(self), handle, buffer::bytes_of(bytes), posted),
            match write_outcome(
                old(self),
                handle,
                buffer::bytes_of(bytes).len(),
                old(self).wake.pending || posted,
            ) {
                AdmissionResult::Accepted => result is Ok,
                AdmissionResult::Backpressure => windows_budget::rejects(
                    result,
                    WriteErrorKind::Backpressure,
                    bytes,
                    None,
                ),
                AdmissionResult::Closed => windows_budget::rejects(
                    result,
                    WriteErrorKind::Closed,
                    bytes,
                    sticky_failure(old(self), handle),
                ),
                AdmissionResult::Infrastructure => windows_budget::rejects(
                    result,
                    WriteErrorKind::Infrastructure,
                    bytes,
                    Some(error::lost_failure(Operation::Write)),
                ),
            },
    {
        let length: usize = bytes.len();
        let sticky = self.sticky(handle);
        match self.reserve(handle, length, posted) {
            AdmissionResult::Accepted => {
                if length > 0 {
                    let ghost before = self.commands@;
                    self.commands.push_back(WindowsCommand::Write { handle, bytes });
                    assert(self.commands@.drop_last() =~= before);
                }
                Ok(())
            },
            AdmissionResult::Backpressure => Err(
                WriteError::new(WriteErrorKind::Backpressure, bytes, None),
            ),
            AdmissionResult::Closed => Err(WriteError::new(WriteErrorKind::Closed, bytes, sticky)),
            AdmissionResult::Infrastructure => Err(
                WriteError::new(
                    WriteErrorKind::Infrastructure,
                    bytes,
                    Some(error::infrastructure_failure(Operation::Write)),
                ),
            ),
        }
    }

    /// Writes bytes that the caller keeps. They are copied only when the write is taken.
    pub fn write_copy(&mut self, handle: u64, bytes: &[u8], posted: bool) -> (result: Result<
        (),
        OperationError,
    >)
        requires
            old(self).wf(),
        ensures
            final(self).wf(),
            written(old(self), final(self), handle, bytes@, posted),
            result == windows_budget::copy_outcome(
                write_outcome(
                    old(self),
                    handle,
                    bytes@.len(),
                    old(self).wake.pending || posted,
                ),
                sticky_failure(old(self), handle),
            ),
    {
        let sticky = self.sticky(handle);
        let outcome = self.reserve(handle, bytes.len(), posted);
        if outcome == AdmissionResult::Accepted && bytes.len() > 0 {
            let ghost before = self.commands@;
            self.commands.push_back(
                WindowsCommand::Write { handle, bytes: Bytes::copy_from_slice(bytes) },
            );
            assert(self.commands@.drop_last() =~= before);
        }
        windows_budget::copy_result(outcome, sticky)
    }

    /// Gives credit for output back.
    pub fn credit_async(&mut self, handle: u64, bytes: usize) -> (queued: bool)
        requires
            old(self).wf(),
        ensures
            final(self).wf(),
            queued == (old(self).controls.values@.len() < crate::control::MAX_CONTROL_ENTRIES),
            final(self).controls.lifecycle@ == old(self).controls.lifecycle@,
            final(self).controls.values@ == if queued {
                old(self).controls.values@.push(Control::Credit { handle, bytes })
            } else {
                old(self).controls.values@
            },
            final(self).wake.pending == (old(self).wake.pending || queued),
            final(self).reactor == old(self).reactor,
            final(self).commands == old(self).commands,
            final(self).running == old(self).running,
    {
        let queued = self.controls.push(Control::Credit { handle, bytes });
        if queued {
            let _send = self.wake.request();
        }
        queued
    }

    /// Closes a session's admission: no write is taken any more.
    pub fn close_admission(&mut self, handle: u64)
        requires
            old(self).wf(),
        ensures
            final(self).wf(),
            admission_closed(&old(self).reactor, &final(self).reactor, handle),
            final(self).commands == old(self).commands,
            final(self).controls == old(self).controls,
            final(self).wake == old(self).wake,
            final(self).running == old(self).running,
    {
        match self.reactor.sessions.get_mut(handle) {
            Some(session) => {
                session.input.admission.close();
            },
            None => {},
        }
    }

    /// Tells the reactor that a session was given up: by a control, or where no control has
    /// room by a command. Nothing is told when neither has room, and the failure is that
    /// the reactor is gone.
    pub fn enqueue_abandon(&mut self, handle: u64) -> (result: Result<bool, ()>)
        requires
            old(self).wf(),
        ensures
            final(self).wf(),
            result == abandon_result(old(self)),
            final(self).reactor == old(self).reactor,
            final(self).running == old(self).running,
            final(self).controls.values@ == old(self).controls.values@,
            final(self).controls.lifecycle@ == if controls_have_room(old(self)) {
                old(self).controls.lifecycle@.push(Control::Abandon { handle })
            } else {
                old(self).controls.lifecycle@
            },
            final(self).commands@ == if result == Ok::<bool, ()>(true) && !controls_have_room(
                old(self),
            ) {
                old(self).commands@.push(WindowsCommand::Abandon { handle })
            } else {
                old(self).commands@
            },
            final(self).wake.pending == (old(self).wake.pending || result == Ok::<bool, ()>(true)),
    {
        if self.controls.push(Control::Abandon { handle }) {
            let _send = self.wake.request();
            Ok(true)
        } else if !self.running {
            Err(())
        } else if self.commands.len() >= COMMAND_CAPACITY {
            Ok(false)
        } else {
            self.commands.push_back(WindowsCommand::Abandon { handle });
            let _send = self.wake.request();
            Ok(true)
        }
    }

    /// Gives a session up. The result says whether the reactor will learn of it.
    pub fn try_abandon(&mut self, handle: u64) -> (queued: bool)
        requires
            old(self).wf(),
        ensures
            final(self).wf(),
            admission_closed(&old(self).reactor, &final(self).reactor, handle),
            queued == (abandon_result(old(self)) == Ok::<bool, ()>(true)),
            final(self).running == old(self).running,
            final(self).controls.values@ == old(self).controls.values@,
            final(self).controls.lifecycle@ == if controls_have_room(old(self)) {
                old(self).controls.lifecycle@.push(Control::Abandon { handle })
            } else {
                old(self).controls.lifecycle@
            },
            final(self).commands@ == if queued && !controls_have_room(old(self)) {
                old(self).commands@.push(WindowsCommand::Abandon { handle })
            } else {
                old(self).commands@
            },
            final(self).wake.pending == (old(self).wake.pending || queued),
    {
        self.close_admission(handle);
        match self.enqueue_abandon(handle) {
            Ok(queued) => queued,
            Err(()) => false,
        }
    }

    /// Hands a command over, unless too many wait or the reactor is gone.
    pub fn submit(&mut self, command: WindowsCommand) -> (sent: Sent)
        requires
            old(self).wf(),
        ensures
            final(self).wf(),
            final(self).reactor == old(self).reactor,
            final(self).controls == old(self).controls,
            final(self).running == old(self).running,
            sent == if !old(self).running {
                Sent::Disconnected
            } else if old(self).commands@.len() >= COMMAND_CAPACITY {
                Sent::Full
            } else {
                Sent::Queued
            },
            final(self).commands@ == if sent == Sent::Queued {
                old(self).commands@.push(command)
            } else {
                old(self).commands@
            },
            final(self).wake.pending == (old(self).wake.pending || sent == Sent::Queued),
    {
        if !self.running {
            return Sent::Disconnected;
        }
        if self.commands.len() >= COMMAND_CAPACITY {
            return Sent::Full;
        }
        self.commands.push_back(command);
        let _send = self.wake.request();
        Sent::Queued
    }

    /// The next command of a turn, in the order in which they were handed over.
    pub fn next_in_turn(&mut self, turn: &mut CommandTurn) -> (command: Option<WindowsCommand>)
        requires
            old(self).wf(),
            old(turn).wf(),
        ensures
            final(self).wf(),
            final(turn).wf(),
            final(self).reactor == old(self).reactor,
            final(self).controls == old(self).controls,
            final(self).wake == old(self).wake,
            final(self).running == old(self).running,
            takes_in_turn(
                old(self).commands@,
                final(self).commands@,
                *old(turn),
                *final(turn),
                command,
                |command: WindowsCommand| command is Shutdown,
            ),
    {
        if !turn.takes_more() {
            return None;
        }
        let command = self.commands.pop_front();
        match &command {
            Some(taken) => {
                assert(self.commands@ =~= old(self).commands@.skip(1));
                let shutdown = matches!(taken, WindowsCommand::Shutdown);
                turn.count(shutdown);
            },
            None => {},
        }
        command
    }

    /// A console has no terminal modes.
    pub fn terminal_mode(&self, _handle: u64) -> (result: Result<[bool; 3], OperationError>)
        ensures
            result == Err::<[bool; 3], OperationError>(unsupported()),
    {
        Err(OperationError::new(Operation::Metadata, FailureKind::Unsupported, None))
    }

    /// A console has no name.
    pub fn terminal_name(&self, _handle: u64) -> (result: Result<Vec<u8>, OperationError>)
        ensures
            result == Err::<Vec<u8>, OperationError>(unsupported()),
    {
        Err(OperationError::new(Operation::Metadata, FailureKind::Unsupported, None))
    }

    /// A console has no terminal modes to observe.
    pub fn observe_mode(&self, _handle: u64, _observe: bool) -> (result: Result<(), OperationError>)
        ensures
            result == Err::<(), OperationError>(unsupported()),
    {
        Err(OperationError::new(Operation::Metadata, FailureKind::Unsupported, None))
    }

    /// What a request comes to that the reactor did not answer.
    pub fn request_failed(operation: Operation, failure: &IoError) -> (error: OperationError)
        ensures
            error == (OperationError {
                operation,
                kind: FailureKind::InfrastructureLost,
                native_code: failure.code,
            }),
    {
        OperationError::new(operation, FailureKind::InfrastructureLost, failure.raw_os_error())
    }
}

/// An operation that a console does not have.
pub open spec fn unsupported() -> OperationError {
    OperationError {
        operation: Operation::Metadata,
        kind: FailureKind::Unsupported,
        native_code: None,
    }
}

/// Whether one more session can be given up by a control.
pub open spec fn controls_have_room(runtime: &WindowsRuntime) -> bool {
    runtime.controls.lifecycle@.len() < crate::control::MAX_LIFECYCLE_ENTRIES
}

/// What giving a session up comes to.
pub open spec fn abandon_result(runtime: &WindowsRuntime) -> Result<bool, ()> {
    if controls_have_room(runtime) {
        Ok(true)
    } else if !runtime.running {
        Err(())
    } else {
        Ok(runtime.commands@.len() < COMMAND_CAPACITY)
    }
}

/// What closing a session's admission does.
pub open spec fn admission_closed(
    before: &WindowsReactor,
    after: &WindowsReactor,
    handle: u64,
) -> bool {
    &&& after.same_but(before, handle)
    &&& after.at(handle) == match before.at(handle) {
        Some(session) => Some(
            WindowsSession {
                input: InputState {
                    admission: InputAdmission { open: false, ..session.input.admission },
                    ..session.input
                },
                ..session
            },
        ),
        None => None,
    }
}

/// A write that its caller was told is accepted is the last command, whole and unchanged,
/// unless it is empty; any other leaves the commands as they were.
pub proof fn accepted_write_is_queued(
    before: &WindowsRuntime,
    after: &WindowsRuntime,
    handle: u64,
    bytes: Seq<u8>,
    posted: bool,
)
    requires
        written(before, after, handle, bytes, posted),
    ensures
        ({
            let accepted = write_outcome(
                before,
                handle,
                bytes.len(),
                before.wake.pending || posted,
            ) is Accepted;
            &&& (accepted && bytes.len() > 0) <==> after.commands@.len() > before.commands@.len()
            &&& accepted && bytes.len() > 0 ==> (after.commands@.last() matches
                WindowsCommand::Write { handle: target, bytes: data } && target == handle
                && buffer::bytes_of(data) == bytes)
            &&& !(accepted && bytes.len() > 0) ==> after.commands@ == before.commands@
        }),
{
}

/// After a loss of the runtime a session takes no write, and says so with the same failure
/// every time.
pub proof fn loss_is_final(
    before: &WindowsRuntime,
    after: &WindowsRuntime,
    handle: u64,
    bytes: Seq<u8>,
    posted: bool,
    later: nat,
    awake: bool,
)
    requires
        written(before, after, handle, bytes, posted),
        write_outcome(before, handle, bytes.len(), before.wake.pending || posted)
            is Infrastructure,
    ensures
        write_outcome(after, handle, later, awake) is Closed,
        sticky_failure(after, handle) == windows_budget::first_failure(
            sticky_failure(before, handle),
            error::lost_failure(Operation::Write),
        ),
{
}

/// Once a session's close has started, no write is taken.
pub proof fn closing_session_takes_no_write(
    runtime: &WindowsRuntime,
    handle: u64,
    length: nat,
    awake: bool,
)
    requires
        runtime.wf(),
        runtime.reactor.at(handle) matches Some(session) && session.life.stage.close_started,
    ensures
        write_outcome(runtime, handle, length, awake) is Closed,
{
    assert(runtime.reactor.sessions.resolve(handle) == runtime.reactor.at(handle));
}

} // verus!
