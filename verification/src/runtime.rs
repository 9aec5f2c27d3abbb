//! The front of the engine: what callers may hand to the reactor, and how much of it.
use crate::buffer;
use crate::control::{Control, ControlQueue, WakeGate};
use crate::engine_session::Session;
use crate::fault::{ErrorKind, IoError};
use crate::reactor::{self, Command, Reactor};
use crate::session::{InputAdmission, InputState, Sent, WRITE_INFRASTRUCTURE_FAILURE};
use crate::spawn::BrokerSpawn;
use bytes::Bytes;
use std::collections::VecDeque;
use vstd::prelude::*;

verus! {

/// How many commands may wait for the reactor.
pub const COMMAND_CAPACITY: usize = 1024;

/// How many commands the reactor takes in one turn.
pub const COMMAND_QUANTUM: usize = 64;

/// One turn of the reactor at its commands. It ends at a shutdown, or when the quantum was
/// taken.
#[derive(Clone, Copy, Debug, PartialEq, Eq, Structural)]
pub struct CommandTurn {
    /// How many commands were taken.
    pub taken: usize,
    /// Whether the last of them was a shutdown.
    pub stopped: bool,
}

impl CommandTurn {
    /// No more than the quantum was taken.
    pub open spec fn wf(&self) -> bool {
        self.taken <= COMMAND_QUANTUM
    }

    /// Whether one more command can be taken.
    pub open spec fn is_open(&self) -> bool {
        self.taken < COMMAND_QUANTUM && !self.stopped
    }

    /// A turn that took nothing.
    pub fn new() -> (turn: CommandTurn)
        ensures
            turn == (CommandTurn { taken: 0, stopped: false }),
            turn.wf(),
    {
        CommandTurn { taken: 0, stopped: false }
    }

    /// Whether one more command can be taken.
    pub fn takes_more(&self) -> (more: bool)
        ensures
            more == self.is_open(),
    {
        self.taken < COMMAND_QUANTUM && !self.stopped
    }

    /// Counts a command that was taken.
    pub fn count(&mut self, shutdown: bool)
        requires
            old(self).is_open(),
        ensures
            *final(self) == (CommandTurn {
                taken: (old(self).taken + 1) as usize,
                stopped: shutdown,
            }),
            final(self).wf(),
    {
        self.taken = self.taken + 1;
        self.stopped = shutdown;
    }

    /// Whether the reactor wakes itself after the turn: the quantum was taken, so more
    /// commands may wait. A shutdown leaves them.
    pub fn wakes_again(&self) -> (wake: bool)
        ensures
            wake == (self.taken == COMMAND_QUANTUM && !self.stopped),
    {
        self.taken == COMMAND_QUANTUM && !self.stopped
    }
}

/// What taking a command of a turn does: the oldest is taken while the turn is open, and
/// counted; otherwise nothing changes.
pub open spec fn takes_in_turn<C>(
    before: Seq<C>,
    after: Seq<C>,
    turn: CommandTurn,
    turn_after: CommandTurn,
    command: Option<C>,
    is_shutdown: spec_fn(C) -> bool,
) -> bool {
    if turn.is_open() && before.len() > 0 {
        &&& command == Some(before[0])
        &&& after == before.skip(1)
        &&& turn_after == (CommandTurn {
            taken: (turn.taken + 1) as usize,
            stopped: is_shutdown(before[0]),
        })
    } else {
        command is None && after == before && turn_after == turn
    }
}

/// The runtime as its callers see it.
pub struct IntegratedRuntime {
    pub reactor: Reactor,
    pub commands: VecDeque<Command>,
    pub controls: ControlQueue,
    pub wake: WakeGate,
    /// Whether the reactor takes commands.
    pub running: bool,
    /// Whether the notices were not yet handed out.
    pub has_notices: bool,
}

/// What a write comes to: 1 when it was taken, 0 without room for it, -1 when input is
/// closed or the session is gone, and the infrastructure failure without a reactor.
pub open spec fn write_result(runtime: &IntegratedRuntime, handle: u64, length: nat) -> i64 {
    match runtime.reactor.at(handle) {
        Some(session) => if !session.input.admission.open {
            (-1) as i64
        } else if !(0 < length <= usize::MAX && session.input.admission.has_room(length as usize)) {
            0
        } else if !runtime.running {
            WRITE_INFRASTRUCTURE_FAILURE
        } else if runtime.commands@.len() >= COMMAND_CAPACITY {
            0
        } else {
            1
        },
        None => (-1) as i64,
    }
}

/// The admission of a session after a write with the given result.
pub open spec fn admission_after(admission: InputAdmission, length: nat, result: i64) -> InputAdmission {
    if result == 1 {
        InputAdmission {
            bytes: (admission.bytes + length) as usize,
            entries: (admission.entries + 1) as usize,
            ..admission
        }
    } else if result == WRITE_INFRASTRUCTURE_FAILURE {
        InputAdmission { open: false, ..admission }
    } else {
        admission
    }
}

/// What a write does: only its session's admission changes, and exactly a write that was
/// taken joins the commands and wakes the reactor.
pub open spec fn written(
    before: &IntegratedRuntime,
    after: &IntegratedRuntime,
    handle: u64,
    bytes: Seq<u8>,
    result: i64,
) -> bool {
    &&& result == write_result(before, handle, bytes.len())
    &&& after.controls == before.controls
    &&& after.running == before.running
    &&& after.has_notices == before.has_notices
    &&& after.wake.pending == (before.wake.pending || result == 1)
    &&& after.reactor.same_but(&before.reactor, handle)
    &&& match (before.reactor.at(handle), after.reactor.at(handle)) {
        (Some(old_session), Some(new_session)) => new_session == (Session {
            input: InputState {
                admission: admission_after(old_session.input.admission, bytes.len(), result),
                ..old_session.input
            },
            ..old_session
        }),
        (None, None) => true,
        _ => false,
    }
    &&& if result == 1 {
        &&& after.commands@.len() == before.commands@.len() + 1
        &&& after.commands@.drop_last() == before.commands@
        &&& after.commands@.last() matches Command::Write { handle: target, bytes: data }
            && target == handle && buffer::bytes_of(data) == bytes
    } else {
        after.commands@ == before.commands@
    }
}

impl IntegratedRuntime {
    /// The reactor's and the queues' invariants.
    pub open spec fn wf(&self) -> bool {
        &&& self.reactor.wf()
        &&& self.controls.wf()
        &&& self.commands@.len() <= COMMAND_CAPACITY
    }

    /// A runtime without sessions.
    pub fn new() -> (runtime: IntegratedRuntime)
        ensures
            runtime.wf(),
            forall|handle: u64| #[trigger] runtime.reactor.at(handle) is None,
            runtime.commands@.len() == 0,
            runtime.controls.values@.len() == 0,
            runtime.controls.lifecycle@.len() == 0,
            !runtime.wake.pending,
            runtime.running,
            runtime.has_notices,
    {
        IntegratedRuntime {
            reactor: Reactor::new(),
            commands: VecDeque::new(),
            controls: ControlQueue::new(),
            wake: WakeGate::new(),
            running: true,
            has_notices: true,
        }
    }

    /// Hands the notices out, once.
    pub fn take_notifications(&mut self) -> (first: bool)
        ensures
            first == old(self).has_notices,
            *final(self) == (IntegratedRuntime { has_notices: false, ..*old(self) }),
    {
        let first = self.has_notices;
        self.has_notices = false;
        first
    }

    /// Checks a spawn before it is handed to the worker.
    pub fn spawn_start(
        config: &BrokerSpawn<u8>,
        input_capacity: usize,
        output_capacity: usize,
    ) -> (result: Result<(), IoError>)
        ensures
            match result {
                Ok(()) => reactor::capacities_fit(input_capacity, output_capacity)
                    && config.rejection() is None,
                Err(error) => if !reactor::capacities_fit(input_capacity, output_capacity) {
                    error.is_simple(
                        ErrorKind::InvalidInput,
                        "capacities must be in 1..=67108864"@,
                    )
                } else {
                    config.rejection() matches Some(text) && error.is_simple(
                        ErrorKind::InvalidInput,
                        text,
                    )
                },
            },
    {
        match reactor::validate_capacities(input_capacity, output_capacity) {
            Ok(()) => config.validate(),
            Err(error) => Err(error),
        }
    }

    /// What came of handing a spawn to the worker, whose queue is open or not.
    pub fn spawn_queued(open: bool, sent: Sent) -> (result: Result<(), IoError>)
        ensures
            match result {
                Ok(()) => open && sent == Sent::Queued,
                Err(error) => if !open {
                    error.is_simple(ErrorKind::BrokenPipe, "runtime is shutting down"@)
                } else {
                    match sent {
                        Sent::Full => error.is_simple(
                            ErrorKind::WouldBlock,
                            "spawn queue is full"@,
                        ),
                        Sent::Disconnected => error.is_simple(
                            ErrorKind::BrokenPipe,
                            "spawn worker stopped"@,
                        ),
                        Sent::Queued => false,
                    }
                },
            },
    {
        if !open {
            return Err(IoError::new(ErrorKind::BrokenPipe, "runtime is shutting down"));
        }
        match sent {
            Sent::Queued => Ok(()),
            Sent::Full => Err(IoError::new(ErrorKind::WouldBlock, "spawn queue is full")),
            Sent::Disconnected => Err(
                IoError::new(ErrorKind::BrokenPipe, "spawn worker stopped"),
            ),
        }
    }

    /// Admits a write of this length, and makes room for its command.
    fn reserve(&mut self, handle: u64, length: usize) -> (result: i64)
        requires
            old(self).wf(),
        ensures
            final(self).wf(),
            result == write_result(old(self), handle, length as nat),
            final(self).commands == old(self).commands,
            final(self).controls == old(self).controls,
            final(self).running == old(self).running,
            final(self).has_notices == old(self).has_notices,
            final(self).wake == old(self).wake,
            final(self).reactor.same_but(&old(self).reactor, handle),
            match (old(self).reactor.at(handle), final(self).reactor.at(handle)) {
                (Some(before), Some(after)) => after == (Session {
                    input: InputState {
                        admission: admission_after(before.input.admission, length as nat, result),
                        ..before.input
                    },
                    ..before
                }),
                (None, None) => true,
                _ => false,
            },
    {
        let sent = if !self.running {
            Sent::Disconnected
        } else if self.commands.len() >= COMMAND_CAPACITY {
            Sent::Full
        } else {
            Sent::Queued
        };
        match self.reactor.sessions.get_mut(handle) {
            Some(session) => {
                let answer = || -> (answer: Sent)
                    ensures
                        answer == sent,
                    { sent };
                session.input.admission.admit_write_with(length, answer)
            },
            None => -1,
        }
    }

    /// Writes bytes that the caller gives away.
    pub fn write(&mut self, handle: u64, bytes: Bytes) -> (result: i64)
        requires
            old(self).wf(),
        ensures
            final(self).wf(),
            written(old(self), final(self), handle, buffer::bytes_of(bytes), result),
    {
        let result: i64 = self.reserve(handle, bytes.len());
        if result == 1 {
            let ghost before = self.commands@;
            self.commands.push_back(Command::Write { handle, bytes });
            assert(self.commands@.drop_last() =~= before);
            let _send = self.wake.request();
        }
        result
    }

    /// Writes bytes that the caller keeps. They are copied only when the write is taken.
    pub fn write_copy(&mut self, handle: u64, bytes: &[u8]) -> (result: i64)
        requires
            old(self).wf(),
        ensures
            final(self).wf(),
            written(old(self), final(self), handle, bytes@, result),
    {
        let result: i64 = self.reserve(handle, bytes.len());
        if result == 1 {
            let ghost before = self.commands@;
            self.commands.push_back(
                Command::Write { handle, bytes: Bytes::copy_from_slice(bytes) },
            );
            assert(self.commands@.drop_last() =~= before);
            let _send = self.wake.request();
        }
        result
    }

    /// Gives credit for output back, and wakes the reactor. Credit without room among the
    /// controls is dropped.
    pub fn credit_async(&mut self, handle: u64, bytes: usize) -> (accepted: bool)
        requires
            old(self).wf(),
        ensures
            final(self).wf(),
            accepted,
            final(self).controls.lifecycle@ == old(self).controls.lifecycle@,
            final(self).controls.values@ == if old(self).controls.values@.len()
                < crate::control::MAX_CONTROL_ENTRIES {
                old(self).controls.values@.push(Control::Credit { handle, bytes })
            } else {
                old(self).controls.values@
            },
            final(self).wake.pending,
            final(self).reactor == old(self).reactor,
            final(self).commands == old(self).commands,
            final(self).running == old(self).running,
            final(self).has_notices == old(self).has_notices,
    {
        let _queued = self.controls.push(Control::Credit { handle, bytes });
        let _send = self.wake.request();
        true
    }

    /// Closes a session's admission: no write is taken any more.
    pub fn close_admission(&mut self, handle: u64)
        requires
            old(self).wf(),
        ensures
            final(self).wf(),
            admission_closed(old(self), final(self), handle),
            final(self).controls == old(self).controls,
            final(self).wake == old(self).wake,
    {
        match self.reactor.sessions.get_mut(handle) {
            Some(session) => {
                session.input.admission.close();
            },
            None => {},
        }
    }

    /// Gives a session up, and wakes the reactor. Its admission is closed in any case; the
    /// reactor is told where there is room among the controls.
    pub fn try_abandon(&mut self, handle: u64) -> (accepted: bool)
        requires
            old(self).wf(),
        ensures
            final(self).wf(),
            admission_closed(old(self), final(self), handle),
            accepted,
            final(self).controls.values@ == old(self).controls.values@,
            final(self).controls.lifecycle@ == if old(self).controls.lifecycle@.len()
                < crate::control::MAX_LIFECYCLE_ENTRIES {
                old(self).controls.lifecycle@.push(Control::Abandon { handle })
            } else {
                old(self).controls.lifecycle@
            },
            final(self).wake.pending,
    {
        self.close_admission(handle);
        let _queued = self.controls.push(Control::Abandon { handle });
        let _send = self.wake.request();
        true
    }

    /// Hands a command over behind those that wait, unless too many wait or the reactor is
    /// gone.
    pub fn submit(&mut self, command: Command) -> (sent: Sent)
        requires
            old(self).wf(),
        ensures
            final(self).wf(),
            submitted(old(self), final(self), command, sent),
    {
        if !self.running {
            return Sent::Disconnected;
        }
        if self.commands.len() >= COMMAND_CAPACITY {
            return Sent::Full;
        }
        self.commands.push_back(command);
        let _send = self.wake.request();
        Sent::Queued
    }

    /// The next command of a turn, in the order in which they were handed over.
    pub fn next_in_turn(&mut self, turn: &mut CommandTurn) -> (command: Option<Command>)
        requires
            old(self).wf(),
            old(turn).wf(),
        ensures
            final(self).wf(),
            final(turn).wf(),
            final(self).reactor == old(self).reactor,
            final(self).controls == old(self).controls,
            final(self).wake == old(self).wake,
            final(self).running == old(self).running,
            final(self).has_notices == old(self).has_notices,
            takes_in_turn(
                old(self).commands@,
                final(self).commands@,
                *old(turn),
                *final(turn),
                command,
                |command: Command| command is Shutdown,
            ),
    {
        if !turn.takes_more() {
            return None;
        }
        let command = self.commands.pop_front();
        match &command {
            Some(taken) => {
                assert(self.commands@ =~= old(self).commands@.skip(1));
                let shutdown = matches!(taken, Command::Shutdown);
                turn.count(shutdown);
            },
            None => {},
        }
        command
    }
}

/// What handing a command over does.
pub open spec fn submitted(
    before: &IntegratedRuntime,
    after: &IntegratedRuntime,
    command: Command,
    sent: Sent,
) -> bool {
    &&& sent == if !before.running {
        Sent::Disconnected
    } else if before.commands@.len() >= COMMAND_CAPACITY {
        Sent::Full
    } else {
        Sent::Queued
    }
    &&& after.commands@ == if sent == Sent::Queued {
        before.commands@.push(command)
    } else {
        before.commands@
    }
    &&& after.wake.pending == (before.wake.pending || sent == Sent::Queued)
    &&& after.reactor == before.reactor
    &&& after.controls == before.controls
    &&& after.running == before.running
    &&& after.has_notices == before.has_notices
}

/// What closing a session's admission does.
pub open spec fn admission_closed(
    before: &IntegratedRuntime,
    after: &IntegratedRuntime,
    handle: u64,
) -> bool {
    &&& after.commands == before.commands
    &&& after.running == before.running
    &&& after.has_notices == before.has_notices
    &&& after.reactor.same_but(&before.reactor, handle)
    &&& match (before.reactor.at(handle), after.reactor.at(handle)) {
        (Some(old_session), Some(new_session)) => new_session == (Session {
            input: InputState {
                admission: InputAdmission { open: false, ..old_session.input.admission },
                ..old_session.input
            },
            ..old_session
        }),
        (None, None) => true,
        _ => false,
    }
}

/// What the reactor's answer to a new session means: without one the session is aborted.
pub fn staged(reply: Option<Result<u64, IoError>>) -> (outcome: (Result<u64, IoError>, bool))
    ensures
        match reply {
            Some(result) => outcome == (result, false),
            None => outcome.1 && (outcome.0 matches Err(error) && error.is_simple(
                ErrorKind::BrokenPipe,
                "ptyx reactor stopped"@,
            )),
        },
{
    match reply {
        Some(result) => (result, false),
        None => (Err(IoError::new(ErrorKind::BrokenPipe, "ptyx reactor stopped")), true),
    }
}

/// A write that a caller was told is taken is the last command, whole and unchanged.
pub proof fn taken_write_is_queued(
    before: &IntegratedRuntime,
    after: &IntegratedRuntime,
    handle: u64,
    bytes: Seq<u8>,
    result: i64,
)
    requires
        written(before, after, handle, bytes, result),
    ensures
        result == 1 <==> after.commands@.len() > before.commands@.len(),
        result == 1 ==> (after.commands@.last() matches Command::Write { handle: target, bytes: data }
            && target == handle && buffer::bytes_of(data) == bytes),
        result != 1 ==> after.commands@ == before.commands@,
{
}

/// What the reactor's answer to the start of a close means. Without one the reactor is gone.
pub fn close_started(reply: Option<bool>) -> (result: Result<(), IoError>)
    ensures
        match result {
            Ok(()) => reply == Some(true),
            Err(error) => match reply {
                Some(accepted) => !accepted && error.is_simple(
                    ErrorKind::NotFound,
                    "stale session"@,
                ),
                None => error.is_simple(ErrorKind::BrokenPipe, "ptyx reactor stopped"@),
            },
        },
{
    match reply {
        Some(true) => Ok(()),
        Some(false) => Err(IoError::new(ErrorKind::NotFound, "stale session")),
        None => Err(IoError::new(ErrorKind::BrokenPipe, "ptyx reactor stopped")),
    }
}

/// Commands reach the reactor in the order in which they were handed over: a write that was
/// taken stands before a command handed over later, such as a close, and both behind all
/// that waited.
pub proof fn write_stays_before_later_commands(
    before: &IntegratedRuntime,
    between: &IntegratedRuntime,
    after: &IntegratedRuntime,
    handle: u64,
    bytes: Seq<u8>,
    later: Command,
)
    requires
        written(before, between, handle, bytes, 1),
        submitted(between, after, later, Sent::Queued),
    ensures
        after.commands@.len() == before.commands@.len() + 2,
        after.commands@.take(before.commands@.len() as int) == before.commands@,
        after.commands@[before.commands@.len() as int] matches Command::Write {
            handle: target,
            bytes: data,
        } && target == handle && buffer::bytes_of(data) == bytes,
        after.commands@.last() == later,
{
    assert(between.commands@.drop_last() == before.commands@);
    assert(after.commands@.take(before.commands@.len() as int) =~= before.commands@);
}

/// Once a session's close has started, no write is taken.
pub proof fn closing_session_takes_no_write(runtime: &IntegratedRuntime, handle: u64, length: nat)
    requires
        runtime.wf(),
        runtime.reactor.at(handle) matches Some(session) && session.life.close_started,
    ensures
        write_result(runtime, handle, length) == -1,
{
    assert(runtime.reactor.sessions.resolve(handle) == runtime.reactor.at(handle));
}

} // verus!
