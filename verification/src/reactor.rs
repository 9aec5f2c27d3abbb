//! The reactor of the Unix engine: what every command, control and deadline does to the
//! sessions, and what it asks of the operating system and the broker.
use crate::buffer;
use crate::engine_event::{CloseResult, Notice};
use crate::engine_session::{
    self, Closing, CloseStep, Filters, Interest, Life, Mail, Refresh, ReleaseStep, Session,
    MAX_NOW, MAX_TIMEOUT,
};
use crate::fault::{ErrorKind, IoError};
use crate::registry::{self, GenerationRegistry};
use crate::session::{InputAdmission, InputState, OutputState, MAX_SESSION_CAPACITY};
use bytes::Bytes;
use std::collections::HashMap;
use vstd::prelude::*;

verus! {

broadcast use vstd::std_specs::hash::group_hash_axioms;

/// Counts of the reactor's work.
#[derive(Clone, Copy, Debug, PartialEq, Eq, Structural)]
pub struct RuntimeCounters {
    pub reactor_wakeups: u64,
    pub reactor_events: u64,
    pub command_wakeups: u64,
    pub read_syscalls: u64,
    pub write_syscalls: u64,
    pub read_bytes: u64,
    pub write_bytes: u64,
    pub notifications: u64,
}

impl Default for RuntimeCounters {
    fn default() -> (counters: Self)
        ensures
            counters == (RuntimeCounters {
                reactor_wakeups: 0,
                reactor_events: 0,
                command_wakeups: 0,
                read_syscalls: 0,
                write_syscalls: 0,
                read_bytes: 0,
                write_bytes: 0,
                notifications: 0,
            }),
    {
        RuntimeCounters {
            reactor_wakeups: 0,
            reactor_events: 0,
            command_wakeups: 0,
            read_syscalls: 0,
            write_syscalls: 0,
            read_bytes: 0,
            write_bytes: 0,
            notifications: 0,
        }
    }
}

impl RuntimeCounters {
    /// Counts one read and its bytes.
    pub fn count_read(&mut self, bytes: u64)
        ensures
            *final(self) == (RuntimeCounters {
                read_syscalls: old(self).read_syscalls.wrapping_add(1),
                read_bytes: old(self).read_bytes.wrapping_add(bytes),
                ..*old(self)
            }),
    {
        self.read_syscalls = self.read_syscalls.wrapping_add(1);
        self.read_bytes = self.read_bytes.wrapping_add(bytes);
    }

    /// Counts one write and its bytes.
    pub fn count_write(&mut self, bytes: u64)
        ensures
            *final(self) == (RuntimeCounters {
                write_syscalls: old(self).write_syscalls.wrapping_add(1),
                write_bytes: old(self).write_bytes.wrapping_add(bytes),
                ..*old(self)
            }),
    {
        self.write_syscalls = self.write_syscalls.wrapping_add(1);
        self.write_bytes = self.write_bytes.wrapping_add(bytes);
    }

    /// Counts one return of the readiness call with its events.
    pub fn count_wakeup(&mut self, events: u64)
        ensures
            *final(self) == (RuntimeCounters {
                reactor_wakeups: old(self).reactor_wakeups.wrapping_add(1),
                reactor_events: old(self).reactor_events.wrapping_add(events),
                ..*old(self)
            }),
    {
        self.reactor_wakeups = self.reactor_wakeups.wrapping_add(1);
        self.reactor_events = self.reactor_events.wrapping_add(events);
    }

    /// Counts one wake for commands.
    pub fn count_command_wakeup(&mut self)
        ensures
            *final(self) == (RuntimeCounters {
                command_wakeups: old(self).command_wakeups.wrapping_add(1),
                ..*old(self)
            }),
    {
        self.command_wakeups = self.command_wakeups.wrapping_add(1);
    }

    /// Counts one notice that was queued.
    pub fn count_notification(&mut self, queued: bool)
        ensures
            *final(self) == if queued {
                RuntimeCounters {
                    notifications: old(self).notifications.wrapping_add(1),
                    ..*old(self)
                }
            } else {
                *old(self)
            },
    {
        if queued {
            self.notifications = self.notifications.wrapping_add(1);
        }
    }
}

/// Where a rotated list of ready events starts, and the next rotation.
pub fn rotate(rotation: usize, length: usize) -> (turned: (usize, usize))
    ensures
        length > 0 ==> turned.0 == rotation % length && turned.1 == rotation.wrapping_add(1),
        length == 0 ==> turned == (0usize, rotation),
{
    if length == 0 {
        (0, rotation)
    } else {
        (rotation % length, rotation.wrapping_add(1))
    }
}

/// Whether a session can have these capacities.
pub open spec fn capacities_fit(input_capacity: usize, output_capacity: usize) -> bool {
    1 <= input_capacity <= MAX_SESSION_CAPACITY && 1 <= output_capacity <= MAX_SESSION_CAPACITY
}

/// Checks the capacities of a new session.
pub fn validate_capacities(input_capacity: usize, output_capacity: usize) -> (result: Result<
    (),
    IoError,
>)
    ensures
        match result {
            Ok(()) => capacities_fit(input_capacity, output_capacity),
            Err(error) => !capacities_fit(input_capacity, output_capacity) && error.is_simple(
                ErrorKind::InvalidInput,
                "capacities must be in 1..=67108864"@,
            ),
        },
{
    if input_capacity == 0 || input_capacity > MAX_SESSION_CAPACITY || output_capacity == 0
        || output_capacity > MAX_SESSION_CAPACITY {
        return Err(IoError::new(ErrorKind::InvalidInput, "capacities must be in 1..=67108864"));
    }
    Ok(())
}

/// A request to the reactor.
#[derive(Debug, PartialEq, Eq)]
pub enum Command {
    Add {
        broker_session: u64,
        pid: i32,
        input_capacity: usize,
        output_capacity: usize,
        graceful_close_timeout: u64,
    },
    Activate { handle: u64 },
    Write { handle: u64, bytes: Bytes },
    CancelOutput { handle: u64 },
    ExitStatus { handle: u64 },
    Pid { handle: u64 },
    Size { handle: u64 },
    Snapshot { handle: u64 },
    Resize { handle: u64, size: [u32; 4] },
    Mode { handle: u64 },
    ObserveMode { handle: u64, observe: bool },
    TtyName { handle: u64 },
    Signal { handle: u64, signal: i32 },
    Close { handle: u64 },
    CloseStart { handle: u64, waiter: u64 },
    BrokerExit { broker_session: u64, status: i32 },
    BrokerLost,
    GracefulSignalResult { handle: u64, result: Option<bool> },
    ForceCloseResult { handle: u64, succeeded: bool },
    ReleaseResult { handle: u64, succeeded: bool },
    Shutdown,
}

/// What a terminal is asked.
#[derive(Clone, Copy, Debug, PartialEq, Eq, Structural)]
pub enum Query {
    Size,
    Snapshot,
    Mode,
    TtyName,
}

/// What follows a turn of reading.
#[derive(Clone, Copy, Debug, PartialEq, Eq, Structural)]
pub enum AfterRead {
    Nothing,
    Activated,
    Exited(i32),
}

/// What the reactor's thread has to do next.
#[derive(Clone, Copy, Debug)]
pub enum Work {
    Done,
    /// Change the readiness, then report to `after_register_reads`.
    RegisterReads { handle: u64, interest: Interest },
    /// Change the readiness, then report to `after_register_writes`.
    RegisterWrites { handle: u64, interest: Interest },
    /// Change the readiness; what comes of it does not matter.
    Apply { handle: u64, interest: Interest },
    /// Run a turn of reading and refresh the output, then report to `after_read_turn`.
    Read { handle: u64, then: AfterRead },
    /// Ask the session's terminal and reply.
    Ask { handle: u64, query: Query },
    /// Resize the session's terminal and reply.
    Resize { handle: u64, size: [u32; 4] },
    /// Read the terminal mode if observation starts, then report to `observe_mode` of the
    /// session; the mode that it returns is told.
    Observe { handle: u64, observe: bool },
    /// Have the broker signal, and reply with its answer.
    Signal { broker_session: u64, signal: i32 },
    /// Ask the broker to close, then report to `after_close_request`.
    RequestClose { handle: u64, broker_session: u64 },
    /// Ask the broker to signal, then report to `after_graceful_signal`.
    SignalGracefully { handle: u64, broker_session: u64 },
    /// Ask the broker to kill, then report to `after_force_close`.
    ForceClose { handle: u64, broker_session: u64 },
    /// Take down every session with `fail_all`.
    FailAll,
    /// Take down every session with `shutdown_all` and stop.
    Stop,
}

/// What the caller of a command is told, once the work is done.
#[derive(Debug, PartialEq, Eq)]
pub enum Reply {
    Nothing,
    Added(u64),
    Activated(Result<(), IoError>),
    Flag(bool),
    Status(Option<i64>),
    Pid(Option<i32>),
    Signalled(Option<bool>),
    /// The answer of the terminal or the broker.
    Outside,
    /// The terminal has no answer: there is no such session.
    Missing,
}

/// What one command came to.
#[derive(Debug)]
pub struct Outcome {
    pub notice: Option<Notice>,
    pub work: Work,
    pub reply: Reply,
}

/// A session that was taken down with the broker.
#[derive(Clone, Copy, Debug, PartialEq, Eq, Structural)]
pub struct LostSession {
    pub handle: u64,
    pub pid: i32,
    pub broker_session: u64,
    pub report_input_failure: bool,
}

/// Where the reaping of a session stands.
#[derive(Clone, Debug, PartialEq, Eq)]
pub enum ReapStep {
    Keep,
    /// Ask the broker to release, then report back.
    AskRelease { broker_session: u64 },
    /// The session is gone: tell those who wait, and send the notice.
    Closed { result: CloseResult, waiters: Vec<u64>, notify: bool },
    /// The session is gone.
    Removed,
}

/// The reactor's state.
pub struct Reactor {
    pub sessions: GenerationRegistry<Session>,
    pub pending_exits: HashMap<u64, i32>,
}

/// A step without work or notice.
pub open spec fn is_reply(outcome: &Outcome, reply: Reply) -> bool {
    outcome.notice is None && outcome.work is Done && outcome.reply == reply
}

impl Reactor {
    /// What a handle names.
    pub open spec fn at(&self, handle: u64) -> Option<Session> {
        self.sessions.resolve(handle)
    }

    /// Every session is well formed.
    pub open spec fn wf(&self) -> bool {
        &&& self.sessions.wf()
        &&& forall|handle: u64|
            (#[trigger] self.sessions.resolve(handle)) matches Some(session) ==> session.wf()
    }

    /// Every session is orderly. From an empty reactor on, every step keeps this.
    pub open spec fn orderly(&self) -> bool {
        forall|handle: u64|
            (#[trigger] self.sessions.resolve(handle)) matches Some(session) ==> session.orderly()
    }

    /// Only one session may differ from the other reactor.
    pub open spec fn same_but(&self, other: &Reactor, handle: u64) -> bool {
        &&& self.pending_exits@ == other.pending_exits@
        &&& forall|peer: u64| peer != handle ==> #[trigger] self.at(peer) == other.at(peer)
    }

    /// Nothing differs from the other reactor.
    pub open spec fn same(&self, other: &Reactor) -> bool {
        &&& self.pending_exits@ == other.pending_exits@
        &&& self.sessions == other.sessions
    }

    /// A reactor without sessions.
    pub fn new() -> (reactor: Reactor)
        ensures
            reactor.wf(),
            reactor.orderly(),
            forall|handle: u64| #[trigger] reactor.at(handle) is None,
            reactor.pending_exits@ == Map::<u64, i32>::empty(),
            reactor.sessions.slots@.len() == 0,
    {
        Reactor { sessions: GenerationRegistry::new(), pending_exits: HashMap::new() }
    }

    /// Adds a child that the broker started. One whose exit was already reported starts
    /// with it.
    pub fn add(
        &mut self,
        broker_session: u64,
        pid: i32,
        input_capacity: usize,
        output_capacity: usize,
        graceful_close_timeout: u64,
        now: u64,
    ) -> (handle: u64)
        requires
            old(self).wf(),
            old(self).sessions.slots@.len() < u32::MAX,
            output_capacity <= isize::MAX,
            graceful_close_timeout <= MAX_TIMEOUT,
            now <= MAX_NOW,
        ensures
            final(self).wf(),
            old(self).orderly() ==> final(self).orderly(),
            old(self).at(handle) is None,
            forall|peer: u64| peer != handle ==> #[trigger] final(self).at(peer) == old(self).at(
                peer,
            ),
            final(self).pending_exits@ == old(self).pending_exits@.remove(broker_session),
            final(self).at(handle) matches Some(session) && is_added(
                old(self),
                &session,
                broker_session,
                pid,
                input_capacity,
                output_capacity,
                graceful_close_timeout,
                now,
            ),
    {
        let mut session = Session::from_broker(
            broker_session,
            pid,
            input_capacity,
            output_capacity,
            graceful_close_timeout,
            now,
        );
        match self.pending_exits.remove(&broker_session) {
            Some(status) => {
                session.life.exit_status = Some(status as i64);
            },
            None => {
                assert(self.pending_exits@ =~= old(self).pending_exits@.remove(broker_session));
            },
        }
        let handle: u64 = self.sessions.insert(session);
        handle
    }

    /// Starts an activation: the session's readiness is registered first.
    pub fn activate(&mut self, handle: u64) -> (outcome: Outcome)
        requires
            old(self).wf(),
        ensures
            final(self).wf(),
            old(self).orderly() ==> final(self).orderly(),
            activate_step(old(self), final(self), handle, &outcome),
    {
        match self.sessions.get_mut(handle) {
            Some(session) => {
                if session.life.abandoned || session.life.close_started {
                    let error = IoError::new(
                        ErrorKind::BrokenPipe,
                        "session activation was abandoned",
                    );
                    return refuse_activation(session, handle, error);
                }
                let wanted = !session.output.paused;
                let interest = session.update_read_filter(wanted);
                Outcome {
                    notice: None,
                    work: Work::RegisterReads { handle, interest },
                    reply: Reply::Nothing,
                }
            },
            None => stale_activation(),
        }
    }

    /// Goes on with an activation after the reading side was registered.
    pub fn after_register_reads(
        &mut self,
        handle: u64,
        interest: Interest,
        result: Result<(), IoError>,
    ) -> (outcome: Outcome)
        requires
            old(self).wf(),
        ensures
            final(self).wf(),
            old(self).orderly() ==> final(self).orderly(),
            after_register_reads_step(
                old(self),
                final(self),
                handle,
                interest,
                result,
                &outcome,
            ),
    {
        match self.sessions.get_mut(handle) {
            Some(session) => match result {
                Ok(()) => {
                    session.interest_changed(interest);
                    let wanted = session.input.queue.len() > 0;
                    let next = session.update_write_filter(wanted);
                    Outcome {
                        notice: None,
                        work: Work::RegisterWrites { handle, interest: next },
                        reply: Reply::Nothing,
                    }
                },
                Err(error) => refuse_activation(session, handle, error),
            },
            None => stale_activation(),
        }
    }

    /// Ends an activation after the writing side was registered.
    pub fn after_register_writes(
        &mut self,
        handle: u64,
        interest: Interest,
        result: Result<(), IoError>,
    ) -> (outcome: Outcome)
        requires
            old(self).wf(),
        ensures
            final(self).wf(),
            old(self).orderly() && (old(self).at(handle) matches Some(session)
                ==> session.input.queue@.len() > 0 ==> session.filters.write == Some(true))
                ==> final(self).orderly(),
            after_register_writes_step(
                old(self),
                final(self),
                handle,
                interest,
                result,
                &outcome,
            ),
    {
        match self.sessions.get_mut(handle) {
            Some(session) => match result {
                Ok(()) => {
                    session.interest_changed(interest);
                    session.life.active = true;
                    session.output.paused = false;
                    session.life.activation_deadline = None;
                    let notice = if session.input.failure_pending {
                        notify_input_failure(handle, session)
                    } else {
                        None
                    };
                    Outcome {
                        notice,
                        work: Work::Read { handle, then: AfterRead::Activated },
                        reply: Reply::Activated(Ok(())),
                    }
                },
                Err(error) => refuse_activation(session, handle, error),
            },
            None => stale_activation(),
        }
    }

    /// Queues an admitted write. One that comes too late is reported as lost.
    pub fn write(&mut self, handle: u64, bytes: Bytes) -> (outcome: Outcome)
        requires
            old(self).wf(),
            old(self).at(handle) matches Some(session) ==> session.input.bytes
                + buffer::bytes_of(bytes).len() <= usize::MAX && session.input.entries
                < usize::MAX,
        ensures
            final(self).wf(),
            old(self).orderly() ==> final(self).orderly(),
            write_step(old(self), final(self), handle, bytes, &outcome),
    {
        match self.sessions.get_mut(handle) {
            Some(session) => {
                let length: usize = bytes.len();
                let close_started = session.life.close_started;
                match session.input.enqueue_write(bytes, close_started) {
                    Ok(()) => {
                        if session.life.active {
                            let interest = session.update_write_filter(true);
                            Outcome {
                                notice: None,
                                work: Work::Apply { handle, interest },
                                reply: Reply::Nothing,
                            }
                        } else {
                            quiet(Reply::Nothing)
                        }
                    },
                    Err(_) => {
                        session.input.admission.release(length, 1);
                        Outcome {
                            notice: notify_input_failure(handle, session),
                            work: Work::Done,
                            reply: Reply::Nothing,
                        }
                    },
                }
            },
            None => quiet(Reply::Nothing),
        }
    }

    /// Turns a session's output to discarding.
    pub fn cancel_output(&mut self, handle: u64) -> (outcome: Outcome)
        requires
            old(self).wf(),
        ensures
            final(self).wf(),
            old(self).orderly() ==> final(self).orderly(),
            cancel_step(old(self), final(self), handle, &outcome),
    {
        match self.sessions.get_mut(handle) {
            Some(session) => {
                session.cancel_output();
                Outcome {
                    notice: None,
                    work: Work::Read { handle, then: AfterRead::Nothing },
                    reply: Reply::Flag(true),
                }
            },
            None => quiet(Reply::Flag(false)),
        }
    }

    /// Signals a session's processes through the broker, unless the child exited.
    pub fn signal(&self, handle: u64, signal: i32) -> (outcome: Outcome)
        ensures
            signal_step(self, handle, signal, &outcome),
    {
        match self.sessions.get(handle) {
            Some(session) => {
                if session.life.exit_status.is_some() {
                    quiet(Reply::Signalled(Some(false)))
                } else {
                    Outcome {
                        notice: None,
                        work: Work::Signal { broker_session: session.broker_session, signal },
                        reply: Reply::Outside,
                    }
                }
            },
            None => quiet(Reply::Signalled(None)),
        }
    }

    /// Asks a session's terminal something.
    fn ask(&self, handle: u64, query: Query) -> (outcome: Outcome)
        ensures
            ask_step(self, handle, query, &outcome),
    {
        match self.sessions.get(handle) {
            Some(_) => Outcome {
                notice: None,
                work: Work::Ask { handle, query },
                reply: Reply::Outside,
            },
            None => quiet(Reply::Missing),
        }
    }

    /// Starts a close, and remembers who waits for it.
    pub fn close(&mut self, handle: u64, waiter: Option<u64>, now: u64) -> (outcome: Outcome)
        requires
            old(self).wf(),
            now <= MAX_NOW,
        ensures
            final(self).wf(),
            old(self).orderly() ==> final(self).orderly(),
            close_step(old(self), final(self), handle, waiter, now, &outcome),
    {
        match self.sessions.get_mut(handle) {
            Some(session) => {
                if let Some(waiter) = waiter {
                    session.close_waiters.push(waiter);
                }
                let broker_session: u64 = session.broker_session;
                let work = match session.start_graceful_close(now) {
                    CloseStep::Settled => Work::Done,
                    CloseStep::SignalGracefully => Work::SignalGracefully {
                        handle,
                        broker_session,
                    },
                    CloseStep::ForceClose => Work::ForceClose { handle, broker_session },
                };
                Outcome { notice: None, work, reply: Reply::Flag(true) }
            },
            None => quiet(Reply::Flag(false)),
        }
    }

    /// The first session, in the order of the slots, that stands for a broker session.
    fn find_broker_session(&self, broker_session: u64) -> (found: Option<u64>)
        requires
            self.wf(),
        ensures
            match found {
                Some(handle) => is_first_for(self, handle, broker_session),
                None => forall|handle: u64|
                    (#[trigger] self.at(handle)) matches Some(session) ==> session.broker_session
                        != broker_session,
            },
    {
        let handles = self.sessions.handles();
        let ghost items = registry::occupants(self.sessions.slots@);
        proof {
            occupants_resolve(self.sessions.slots@, self.sessions.free@);
        }
        for index in 0..handles.len()
            invariant
                self.wf(),
                handles@ == items.map_values(|item: (u64, Session)| item.0),
                items == registry::occupants(self.sessions.slots@),
                forall|i: int|
                    0 <= i < items.len() ==> self.at((#[trigger] items[i]).0) == Some(items[i].1),
                forall|i: int|
                    0 <= i < index ==> (#[trigger] items[i]).1.broker_session != broker_session,
        {
            let handle: u64 = handles[index];
            assert(handle == items[index as int].0);
            if let Some(session) = self.sessions.get(handle) {
                if session.broker_session == broker_session {
                    assert(items[index as int].1.broker_session == broker_session);
                    return Some(handle);
                }
            }
        }
        assert forall|handle: u64| (#[trigger] self.at(handle)) is Some implies self.at(
            handle,
        ).unwrap().broker_session != broker_session by {
            resolved_is_occupant(self.sessions.slots@, handle);
        }
        None
    }

    /// Records a child's exit. One whose session is not there yet is kept for it.
    pub fn broker_exit(&mut self, broker_session: u64, status: i32) -> (outcome: Outcome)
        requires
            old(self).wf(),
        ensures
            final(self).wf(),
            old(self).orderly() ==> final(self).orderly(),
            broker_exit_step(old(self), final(self), broker_session, status, &outcome),
    {
        match self.find_broker_session(broker_session) {
            Some(handle) => match self.sessions.get_mut(handle) {
                Some(session) => {
                    session.life.exit_status = Some(status as i64);
                    session.closing.deadline = None;
                    let notice = if session.life.abandoned {
                        None
                    } else {
                        fail_input(handle, session)
                    };
                    Outcome {
                        notice,
                        work: Work::Read { handle, then: AfterRead::Exited(status) },
                        reply: Reply::Nothing,
                    }
                },
                None => quiet(Reply::Nothing),
            },
            None => {
                self.pending_exits.insert(broker_session, status);
                quiet(Reply::Nothing)
            },
        }
    }

    /// Goes to force when a graceful signal failed while the child is there.
    pub fn graceful_signal_result(&mut self, handle: u64, result: Option<bool>) -> (outcome:
        Outcome)
        requires
            old(self).wf(),
        ensures
            final(self).wf(),
            old(self).orderly() ==> final(self).orderly(),
            graceful_result_step(old(self), final(self), handle, result, &outcome),
    {
        if result.is_some() {
            return quiet(Reply::Nothing);
        }
        match self.sessions.get_mut(handle) {
            Some(session) => {
                if session.record_cleanup_result(false) {
                    let broker_session: u64 = session.broker_session;
                    let work = match session.escalate_close() {
                        CloseStep::ForceClose => Work::ForceClose { handle, broker_session },
                        _ => Work::Done,
                    };
                    Outcome { notice: None, work, reply: Reply::Nothing }
                } else {
                    quiet(Reply::Nothing)
                }
            },
            None => quiet(Reply::Nothing),
        }
    }

    /// Records how the broker's release ended.
    pub fn release_result(&mut self, handle: u64, succeeded: bool) -> (outcome: Outcome)
        requires
            old(self).wf(),
        ensures
            final(self).wf(),
            old(self).orderly() ==> final(self).orderly(),
            release_result_step(old(self), final(self), handle, succeeded, &outcome),
    {
        match self.sessions.get_mut(handle) {
            Some(session) => {
                session.record_release_result(succeeded);
            },
            None => {},
        }
        quiet(Reply::Nothing)
    }

    /// What one command does, and what it asks for.
    pub fn process(&mut self, command: Command, now: u64) -> (outcome: Outcome)
        requires
            old(self).wf(),
            now <= MAX_NOW,
            command matches Command::Add { output_capacity, graceful_close_timeout, .. } ==> old(
                self).sessions.slots@.len() < u32::MAX && output_capacity <= isize::MAX
                && graceful_close_timeout <= MAX_TIMEOUT,
            command matches Command::Write { handle, bytes } ==> (old(self).at(
                handle,
            ) matches Some(session) ==> session.input.bytes + buffer::bytes_of(bytes).len()
                <= usize::MAX && session.input.entries < usize::MAX),
        ensures
            final(self).wf(),
            old(self).orderly() ==> final(self).orderly(),
            process_step(old(self), final(self), command, now, &outcome),
    {
        match command {
            Command::Add {
                broker_session,
                pid,
                input_capacity,
                output_capacity,
                graceful_close_timeout,
            } => {
                let handle: u64 = self.add(
                    broker_session,
                    pid,
                    input_capacity,
                    output_capacity,
                    graceful_close_timeout,
                    now,
                );
                quiet(Reply::Added(handle))
            },
            Command::Activate { handle } => self.activate(handle),
            Command::Write { handle, bytes } => self.write(handle, bytes),
            Command::CancelOutput { handle } => self.cancel_output(handle),
            Command::ExitStatus { handle } => {
                let status: Option<i64> = match self.sessions.get(handle) {
                    Some(session) => session.life.exit_status,
                    None => None,
                };
                quiet(Reply::Status(status))
            },
            Command::Pid { handle } => {
                let pid: Option<i32> = match self.sessions.get(handle) {
                    Some(session) => Some(session.pid),
                    None => None,
                };
                quiet(Reply::Pid(pid))
            },
            Command::Size { handle } => self.ask(handle, Query::Size),
            Command::Snapshot { handle } => self.ask(handle, Query::Snapshot),
            Command::Mode { handle } => self.ask(handle, Query::Mode),
            Command::TtyName { handle } => self.ask(handle, Query::TtyName),
            Command::Resize { handle, size } => match self.sessions.get(handle) {
                Some(_) => Outcome {
                    notice: None,
                    work: Work::Resize { handle, size },
                    reply: Reply::Outside,
                },
                None => quiet(Reply::Flag(false)),
            },
            Command::ObserveMode { handle, observe } => match self.sessions.get(handle) {
                Some(_) => Outcome {
                    notice: None,
                    work: Work::Observe { handle, observe },
                    reply: Reply::Flag(true),
                },
                None => quiet(Reply::Flag(false)),
            },
            Command::Signal { handle, signal } => self.signal(handle, signal),
            Command::Close { handle } => self.close(handle, None, now),
            Command::CloseStart { handle, waiter } => self.close(handle, Some(waiter), now),
            Command::BrokerExit { broker_session, status } => self.broker_exit(
                broker_session,
                status,
            ),
            Command::BrokerLost => {
                self.pending_exits.clear();
                Outcome { notice: None, work: Work::FailAll, reply: Reply::Nothing }
            },
            Command::GracefulSignalResult { handle, result } => self.graceful_signal_result(
                handle,
                result,
            ),
            Command::ForceCloseResult { .. } => quiet(Reply::Nothing),
            Command::ReleaseResult { handle, succeeded } => self.release_result(
                handle,
                succeeded,
            ),
            Command::Shutdown => Outcome {
                notice: None,
                work: Work::Stop,
                reply: Reply::Nothing,
            },
        }
    }
}

impl Reactor {
    /// Refreshes a session's output.
    pub fn refresh_output(&mut self, handle: u64, now: u64) -> (refresh: Option<Refresh>)
        requires
            old(self).wf(),
        ensures
            final(self).wf(),
            old(self).orderly() ==> final(self).orderly(),
            final(self).same_but(old(self), handle),
            match (old(self).at(handle), refresh) {
                (Some(session), Some(refresh)) => final(self).at(handle) matches Some(next)
                    && refreshed(&session, &next, now, &refresh),
                (None, None) => final(self).at(handle) is None,
                _ => false,
            },
    {
        match self.sessions.get_mut(handle) {
            Some(session) => Some(session.refresh_output(now)),
            None => None,
        }
    }

    /// What is told after a turn of reading: the exit of a child that is known to be gone
    /// when its session became active, or that just went.
    pub fn after_read_turn(&mut self, handle: u64, then: AfterRead, now: u64) -> (told: (
        Option<Notice>,
        Option<Refresh>,
    ))
        requires
            old(self).wf(),
        ensures
            final(self).wf(),
            old(self).orderly() ==> final(self).orderly(),
            final(self).same_but(old(self), handle),
            told.0 == match (then, old(self).at(handle)) {
                (AfterRead::Activated, Some(session)) => match session.life.exit_status {
                    Some(status) => Some(Notice::Exit { handle, status }),
                    None => None,
                },
                (AfterRead::Exited(status), Some(session)) => if session.life.active {
                    Some(Notice::Exit { handle, status: status as i64 })
                } else {
                    None
                },
                _ => None,
            },
            match (then, old(self).at(handle), told.1) {
                (AfterRead::Activated, Some(session), Some(refresh)) => final(self).at(
                    handle,
                ) matches Some(next) && refreshed(&session, &next, now, &refresh),
                (AfterRead::Activated, Some(_), None) => false,
                (_, _, refresh) => refresh is None && final(self).at(handle) == old(self).at(
                    handle,
                ),
            },
    {
        match then {
            AfterRead::Nothing => (None, None),
            AfterRead::Activated => {
                let notice: Option<Notice> = match self.sessions.get(handle) {
                    Some(session) => match session.life.exit_status {
                        Some(status) => Some(Notice::Exit { handle, status }),
                        None => None,
                    },
                    None => None,
                };
                (notice, self.refresh_output(handle, now))
            },
            AfterRead::Exited(status) => {
                let active = match self.sessions.get(handle) {
                    Some(session) => session.life.active,
                    None => false,
                };
                if active {
                    (Some(Notice::Exit { handle, status: status as i64 }), None)
                } else {
                    (None, None)
                }
            },
        }
    }

    /// Takes credit back from a consumer. The result says whether the session's output is
    /// to be refreshed.
    pub fn credit(&mut self, handle: u64, bytes: usize) -> (refresh: bool)
        requires
            old(self).wf(),
        ensures
            final(self).wf(),
            old(self).orderly() ==> final(self).orderly(),
            final(self).same_but(old(self), handle),
            match old(self).at(handle) {
                Some(session) => {
                    &&& refresh == (bytes <= session.output.outstanding && session.life.active)
                    &&& final(self).at(handle) == Some(
                        Session {
                            output: OutputState {
                                outstanding: if bytes <= session.output.outstanding {
                                    (session.output.outstanding - bytes) as usize
                                } else {
                                    session.output.outstanding
                                },
                                ..session.output
                            },
                            ..session
                        },
                    )
                },
                None => !refresh && final(self).at(handle) is None,
            },
    {
        match self.sessions.get_mut(handle) {
            Some(session) => session.output.credit(bytes) && session.life.active,
            None => false,
        }
    }

    /// Gives a session up. The broker is asked to close what cannot be closed here, and
    /// what is left of the output is read and dropped.
    pub fn abandon(&mut self, handle: u64) -> (abandoned: Option<Abandoned>)
        requires
            old(self).wf(),
        ensures
            final(self).wf(),
            old(self).orderly() ==> final(self).orderly(),
            final(self).same_but(old(self), handle),
            match (old(self).at(handle), abandoned) {
                (Some(session), Some(abandoned)) => final(self).at(handle) matches Some(next)
                    && abandoned_from(&session, &next, &abandoned),
                (None, None) => final(self).at(handle) is None,
                _ => false,
            },
    {
        match self.sessions.get_mut(handle) {
            Some(session) => {
                session.abandon();
                let broker_session: u64 = session.broker_session;
                let request_close: Option<u64> = match session.close_session() {
                    Some(_) => None,
                    None => Some(broker_session),
                };
                let reads = session.update_read_filter(true);
                let writes = session.update_write_filter(false);
                Some(Abandoned { request_close, reads, writes })
            },
            None => None,
        }
    }

    /// What follows the request to the broker to close.
    pub fn after_close_request(&mut self, handle: u64, mail: Mail)
        requires
            old(self).wf(),
        ensures
            final(self).wf(),
            old(self).orderly() ==> final(self).orderly(),
            final(self).same_but(old(self), handle),
            final(self).at(handle) == match old(self).at(handle) {
                Some(session) => Some(
                    if mail == Mail::Accepted {
                        engine_session::started_close(session)
                    } else {
                        session
                    },
                ),
                None => None,
            },
    {
        if let Some(session) = self.sessions.get_mut(handle) {
            session.after_close_request(mail);
        }
    }

    /// What follows the request to the broker to signal. The result is the broker session
    /// to kill when the signal cannot be sent.
    pub fn after_graceful_signal(&mut self, handle: u64, mail: Mail) -> (force: Option<u64>)
        requires
            old(self).wf(),
        ensures
            final(self).wf(),
            old(self).orderly() ==> final(self).orderly(),
            final(self).same_but(old(self), handle),
            match old(self).at(handle) {
                Some(session) => if mail == Mail::Accepted {
                    force is None && final(self).at(handle) == Some(session)
                } else {
                    &&& final(self).at(handle) == Some(
                        Session {
                            closing: Closing { deadline: None, ..session.closing },
                            ..session
                        },
                    )
                    &&& force == if session.closing.escalated {
                        None
                    } else {
                        Some(session.broker_session)
                    }
                },
                None => force is None && final(self).at(handle) is None,
            },
    {
        match self.sessions.get_mut(handle) {
            Some(session) => {
                let broker_session: u64 = session.broker_session;
                match session.after_graceful_signal(mail) {
                    CloseStep::ForceClose => Some(broker_session),
                    _ => None,
                }
            },
            None => None,
        }
    }

    /// What follows the request to the broker to kill.
    pub fn after_force_close(&mut self, handle: u64, mail: Mail, now: u64)
        requires
            old(self).wf(),
        ensures
            final(self).wf(),
            old(self).orderly() ==> final(self).orderly(),
            final(self).same_but(old(self), handle),
            final(self).at(handle) == match old(self).at(handle) {
                Some(session) => Some(
                    Session {
                        closing: if mail == Mail::Full {
                            Closing { deadline: Some(now), ..session.closing }
                        } else {
                            Closing { escalated: true, ..session.closing }
                        },
                        ..session
                    },
                ),
                None => None,
            },
    {
        if let Some(session) = self.sessions.get_mut(handle) {
            session.after_force_close(mail, now);
        }
    }

    /// Turns a close to force when its time is over. The result is the broker session to
    /// kill.
    pub fn escalate_due_close(&mut self, handle: u64, now: u64) -> (force: Option<u64>)
        requires
            old(self).wf(),
        ensures
            final(self).wf(),
            old(self).orderly() ==> final(self).orderly(),
            final(self).same_but(old(self), handle),
            match old(self).at(handle) {
                Some(session) => if session.closing.deadline matches Some(deadline) && deadline
                    <= now {
                    &&& final(self).at(handle) == Some(
                        Session {
                            closing: Closing { deadline: None, ..session.closing },
                            ..session
                        },
                    )
                    &&& force == if session.closing.escalated {
                        None
                    } else {
                        Some(session.broker_session)
                    }
                } else {
                    force is None && final(self).at(handle) == Some(session)
                },
                None => force is None && final(self).at(handle) is None,
            },
    {
        match self.sessions.get_mut(handle) {
            Some(session) => {
                let broker_session: u64 = session.broker_session;
                match session.escalate_due_close(now) {
                    CloseStep::ForceClose => Some(broker_session),
                    _ => None,
                }
            },
            None => None,
        }
    }

    /// Reaps a session whose close is complete. It goes when the broker released it, and
    /// not before.
    pub fn reap_closed(&mut self, handle: u64) -> (step: ReapStep)
        requires
            old(self).wf(),
        ensures
            final(self).wf(),
            old(self).orderly() ==> final(self).orderly(),
            final(self).same_but(old(self), handle),
            match old(self).at(handle) {
                Some(session) => if !session.life.abandoned && session.life.close_started
                    && session.is_drained() {
                    match session.closing.release {
                        engine_session::ReleaseState::Complete => {
                            &&& final(self).at(handle) is None
                            &&& closed_from(&session, &step)
                        },
                        engine_session::ReleaseState::Pending => step is Keep && final(self).at(
                            handle,
                        ) == Some(session),
                        engine_session::ReleaseState::Needed => step == (ReapStep::AskRelease {
                            broker_session: session.broker_session,
                        }) && final(self).at(handle) == Some(session),
                    }
                } else {
                    step is Keep && final(self).at(handle) == Some(session)
                },
                None => step is Keep && final(self).at(handle) is None,
            },
    {
        match self.sessions.get(handle) {
            Some(session) => {
                if !session.close_is_complete() {
                    return ReapStep::Keep;
                }
                match session.request_release() {
                    ReleaseStep::Wait => {
                        return ReapStep::Keep;
                    },
                    ReleaseStep::Ask => {
                        return ReapStep::AskRelease { broker_session: session.broker_session };
                    },
                    ReleaseStep::Complete => {},
                }
            },
            None => {
                return ReapStep::Keep;
            },
        }
        self.finish_close(handle)
    }

    /// What follows the request to the broker to release a session whose close is
    /// complete.
    pub fn after_release_request(&mut self, handle: u64, mail: Mail) -> (step: ReapStep)
        requires
            old(self).wf(),
        ensures
            final(self).wf(),
            old(self).orderly() ==> final(self).orderly(),
            final(self).same_but(old(self), handle),
            match old(self).at(handle) {
                Some(session) => match mail {
                    Mail::Accepted => step is Keep && final(self).at(handle) == Some(
                        Session {
                            closing: Closing {
                                release: engine_session::ReleaseState::Pending,
                                ..session.closing
                            },
                            ..session
                        },
                    ),
                    Mail::Full => step is Keep && final(self).at(handle) == Some(session),
                    Mail::Lost => {
                        &&& final(self).at(handle) is None
                        &&& closed_from(
                            &(Session {
                                closing: Closing {
                                    release: engine_session::ReleaseState::Complete,
                                    ..session.closing
                                },
                                life: Life { cleanup_failed: true, ..session.life },
                                ..session
                            }),
                            &step,
                        )
                    },
                },
                None => step is Keep && final(self).at(handle) is None,
            },
    {
        match self.sessions.get_mut(handle) {
            Some(session) => {
                if !session.after_release_request(mail) {
                    return ReapStep::Keep;
                }
            },
            None => {
                return ReapStep::Keep;
            },
        }
        self.finish_close(handle)
    }

    /// Takes a released session out, with the result of its close.
    fn finish_close(&mut self, handle: u64) -> (step: ReapStep)
        requires
            old(self).wf(),
            old(self).at(handle) matches Some(session) && session.closing.release
                == engine_session::ReleaseState::Complete,
        ensures
            final(self).wf(),
            old(self).orderly() ==> final(self).orderly(),
            final(self).same_but(old(self), handle),
            final(self).at(handle) is None,
            closed_from(&old(self).at(handle).unwrap(), &step),
    {
        match self.sessions.remove(handle) {
            Some(session) => match session.completed_close_result() {
                Some(result) => ReapStep::Closed {
                    result,
                    notify: !session.life.close_notified,
                    waiters: session.close_waiters,
                },
                None => ReapStep::Keep,
            },
            None => ReapStep::Keep,
        }
    }

    /// Gives up a session whose activation is overdue, and closes one that was given up.
    /// The result is the broker session to close.
    pub fn expire_activation(&mut self, handle: u64, now: u64) -> (request_close: Option<u64>)
        requires
            old(self).wf(),
        ensures
            final(self).wf(),
            old(self).orderly() ==> final(self).orderly(),
            final(self).same_but(old(self), handle),
            match old(self).at(handle) {
                Some(session) => final(self).at(handle) matches Some(next) && expired_from(
                    &session,
                    &next,
                    now,
                    request_close,
                ),
                None => request_close is None && final(self).at(handle) is None,
            },
    {
        match self.sessions.get_mut(handle) {
            Some(session) => {
                session.expire_activation(now);
                if session.life.abandoned && !session.life.close_started {
                    let broker_session: u64 = session.broker_session;
                    match session.close_session() {
                        Some(_) => None,
                        None => Some(broker_session),
                    }
                } else {
                    None
                }
            },
            None => None,
        }
    }

    /// Reaps a session that was given up. It goes when the broker released it.
    pub fn reap_abandoned(&mut self, handle: u64) -> (step: ReapStep)
        requires
            old(self).wf(),
        ensures
            final(self).wf(),
            old(self).orderly() ==> final(self).orderly(),
            final(self).same_but(old(self), handle),
            match old(self).at(handle) {
                Some(session) => if session.life.abandoned && session.is_drained() {
                    match session.closing.release {
                        engine_session::ReleaseState::Complete => step is Removed && final(
                            self).at(handle) is None,
                        engine_session::ReleaseState::Pending => step is Keep && final(self).at(
                            handle,
                        ) == Some(session),
                        engine_session::ReleaseState::Needed => step == (ReapStep::AskRelease {
                            broker_session: session.broker_session,
                        }) && final(self).at(handle) == Some(session),
                    }
                } else {
                    step is Keep && final(self).at(handle) == Some(session)
                },
                None => step is Keep && final(self).at(handle) is None,
            },
    {
        match self.sessions.get(handle) {
            Some(session) => {
                if !session.is_removable() {
                    return ReapStep::Keep;
                }
                match session.request_release() {
                    ReleaseStep::Wait => {
                        return ReapStep::Keep;
                    },
                    ReleaseStep::Ask => {
                        return ReapStep::AskRelease { broker_session: session.broker_session };
                    },
                    ReleaseStep::Complete => {},
                }
            },
            None => {
                return ReapStep::Keep;
            },
        }
        self.sessions.remove(handle);
        ReapStep::Removed
    }

    /// What follows the request to the broker to release a session that was given up.
    pub fn after_abandoned_release(&mut self, handle: u64, mail: Mail) -> (step: ReapStep)
        requires
            old(self).wf(),
        ensures
            final(self).wf(),
            old(self).orderly() ==> final(self).orderly(),
            final(self).same_but(old(self), handle),
            match old(self).at(handle) {
                Some(session) => match mail {
                    Mail::Accepted => step is Keep && final(self).at(handle) == Some(
                        Session {
                            closing: Closing {
                                release: engine_session::ReleaseState::Pending,
                                ..session.closing
                            },
                            ..session
                        },
                    ),
                    Mail::Full => step is Keep && final(self).at(handle) == Some(session),
                    Mail::Lost => step is Removed && final(self).at(handle) is None,
                },
                None => step is Keep && final(self).at(handle) is None,
            },
    {
        match self.sessions.get_mut(handle) {
            Some(session) => {
                if !session.after_release_request(mail) {
                    return ReapStep::Keep;
                }
            },
            None => {
                return ReapStep::Keep;
            },
        }
        self.sessions.remove(handle);
        ReapStep::Removed
    }
}

impl Reactor {
    /// Takes down every session when the broker is lost: its input ends, and what was
    /// accepted is reported as lost.
    pub fn fail_all(&mut self) -> (lost: Vec<LostSession>)
        requires
            old(self).wf(),
        ensures
            final(self).wf(),
            old(self).orderly() ==> final(self).orderly(),
            final(self).pending_exits@ == old(self).pending_exits@,
            forall|handle: u64| #[trigger] final(self).at(handle) is None,
            lost@ == registry::occupants(old(self).sessions.slots@).map_values(
                |item: (u64, Session)| lost_session(item),
            ),
    {
        let handles = self.sessions.handles();
        let ghost items = registry::occupants(self.sessions.slots@);
        let mut lost: Vec<LostSession> = Vec::new();
        proof {
            registry::occupants_are_live(self.sessions.slots@);
        }
        for index in 0..handles.len()
            invariant
                self.wf(),
                old(self).wf(),
                self.pending_exits == old(self).pending_exits,
                items == registry::occupants(old(self).sessions.slots@),
                handles@ == items.map_values(|item: (u64, Session)| item.0),
                lost@ == items.take(index as int).map_values(
                    |item: (u64, Session)| lost_session(item),
                ),
                forall|i: int|
                    index <= i < items.len() ==> self.at((#[trigger] items[i]).0) == Some(
                        items[i].1,
                    ),
                forall|handle: u64|
                    (#[trigger] self.sessions.resolve(handle)) is Some ==> old(self).at(handle)
                        is Some,
                forall|i: int| 0 <= i < index ==> self.at((#[trigger] items[i]).0) is None,
        {
            let handle: u64 = handles[index];
            assert(handle == items[index as int].0);
            let ghost before = self.at(handle);
            assert forall|i: int| 0 <= i < items.len() && i != index implies (
            #[trigger] items[i]).0 != handle by {
                if i < index {
                    registry::occupants_are_distinct(old(self).sessions.slots@, i, index as int);
                } else {
                    registry::occupants_are_distinct(old(self).sessions.slots@, index as int, i);
                }
            }
            if let Some(mut session) = self.sessions.remove(handle) {
                assert(session == items[index as int].1);
                session.life.close_started = true;
                let report = session.input.fail_input();
                lost.push(
                    LostSession {
                        handle,
                        pid: session.pid,
                        broker_session: session.broker_session,
                        report_input_failure: report,
                    },
                );
            }
            proof {
                assert(items.take(index + 1) =~= items.take(index as int).push(
                    items[index as int],
                ));
                assert(lost@ =~= items.take(index + 1).map_values(
                    |item: (u64, Session)| lost_session(item),
                ));
            }
        }
        proof {
            assert(items.take(items.len() as int) =~= items);
            self.nothing_is_left(old(self), items);
        }
        lost
    }

    /// A reactor that lost every occupant holds none.
    proof fn nothing_is_left(&self, before: &Reactor, items: Seq<(u64, Session)>)
        requires
            items == registry::occupants(before.sessions.slots@),
            forall|handle: u64|
                (#[trigger] self.sessions.resolve(handle)) is Some ==> before.at(handle) is Some,
            forall|i: int| 0 <= i < items.len() ==> self.at((#[trigger] items[i]).0) is None,
        ensures
            forall|handle: u64| #[trigger] self.at(handle) is None,
            self.orderly(),
    {
        assert forall|handle: u64| #[trigger] self.at(handle) is None by {
            if self.at(handle) is Some {
                assert(before.at(handle) is Some);
                registry::live_is_occupant(before.sessions.slots@, handle);
                let i = choose|i: int|
                    0 <= i < items.len() && #[trigger] items[i] == (
                        handle,
                        registry::resolve(before.sessions.slots@, handle).unwrap(),
                    );
                assert(self.at(items[i].0) is None);
            }
        }
        assert forall|handle: u64| (#[trigger] self.sessions.resolve(handle)) is None by {
            assert(self.at(handle) is None);
        }
    }

    /// Takes down every session at the end of the runtime. Each result is a broker session
    /// to abort, with whether its close has to be asked for first.
    pub fn shutdown_all(&mut self) -> (ended: Vec<(u64, bool)>)
        requires
            old(self).wf(),
        ensures
            final(self).wf(),
            old(self).orderly() ==> final(self).orderly(),
            final(self).pending_exits@ == old(self).pending_exits@,
            forall|handle: u64| #[trigger] final(self).at(handle) is None,
            ended@ == registry::occupants(old(self).sessions.slots@).map_values(
                |item: (u64, Session)| ended_session(item),
            ),
    {
        let handles = self.sessions.handles();
        let ghost items = registry::occupants(self.sessions.slots@);
        let mut ended: Vec<(u64, bool)> = Vec::new();
        proof {
            registry::occupants_are_live(self.sessions.slots@);
        }
        for index in 0..handles.len()
            invariant
                self.wf(),
                old(self).wf(),
                self.pending_exits == old(self).pending_exits,
                items == registry::occupants(old(self).sessions.slots@),
                handles@ == items.map_values(|item: (u64, Session)| item.0),
                ended@ == items.take(index as int).map_values(
                    |item: (u64, Session)| ended_session(item),
                ),
                forall|i: int|
                    index <= i < items.len() ==> self.at((#[trigger] items[i]).0) == Some(
                        items[i].1,
                    ),
                forall|handle: u64|
                    (#[trigger] self.sessions.resolve(handle)) is Some ==> old(self).at(handle)
                        is Some,
                forall|i: int| 0 <= i < index ==> self.at((#[trigger] items[i]).0) is None,
        {
            let handle: u64 = handles[index];
            assert(handle == items[index as int].0);
            assert forall|i: int| 0 <= i < items.len() && i != index implies (
            #[trigger] items[i]).0 != handle by {
                if i < index {
                    registry::occupants_are_distinct(old(self).sessions.slots@, i, index as int);
                } else {
                    registry::occupants_are_distinct(old(self).sessions.slots@, index as int, i);
                }
            }
            let ghost before = self.at(handle);
            if let Some(mut session) = self.sessions.remove(handle) {
                assert(session == items[index as int].1);
                let request_close = session.close_session().is_none();
                ended.push((session.broker_session, request_close));
            }
            proof {
                assert(items.take(index + 1) =~= items.take(index as int).push(
                    items[index as int],
                ));
                assert(ended@ =~= items.take(index + 1).map_values(
                    |item: (u64, Session)| ended_session(item),
                ));
            }
        }
        proof {
            assert(items.take(items.len() as int) =~= items);
            self.nothing_is_left(old(self), items);
        }
        ended
    }

    /// How long the readiness call may wait, in milliseconds: not at all when a deadline is
    /// over, and without end when there is none.
    pub fn output_poll_timeout(&self, now: u64) -> (timeout: i32)
        requires
            self.wf(),
        ensures
            timeout == timeout_until(earliest_deadline(self.sessions.slots@), now),
    {
        let mut earliest: Option<u64> = None;
        for index in 0..self.sessions.slots.len()
            invariant
                self.wf(),
                earliest == earliest_deadline(self.sessions.slots@.take(index as int)),
        {
            proof {
                let taken = self.sessions.slots@.take(index + 1);
                assert(taken.drop_last() =~= self.sessions.slots@.take(index as int));
                assert(taken.last() == self.sessions.slots@[index as int]);
            }
            if let Some(session) = &self.sessions.slots[index].value {
                earliest = earlier(earliest, session_deadline(session));
            }
        }
        assert(self.sessions.slots@.take(self.sessions.slots@.len() as int)
            =~= self.sessions.slots@);
        match earliest {
            None => -1,
            Some(deadline) => {
                if deadline <= now {
                    return 0;
                }
                let micros: u64 = (deadline - now) / 1000;
                let millis: u64 = micros / 1000 + (if micros % 1000 == 0 {
                    0
                } else {
                    1
                });
                if millis > 0x7fff_ffff {
                    0x7fff_ffff
                } else {
                    millis as i32
                }
            },
        }
    }
}

/// The earlier of two deadlines that may not be set.
pub open spec fn earlier_of(first: Option<u64>, second: Option<u64>) -> Option<u64> {
    match (first, second) {
        (Some(first), Some(second)) => Some(
            if first <= second {
                first
            } else {
                second
            },
        ),
        (Some(first), None) => Some(first),
        (None, second) => second,
    }
}

/// The earlier of two deadlines that may not be set.
pub fn earlier(first: Option<u64>, second: Option<u64>) -> (deadline: Option<u64>)
    ensures
        deadline == earlier_of(first, second),
{
    match (first, second) {
        (Some(first), Some(second)) => Some(
            if first <= second {
                first
            } else {
                second
            },
        ),
        (Some(first), None) => Some(first),
        (None, second) => second,
    }
}

/// The next deadline of a session: that of a batch of output, of its activation, of its
/// mode observation, and of its graceful close.
pub open spec fn deadline_of(session: Session) -> Option<u64> {
    let output = if session.output.bytes > 0 {
        session.output.deadline
    } else {
        None
    };
    let activation = if !session.life.active && !session.life.abandoned {
        session.life.activation_deadline
    } else {
        None
    };
    earlier_of(
        earlier_of(output, activation),
        earlier_of(session.modes.deadline, session.closing.deadline),
    )
}

/// The next deadline of a session.
fn session_deadline(session: &Session) -> (deadline: Option<u64>)
    ensures
        deadline == deadline_of(*session),
{
    let output: Option<u64> = if session.output.bytes > 0 {
        session.output.deadline
    } else {
        None
    };
    let activation: Option<u64> = if !session.life.active && !session.life.abandoned {
        session.life.activation_deadline
    } else {
        None
    };
    earlier(
        earlier(output, activation),
        earlier(session.modes.deadline, session.closing.deadline),
    )
}

/// The next deadline of all sessions.
pub open spec fn earliest_deadline(slots: Seq<registry::Slot<Session>>) -> Option<u64>
    decreases slots.len(),
{
    if slots.len() == 0 {
        None
    } else {
        let rest = earliest_deadline(slots.drop_last());
        match slots.last().value {
            Some(session) => earlier_of(rest, deadline_of(session)),
            None => rest,
        }
    }
}

/// The milliseconds until a deadline, rounded up from whole microseconds.
pub open spec fn timeout_until(deadline: Option<u64>, now: u64) -> int {
    match deadline {
        None => -1,
        Some(deadline) => if deadline <= now {
            0
        } else {
            let micros = (deadline - now) / 1000;
            let millis = micros / 1000 + if micros % 1000 == 0 {
                0int
            } else {
                1int
            };
            if millis > i32::MAX {
                i32::MAX as int
            } else {
                millis
            }
        },
    }
}

/// What is told of a session that was taken down with the broker.
pub open spec fn lost_session(item: (u64, Session)) -> LostSession {
    LostSession {
        handle: item.0,
        pid: item.1.pid,
        broker_session: item.1.broker_session,
        report_input_failure: item.1.input.queue@.len() > 0 && !item.1.input.failure_notified,
    }
}

/// The broker session of a session that was taken down, and whether its close has to be
/// asked for.
pub open spec fn ended_session(item: (u64, Session)) -> (u64, bool) {
    (
        item.1.broker_session,
        !item.1.life.close_started && !(item.1.life.exit_status is Some && item.1.output.eof),
    )
}

/// The loss of a session's accepted input is reported once: a command that reports it
/// marks it, and no command reports it when it is marked.
pub proof fn input_failure_is_reported_once(
    before: &Reactor,
    after: &Reactor,
    command: Command,
    now: u64,
    outcome: &Outcome,
    handle: u64,
)
    requires
        process_step(before, after, command, now, outcome),
        before.at(handle) is Some,
    ensures
        after.at(handle) is Some,
        before.at(handle).unwrap().input.failure_notified ==> {
            &&& after.at(handle).unwrap().input.failure_notified
            &&& outcome.notice != Some(Notice::InputFailed(handle))
        },
        outcome.notice == Some(Notice::InputFailed(handle)) ==> after.at(
            handle,
        ).unwrap().input.failure_notified,
{
}

/// A child's exit that is reported before its session is there reaches the session.
pub proof fn early_exit_reaches_session(
    before: &Reactor,
    between: &Reactor,
    after: &Reactor,
    broker_session: u64,
    status: i32,
    exited: &Outcome,
    command: Command,
    now: u64,
    added: &Outcome,
)
    requires
        process_step(
            before,
            between,
            Command::BrokerExit { broker_session, status },
            now,
            exited,
        ),
        exited.work is Done,
        command matches Command::Add { broker_session: named, .. } && named == broker_session,
        process_step(between, after, command, now, added),
    ensures
        added.reply matches Reply::Added(handle) && after.at(handle) matches Some(session)
            && session.life.exit_status == Some(status as i64),
{
}

/// What giving a session up asks for.
#[derive(Clone, Copy, Debug, PartialEq, Eq, Structural)]
pub struct Abandoned {
    /// The broker session to close, reported to `after_close_request`.
    pub request_close: Option<u64>,
    pub reads: Interest,
    pub writes: Interest,
}

/// What giving a session up leaves of it.
pub open spec fn abandoned_from(before: &Session, after: &Session, abandoned: &Abandoned) -> bool {
    let locally = before.life.exit_status is Some && before.output.eof;
    let reading = Filters { read: Some(true), ..before.filters };
    &&& *after == (Session {
        input: after.input,
        output: after.output,
        life: Life {
            abandoned: true,
            active: false,
            close_started: before.life.close_started || locally,
            ..before.life
        },
        filters: Filters { write: Some(false), ..reading },
        ..*before
    })
    &&& engine_session::queues_dropped(
        &before.input,
        &after.input,
        &(OutputState { paused: false, ..before.output }),
        &after.output,
    )
    &&& abandoned.request_close == if before.life.close_started || locally {
        None
    } else {
        Some(before.broker_session)
    }
    &&& abandoned.reads == if before.filters.read == Some(true) {
        Interest::Keep
    } else {
        engine_session::interest_of(reading)
    }
    &&& abandoned.writes == if before.filters.write == Some(false) {
        Interest::Keep
    } else {
        engine_session::interest_of(after.filters)
    }
}

/// What the end of an activation's time leaves of a session.
pub open spec fn expired_from(
    before: &Session,
    after: &Session,
    now: u64,
    request_close: Option<u64>,
) -> bool {
    let expired = !before.life.active && !before.life.abandoned && (
    before.life.activation_deadline matches Some(deadline) && deadline <= now);
    let given_up = before.life.abandoned || expired;
    let locally = before.life.exit_status is Some && before.output.eof;
    let closes = given_up && !before.life.close_started;
    &&& request_close == if closes && !locally {
        Some(before.broker_session)
    } else {
        None
    }
    &&& *after == (Session {
        input: after.input,
        output: after.output,
        life: Life {
            abandoned: given_up,
            activation_deadline: if expired {
                None
            } else {
                before.life.activation_deadline
            },
            close_started: before.life.close_started || (closes && locally),
            ..before.life
        },
        ..*before
    })
    &&& if expired {
        engine_session::queues_dropped(
            &before.input,
            &after.input,
            &before.output,
            &after.output,
        )
    } else {
        &&& after.output == before.output
        &&& after.input == if closes && locally {
            InputState {
                admission: InputAdmission { open: false, ..before.input.admission },
                ..before.input
            }
        } else {
            before.input
        }
    }
}

/// The result of a close is told to everyone who waits, and in a notice, once.
pub open spec fn closed_from(session: &Session, step: &ReapStep) -> bool {
    *step matches ReapStep::Closed { result, waiters, notify } && {
        &&& result == (CloseResult {
            input_failed: session.input.failure_pending,
            output_failed: session.output.failed,
            cleanup_failed: session.life.cleanup_failed,
        })
        &&& waiters@ == session.close_waiters@
        &&& notify == !session.life.close_notified
    }
}

/// What refreshing its output leaves of a session.
pub open spec fn refreshed(before: &Session, after: &Session, now: u64, refresh: &Refresh) -> bool {
    let enabled = engine_session::wants_reads(&before.output);
    let batch = before.life.active && !before.output.discarding && engine_session::batch_due(
        &before.output,
        now,
    ) && before.output.bytes > 0;
    let ends = before.life.active && before.output.eof && after.output.bytes == 0
        && after.output.outstanding == 0 && !before.output.done_notified;
    &&& *after == (Session {
        output: after.output,
        filters: Filters { read: Some(enabled), ..before.filters },
        ..*before
    })
    &&& refresh.interest == if before.filters.read == Some(enabled) {
        Interest::Keep
    } else {
        engine_session::interest_of(after.filters)
    }
    &&& match refresh.output {
        Some(bytes) => {
            &&& batch
            &&& buffer::bytes_of(bytes).len() == if engine_session::OUTPUT_BATCH
                < before.output.bytes {
                engine_session::OUTPUT_BATCH
            } else {
                before.output.bytes
            }
            &&& buffer::bytes_of(bytes) + after.output.pending() == before.output.pending()
            &&& after.output.outstanding == before.output.outstanding + buffer::bytes_of(
                bytes,
            ).len()
            &&& after.output.deadline == if after.output.queue@.len() == 0 {
                None
            } else {
                before.output.deadline
            }
        },
        None => {
            &&& !batch
            &&& after.output.queue == before.output.queue
            &&& after.output.outstanding == before.output.outstanding
            &&& after.output.deadline == before.output.deadline
        },
    }
    &&& refresh.ended == if ends {
        Some(before.output.failed)
    } else {
        None
    }
    &&& after.output.done_notified == (before.output.done_notified || ends)
    &&& after.output.capacity == before.output.capacity
    &&& after.output.eof == before.output.eof
    &&& after.output.failed == before.output.failed
    &&& after.output.paused == before.output.paused
    &&& after.output.discarding == before.output.discarding
}

/// Ends a session's input. Accepted input that is lost with it is told, once.
pub fn fail_input(handle: u64, session: &mut Session) -> (notice: Option<Notice>)
    requires
        old(session).input.wf(),
    ensures
        *final(session) == (Session { input: final(session).input, ..*old(session) }),
        final(session).input.wf(),
        engine_session::input_failed_from(&old(session).input, &final(session).input),
        notice == if old(session).input.queue@.len() > 0
            && !old(session).input.failure_notified {
            Some(Notice::InputFailed(handle))
        } else {
            None
        },
{
    if session.input.fail_input() {
        Some(Notice::InputFailed(handle))
    } else {
        None
    }
}

/// Takes note that accepted input of a session is lost, and tells it, once.
pub fn notify_input_failure(handle: u64, session: &mut Session) -> (notice: Option<Notice>)
    ensures
        *final(session) == (Session {
            input: InputState {
                failure_pending: true,
                failure_notified: true,
                ..old(session).input
            },
            ..*old(session)
        }),
        old(session).wf() ==> final(session).wf(),
        notice == if old(session).input.failure_notified {
            None
        } else {
            Some(Notice::InputFailed(handle))
        },
{
    if session.input.notify_input_failure() {
        Some(Notice::InputFailed(handle))
    } else {
        None
    }
}

/// An outcome without work or notice.
fn quiet(reply: Reply) -> (outcome: Outcome)
    ensures
        is_reply(&outcome, reply),
{
    Outcome { notice: None, work: Work::Done, reply }
}

/// A session that was just added: fresh, but for an exit that was already reported.
pub open spec fn is_added(
    before: &Reactor,
    session: &Session,
    broker_session: u64,
    pid: i32,
    input_capacity: usize,
    output_capacity: usize,
    graceful_close_timeout: u64,
    now: u64,
) -> bool {
    &&& engine_session::is_fresh(
        &(Session { life: Life { exit_status: None, ..session.life }, ..*session }),
        broker_session,
        pid,
        input_capacity,
        output_capacity,
        graceful_close_timeout,
        now,
    )
    &&& session.life.exit_status == if before.pending_exits@.contains_key(broker_session) {
        Some(before.pending_exits@[broker_session] as i64)
    } else {
        None
    }
}

/// The outcome of activating a session that is not there.
fn stale_activation() -> (outcome: Outcome)
    ensures
        is_stale_activation(&outcome),
{
    quiet(Reply::Activated(Err(IoError::new(ErrorKind::NotFound, "stale session"))))
}

/// The outcome of activating a session that is not there.
pub open spec fn is_stale_activation(outcome: &Outcome) -> bool {
    &&& outcome.notice is None
    &&& outcome.work is Done
    &&& outcome.reply matches Reply::Activated(Err(error)) && error.is_simple(
        ErrorKind::NotFound,
        "stale session"@,
    )
}

/// The session after its activation was refused: it is given up, and closed if it can
/// be without the broker.
pub open spec fn refused(session: Session) -> Session {
    let given_up = Session {
        life: Life { abandoned: true, activation_deadline: None, ..session.life },
        ..session
    };
    if !session.life.close_started && session.life.exit_status is Some && session.output.eof {
        engine_session::started_close(given_up)
    } else {
        given_up
    }
}

/// What a refused activation asks for: the broker's close, if the session's close has
/// not started and needs it.
pub open spec fn refused_work(session: Session, handle: u64) -> Work {
    if session.life.close_started || (session.life.exit_status is Some && session.output.eof) {
        Work::Done
    } else {
        Work::RequestClose { handle, broker_session: session.broker_session }
    }
}

/// Gives a session up whose activation failed.
fn refuse_activation(session: &mut Session, handle: u64, error: IoError) -> (outcome: Outcome)
    requires
        old(session).wf(),
    ensures
        final(session).wf(),
        *final(session) == refused(*old(session)),
        outcome.notice is None,
        outcome.work == refused_work(*old(session), handle),
        outcome.reply == Reply::Activated(Err(error)),
{
    session.life.abandoned = true;
    session.life.activation_deadline = None;
    let broker_session: u64 = session.broker_session;
    let work = match session.close_session() {
        Some(_) => Work::Done,
        None => Work::RequestClose { handle, broker_session },
    };
    Outcome { notice: None, work, reply: Reply::Activated(Err(error)) }
}

/// An activation starts with the registration of the reading side, unless the session is
/// gone or was given up.
pub open spec fn activate_step(
    before: &Reactor,
    after: &Reactor,
    handle: u64,
    outcome: &Outcome,
) -> bool {
    match before.at(handle) {
        None => after.same(before) && is_stale_activation(outcome),
        Some(session) => {
            &&& outcome.notice is None
            &&& after.same_but(before, handle)
            &&& if session.life.abandoned || session.life.close_started {
                &&& after.at(handle) == Some(refused(session))
                &&& outcome.work == refused_work(session, handle)
                &&& outcome.reply matches Reply::Activated(Err(error)) && error.is_simple(
                    ErrorKind::BrokenPipe,
                    "session activation was abandoned"@,
                )
            } else {
                let wanted = !session.output.paused;
                let filters = Filters { read: Some(wanted), ..session.filters };
                &&& after.at(handle) == Some(Session { filters, ..session })
                &&& outcome.reply is Nothing
                &&& outcome.work == (Work::RegisterReads {
                    handle,
                    interest: if session.filters.read == Some(wanted) {
                        Interest::Keep
                    } else {
                        engine_session::interest_of(filters)
                    },
                })
            }
        },
    }
}

/// The filters after a change was made.
pub open spec fn registered_after(filters: Filters, interest: Interest) -> Filters {
    Filters {
        registered: match interest {
            Interest::Keep => filters.registered,
            Interest::Remove => false,
            _ => true,
        },
        ..filters
    }
}

/// The registration of the writing side follows, or the activation is refused.
pub open spec fn after_register_reads_step(
    before: &Reactor,
    after: &Reactor,
    handle: u64,
    interest: Interest,
    result: Result<(), IoError>,
    outcome: &Outcome,
) -> bool {
    match before.at(handle) {
        None => after.same(before) && is_stale_activation(outcome),
        Some(session) => {
            &&& outcome.notice is None
            &&& after.same_but(before, handle)
            &&& match result {
                Ok(()) => {
                    let made = registered_after(session.filters, interest);
                    let wanted = session.input.queue@.len() > 0;
                    let filters = Filters { write: Some(wanted), ..made };
                    &&& after.at(handle) == Some(Session { filters, ..session })
                    &&& outcome.reply is Nothing
                    &&& outcome.work == (Work::RegisterWrites {
                        handle,
                        interest: if made.write == Some(wanted) {
                            Interest::Keep
                        } else {
                            engine_session::interest_of(filters)
                        },
                    })
                },
                Err(error) => {
                    &&& after.at(handle) == Some(refused(session))
                    &&& outcome.work == refused_work(session, handle)
                    &&& outcome.reply == Reply::Activated(Err(error))
                },
            }
        },
    }
}

/// The session becomes active and is read, or the activation is refused.
pub open spec fn after_register_writes_step(
    before: &Reactor,
    after: &Reactor,
    handle: u64,
    interest: Interest,
    result: Result<(), IoError>,
    outcome: &Outcome,
) -> bool {
    match before.at(handle) {
        None => after.same(before) && is_stale_activation(outcome),
        Some(session) => {
            &&& after.same_but(before, handle)
            &&& match result {
                Ok(()) => {
                    &&& after.at(handle) == Some(
                        Session {
                            filters: registered_after(session.filters, interest),
                            life: Life {
                                active: true,
                                activation_deadline: None,
                                ..session.life
                            },
                            output: OutputState { paused: false, ..session.output },
                            input: InputState {
                                failure_notified: session.input.failure_notified
                                    || session.input.failure_pending,
                                ..session.input
                            },
                            ..session
                        },
                    )
                    &&& outcome.notice == if session.input.failure_pending
                        && !session.input.failure_notified {
                        Some(Notice::InputFailed(handle))
                    } else {
                        None
                    }
                    &&& outcome.work == (Work::Read { handle, then: AfterRead::Activated })
                    &&& outcome.reply == Reply::Activated(Ok(()))
                },
                Err(error) => {
                    &&& outcome.notice is None
                    &&& after.at(handle) == Some(refused(session))
                    &&& outcome.work == refused_work(session, handle)
                    &&& outcome.reply == Reply::Activated(Err(error))
                },
            }
        },
    }
}

/// A write is queued behind the earlier ones. One that the session no longer takes gives
/// its room back and is reported, once.
pub open spec fn write_step(
    before: &Reactor,
    after: &Reactor,
    handle: u64,
    bytes: Bytes,
    outcome: &Outcome,
) -> bool {
    let length = buffer::bytes_of(bytes).len();
    match before.at(handle) {
        None => after.same(before) && is_reply(outcome, Reply::Nothing),
        Some(session) => {
            &&& after.same_but(before, handle)
            &&& outcome.reply is Nothing
            &&& after.at(handle) matches Some(next) && if session.life.close_started
                || session.input.failed || length == 0 {
                &&& next == (Session {
                    input: InputState {
                        failure_pending: true,
                        failure_notified: true,
                        admission: InputAdmission {
                            bytes: if length <= session.input.admission.bytes {
                                (session.input.admission.bytes - length) as usize
                            } else {
                                0
                            },
                            entries: if 1 <= session.input.admission.entries {
                                (session.input.admission.entries - 1) as usize
                            } else {
                                0
                            },
                            ..session.input.admission
                        },
                        ..session.input
                    },
                    ..session
                })
                &&& outcome.work is Done
                &&& outcome.notice == if session.input.failure_notified {
                    None
                } else {
                    Some(Notice::InputFailed(handle))
                }
            } else {
                &&& next.input.pending() == session.input.pending() + buffer::bytes_of(bytes)
                &&& next.input.queue@.len() == session.input.queue@.len() + 1
                &&& next.input.admission == session.input.admission
                &&& next.input.same_flags(&session.input)
                &&& outcome.notice is None
                &&& if session.life.active {
                    &&& next == (Session {
                        input: next.input,
                        filters: Filters { write: Some(true), ..session.filters },
                        ..session
                    })
                    &&& outcome.work == (Work::Apply {
                        handle,
                        interest: if session.filters.write == Some(true) {
                            Interest::Keep
                        } else {
                            engine_session::interest_of(next.filters)
                        },
                    })
                } else {
                    &&& next == (Session { input: next.input, ..session })
                    &&& outcome.work is Done
                }
            }
        },
    }
}

/// A session whose output is cancelled drops what waits and reads on.
pub open spec fn cancel_step(
    before: &Reactor,
    after: &Reactor,
    handle: u64,
    outcome: &Outcome,
) -> bool {
    match before.at(handle) {
        None => after.same(before) && is_reply(outcome, Reply::Flag(false)),
        Some(session) => {
            &&& after.same_but(before, handle)
            &&& outcome.notice is None
            &&& outcome.work == (Work::Read { handle, then: AfterRead::Nothing })
            &&& outcome.reply == Reply::Flag(true)
            &&& after.at(handle) matches Some(next) && {
                &&& next == (Session { output: next.output, ..session })
                &&& next.output.queue@.len() == 0
                &&& next.output.deadline is None
                &&& next.output.discarding
                &&& !next.output.paused
                &&& next.output.outstanding == session.output.outstanding
                &&& next.output.capacity == session.output.capacity
                &&& next.output.eof == session.output.eof
                &&& next.output.failed == session.output.failed
                &&& next.output.done_notified == session.output.done_notified
            }
        },
    }
}

/// A signal goes to the broker unless the child exited, which counts as not delivered.
pub open spec fn signal_step(
    reactor: &Reactor,
    handle: u64,
    signal: i32,
    outcome: &Outcome,
) -> bool {
    match reactor.at(handle) {
        None => is_reply(outcome, Reply::Signalled(None)),
        Some(session) => if session.life.exit_status is Some {
            is_reply(outcome, Reply::Signalled(Some(false)))
        } else {
            &&& outcome.notice is None
            &&& outcome.work == (Work::Signal { broker_session: session.broker_session, signal })
            &&& outcome.reply is Outside
        },
    }
}

/// A question goes to the terminal of a session that is there.
pub open spec fn ask_step(reactor: &Reactor, handle: u64, query: Query, outcome: &Outcome) -> bool {
    match reactor.at(handle) {
        None => is_reply(outcome, Reply::Missing),
        Some(_) => {
            &&& outcome.notice is None
            &&& outcome.work == (Work::Ask { handle, query })
            &&& outcome.reply is Outside
        },
    }
}

/// A close starts once: processes are asked to end, or killed when the child is gone or
/// no time was given. Everyone who asks is remembered.
pub open spec fn close_step(
    before: &Reactor,
    after: &Reactor,
    handle: u64,
    waiter: Option<u64>,
    now: u64,
    outcome: &Outcome,
) -> bool {
    match before.at(handle) {
        None => after.same(before) && is_reply(outcome, Reply::Flag(false)),
        Some(session) => {
            &&& after.same_but(before, handle)
            &&& outcome.notice is None
            &&& outcome.reply == Reply::Flag(true)
            &&& after.at(handle) matches Some(next) && {
                let waiting = Session { close_waiters: next.close_waiters, ..session };
                let broker_session = session.broker_session;
                &&& next.close_waiters@ == match waiter {
                    Some(waiter) => session.close_waiters@.push(waiter),
                    None => session.close_waiters@,
                }
                &&& if session.life.close_started {
                    next == waiting && outcome.work is Done
                } else if session.life.exit_status is Some || session.closing.timeout == 0 {
                    &&& next == (Session {
                        closing: Closing { deadline: None, ..session.closing },
                        ..engine_session::started_close(waiting)
                    })
                    &&& outcome.work == if session.closing.escalated {
                        Work::Done
                    } else {
                        Work::ForceClose { handle, broker_session }
                    }
                } else {
                    &&& next == (Session {
                        closing: Closing {
                            deadline: Some((now + session.closing.timeout) as u64),
                            ..session.closing
                        },
                        ..engine_session::started_close(waiting)
                    })
                    &&& outcome.work == (Work::SignalGracefully { handle, broker_session })
                }
            }
        },
    }
}

/// Whether a handle is the first, in the order of the slots, that stands for a broker
/// session.
pub open spec fn is_first_for(reactor: &Reactor, handle: u64, broker_session: u64) -> bool {
    let items = registry::occupants(reactor.sessions.slots@);
    &&& reactor.at(handle) matches Some(session) && session.broker_session == broker_session
    &&& exists|index: int|
        {
            &&& 0 <= index < items.len()
            &&& (#[trigger] items[index]).0 == handle
            &&& forall|i: int|
                0 <= i < index ==> (#[trigger] items[i]).1.broker_session != broker_session
        }
}

/// An exit ends the input of its session, which is then read to its end.
pub open spec fn broker_exit_step(
    before: &Reactor,
    after: &Reactor,
    broker_session: u64,
    status: i32,
    outcome: &Outcome,
) -> bool {
    &&& outcome.reply is Nothing
    &&& match outcome.work {
        Work::Read { handle, then } => {
            &&& is_first_for(before, handle, broker_session)
            &&& then == AfterRead::Exited(status)
            &&& after.same_but(before, handle)
            &&& before.at(handle) matches Some(session) && after.at(handle) matches Some(next) && {
                &&& next == (Session {
                    life: Life { exit_status: Some(status as i64), ..session.life },
                    closing: Closing { deadline: None, ..session.closing },
                    input: next.input,
                    ..session
                })
                &&& if session.life.abandoned {
                    next.input == session.input && outcome.notice is None
                } else {
                    &&& engine_session::input_failed_from(&session.input, &next.input)
                    &&& outcome.notice == if session.input.queue@.len() > 0
                        && !session.input.failure_notified {
                        Some(Notice::InputFailed(handle))
                    } else {
                        None
                    }
                }
            }
        },
        _ => {
            &&& outcome.work is Done
            &&& outcome.notice is None
            &&& after.sessions == before.sessions
            &&& after.pending_exits@ == before.pending_exits@.insert(broker_session, status)
            &&& forall|handle: u64|
                (#[trigger] before.at(handle)) matches Some(session) ==> session.broker_session
                    != broker_session
        },
    }
}

/// A graceful signal that failed while the child is there turns to force.
pub open spec fn graceful_result_step(
    before: &Reactor,
    after: &Reactor,
    handle: u64,
    result: Option<bool>,
    outcome: &Outcome,
) -> bool {
    &&& outcome.notice is None
    &&& outcome.reply is Nothing
    &&& match before.at(handle) {
        Some(session) => if result is None && session.life.exit_status is None {
            &&& after.same_but(before, handle)
            &&& after.at(handle) == Some(
                Session { closing: Closing { deadline: None, ..session.closing }, ..session },
            )
            &&& outcome.work == if session.closing.escalated {
                Work::Done
            } else {
                Work::ForceClose { handle, broker_session: session.broker_session }
            }
        } else {
            &&& after.same_but(before, handle)
            &&& after.at(handle) == Some(session)
            &&& outcome.work is Done
        },
        None => after.same(before) && outcome.work is Done,
    }
}

/// The end of a release is recorded with its session.
pub open spec fn release_result_step(
    before: &Reactor,
    after: &Reactor,
    handle: u64,
    succeeded: bool,
    outcome: &Outcome,
) -> bool {
    &&& is_reply(outcome, Reply::Nothing)
    &&& after.same_but(before, handle)
    &&& after.at(handle) == match before.at(handle) {
        Some(session) => Some(
            Session {
                closing: Closing {
                    release: engine_session::ReleaseState::Complete,
                    ..session.closing
                },
                life: Life { cleanup_failed: !succeeded, ..session.life },
                ..session
            },
        ),
        None => None,
    }
}

/// What each command does.
pub open spec fn process_step(
    before: &Reactor,
    after: &Reactor,
    command: Command,
    now: u64,
    outcome: &Outcome,
) -> bool {
    match command {
        Command::Add {
            broker_session,
            pid,
            input_capacity,
            output_capacity,
            graceful_close_timeout,
        } => {
            &&& outcome.notice is None
            &&& outcome.work is Done
            &&& after.pending_exits@ == before.pending_exits@.remove(broker_session)
            &&& outcome.reply matches Reply::Added(handle) && {
                &&& before.at(handle) is None
                &&& forall|peer: u64|
                    peer != handle ==> #[trigger] after.at(peer) == before.at(peer)
                &&& after.at(handle) matches Some(session) && is_added(
                    before,
                    &session,
                    broker_session,
                    pid,
                    input_capacity,
                    output_capacity,
                    graceful_close_timeout,
                    now,
                )
            }
        },
        Command::Activate { handle } => activate_step(before, after, handle, outcome),
        Command::Write { handle, bytes } => write_step(before, after, handle, bytes, outcome),
        Command::CancelOutput { handle } => cancel_step(before, after, handle, outcome),
        Command::ExitStatus { handle } => after.same(before) && is_reply(
            outcome,
            Reply::Status(
                match before.at(handle) {
                    Some(session) => session.life.exit_status,
                    None => None,
                },
            ),
        ),
        Command::Pid { handle } => after.same(before) && is_reply(
            outcome,
            Reply::Pid(
                match before.at(handle) {
                    Some(session) => Some(session.pid),
                    None => None,
                },
            ),
        ),
        Command::Size { handle } => after.same(before) && ask_step(
            before,
            handle,
            Query::Size,
            outcome,
        ),
        Command::Snapshot { handle } => after.same(before) && ask_step(
            before,
            handle,
            Query::Snapshot,
            outcome,
        ),
        Command::Mode { handle } => after.same(before) && ask_step(
            before,
            handle,
            Query::Mode,
            outcome,
        ),
        Command::TtyName { handle } => after.same(before) && ask_step(
            before,
            handle,
            Query::TtyName,
            outcome,
        ),
        Command::Resize { handle, size } => after.same(before) && match before.at(handle) {
            Some(_) => outcome.notice is None && outcome.work == (Work::Resize { handle, size })
                && outcome.reply is Outside,
            None => is_reply(outcome, Reply::Flag(false)),
        },
        Command::ObserveMode { handle, observe } => after.same(before) && match before.at(
            handle,
        ) {
            Some(_) => outcome.notice is None && outcome.work == (Work::Observe {
                handle,
                observe,
            }) && outcome.reply == Reply::Flag(true),
            None => is_reply(outcome, Reply::Flag(false)),
        },
        Command::Signal { handle, signal } => after.same(before) && signal_step(
            before,
            handle,
            signal,
            outcome,
        ),
        Command::Close { handle } => close_step(before, after, handle, None, now, outcome),
        Command::CloseStart { handle, waiter } => close_step(
            before,
            after,
            handle,
            Some(waiter),
            now,
            outcome,
        ),
        Command::BrokerExit { broker_session, status } => broker_exit_step(
            before,
            after,
            broker_session,
            status,
            outcome,
        ),
        Command::BrokerLost => {
            &&& after.sessions == before.sessions
            &&& after.pending_exits@ == Map::<u64, i32>::empty()
            &&& outcome.notice is None
            &&& outcome.work is FailAll
            &&& outcome.reply is Nothing
        },
        Command::GracefulSignalResult { handle, result } => graceful_result_step(
            before,
            after,
            handle,
            result,
            outcome,
        ),
        Command::ForceCloseResult { .. } => after.same(before) && is_reply(
            outcome,
            Reply::Nothing,
        ),
        Command::ReleaseResult { handle, succeeded } => release_result_step(
            before,
            after,
            handle,
            succeeded,
            outcome,
        ),
        Command::Shutdown => {
            &&& after.same(before)
            &&& outcome.notice is None
            &&& outcome.work is Stop
            &&& outcome.reply is Nothing
        },
    }
}

/// Every occupant resolves by its handle.
proof fn occupants_resolve(slots: Seq<registry::Slot<Session>>, free: Seq<usize>)
    requires
        registry::table_wf(slots, free, registry::MAX_NOTICE_GENERATION),
    ensures
        forall|i: int|
            0 <= i < registry::occupants(slots).len() ==> registry::resolve(
                slots,
                (#[trigger] registry::occupants(slots)[i]).0,
            ) == Some(registry::occupants(slots)[i].1),
{
    registry::occupants_are_live(slots);
}

/// What a handle resolves to is an occupant.
proof fn resolved_is_occupant(slots: Seq<registry::Slot<Session>>, handle: u64)
    requires
        registry::resolve(slots, handle) is Some,
    ensures
        exists|i: int|
            0 <= i < registry::occupants(slots).len() && #[trigger] registry::occupants(slots)[i]
                == (handle, registry::resolve(slots, handle).unwrap()),
{
    registry::live_is_occupant(slots, handle);
}

} // verus!
