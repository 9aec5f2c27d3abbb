//! One session of the Unix engine: its queues, its life and its readiness interest.
//!
//! Times are in nanoseconds on one monotonic clock.
use crate::engine_event::CloseResult;
use crate::fault::ErrorKind;
use crate::session::{self, InputState, OutputState};
use bytes::Bytes;
use vstd::prelude::*;

verus! {

pub const BYTE_QUANTUM: usize = 65536;

pub const SYSCALL_QUANTUM: usize = 4;

pub const INTERACTIVE_BATCH: usize = 256;

pub const OUTPUT_BATCH: usize = 65536;

pub const READ_LIMIT: usize = 65536;

pub const OUTPUT_DELAY: u64 = 1_000_000;

pub const ACTIVATION_TIMEOUT: u64 = 5_000_000_000;

pub const MODE_POLL_MIN: u64 = 40_000_000;

pub const MODE_POLL_MAX: u64 = 250_000_000;

/// The latest time that the engine counts with: every timeout can be added to it.
pub const MAX_NOW: u64 = 0xffff_fff0_0000_0000;

/// The longest graceful-close timeout, in nanoseconds.
pub const MAX_TIMEOUT: u64 = 60_000_000_000;

/// Where the broker's release of a session stands.
#[derive(Clone, Copy, Debug, PartialEq, Eq, Structural)]
pub enum ReleaseState {
    Needed,
    Pending,
    Complete,
}

/// What came of a request to the broker.
#[derive(Clone, Copy, Debug, PartialEq, Eq, Structural)]
pub enum Mail {
    Accepted,
    /// The mailbox is full now.
    Full,
    /// The broker takes no requests any more.
    Lost,
}

/// Where a session stands between its start and its release.
#[derive(Clone, Copy, Debug, PartialEq, Eq, Structural)]
pub struct Life {
    pub exit_status: Option<i64>,
    pub close_started: bool,
    pub cleanup_failed: bool,
    pub close_notified: bool,
    pub active: bool,
    pub activation_deadline: Option<u64>,
    pub abandoned: bool,
}

/// How a session is being closed.
#[derive(Clone, Copy, Debug, PartialEq, Eq, Structural)]
pub struct Closing {
    pub timeout: u64,
    pub deadline: Option<u64>,
    pub escalated: bool,
    pub release: ReleaseState,
}

/// The readiness that a session asks for.
#[derive(Clone, Copy, Debug, PartialEq, Eq, Structural)]
pub struct Filters {
    pub read: Option<bool>,
    pub write: Option<bool>,
    pub registered: bool,
}

/// A change of the registered readiness.
#[derive(Clone, Copy, Debug, PartialEq, Eq, Structural)]
pub enum Interest {
    Keep,
    Remove,
    Add { read: bool, write: bool },
    Change { read: bool, write: bool },
}

/// The observation of terminal modes.
#[derive(Clone, Copy, Debug)]
pub struct Modes {
    pub deadline: Option<u64>,
    pub interval: u64,
    pub observed: Option<[bool; 3]>,
}

/// What one turn of reading or writing has used up.
#[derive(Clone, Copy, Debug, PartialEq, Eq, Structural)]
pub struct Turn {
    pub bytes: usize,
    pub syscalls: usize,
}

/// What one read of the terminal did.
#[derive(Clone, Debug, PartialEq, Eq)]
pub enum ReadOutcome {
    Data(Vec<u8>),
    End,
    /// The terminal has no other end any more.
    HangUp,
    Failed(ErrorKind),
}

/// What one write to the terminal did.
#[derive(Clone, Copy, Debug, PartialEq, Eq, Structural)]
pub enum WriteOutcome {
    Wrote(usize),
    Failed(ErrorKind),
}

/// Whether a turn goes on.
#[derive(Clone, Copy, Debug, PartialEq, Eq, Structural)]
pub struct TurnStep {
    pub again: bool,
    /// The loss of accepted input is to be reported.
    pub report_input_failure: bool,
}

/// What refreshing a session's output came to.
#[derive(Debug, PartialEq, Eq)]
pub struct Refresh {
    pub interest: Interest,
    /// A batch for the consumer.
    pub output: Option<Bytes>,
    /// Output ended here, with a failure or without.
    pub ended: Option<bool>,
}

/// How to close a session's processes.
#[derive(Clone, Copy, Debug, PartialEq, Eq, Structural)]
pub enum CloseStep {
    /// Nothing is to be done.
    Settled,
    /// Ask the broker to signal the processes, then report to `after_graceful_signal`.
    SignalGracefully,
    /// Ask the broker to kill the processes, then report to `after_force_close`.
    ForceClose,
}

/// What a request for release came to.
#[derive(Clone, Copy, Debug, PartialEq, Eq, Structural)]
pub enum ReleaseStep {
    Complete,
    Wait,
    /// Ask the broker, then report to `after_release_request`.
    Ask,
}

/// One session.
pub struct Session {
    pub input: InputState,
    pub output: OutputState,
    pub life: Life,
    pub closing: Closing,
    pub filters: Filters,
    pub modes: Modes,
    pub broker_session: u64,
    pub pid: i32,
    /// Who waits for the close to complete.
    pub close_waiters: Vec<u64>,
}

/// How far the next read of a turn may go, or nothing when the turn is over.
pub open spec fn read_limit_of(output: &OutputState, turn: Turn) -> Option<nat> {
    if turn.bytes < BYTE_QUANTUM && turn.syscalls < SYSCALL_QUANTUM && (!output.paused
        || output.discarding) && !output.eof && (output.discarding || output.total()
        < output.capacity) {
        let room = if output.discarding {
            READ_LIMIT as int
        } else {
            output.capacity - output.total()
        };
        let quantum = BYTE_QUANTUM - turn.bytes;
        let limit = if room < READ_LIMIT {
            room
        } else {
            READ_LIMIT as int
        };
        Some(
            (if limit < quantum {
                limit
            } else {
                quantum
            }) as nat,
        )
    } else {
        None
    }
}

/// Whether the reading side wants more.
pub open spec fn wants_reads(output: &OutputState) -> bool {
    !output.paused && !output.eof && (output.discarding || output.total() < output.capacity)
}

/// The change that follows a change of a session's filters.
pub open spec fn interest_of(filters: Filters) -> Interest {
    let read = filters.read == Some(true);
    let write = filters.write == Some(true);
    if !read && !write {
        if filters.registered {
            Interest::Remove
        } else {
            Interest::Keep
        }
    } else if filters.registered {
        Interest::Change { read, write }
    } else {
        Interest::Add { read, write }
    }
}

/// Whether a batch of output is due.
pub open spec fn batch_due(output: &OutputState, now: u64) -> bool {
    ||| output.bytes <= INTERACTIVE_BATCH
    ||| output.bytes >= OUTPUT_BATCH
    ||| output.eof
    ||| output.deadline matches Some(deadline) && deadline <= now
}

impl Session {
    /// The queues' invariants, a timeout within its bound, and no admission once a close has
    /// started.
    pub open spec fn wf(&self) -> bool {
        &&& self.life.close_started ==> !self.input.admission.open
        &&& self.input.wf()
        &&& self.output.wf()
        &&& self.closing.timeout <= MAX_TIMEOUT
        &&& MODE_POLL_MIN <= self.modes.interval <= MODE_POLL_MAX
    }

    /// What every step keeps of a session from its start on: nobody was told of its close
    /// yet, an active session asks for writes while input waits, and output that waits has a
    /// time by which it is due.
    pub open spec fn orderly(&self) -> bool {
        &&& !self.life.close_notified
        &&& self.life.active && self.input.queue@.len() > 0 ==> self.filters.write == Some(true)
        &&& self.output.bytes > 0 ==> self.output.deadline is Some
    }

    /// A child that the broker started, not yet active.
    pub fn from_broker(
        broker_session: u64,
        pid: i32,
        input_capacity: usize,
        output_capacity: usize,
        graceful_close_timeout: u64,
        now: u64,
    ) -> (session: Session)
        requires
            output_capacity <= isize::MAX,
            graceful_close_timeout <= MAX_TIMEOUT,
            now <= MAX_NOW,
        ensures
            session.wf(),
            session.orderly(),
            is_fresh(
                &session,
                broker_session,
                pid,
                input_capacity,
                output_capacity,
                graceful_close_timeout,
                now,
            ),
    {
        Session {
            input: InputState::new(input_capacity),
            output: OutputState::new(output_capacity),
            life: Life {
                exit_status: None,
                close_started: false,
                cleanup_failed: false,
                close_notified: false,
                active: false,
                activation_deadline: Some(now + ACTIVATION_TIMEOUT),
                abandoned: false,
            },
            closing: Closing {
                timeout: graceful_close_timeout,
                deadline: None,
                escalated: false,
                release: ReleaseState::Needed,
            },
            filters: Filters { read: None, write: None, registered: false },
            modes: Modes { deadline: None, interval: MODE_POLL_MIN, observed: None },
            broker_session,
            pid,
            close_waiters: Vec::new(),
        }
    }

    /// Records how the broker's release ended.
    pub fn record_release_result(&mut self, succeeded: bool)
        ensures
            *final(self) == (Session {
                closing: Closing { release: ReleaseState::Complete, ..old(self).closing },
                life: Life { cleanup_failed: !succeeded, ..old(self).life },
                ..*old(self)
            }),
            old(self).wf() ==> final(self).wf(),
            old(self).orderly() ==> final(self).orderly(),
    {
        self.closing.release = ReleaseState::Complete;
        self.life.cleanup_failed = !succeeded;
    }

    /// How the close ended, once the release is complete.
    pub fn completed_close_result(&self) -> (result: Option<CloseResult>)
        ensures
            result == if self.closing.release == ReleaseState::Complete {
                Some(
                    CloseResult {
                        input_failed: self.input.failure_pending,
                        output_failed: self.output.failed,
                        cleanup_failed: self.life.cleanup_failed,
                    },
                )
            } else {
                None
            },
    {
        if self.closing.release == ReleaseState::Complete {
            Some(
                CloseResult {
                    input_failed: self.input.failure_pending,
                    output_failed: self.output.failed,
                    cleanup_failed: self.life.cleanup_failed,
                },
            )
        } else {
            None
        }
    }

    /// How far the next read may go, or nothing when the turn is over.
    pub fn read_limit(&self, turn: Turn) -> (limit: Option<usize>)
        requires
            self.wf(),
        ensures
            match (limit, read_limit_of(&self.output, turn)) {
                (Some(limit), Some(expected)) => limit == expected && 0 < limit <= READ_LIMIT,
                (None, None) => true,
                _ => false,
            },
    {
        let total: usize = self.output.output_total();
        if turn.bytes < BYTE_QUANTUM && turn.syscalls < SYSCALL_QUANTUM && (!self.output.paused
            || self.output.discarding) && !self.output.eof && (self.output.discarding || total
            < self.output.capacity) {
            let room: usize = if self.output.discarding {
                READ_LIMIT
            } else {
                self.output.capacity - total
            };
            let limit: usize = if room < READ_LIMIT {
                room
            } else {
                READ_LIMIT
            };
            let quantum: usize = BYTE_QUANTUM - turn.bytes;
            Some(
                if limit < quantum {
                    limit
                } else {
                    quantum
                },
            )
        } else {
            None
        }
    }

    /// Accounts for one read of a turn. Bytes of a session that nobody consumes are
    /// dropped. The end of output is the end of input too, a failure is not.
    pub fn after_read(&mut self, turn: &mut Turn, outcome: ReadOutcome, now: u64) -> (step: TurnStep)
        requires
            old(self).wf(),
            now <= MAX_NOW,
            read_limit_of(&old(self).output, *old(turn)) matches Some(limit) && (
            outcome matches ReadOutcome::Data(data) ==> 0 < data@.len() <= limit),
        ensures
            final(self).wf(),
            old(self).orderly() ==> final(self).orderly(),
            final(turn).syscalls == old(turn).syscalls + 1,
            final(self).life == old(self).life,
            final(self).closing == old(self).closing,
            final(self).filters == old(self).filters,
            final(self).modes == old(self).modes,
            final(self).broker_session == old(self).broker_session,
            final(self).pid == old(self).pid,
            final(self).close_waiters == old(self).close_waiters,
            match outcome {
                ReadOutcome::Data(data) => {
                    &&& step == (TurnStep { again: true, report_input_failure: false })
                    &&& final(turn).bytes == old(turn).bytes + data@.len()
                    &&& final(self).input == old(self).input
                    &&& if old(self).life.abandoned || old(self).output.discarding {
                        final(self).output == old(self).output
                    } else {
                        &&& final(self).output.same_flags(&old(self).output)
                        &&& final(self).output.outstanding == old(self).output.outstanding
                        &&& final(self).output.pending() == old(self).output.pending() + data@
                        &&& final(self).output.deadline == if old(self).output.bytes == 0 {
                            Some((now + OUTPUT_DELAY) as u64)
                        } else {
                            old(self).output.deadline
                        }
                    }
                },
                ReadOutcome::End | ReadOutcome::HangUp => {
                    &&& !step.again
                    &&& final(turn).bytes == old(turn).bytes
                    &&& final(self).output == (OutputState { eof: true, ..old(self).output })
                    &&& input_failed_from(&old(self).input, &final(self).input)
                    &&& step.report_input_failure == (old(self).input.queue@.len() > 0
                        && !old(self).input.failure_notified)
                },
                ReadOutcome::Failed(kind) => {
                    &&& final(turn).bytes == old(turn).bytes
                    &&& final(self).input == old(self).input
                    &&& step == (TurnStep {
                        again: kind == ErrorKind::Interrupted,
                        report_input_failure: false,
                    })
                    &&& final(self).output == if kind == ErrorKind::Interrupted || kind
                        == ErrorKind::WouldBlock {
                        old(self).output
                    } else {
                        OutputState { eof: true, failed: true, ..old(self).output }
                    }
                },
            },
    {
        turn.syscalls = turn.syscalls + 1;
        match outcome {
            ReadOutcome::Data(data) => {
                turn.bytes = turn.bytes + data.len();
                if !(self.life.abandoned || self.output.discarding) {
                    self.output.enqueue(data, now + OUTPUT_DELAY);
                }
                TurnStep { again: true, report_input_failure: false }
            },
            ReadOutcome::End | ReadOutcome::HangUp => {
                self.output.eof = true;
                let report = self.input.fail_input();
                TurnStep { again: false, report_input_failure: report }
            },
            ReadOutcome::Failed(ErrorKind::Interrupted) => TurnStep {
                again: true,
                report_input_failure: false,
            },
            ReadOutcome::Failed(ErrorKind::WouldBlock) => TurnStep {
                again: false,
                report_input_failure: false,
            },
            ReadOutcome::Failed(_) => {
                self.output.eof = true;
                self.output.failed = true;
                TurnStep { again: false, report_input_failure: false }
            },
        }
    }

    /// The bytes that the next write of a turn offers, or nothing when the turn is over.
    pub fn next_write(&self, turn: Turn) -> (chunk: Option<&[u8]>)
        requires
            self.wf(),
        ensures
            match chunk {
                None => turn.bytes >= BYTE_QUANTUM || turn.syscalls >= SYSCALL_QUANTUM
                    || self.input.queue@.len() == 0,
                Some(chunk) => {
                    &&& turn.bytes < BYTE_QUANTUM
                    &&& turn.syscalls < SYSCALL_QUANTUM
                    &&& self.input.queue@.len() > 0
                    &&& chunk@.len() == if self.input.queue@[0].rest().len() < BYTE_QUANTUM
                        - turn.bytes {
                        self.input.queue@[0].rest().len() as int
                    } else {
                        BYTE_QUANTUM - turn.bytes
                    }
                    &&& 0 < chunk@.len()
                    &&& chunk@ == self.input.pending().take(chunk@.len() as int)
                },
            },
    {
        if turn.bytes < BYTE_QUANTUM && turn.syscalls < SYSCALL_QUANTUM {
            proof {
                if self.input.queue@.len() > 0 {
                    assert(self.input.queue@[0].wf());
                }
            }
            self.input.next_write(BYTE_QUANTUM - turn.bytes)
        } else {
            None
        }
    }

    /// Accounts for one write of a turn.
    pub fn after_write(&mut self, turn: &mut Turn, outcome: WriteOutcome) -> (step: TurnStep)
        requires
            old(self).wf(),
            old(turn).bytes < BYTE_QUANTUM,
            old(turn).syscalls < SYSCALL_QUANTUM,
            old(self).input.queue@.len() > 0,
            outcome matches WriteOutcome::Wrote(amount) ==> amount <= old(
                self).input.queue@[0].rest().len() && amount <= BYTE_QUANTUM - old(turn).bytes,
        ensures
            final(self).wf(),
            old(self).orderly() ==> final(self).orderly(),
            final(turn).syscalls == old(turn).syscalls + 1,
            final(self).output == old(self).output,
            final(self).life == old(self).life,
            final(self).closing == old(self).closing,
            final(self).filters == old(self).filters,
            final(self).modes == old(self).modes,
            final(self).broker_session == old(self).broker_session,
            final(self).pid == old(self).pid,
            final(self).close_waiters == old(self).close_waiters,
            match outcome {
                WriteOutcome::Wrote(amount) => {
                    &&& final(turn).bytes == old(turn).bytes + amount
                    &&& step == (TurnStep { again: amount > 0, report_input_failure: false })
                    &&& if amount > 0 {
                        session::has_written(&old(self).input, &final(self).input, amount)
                    } else {
                        final(self).input == old(self).input
                    }
                },
                WriteOutcome::Failed(kind) => {
                    &&& final(turn).bytes == old(turn).bytes
                    &&& step.again == (kind == ErrorKind::Interrupted)
                    &&& if kind == ErrorKind::Interrupted || kind == ErrorKind::WouldBlock {
                        &&& final(self).input == old(self).input
                        &&& !step.report_input_failure
                    } else {
                        &&& input_failed_from(&old(self).input, &final(self).input)
                        &&& step.report_input_failure == !old(self).input.failure_notified
                    }
                },
            },
    {
        turn.syscalls = turn.syscalls + 1;
        match outcome {
            WriteOutcome::Wrote(amount) => {
                turn.bytes = turn.bytes + amount;
                if amount > 0 {
                    self.input.wrote(amount);
                }
                TurnStep { again: amount > 0, report_input_failure: false }
            },
            WriteOutcome::Failed(ErrorKind::Interrupted) => TurnStep {
                again: true,
                report_input_failure: false,
            },
            WriteOutcome::Failed(ErrorKind::WouldBlock) => TurnStep {
                again: false,
                report_input_failure: false,
            },
            WriteOutcome::Failed(_) => {
                let report = self.input.fail_input();
                TurnStep { again: false, report_input_failure: report }
            },
        }
    }

    /// Asks for reads, or for none.
    pub fn update_read_filter(&mut self, enabled: bool) -> (interest: Interest)
        ensures
            *final(self) == (Session {
                filters: Filters { read: Some(enabled), ..old(self).filters },
                ..*old(self)
            }),
            interest == if old(self).filters.read == Some(enabled) {
                Interest::Keep
            } else {
                interest_of(final(self).filters)
            },
            old(self).wf() ==> final(self).wf(),
            old(self).orderly() ==> final(self).orderly(),
    {
        match self.filters.read {
            Some(current) => {
                if current == enabled {
                    return Interest::Keep;
                }
            },
            None => {},
        }
        self.filters.read = Some(enabled);
        self.interest()
    }

    /// Asks for writes, or for none.
    pub fn update_write_filter(&mut self, enabled: bool) -> (interest: Interest)
        ensures
            *final(self) == (Session {
                filters: Filters { write: Some(enabled), ..old(self).filters },
                ..*old(self)
            }),
            interest == if old(self).filters.write == Some(enabled) {
                Interest::Keep
            } else {
                interest_of(final(self).filters)
            },
            old(self).wf() ==> final(self).wf(),
            old(self).orderly() && (enabled || old(self).input.queue@.len() == 0) ==> final(self).orderly(),
    {
        match self.filters.write {
            Some(current) => {
                if current == enabled {
                    return Interest::Keep;
                }
            },
            None => {},
        }
        self.filters.write = Some(enabled);
        self.interest()
    }

    /// The change that the filters call for.
    fn interest(&self) -> (interest: Interest)
        ensures
            interest == interest_of(self.filters),
    {
        let read = match self.filters.read {
            Some(enabled) => enabled,
            None => false,
        };
        let write = match self.filters.write {
            Some(enabled) => enabled,
            None => false,
        };
        if !read && !write {
            if self.filters.registered {
                Interest::Remove
            } else {
                Interest::Keep
            }
        } else if self.filters.registered {
            Interest::Change { read, write }
        } else {
            Interest::Add { read, write }
        }
    }

    /// Records that a change was made.
    pub fn interest_changed(&mut self, interest: Interest)
        ensures
            *final(self) == (Session {
                filters: Filters {
                    registered: match interest {
                        Interest::Keep => old(self).filters.registered,
                        Interest::Remove => false,
                        _ => true,
                    },
                    ..old(self).filters
                },
                ..*old(self)
            }),
            old(self).wf() ==> final(self).wf(),
            old(self).orderly() ==> final(self).orderly(),
    {
        match interest {
            Interest::Keep => {},
            Interest::Remove => {
                self.filters.registered = false;
            },
            _ => {
                self.filters.registered = true;
            },
        }
    }

    /// Hands out a batch that is due, and tells the end of output once, when everything
    /// before it was consumed.
    pub fn refresh_output(&mut self, now: u64) -> (refresh: Refresh)
        requires
            old(self).wf(),
        ensures
            final(self).wf(),
            old(self).orderly() ==> final(self).orderly(),
            final(self).input == old(self).input,
            final(self).life == old(self).life,
            final(self).closing == old(self).closing,
            final(self).modes == old(self).modes,
            final(self).broker_session == old(self).broker_session,
            final(self).pid == old(self).pid,
            final(self).close_waiters == old(self).close_waiters,
            ({
                let before = &old(self).output;
                let after = &final(self).output;
                let enabled = wants_reads(before);
                &&& final(self).filters == (Filters {
                    read: Some(enabled),
                    ..old(self).filters
                })
                &&& refresh.interest == if old(self).filters.read == Some(enabled) {
                    Interest::Keep
                } else {
                    interest_of(final(self).filters)
                }
                &&& after.capacity == before.capacity
                &&& after.failed == before.failed
                &&& after.paused == before.paused
                &&& after.discarding == before.discarding
                &&& after.eof == before.eof
                &&& match refresh.output {
                    Some(bytes) => {
                        &&& old(self).life.active && !before.discarding && batch_due(before, now)
                            && before.bytes > 0
                        &&& crate::buffer::bytes_of(bytes).len() == if OUTPUT_BATCH
                            < before.bytes {
                            OUTPUT_BATCH
                        } else {
                            before.bytes
                        }
                        &&& crate::buffer::bytes_of(bytes) + after.pending() == before.pending()
                        &&& after.outstanding == before.outstanding + crate::buffer::bytes_of(
                            bytes,
                        ).len()
                        &&& after.deadline == if after.queue@.len() == 0 {
                            None
                        } else {
                            before.deadline
                        }
                    },
                    None => {
                        &&& !(old(self).life.active && !before.discarding && batch_due(
                            before,
                            now,
                        ) && before.bytes > 0)
                        &&& after.queue == before.queue
                        &&& after.bytes == before.bytes
                        &&& after.outstanding == before.outstanding
                        &&& after.deadline == before.deadline
                    },
                }
                &&& ({
                    let ends = old(self).life.active && before.eof && after.bytes == 0
                        && after.outstanding == 0 && !before.done_notified;
                    &&& after.done_notified == (before.done_notified || ends)
                    &&& refresh.ended == if ends {
                        Some(before.failed)
                    } else {
                        None
                    }
                })
            }),
    {
        proof {
            crate::session::pending_empty(self.output.queue@);
        }
        let total: usize = self.output.output_total();
        let enabled = !self.output.paused && !self.output.eof && (self.output.discarding || total
            < self.output.capacity);
        let interest = self.update_read_filter(enabled);
        let overdue = match self.output.deadline {
            Some(deadline) => deadline <= now,
            None => false,
        };
        let due = self.output.bytes <= INTERACTIVE_BATCH || self.output.bytes >= OUTPUT_BATCH
            || self.output.eof || overdue;
        let output: Option<Bytes> = if self.life.active && !self.output.discarding && due
            && self.output.queue.len() > 0 {
            Some(self.output.pull_output(OUTPUT_BATCH))
        } else {
            None
        };
        proof {
            crate::session::pending_empty(self.output.queue@);
        }
        let ended: Option<bool> = if self.life.active && self.output.eof
            && self.output.queue.len() == 0 && self.output.outstanding == 0
            && !self.output.done_notified {
            self.output.done_notified = true;
            Some(self.output.failed)
        } else {
            None
        };
        Refresh { interest, output, ended }
    }

    /// Starts discarding output.
    pub fn cancel_output(&mut self)
        requires
            old(self).wf(),
        ensures
            final(self).wf(),
            old(self).orderly() ==> final(self).orderly(),
            *final(self) == (Session { output: final(self).output, ..*old(self) }),
            final(self).output.queue@ == Seq::<crate::session::QueuedBytes>::empty(),
            final(self).output.deadline is None,
            final(self).output.discarding,
            !final(self).output.paused,
            final(self).output.outstanding == old(self).output.outstanding,
            final(self).output.capacity == old(self).output.capacity,
            final(self).output.eof == old(self).output.eof,
            final(self).output.failed == old(self).output.failed,
            final(self).output.done_notified == old(self).output.done_notified,
    {
        self.output.discarding = true;
        self.output.paused = false;
        self.output.clear();
        self.output.deadline = None;
    }

    /// Drops everything that waits in either direction, and the consumer's credit.
    fn drop_queues(&mut self)
        requires
            old(self).wf(),
        ensures
            final(self).wf(),
            old(self).orderly() ==> final(self).orderly(),
            *final(self) == (Session {
                input: final(self).input,
                output: final(self).output,
                ..*old(self)
            }),
            queues_dropped(&old(self).input, &final(self).input, &old(self).output, &final(
                self).output),
    {
        self.input.abandon();
        self.output.clear();
        self.output.outstanding = 0;
    }

    /// Gives a session up: nobody consumes it any more.
    pub fn abandon(&mut self)
        requires
            old(self).wf(),
        ensures
            final(self).wf(),
            old(self).orderly() ==> final(self).orderly(),
            *final(self) == (Session {
                input: final(self).input,
                output: final(self).output,
                life: Life { abandoned: true, active: false, ..old(self).life },
                ..*old(self)
            }),
            queues_dropped(
                &old(self).input,
                &final(self).input,
                &(OutputState { paused: false, ..old(self).output }),
                &final(self).output,
            ),
    {
        self.life.abandoned = true;
        self.life.active = false;
        self.output.paused = false;
        self.drop_queues();
    }

    /// Gives a session up whose activation is overdue.
    pub fn expire_activation(&mut self, now: u64) -> (expired: bool)
        requires
            old(self).wf(),
        ensures
            final(self).wf(),
            old(self).orderly() ==> final(self).orderly(),
            expired == (!old(self).life.active && !old(self).life.abandoned && (
            old(self).life.activation_deadline matches Some(deadline) && deadline <= now)),
            expired ==> {
                &&& *final(self) == (Session {
                    input: final(self).input,
                    output: final(self).output,
                    life: Life {
                        abandoned: true,
                        activation_deadline: None,
                        ..old(self).life
                    },
                    ..*old(self)
                })
                &&& queues_dropped(
                    &old(self).input,
                    &final(self).input,
                    &old(self).output,
                    &final(self).output,
                )
            },
            !expired ==> *final(self) == *old(self),
    {
        let overdue = match self.life.activation_deadline {
            Some(deadline) => deadline <= now,
            None => false,
        };
        if !self.life.active && !self.life.abandoned && overdue {
            self.life.abandoned = true;
            self.life.activation_deadline = None;
            self.drop_queues();
            true
        } else {
            false
        }
    }

    /// Starts closing a session that nobody waits for. `None` means that the broker has
    /// to be asked, with a report to `after_close_request`.
    pub fn close_session(&mut self) -> (closed: Option<bool>)
        requires
            old(self).wf(),
        ensures
            final(self).wf(),
            old(self).orderly() ==> final(self).orderly(),
            if old(self).life.close_started {
                closed == Some(true) && *final(self) == *old(self)
            } else if old(self).life.exit_status is Some && old(self).output.eof {
                closed == Some(true) && *final(self) == started_close(*old(self))
            } else {
                closed is None && *final(self) == *old(self)
            },
    {
        if self.life.close_started {
            return Some(true);
        }
        if self.life.exit_status.is_some() && self.output.eof {
            self.input.admission.close();
            self.life.close_started = true;
            return Some(true);
        }
        None
    }

    /// What follows the request to the broker to close.
    pub fn after_close_request(&mut self, mail: Mail) -> (closed: bool)
        requires
            old(self).wf(),
        ensures
            final(self).wf(),
            old(self).orderly() ==> final(self).orderly(),
            closed == (mail == Mail::Accepted),
            *final(self) == if closed {
                started_close(*old(self))
            } else {
                *old(self)
            },
    {
        match mail {
            Mail::Accepted => {
                self.input.admission.close();
                self.life.close_started = true;
                true
            },
            _ => false,
        }
    }

    /// Starts closing a session whose owner waits. Processes are asked to end first,
    /// unless there is no time for that or the child is gone.
    pub fn start_graceful_close(&mut self, now: u64) -> (step: CloseStep)
        requires
            old(self).wf(),
            now <= MAX_NOW,
        ensures
            final(self).wf(),
            old(self).orderly() ==> final(self).orderly(),
            if old(self).life.close_started {
                step == CloseStep::Settled && *final(self) == *old(self)
            } else if old(self).life.exit_status is Some || old(self).closing.timeout == 0 {
                &&& step == if old(self).closing.escalated {
                    CloseStep::Settled
                } else {
                    CloseStep::ForceClose
                }
                &&& *final(self) == (Session {
                    closing: Closing { deadline: None, ..old(self).closing },
                    ..started_close(*old(self))
                })
            } else {
                &&& step == CloseStep::SignalGracefully
                &&& *final(self) == (Session {
                    closing: Closing {
                        deadline: Some((now + old(self).closing.timeout) as u64),
                        ..old(self).closing
                    },
                    ..started_close(*old(self))
                })
            },
    {
        if self.life.close_started {
            return CloseStep::Settled;
        }
        self.input.admission.close();
        self.life.close_started = true;
        if self.life.exit_status.is_some() || self.closing.timeout == 0 {
            return self.escalate_close();
        }
        self.closing.deadline = Some(now + self.closing.timeout);
        CloseStep::SignalGracefully
    }

    /// What follows the request to the broker to signal the processes.
    pub fn after_graceful_signal(&mut self, mail: Mail) -> (step: CloseStep)
        requires
            old(self).wf(),
        ensures
            final(self).wf(),
            old(self).orderly() ==> final(self).orderly(),
            if mail == Mail::Accepted {
                step == CloseStep::Settled && *final(self) == *old(self)
            } else {
                &&& step == if old(self).closing.escalated {
                    CloseStep::Settled
                } else {
                    CloseStep::ForceClose
                }
                &&& *final(self) == (Session {
                    closing: Closing { deadline: None, ..old(self).closing },
                    ..*old(self)
                })
            },
    {
        match mail {
            Mail::Accepted => CloseStep::Settled,
            _ => self.escalate_close(),
        }
    }

    /// Turns to force, once.
    pub fn escalate_close(&mut self) -> (step: CloseStep)
        ensures
            *final(self) == (Session {
                closing: Closing { deadline: None, ..old(self).closing },
                ..*old(self)
            }),
            step == if old(self).closing.escalated {
                CloseStep::Settled
            } else {
                CloseStep::ForceClose
            },
            old(self).wf() ==> final(self).wf(),
            old(self).orderly() ==> final(self).orderly(),
    {
        self.closing.deadline = None;
        if self.closing.escalated {
            CloseStep::Settled
        } else {
            CloseStep::ForceClose
        }
    }

    /// What follows the request to the broker to kill the processes. A full mailbox is
    /// tried again on the next turn.
    pub fn after_force_close(&mut self, mail: Mail, now: u64)
        ensures
            *final(self) == (Session {
                closing: if mail == Mail::Full {
                    Closing { deadline: Some(now), ..old(self).closing }
                } else {
                    Closing { escalated: true, ..old(self).closing }
                },
                ..*old(self)
            }),
            old(self).wf() ==> final(self).wf(),
            old(self).orderly() ==> final(self).orderly(),
    {
        match mail {
            Mail::Full => {
                self.closing.deadline = Some(now);
            },
            _ => {
                self.closing.escalated = true;
            },
        }
    }

    /// Turns to force when the time for a graceful end is over.
    pub fn escalate_due_close(&mut self, now: u64) -> (step: CloseStep)
        requires
            old(self).wf(),
        ensures
            final(self).wf(),
            old(self).orderly() ==> final(self).orderly(),
            if old(self).closing.deadline matches Some(deadline) && deadline <= now {
                &&& *final(self) == (Session {
                    closing: Closing { deadline: None, ..old(self).closing },
                    ..*old(self)
                })
                &&& step == if old(self).closing.escalated {
                    CloseStep::Settled
                } else {
                    CloseStep::ForceClose
                }
            } else {
                step == CloseStep::Settled && *final(self) == *old(self)
            },
    {
        let due = match self.closing.deadline {
            Some(deadline) => deadline <= now,
            None => false,
        };
        if due {
            self.escalate_close()
        } else {
            CloseStep::Settled
        }
    }

    /// Whether a failed intermediate step of the cleanup matters: it does while the
    /// child is there.
    pub fn record_cleanup_result(&self, succeeded: bool) -> (escalate: bool)
        ensures
            escalate == (!succeeded && self.life.exit_status is None),
    {
        !succeeded && self.life.exit_status.is_none()
    }

    /// Where the release stands.
    pub fn request_release(&self) -> (step: ReleaseStep)
        ensures
            step == match self.closing.release {
                ReleaseState::Complete => ReleaseStep::Complete,
                ReleaseState::Pending => ReleaseStep::Wait,
                ReleaseState::Needed => ReleaseStep::Ask,
            },
    {
        match self.closing.release {
            ReleaseState::Complete => ReleaseStep::Complete,
            ReleaseState::Pending => ReleaseStep::Wait,
            ReleaseState::Needed => ReleaseStep::Ask,
        }
    }

    /// What follows the request to the broker to release. A broker that is lost releases
    /// nothing, and the cleanup failed.
    pub fn after_release_request(&mut self, mail: Mail) -> (complete: bool)
        requires
            old(self).wf(),
        ensures
            final(self).wf(),
            old(self).orderly() ==> final(self).orderly(),
            complete == (mail == Mail::Lost),
            *final(self) == match mail {
                Mail::Accepted => Session {
                    closing: Closing { release: ReleaseState::Pending, ..old(self).closing },
                    ..*old(self)
                },
                Mail::Full => *old(self),
                Mail::Lost => Session {
                    closing: Closing { release: ReleaseState::Complete, ..old(self).closing },
                    life: Life { cleanup_failed: true, ..old(self).life },
                    ..*old(self)
                },
            },
    {
        match mail {
            Mail::Accepted => {
                self.closing.release = ReleaseState::Pending;
                false
            },
            Mail::Full => false,
            Mail::Lost => {
                self.record_release_result(false);
                true
            },
        }
    }

    /// Whether nothing is left but the release of a session whose owner waits.
    pub open spec fn is_drained(&self) -> bool {
        &&& self.life.exit_status is Some
        &&& self.output.eof
        &&& self.output.bytes == 0
        &&& self.output.outstanding == 0
    }

    /// Whether the session can be released and its close reported.
    pub fn close_is_complete(&self) -> (complete: bool)
        requires
            self.wf(),
        ensures
            complete == (!self.life.abandoned && self.life.close_started && self.is_drained()),
    {
        !self.life.abandoned && self.life.close_started && self.life.exit_status.is_some()
            && self.output.eof && self.output.bytes == 0 && self.output.outstanding == 0
    }

    /// Whether the session can be released without a report.
    pub fn is_removable(&self) -> (removable: bool)
        requires
            self.wf(),
        ensures
            removable == (self.life.abandoned && self.is_drained()),
    {
        self.life.abandoned && self.life.exit_status.is_some() && self.output.eof
            && self.output.bytes == 0 && self.output.outstanding == 0
    }

    /// Starts or stops the observation of terminal modes, with the mode read now. An
    /// observation that starts first reports that mode.
    pub fn observe_mode(&mut self, observe: bool, mode: Option<[bool; 3]>, now: u64) -> (current:
        Option<[bool; 3]>)
        requires
            old(self).wf(),
            now <= MAX_NOW,
        ensures
            final(self).wf(),
            old(self).orderly() ==> final(self).orderly(),
            current == if observe {
                mode
            } else {
                None
            },
            *final(self) == (Session {
                modes: if observe {
                    Modes {
                        deadline: Some((now + MODE_POLL_MIN) as u64),
                        interval: MODE_POLL_MIN,
                        observed: mode,
                    }
                } else {
                    Modes { deadline: None, observed: None, ..old(self).modes }
                },
                ..*old(self)
            }),
    {
        if observe {
            self.modes.observed = mode;
            self.modes.interval = MODE_POLL_MIN;
            self.modes.deadline = Some(now + MODE_POLL_MIN);
            mode
        } else {
            self.modes.observed = None;
            self.modes.deadline = None;
            None
        }
    }

    /// Whether the terminal mode is to be read again.
    pub fn mode_is_due(&self, now: u64) -> (due: bool)
        ensures
            due == (self.modes.deadline matches Some(deadline) && deadline <= now),
    {
        match self.modes.deadline {
            Some(deadline) => deadline <= now,
            None => false,
        }
    }

    /// Compares a mode that was read with the one before. A change is reported and
    /// watched closely; without one the interval doubles up to its bound.
    pub fn refresh_mode(&mut self, mode: Option<[bool; 3]>, now: u64) -> (changed: Option<[bool; 3]>)
        requires
            old(self).wf(),
            now <= MAX_NOW,
        ensures
            final(self).wf(),
            old(self).orderly() ==> final(self).orderly(),
            changed == if mode is Some && mode != old(self).modes.observed {
                mode
            } else {
                None
            },
            *final(self) == (Session {
                modes: ({
                    let doubled = 2 * old(self).modes.interval;
                    let interval: u64 = if changed is Some {
                        MODE_POLL_MIN
                    } else if doubled < MODE_POLL_MAX {
                        doubled as u64
                    } else {
                        MODE_POLL_MAX
                    };
                    Modes {
                        deadline: Some((now + interval) as u64),
                        interval,
                        observed: if changed is Some {
                            mode
                        } else {
                            old(self).modes.observed
                        },
                    }
                }),
                ..*old(self)
            }),
    {
        let changed = mode.is_some() && !same_modes(mode, self.modes.observed);
        if changed {
            self.modes.observed = mode;
            self.modes.interval = MODE_POLL_MIN;
        } else {
            let doubled: u64 = self.modes.interval * 2;
            self.modes.interval = if doubled < MODE_POLL_MAX {
                doubled
            } else {
                MODE_POLL_MAX
            };
        }
        self.modes.deadline = Some(now + self.modes.interval);
        if changed {
            mode
        } else {
            None
        }
    }
}

/// A session of a child that just started: nothing waits, nothing was asked for, and it is
/// not yet active.
pub open spec fn is_fresh(
    session: &Session,
    broker_session: u64,
    pid: i32,
    input_capacity: usize,
    output_capacity: usize,
    graceful_close_timeout: u64,
    now: u64,
) -> bool {
    &&& session.input.admission == (session::InputAdmission {
        capacity: input_capacity,
        bytes: 0,
        entries: 0,
        open: true,
    })
    &&& session.input.queue@.len() == 0
    &&& !session.input.failed && !session.input.failure_pending && !session.input.failure_notified
    &&& session.output.capacity == output_capacity
    &&& session.output.queue@.len() == 0
    &&& session.output.outstanding == 0
    &&& session.output.deadline is None
    &&& session.output.paused
    &&& !session.output.discarding && !session.output.eof && !session.output.failed
        && !session.output.done_notified
    &&& session.life == (Life {
        exit_status: None,
        close_started: false,
        cleanup_failed: false,
        close_notified: false,
        active: false,
        activation_deadline: Some((now + ACTIVATION_TIMEOUT) as u64),
        abandoned: false,
    })
    &&& session.closing == (Closing {
        timeout: graceful_close_timeout,
        deadline: None,
        escalated: false,
        release: ReleaseState::Needed,
    })
    &&& session.filters == (Filters { read: None, write: None, registered: false })
    &&& session.modes == (Modes { deadline: None, interval: MODE_POLL_MIN, observed: None })
    &&& session.broker_session == broker_session
    &&& session.pid == pid
    &&& session.close_waiters@.len() == 0
}

/// Whether two readings of a terminal mode are the same.
fn same_modes(first: Option<[bool; 3]>, second: Option<[bool; 3]>) -> (same: bool)
    ensures
        same == (first == second),
{
    match (first, second) {
        (Some(first), Some(second)) => {
            let same = first[0] == second[0] && first[1] == second[1] && first[2] == second[2];
            assert(same == (first =~= second));
            assert(same == (first == second));
            same
        },
        (None, None) => true,
        _ => false,
    }
}

/// The session after its close started.
pub open spec fn started_close(session: Session) -> Session {
    Session {
        input: InputState {
            admission: crate::session::InputAdmission {
                open: false,
                ..session.input.admission
            },
            ..session.input
        },
        life: Life { close_started: true, ..session.life },
        ..session
    }
}

/// What the end of input leaves of it.
pub open spec fn input_failed_from(before: &InputState, after: &InputState) -> bool {
    &&& after.failed
    &&& after.queue@ == Seq::<crate::session::QueuedBytes>::empty()
    &&& after.admission == (crate::session::InputAdmission {
        open: false,
        ..crate::session::released(before)
    })
    &&& after.failure_pending == (before.failure_pending || before.queue@.len() > 0)
    &&& after.failure_notified == (before.failure_notified || before.queue@.len() > 0)
}

/// What giving a session up leaves of its queues.
pub open spec fn queues_dropped(
    input_before: &InputState,
    input_after: &InputState,
    output_before: &OutputState,
    output_after: &OutputState,
) -> bool {
    &&& input_after.same_flags(input_before)
    &&& input_after.queue@ == Seq::<crate::session::QueuedBytes>::empty()
    &&& input_after.admission == (crate::session::InputAdmission {
        open: false,
        ..crate::session::released(input_before)
    })
    &&& output_after.same_flags(output_before)
    &&& output_after.queue@ == Seq::<crate::session::QueuedBytes>::empty()
    &&& output_after.bytes == 0
    &&& output_after.outstanding == 0
    &&& output_after.deadline == output_before.deadline
}

} // verus!
