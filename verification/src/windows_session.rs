//! One session of the Windows engine.
//!
//! Its reads and writes are asynchronous: one of each may be in flight. Its notices draw on
//! reservations that it was started with, so that its end can be told whatever its
//! consumer does. Times are in nanoseconds on one monotonic clock.
use crate::buffer;
use crate::error::{self, CloseResult, Operation, OperationError};
use crate::fault::{ErrorKind, IoError};
use crate::notice::Notice;
use crate::session::{self, InputAdmission, InputState, OutputState, QueuedBytes};
use crate::windows_budget::{self, OutputTerminalNotice};
use vstd::prelude::*;

verus! {

pub const BYTE_QUANTUM: usize = 65536;

pub const INTERACTIVE_BATCH: usize = 256;

pub const OUTPUT_BATCH: usize = 131_072;

pub const OUTPUT_DELAY: u64 = 1_000_000;

pub const ACTIVATION_TIMEOUT: u64 = 5_000_000_000;

/// The latest time that the engine counts with.
pub const MAX_NOW: u64 = 0xffff_fff0_0000_0000;

/// How far a session has come.
#[derive(Clone, Copy, Debug, PartialEq, Eq, Structural)]
pub struct Stage {
    pub active: bool,
    pub abandoned: bool,
    pub close_started: bool,
    pub close_notified: bool,
    pub activation_deadline: Option<u64>,
}

/// What is known of the child's exit.
#[derive(Clone, Copy, Debug, PartialEq, Eq, Structural)]
pub struct Exit {
    pub status: Option<i64>,
    pub failure: Option<OperationError>,
    pub notified: bool,
}

/// What failed, and what of it was told.
#[derive(Clone, Copy, Debug, PartialEq, Eq, Structural)]
pub struct Faults {
    pub input: Option<OperationError>,
    pub input_notified: bool,
    pub output: Option<OperationError>,
    pub output_notified: bool,
    pub cleanup: Option<OperationError>,
    pub lost_notified: bool,
    /// What ended the admission of writes, if the runtime was lost.
    pub refused: Option<OperationError>,
}

/// What is in flight.
#[derive(Clone, Copy, Debug, PartialEq, Eq, Structural)]
pub struct Flight {
    /// The size of the read that is in flight.
    pub reading: Option<usize>,
    pub writing: bool,
    /// The output that is out with the consumer in one notice.
    pub lease_bytes: usize,
    /// Output waits for room among the notices.
    pub blocked: bool,
}

/// How the console's close stands.
#[derive(Clone, Copy, Debug, PartialEq, Eq, Structural)]
pub struct Console {
    pub owned: bool,
    pub permit: bool,
    pub close_started: bool,
    pub close_done: bool,
}

/// Where a session stands.
#[derive(Clone, Copy, Debug, PartialEq, Eq, Structural)]
pub struct Life {
    pub stage: Stage,
    pub exit: Exit,
    pub faults: Faults,
    pub flight: Flight,
    pub console: Console,
    /// How many notices the session may still send.
    pub reservations: usize,
}

/// Where a session's notices go during one step.
#[derive(Debug)]
pub struct Outbox {
    /// Whether the session's consumer takes notices.
    pub open: bool,
    /// How many notices can still be reserved.
    pub free: usize,
    pub sent: Vec<Notice>,
}

/// What an outbox holds.
pub ghost struct OutboxModel {
    pub open: bool,
    pub free: usize,
    pub sent: Seq<Notice>,
}

impl View for Outbox {
    type V = OutboxModel;

    open spec fn view(&self) -> OutboxModel {
        OutboxModel { open: self.open, free: self.free, sent: self.sent@ }
    }
}

/// One notice more can be reserved.
pub open spec fn freed(free: usize) -> usize {
    if free == usize::MAX {
        free
    } else {
        (free + 1) as usize
    }
}

/// What has to be done for a session, in this order.
#[derive(Clone, Copy, Debug, PartialEq, Eq, Structural)]
pub enum Follow {
    /// Kill the session's processes.
    TerminateJob,
    /// Cancel the write in flight.
    CancelWrite,
    /// Ask `console_close` what to do.
    CloseConsole,
    /// Ask `read_room` for the next read.
    EnsureRead,
    /// Ask `next_write` for the next write.
    EnsureWrite,
    /// Call `refresh_output`.
    Refresh,
}

/// What is to be done with a session's console.
#[derive(Clone, Copy, Debug, PartialEq, Eq, Structural)]
pub enum ConsoleStep {
    Nothing,
    /// Close it at once.
    CloseNow,
    /// Hand it to a closer of its own, then report to `after_console_submit`.
    Submit,
}

/// How a read or write was submitted.
#[derive(Clone, Debug, PartialEq, Eq)]
pub enum Submitted {
    /// It is in flight.
    Pending,
    /// The other end is gone.
    BrokenPipe,
    Failed(IoError),
}

/// How a read ended.
#[derive(Clone, Debug, PartialEq, Eq)]
pub enum ReadDone {
    Data(Vec<u8>),
    /// The output is over.
    End,
    Failed(IoError),
}

/// One session.
pub struct WindowsSession {
    pub input: InputState,
    pub output: OutputState,
    pub life: Life,
    pub pid: u32,
    pub size: [u32; 4],
    pub close_waiters: Vec<u64>,
}

/// A session whose notices are lost: it is over for its consumer.
pub open spec fn silenced(life: Life) -> Life {
    Life {
        stage: Stage {
            active: false,
            abandoned: life.stage.abandoned || !life.stage.close_started,
            ..life.stage
        },
        faults: Faults {
            cleanup: windows_budget::first_failure(
                life.faults.cleanup,
                error::lost_failure(Operation::Close),
            ),
            ..life.faults
        },
        ..life
    }
}

/// A session that sends a notice of its life. It uses one of its reservations; without
/// one, or without a consumer, it is silenced.
pub open spec fn told(life: Life, outbox: OutboxModel, notice: Notice) -> (Life, OutboxModel) {
    if life.reservations == 0 {
        (silenced(life), outbox)
    } else {
        let less = Life { reservations: (life.reservations - 1) as usize, ..life };
        if outbox.open {
            (less, OutboxModel { sent: outbox.sent.push(notice), ..outbox })
        } else {
            (silenced(less), OutboxModel { free: freed(outbox.free), ..outbox })
        }
    }
}

/// A session whose accepted input is lost. It says so once, when it is active.
pub open spec fn input_lost(
    life: Life,
    outbox: OutboxModel,
    handle: u64,
    failure: OperationError,
) -> (Life, OutboxModel) {
    let kept = windows_budget::first_failure(life.faults.input, failure);
    if life.stage.active && !life.faults.input_notified {
        told(
            Life { faults: Faults { input: kept, input_notified: true, ..life.faults }, ..life },
            outbox,
            Notice::InputFailed { handle, failure: kept.unwrap() },
        )
    } else {
        (Life { faults: Faults { input: kept, ..life.faults }, ..life }, outbox)
    }
}

/// A session whose input ends, with accepted input lost or not.
pub open spec fn input_ended(
    life: Life,
    outbox: OutboxModel,
    handle: u64,
    failure: OperationError,
    pending: bool,
) -> (Life, OutboxModel) {
    if pending {
        input_lost(life, outbox, handle, failure)
    } else {
        (life, outbox)
    }
}

/// A session that tells of its exit, once.
pub open spec fn exit_told(life: Life, outbox: OutboxModel, handle: u64) -> (Life, OutboxModel) {
    let noted = Life { exit: Exit { notified: true, ..life.exit }, ..life };
    if life.exit.notified {
        (life, outbox)
    } else if life.exit.failure is Some {
        told(
            noted,
            outbox,
            Notice::ExitFailed { handle, failure: life.exit.failure.unwrap() },
        )
    } else if life.exit.status is Some {
        told(noted, outbox, Notice::Exit { handle, status: life.exit.status.unwrap() })
    } else {
        (life, outbox)
    }
}

/// Input that is over.
pub open spec fn is_ended(before: &InputState, after: &InputState) -> bool {
    &&& after.wf()
    &&& after.failed
    &&& after.failure_pending == before.failure_pending
    &&& after.failure_notified == before.failure_notified
    &&& after.queue@ == Seq::<QueuedBytes>::empty()
    &&& after.admission == (InputAdmission { open: false, ..session::released(before) })
}

impl Outbox {
    /// An outbox for one step.
    pub fn new(open: bool, free: usize) -> (outbox: Outbox)
        ensures
            outbox@ == (OutboxModel { open, free, sent: Seq::empty() }),
    {
        Outbox { open, free, sent: Vec::new() }
    }
}

impl Life {
    /// Keeps a failure of the cleanup, unless there was one before.
    pub fn retain_cleanup_failure(&mut self, failure: OperationError)
        ensures
            final(self).stage.close_notified == old(self).stage.close_notified,
            *final(self) == (Life {
                faults: Faults {
                    cleanup: windows_budget::first_failure(old(self).faults.cleanup, failure),
                    ..old(self).faults
                },
                ..*old(self)
            }),
    {
        if self.faults.cleanup.is_none() {
            self.faults.cleanup = Some(failure);
        }
    }

    /// Ends the session for its consumer.
    fn silence(&mut self)
        ensures
            final(self).stage.close_notified == old(self).stage.close_notified,
            *final(self) == silenced(*old(self)),
    {
        self.retain_cleanup_failure(error::infrastructure_failure(Operation::Close));
        self.stage.active = false;
        if !self.stage.close_started {
            self.stage.abandoned = true;
        }
    }

    /// Sends a notice of the session's life.
    pub fn send_lifecycle_notice(&mut self, outbox: &mut Outbox, notice: Notice)
        ensures
            final(self).stage.close_notified == old(self).stage.close_notified,
            (*final(self), final(outbox)@) == told(*old(self), old(outbox)@, notice),
    {
        if self.reservations == 0 {
            self.silence();
            return;
        }
        self.reservations = self.reservations - 1;
        if outbox.open {
            outbox.sent.push(notice);
        } else {
            outbox.free = outbox.free.saturating_add(1);
            self.silence();
        }
    }

    /// Takes note that accepted input is lost.
    pub fn notify_input_failure(&mut self, handle: u64, outbox: &mut Outbox, failure: OperationError)
        ensures
            final(self).stage.close_notified == old(self).stage.close_notified,
            (*final(self), final(outbox)@) == input_lost(
                *old(self),
                old(outbox)@,
                handle,
                failure,
            ),
    {
        let kept: OperationError = match self.faults.input {
            Some(earlier) => earlier,
            None => failure,
        };
        self.faults.input = Some(kept);
        if self.stage.active && !self.faults.input_notified {
            self.faults.input_notified = true;
            self.send_lifecycle_notice(outbox, Notice::InputFailed { handle, failure: kept });
        }
    }

    /// Tells of the exit, once.
    pub fn announce_exit(&mut self, handle: u64, outbox: &mut Outbox)
        ensures
            final(self).stage.close_notified == old(self).stage.close_notified,
            (*final(self), final(outbox)@) == exit_told(*old(self), old(outbox)@, handle),
    {
        if self.exit.notified {
            return;
        }
        if let Some(failure) = self.exit.failure {
            self.exit.notified = true;
            self.send_lifecycle_notice(outbox, Notice::ExitFailed { handle, failure });
        } else if let Some(status) = self.exit.status {
            self.exit.notified = true;
            self.send_lifecycle_notice(outbox, Notice::Exit { handle, status });
        }
    }
}

impl WindowsSession {
    /// The queues' invariants, room for the read in flight, and no admission once a close
    /// has started.
    pub open spec fn wf(&self) -> bool {
        &&& self.life.stage.close_started ==> !self.input.admission.open
        &&& self.input.wf()
        &&& self.output.wf()
        &&& (self.life.flight.reading is Some && !self.output.discarding
            && !self.life.stage.close_started) ==> self.output.total()
            + self.life.flight.reading.unwrap() <= self.output.capacity
    }

    /// Everything but the life is as it was.
    pub open spec fn same_queues(&self, before: &WindowsSession) -> bool {
        &&& self.input == before.input
        &&& self.output == before.output
        &&& self.same_facts(before)
    }

    /// The fixed facts and those who wait are as they were.
    pub open spec fn same_facts(&self, before: &WindowsSession) -> bool {
        &&& self.pid == before.pid
        &&& self.size == before.size
        &&& self.close_waiters == before.close_waiters
    }

    /// A child that was just started, not yet active.
    pub fn from_spawned(
        pid: u32,
        size: [u32; 4],
        reservations: usize,
        input_capacity: usize,
        output_capacity: usize,
        now: u64,
    ) -> (session: WindowsSession)
        requires
            output_capacity <= isize::MAX,
            now <= MAX_NOW,
        ensures
            session.wf(),
            session.input.admission == (InputAdmission {
                capacity: input_capacity,
                bytes: 0,
                entries: 0,
                open: true,
            }),
            session.input.queue@.len() == 0,
            !session.input.failed && !session.input.failure_pending
                && !session.input.failure_notified,
            session.output.capacity == output_capacity,
            session.output.queue@.len() == 0,
            session.output.outstanding == 0,
            session.output.deadline is None,
            session.output.paused,
            !session.output.discarding && !session.output.eof && !session.output.failed
                && !session.output.done_notified,
            session.life == fresh_life(reservations, (now + ACTIVATION_TIMEOUT) as u64),
            session.pid == pid,
            session.size == size,
            session.close_waiters@.len() == 0,
    {
        WindowsSession {
            input: InputState::new(input_capacity),
            output: OutputState::new(output_capacity),
            life: Life {
                stage: Stage {
                    active: false,
                    abandoned: false,
                    close_started: false,
                    close_notified: false,
                    activation_deadline: Some(now + ACTIVATION_TIMEOUT),
                },
                exit: Exit { status: None, failure: None, notified: false },
                faults: Faults {
                    input: None,
                    input_notified: false,
                    output: None,
                    output_notified: false,
                    cleanup: None,
                    lost_notified: false,
                    refused: None,
                },
                flight: Flight { reading: None, writing: false, lease_bytes: 0, blocked: false },
                console: Console { owned: true, permit: true, close_started: false, close_done: false },
                reservations,
            },
            pid,
            size,
            close_waiters: Vec::new(),
        }
    }

    /// Ends the input.
    pub fn fail_input(&mut self, handle: u64, outbox: &mut Outbox, failure: OperationError)
        requires
            old(self).wf(),
        ensures
            final(self).life.stage.close_notified == old(
                self).life.stage.close_notified,
            final(self).wf(),
            ({
                let after = input_ended(
                    old(self).life,
                    old(outbox)@,
                    handle,
                    failure,
                    old(self).input.queue@.len() > 0,
                );
                (final(self).life, final(outbox)@) == after
            }),
            is_ended(&old(self).input, &final(self).input),
            final(self).output == old(self).output,
            final(self).same_facts(old(self)),
    {
        let pending = self.input.queue.len() > 0;
        self.input.abandon();
        self.input.failed = true;
        if pending {
            self.life.notify_input_failure(handle, outbox, failure);
        }
    }

}

/// The life of a child that was just started.
pub open spec fn fresh_life(reservations: usize, deadline: u64) -> Life {
    Life {
        stage: Stage {
            active: false,
            abandoned: false,
            close_started: false,
            close_notified: false,
            activation_deadline: Some(deadline),
        },
        exit: Exit { status: None, failure: None, notified: false },
        faults: Faults {
            input: None,
            input_notified: false,
            output: None,
            output_notified: false,
            cleanup: None,
            lost_notified: false,
            refused: None,
        },
        flight: Flight { reading: None, writing: false, lease_bytes: 0, blocked: false },
        console: Console { owned: true, permit: true, close_started: false, close_done: false },
        reservations,
    }
}

/// How much output a notice takes.
pub open spec fn batch_len(output: &OutputState) -> nat {
    if OUTPUT_BATCH < output.bytes {
        OUTPUT_BATCH as nat
    } else {
        output.bytes as nat
    }
}

/// Whether output is handed out: a batch is due, and no other is out.
pub open spec fn delivers(session: &WindowsSession, now: u64) -> bool {
    &&& session.life.stage.active
    &&& session.output.bytes <= INTERACTIVE_BATCH || session.output.bytes >= OUTPUT_BATCH
        || session.output.eof || (session.output.deadline matches Some(deadline) && deadline
        <= now)
    &&& !session.output.discarding
    &&& session.output.bytes > 0
    &&& session.life.flight.lease_bytes == 0
}

/// What handing output out does. Without room it waits; without a consumer the session is
/// given up.
pub open spec fn delivered(
    before: &WindowsSession,
    after: &WindowsSession,
    box_before: OutboxModel,
    box_after: OutboxModel,
    handle: u64,
    now: u64,
) -> bool {
    &&& after.input == before.input
    &&& after.same_facts(before)
    &&& if !delivers(before, now) {
        after.life == before.life && after.output == before.output && box_after == box_before
    } else if box_before.free == 0 {
        &&& after.life == (Life {
            flight: Flight { blocked: true, ..before.life.flight },
            ..before.life
        })
        &&& after.output == before.output
        &&& box_after == box_before
    } else {
        handed(before, after, box_before, box_after, handle)
    }
}

/// What handing a batch of output out does.
pub open spec fn handed(
    before: &WindowsSession,
    after: &WindowsSession,
    box_before: OutboxModel,
    box_after: OutboxModel,
    handle: u64,
) -> bool {
    &&& after.output.same_flags(&before.output)
    &&& after.output.pending() == before.output.pending().skip(batch_len(&before.output) as int)
    &&& after.output.deadline == if after.output.queue@.len() == 0 {
        None
    } else {
        before.output.deadline
    }
    &&& if box_before.open {
        &&& after.life == (Life {
            flight: Flight {
                lease_bytes: batch_len(&before.output) as usize,
                blocked: false,
                ..before.life.flight
            },
            ..before.life
        })
        &&& after.output.outstanding == before.output.outstanding + batch_len(&before.output)
        &&& sent_output(before, box_before, box_after, handle)
    } else {
        &&& after.life == (Life {
            stage: Stage { active: false, abandoned: true, ..before.life.stage },
            ..before.life
        })
        &&& after.output.outstanding == before.output.outstanding
        &&& box_after == box_before
    }
}

/// Whether exactly the oldest output was sent.
pub open spec fn sent_output(
    before: &WindowsSession,
    box_before: OutboxModel,
    box_after: OutboxModel,
    handle: u64,
) -> bool {
    &&& box_after.open == box_before.open
    &&& box_after.free == box_before.free - 1
    &&& box_after.sent.len() == box_before.sent.len() + 1
    &&& box_after.sent.drop_last() == box_before.sent
    &&& box_after.sent.last() matches Notice::Output { handle: route, bytes } && route == handle
        && buffer::bytes_of(bytes) == before.output.pending().take(
        batch_len(&before.output) as int,
    )
}

/// What the end of the output does.
pub open spec fn end_told(
    before: &WindowsSession,
    after: &WindowsSession,
    box_before: OutboxModel,
    box_after: OutboxModel,
    handle: u64,
) -> bool {
    let notice = windows_budget::terminal_notice_of(
        before.output.eof,
        before.life.faults.output is Some,
        before.output.bytes,
        before.output.outstanding,
        before.output.done_notified,
        before.life.faults.output_notified,
    );
    &&& after.input == before.input
    &&& after.same_facts(before)
    &&& match notice {
        Some(OutputTerminalNotice::Failed) => {
            &&& after.output == before.output
            &&& (after.life, box_after) == told(
                Life {
                    faults: Faults { output_notified: true, ..before.life.faults },
                    ..before.life
                },
                box_before,
                Notice::OutputFailed { handle, failure: before.life.faults.output.unwrap() },
            )
        },
        Some(OutputTerminalNotice::Done) => {
            &&& after.output == (OutputState { done_notified: true, ..before.output })
            &&& (after.life, box_after) == told(
                before.life,
                box_before,
                Notice::OutputDone(handle),
            )
        },
        None => after.output == before.output && after.life == before.life && box_after
            == box_before,
    }
}

/// What refreshing the output of a session does: it is handed out, then its end is told.
pub open spec fn refreshed(
    before: &WindowsSession,
    after: &WindowsSession,
    box_before: OutboxModel,
    box_after: OutboxModel,
    handle: u64,
    now: u64,
) -> bool {
    if before.life.stage.active {
        exists|between: WindowsSession, box_between: OutboxModel|
            #![trigger delivered(before, &between, box_before, box_between, handle, now)]
            delivered(before, &between, box_before, box_between, handle, now) && end_told(
                &between,
                after,
                box_between,
                box_after,
                handle,
            )
    } else {
        same_session(before, after) && box_after == box_before
    }
}

/// Nothing of a session changed.
pub open spec fn same_session(before: &WindowsSession, after: &WindowsSession) -> bool {
    after.life == before.life && after.same_queues(before)
}

impl WindowsSession {
    /// Hands output out, where a batch is due.
    fn deliver_output(&mut self, handle: u64, outbox: &mut Outbox, now: u64)
        requires
            old(self).wf(),
        ensures
            final(self).life.stage.close_notified == old(
                self).life.stage.close_notified,
            final(self).wf(),
            delivered(old(self), final(self), old(outbox)@, final(outbox)@, handle, now),
    {
        let due = match self.output.deadline {
            Some(deadline) => deadline <= now,
            None => false,
        };
        let ready = self.output.bytes <= INTERACTIVE_BATCH || self.output.bytes >= OUTPUT_BATCH
            || self.output.eof || due;
        if !self.life.stage.active || !ready || self.output.discarding || self.output.bytes == 0
            || self.life.flight.lease_bytes != 0 {
            return;
        }
        if outbox.free == 0 {
            self.life.flight.blocked = true;
            return;
        }
        self.hand_out(handle, outbox);
    }

    /// Hands a batch of output out.
    fn hand_out(&mut self, handle: u64, outbox: &mut Outbox)
        requires
            old(self).wf(),
            old(self).output.bytes > 0,
            old(self).life.flight.lease_bytes == 0,
            old(outbox).free > 0,
        ensures
            final(self).life.stage.close_notified == old(
                self).life.stage.close_notified,
            final(self).wf(),
            final(self).input == old(self).input,
            final(self).same_facts(old(self)),
            handed(old(self), final(self), old(outbox)@, final(outbox)@, handle),
    {
        let ghost before = self.output.pending();
        let bytes = self.output.pull_output(OUTPUT_BATCH);
        let amount: usize = bytes.len();
        proof {
            assert(buffer::bytes_of(bytes) =~= before.take(amount as int));
            assert(self.output.pending() =~= before.skip(amount as int));
        }
        if outbox.open {
            outbox.free = outbox.free - 1;
            let ghost earlier = outbox.sent@;
            outbox.sent.push(Notice::Output { handle, bytes });
            assert(outbox.sent@.drop_last() =~= earlier);
            self.life.flight.lease_bytes = amount;
            self.life.flight.blocked = false;
        } else {
            let _reclaimed = self.output.credit(amount);
            self.life.stage.abandoned = true;
            self.life.stage.active = false;
        }
    }

    /// Tells of the end of the output, where it is due.
    fn announce_end(&mut self, handle: u64, outbox: &mut Outbox)
        requires
            old(self).wf(),
        ensures
            final(self).life.stage.close_notified == old(
                self).life.stage.close_notified,
            final(self).wf(),
            end_told(old(self), final(self), old(outbox)@, final(outbox)@, handle),
    {
        let notice = windows_budget::output_terminal_notice(
            self.output.eof,
            self.life.faults.output.is_some(),
            self.output.bytes,
            self.output.outstanding,
            self.output.done_notified,
            self.life.faults.output_notified,
        );
        match notice {
            Some(OutputTerminalNotice::Failed) => {
                self.life.faults.output_notified = true;
                if let Some(failure) = self.life.faults.output {
                    self.life.send_lifecycle_notice(
                        outbox,
                        Notice::OutputFailed { handle, failure },
                    );
                }
            },
            Some(OutputTerminalNotice::Done) => {
                self.output.done_notified = true;
                self.life.send_lifecycle_notice(outbox, Notice::OutputDone(handle));
            },
            None => {},
        }
    }

    /// Hands output out and tells of its end, where either is due.
    pub fn refresh_output(&mut self, handle: u64, outbox: &mut Outbox, now: u64)
        requires
            old(self).wf(),
        ensures
            final(self).life.stage.close_notified == old(
                self).life.stage.close_notified,
            final(self).wf(),
            refreshed(old(self), final(self), old(outbox)@, final(outbox)@, handle, now),
    {
        if !self.life.stage.active {
            return;
        }
        self.deliver_output(handle, outbox, now);
        let ghost between = *self;
        let ghost box_between = outbox@;
        self.announce_end(handle, outbox);
        assert(delivered(old(self), &between, old(outbox)@, box_between, handle, now));
    }

    /// Activates the session. What it had to tell before is told now.
    pub fn activate(&mut self, handle: u64, outbox: &mut Outbox) -> (result: Result<(), IoError>)
        requires
            old(self).wf(),
        ensures
            final(self).life.stage.close_notified == old(
                self).life.stage.close_notified,
            final(self).wf(),
            activated(old(self), final(self), old(outbox)@, final(outbox)@, handle, result),
    {
        if self.life.stage.abandoned || self.life.stage.close_started {
            return Err(IoError::new(ErrorKind::BrokenPipe, "session activation was abandoned"));
        }
        self.life.stage.active = true;
        self.life.stage.activation_deadline = None;
        self.output.paused = false;
        if let Some(failure) = self.life.faults.input {
            self.life.notify_input_failure(handle, outbox, failure);
        }
        self.life.announce_exit(handle, outbox);
        Ok(())
    }

    /// How much the next read may take, where there is to be one.
    pub fn read_room(&self) -> (room: Option<usize>)
        requires
            self.wf(),
        ensures
            room == room_of(self),
    {
        let total: usize = self.output.output_total();
        if !self.life.stage.active || self.life.flight.reading.is_some() || (self.output.paused
            && !self.output.discarding) || self.output.eof || (!self.output.discarding && total
            >= self.output.capacity) {
            return None;
        }
        if self.output.discarding || self.output.capacity - total > BYTE_QUANTUM {
            Some(BYTE_QUANTUM)
        } else {
            Some(self.output.capacity - total)
        }
    }

    /// Takes the outcome of submitting a read. The result says whether a write in flight is
    /// to be cancelled.
    pub fn after_read_submit(
        &mut self,
        handle: u64,
        outbox: &mut Outbox,
        room: usize,
        submitted: Submitted,
        now: u64,
    ) -> (cancel: bool)
        requires
            old(self).wf(),
            room_of(old(self)) == Some(room),
        ensures
            final(self).life.stage.close_notified == old(
                self).life.stage.close_notified,
            final(self).wf(),
            final(self).same_facts(old(self)),
            match submitted {
                Submitted::Pending => {
                    &&& !cancel
                    &&& final(self).input == old(self).input
                    &&& final(self).output == old(self).output
                    &&& final(self).life == (Life {
                        flight: Flight { reading: Some(room), ..old(self).life.flight },
                        ..old(self).life
                    })
                    &&& final(outbox)@ == old(outbox)@
                },
                Submitted::BrokenPipe => {
                    &&& cancel
                    &&& is_ended(&old(self).input, &final(self).input)
                    &&& exists|between: WindowsSession, box_between: OutboxModel|
                        #![trigger refreshed(&between, final(self), box_between, final(outbox)@, handle, now)]
                        {
                            &&& (between.life, box_between) == input_ended(
                                old(self).life,
                                old(outbox)@,
                                handle,
                                error::closed_input(),
                                old(self).input.queue@.len() > 0,
                            )
                            &&& between.output == (OutputState { eof: true, ..old(self).output })
                            &&& refreshed(
                                &between,
                                final(self),
                                box_between,
                                final(outbox)@,
                                handle,
                                now,
                            )
                        }
                },
                Submitted::Failed(failure) => {
                    &&& !cancel
                    &&& final(self).input == old(self).input
                    &&& final(self).output == (OutputState { eof: true, ..old(self).output })
                    &&& final(self).life == output_failed(old(self).life, failure)
                    &&& final(outbox)@ == old(outbox)@
                },
            },
    {
        match submitted {
            Submitted::Pending => {
                self.life.flight.reading = Some(room);
                false
            },
            Submitted::BrokenPipe => {
                self.output.eof = true;
                self.fail_input(handle, outbox, error::input_closed());
                let ghost between = *self;
                let ghost box_between = outbox@;
                self.refresh_output(handle, outbox, now);
                assert(refreshed(&between, self, box_between, outbox@, handle, now));
                proof {
                    refresh_keeps_input(&between, self, box_between, outbox@, handle, now);
                }
                true
            },
            Submitted::Failed(failure) => {
                self.output.eof = true;
                self.record_output_failure(&failure);
                false
            },
        }
    }

    /// Keeps a failure of the output, unless there was one before.
    fn record_output_failure(&mut self, failure: &IoError)
        ensures
            final(self).life.stage.close_notified == old(
                self).life.stage.close_notified,
            *final(self) == (WindowsSession {
                life: output_failed(old(self).life, *failure),
                ..*old(self)
            }),
    {
        if self.life.faults.output.is_none() {
            self.life.faults.output = Some(OperationError::from_io(Operation::Output, failure));
        }
    }
}

/// How much the next read may take, where there is to be one.
pub open spec fn room_of(session: &WindowsSession) -> Option<usize> {
    let output = &session.output;
    if !session.life.stage.active || session.life.flight.reading is Some || (output.paused
        && !output.discarding) || output.eof || (!output.discarding && output.total()
        >= output.capacity) {
        None
    } else if output.discarding || output.capacity - output.total() > BYTE_QUANTUM {
        Some(BYTE_QUANTUM)
    } else {
        Some((output.capacity - output.total()) as usize)
    }
}

/// A session whose output failed.
pub open spec fn output_failed(life: Life, failure: IoError) -> Life {
    Life {
        faults: Faults {
            output: windows_budget::first_failure(
                life.faults.output,
                OperationError {
                    operation: Operation::Output,
                    kind: error::operation_kind_of(failure.kind),
                    native_code: failure.code,
                },
            ),
            ..life.faults
        },
        ..life
    }
}

/// Refreshing the output leaves the input as it is.
proof fn refresh_keeps_input(
    before: &WindowsSession,
    after: &WindowsSession,
    box_before: OutboxModel,
    box_after: OutboxModel,
    handle: u64,
    now: u64,
)
    requires
        refreshed(before, after, box_before, box_after, handle, now),
    ensures
        after.input == before.input,
        after.same_facts(before),
{
}

/// What a read that ended does to the output, before it is refreshed.
pub open spec fn output_after_read(
    before: &WindowsSession,
    after: &OutputState,
    done: ReadDone,
    now: u64,
) -> bool {
    match done {
        ReadDone::Data(data) => if before.life.stage.close_started || before.output.discarding {
            *after == before.output
        } else {
            &&& after.same_flags(&before.output)
            &&& after.outstanding == before.output.outstanding
            &&& after.pending() == before.output.pending() + data@
            &&& after.deadline == if before.output.bytes == 0 {
                Some((now + OUTPUT_DELAY) as u64)
            } else {
                before.output.deadline
            }
        },
        _ => *after == (OutputState { eof: true, ..before.output }),
    }
}

/// What a read that ended does to the session's life, before its output is refreshed.
pub open spec fn life_after_read(
    before: &WindowsSession,
    outbox: OutboxModel,
    handle: u64,
    done: ReadDone,
) -> (Life, OutboxModel) {
    let landed = Life {
        flight: Flight { reading: None, ..before.life.flight },
        ..before.life
    };
    match done {
        ReadDone::Data(_) => (landed, outbox),
        ReadDone::End => input_ended(
            landed,
            outbox,
            handle,
            error::closed_input(),
            before.input.queue@.len() > 0,
        ),
        ReadDone::Failed(failure) => (output_failed(landed, failure), outbox),
    }
}

/// A session whose write failed.
pub open spec fn write_failure(failure: IoError) -> OperationError {
    OperationError {
        operation: Operation::Write,
        kind: error::operation_kind_of(failure.kind),
        native_code: failure.code,
    }
}

/// What is to be done once a session's child has exited.
pub open spec fn if_exited(life: Life, follow: Seq<Follow>) -> Seq<Follow> {
    if life.exit.status is Some {
        follow.push(Follow::CloseConsole)
    } else {
        follow
    }
}

impl WindowsSession {
    /// The bytes of the next write, where there is to be one.
    pub fn next_write(&self) -> (chunk: Option<&[u8]>)
        requires
            self.wf(),
        ensures
            match chunk {
                Some(chunk) => {
                    &&& writes(self)
                    &&& chunk@ == self.input.queue@[0].rest()
                },
                None => !writes(self),
            },
    {
        let begun = self.input.queue.len() > 0 && self.input.queue[0].offset > 0;
        if self.life.flight.writing || !(begun || self.life.stage.active
            && !self.life.stage.close_started) {
            return None;
        }
        let chunk = self.input.next_write(usize::MAX);
        proof {
            if let Some(chunk) = chunk {
                assert(self.input.queue@[0].wf());
                assert(chunk@ =~= self.input.queue@[0].rest());
            }
        }
        chunk
    }

    /// Takes the outcome of submitting a write.
    pub fn after_write_submit(&mut self, handle: u64, outbox: &mut Outbox, submitted: Result<
        (),
        IoError,
    >)
        requires
            old(self).wf(),
        ensures
            final(self).life.stage.close_notified == old(
                self).life.stage.close_notified,
            final(self).wf(),
            final(self).same_facts(old(self)),
            final(self).output == old(self).output,
            match submitted {
                Ok(()) => {
                    &&& final(self).input == old(self).input
                    &&& final(self).life == (Life {
                        flight: Flight { writing: true, ..old(self).life.flight },
                        ..old(self).life
                    })
                    &&& final(outbox)@ == old(outbox)@
                },
                Err(failure) => {
                    &&& is_ended(&old(self).input, &final(self).input)
                    &&& (final(self).life, final(outbox)@) == input_ended(
                        old(self).life,
                        old(outbox)@,
                        handle,
                        write_failure(failure),
                        old(self).input.queue@.len() > 0,
                    )
                },
            },
    {
        match submitted {
            Ok(()) => {
                self.life.flight.writing = true;
            },
            Err(failure) => {
                let failure = OperationError::from_io(Operation::Write, &failure);
                self.fail_input(handle, outbox, failure);
            },
        }
    }

    /// Takes a read that ended.
    pub fn read_completed(
        &mut self,
        handle: u64,
        outbox: &mut Outbox,
        done: ReadDone,
        now: u64,
    ) -> (follow: Vec<Follow>)
        requires
            old(self).wf(),
            now <= MAX_NOW,
            old(self).life.flight.reading is Some,
            done matches ReadDone::Data(data) ==> 0 < data@.len()
                <= old(self).life.flight.reading.unwrap(),
        ensures
            final(self).life.stage.close_notified == old(
                self).life.stage.close_notified,
            final(self).wf(),
            read_ended(
                old(self),
                final(self),
                old(outbox)@,
                final(outbox)@,
                handle,
                done,
                now,
                follow@,
            ),
    {
        let mut follow: Vec<Follow> = Vec::new();
        self.life.flight.reading = None;
        match done {
            ReadDone::Data(data) => {
                if !self.life.stage.close_started && !self.output.discarding {
                    self.output.enqueue(data, now + OUTPUT_DELAY);
                }
            },
            ReadDone::End => {
                self.output.eof = true;
                self.fail_input(handle, outbox, error::input_closed());
                follow.push(Follow::CancelWrite);
            },
            ReadDone::Failed(failure) => {
                self.output.eof = true;
                self.record_output_failure(&failure);
            },
        }
        let ghost between = *self;
        let ghost box_between = outbox@;
        self.refresh_output(handle, outbox, now);
        proof {
            assert(refreshed(&between, self, box_between, outbox@, handle, now));
            refresh_keeps_input(&between, self, box_between, outbox@, handle, now);
        }
        follow.push(Follow::EnsureRead);
        if self.life.exit.status.is_some() {
            follow.push(Follow::CloseConsole);
        }
        assert(follow@ =~= if_exited(
            self.life,
            if done is End {
                seq![Follow::CancelWrite, Follow::EnsureRead]
            } else {
                seq![Follow::EnsureRead]
            },
        ));
        follow
    }

    /// Takes a write that ended: how much of it went out. What is left of it is written
    /// next.
    pub fn write_completed(&mut self, handle: u64, outbox: &mut Outbox, done: Result<
        usize,
        IoError,
    >) -> (follow: Vec<Follow>)
        requires
            old(self).wf(),
            old(self).life.flight.writing,
            (done matches Ok(amount) && amount > 0 && !old(self).input.failed) ==> (
            old(self).input.queue@.len() > 0 && done->Ok_0 <= old(self).input.queue@[0].rest().len()),
        ensures
            final(self).life.stage.close_notified == old(
                self).life.stage.close_notified,
            final(self).wf(),
            write_ended(
                old(self),
                final(self),
                old(outbox)@,
                final(outbox)@,
                handle,
                done,
                follow@,
            ),
    {
        self.life.flight.writing = false;
        match done {
            Err(failure) => {
                let failure = OperationError::from_io(Operation::Write, &failure);
                self.fail_input(handle, outbox, failure);
            },
            Ok(amount) => {
                if amount == 0 {
                    self.fail_input(handle, outbox, error::input_closed());
                } else if !self.input.failed {
                    self.input.wrote(amount);
                }
            },
        }
        let mut follow: Vec<Follow> = Vec::new();
        follow.push(Follow::EnsureWrite);
        if self.life.exit.status.is_some() {
            follow.push(Follow::CloseConsole);
        }
        assert(follow@ =~= if_exited(self.life, seq![Follow::EnsureWrite]));
        follow
    }

    /// Takes a completion that belongs to neither the read nor the write in flight: the
    /// engine has lost track of the session.
    pub fn stray_completion(&mut self, handle: u64, outbox: &mut Outbox) -> (follow: Vec<Follow>)
        requires
            old(self).wf(),
        ensures
            final(self).life.stage.close_notified == old(
                self).life.stage.close_notified,
            final(self).wf(),
            strayed(old(self), final(self), old(outbox)@, final(outbox)@, handle, follow@),
    {
        self.life.retain_cleanup_failure(error::infrastructure_failure(Operation::Runtime));
        if !self.life.faults.lost_notified {
            self.life.faults.lost_notified = true;
            if let Some(failure) = self.life.faults.cleanup {
                self.life.send_lifecycle_notice(outbox, Notice::BrokerLost { handle, failure });
            }
        }
        let mut follow: Vec<Follow> = Vec::new();
        if self.life.exit.status.is_some() {
            follow.push(Follow::CloseConsole);
        }
        assert(follow@ =~= if_exited(self.life, Seq::empty()));
        follow
    }

    /// Takes the exit of the child: its code, or why it could not be had. Nothing where the
    /// child has not exited.
    pub fn process_exited(
        &mut self,
        handle: u64,
        outbox: &mut Outbox,
        exited: Option<Result<u32, IoError>>,
    ) -> (follow: Vec<Follow>)
        requires
            old(self).wf(),
        ensures
            final(self).life.stage.close_notified == old(
                self).life.stage.close_notified,
            final(self).wf(),
            exit_seen(
                old(self),
                final(self),
                old(outbox)@,
                final(outbox)@,
                handle,
                exited,
                follow@,
            ),
    {
        let mut follow: Vec<Follow> = Vec::new();
        if self.life.exit.status.is_none() {
            if let Some(result) = exited {
                match result {
                    Ok(status) => {
                        self.life.exit.status = Some(status as i64);
                    },
                    Err(failure) => {
                        self.life.exit.status = Some(0);
                        self.life.exit.failure = Some(
                            OperationError::from_io(Operation::Exit, &failure),
                        );
                    },
                }
                self.fail_input(handle, outbox, error::input_closed());
                follow.push(Follow::CancelWrite);
            }
        }
        if self.life.stage.active {
            self.life.announce_exit(handle, outbox);
        }
        follow.push(Follow::CloseConsole);
        follow.push(Follow::EnsureRead);
        proof {
            let seen = old(self).life.exit.status is None && exited is Some;
            assert(follow@ =~= if seen {
                seq![Follow::CancelWrite, Follow::CloseConsole, Follow::EnsureRead]
            } else {
                seq![Follow::CloseConsole, Follow::EnsureRead]
            });
        }
        follow
    }

    /// What is to be done with the console: it is closed once, when the child has exited and
    /// the session is not paused, or is being closed.
    pub fn console_close(&mut self) -> (step: ConsoleStep)
        ensures
            final(self).life.stage.close_notified == old(
                self).life.stage.close_notified,
            final(self).same_queues(old(self)),
            ({
                let due = console_due(old(self));
                &&& step == if !due {
                    ConsoleStep::Nothing
                } else if old(self).life.console.permit {
                    ConsoleStep::Submit
                } else {
                    ConsoleStep::CloseNow
                }
                &&& final(self).life == if !due {
                    old(self).life
                } else if old(self).life.console.permit {
                    Life {
                        console: Console { owned: false, permit: false, ..old(self).life.console },
                        ..old(self).life
                    }
                } else {
                    Life {
                        console: Console { owned: false, ..old(self).life.console },
                        faults: Faults {
                            cleanup: windows_budget::first_failure(
                                old(self).life.faults.cleanup,
                                error::lost_failure(Operation::Close),
                            ),
                            ..old(self).life.faults
                        },
                        ..old(self).life
                    }
                }
            }),
            old(self).wf() ==> final(self).wf(),
    {
        if self.life.console.close_started || self.life.exit.status.is_none() || (self.output.paused
            && !self.life.stage.close_started) || !self.life.console.owned {
            return ConsoleStep::Nothing;
        }
        self.life.console.owned = false;
        if !self.life.console.permit {
            self.life.retain_cleanup_failure(error::infrastructure_failure(Operation::Close));
            return ConsoleStep::CloseNow;
        }
        self.life.console.permit = false;
        ConsoleStep::Submit
    }

    /// Takes the outcome of handing the console to a closer. Without one the console was
    /// closed on the spot, and its permit comes back.
    pub fn after_console_submit(&mut self, submitted: bool)
        ensures
            final(self).life.stage.close_notified == old(
                self).life.stage.close_notified,
            final(self).same_queues(old(self)),
            final(self).life == (Life {
                console: Console {
                    permit: old(self).life.console.permit || !submitted,
                    close_started: true,
                    close_done: old(self).life.console.close_done || !submitted,
                    ..old(self).life.console
                },
                ..old(self).life
            }),
            old(self).wf() ==> final(self).wf(),
    {
        self.life.console.close_started = true;
        if !submitted {
            self.life.console.permit = true;
            self.life.console.close_done = true;
        }
    }

    /// Takes the end of the console's close, with its permit where that came back.
    pub fn console_closed(&mut self, permit: bool)
        ensures
            final(self).life.stage.close_notified == old(
                self).life.stage.close_notified,
            final(self).same_queues(old(self)),
            final(self).life == (Life {
                console: Console { permit, close_done: true, ..old(self).life.console },
                ..old(self).life
            }),
            old(self).wf() ==> final(self).wf(),
    {
        self.life.console.permit = permit;
        self.life.console.close_done = true;
    }

    /// Closes the console of a session that goes, whatever its child does.
    pub fn force_console_close(&mut self) -> (step: ConsoleStep)
        ensures
            final(self).life.stage.close_notified == old(
                self).life.stage.close_notified,
            final(self).input == old(self).input,
            final(self).same_facts(old(self)),
            final(self).output == (OutputState { paused: false, ..old(self).output }),
            ({
                let due = !old(self).life.console.close_started && old(self).life.console.owned;
                let shut = Life {
                    stage: Stage { close_started: true, ..old(self).life.stage },
                    ..old(self).life
                };
                &&& step == if !due {
                    ConsoleStep::Nothing
                } else if old(self).life.console.permit {
                    ConsoleStep::Submit
                } else {
                    ConsoleStep::CloseNow
                }
                &&& final(self).life == if !due {
                    shut
                } else if old(self).life.console.permit {
                    Life {
                        console: Console { owned: false, permit: false, ..old(self).life.console },
                        ..shut
                    }
                } else {
                    Life {
                        console: Console { owned: false, ..old(self).life.console },
                        faults: Faults {
                            cleanup: windows_budget::first_failure(
                                old(self).life.faults.cleanup,
                                error::lost_failure(Operation::Close),
                            ),
                            ..old(self).life.faults
                        },
                        ..shut
                    }
                }
            }),
    {
        let exit = self.life.exit;
        if self.life.exit.status.is_none() {
            self.life.exit.status = Some(1);
        }
        self.output.paused = false;
        self.life.stage.close_started = true;
        let step = self.console_close();
        self.life.exit = exit;
        step
    }

    /// Drops all output, also what is out with the consumer.
    fn forget_output(&mut self)
        requires
            old(self).wf(),
        ensures
            final(self).life.stage.close_notified == old(
                self).life.stage.close_notified,
            final(self).wf(),
            final(self).input == old(self).input,
            final(self).same_facts(old(self)),
            forgotten(&old(self).output, &final(self).output),
            final(self).life == (Life {
                flight: Flight { lease_bytes: 0, ..old(self).life.flight },
                ..old(self).life
            }),
    {
        self.output.clear();
        self.output.outstanding = 0;
        self.output.deadline = None;
        self.life.flight.lease_bytes = 0;
    }

    /// Closes the session's own side, once. The result says whether it was open.
    fn shut(&mut self, handle: u64, outbox: &mut Outbox) -> (first: bool)
        requires
            old(self).wf(),
        ensures
            final(self).life.stage.close_notified == old(
                self).life.stage.close_notified,
            final(self).wf(),
            final(self).same_facts(old(self)),
            first == !old(self).life.stage.close_started,
            shut_down(
                old(self).life,
                &old(self).input,
                &old(self).output,
                final(self),
                old(outbox)@,
                final(outbox)@,
                handle,
            ),
    {
        if self.life.stage.close_started {
            return false;
        }
        self.life.stage.close_started = true;
        self.input.admission.close();
        self.output.paused = false;
        self.forget_output();
        self.fail_input(handle, outbox, error::input_closed());
        true
    }

    /// Starts an explicit close, once; every request waits for its end.
    pub fn begin_close(&mut self, handle: u64, outbox: &mut Outbox, waiter: u64) -> (follow: Vec<
        Follow,
    >)
        requires
            old(self).wf(),
            old(self).close_waiters@.len() < usize::MAX,
        ensures
            final(self).life.stage.close_notified == old(
                self).life.stage.close_notified,
            final(self).wf(),
            closing(old(self), final(self), old(outbox)@, final(outbox)@, handle, waiter),
            follow@ == close_follow(!old(self).life.stage.close_started),
    {
        let first = self.shut(handle, outbox);
        self.close_waiters.push(waiter);
        follow_close(first)
    }

    /// Gives the session up: nobody consumes it any more.
    pub fn abandon(&mut self, handle: u64, outbox: &mut Outbox) -> (follow: Vec<Follow>)
        requires
            old(self).wf(),
        ensures
            final(self).life.stage.close_notified == old(
                self).life.stage.close_notified,
            final(self).wf(),
            given_up(old(self), final(self), old(outbox)@, final(outbox)@, handle),
            follow@ == close_follow(!old(self).life.stage.close_started),
    {
        self.life.stage.abandoned = true;
        self.life.stage.active = false;
        self.life.stage.activation_deadline = None;
        let first = self.shut(handle, outbox);
        follow_close(first)
    }

    /// Drops the output, now and later.
    pub fn cancel_output(&mut self)
        requires
            old(self).wf(),
        ensures
            final(self).life.stage.close_notified == old(
                self).life.stage.close_notified,
            final(self).wf(),
            output_cancelled(old(self), final(self)),
    {
        self.output.discarding = true;
        self.output.paused = false;
        self.output.clear();
        self.output.deadline = None;
    }

    /// Takes credit for output back. The result says whether it was due.
    pub fn credit(&mut self, bytes: usize) -> (accepted: bool)
        requires
            old(self).wf(),
        ensures
            final(self).life.stage.close_notified == old(
                self).life.stage.close_notified,
            final(self).wf(),
            accepted == (bytes <= old(self).output.outstanding),
            credited(old(self), final(self), bytes),
    {
        if !self.output.credit(bytes) {
            return false;
        }
        self.life.flight.lease_bytes = self.life.flight.lease_bytes.saturating_sub(bytes);
        true
    }

    /// Whether nothing is left of the session but to forget it.
    pub fn terminal(&self) -> (over: bool)
        ensures
            over == is_terminal(self),
    {
        self.life.exit.status.is_some() && self.output.eof && self.output.bytes == 0
            && self.output.outstanding == 0 && self.life.flight.reading.is_none()
            && !self.life.flight.writing && self.life.console.close_done
    }

    /// How the cleanup ended.
    pub fn close_result(&self) -> (result: CloseResult)
        ensures
            result == (CloseResult {
                input_failure: self.life.faults.input,
                output_failure: self.life.faults.output,
                cleanup_failure: self.life.faults.cleanup,
            }),
    {
        CloseResult {
            input_failure: self.life.faults.input,
            output_failure: self.life.faults.output,
            cleanup_failure: self.life.faults.cleanup,
        }
    }
}

/// Whether a write is to be submitted. One that went out in part is finished also when the
/// session is no longer active.
pub open spec fn writes(session: &WindowsSession) -> bool {
    &&& !session.life.flight.writing
    &&& session.input.queue@.len() > 0
    &&& session.input.queue@[0].offset > 0 || (session.life.stage.active
        && !session.life.stage.close_started)
}

/// A life that learned of the child's exit. A code that could not be had is a failure; the
/// session ends all the same.
pub open spec fn life_at_exit(life: Life, exited: Result<u32, IoError>) -> Life {
    Life {
        exit: match exited {
            Ok(status) => Exit { status: Some(status as i64), ..life.exit },
            Err(failure) => Exit {
                status: Some(0),
                failure: Some(
                    OperationError {
                        operation: Operation::Exit,
                        kind: error::operation_kind_of(failure.kind),
                        native_code: failure.code,
                    },
                ),
                ..life.exit
            },
        },
        ..life
    }
}

/// Whether the console is to be closed.
pub open spec fn console_due(session: &WindowsSession) -> bool {
    &&& !session.life.console.close_started
    &&& session.life.exit.status is Some
    &&& !session.output.paused || session.life.stage.close_started
    &&& session.life.console.owned
}

/// Output of which nothing is left, also not with the consumer.
pub open spec fn forgotten(before: &OutputState, after: &OutputState) -> bool {
    &&& after.same_flags(before)
    &&& after.queue@.len() == 0
    &&& after.bytes == 0
    &&& after.outstanding == 0
    &&& after.deadline is None
}

/// A life whose own side is closed.
pub open spec fn shut_life(life: Life) -> Life {
    Life {
        stage: Stage { close_started: true, ..life.stage },
        flight: Flight { lease_bytes: 0, ..life.flight },
        ..life
    }
}

/// A life that nobody consumes.
pub open spec fn abandoned_life(life: Life) -> Life {
    Life {
        stage: Stage {
            abandoned: true,
            active: false,
            activation_deadline: None,
            ..life.stage
        },
        ..life
    }
}

/// What is to be done when a session closes, for the first time or again.
pub open spec fn close_follow(first: bool) -> Seq<Follow> {
    if first {
        seq![Follow::TerminateJob, Follow::CancelWrite, Follow::CloseConsole, Follow::EnsureRead]
    } else {
        seq![Follow::CloseConsole, Follow::EnsureRead]
    }
}

/// What is to be done when a session closes, for the first time or again.
fn follow_close(first: bool) -> (follow: Vec<Follow>)
    ensures
        follow@ == close_follow(first),
{
    let mut follow: Vec<Follow> = Vec::new();
    if first {
        follow.push(Follow::TerminateJob);
        follow.push(Follow::CancelWrite);
    }
    follow.push(Follow::CloseConsole);
    follow.push(Follow::EnsureRead);
    assert(follow@ =~= close_follow(first));
    follow
}

/// Whether nothing is left of a session.
pub open spec fn is_terminal(session: &WindowsSession) -> bool {
    &&& session.life.exit.status is Some
    &&& session.output.eof
    &&& session.output.bytes == 0
    &&& session.output.outstanding == 0
    &&& session.life.flight.reading is None
    &&& !session.life.flight.writing
    &&& session.life.console.close_done
}

/// What activating a session does. One that is abandoned or closing cannot be activated;
/// what another had to tell before is told.
pub open spec fn activated(
    before: &WindowsSession,
    after: &WindowsSession,
    box_before: OutboxModel,
    box_after: OutboxModel,
    handle: u64,
    result: Result<(), IoError>,
) -> bool {
    &&& after.input == before.input
    &&& after.same_facts(before)
    &&& if before.life.stage.abandoned || before.life.stage.close_started {
        &&& result matches Err(error) && error.is_simple(
            ErrorKind::BrokenPipe,
            "session activation was abandoned"@,
        )
        &&& after.life == before.life
        &&& after.output == before.output
        &&& box_after == box_before
    } else {
        let started = Life {
            stage: Stage { active: true, activation_deadline: None, ..before.life.stage },
            ..before.life
        };
        let told_input = if started.faults.input is Some {
            input_lost(started, box_before, handle, started.faults.input.unwrap())
        } else {
            (started, box_before)
        };
        &&& result is Ok
        &&& after.output == (OutputState { paused: false, ..before.output })
        &&& (after.life, box_after) == exit_told(told_input.0, told_input.1, handle)
    }
}

/// What closing a session's own side does, once.
pub open spec fn shut_down(
    life: Life,
    input: &InputState,
    output: &OutputState,
    after: &WindowsSession,
    box_before: OutboxModel,
    box_after: OutboxModel,
    handle: u64,
) -> bool {
    if life.stage.close_started {
        &&& after.input == *input
        &&& after.output == *output
        &&& after.life == life
        &&& box_after == box_before
    } else {
        &&& is_ended(input, &after.input)
        &&& forgotten(&(OutputState { paused: false, ..*output }), &after.output)
        &&& (after.life, box_after) == input_ended(
            shut_life(life),
            box_before,
            handle,
            error::closed_input(),
            input.queue@.len() > 0,
        )
    }
}

/// What an explicit close does.
pub open spec fn closing(
    before: &WindowsSession,
    after: &WindowsSession,
    box_before: OutboxModel,
    box_after: OutboxModel,
    handle: u64,
    waiter: u64,
) -> bool {
    &&& after.pid == before.pid
    &&& after.size == before.size
    &&& after.close_waiters@ == before.close_waiters@.push(waiter)
    &&& shut_down(
        before.life,
        &before.input,
        &before.output,
        after,
        box_before,
        box_after,
        handle,
    )
}

/// What giving a session up does.
pub open spec fn given_up(
    before: &WindowsSession,
    after: &WindowsSession,
    box_before: OutboxModel,
    box_after: OutboxModel,
    handle: u64,
) -> bool {
    &&& after.same_facts(before)
    &&& shut_down(
        abandoned_life(before.life),
        &before.input,
        &before.output,
        after,
        box_before,
        box_after,
        handle,
    )
}

/// What cancelling a session's output does.
pub open spec fn output_cancelled(before: &WindowsSession, after: &WindowsSession) -> bool {
    &&& after.input == before.input
    &&& after.life == before.life
    &&& after.same_facts(before)
    &&& after.output.discarding
    &&& !after.output.paused
    &&& after.output.queue@.len() == 0
    &&& after.output.bytes == 0
    &&& after.output.deadline is None
    &&& after.output.outstanding == before.output.outstanding
    &&& after.output.capacity == before.output.capacity
    &&& after.output.eof == before.output.eof
    &&& after.output.failed == before.output.failed
    &&& after.output.done_notified == before.output.done_notified
}

/// What credit for output does. Credit beyond what is out changes nothing.
pub open spec fn credited(before: &WindowsSession, after: &WindowsSession, bytes: usize) -> bool {
    &&& after.input == before.input
    &&& after.same_facts(before)
    &&& if bytes <= before.output.outstanding {
        &&& after.output == (OutputState {
            outstanding: (before.output.outstanding - bytes) as usize,
            ..before.output
        })
        &&& after.life == (Life {
            flight: Flight {
                lease_bytes: if bytes <= before.life.flight.lease_bytes {
                    (before.life.flight.lease_bytes - bytes) as usize
                } else {
                    0
                },
                ..before.life.flight
            },
            ..before.life
        })
    } else {
        after.output == before.output && after.life == before.life
    }
}

/// What the end of a read does.
pub open spec fn read_ended(
    before: &WindowsSession,
    after: &WindowsSession,
    box_before: OutboxModel,
    box_after: OutboxModel,
    handle: u64,
    done: ReadDone,
    now: u64,
    follow: Seq<Follow>,
) -> bool {
    &&& after.same_facts(before)
    &&& done is End ==> is_ended(&before.input, &after.input)
    &&& !(done is End) ==> after.input == before.input
    &&& exists|between: WindowsSession, box_between: OutboxModel|
        #![trigger refreshed(&between, after, box_between, box_after, handle, now)]
        {
            &&& between.wf()
            &&& (between.life, box_between) == life_after_read(before, box_before, handle, done)
            &&& output_after_read(before, &between.output, done, now)
            &&& refreshed(&between, after, box_between, box_after, handle, now)
        }
    &&& follow == if_exited(
        after.life,
        if done is End {
            seq![Follow::CancelWrite, Follow::EnsureRead]
        } else {
            seq![Follow::EnsureRead]
        },
    )
}

/// What the end of a write does.
pub open spec fn write_ended(
    before: &WindowsSession,
    after: &WindowsSession,
    box_before: OutboxModel,
    box_after: OutboxModel,
    handle: u64,
    done: Result<usize, IoError>,
    follow: Seq<Follow>,
) -> bool {
    let landed = Life {
        flight: Flight { writing: false, ..before.life.flight },
        ..before.life
    };
    let pending = before.input.queue@.len() > 0;
    &&& after.same_facts(before)
    &&& after.output == before.output
    &&& follow == if_exited(after.life, seq![Follow::EnsureWrite])
    &&& match done {
        Ok(amount) => if amount == 0 {
            &&& is_ended(&before.input, &after.input)
            &&& (after.life, box_after) == input_ended(
                landed,
                box_before,
                handle,
                error::closed_input(),
                pending,
            )
        } else {
            &&& after.life == landed
            &&& box_after == box_before
            &&& if before.input.failed {
                after.input == before.input
            } else {
                session::has_written(&before.input, &after.input, amount)
            }
        },
        Err(failure) => {
            &&& is_ended(&before.input, &after.input)
            &&& (after.life, box_after) == input_ended(
                landed,
                box_before,
                handle,
                write_failure(failure),
                pending,
            )
        },
    }
}

/// What a completion does that nothing in flight accounts for. The loss is told once.
pub open spec fn strayed(
    before: &WindowsSession,
    after: &WindowsSession,
    box_before: OutboxModel,
    box_after: OutboxModel,
    handle: u64,
    follow: Seq<Follow>,
) -> bool {
    let kept = windows_budget::first_failure(
        before.life.faults.cleanup,
        error::lost_failure(Operation::Runtime),
    );
    let noted = Life {
        faults: Faults { cleanup: kept, ..before.life.faults },
        ..before.life
    };
    &&& after.same_queues(before)
    &&& follow == if_exited(after.life, Seq::empty())
    &&& (after.life, box_after) == if noted.faults.lost_notified {
        (noted, box_before)
    } else {
        told(
            Life { faults: Faults { lost_notified: true, ..noted.faults }, ..noted },
            box_before,
            Notice::BrokerLost { handle, failure: kept.unwrap() },
        )
    }
}

/// What the exit of the child does. Its input ends; an active session tells of it.
pub open spec fn exit_seen(
    before: &WindowsSession,
    after: &WindowsSession,
    box_before: OutboxModel,
    box_after: OutboxModel,
    handle: u64,
    exited: Option<Result<u32, IoError>>,
    follow: Seq<Follow>,
) -> bool {
    let seen = before.life.exit.status is None && exited is Some;
    let ended = if seen {
        input_ended(
            life_at_exit(before.life, exited.unwrap()),
            box_before,
            handle,
            error::closed_input(),
            before.input.queue@.len() > 0,
        )
    } else {
        (before.life, box_before)
    };
    &&& after.same_facts(before)
    &&& after.output == before.output
    &&& if seen {
        is_ended(&before.input, &after.input)
    } else {
        after.input == before.input
    }
    &&& (after.life, box_after) == if ended.0.stage.active {
        exit_told(ended.0, ended.1, handle)
    } else {
        ended
    }
    &&& follow == if seen {
        seq![Follow::CancelWrite, Follow::CloseConsole, Follow::EnsureRead]
    } else {
        seq![Follow::CloseConsole, Follow::EnsureRead]
    }
}

/// A consumer that is gone is not told, but the session does not end for it silently: it
/// keeps the failure and is abandoned, unless it is being closed.
pub proof fn lost_notice_is_kept(life: Life, outbox: OutboxModel, notice: Notice)
    requires
        !outbox.open || life.reservations == 0,
    ensures
        ({
            let after = told(life, outbox, notice).0;
            &&& after.faults.cleanup is Some
            &&& !after.stage.active
            &&& after.stage.abandoned || life.stage.close_started
        }),
{
}

/// A notice of a session's life never takes more than one of its reservations, and one that
/// is sent takes exactly one: what is sent is bounded by what was reserved.
pub proof fn notices_are_reserved(life: Life, outbox: OutboxModel, notice: Notice)
    ensures
        ({
            let (after, sent) = told(life, outbox, notice);
            &&& sent.sent.len() - outbox.sent.len() <= life.reservations - after.reservations
            &&& life.reservations - 1 <= after.reservations <= life.reservations
        }),
{
}

} // verus!
