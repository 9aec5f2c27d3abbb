//! The bounded resources of the Windows engine: notices, console closes and input.
use crate::buffer;
use crate::error::{self, Operation, OperationError, WriteError, WriteErrorKind};
use crate::fault::{ErrorKind, IoError};
use crate::session::{InputAdmission, Sent, WRITE_INFRASTRUCTURE_FAILURE};
use bytes::Bytes;
use vstd::prelude::*;

verus! {

/// How many notices may wait or be reserved at once.
pub const NOTICE_CAPACITY: usize = 4096;

/// How many notices every session can send, whatever the others do.
pub const SESSION_NOTICE_RESERVATIONS: usize = 5;

/// How many sessions may exist whose consoles have to be closed.
pub const CLOSE_ADMISSION_CAPACITY: usize = 128;

/// The right to queue one notice.
#[derive(Debug, PartialEq, Eq)]
pub struct NoticeReservation {
    pub taken: bool,
}

/// The notices that wait and the rights to queue more. Both together are bounded.
#[derive(Clone, Copy, Debug, PartialEq, Eq, Structural)]
pub struct NoticeBudget {
    pub limit: usize,
    /// Rights that were not used yet.
    pub held: usize,
    /// Notices that wait for their consumer.
    pub queued: usize,
}

impl NoticeBudget {
    /// The budget's invariant.
    pub open spec fn wf(&self) -> bool {
        self.held + self.queued <= self.limit
    }

    /// What is reserved.
    pub open spec fn reserved(&self) -> int {
        self.held + self.queued
    }

    /// A budget of which nothing is used.
    pub fn new(limit: usize) -> (budget: NoticeBudget)
        ensures
            budget == (NoticeBudget { limit, held: 0, queued: 0 }),
            budget.wf(),
    {
        NoticeBudget { limit, held: 0, queued: 0 }
    }

    /// Reserves a notice.
    pub fn try_reserve(&mut self) -> (reservation: Option<NoticeReservation>)
        requires
            old(self).wf(),
        ensures
            final(self).wf(),
            reservation is Some == (old(self).reserved() < old(self).limit),
            *final(self) == if reservation is Some {
                NoticeBudget { held: (old(self).held + 1) as usize, ..*old(self) }
            } else {
                *old(self)
            },
    {
        if self.held + self.queued < self.limit {
            self.held = self.held + 1;
            Some(NoticeReservation { taken: true })
        } else {
            None
        }
    }

    /// Reserves several notices, or none.
    pub fn try_reserve_many(&mut self, count: usize) -> (reserved: bool)
        requires
            old(self).wf(),
        ensures
            final(self).wf(),
            reserved == (old(self).reserved() + count <= old(self).limit),
            *final(self) == if reserved {
                NoticeBudget { held: (old(self).held + count) as usize, ..*old(self) }
            } else {
                *old(self)
            },
    {
        if count <= self.limit - (self.held + self.queued) {
            self.held = self.held + count;
            true
        } else {
            false
        }
    }

    /// Gives a reservation back that was not used.
    pub fn release(&mut self, reservation: NoticeReservation)
        requires
            old(self).wf(),
            old(self).held > 0,
        ensures
            final(self).wf(),
            *final(self) == (NoticeBudget { held: (old(self).held - 1) as usize, ..*old(self) }),
    {
        let _returned = reservation;
        self.held = self.held - 1;
    }

    /// Gives reservations back that were not used.
    pub fn release_many(&mut self, count: usize)
        requires
            old(self).wf(),
            count <= old(self).held,
        ensures
            final(self).wf(),
            *final(self) == (NoticeBudget {
                held: (old(self).held - count) as usize,
                ..*old(self)
            }),
    {
        self.held = self.held - count;
    }

    /// Uses a reservation: a notice was queued with it, or could not be.
    pub fn settle(&mut self, queued: bool)
        requires
            old(self).wf(),
            old(self).held > 0,
        ensures
            final(self).wf(),
            *final(self) == (NoticeBudget {
                held: (old(self).held - 1) as usize,
                queued: if queued {
                    (old(self).queued + 1) as usize
                } else {
                    old(self).queued
                },
                ..*old(self)
            }),
    {
        self.held = self.held - 1;
        if queued {
            self.queued = self.queued + 1;
        }
    }

    /// Takes note of notices that their consumer took or dropped. The result says whether
    /// sessions that wait for room are to be told.
    pub fn consumed(&mut self, count: usize) -> (tell: bool)
        requires
            old(self).wf(),
            count <= old(self).queued,
        ensures
            final(self).wf(),
            *final(self) == (NoticeBudget {
                queued: (old(self).queued - count) as usize,
                ..*old(self)
            }),
            tell == (count > 0),
    {
        self.queued = self.queued - count;
        count > 0
    }
}

/// No more notices wait than the budget allows, however long their consumer stalls.
pub proof fn queued_notices_are_bounded(budget: NoticeBudget)
    requires
        budget.wf(),
    ensures
        budget.queued <= budget.limit,
        budget.held <= budget.limit - budget.queued,
{
}

/// The right to close one console.
#[derive(Debug, PartialEq, Eq)]
pub struct ClosePermit {
    pub taken: bool,
}

/// The rights to close consoles: one for each session, so that a close that hangs holds
/// up no other.
#[derive(Clone, Copy, Debug, PartialEq, Eq, Structural)]
pub struct CloseAdmission {
    pub limit: usize,
    pub reserved: usize,
}

impl CloseAdmission {
    /// The admission's invariant.
    pub open spec fn wf(&self) -> bool {
        self.reserved <= self.limit
    }

    /// An admission of which nothing is used.
    pub fn new(limit: usize) -> (admission: CloseAdmission)
        ensures
            admission == (CloseAdmission { limit, reserved: 0 }),
            admission.wf(),
    {
        CloseAdmission { limit, reserved: 0 }
    }

    /// Reserves a close.
    pub fn try_reserve(&mut self) -> (permit: Option<ClosePermit>)
        requires
            old(self).wf(),
        ensures
            final(self).wf(),
            permit is Some == (old(self).reserved < old(self).limit),
            *final(self) == if permit is Some {
                CloseAdmission { reserved: (old(self).reserved + 1) as usize, ..*old(self) }
            } else {
                *old(self)
            },
    {
        if self.reserved < self.limit {
            self.reserved = self.reserved + 1;
            Some(ClosePermit { taken: true })
        } else {
            None
        }
    }

    /// Gives a permit back.
    pub fn release(&mut self, permit: ClosePermit)
        requires
            old(self).wf(),
            old(self).reserved > 0,
        ensures
            final(self).wf(),
            *final(self) == (CloseAdmission {
                reserved: (old(self).reserved - 1) as usize,
                ..*old(self)
            }),
    {
        let _returned = permit;
        self.reserved = self.reserved - 1;
    }
}

/// Reserves what a new session needs: the close of its console and its notices.
pub fn reserve_session(admission: &mut CloseAdmission, budget: &mut NoticeBudget) -> (result: Result<
    ClosePermit,
    IoError,
>)
    requires
        old(admission).wf(),
        old(budget).wf(),
    ensures
        final(admission).wf(),
        final(budget).wf(),
        match result {
            Ok(_) => {
                &&& old(admission).reserved < old(admission).limit
                &&& old(budget).reserved() + SESSION_NOTICE_RESERVATIONS <= old(budget).limit
                &&& final(admission).reserved == old(admission).reserved + 1
                &&& final(budget).held == old(budget).held + SESSION_NOTICE_RESERVATIONS
                &&& final(budget).queued == old(budget).queued
            },
            Err(error) => {
                &&& *final(admission) == *old(admission)
                &&& *final(budget) == *old(budget)
                &&& if old(admission).reserved == old(admission).limit {
                    error.is_simple(
                        ErrorKind::WouldBlock,
                        "ConPTY close isolation capacity is exhausted"@,
                    )
                } else {
                    &&& old(budget).reserved() + SESSION_NOTICE_RESERVATIONS > old(budget).limit
                    &&& error.is_simple(
                        ErrorKind::WouldBlock,
                        "native notification capacity is exhausted"@,
                    )
                }
            },
        },
        final(admission).limit == old(admission).limit,
        final(budget).limit == old(budget).limit,
{
    let permit = match admission.try_reserve() {
        Some(permit) => permit,
        None => {
            return Err(
                IoError::new(
                    ErrorKind::WouldBlock,
                    "ConPTY close isolation capacity is exhausted",
                ),
            );
        },
    };
    if !budget.try_reserve_many(SESSION_NOTICE_RESERVATIONS) {
        admission.release(permit);
        return Err(
            IoError::new(ErrorKind::WouldBlock, "native notification capacity is exhausted"),
        );
    }
    Ok(permit)
}

/// The notice that ends a session's output.
#[derive(Clone, Copy, Debug, PartialEq, Eq, Structural)]
pub enum OutputTerminalNotice {
    Done,
    Failed,
}

/// The notice that is due at the end of the output: once, and only when every byte was
/// handed out and returned.
pub open spec fn terminal_notice_of(
    output_eof: bool,
    output_failed: bool,
    output_bytes: usize,
    output_outstanding: usize,
    output_done_notified: bool,
    output_failed_notified: bool,
) -> Option<OutputTerminalNotice> {
    if !output_eof || output_bytes != 0 || output_outstanding != 0 {
        None
    } else if output_failed {
        if output_failed_notified {
            None
        } else {
            Some(OutputTerminalNotice::Failed)
        }
    } else if output_done_notified {
        None
    } else {
        Some(OutputTerminalNotice::Done)
    }
}

/// The notice that is due at the end of the output.
pub fn output_terminal_notice(
    output_eof: bool,
    output_failed: bool,
    output_bytes: usize,
    output_outstanding: usize,
    output_done_notified: bool,
    output_failed_notified: bool,
) -> (notice: Option<OutputTerminalNotice>)
    ensures
        notice == terminal_notice_of(
            output_eof,
            output_failed,
            output_bytes,
            output_outstanding,
            output_done_notified,
            output_failed_notified,
        ),
{
    if !output_eof || output_bytes != 0 || output_outstanding != 0 {
        return None;
    }
    if output_failed && !output_failed_notified {
        Some(OutputTerminalNotice::Failed)
    } else if !output_failed && !output_done_notified {
        Some(OutputTerminalNotice::Done)
    } else {
        None
    }
}

/// When output is due: not while it waits for room among the notices, nor while earlier
/// output is out.
pub fn output_notification_deadline(
    blocked: bool,
    notified: bool,
    output_empty: bool,
    deadline: Option<u64>,
) -> (due: Option<u64>)
    ensures
        due == if !blocked && !notified && !output_empty {
            deadline
        } else {
            None
        },
{
    if !blocked && !notified && !output_empty {
        deadline
    } else {
        None
    }
}

/// How an attempt to take a lock without waiting ended.
#[derive(Clone, Copy, Debug, PartialEq, Eq, Structural)]
pub enum LockAttempt {
    Taken,
    /// Someone else holds it.
    Contended,
    /// Its last holder failed.
    Poisoned,
}

/// What an attempt to submit a command without waiting means for a write.
pub fn try_command_submission(attempt: LockAttempt) -> (result: Result<(), i64>)
    ensures
        result == match attempt {
            LockAttempt::Taken => Ok::<(), i64>(()),
            LockAttempt::Contended => Err(0i64),
            LockAttempt::Poisoned => Err(WRITE_INFRASTRUCTURE_FAILURE),
        },
{
    match attempt {
        LockAttempt::Taken => Ok(()),
        LockAttempt::Contended => Err(0),
        LockAttempt::Poisoned => Err(WRITE_INFRASTRUCTURE_FAILURE),
    }
}

/// What came of a write's admission.
#[derive(Clone, Copy, Debug, PartialEq, Eq, Structural)]
pub enum AdmissionResult {
    Accepted,
    Backpressure,
    Closed,
    Infrastructure,
}

/// A session's admission of writes, with what ended it.
#[derive(Clone, Copy, Debug, PartialEq, Eq, Structural)]
pub struct WindowsAdmission {
    pub inner: InputAdmission,
    pub failure: Option<OperationError>,
}

/// Whether a write of this length gets as far as waking the reactor.
pub open spec fn finds_room(admission: InputAdmission, length: nat) -> bool {
    &&& admission.open
    &&& 0 < length <= usize::MAX
    &&& admission.has_room(length as usize)
}

/// A failure, unless there was one before.
pub open spec fn first_failure(
    earlier: Option<OperationError>,
    failure: OperationError,
) -> Option<OperationError> {
    if earlier is Some {
        earlier
    } else {
        Some(failure)
    }
}

/// An admission that lost the runtime.
pub open spec fn lost_admission(admission: WindowsAdmission) -> WindowsAdmission {
    WindowsAdmission {
        inner: InputAdmission { open: false, ..admission.inner },
        failure: first_failure(
            admission.failure,
            error::lost_failure(Operation::Write),
        ),
    }
}

/// An admission with one write more.
pub open spec fn grown_admission(admission: WindowsAdmission, length: usize) -> WindowsAdmission {
    WindowsAdmission {
        inner: InputAdmission {
            bytes: (admission.inner.bytes + length) as usize,
            entries: (admission.inner.entries + 1) as usize,
            ..admission.inner
        },
        ..admission
    }
}

impl WindowsAdmission {
    /// Open admission without a write.
    pub fn new(capacity: usize) -> (admission: Self)
        ensures
            admission == (WindowsAdmission {
                inner: InputAdmission { capacity, bytes: 0, entries: 0, open: true },
                failure: None,
            }),
            admission.inner.wf(),
    {
        WindowsAdmission { inner: InputAdmission::new(capacity), failure: None }
    }

    /// Ends the admission with the runtime.
    fn lose(&mut self)
        ensures
            *final(self) == lost_admission(*old(self)),
    {
        self.inner.open = false;
        if self.failure.is_none() {
            self.failure = Some(error::infrastructure_failure(Operation::Write));
        }
    }

    /// Admits a write of this length and has it queued. The reactor is woken before the
    /// write is handed over; `send` makes the bytes and is called only when there is room
    /// and the reactor is awake. An empty write is accepted without either.
    pub fn admit_write_with<K: FnOnce() -> bool, F: FnOnce() -> Sent>(
        &mut self,
        length: usize,
        attempt: LockAttempt,
        wake: K,
        send: F,
    ) -> (result: AdmissionResult)
        requires
            old(self).inner.wf(),
            attempt is Taken && finds_room(old(self).inner, length as nat) ==> call_requires(
                wake,
                (),
            ),
            attempt is Taken && finds_room(old(self).inner, length as nat) && call_ensures(
                wake,
                (),
                true,
            ) ==> call_requires(send, ()),
        ensures
            final(self).inner.wf(),
            match attempt {
                LockAttempt::Contended => result is Backpressure && *final(self) == *old(self),
                LockAttempt::Poisoned => result is Infrastructure && *final(self) == *old(self),
                LockAttempt::Taken => if !old(self).inner.open {
                    result is Closed && *final(self) == *old(self)
                } else if length == 0 {
                    result is Accepted && *final(self) == *old(self)
                } else if !old(self).inner.has_room(length) {
                    result is Backpressure && *final(self) == *old(self)
                } else {
                    ||| call_ensures(wake, (), false) && result is Infrastructure && *final(self)
                        == lost_admission(*old(self))
                    ||| call_ensures(wake, (), true) && exists|sent: Sent| #[trigger]
                        call_ensures(send, (), sent) && match sent {
                            Sent::Queued => result is Accepted && *final(self) == grown_admission(
                                *old(self),
                                length,
                            ),
                            Sent::Full => result is Backpressure && *final(self) == *old(self),
                            Sent::Disconnected => result is Infrastructure && *final(self)
                                == lost_admission(*old(self)),
                        }
                },
            },
    {
        match attempt {
            LockAttempt::Taken => {},
            LockAttempt::Contended => {
                return AdmissionResult::Backpressure;
            },
            LockAttempt::Poisoned => {
                return AdmissionResult::Infrastructure;
            },
        }
        if !self.inner.open {
            return AdmissionResult::Closed;
        }
        if length == 0 {
            return AdmissionResult::Accepted;
        }
        if length > self.inner.capacity - self.inner.bytes || self.inner.entries
            >= self.inner.entry_capacity() {
            return AdmissionResult::Backpressure;
        }
        let awake = wake();
        if !awake {
            self.lose();
            return AdmissionResult::Infrastructure;
        }
        let sent = send();
        match sent {
            Sent::Queued => {
                self.inner.bytes = self.inner.bytes + length;
                self.inner.entries = self.inner.entries + 1;
                AdmissionResult::Accepted
            },
            Sent::Full => AdmissionResult::Backpressure,
            Sent::Disconnected => {
                self.lose();
                AdmissionResult::Infrastructure
            },
        }
    }

    /// Admits a write that hands its bytes over. The reactor is woken, and `send` called
    /// after that, only when there is room. A write that is not accepted hands its bytes
    /// back: those that it got, or those that `send` gave back.
    pub fn admit_owned_write<K: FnOnce() -> bool, F: FnOnce(Bytes) -> Result<(), (Sent, Bytes)>>(
        &mut self,
        bytes: Bytes,
        poisoned: bool,
        wake: K,
        send: F,
    ) -> (result: Result<(), WriteError>)
        requires
            old(self).inner.wf(),
            !poisoned && finds_room(old(self).inner, buffer::bytes_of(bytes).len())
                ==> call_requires(wake, ()),
            !poisoned && finds_room(old(self).inner, buffer::bytes_of(bytes).len())
                && call_ensures(wake, (), true) ==> call_requires(send, (bytes,)),
        ensures
            final(self).inner.wf(),
            ({
                let length = buffer::bytes_of(bytes).len();
                if poisoned {
                    &&& *final(self) == *old(self)
                    &&& rejects(
                        result,
                        WriteErrorKind::Infrastructure,
                        bytes,
                        Some(error::lost_failure(Operation::Write)),
                    )
                } else if !old(self).inner.open {
                    &&& *final(self) == *old(self)
                    &&& rejects(result, WriteErrorKind::Closed, bytes, old(self).failure)
                } else if length == 0 {
                    *final(self) == *old(self) && result is Ok
                } else if !old(self).inner.has_room(length as usize) {
                    &&& *final(self) == *old(self)
                    &&& rejects(result, WriteErrorKind::Backpressure, bytes, None)
                } else {
                    ||| call_ensures(wake, (), false) && *final(self) == lost_admission(*old(self))
                        && rejects(
                        result,
                        WriteErrorKind::Infrastructure,
                        bytes,
                        Some(error::lost_failure(Operation::Write)),
                    )
                    ||| call_ensures(wake, (), true) && exists|sent: Result<(), (Sent, Bytes)>|
                     #[trigger]
                        call_ensures(send, (bytes,), sent) && match sent {
                            Ok(()) => result is Ok && *final(self) == grown_admission(
                                *old(self),
                                length as usize,
                            ),
                            Err((Sent::Disconnected, returned)) => *final(self) == lost_admission(
                                *old(self),
                            ) && rejects(
                                result,
                                WriteErrorKind::Infrastructure,
                                returned,
                                Some(error::lost_failure(Operation::Write)),
                            ),
                            Err((_, returned)) => *final(self) == *old(self) && rejects(
                                result,
                                WriteErrorKind::Backpressure,
                                returned,
                                None,
                            ),
                        }
                }
            }),
    {
        let length: usize = bytes.len();
        if poisoned {
            return Err(
                WriteError::new(
                    WriteErrorKind::Infrastructure,
                    bytes,
                    Some(error::infrastructure_failure(Operation::Write)),
                ),
            );
        }
        if !self.inner.open {
            return Err(WriteError::new(WriteErrorKind::Closed, bytes, self.failure));
        }
        if length == 0 {
            return Ok(());
        }
        if length > self.inner.capacity - self.inner.bytes || self.inner.entries
            >= self.inner.entry_capacity() {
            return Err(WriteError::new(WriteErrorKind::Backpressure, bytes, None));
        }
        let awake = wake();
        if !awake {
            self.lose();
            return Err(
                WriteError::new(
                    WriteErrorKind::Infrastructure,
                    bytes,
                    Some(error::infrastructure_failure(Operation::Write)),
                ),
            );
        }
        let sent = send(bytes);
        match sent {
            Ok(()) => {
                self.inner.bytes = self.inner.bytes + length;
                self.inner.entries = self.inner.entries + 1;
                Ok(())
            },
            Err((Sent::Disconnected, returned)) => {
                self.lose();
                Err(
                    WriteError::new(
                        WriteErrorKind::Infrastructure,
                        returned,
                        Some(error::infrastructure_failure(Operation::Write)),
                    ),
                )
            },
            Err((_, returned)) => Err(
                WriteError::new(WriteErrorKind::Backpressure, returned, None),
            ),
        }
    }
}

/// Whether a write was rejected in this way.
pub open spec fn rejects(
    result: Result<(), WriteError>,
    kind: WriteErrorKind,
    bytes: Bytes,
    failure: Option<OperationError>,
) -> bool {
    result matches Err(rejected) && rejected.kind == kind && rejected.bytes == bytes
        && rejected.failure == failure
}

/// What a copied write's admission means to its caller.
pub open spec fn copy_outcome(result: AdmissionResult, sticky: Option<OperationError>) -> Result<
    (),
    OperationError,
> {
    match result {
        AdmissionResult::Accepted => Ok(()),
        AdmissionResult::Backpressure => Err(
            OperationError {
                operation: Operation::Write,
                kind: error::FailureKind::Backpressure,
                native_code: None,
            },
        ),
        AdmissionResult::Closed => Err(
            match sticky {
                Some(failure) => failure,
                None => error::closed_input(),
            },
        ),
        AdmissionResult::Infrastructure => Err(error::lost_failure(Operation::Write)),
    }
}

/// What a copied write's admission means to its caller.
pub fn copy_result(result: AdmissionResult, sticky: Option<OperationError>) -> (outcome: Result<
    (),
    OperationError,
>)
    ensures
        outcome == copy_outcome(result, sticky),
{
    match result {
        AdmissionResult::Accepted => Ok(()),
        AdmissionResult::Backpressure => Err(
            OperationError::new(Operation::Write, error::FailureKind::Backpressure, None),
        ),
        AdmissionResult::Closed => match sticky {
            Some(failure) => Err(failure),
            None => Err(error::input_closed()),
        },
        AdmissionResult::Infrastructure => Err(error::infrastructure_failure(Operation::Write)),
    }
}

} // verus!
