//! The queues of one session: bounded input on its way to the terminal, and output on
//! its way to the consumer.
use crate::buffer;
use bytes::{Bytes, BytesMut};
use std::collections::VecDeque;
use vstd::prelude::*;

verus! {

pub const MAX_INPUT_ENTRIES: usize = 4096;

pub const MAX_SESSION_CAPACITY: usize = 67_108_864;

/// The result of a write that the runtime could not hand over.
pub const WRITE_INFRASTRUCTURE_FAILURE: i64 = -2;

/// What came of queueing a command.
#[derive(Clone, Copy, Debug, PartialEq, Eq, Structural)]
pub enum Sent {
    Queued,
    Full,
    Disconnected,
}

/// Admission of writes within a session's input capacity.
#[derive(Clone, Copy, Debug, PartialEq, Eq, Structural)]
pub struct InputAdmission {
    pub capacity: usize,
    pub bytes: usize,
    pub entries: usize,
    pub open: bool,
}

impl InputAdmission {
    /// How many writes may wait at once.
    pub open spec fn entry_limit(&self) -> usize {
        if self.capacity < MAX_INPUT_ENTRIES {
            self.capacity
        } else {
            MAX_INPUT_ENTRIES
        }
    }

    /// What is admitted is within the bounds.
    pub open spec fn wf(&self) -> bool {
        &&& self.bytes <= self.capacity
        &&& self.entries <= self.entry_limit()
    }

    /// Whether a write of this length finds room.
    pub open spec fn has_room(&self, length: usize) -> bool {
        &&& length > 0
        &&& self.bytes + length <= self.capacity
        &&& self.entries < self.entry_limit()
    }

    /// Open admission without a write.
    pub fn new(capacity: usize) -> (admission: Self)
        ensures
            admission == (InputAdmission { capacity, bytes: 0, entries: 0, open: true }),
            admission.wf(),
    {
        InputAdmission { capacity, bytes: 0, entries: 0, open: true }
    }

    /// How many writes may wait at once.
    pub fn entry_capacity(&self) -> (limit: usize)
        ensures
            limit == self.entry_limit(),
    {
        if self.capacity < MAX_INPUT_ENTRIES {
            self.capacity
        } else {
            MAX_INPUT_ENTRIES
        }
    }

    /// Gives back bytes and writes that are no longer waiting.
    pub fn release(&mut self, bytes: usize, entries: usize)
        ensures
            *final(self) == (InputAdmission {
                bytes: if bytes <= old(self).bytes {
                    (old(self).bytes - bytes) as usize
                } else {
                    0
                },
                entries: if entries <= old(self).entries {
                    (old(self).entries - entries) as usize
                } else {
                    0
                },
                ..*old(self)
            }),
            old(self).wf() ==> final(self).wf(),
    {
        self.bytes = self.bytes.saturating_sub(bytes);
        self.entries = self.entries.saturating_sub(entries);
    }

    /// Admits no more writes.
    pub fn close(&mut self)
        ensures
            *final(self) == (InputAdmission { open: false, ..*old(self) }),
    {
        self.open = false;
    }

    /// Admits a write of this length and has it queued: 1 when it was accepted, 0 when
    /// there is no room for it now, -1 when input is closed, and the infrastructure
    /// failure when nobody takes commands any more. `send` is called only for a write
    /// that finds room, and a write that is not queued leaves no trace.
    pub fn admit_write_with<F: FnOnce() -> Sent>(&mut self, length: usize, send: F) -> (result: i64)
        requires
            old(self).wf(),
            old(self).open && old(self).has_room(length) ==> call_requires(send, ()),
        ensures
            final(self).wf(),
            if !old(self).open {
                result == -1 && *final(self) == *old(self)
            } else if !old(self).has_room(length) {
                result == 0 && *final(self) == *old(self)
            } else {
                exists|sent: Sent| #[trigger]
                    call_ensures(send, (), sent) && match sent {
                        Sent::Queued => result == 1 && *final(self) == (InputAdmission {
                            bytes: (old(self).bytes + length) as usize,
                            entries: (old(self).entries + 1) as usize,
                            ..*old(self)
                        }),
                        Sent::Full => result == 0 && *final(self) == *old(self),
                        Sent::Disconnected => result == WRITE_INFRASTRUCTURE_FAILURE
                            && *final(self) == (InputAdmission { open: false, ..*old(self) }),
                    }
            },
    {
        if !self.open {
            return -1;
        }
        if length == 0 || length > self.capacity - self.bytes || self.entries
            >= self.entry_capacity() {
            return 0;
        }
        self.bytes = self.bytes + length;
        self.entries = self.entries + 1;
        let sent = send();
        match sent {
            Sent::Queued => 1,
            Sent::Full => {
                self.bytes = self.bytes - length;
                self.entries = self.entries - 1;
                0
            },
            Sent::Disconnected => {
                self.bytes = self.bytes - length;
                self.entries = self.entries - 1;
                self.open = false;
                WRITE_INFRASTRUCTURE_FAILURE
            },
        }
    }
}

/// A buffer of which the first bytes are used up.
pub struct QueuedBytes {
    pub bytes: Bytes,
    pub offset: usize,
}

impl QueuedBytes {
    /// The bytes that are left.
    pub open spec fn rest(&self) -> Seq<u8> {
        buffer::bytes_of(self.bytes).skip(self.offset as int)
    }

    /// Something is left.
    pub open spec fn wf(&self) -> bool {
        self.offset < buffer::bytes_of(self.bytes).len()
    }
}

/// The bytes that a queue holds, in order.
pub open spec fn pending(queue: Seq<QueuedBytes>) -> Seq<u8>
    decreases queue.len(),
{
    if queue.len() == 0 {
        Seq::empty()
    } else {
        queue[0].rest() + pending(queue.skip(1))
    }
}

/// Every buffer of a queue has something left.
pub open spec fn queue_wf(queue: Seq<QueuedBytes>) -> bool {
    forall|i: int| 0 <= i < queue.len() ==> (#[trigger] queue[i]).wf()
}

/// A buffer at the end adds its bytes at the end.
pub proof fn pending_push(queue: Seq<QueuedBytes>, last: QueuedBytes)
    ensures
        pending(queue.push(last)) == pending(queue) + last.rest(),
    decreases queue.len(),
{
    let longer = queue.push(last);
    if queue.len() == 0 {
        assert(longer.skip(1) =~= Seq::<QueuedBytes>::empty());
        assert(pending(longer.skip(1)) =~= Seq::<u8>::empty());
        assert(pending(longer) =~= pending(queue) + last.rest());
    } else {
        assert(longer.skip(1) =~= queue.skip(1).push(last));
        pending_push(queue.skip(1), last);
        assert(pending(longer) =~= pending(queue) + last.rest());
    }
}

/// A queue whose buffers have something left holds nothing only when it is empty.
pub proof fn pending_empty(queue: Seq<QueuedBytes>)
    requires
        queue_wf(queue),
    ensures
        (pending(queue).len() == 0) == (queue.len() == 0),
{
    if queue.len() > 0 {
        assert(queue[0].wf());
        assert(queue[0].rest().len() > 0);
    }
}

/// Takes up to a number of bytes from the front buffer.
fn take_front(queue: &mut VecDeque<QueuedBytes>, amount: usize)
    requires
        queue_wf(old(queue)@),
        old(queue)@.len() > 0,
        0 < amount <= old(queue)@[0].rest().len(),
    ensures
        queue_wf(final(queue)@),
        pending(final(queue)@) == pending(old(queue)@).skip(amount as int),
        final(queue)@.len() == if amount == old(queue)@[0].rest().len() {
            old(queue)@.len() - 1
        } else {
            old(queue)@.len() as int
        },
{
    let ghost before = queue@;
    if let Some(front) = queue.pop_front() {
        let ghost tail = before.skip(1);
        assert(queue@ =~= tail);
        let left: usize = front.bytes.len() - front.offset;
        if amount < left {
            let ghost rest = front.rest();
            let shorter = QueuedBytes { bytes: front.bytes, offset: front.offset + amount };
            queue.push_front(shorter);
            assert(queue@.skip(1) =~= tail);
            assert(shorter.rest() =~= rest.skip(amount as int));
            assert(pending(queue@) =~= pending(before).skip(amount as int));
            assert forall|i: int| 0 <= i < queue@.len() implies (#[trigger] queue@[i]).wf() by {
                if i > 0 {
                    assert(queue@[i] == before[i]);
                }
            }
        } else {
            assert(pending(queue@) =~= pending(before).skip(amount as int));
            assert forall|i: int| 0 <= i < queue@.len() implies (#[trigger] queue@[i]).wf() by {
                assert(queue@[i] == before[i + 1]);
            }
        }
    }
}

/// Input that was accepted and not yet written.
pub struct InputState {
    pub admission: InputAdmission,
    pub queue: VecDeque<QueuedBytes>,
    pub bytes: usize,
    pub entries: usize,
    /// No more input is taken.
    pub failed: bool,
    /// Accepted input was lost.
    pub failure_pending: bool,
    /// The loss was reported.
    pub failure_notified: bool,
}

impl InputState {
    /// The bytes that wait, in the order in which they were accepted.
    pub open spec fn pending(&self) -> Seq<u8> {
        pending(self.queue@)
    }

    /// The counts are those of the queue.
    pub open spec fn wf(&self) -> bool {
        &&& self.admission.wf()
        &&& queue_wf(self.queue@)
        &&& self.bytes == self.pending().len()
        &&& self.entries == self.queue@.len()
    }

    /// Everything but the queue, its counts and admission is as in the other.
    pub open spec fn same_flags(&self, other: &InputState) -> bool {
        &&& self.failed == other.failed
        &&& self.failure_pending == other.failure_pending
        &&& self.failure_notified == other.failure_notified
    }

    /// Input within a capacity, empty.
    pub fn new(capacity: usize) -> (input: InputState)
        ensures
            input.wf(),
            input.admission == (InputAdmission { capacity, bytes: 0, entries: 0, open: true }),
            input.queue@ == Seq::<QueuedBytes>::empty(),
            !input.failed,
            !input.failure_pending,
            !input.failure_notified,
    {
        InputState {
            admission: InputAdmission::new(capacity),
            queue: VecDeque::new(),
            bytes: 0,
            entries: 0,
            failed: false,
            failure_pending: false,
            failure_notified: false,
        }
    }

    /// Queues a write as a whole, or hands it back.
    pub fn enqueue_write(&mut self, bytes: Bytes, close_started: bool) -> (result: Result<(), Bytes>)
        requires
            old(self).wf(),
            old(self).bytes + buffer::bytes_of(bytes).len() <= usize::MAX,
            old(self).entries < usize::MAX,
        ensures
            final(self).wf(),
            final(self).admission == old(self).admission,
            final(self).same_flags(old(self)),
            match result {
                Ok(()) => {
                    &&& !close_started
                    &&& !old(self).failed
                    &&& buffer::bytes_of(bytes).len() > 0
                    &&& final(self).queue@ == old(self).queue@.push(
                        QueuedBytes { bytes, offset: 0 },
                    )
                    &&& final(self).pending() == old(self).pending() + buffer::bytes_of(bytes)
                },
                Err(rejected) => {
                    &&& close_started || old(self).failed || buffer::bytes_of(bytes).len() == 0
                    &&& rejected == bytes
                    &&& *final(self) == *old(self)
                },
            },
    {
        if close_started || self.failed || bytes.is_empty() {
            return Err(bytes);
        }
        self.bytes = self.bytes + bytes.len();
        self.entries = self.entries + 1;
        let queued = QueuedBytes { bytes, offset: 0 };
        proof {
            pending_push(self.queue@, queued);
            assert(queued.rest() =~= buffer::bytes_of(bytes));
        }
        self.queue.push_back(queued);
        Ok(())
    }

    /// The bytes that the next write offers to the terminal, at most this many.
    pub fn next_write(&self, limit: usize) -> (chunk: Option<&[u8]>)
        requires
            self.wf(),
        ensures
            match chunk {
                None => self.queue@.len() == 0,
                Some(chunk) => {
                    &&& self.queue@.len() > 0
                    &&& chunk@.len() == if self.queue@[0].rest().len() < limit {
                        self.queue@[0].rest().len()
                    } else {
                        limit as nat
                    }
                    &&& chunk@ == self.queue@[0].rest().take(chunk@.len() as int)
                    &&& chunk@ == self.pending().take(chunk@.len() as int)
                },
            },
    {
        if self.queue.len() == 0 {
            return None;
        }
        let front = &self.queue[0];
        assert(self.queue@[0].wf());
        let left: usize = front.bytes.len() - front.offset;
        let count: usize = if left < limit {
            left
        } else {
            limit
        };
        let whole = buffer::bytes_slice(&front.bytes);
        let chunk = vstd::slice::slice_subrange(whole, front.offset, front.offset + count);
        assert(chunk@ =~= self.queue@[0].rest().take(count as int));
        assert(chunk@ =~= self.pending().take(count as int));
        Some(chunk)
    }

    /// Accounts for bytes of the first waiting write that went out.
    pub fn wrote(&mut self, amount: usize)
        requires
            old(self).wf(),
            old(self).queue@.len() > 0,
            0 < amount <= old(self).queue@[0].rest().len(),
        ensures
            final(self).wf(),
            has_written(old(self), final(self), amount),
    {
        assert(self.queue@[0].wf());
        take_front(&mut self.queue, amount);
        let complete = self.queue.len() < self.entries;
        self.bytes = self.bytes - amount;
        if complete {
            self.admission.release(amount, 1);
            self.entries = self.entries - 1;
        } else {
            self.admission.release(amount, 0);
        }
    }

    /// Drops everything that waits, and gives its room back.
    fn discard(&mut self)
        requires
            old(self).wf(),
        ensures
            final(self).wf(),
            final(self).same_flags(old(self)),
            final(self).queue@ == Seq::<QueuedBytes>::empty(),
            final(self).admission == released(old(self)),
    {
        self.admission.release(self.bytes, self.entries);
        self.queue.clear();
        self.bytes = 0;
        self.entries = 0;
    }

    /// Ends input. The result says whether the loss of accepted input is to be reported.
    pub fn fail_input(&mut self) -> (report: bool)
        requires
            old(self).wf(),
        ensures
            final(self).wf(),
            final(self).failed,
            final(self).queue@ == Seq::<QueuedBytes>::empty(),
            final(self).admission == (InputAdmission { open: false, ..released(old(self)) }),
            final(self).failure_pending == (old(self).failure_pending || old(self).queue@.len()
                > 0),
            final(self).failure_notified == (old(self).failure_notified || old(self).queue@.len()
                > 0),
            report == (old(self).queue@.len() > 0 && !old(self).failure_notified),
    {
        let accepted_input_pending = self.queue.len() > 0;
        self.failed = true;
        self.admission.close();
        self.discard();
        if accepted_input_pending {
            self.notify_input_failure()
        } else {
            false
        }
    }

    /// Records that accepted input was lost. The result says whether that is to be
    /// reported, which it is once.
    pub fn notify_input_failure(&mut self) -> (report: bool)
        ensures
            *final(self) == (InputState {
                failure_pending: true,
                failure_notified: true,
                ..*old(self)
            }),
            report == !old(self).failure_notified,
            old(self).wf() ==> final(self).wf(),
    {
        self.failure_pending = true;
        if !self.failure_notified {
            self.failure_notified = true;
            true
        } else {
            false
        }
    }

    /// Closes input and drops everything that waits, without a report.
    pub fn abandon(&mut self)
        requires
            old(self).wf(),
        ensures
            final(self).wf(),
            final(self).same_flags(old(self)),
            final(self).queue@ == Seq::<QueuedBytes>::empty(),
            final(self).admission == (InputAdmission { open: false, ..released(old(self)) }),
    {
        self.admission.close();
        self.discard();
    }
}

/// What writing the oldest bytes does: they leave, and their room is given back, together
/// with that of the write when it is complete.
pub open spec fn has_written(before: &InputState, after: &InputState, amount: usize) -> bool {
    let complete = amount == before.queue@[0].rest().len();
    &&& after.same_flags(before)
    &&& after.pending() == before.pending().skip(amount as int)
    &&& after.entries == if complete {
        before.entries - 1
    } else {
        before.entries as int
    }
    &&& after.admission == (InputAdmission {
        bytes: if amount <= before.admission.bytes {
            (before.admission.bytes - amount) as usize
        } else {
            0
        },
        entries: if !complete {
            before.admission.entries
        } else if 1 <= before.admission.entries {
            (before.admission.entries - 1) as usize
        } else {
            0
        },
        ..before.admission
    })
}

/// Admission after everything that waits was given back.
pub open spec fn released(input: &InputState) -> InputAdmission {
    InputAdmission {
        bytes: if input.bytes <= input.admission.bytes {
            (input.admission.bytes - input.bytes) as usize
        } else {
            0
        },
        entries: if input.entries <= input.admission.entries {
            (input.admission.entries - input.entries) as usize
        } else {
            0
        },
        ..input.admission
    }
}

/// Output that was read and not yet consumed.
pub struct OutputState {
    pub capacity: usize,
    pub queue: VecDeque<QueuedBytes>,
    pub bytes: usize,
    /// Handed to the consumer and not yet returned as credit.
    pub outstanding: usize,
    /// When a batch is due, in nanoseconds.
    pub deadline: Option<u64>,
    pub done_notified: bool,
    pub failed: bool,
    pub paused: bool,
    pub discarding: bool,
    pub eof: bool,
}

impl OutputState {
    /// The bytes that wait, in the order in which they were read.
    pub open spec fn pending(&self) -> Seq<u8> {
        pending(self.queue@)
    }

    /// The count is that of the queue, and what waits or is out with the consumer is within
    /// the capacity, which fits an allocation.
    pub open spec fn wf(&self) -> bool {
        &&& queue_wf(self.queue@)
        &&& self.bytes == self.pending().len()
        &&& self.bytes + self.outstanding <= self.capacity
        &&& self.capacity <= isize::MAX
    }

    /// The bytes that wait or are out with the consumer.
    pub open spec fn total(&self) -> nat {
        (self.bytes + self.outstanding) as nat
    }

    /// Everything but the queue, its counts and its deadline is as in the other.
    pub open spec fn same_flags(&self, other: &OutputState) -> bool {
        &&& self.capacity == other.capacity
        &&& self.done_notified == other.done_notified
        &&& self.failed == other.failed
        &&& self.paused == other.paused
        &&& self.discarding == other.discarding
        &&& self.eof == other.eof
    }

    /// Paused output within a capacity, empty.
    pub fn new(capacity: usize) -> (output: OutputState)
        requires
            capacity <= isize::MAX,
        ensures
            output.wf(),
            output.capacity == capacity,
            output.queue@ == Seq::<QueuedBytes>::empty(),
            output.outstanding == 0,
            output.deadline is None,
            !output.done_notified,
            !output.failed,
            output.paused,
            !output.discarding,
            !output.eof,
    {
        OutputState {
            capacity,
            queue: VecDeque::new(),
            bytes: 0,
            outstanding: 0,
            deadline: None,
            done_notified: false,
            failed: false,
            paused: true,
            discarding: false,
            eof: false,
        }
    }

    /// Queues bytes that were read. The first of them set the time by which they are
    /// due.
    pub fn enqueue(&mut self, data: Vec<u8>, due: u64)
        requires
            old(self).wf(),
            data@.len() > 0,
            old(self).total() + data@.len() <= old(self).capacity,
        ensures
            final(self).wf(),
            final(self).same_flags(old(self)),
            final(self).outstanding == old(self).outstanding,
            final(self).pending() == old(self).pending() + data@,
            final(self).deadline == if old(self).bytes == 0 {
                Some(due)
            } else {
                old(self).deadline
            },
    {
        if self.bytes == 0 {
            self.deadline = Some(due);
        }
        self.bytes = self.bytes + data.len();
        let queued = QueuedBytes { bytes: buffer::bytes_from_vec(data), offset: 0 };
        proof {
            pending_push(self.queue@, queued);
            assert(queued.rest() =~= data@);
        }
        self.queue.push_back(queued);
    }

    /// Hands out up to a number of the oldest bytes. They stay outstanding until the
    /// consumer returns their credit.
    pub fn pull_output(&mut self, maximum: usize) -> (bytes: Bytes)
        requires
            old(self).wf(),
        ensures
            final(self).wf(),
            final(self).same_flags(old(self)),
            buffer::bytes_of(bytes).len() == if maximum < old(self).bytes {
                maximum
            } else {
                old(self).bytes
            },
            buffer::bytes_of(bytes) + final(self).pending() == old(self).pending(),
            final(self).outstanding == old(self).outstanding + buffer::bytes_of(bytes).len(),
            final(self).deadline == if final(self).queue@.len() == 0 {
                None
            } else {
                old(self).deadline
            },
    {
        let amount: usize = if maximum < self.bytes {
            maximum
        } else {
            self.bytes
        };
        let ghost before = self.pending();
        let whole = self.queue.len() > 0 && self.queue[0].offset == 0 && self.queue[0].bytes.len()
            == amount;
        if whole {
            let ghost queue = self.queue@;
            if let Some(front) = self.queue.pop_front() {
                let bytes = front.bytes;
                proof {
                    assert(queue[0] == front);
                    assert(self.queue@ =~= queue.skip(1));
                    assert(front.rest() =~= buffer::bytes_of(bytes));
                    assert forall|i: int| 0 <= i < self.queue@.len() implies (
                    #[trigger] self.queue@[i]).wf() by {
                        assert(self.queue@[i] == queue[i + 1]);
                    }
                    assert(buffer::bytes_of(bytes) + self.pending() =~= before);
                }
                self.bytes = self.bytes - bytes.len();
                self.outstanding = self.outstanding + bytes.len();
                if self.queue.len() == 0 {
                    self.deadline = None;
                }
                return bytes;
            }
        }
        let mut bytes = BytesMut::with_capacity(amount);
        let mut copied: usize = 0;
        while copied < amount
            invariant
                copied <= amount,
                amount == old(self).bytes || amount == maximum,
                amount <= old(self).bytes,
                old(self).wf(),
                queue_wf(self.queue@),
                before == old(self).pending(),
                self.same_flags(old(self)),
                self.bytes == old(self).bytes,
                self.outstanding == old(self).outstanding,
                self.deadline == old(self).deadline,
                self.bytes == before.len(),
                buffer::buffer_of(bytes) == before.take(copied as int),
                self.pending() == before.skip(copied as int),
            decreases amount - copied,
        {
            proof {
                pending_empty(self.queue@);
            }
            let front = &self.queue[0];
            assert(self.queue@[0].wf());
            let available: usize = front.bytes.len() - front.offset;
            let wanted: usize = amount - copied;
            let take: usize = if available < wanted {
                available
            } else {
                wanted
            };
            let contents = buffer::bytes_slice(&front.bytes);
            let part = vstd::slice::slice_subrange(contents, front.offset, front.offset + take);
            proof {
                assert(part@ =~= self.queue@[0].rest().take(take as int));
                assert(part@ =~= self.pending().take(take as int));
            }
            bytes.extend_from_slice(part);
            proof {
                assert(before.take(copied as int) + before.skip(copied as int).take(take as int)
                    =~= before.take(copied + take));
                assert(before.skip(copied as int).skip(take as int) =~= before.skip(copied + take));
            }
            take_front(&mut self.queue, take);
            copied = copied + take;
        }
        self.bytes = self.bytes - amount;
        self.outstanding = self.outstanding + amount;
        if self.queue.len() == 0 {
            self.deadline = None;
        }
        assert(before.take(amount as int) + before.skip(amount as int) =~= before);
        bytes.freeze()
    }

    /// Takes credit back, unless it exceeds what is outstanding.
    pub fn credit(&mut self, bytes: usize) -> (accepted: bool)
        requires
            old(self).wf(),
        ensures
            final(self).wf(),
            accepted == (bytes <= old(self).outstanding),
            *final(self) == (OutputState {
                outstanding: if bytes <= old(self).outstanding {
                    (old(self).outstanding - bytes) as usize
                } else {
                    old(self).outstanding
                },
                ..*old(self)
            }),
    {
        if bytes > self.outstanding {
            return false;
        }
        self.outstanding = self.outstanding - bytes;
        true
    }

    /// The bytes that wait or are out with the consumer.
    pub fn output_total(&self) -> (total: usize)
        requires
            self.wf(),
        ensures
            total == self.total(),
    {
        self.bytes + self.outstanding
    }

    /// Drops everything that waits.
    pub fn clear(&mut self)
        requires
            old(self).wf(),
        ensures
            final(self).wf(),
            final(self).same_flags(old(self)),
            final(self).queue@ == Seq::<QueuedBytes>::empty(),
            final(self).bytes == 0,
            final(self).outstanding == old(self).outstanding,
            final(self).deadline == old(self).deadline,
    {
        self.queue.clear();
        self.bytes = 0;
    }
}

/// One step of a session's input: bytes were queued, or the oldest ones written.
pub ghost enum InputStep {
    Queued(Seq<u8>),
    Wrote(nat),
}

/// Whether a step leads from one state of the input to another.
pub open spec fn input_steps(before: &InputState, after: &InputState, step: InputStep) -> bool {
    match step {
        InputStep::Queued(bytes) => after.pending() == before.pending() + bytes,
        InputStep::Wrote(amount) => amount <= before.pending().len() && after.pending()
            == before.pending().skip(amount as int),
    }
}

/// What steps queued, in order.
pub open spec fn queued_by(steps: Seq<InputStep>) -> Seq<u8>
    decreases steps.len(),
{
    if steps.len() == 0 {
        Seq::empty()
    } else {
        queued_by(steps.drop_last()) + match steps.last() {
            InputStep::Queued(bytes) => bytes,
            InputStep::Wrote(_) => Seq::empty(),
        }
    }
}

/// What steps wrote to the terminal, in order.
pub open spec fn written_by(states: Seq<InputState>, steps: Seq<InputStep>) -> Seq<u8>
    decreases steps.len(),
{
    if steps.len() == 0 {
        Seq::empty()
    } else {
        written_by(states, steps.drop_last()) + match steps.last() {
            InputStep::Queued(_) => Seq::empty(),
            InputStep::Wrote(amount) => states[steps.len() - 1].pending().take(amount as int),
        }
    }
}

/// Accepted input reaches the terminal whole and in order: after any number of steps, what
/// was written and what still waits are together what was queued.
pub proof fn input_arrives_in_order(states: Seq<InputState>, steps: Seq<InputStep>)
    requires
        states.len() == steps.len() + 1,
        states[0].pending() == Seq::<u8>::empty(),
        forall|i: int|
            0 <= i < steps.len() ==> input_steps(
                &#[trigger] states[i],
                &states[i + 1],
                steps[i],
            ),
    ensures
        written_by(states, steps) + states.last().pending() == queued_by(steps),
    decreases steps.len(),
{
    if steps.len() == 0 {
        assert(written_by(states, steps) + states.last().pending() =~= queued_by(steps));
    } else {
        let earlier_states = states.drop_last();
        let earlier = steps.drop_last();
        assert forall|i: int| 0 <= i < earlier.len() implies input_steps(
            &#[trigger] earlier_states[i],
            &earlier_states[i + 1],
            earlier[i],
        ) by {
            assert(input_steps(&states[i], &states[i + 1], steps[i]));
        }
        input_arrives_in_order(earlier_states, earlier);
        written_is_local(states, earlier_states, earlier);
        let last = states[steps.len() - 1];
        assert(earlier_states.last() == last);
        assert(input_steps(&states[steps.len() - 1], &states[steps.len() as int], steps.last()));
        match steps.last() {
            InputStep::Queued(bytes) => {
                assert(written_by(states, steps) + states.last().pending() =~= (written_by(
                    states,
                    earlier,
                ) + last.pending()) + bytes);
            },
            InputStep::Wrote(amount) => {
                assert(last.pending() =~= last.pending().take(amount as int)
                    + last.pending().skip(amount as int));
                assert(written_by(states, steps) + states.last().pending() =~= written_by(
                    states,
                    earlier,
                ) + last.pending());
                assert(queued_by(steps) =~= queued_by(earlier));
            },
        }
    }
}

/// What steps wrote depends on the states before them only.
proof fn written_is_local(
    states: Seq<InputState>,
    earlier_states: Seq<InputState>,
    steps: Seq<InputStep>,
)
    requires
        steps.len() < earlier_states.len() <= states.len(),
        forall|i: int| 0 <= i < earlier_states.len() ==> states[i] == #[trigger] earlier_states[i],
    ensures
        written_by(states, steps) == written_by(earlier_states, steps),
    decreases steps.len(),
{
    if steps.len() > 0 {
        written_is_local(states, earlier_states, steps.drop_last());
        assert(states[steps.len() - 1] == earlier_states[steps.len() - 1]);
    }
}

/// One step of a session's output: bytes were read, or the oldest ones handed out.
pub ghost enum OutputStep {
    Read(Seq<u8>),
    HandedOut(Seq<u8>),
}

/// Whether a step leads from one state of the output to another.
pub open spec fn output_steps(before: &OutputState, after: &OutputState, step: OutputStep) -> bool {
    match step {
        OutputStep::Read(bytes) => after.pending() == before.pending() + bytes,
        OutputStep::HandedOut(bytes) => bytes + after.pending() == before.pending(),
    }
}

/// What steps read, in order.
pub open spec fn read_by(steps: Seq<OutputStep>) -> Seq<u8>
    decreases steps.len(),
{
    if steps.len() == 0 {
        Seq::empty()
    } else {
        read_by(steps.drop_last()) + match steps.last() {
            OutputStep::Read(bytes) => bytes,
            OutputStep::HandedOut(_) => Seq::empty(),
        }
    }
}

/// What steps handed to the consumer, in order.
pub open spec fn handed_by(steps: Seq<OutputStep>) -> Seq<u8>
    decreases steps.len(),
{
    if steps.len() == 0 {
        Seq::empty()
    } else {
        handed_by(steps.drop_last()) + match steps.last() {
            OutputStep::Read(_) => Seq::empty(),
            OutputStep::HandedOut(bytes) => bytes,
        }
    }
}

/// The consumer gets every byte once and in order: after any number of steps, what was
/// handed out and what still waits are together what was read.
pub proof fn output_arrives_in_order(states: Seq<OutputState>, steps: Seq<OutputStep>)
    requires
        states.len() == steps.len() + 1,
        states[0].pending() == Seq::<u8>::empty(),
        forall|i: int|
            0 <= i < steps.len() ==> output_steps(
                &#[trigger] states[i],
                &states[i + 1],
                steps[i],
            ),
    ensures
        handed_by(steps) + states.last().pending() == read_by(steps),
    decreases steps.len(),
{
    if steps.len() == 0 {
        assert(handed_by(steps) + states.last().pending() =~= read_by(steps));
    } else {
        let earlier_states = states.drop_last();
        let earlier = steps.drop_last();
        assert forall|i: int| 0 <= i < earlier.len() implies output_steps(
            &#[trigger] earlier_states[i],
            &earlier_states[i + 1],
            earlier[i],
        ) by {
            assert(output_steps(&states[i], &states[i + 1], steps[i]));
        }
        output_arrives_in_order(earlier_states, earlier);
        let last = states[steps.len() - 1];
        assert(earlier_states.last() == last);
        assert(output_steps(&states[steps.len() - 1], &states[steps.len() as int], steps.last()));
        match steps.last() {
            OutputStep::Read(bytes) => {
                assert(handed_by(steps) + states.last().pending() =~= (handed_by(earlier)
                    + last.pending()) + bytes);
            },
            OutputStep::HandedOut(bytes) => {
                assert(handed_by(steps) + states.last().pending() =~= handed_by(earlier) + (bytes
                    + states.last().pending()));
                assert(read_by(steps) =~= read_by(earlier));
            },
        }
    }
}

/// The consumer gets every byte once and in order, however the output is cut up:
/// what two pulls hand out is what one pull of their sum hands out.
pub proof fn pulls_compose(
    before: Seq<u8>,
    first: Seq<u8>,
    between: Seq<u8>,
    second: Seq<u8>,
    after: Seq<u8>,
)
    requires
        first + between == before,
        second + after == between,
    ensures
        (first + second) + after == before,
        first + second == before.take((first.len() + second.len()) as int),
{
    assert((first + second) + after =~= first + (second + after));
    assert(first + second =~= before.take((first.len() + second.len()) as int));
}

} // verus!
