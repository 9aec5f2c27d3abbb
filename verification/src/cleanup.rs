//! Cleanups that are tried until they succeed.
//!
//! A cleanup that is scheduled waits once, however often it is asked for. One that fails
//! is tried again after a delay that doubles up to a limit. Times are in nanoseconds.
use crate::c_api::{STATUS_OK, STATUS_STALE_HANDLE};
use std::collections::VecDeque;
use vstd::prelude::*;

verus! {

/// The delay before a failed cleanup's second try.
pub const CLEANUP_RETRY_DELAY: u64 = 10_000_000;

/// The longest delay between two tries.
pub const CLEANUP_RETRY_MAX_DELAY: u64 = 1_000_000_000;

/// Something that has to be given back.
#[derive(Clone, Copy, Debug, PartialEq, Eq, Structural)]
pub enum Cleanup {
    Adapter(u64),
    Event { adapter: u64, token: u64 },
    Session(u64),
}

/// A cleanup that waits, with the time of its next try and the delay behind that.
#[derive(Clone, Copy, Debug, PartialEq, Eq, Structural)]
pub struct PendingCleanup {
    pub cleanup: Cleanup,
    pub retry_at: u64,
    pub delay: u64,
}

impl PendingCleanup {
    /// A cleanup that is tried at once.
    pub fn new(cleanup: Cleanup, now: u64) -> (item: PendingCleanup)
        ensures
            item == (PendingCleanup { cleanup, retry_at: now, delay: CLEANUP_RETRY_DELAY }),
    {
        PendingCleanup { cleanup, retry_at: now, delay: CLEANUP_RETRY_DELAY }
    }
}

/// Whether a status means that nothing is left to give back.
pub open spec fn settled(status: u32) -> bool {
    status == STATUS_OK || status == STATUS_STALE_HANDLE
}

/// Whether a status means that nothing is left to give back.
pub fn is_settled(status: u32) -> (result: bool)
    ensures
        result == settled(status),
{
    status == STATUS_OK || status == STATUS_STALE_HANDLE
}

/// The cleanups that wait, and the one that is being tried.
pub struct CleanupQueue {
    pub pending: VecDeque<PendingCleanup>,
    pub trying: Option<PendingCleanup>,
}

/// Whether a cleanup waits.
pub open spec fn waits(pending: Seq<PendingCleanup>, cleanup: Cleanup) -> bool {
    exists|i: int| 0 <= i < pending.len() && (#[trigger] pending[i]).cleanup == cleanup
}

/// Whether no cleanup waits twice.
pub open spec fn distinct(pending: Seq<PendingCleanup>) -> bool {
    forall|i: int, j: int|
        0 <= i < j < pending.len() ==> (#[trigger] pending[i]).cleanup != (
        #[trigger] pending[j]).cleanup
}

/// The first cleanup whose time has come.
pub open spec fn due_at(pending: Seq<PendingCleanup>, now: u64, place: int) -> bool {
    &&& 0 <= place < pending.len()
    &&& pending[place].retry_at <= now
    &&& forall|i: int| 0 <= i < place ==> (#[trigger] pending[i]).retry_at > now
}

/// How long it is until a time.
pub open spec fn until(time: u64, now: u64) -> u64 {
    if time > now {
        (time - now) as u64
    } else {
        0
    }
}

/// A time some way ahead.
pub open spec fn after(now: u64, delay: u64) -> u64 {
    if now + delay > u64::MAX {
        u64::MAX
    } else {
        (now + delay) as u64
    }
}

/// A failed cleanup as it waits again.
pub open spec fn postponed(item: PendingCleanup, now: u64) -> PendingCleanup {
    PendingCleanup {
        cleanup: item.cleanup,
        retry_at: after(now, item.delay),
        delay: if item.delay * 2 > CLEANUP_RETRY_MAX_DELAY {
            CLEANUP_RETRY_MAX_DELAY
        } else {
            (item.delay * 2) as u64
        },
    }
}

impl CleanupQueue {
    /// Whether a cleanup is scheduled: it waits or is being tried.
    pub open spec fn scheduled(&self, cleanup: Cleanup) -> bool {
        waits(self.pending@, cleanup) || (self.trying matches Some(item) && item.cleanup
            == cleanup)
    }

    /// The queue's invariant: no cleanup is there twice, and no delay is beyond the limit.
    pub open spec fn wf(&self) -> bool {
        &&& distinct(self.pending@)
        &&& forall|i: int|
            0 <= i < self.pending@.len() ==> CLEANUP_RETRY_DELAY <= (#[trigger] self.pending@[i]).delay
                <= CLEANUP_RETRY_MAX_DELAY
        &&& self.trying matches Some(item) ==> {
            &&& CLEANUP_RETRY_DELAY <= item.delay <= CLEANUP_RETRY_MAX_DELAY
            &&& !waits(self.pending@, item.cleanup)
        }
    }

    /// A queue without cleanups.
    pub fn new() -> (queue: CleanupQueue)
        ensures
            queue.wf(),
            queue.pending@.len() == 0,
            queue.trying is None,
    {
        CleanupQueue { pending: VecDeque::new(), trying: None }
    }

    /// Whether a cleanup is scheduled.
    fn is_scheduled(&self, cleanup: Cleanup) -> (found: bool)
        ensures
            found == self.scheduled(cleanup),
    {
        if let Some(item) = self.trying {
            if item.cleanup == cleanup {
                return true;
            }
        }
        for index in 0..self.pending.len()
            invariant
                forall|i: int|
                    0 <= i < index ==> (#[trigger] self.pending@[i]).cleanup != cleanup,
        {
            if self.pending[index].cleanup == cleanup {
                assert(self.pending@[index as int].cleanup == cleanup);
                return true;
            }
        }
        false
    }

    /// Schedules a cleanup, unless it is scheduled already. The result says whether the
    /// worker has to be told.
    pub fn schedule_cleanup(&mut self, cleanup: Cleanup, now: u64) -> (added: bool)
        requires
            old(self).wf(),
            old(self).pending@.len() < usize::MAX,
        ensures
            final(self).wf(),
            final(self).trying == old(self).trying,
            added == !old(self).scheduled(cleanup),
            final(self).scheduled(cleanup),
            final(self).pending@ == if added {
                old(self).pending@.push(
                    PendingCleanup { cleanup, retry_at: now, delay: CLEANUP_RETRY_DELAY },
                )
            } else {
                old(self).pending@
            },
    {
        if self.is_scheduled(cleanup) {
            return false;
        }
        let item = PendingCleanup::new(cleanup, now);
        let ghost before = self.pending@;
        self.pending.push_back(item);
        proof {
            assert(self.pending@[before.len() as int].cleanup == cleanup);
            assert forall|i: int, j: int| 0 <= i < j < self.pending@.len() implies (
            #[trigger] self.pending@[i]).cleanup != (#[trigger] self.pending@[j]).cleanup by {
                assert(self.pending@[i] == before[i]);
                if j < before.len() {
                    assert(self.pending@[j] == before[j]);
                }
            }
            if let Some(trying) = self.trying {
                if waits(self.pending@, trying.cleanup) {
                    let i = choose|i: int|
                        0 <= i < self.pending@.len() && (#[trigger] self.pending@[i]).cleanup
                            == trying.cleanup;
                    if i < before.len() {
                        assert(before[i].cleanup == trying.cleanup);
                    }
                }
            }
        }
        true
    }

    /// How long the worker waits: until the first cleanup is due, or the longest delay.
    pub fn next_wait(&self, now: u64) -> (wait: u64)
        ensures
            self.pending@.len() == 0 ==> wait == CLEANUP_RETRY_MAX_DELAY,
            self.pending@.len() > 0 ==> {
                &&& forall|i: int|
                    0 <= i < self.pending@.len() ==> wait <= until(
                        (#[trigger] self.pending@[i]).retry_at,
                        now,
                    )
                &&& exists|i: int|
                    0 <= i < self.pending@.len() && wait == until(
                        (#[trigger] self.pending@[i]).retry_at,
                        now,
                    )
            },
    {
        if self.pending.len() == 0 {
            return CLEANUP_RETRY_MAX_DELAY;
        }
        let mut wait: u64 = self.pending[0].retry_at.saturating_sub(now);
        assert(wait == until(self.pending@[0].retry_at, now));
        for index in 1..self.pending.len()
            invariant
                self.pending@.len() > 0,
                forall|i: int|
                    0 <= i < index ==> wait <= until((#[trigger] self.pending@[i]).retry_at, now),
                exists|i: int|
                    0 <= i < self.pending@.len() && wait == until(
                        (#[trigger] self.pending@[i]).retry_at,
                        now,
                    ),
        {
            let other: u64 = self.pending[index].retry_at.saturating_sub(now);
            assert(other == until(self.pending@[index as int].retry_at, now));
            if other < wait {
                wait = other;
            }
        }
        wait
    }

    /// Takes the first cleanup whose time has come.
    pub fn take_due(&mut self, now: u64) -> (item: Option<PendingCleanup>)
        requires
            old(self).wf(),
            old(self).trying is None,
        ensures
            final(self).wf(),
            final(self).trying == item,
            match item {
                Some(item) => exists|place: int|
                    #![trigger due_at(old(self).pending@, now, place)]
                    {
                        &&& due_at(old(self).pending@, now, place)
                        &&& item == old(self).pending@[place]
                        &&& final(self).pending@ == old(self).pending@.remove(place)
                    },
                None => {
                    &&& final(self).pending@ == old(self).pending@
                    &&& forall|i: int|
                        0 <= i < old(self).pending@.len() ==> (#[trigger] old(self).pending@[i]).retry_at > now
                },
            },
    {
        let count: usize = self.pending.len();
        for index in 0..count
            invariant
                count == self.pending@.len(),
                *self == *old(self),
                self.wf(),
                self.trying is None,
                forall|i: int| 0 <= i < index ==> (#[trigger] self.pending@[i]).retry_at > now,
        {
            if self.pending[index].retry_at <= now {
                let ghost before = self.pending@;
                assert(due_at(before, now, index as int));
                let item: Option<PendingCleanup> = self.pending.remove(index);
                self.trying = item;
                proof {
                    let after = self.pending@;
                    assert(after == before.remove(index as int));
                    assert forall|i: int| 0 <= i < after.len() implies #[trigger] after[i]
                        == before[if i < index {
                        i
                    } else {
                        i + 1
                    }] by {}
                    if waits(after, before[index as int].cleanup) {
                        let i = choose|i: int|
                            0 <= i < after.len() && (#[trigger] after[i]).cleanup
                                == before[index as int].cleanup;
                        let place = if i < index {
                            i
                        } else {
                            i + 1
                        };
                        assert(before[place].cleanup == before[index as int].cleanup);
                    }
                }
                return item;
            }
        }
        None
    }

    /// Takes the outcome of the cleanup that was tried: it is done, or waits again.
    pub fn settle(&mut self, status: u32, now: u64)
        requires
            old(self).wf(),
            old(self).trying is Some,
            old(self).pending@.len() < usize::MAX,
        ensures
            final(self).wf(),
            final(self).trying is None,
            final(self).pending@ == if settled(status) {
                old(self).pending@
            } else {
                old(self).pending@.push(postponed(old(self).trying.unwrap(), now))
            },
            final(self).scheduled(old(self).trying.unwrap().cleanup) == !settled(status),
    {
        if let Some(item) = self.trying {
            self.trying = None;
            if !is_settled(status) {
                let delay: u64 = if item.delay > CLEANUP_RETRY_MAX_DELAY / 2 {
                    CLEANUP_RETRY_MAX_DELAY
                } else {
                    item.delay * 2
                };
                let ghost before = self.pending@;
                self.pending.push_back(
                    PendingCleanup {
                        cleanup: item.cleanup,
                        retry_at: now.saturating_add(item.delay),
                        delay,
                    },
                );
                proof {
                    assert(self.pending@[before.len() as int].cleanup == item.cleanup);
                    assert forall|i: int, j: int| 0 <= i < j < self.pending@.len() implies (
                    #[trigger] self.pending@[i]).cleanup != (#[trigger] self.pending@[j]).cleanup by {
                        assert(self.pending@[i] == before[i]);
                        if j < before.len() {
                            assert(self.pending@[j] == before[j]);
                        }
                    }
                }
            }
        }
    }
}

/// A cleanup that fails is not lost: it waits again.
pub proof fn failed_cleanup_stays(queue: Seq<PendingCleanup>, item: PendingCleanup, now: u64)
    ensures
        waits(queue.push(postponed(item, now)), item.cleanup),
{
    let after = queue.push(postponed(item, now));
    assert(after[queue.len() as int].cleanup == item.cleanup);
}

} // verus!
