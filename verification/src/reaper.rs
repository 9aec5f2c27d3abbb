//! The background reaper of brokers that took too long to go.
use crate::fault::{ErrorKind, IoError};
use std::collections::VecDeque;
use vstd::prelude::*;

verus! {

/// How many processes may wait for the reaper, and how many it watches at once.
pub const REAPER_CAPACITY: usize = 16;

/// What asking for a process came to.
#[derive(Clone, Copy, Debug, PartialEq, Eq, Structural)]
pub enum Waited {
    Reaped,
    Running,
    Interrupted,
    /// There is no such child.
    NoChild,
    Failed,
}

/// What a call that asks for a process means: what it returned, the category of its failure,
/// and whether that failure says that there is no such child.
pub fn waited(returned: i32, pid: i32, failure: ErrorKind, no_child: bool) -> (result: Waited)
    ensures
        result == if returned == pid {
            Waited::Reaped
        } else if returned == 0 {
            Waited::Running
        } else if failure == ErrorKind::Interrupted {
            Waited::Interrupted
        } else if no_child {
            Waited::NoChild
        } else {
            Waited::Failed
        },
{
    if returned == pid {
        Waited::Reaped
    } else if returned == 0 {
        Waited::Running
    } else if failure == ErrorKind::Interrupted {
        Waited::Interrupted
    } else if no_child {
        Waited::NoChild
    } else {
        Waited::Failed
    }
}

/// The processes that are still to be reaped.
#[derive(Debug)]
pub struct Reaper {
    /// Those that were handed over.
    pub waiting: VecDeque<i32>,
    /// Those that are watched.
    pub watched: Vec<i32>,
    /// Whether every process is sure to be reaped.
    pub healthy: bool,
}

/// Whether a process is watched on.
pub open spec fn stays(waited: Waited) -> bool {
    waited == Waited::Running || waited == Waited::Interrupted
}

/// The processes that are watched on, in order.
pub open spec fn kept(pids: Seq<i32>, waited: Seq<Waited>) -> Seq<i32>
    decreases pids.len(),
{
    if pids.len() == 0 {
        Seq::empty()
    } else {
        let rest = kept(pids.drop_last(), waited.drop_last());
        if stays(waited.last()) {
            rest.push(pids.last())
        } else {
            rest
        }
    }
}

impl Reaper {
    /// Both lists are bounded.
    pub open spec fn wf(&self) -> bool {
        &&& self.waiting@.len() <= REAPER_CAPACITY
        &&& self.watched@.len() <= REAPER_CAPACITY
    }

    /// A reaper without processes.
    pub fn new() -> (reaper: Reaper)
        ensures
            reaper.wf(),
            reaper.waiting@.len() == 0,
            reaper.watched@.len() == 0,
            reaper.healthy,
    {
        Reaper { waiting: VecDeque::new(), watched: Vec::new(), healthy: true }
    }

    /// Hands a process over. One that finds no room, or no thread that reaps, is not sure to
    /// be reaped.
    pub fn queue_reap(&mut self, pid: i32, has_thread: bool)
        requires
            old(self).wf(),
        ensures
            final(self).wf(),
            final(self).watched == old(self).watched,
            ({
                let queued = has_thread && old(self).waiting@.len() < REAPER_CAPACITY;
                &&& final(self).healthy == (old(self).healthy && queued)
                &&& final(self).waiting@ == if queued {
                    old(self).waiting@.push(pid)
                } else {
                    old(self).waiting@
                }
            }),
    {
        if has_thread && self.waiting.len() < REAPER_CAPACITY {
            self.waiting.push_back(pid);
        } else {
            self.healthy = false;
        }
    }

    /// Begins a round: one process more is watched where there is room.
    pub fn begin_round(&mut self)
        requires
            old(self).wf(),
        ensures
            final(self).wf(),
            final(self).healthy == old(self).healthy,
            if old(self).waiting@.len() > 0 && old(self).watched@.len() < REAPER_CAPACITY {
                &&& final(self).watched@ == old(self).watched@.push(old(self).waiting@[0])
                &&& final(self).waiting@ == old(self).waiting@.skip(1)
            } else {
                &&& final(self).watched@ == old(self).watched@
                &&& final(self).waiting@ == old(self).waiting@
            },
    {
        if self.watched.len() < REAPER_CAPACITY {
            let ghost before = self.waiting@;
            if let Some(pid) = self.waiting.pop_front() {
                assert(self.waiting@ =~= before.skip(1));
                self.watched.push(pid);
            }
        }
    }

    /// Ends a round with what asking for each watched process came to.
    pub fn end_round(&mut self, waited: &Vec<Waited>)
        requires
            old(self).wf(),
            waited@.len() == old(self).watched@.len(),
        ensures
            final(self).wf(),
            final(self).waiting == old(self).waiting,
            final(self).watched@ == kept(old(self).watched@, waited@),
            final(self).healthy == (old(self).healthy && !waited@.contains(Waited::Failed)),
    {
        let mut watched: Vec<i32> = Vec::new();
        let mut healthy = self.healthy;
        for index in 0..waited.len()
            invariant
                self.watched@ == old(self).watched@,
                waited@.len() == self.watched@.len() <= REAPER_CAPACITY,
                watched@.len() <= index,
                watched@ == kept(
                    old(self).watched@.take(index as int),
                    waited@.take(index as int),
                ),
                healthy == (old(self).healthy && !waited@.take(index as int).contains(
                    Waited::Failed,
                )),
                self.waiting == old(self).waiting,
        {
            proof {
                let pids = old(self).watched@;
                assert(pids.take(index + 1).drop_last() =~= pids.take(index as int));
                assert(waited@.take(index + 1).drop_last() =~= waited@.take(index as int));
                let earlier = waited@.take(index as int);
                assert(waited@.take(index + 1) =~= earlier.push(waited@[index as int]));
                assert(earlier.push(waited@[index as int]).contains(Waited::Failed) == (
                earlier.contains(Waited::Failed) || waited@[index as int] == Waited::Failed)) by {
                    let longer = earlier.push(waited@[index as int]);
                    if waited@[index as int] == Waited::Failed {
                        assert(longer[index as int] == Waited::Failed);
                    }
                    if earlier.contains(Waited::Failed) {
                        let i = choose|i: int| 0 <= i < earlier.len() && earlier[i]
                            == Waited::Failed;
                        assert(longer[i] == Waited::Failed);
                    }
                }
            }
            match waited[index] {
                Waited::Running | Waited::Interrupted => {
                    watched.push(self.watched[index]);
                },
                Waited::Failed => {
                    healthy = false;
                },
                Waited::Reaped | Waited::NoChild => {},
            }
        }
        assert(old(self).watched@.take(waited@.len() as int) =~= old(self).watched@);
        assert(waited@.take(waited@.len() as int) =~= waited@);
        self.watched = watched;
        self.healthy = healthy;
    }

    /// Whether a broker can be launched: only while every process is sure to be reaped.
    pub fn check(&self) -> (result: Result<(), IoError>)
        ensures
            match result {
                Ok(()) => self.healthy,
                Err(error) => !self.healthy && error.is_simple(
                    ErrorKind::Other,
                    "broker reaper is unavailable"@,
                ),
            },
    {
        if self.healthy {
            Ok(())
        } else {
            Err(IoError::new(ErrorKind::Other, "broker reaper is unavailable"))
        }
    }
}

/// A process leaves the reaper only when it was reaped, is no child, or cannot be asked for:
/// one that runs stays.
pub proof fn running_process_stays(pids: Seq<i32>, waited: Seq<Waited>, index: int)
    requires
        pids.len() == waited.len(),
        0 <= index < pids.len(),
        stays(waited[index]),
    ensures
        kept(pids, waited).contains(pids[index]),
    decreases pids.len(),
{
    let rest = kept(pids.drop_last(), waited.drop_last());
    if index == pids.len() - 1 {
        assert(kept(pids, waited).last() == pids[index]);
    } else {
        running_process_stays(pids.drop_last(), waited.drop_last(), index);
        let i = choose|i: int| 0 <= i < rest.len() && rest[i] == pids[index];
        assert(kept(pids, waited)[i] == pids[index]);
    }
}

} // verus!
