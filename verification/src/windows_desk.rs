//! Where the Windows engine's notices go out: every one that waits has its place in the
//! budget.
use crate::channel::{self, Channel, Wakes};
use crate::notice::{self, Notice};
use crate::windows_budget::NoticeBudget;
use crate::windows_session::{Outbox, OutboxModel};
use vstd::prelude::*;

verus! {

broadcast use vstd::std_specs::hash::group_hash_axioms;

/// The notices that wait, and the budget for more. `W` is what wakes a waiter.
pub struct NoticeDesk<W> {
    pub notices: Channel<Notice, W>,
    pub budget: NoticeBudget,
}

impl<W> NoticeDesk<W> {
    /// The invariants of its parts.
    pub open spec fn wf(&self) -> bool {
        &&& self.notices.wf()
        &&& self.budget.wf()
    }

    /// How many more notices can be reserved.
    pub open spec fn room(&self) -> int {
        self.budget.limit - self.budget.held - self.budget.queued
    }

    /// A desk where nothing waits.
    pub fn new(limit: usize) -> (desk: NoticeDesk<W>)
        ensures
            desk.wf(),
            desk.budget == (NoticeBudget { limit, held: 0, queued: 0 }),
            desk.notices.senders == 1,
            forall|route: u64| #[trigger] desk.notices.queue(route).len() == 0,
            forall|route: u64| !(#[trigger] desk.notices.refuses(route)),
    {
        NoticeDesk { notices: Channel::new(), budget: NoticeBudget::new(limit) }
    }

    /// What one step may send for a session.
    pub fn outbox(&self, handle: u64) -> (outbox: Outbox)
        requires
            self.wf(),
        ensures
            outbox@ == (OutboxModel {
                open: !self.notices.refuses(handle),
                free: self.room() as usize,
                sent: Seq::empty(),
            }),
    {
        let open = self.notices.senders != 0 && !self.notices.closed.contains(&handle)
            && !self.notices.retired.contains(&handle);
        Outbox::new(open, self.budget.limit - self.budget.held - self.budget.queued)
    }

    /// Sends a notice. Output takes a place of its own in the budget; any other notice uses
    /// one that is held. Nothing where its route takes no more.
    pub fn post(&mut self, notice: Notice) -> (wakes: Option<Wakes<W>>)
        requires
            old(self).wf(),
            notice is Output ==> old(self).room() > 0,
            !(notice is Output) ==> old(self).budget.held > 0,
        ensures
            final(self).wf(),
            final(self).notices.same_routes(&old(self).notices),
            ({
                let route = notice::route_of(notice);
                let registered = old(self).notices.registered@;
                let queue = old(self).notices.queue(route);
                let refused = old(self).notices.refuses(route);
                &&& final(self).budget == (NoticeBudget {
                    held: if notice is Output {
                        old(self).budget.held
                    } else {
                        (old(self).budget.held - 1) as usize
                    },
                    queued: if refused {
                        old(self).budget.queued
                    } else {
                        (old(self).budget.queued + 1) as usize
                    },
                    ..old(self).budget
                })
                &&& forall|other: u64|
                    other != route ==> #[trigger] final(self).notices.queue(other) == old(
                        self,
                    ).notices.queue(other)
                &&& final(self).notices.queue(route) == if refused {
                    queue
                } else {
                    queue.push(notice)
                }
                &&& final(self).notices.ready@ == if refused || queue.len() > 0 {
                    old(self).notices.ready@
                } else {
                    old(self).notices.ready@.push(route)
                }
                &&& final(self).notices.registered@ == if refused {
                    registered
                } else {
                    channel::without_waker(registered, route)
                }
                &&& wakes == if refused {
                    None
                } else {
                    Some(
                        Wakes {
                            any: queue.len() == 0,
                            receiver: channel::registered_receiver(registered, route),
                            waker: channel::registered_waker(registered, route),
                        },
                    )
                }
            }),
    {
        if let Notice::Output { .. } = &notice {
            let _reservation = self.budget.try_reserve();
        }
        let route: u64 = notice.handle();
        match self.notices.send(route, notice) {
            Ok(wakes) => {
                self.budget.settle(true);
                Some(wakes)
            },
            Err(_) => {
                self.budget.settle(false);
                None
            },
        }
    }

    /// Ends a step whose outbox has this many places left: those that it gave back, beyond
    /// what is free already, are no longer held.
    pub fn reconcile(&mut self, free: usize)
        requires
            old(self).wf(),
        ensures
            final(self).wf(),
            final(self).notices == old(self).notices,
            ({
                let back = free - old(self).room();
                final(self).budget == (NoticeBudget {
                    held: if back <= 0 {
                        old(self).budget.held
                    } else if back <= old(self).budget.held {
                        (old(self).budget.held - back) as usize
                    } else {
                        0
                    },
                    ..old(self).budget
                })
            }),
    {
        let room: usize = self.budget.limit - self.budget.held - self.budget.queued;
        if free > room {
            self.release(free - room);
        }
    }

    /// Gives places back that a session that goes did not use.
    pub fn release(&mut self, count: usize)
        requires
            old(self).wf(),
        ensures
            final(self).wf(),
            final(self).notices == old(self).notices,
            final(self).budget == (NoticeBudget {
                held: if count <= old(self).budget.held {
                    (old(self).budget.held - count) as usize
                } else {
                    0
                },
                ..old(self).budget
            }),
    {
        let held: usize = self.budget.held;
        self.budget.release_many(
            if count <= held {
                count
            } else {
                held
            },
        );
    }
}

} // verus!
