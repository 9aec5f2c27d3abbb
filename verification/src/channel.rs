//! The event channel: one ordered queue per session, served in rotation.
//!
//! A session's events go to its registered receiver, or to the receiver of all
//! sessions. The channel's owner holds it behind a lock, and performs the wakes that
//! an operation asks for.
use std::collections::{HashMap, HashSet, VecDeque};
use vstd::prelude::*;

verus! {

broadcast use vstd::std_specs::hash::group_hash_axioms;

/// The event source ended.
#[derive(Clone, Copy, Debug, PartialEq, Eq, Structural)]
pub struct ReceiverClosed;

/// A session receiver's registration: its identity, and who waits for it.
#[derive(Clone, Debug, PartialEq, Eq)]
pub struct Registration<W> {
    pub receiver: u64,
    pub waker: Option<W>,
}

/// Whom an operation wakes.
#[derive(Clone, Debug, PartialEq, Eq)]
pub struct Wakes<W> {
    /// One waiter for the events of all sessions.
    pub any: bool,
    /// The waiter of this session receiver.
    pub receiver: Option<u64>,
    /// The task that polled the session receiver.
    pub waker: Option<W>,
}

/// What a receiver gets.
#[derive(Clone, Debug, PartialEq, Eq)]
pub enum Received<E> {
    Event(E),
    Closed,
    Wait,
}

/// The state of an event channel.
pub struct Channel<T, W> {
    pub queues: HashMap<u64, VecDeque<T>>,
    pub ready: VecDeque<u64>,
    pub registered: HashMap<u64, Registration<W>>,
    pub closed: HashSet<u64>,
    pub retired: HashSet<u64>,
    pub senders: usize,
    pub next_receiver: u64,
}

impl<T, W> Channel<T, W> {
    /// The events that wait for a session's receiver, oldest first.
    pub open spec fn queue(&self, session: u64) -> Seq<T> {
        if self.queues@.contains_key(session) {
            self.queues@[session]@
        } else {
            Seq::empty()
        }
    }

    /// Whether a send for a session is refused.
    pub open spec fn refuses(&self, session: u64) -> bool {
        self.senders == 0 || self.closed@.contains(session) || self.retired@.contains(session)
    }

    /// Sessions with events are ready, each once, and no other; a retired route has a
    /// receiver, a closed one has none; receivers' identities are not used twice.
    pub open spec fn wf(&self) -> bool {
        &&& forall|session: u64| #[trigger]
            self.queues@.contains_key(session) <==> self.ready@.contains(session)
        &&& forall|session: u64| #[trigger]
            self.queues@.contains_key(session) ==> self.queues@[session]@.len() > 0
        &&& self.ready@.no_duplicates()
        &&& forall|session: u64| #[trigger]
            self.retired@.contains(session) ==> self.registered@.contains_key(session)
        &&& forall|session: u64| #[trigger]
            self.registered@.contains_key(session) ==> !self.closed@.contains(session)
        &&& forall|session: u64| #[trigger]
            self.registered@.contains_key(session) ==> self.registered@[session].receiver
                < self.next_receiver
        &&& forall|first: u64, second: u64|
            #![trigger self.registered@.contains_key(first), self.registered@.contains_key(second)]
            self.registered@.contains_key(first) && self.registered@.contains_key(second) && first
                != second ==> self.registered@[first].receiver != self.registered@[second].receiver
    }

    /// Everything but the queues and their order is as in the other.
    pub open spec fn same_routes(&self, other: &Channel<T, W>) -> bool {
        &&& self.closed@ == other.closed@
        &&& self.retired@ == other.retired@
        &&& self.senders == other.senders
        &&& self.next_receiver == other.next_receiver
    }

    /// A channel with one sender.
    pub fn new() -> (channel: Self)
        ensures
            channel.wf(),
            channel.queues@ == Map::<u64, VecDeque<T>>::empty(),
            channel.ready@ == Seq::<u64>::empty(),
            channel.registered@ == Map::<u64, Registration<W>>::empty(),
            channel.closed@ == Set::<u64>::empty(),
            channel.retired@ == Set::<u64>::empty(),
            channel.senders == 1,
    {
        Channel {
            queues: HashMap::new(),
            ready: VecDeque::new(),
            registered: HashMap::new(),
            closed: HashSet::new(),
            retired: HashSet::new(),
            senders: 1,
            next_receiver: 0,
        }
    }

    /// Adds a sender.
    pub fn clone_sender(&mut self)
        requires
            old(self).wf(),
            old(self).senders < usize::MAX,
        ensures
            final(self).wf(),
            final(self).senders == old(self).senders + 1,
            final(self).queues == old(self).queues,
            final(self).ready == old(self).ready,
            final(self).registered == old(self).registered,
            final(self).closed == old(self).closed,
            final(self).retired == old(self).retired,
            final(self).next_receiver == old(self).next_receiver,
    {
        self.senders = self.senders + 1;
    }

    /// Removes a sender. Everyone who waits is woken when it was the last one.
    pub fn drop_sender(&mut self) -> (last: bool)
        requires
            old(self).wf(),
            old(self).senders > 0,
        ensures
            final(self).wf(),
            final(self).senders == old(self).senders - 1,
            last == (final(self).senders == 0),
            final(self).queues == old(self).queues,
            final(self).ready == old(self).ready,
            final(self).registered == old(self).registered,
            final(self).closed == old(self).closed,
            final(self).retired == old(self).retired,
            final(self).next_receiver == old(self).next_receiver,
    {
        self.senders = self.senders - 1;
        self.senders == 0
    }

    /// The queue of a session, taken out of the channel.
    fn take_queue(&mut self, session: u64) -> (queue: VecDeque<T>)
        ensures
            queue@ == old(self).queue(session),
            final(self).queues@ == old(self).queues@.remove(session),
            final(self).ready == old(self).ready,
            final(self).registered == old(self).registered,
            final(self).same_routes(old(self)),
    {
        match self.queues.remove(&session) {
            Some(queue) => queue,
            None => {
                assert(self.queues@ =~= old(self).queues@.remove(session));
                VecDeque::new()
            },
        }
    }

    /// Takes the waiter of a session's receiver.
    fn take_waker(&mut self, session: u64) -> (woken: (Option<u64>, Option<W>))
        requires
            old(self).wf(),
        ensures
            final(self).wf(),
            final(self).queues == old(self).queues,
            final(self).ready == old(self).ready,
            final(self).same_routes(old(self)),
            final(self).registered@ == without_waker(old(self).registered@, session),
            woken.0 == registered_receiver(old(self).registered@, session),
            woken.1 == registered_waker(old(self).registered@, session),
    {
        match self.registered.remove(&session) {
            Some(registration) => {
                let receiver: u64 = registration.receiver;
                self.registered.insert(session, Registration { receiver, waker: None });
                assert(self.registered@ =~= without_waker(old(self).registered@, session));
                proof {
                    without_waker_keeps(old(self).registered@, session);
                }
                (Some(receiver), registration.waker)
            },
            None => {
                assert(self.registered@ =~= old(self).registered@);
                (None, None)
            },
        }
    }

    /// Queues an event for a session, unless the route takes no more.
    pub fn send(&mut self, session: u64, event: T) -> (result: Result<Wakes<W>, T>)
        requires
            old(self).wf(),
        ensures
            final(self).wf(),
            final(self).same_routes(old(self)),
            match result {
                Err(rejected) => {
                    &&& old(self).refuses(session)
                    &&& rejected == event
                    &&& final(self).queues@ == old(self).queues@
                    &&& final(self).ready@ == old(self).ready@
                    &&& final(self).registered@ == old(self).registered@
                },
                Ok(wakes) => {
                    &&& !old(self).refuses(session)
                    &&& final(self).queue(session) == old(self).queue(session).push(event)
                    &&& final(self).queues@.dom() == old(self).queues@.dom().insert(session)
                    &&& forall|other: u64|
                        other != session ==> #[trigger] final(self).queue(other) == old(
                            self).queue(other)
                    &&& final(self).ready@ == if old(self).queue(session).len() == 0 {
                        old(self).ready@.push(session)
                    } else {
                        old(self).ready@
                    }
                    &&& final(self).registered@ == without_waker(old(self).registered@, session)
                    &&& wakes.any == (old(self).queue(session).len() == 0)
                    &&& wakes.receiver == registered_receiver(old(self).registered@, session)
                    &&& wakes.waker == registered_waker(old(self).registered@, session)
                },
            },
    {
        if self.senders == 0 || self.closed.contains(&session) || self.retired.contains(&session) {
            return Err(event);
        }
        let mut queue = self.take_queue(session);
        let was_empty = queue.len() == 0;
        queue.push_back(event);
        self.queues.insert(session, queue);
        if was_empty {
            self.ready.push_back(session);
        }
        proof {
            self.sent_is_wf(old(self), session, was_empty);
        }
        let (receiver, waker) = self.take_waker(session);
        Ok(Wakes { any: was_empty, receiver, waker })
    }

    /// The invariant holds after an event was queued.
    proof fn sent_is_wf(&self, before: &Channel<T, W>, session: u64, was_empty: bool)
        requires
            before.wf(),
            self.registered == before.registered,
            self.same_routes(before),
            was_empty == (before.queue(session).len() == 0),
            self.queues@.contains_key(session),
            self.queues@[session]@.len() > 0,
            forall|other: u64|
                other != session ==> #[trigger] self.queues@.contains_key(other)
                    == before.queues@.contains_key(other),
            forall|other: u64|
                other != session && #[trigger] self.queues@.contains_key(other)
                    ==> self.queues@[other] == before.queues@[other],
            self.ready@ == if was_empty {
                before.ready@.push(session)
            } else {
                before.ready@
            },
        ensures
            self.wf(),
    {
        assert(was_empty == !before.ready@.contains(session));
        assert forall|other: u64| #[trigger]
            self.queues@.contains_key(other) <==> self.ready@.contains(other) by {
            if was_empty {
                assert(self.ready@[before.ready@.len() as int] == session);
                if before.ready@.contains(other) {
                    let i = choose|i: int|
                        0 <= i < before.ready@.len() && before.ready@[i] == other;
                    assert(self.ready@[i] == other);
                }
            }
        }
        assert(self.ready@.no_duplicates());
    }

    /// Replaces the latest queued event that `matches` selects, or queues the event. The
    /// result says whether the queue grew.
    pub fn send_coalesced<F: Fn(&T) -> bool>(&mut self, session: u64, event: T, matches: F) -> (result:
        Result<(bool, Wakes<W>), T>)
        requires
            old(self).wf(),
            !old(self).refuses(session) ==> forall|i: int|
                0 <= i < old(self).queue(session).len() ==> call_requires(
                    matches,
                    (&#[trigger] old(self).queue(session)[i],),
                ),
        ensures
            final(self).wf(),
            final(self).same_routes(old(self)),
            match result {
                Err(rejected) => {
                    &&& old(self).refuses(session)
                    &&& rejected == event
                    &&& final(self).queues@ == old(self).queues@
                    &&& final(self).ready@ == old(self).ready@
                    &&& final(self).registered@ == old(self).registered@
                },
                Ok((grew, wakes)) => {
                    let before = old(self).queue(session);
                    &&& !old(self).refuses(session)
                    &&& forall|other: u64|
                        other != session ==> #[trigger] final(self).queue(other) == old(
                            self).queue(other)
                    &&& if grew {
                        &&& forall|i: int|
                            0 <= i < before.len() ==> call_ensures(
                                matches,
                                (&#[trigger] before[i],),
                                false,
                            )
                        &&& final(self).queue(session) == before.push(event)
                        &&& final(self).ready@ == if before.len() == 0 {
                            old(self).ready@.push(session)
                        } else {
                            old(self).ready@
                        }
                        &&& final(self).registered@ == without_waker(
                            old(self).registered@,
                            session,
                        )
                        &&& wakes.any == (before.len() == 0)
                        &&& wakes.receiver == registered_receiver(old(self).registered@, session)
                        &&& wakes.waker == registered_waker(old(self).registered@, session)
                    } else {
                        &&& exists|i: int|
                            {
                                &&& 0 <= i < before.len()
                                &&& call_ensures(matches, (&#[trigger] before[i],), true)
                                &&& forall|j: int|
                                    i < j < before.len() ==> call_ensures(
                                        matches,
                                        (&#[trigger] before[j],),
                                        false,
                                    )
                                &&& final(self).queue(session) == before.update(i, event)
                            }
                        &&& final(self).ready@ == old(self).ready@
                        &&& final(self).registered@ == old(self).registered@
                        &&& !wakes.any
                        &&& wakes.receiver is None
                        &&& wakes.waker is None
                    }
                },
            },
    {
        if self.senders == 0 || self.closed.contains(&session) || self.retired.contains(&session) {
            return Err(event);
        }
        let mut queue = self.take_queue(session);
        let ghost before = queue@;
        let mut index: usize = queue.len();
        while index > 0
            invariant
                index <= queue@.len(),
                queue@ == before,
                forall|i: int|
                    0 <= i < before.len() ==> call_requires(matches, (&#[trigger] before[i],)),
                forall|j: int|
                    index <= j < before.len() ==> call_ensures(
                        matches,
                        (&#[trigger] before[j],),
                        false,
                    ),
                self.queues@ == old(self).queues@.remove(session),
                self.ready == old(self).ready,
                self.registered == old(self).registered,
                self.same_routes(old(self)),
                old(self).wf(),
                before == old(self).queue(session),
                !old(self).refuses(session),
            decreases index,
        {
            index = index - 1;
            let selected = matches(&queue[index]);
            if selected {
                queue.remove(index);
                queue.insert(index, event);
                assert(queue@ =~= before.update(index as int, event));
                self.queues.insert(session, queue);
                proof {
                    self.sent_is_wf(old(self), session, false);
                    assert(call_ensures(matches, (&before[index as int],), true));
                }
                return Ok((false, Wakes { any: false, receiver: None, waker: None }));
            }
        }
        let was_empty = queue.len() == 0;
        queue.push_back(event);
        self.queues.insert(session, queue);
        if was_empty {
            self.ready.push_back(session);
        }
        proof {
            self.sent_is_wf(old(self), session, was_empty);
        }
        let (receiver, waker) = self.take_waker(session);
        Ok((true, Wakes { any: was_empty, receiver, waker }))
    }

    /// Takes the oldest event of the session at the head of the rotation. The session
    /// goes to the end of it if more of its events wait.
    pub fn pop_next(&mut self) -> (popped: Option<(u64, T)>)
        requires
            old(self).wf(),
        ensures
            final(self).wf(),
            final(self).same_routes(old(self)),
            final(self).registered@ == old(self).registered@,
            match popped {
                None => {
                    &&& old(self).ready@.len() == 0
                    &&& final(self).queues@ == old(self).queues@
                    &&& final(self).ready@ == old(self).ready@
                },
                Some((session, event)) => {
                    &&& old(self).ready@.len() > 0
                    &&& session == old(self).ready@[0]
                    &&& old(self).queue(session).len() > 0
                    &&& event == old(self).queue(session)[0]
                    &&& final(self).queue(session) == old(self).queue(session).skip(1)
                    &&& forall|other: u64|
                        other != session ==> #[trigger] final(self).queue(other) == old(
                            self).queue(other)
                    &&& final(self).ready@ == rotated(
                        old(self).ready@,
                        old(self).queue(session).len() > 1,
                    )
                },
            },
    {
        match self.ready.pop_front() {
            None => None,
            Some(session) => {
                assert(old(self).ready@.contains(session)) by {
                    assert(old(self).ready@[0] == session);
                }
                assert(old(self).queues@.contains_key(session));
                let mut queue = self.take_queue(session);
                let Some(event) = queue.pop_front() else {
                    return None;
                };
                let remains = queue.len() > 0;
                assert(queue@ =~= old(self).queue(session).skip(1));
                if remains {
                    self.queues.insert(session, queue);
                    self.ready.push_back(session);
                }
                proof {
                    self.popped_is_wf(old(self), session, remains);
                    assert(self.ready@ =~= rotated(old(self).ready@, remains));
                }
                Some((session, event))
            },
        }
    }

    /// The invariant holds after the head of the rotation was served.
    proof fn popped_is_wf(&self, before: &Channel<T, W>, session: u64, remains: bool)
        requires
            before.wf(),
            before.ready@.len() > 0,
            before.ready@[0] == session,
            self.registered == before.registered,
            self.same_routes(before),
            self.queues@.contains_key(session) == remains,
            remains ==> self.queues@[session]@.len() > 0,
            forall|other: u64|
                other != session ==> #[trigger] self.queues@.contains_key(other)
                    == before.queues@.contains_key(other),
            forall|other: u64|
                other != session && #[trigger] self.queues@.contains_key(other)
                    ==> self.queues@[other] == before.queues@[other],
            self.ready@ =~= rotated(before.ready@, remains),
        ensures
            self.wf(),
    {
        let tail = before.ready@.skip(1);
        assert forall|other: u64| #[trigger]
            self.queues@.contains_key(other) <==> self.ready@.contains(other) by {
            if before.ready@.contains(other) && other != session {
                let i = choose|i: int| 0 <= i < before.ready@.len() && before.ready@[i] == other;
                assert(self.ready@[i - 1] == other);
            }
            if self.ready@.contains(other) {
                let i = choose|i: int| 0 <= i < self.ready@.len() && self.ready@[i] == other;
                if i < tail.len() {
                    assert(before.ready@[i + 1] == other);
                }
            }
            if remains {
                assert(self.ready@[tail.len() as int] == session);
            }
        }
        assert(self.ready@.no_duplicates());
    }

    /// Takes the oldest event of one session.
    pub fn pop_session(&mut self, session: u64) -> (popped: Option<T>)
        requires
            old(self).wf(),
        ensures
            final(self).wf(),
            final(self).same_routes(old(self)),
            final(self).registered@ == old(self).registered@,
            forall|other: u64|
                other != session ==> #[trigger] final(self).queue(other) == old(self).queue(other),
            match popped {
                None => {
                    &&& old(self).queue(session).len() == 0
                    &&& final(self).queues@ == old(self).queues@
                    &&& final(self).ready@ == old(self).ready@
                },
                Some(event) => {
                    &&& old(self).queue(session).len() > 0
                    &&& event == old(self).queue(session)[0]
                    &&& final(self).queue(session) == old(self).queue(session).skip(1)
                    &&& final(self).ready@ == if old(self).queue(session).len() > 1 {
                        old(self).ready@
                    } else {
                        without(old(self).ready@, session)
                    }
                },
            },
    {
        let mut queue = self.take_queue(session);
        let ghost before = queue@;
        match queue.pop_front() {
            None => {
                assert(self.queues@ =~= old(self).queues@);
                None
            },
            Some(event) => {
                assert(queue@ =~= before.skip(1));
                if queue.len() > 0 {
                    self.queues.insert(session, queue);
                } else {
                    self.unready(session);
                }
                proof {
                    self.left_is_wf(old(self), session);
                }
                Some(event)
            },
        }
    }

    /// Takes a session out of the rotation.
    fn unready(&mut self, session: u64)
        requires
            old(self).ready@.no_duplicates(),
        ensures
            final(self).ready@ == without(old(self).ready@, session),
            final(self).queues == old(self).queues,
            final(self).registered == old(self).registered,
            final(self).same_routes(old(self)),
    {
        let mut index: usize = 0;
        let length: usize = self.ready.len();
        while index < length
            invariant
                index <= length == self.ready@.len(),
                *self == *old(self),
                self.ready@.no_duplicates(),
                forall|i: int| 0 <= i < index ==> #[trigger] self.ready@[i] != session,
            decreases length - index,
        {
            if self.ready[index] == session {
                self.ready.remove(index);
                proof {
                    filter_removes(old(self).ready@, session, index as int);
                }
                return;
            }
            index = index + 1;
        }
        proof {
            filter_keeps(self.ready@, session);
        }
    }

    /// The invariant holds after events of one session left its queue.
    proof fn left_is_wf(&self, before: &Channel<T, W>, session: u64)
        requires
            before.wf(),
            self.registered == before.registered,
            self.same_routes(before),
            self.queues@.contains_key(session) ==> self.queues@[session]@.len() > 0
                && before.queues@.contains_key(session),
            forall|other: u64|
                other != session ==> #[trigger] self.queues@.contains_key(other)
                    == before.queues@.contains_key(other),
            forall|other: u64|
                other != session && #[trigger] self.queues@.contains_key(other)
                    ==> self.queues@[other] == before.queues@[other],
            self.ready@ == if self.queues@.contains_key(session) {
                before.ready@
            } else {
                without(before.ready@, session)
            },
        ensures
            self.wf(),
    {
        filter_contains(before.ready@, session);
    }

    /// The next event of any session.
    pub fn recv(&mut self) -> (received: Received<(u64, T)>)
        requires
            old(self).wf(),
        ensures
            final(self).wf(),
            final(self).same_routes(old(self)),
            final(self).registered@ == old(self).registered@,
            match received {
                Received::Event((session, event)) => {
                    &&& old(self).ready@.len() > 0
                    &&& session == old(self).ready@[0]
                    &&& old(self).queue(session).len() > 0
                    &&& event == old(self).queue(session)[0]
                    &&& final(self).queue(session) == old(self).queue(session).skip(1)
                    &&& forall|other: u64|
                        other != session ==> #[trigger] final(self).queue(other) == old(
                            self).queue(other)
                    &&& final(self).ready@ == rotated(
                        old(self).ready@,
                        old(self).queue(session).len() > 1,
                    )
                },
                Received::Closed => {
                    &&& old(self).ready@.len() == 0
                    &&& old(self).senders == 0
                    &&& final(self).queues@ == old(self).queues@
                    &&& final(self).ready@ == old(self).ready@
                },
                Received::Wait => {
                    &&& old(self).ready@.len() == 0
                    &&& old(self).senders > 0
                    &&& final(self).queues@ == old(self).queues@
                    &&& final(self).ready@ == old(self).ready@
                },
            },
    {
        match self.pop_next() {
            Some(event) => Received::Event(event),
            None => if self.senders == 0 {
                Received::Closed
            } else {
                Received::Wait
            },
        }
    }

    /// Registers the receiver of one session, unless the route is closed or has one.
    pub fn session(&mut self, session: u64) -> (receiver: Option<u64>)
        requires
            old(self).wf(),
            old(self).next_receiver < u64::MAX,
        ensures
            final(self).wf(),
            final(self).queues == old(self).queues,
            final(self).ready == old(self).ready,
            final(self).closed == old(self).closed,
            final(self).retired == old(self).retired,
            final(self).senders == old(self).senders,
            match receiver {
                Some(receiver) => {
                    &&& !old(self).closed@.contains(session)
                    &&& !old(self).registered@.contains_key(session)
                    &&& receiver == old(self).next_receiver
                    &&& final(self).next_receiver == old(self).next_receiver + 1
                    &&& final(self).registered@ == old(self).registered@.insert(
                        session,
                        Registration { receiver, waker: None },
                    )
                },
                None => {
                    &&& old(self).closed@.contains(session) || old(self).registered@.contains_key(
                        session,
                    )
                    &&& *final(self) == *old(self)
                },
            },
    {
        if self.closed.contains(&session) || self.registered.contains_key(&session) {
            return None;
        }
        let receiver: u64 = self.next_receiver;
        self.next_receiver = receiver + 1;
        self.registered.insert(session, Registration { receiver, waker: None });
        Some(receiver)
    }

    /// Whether this receiver holds the session's registration.
    pub open spec fn owns(&self, session: u64, receiver: u64) -> bool {
        self.registered@.contains_key(session) && self.registered@[session].receiver == receiver
    }

    /// What closing a route leaves of the channel before.
    pub open spec fn closed_from(
        &self,
        before: &Channel<T, W>,
        session: u64,
        receiver: u64,
    ) -> bool {
        &&& self.senders == before.senders
        &&& self.next_receiver == before.next_receiver
        &&& if before.owns(session, receiver) {
            &&& self.queues@ == before.queues@.remove(session)
            &&& self.ready@ == without(before.ready@, session)
            &&& self.registered@ == before.registered@.remove(session)
            &&& self.retired@ == before.retired@.remove(session)
            &&& self.closed@ == if before.retired@.contains(session) {
                before.closed@
            } else {
                before.closed@.insert(session)
            }
        } else {
            &&& self.queues@ == before.queues@
            &&& self.ready@ == before.ready@
            &&& self.registered@ == before.registered@
            &&& self.retired@ == before.retired@
            &&& self.closed@ == before.closed@
        }
    }

    /// What retiring a route leaves of the channel before.
    pub open spec fn retired_from(&self, before: &Channel<T, W>, session: u64) -> bool {
        &&& self.queues == before.queues
        &&& self.ready == before.ready
        &&& self.senders == before.senders
        &&& self.next_receiver == before.next_receiver
        &&& self.closed@ == before.closed@.remove(session)
        &&& self.registered@ == without_waker(before.registered@, session)
        &&& self.retired@ == if before.registered@.contains_key(session) {
            before.retired@.insert(session)
        } else {
            before.retired@
        }
    }

    /// Whether the channel holds nothing of a session.
    pub open spec fn forgets(&self, session: u64) -> bool {
        &&& !self.queues@.contains_key(session)
        &&& !self.ready@.contains(session)
        &&& !self.registered@.contains_key(session)
        &&& !self.closed@.contains(session)
        &&& !self.retired@.contains(session)
    }

    /// Closes a session's route and hands out what was queued, if the receiver holds the
    /// registration. The route refuses later sends until its producer retires it.
    pub fn close_session(&mut self, session: u64, receiver: u64) -> (events: VecDeque<T>)
        requires
            old(self).wf(),
        ensures
            final(self).wf(),
            final(self).closed_from(old(self), session, receiver),
            events@ == if old(self).owns(session, receiver) {
                old(self).queue(session)
            } else {
                Seq::empty()
            },
    {
        let owns = match self.registered.get(&session) {
            Some(registration) => registration.receiver == receiver,
            None => false,
        };
        if !owns {
            return VecDeque::new();
        }
        let queue = self.take_queue(session);
        self.unready(session);
        proof {
            self.left_is_wf(old(self), session);
        }
        self.registered.remove(&session);
        if !self.retired.remove(&session) {
            assert(self.retired@ =~= old(self).retired@.remove(session));
            self.closed.insert(session);
        }
        queue
    }

    /// Forgets a route after its producer can no longer send. A receiver that is still
    /// registered gets what is queued, and then the end.
    pub fn retire_session(&mut self, session: u64) -> (wakes: Wakes<W>)
        requires
            old(self).wf(),
        ensures
            final(self).wf(),
            final(self).retired_from(old(self), session),
            !wakes.any,
            wakes.receiver == registered_receiver(old(self).registered@, session),
            wakes.waker == registered_waker(old(self).registered@, session),
    {
        if self.closed.remove(&session) {
            assert(!self.registered@.contains_key(session));
            return Wakes { any: false, receiver: None, waker: None };
        }
        assert(self.closed@ =~= old(self).closed@.remove(session));
        let (receiver, waker) = self.take_waker(session);
        if receiver.is_some() {
            self.retired.insert(session);
        }
        Wakes { any: false, receiver, waker }
    }

    /// The next event of one session, without waiting.
    pub fn try_recv(&mut self, session: u64) -> (result: Result<Option<T>, ReceiverClosed>)
        requires
            old(self).wf(),
        ensures
            final(self).wf(),
            final(self).same_routes(old(self)),
            final(self).registered@ == old(self).registered@,
            forall|other: u64|
                other != session ==> #[trigger] final(self).queue(other) == old(self).queue(other),
            match result {
                Ok(Some(event)) => {
                    &&& old(self).queue(session).len() > 0
                    &&& event == old(self).queue(session)[0]
                    &&& final(self).queue(session) == old(self).queue(session).skip(1)
                    &&& final(self).ready@ == if old(self).queue(session).len() > 1 {
                        old(self).ready@
                    } else {
                        without(old(self).ready@, session)
                    }
                },
                Ok(None) => {
                    &&& old(self).queue(session).len() == 0
                    &&& !old(self).retired@.contains(session)
                    &&& old(self).senders > 0
                    &&& final(self).queue(session) == old(self).queue(session)
                    &&& final(self).ready@ == old(self).ready@
                },
                Err(_) => {
                    &&& old(self).queue(session).len() == 0
                    &&& old(self).retired@.contains(session) || old(self).senders == 0
                    &&& final(self).queue(session) == old(self).queue(session)
                    &&& final(self).ready@ == old(self).ready@
                },
            },
    {
        match self.pop_session(session) {
            Some(event) => Ok(Some(event)),
            None => if self.retired.contains(&session) || self.senders == 0 {
                Err(ReceiverClosed)
            } else {
                Ok(None)
            },
        }
    }

    /// The next event of one session. A task that has to wait is remembered in place of
    /// the one that polled before.
    pub fn poll_recv(&mut self, session: u64, receiver: u64, waker: W) -> (received: Received<T>)
        requires
            old(self).wf(),
        ensures
            final(self).wf(),
            final(self).same_routes(old(self)),
            forall|other: u64|
                other != session ==> #[trigger] final(self).queue(other) == old(self).queue(other),
            match received {
                Received::Event(event) => {
                    &&& old(self).queue(session).len() > 0
                    &&& event == old(self).queue(session)[0]
                    &&& final(self).queue(session) == old(self).queue(session).skip(1)
                    &&& final(self).ready@ == if old(self).queue(session).len() > 1 {
                        old(self).ready@
                    } else {
                        without(old(self).ready@, session)
                    }
                    &&& final(self).registered@ == old(self).registered@
                },
                Received::Closed => {
                    &&& old(self).queue(session).len() == 0
                    &&& old(self).retired@.contains(session) || old(self).senders == 0
                    &&& final(self).queue(session) == old(self).queue(session)
                    &&& final(self).ready@ == old(self).ready@
                    &&& final(self).registered@ == old(self).registered@
                },
                Received::Wait => {
                    &&& old(self).queue(session).len() == 0
                    &&& !old(self).retired@.contains(session)
                    &&& old(self).senders > 0
                    &&& final(self).queue(session) == old(self).queue(session)
                    &&& final(self).ready@ == old(self).ready@
                    &&& final(self).registered@ == if old(self).owns(session, receiver) {
                        old(self).registered@.insert(
                            session,
                            Registration { receiver, waker: Some(waker) },
                        )
                    } else {
                        old(self).registered@
                    }
                },
            },
    {
        match self.pop_session(session) {
            Some(event) => {
                return Received::Event(event);
            },
            None => {},
        }
        if self.retired.contains(&session) || self.senders == 0 {
            return Received::Closed;
        }
        let owns = match self.registered.get(&session) {
            Some(registration) => registration.receiver == receiver,
            None => false,
        };
        if owns {
            self.registered.insert(session, Registration { receiver, waker: Some(waker) });
        }
        Received::Wait
    }
}

/// The rotation without a session.
pub open spec fn without(ready: Seq<u64>, session: u64) -> Seq<u64> {
    ready.filter(|value: u64| value != session)
}

/// The rotation after its head was served.
pub open spec fn rotated(ready: Seq<u64>, remains: bool) -> Seq<u64> {
    if remains {
        ready.skip(1).push(ready[0])
    } else {
        ready.skip(1)
    }
}

/// The identity of a session's receiver.
pub open spec fn registered_receiver<W>(
    registered: Map<u64, Registration<W>>,
    session: u64,
) -> Option<u64> {
    if registered.contains_key(session) {
        Some(registered[session].receiver)
    } else {
        None
    }
}

/// The task that waits for a session.
pub open spec fn registered_waker<W>(registered: Map<u64, Registration<W>>, session: u64) -> Option<
    W,
> {
    if registered.contains_key(session) {
        registered[session].waker
    } else {
        None
    }
}

/// The registrations after the task that waits for a session was taken.
pub open spec fn without_waker<W>(
    registered: Map<u64, Registration<W>>,
    session: u64,
) -> Map<u64, Registration<W>> {
    if registered.contains_key(session) {
        registered.insert(
            session,
            Registration { receiver: registered[session].receiver, waker: None },
        )
    } else {
        registered
    }
}

/// Taking a waiting task changes no receiver's identity.
proof fn without_waker_keeps<W>(registered: Map<u64, Registration<W>>, session: u64)
    ensures
        without_waker(registered, session).dom() == registered.dom(),
        forall|other: u64| #[trigger]
            registered.contains_key(other) ==> without_waker(registered, session)[other].receiver
                == registered[other].receiver,
{
    assert(without_waker(registered, session).dom() =~= registered.dom());
}

/// Filtering out an absent value keeps the sequence.
proof fn filter_keeps(ready: Seq<u64>, session: u64)
    requires
        forall|i: int| 0 <= i < ready.len() ==> #[trigger] ready[i] != session,
    ensures
        without(ready, session) == ready,
    decreases ready.len(),
{
    reveal(Seq::filter);
    if ready.len() > 0 {
        filter_keeps(ready.drop_last(), session);
        assert(ready.drop_last().push(ready.last()) =~= ready);
        assert(ready[ready.len() - 1] != session);
    } else {
        assert(without(ready, session) =~= ready);
    }
}

/// Filtering out a value that stands at one place removes that place.
proof fn filter_removes(ready: Seq<u64>, session: u64, index: int)
    requires
        ready.no_duplicates(),
        0 <= index < ready.len(),
        ready[index] == session,
    ensures
        without(ready, session) == ready.remove(index),
    decreases ready.len(),
{
    reveal(Seq::filter);
    let front = ready.drop_last();
    if index == ready.len() - 1 {
        assert forall|i: int| 0 <= i < front.len() implies #[trigger] front[i] != session by {
            assert(ready[i] != ready[index]);
        }
        filter_keeps(front, session);
        assert(ready.remove(index) =~= front);
    } else {
        filter_removes(front, session, index);
        assert(ready.last() != session) by {
            assert(ready[ready.len() - 1] != ready[index]);
        }
        assert(ready.remove(index) =~= front.remove(index).push(ready.last()));
    }
}

/// What filtering keeps, and in particular that it makes no duplicates.
proof fn filter_contains(ready: Seq<u64>, session: u64)
    requires
        ready.no_duplicates(),
    ensures
        without(ready, session).no_duplicates(),
        forall|value: u64| #[trigger]
            without(ready, session).contains(value) <==> ready.contains(value)
                && value != session,
{
    if ready.contains(session) {
        let index = choose|i: int| 0 <= i < ready.len() && ready[i] == session;
        filter_removes(ready, session, index);
        let rest = ready.remove(index);
        assert forall|value: u64| #[trigger]
            rest.contains(value) <==> ready.contains(value) && value != session by {
            if ready.contains(value) && value != session {
                let i = choose|i: int| 0 <= i < ready.len() && ready[i] == value;
                if i < index {
                    assert(rest[i] == value);
                } else {
                    assert(rest[i - 1] == value);
                }
            }
            if rest.contains(value) {
                let i = choose|i: int| 0 <= i < rest.len() && rest[i] == value;
                if i < index {
                    assert(ready[i] == value);
                    assert(ready[i] != ready[index]);
                } else {
                    assert(ready[i + 1] == value);
                    assert(ready[i + 1] != ready[index]);
                }
            }
        }
    } else {
        assert forall|i: int| 0 <= i < ready.len() implies #[trigger] ready[i] != session by {
            assert(ready.contains(ready[i]));
        }
        filter_keeps(ready, session);
        assert forall|value: u64| ready.contains(value) implies value != session by {}
    }
}

/// Service is in rotation: a session that is not at the head moves one place towards it
/// with every event that is taken.
pub proof fn rotation_advances(ready: Seq<u64>, remains: bool, place: int)
    requires
        0 < place < ready.len(),
    ensures
        place - 1 < rotated(ready, remains).len(),
        rotated(ready, remains)[place - 1] == ready[place],
{
}

/// A route that its receiver closed refuses every send until its producer retires it,
/// and holds no event.
pub proof fn closed_route_refuses_sends<T, W>(
    before: Channel<T, W>,
    after: Channel<T, W>,
    session: u64,
    receiver: u64,
)
    requires
        before.owns(session, receiver),
        !before.retired@.contains(session),
        after.closed_from(&before, session, receiver),
    ensures
        after.refuses(session),
        after.queue(session).len() == 0,
{
}

/// A route that its producer retired refuses every send while its receiver is
/// registered, and keeps what was queued for it.
pub proof fn retired_route_keeps_events<T, W>(
    before: Channel<T, W>,
    after: Channel<T, W>,
    session: u64,
)
    requires
        before.registered@.contains_key(session),
        after.retired_from(&before, session),
    ensures
        after.refuses(session),
        after.queue(session) == before.queue(session),
{
}

/// Once its receiver closed a route and its producer retired it, in either order, the
/// channel holds nothing of the session.
pub proof fn finished_route_is_forgotten<T, W>(
    before: Channel<T, W>,
    between: Channel<T, W>,
    after: Channel<T, W>,
    session: u64,
    receiver: u64,
)
    requires
        before.wf(),
        before.owns(session, receiver),
        !before.retired@.contains(session),
        ({
            ||| between.closed_from(&before, session, receiver) && after.retired_from(
                &between,
                session,
            )
            ||| between.retired_from(&before, session) && after.closed_from(
                &between,
                session,
                receiver,
            )
        }),
    ensures
        after.forgets(session),
{
    filter_contains(before.ready@, session);
    filter_contains(between.ready@, session);
}

} // verus!
