//! The adapter that carries a runtime's events to another language's event port.
//!
//! A pump waits for its runtime's events and posts them. It keeps the tokens of output
//! that is not acknowledged and the sessions that it started, so that it can give both
//! back when it ends.
use crate::c_api::{
    self, Error, Event, ERROR_DOMAIN_RUNTIME, ERROR_INFRASTRUCTURE_LOST, EVENT_CLOSE_COMPLETE,
    EVENT_INFRASTRUCTURE_FAILED, EVENT_OUTPUT, EVENT_SIZE, EVENT_SPAWN_FAILED, OPERATION_OUTPUT,
    STATUS_OK, STATUS_STALE_HANDLE,
};
use crate::cleanup;
use std::collections::HashSet;
use vstd::prelude::*;

verus! {

broadcast use vstd::std_specs::hash::group_hash_axioms;

/// A runtime's pump.
pub struct Pump {
    pub handle: u64,
    pub in_flight_events: usize,
    pub runtime: u64,
    pub runtime_retained: bool,
    pub port: i64,
    pub stopping: bool,
    pub outstanding: HashSet<u64>,
    pub sessions: HashSet<u64>,
    pub cleaned: bool,
}

/// What a pump holds.
pub ghost struct PumpModel {
    pub handle: u64,
    pub in_flight_events: nat,
    pub runtime: u64,
    pub runtime_retained: bool,
    pub port: i64,
    pub stopping: bool,
    pub outstanding: Set<u64>,
    pub sessions: Set<u64>,
    pub cleaned: bool,
}

/// An event that says that the infrastructure was lost.
pub open spec fn terminal_event() -> Event {
    Event {
        kind: EVENT_INFRASTRUCTURE_FAILED,
        error: c_api::error_of(
            ERROR_DOMAIN_RUNTIME,
            ERROR_INFRASTRUCTURE_LOST,
            OPERATION_OUTPUT,
            0,
        ),
        ..c_api::empty_event(EVENT_SIZE)
    }
}

/// An event that says that the infrastructure was lost.
pub fn terminal_failure() -> (event: Event)
    ensures
        event == terminal_event(),
{
    let mut terminal = Event::empty(EVENT_SIZE);
    terminal.kind = EVENT_INFRASTRUCTURE_FAILED;
    terminal.error = Error::value(
        ERROR_DOMAIN_RUNTIME,
        ERROR_INFRASTRUCTURE_LOST,
        OPERATION_OUTPUT,
        0,
    );
    terminal
}

/// The event that reports a finalized session's close.
pub fn finalized_event(session: u64) -> (event: Event)
    ensures
        event == (Event {
            kind: EVENT_CLOSE_COMPLETE,
            session,
            ..c_api::empty_event(EVENT_SIZE)
        }),
{
    let mut event = Event::empty(EVENT_SIZE);
    event.kind = EVENT_CLOSE_COMPLETE;
    event.session = session;
    event
}

/// The event whose release gives a token back.
pub fn release_request(token: u64) -> (event: Event)
    ensures
        event == (Event { token, ..c_api::empty_event(EVENT_SIZE) }),
{
    let mut event = Event::empty(EVENT_SIZE);
    event.token = token;
    event
}

/// What the pump's thread does next.
#[derive(Clone, Copy, Debug, PartialEq, Eq)]
pub enum PumpStep {
    /// Wait for the next event.
    Wait,
    /// Post the event.
    Post,
    /// Give the event back; the pump then ends, with a failure posted or without.
    Release { report: bool },
    /// Give the session of the event back.
    ReleaseSession(u64),
    /// End, with a failure posted or without.
    End { report: bool },
}

/// Whether an output event can be posted.
pub open spec fn is_postable(event: Event, has_data: bool) -> bool {
    &&& event.token != 0
    &&& has_data
    &&& 0 < event.data_length <= isize::MAX
}

impl Pump {
    /// What the pump holds.
    pub open spec fn model(&self) -> PumpModel {
        PumpModel {
            handle: self.handle,
            in_flight_events: self.in_flight_events as nat,
            runtime: self.runtime,
            runtime_retained: self.runtime_retained,
            port: self.port,
            stopping: self.stopping,
            outstanding: self.outstanding@,
            sessions: self.sessions@,
            cleaned: self.cleaned,
        }
    }

    /// A pump that has done nothing.
    pub fn new(runtime: u64, port: i64) -> (pump: Pump)
        ensures
            pump.model() == (PumpModel {
                handle: 0,
                in_flight_events: 0,
                runtime,
                runtime_retained: true,
                port,
                stopping: false,
                outstanding: Set::empty(),
                sessions: Set::empty(),
                cleaned: false,
            }),
    {
        Pump {
            handle: 0,
            in_flight_events: 0,
            runtime,
            runtime_retained: true,
            port,
            stopping: false,
            outstanding: HashSet::new(),
            sessions: HashSet::new(),
            cleaned: false,
        }
    }

    /// Registers a wait for an event, unless the pump is stopping.
    pub fn begin_event_wait(&mut self) -> (started: bool)
        requires
            old(self).in_flight_events < usize::MAX,
        ensures
            started == !old(self).stopping,
            final(self).model() == (PumpModel {
                in_flight_events: old(self).model().in_flight_events + if started {
                    1nat
                } else {
                    0nat
                },
                ..old(self).model()
            }),
    {
        if self.stopping {
            return false;
        }
        self.in_flight_events = self.in_flight_events + 1;
        true
    }

    /// Ends a wait for an event.
    pub fn end_event_wait(&mut self)
        requires
            old(self).in_flight_events > 0,
        ensures
            final(self).model() == (PumpModel {
                in_flight_events: (old(self).in_flight_events - 1) as nat,
                ..old(self).model()
            }),
    {
        self.in_flight_events = self.in_flight_events - 1;
    }

    /// Lets no further event be posted.
    pub fn stop(&mut self)
        ensures
            final(self).model() == (PumpModel { stopping: true, ..old(self).model() }),
    {
        self.stopping = true;
    }

    /// Takes the outcome of a wait. Output that can be posted becomes outstanding.
    pub fn after_next_event(&mut self, status: u32, event: &Event, has_data: bool) -> (step:
        PumpStep)
        ensures
            step == if status != STATUS_OK {
                PumpStep::End { report: !old(self).stopping }
            } else if old(self).stopping {
                PumpStep::Release { report: false }
            } else if event.kind == EVENT_OUTPUT && !is_postable(*event, has_data) {
                PumpStep::Release { report: true }
            } else {
                PumpStep::Post
            },
            final(self).model() == (PumpModel {
                outstanding: if step is Post && event.kind == EVENT_OUTPUT {
                    old(self).outstanding@.insert(event.token)
                } else {
                    old(self).outstanding@
                },
                ..old(self).model()
            }),
    {
        if status != STATUS_OK {
            return PumpStep::End { report: !self.stopping };
        }
        if self.stopping {
            return PumpStep::Release { report: false };
        }
        if event.kind == EVENT_OUTPUT {
            if event.token == 0 || !has_data || event.data_length == 0 || event.data_length
                > isize::MAX as u64 {
                return PumpStep::Release { report: true };
            }
            self.outstanding.insert(event.token);
        }
        PumpStep::Post
    }

    /// Takes the outcome of a post. Any other event than output is given back with it;
    /// output that was not posted is not outstanding any more.
    pub fn after_post(&mut self, event: &Event, posted: bool) -> (step: PumpStep)
        ensures
            step == if event.kind == EVENT_OUTPUT {
                if posted {
                    PumpStep::Wait
                } else {
                    PumpStep::Release { report: true }
                }
            } else if !posted {
                PumpStep::End { report: true }
            } else if event.kind == EVENT_SPAWN_FAILED || event.kind == EVENT_CLOSE_COMPLETE {
                PumpStep::ReleaseSession(event.session)
            } else {
                PumpStep::Wait
            },
            final(self).model() == (PumpModel {
                outstanding: if event.kind == EVENT_OUTPUT && !posted {
                    old(self).outstanding@.remove(event.token)
                } else {
                    old(self).outstanding@
                },
                ..old(self).model()
            }),
    {
        if event.kind == EVENT_OUTPUT {
            if posted {
                return PumpStep::Wait;
            }
            self.outstanding.remove(&event.token);
            assert(self.outstanding@ =~= old(self).outstanding@.remove(event.token));
            return PumpStep::Release { report: true };
        }
        if !posted {
            return PumpStep::End { report: true };
        }
        if event.kind == EVENT_SPAWN_FAILED || event.kind == EVENT_CLOSE_COMPLETE {
            return PumpStep::ReleaseSession(event.session);
        }
        PumpStep::Wait
    }

    /// Takes the outcome of giving an event back that was not posted. A token whose release
    /// failed is kept for the cleanup.
    pub fn after_release(&mut self, token: u64, status: u32)
        ensures
            final(self).model() == (PumpModel {
                outstanding: if token != 0 && !cleanup::settled(status) {
                    old(self).outstanding@.insert(token)
                } else {
                    old(self).outstanding@
                },
                ..old(self).model()
            }),
    {
        if token != 0 && !cleanup::is_settled(status) {
            self.outstanding.insert(token);
        }
    }

    /// Takes the outcome of giving a completed session back.
    pub fn after_completed_release(status: u32) -> (step: PumpStep)
        ensures
            step == if cleanup::settled(status) {
                PumpStep::Wait
            } else {
                PumpStep::End { report: true }
            },
    {
        if cleanup::is_settled(status) {
            PumpStep::Wait
        } else {
            PumpStep::End { report: true }
        }
    }

    /// Gives a token back that is outstanding, and no other. It stays outstanding when that
    /// fails.
    pub fn acknowledge_token<F: FnOnce() -> u32>(&mut self, token: u64, release: F) -> (status: u32)
        requires
            old(self).outstanding@.contains(token) ==> call_requires(release, ()),
        ensures
            if !old(self).outstanding@.contains(token) {
                &&& status == STATUS_STALE_HANDLE
                &&& final(self).model() == old(self).model()
            } else {
                &&& call_ensures(release, (), status)
                &&& final(self).model() == (PumpModel {
                    outstanding: if cleanup::settled(status) {
                        old(self).outstanding@.remove(token)
                    } else {
                        old(self).outstanding@
                    },
                    ..old(self).model()
                })
            },
    {
        if !self.outstanding.contains(&token) {
            return STATUS_STALE_HANDLE;
        }
        let status: u32 = release();
        if cleanup::is_settled(status) {
            self.outstanding.remove(&token);
            assert(self.outstanding@ =~= old(self).outstanding@.remove(token));
        }
        status
    }

    /// Gives a session back that the pump started, and no other. It stays with the pump when
    /// that fails.
    pub fn release_tracked_session<F: FnOnce() -> u32>(&mut self, session: u64, release: F) -> (status:
        u32)
        requires
            old(self).sessions@.contains(session) ==> call_requires(release, ()),
        ensures
            if !old(self).sessions@.contains(session) {
                &&& status == STATUS_STALE_HANDLE
                &&& final(self).model() == old(self).model()
            } else {
                &&& call_ensures(release, (), status)
                &&& final(self).model() == (PumpModel {
                    sessions: if cleanup::settled(status) {
                        old(self).sessions@.remove(session)
                    } else {
                        old(self).sessions@
                    },
                    ..old(self).model()
                })
            },
    {
        if !self.sessions.contains(&session) {
            return STATUS_STALE_HANDLE;
        }
        let status: u32 = release();
        if cleanup::is_settled(status) {
            self.sessions.remove(&session);
            assert(self.sessions@ =~= old(self).sessions@.remove(session));
        }
        status
    }

    /// Takes the outcome of a spawn. A session that was started is tracked.
    pub fn after_spawn_start(&mut self, status: u32, session: u64)
        ensures
            final(self).model() == (PumpModel {
                sessions: if status == STATUS_OK {
                    old(self).sessions@.insert(session)
                } else {
                    old(self).sessions@
                },
                ..old(self).model()
            }),
    {
        if status == STATUS_OK {
            self.sessions.insert(session);
        }
    }

    /// Begins the cleanup: no event is posted any more. The result says whether anything is
    /// to be done.
    pub fn begin_cleanup(&mut self) -> (needed: bool)
        ensures
            needed == !old(self).cleaned,
            final(self).model() == (PumpModel {
                stopping: old(self).stopping || needed,
                ..old(self).model()
            }),
    {
        if self.cleaned {
            return false;
        }
        self.stopping = true;
        true
    }

    /// The tokens that are outstanding and the sessions that are tracked, each once.
    pub fn snapshot(&self) -> (result: (Vec<u64>, Vec<u64>))
        ensures
            result.0@.to_set() == self.outstanding@,
            result.0@.no_duplicates(),
            result.1@.to_set() == self.sessions@,
            result.1@.no_duplicates(),
    {
        (members(&self.outstanding), members(&self.sessions))
    }

    /// Takes the outcomes of giving tokens back. The result is the status of the last one
    /// that failed.
    pub fn settle_events(&mut self, tokens: &Vec<u64>, statuses: &Vec<u32>) -> (status: u32)
        requires
            tokens@.len() == statuses@.len(),
        ensures
            status == last_failure(statuses@),
            final(self).model() == (PumpModel {
                outstanding: without_settled(old(self).outstanding@, tokens@, statuses@),
                ..old(self).model()
            }),
    {
        let mut status: u32 = STATUS_OK;
        for index in 0..tokens.len()
            invariant
                tokens@.len() == statuses@.len(),
                status == last_failure(statuses@.take(index as int)),
                self.model() == (PumpModel {
                    outstanding: without_settled(
                        old(self).outstanding@,
                        tokens@.take(index as int),
                        statuses@.take(index as int),
                    ),
                    ..old(self).model()
                }),
        {
            proof {
                assert(statuses@.take(index + 1).drop_last() =~= statuses@.take(index as int));
                assert(tokens@.take(index + 1).drop_last() =~= tokens@.take(index as int));
            }
            let ghost before = self.outstanding@;
            if cleanup::is_settled(statuses[index]) {
                self.outstanding.remove(&tokens[index]);
                assert(self.outstanding@ =~= before.remove(tokens@[index as int]));
            } else {
                status = statuses[index];
            }
        }
        proof {
            assert(statuses@.take(statuses@.len() as int) =~= statuses@);
            assert(tokens@.take(tokens@.len() as int) =~= tokens@);
        }
        status
    }

    /// Takes the outcomes of giving sessions back. The result is the status of the last one
    /// that failed.
    pub fn settle_sessions(&mut self, sessions: &Vec<u64>, statuses: &Vec<u32>) -> (status: u32)
        requires
            sessions@.len() == statuses@.len(),
        ensures
            status == last_failure(statuses@),
            final(self).model() == (PumpModel {
                sessions: without_settled(old(self).sessions@, sessions@, statuses@),
                ..old(self).model()
            }),
    {
        let mut status: u32 = STATUS_OK;
        for index in 0..sessions.len()
            invariant
                sessions@.len() == statuses@.len(),
                status == last_failure(statuses@.take(index as int)),
                self.model() == (PumpModel {
                    sessions: without_settled(
                        old(self).sessions@,
                        sessions@.take(index as int),
                        statuses@.take(index as int),
                    ),
                    ..old(self).model()
                }),
        {
            proof {
                assert(statuses@.take(index + 1).drop_last() =~= statuses@.take(index as int));
                assert(sessions@.take(index + 1).drop_last() =~= sessions@.take(index as int));
            }
            let ghost before = self.sessions@;
            if cleanup::is_settled(statuses[index]) {
                self.sessions.remove(&sessions[index]);
                assert(self.sessions@ =~= before.remove(sessions@[index as int]));
            } else {
                status = statuses[index];
            }
        }
        proof {
            assert(statuses@.take(statuses@.len() as int) =~= statuses@);
            assert(sessions@.take(sessions@.len() as int) =~= sessions@);
        }
        status
    }

    /// What the cleanup came to so far: a shutdown that failed outranks a session that could
    /// not be given back, and that outranks a token.
    pub fn cleanup_status(shutdown: u32, events: u32, sessions: u32) -> (status: u32)
        ensures
            status == if shutdown != STATUS_OK {
                shutdown
            } else if sessions != STATUS_OK {
                sessions
            } else {
                events
            },
    {
        if shutdown != STATUS_OK {
            shutdown
        } else if sessions != STATUS_OK {
            sessions
        } else {
            events
        }
    }

    /// Takes the outcome of giving the pump's hold on its runtime back. The result says
    /// whether the runtime itself can be released.
    pub fn after_retained_release(&mut self, status: u32) -> (proceed: bool)
        ensures
            proceed == (!old(self).runtime_retained || cleanup::settled(status)),
            final(self).model() == (PumpModel {
                runtime_retained: old(self).runtime_retained && !proceed,
                ..old(self).model()
            }),
    {
        if !self.runtime_retained {
            return true;
        }
        if !cleanup::is_settled(status) {
            return false;
        }
        self.runtime_retained = false;
        true
    }

    /// Takes the outcome of the runtime's release: the pump is clean once that succeeded.
    pub fn after_runtime_release(&mut self, status: u32)
        ensures
            final(self).model() == (PumpModel {
                cleaned: old(self).cleaned || status == STATUS_OK,
                ..old(self).model()
            }),
    {
        if status == STATUS_OK {
            self.cleaned = true;
        }
    }
}

/// The members of a set, each once.
fn members(set: &HashSet<u64>) -> (list: Vec<u64>)
    ensures
        list@.to_set() == set@,
        list@.no_duplicates(),
{
    let mut list: Vec<u64> = Vec::new();
    let ghost keys = vstd::std_specs::iter::IteratorSpec::remaining(&set.iter());
    for member in iter: set.iter()
        invariant
            iter.seq() == keys,
            list@.len() == iter.index(),
            forall|i: int| 0 <= i < list@.len() ==> list@[i] == *keys[i],
    {
        list.push(*member);
    }
    assert(list@ =~= keys.unref());
    list
}

/// The last status that is a failure.
pub open spec fn last_failure(statuses: Seq<u32>) -> u32
    decreases statuses.len(),
{
    if statuses.len() == 0 {
        STATUS_OK
    } else if cleanup::settled(statuses.last()) {
        last_failure(statuses.drop_last())
    } else {
        statuses.last()
    }
}

/// A set without those members that were given back.
pub open spec fn without_settled(set: Set<u64>, members: Seq<u64>, statuses: Seq<u32>) -> Set<u64>
    decreases members.len(),
{
    if members.len() == 0 {
        set
    } else {
        let rest = without_settled(set, members.drop_last(), statuses.drop_last());
        if cleanup::settled(statuses.last()) {
            rest.remove(members.last())
        } else {
            rest
        }
    }
}

/// Exactly what was given back leaves the set: what could not be given back stays with the
/// pump for another try.
pub proof fn only_settled_leaves(set: Set<u64>, members: Seq<u64>, statuses: Seq<u32>, member: u64)
    requires
        members.len() == statuses.len(),
    ensures
        without_settled(set, members, statuses).contains(member) == (set.contains(member)
            && !exists|i: int|
            0 <= i < members.len() && #[trigger] members[i] == member && cleanup::settled(
                statuses[i],
            )),
    decreases members.len(),
{
    if members.len() > 0 {
        let front = members.drop_last();
        let earlier = statuses.drop_last();
        let last = members.len() - 1;
        only_settled_leaves(set, front, earlier, member);
        if exists|i: int|
            0 <= i < front.len() && #[trigger] front[i] == member && cleanup::settled(earlier[i]) {
            let i = choose|i: int|
                0 <= i < front.len() && #[trigger] front[i] == member && cleanup::settled(
                    earlier[i],
                );
            assert(members[i] == member && cleanup::settled(statuses[i]));
        }
        if exists|i: int|
            0 <= i < members.len() && #[trigger] members[i] == member && cleanup::settled(
                statuses[i],
            ) {
            let i = choose|i: int|
                0 <= i < members.len() && #[trigger] members[i] == member && cleanup::settled(
                    statuses[i],
                );
            if i < last {
                assert(front[i] == member && cleanup::settled(earlier[i]));
            }
        }
        if members[last] == member && cleanup::settled(statuses[last]) {
            assert(members[last] == member);
        }
    }
}

/// A cleanup that gives everything back leaves the pump with nothing.
pub proof fn complete_cleanup_empties(set: Set<u64>, members: Seq<u64>, statuses: Seq<u32>)
    requires
        members.len() == statuses.len(),
        members.to_set() == set,
        forall|i: int| 0 <= i < statuses.len() ==> cleanup::settled(#[trigger] statuses[i]),
    ensures
        without_settled(set, members, statuses) == Set::<u64>::empty(),
{
    assert forall|member: u64| !without_settled(set, members, statuses).contains(member) by {
        only_settled_leaves(set, members, statuses, member);
        if set.contains(member) {
            assert(members.to_set().contains(member));
            let i = choose|i: int| 0 <= i < members.len() && members[i] == member;
            assert(cleanup::settled(statuses[i]));
        }
    }
    assert(without_settled(set, members, statuses) =~= Set::<u64>::empty());
}

} // verus!
