//! The objects behind the C interface: runtimes, sessions and leased events.
//!
//! Callers hold all three by handle. Each operation decides from the handles alone what
//! the engine is asked, and what its answer comes to.
use crate::buffer;
use crate::c_api::{
    self, Error, Event, Platform, Reply, RuntimeOptions, Size, ERROR_CLOSED, ERROR_DOMAIN_INPUT,
    ERROR_DOMAIN_OUTPUT, ERROR_DOMAIN_RUNTIME, ERROR_DOMAIN_STATE, ERROR_INFRASTRUCTURE_LOST,
    ERROR_NATIVE_FAILURE, ERROR_QUEUE_FULL, ERROR_UNSUPPORTED, EVENT_CLOSE_COMPLETE, EVENT_EXIT,
    EVENT_INFRASTRUCTURE_FAILED, EVENT_INPUT_FAILED, EVENT_MODE_CHANGED, EVENT_OUTPUT,
    EVENT_OUTPUT_DONE, EVENT_OUTPUT_FAILED, EVENT_SIZE, EVENT_SPAWN_FAILED, EVENT_SPAWN_READY,
    OPERATION_CLOSE, OPERATION_METADATA, OPERATION_OUTPUT, OPERATION_RESIZE,
    OPERATION_RUNTIME_CREATE, OPERATION_RUNTIME_SHUTDOWN, OPERATION_SPAWN, OPERATION_TERMINATE,
    OPERATION_WRITE, STATUS_BACKPRESSURE, STATUS_BUSY, STATUS_CLOSED, STATUS_END_OF_STREAM,
    STATUS_OK, STATUS_STALE_HANDLE, STATUS_UNSUPPORTED, STATUS_WRONG_STATE,
};
use crate::c_spawn::{self, SpawnOptions};
use crate::engine_event::Notice;
use crate::fault::IoError;
use crate::registry::{self, Registry};
use crate::spawn::BrokerSpawn;
use bytes::Bytes;
use std::collections::HashMap;
use vstd::prelude::*;

verus! {

broadcast use vstd::std_specs::hash::group_hash_axioms;

/// Where a session stands. An active one has a handle in the engine.
#[derive(Clone, Copy, Debug, PartialEq, Eq, Structural)]
pub enum SessionState {
    Spawning,
    Activating,
    Active(u64),
    Closed,
    Failed,
    Released,
}

/// A session and the runtime that it belongs to.
#[derive(Clone, Copy, Debug, PartialEq, Eq, Structural)]
pub struct SessionEntry {
    pub runtime: u64,
    pub state: SessionState,
    pub close_started: bool,
    pub output_cancelled: bool,
}

/// A runtime, with the sessions that its engine's handles stand for.
pub struct RuntimeEntry {
    pub sessions: HashMap<u64, u64>,
    pub session_count: usize,
    pub event_count: usize,
    pub shut_down: bool,
    pub consuming: bool,
}

/// What a runtime holds.
pub ghost struct RuntimeModel {
    pub sessions: Map<u64, u64>,
    pub session_count: nat,
    pub event_count: nat,
    pub shut_down: bool,
    pub consuming: bool,
}

impl RuntimeEntry {
    /// What the runtime holds.
    pub open spec fn model(&self) -> RuntimeModel {
        RuntimeModel {
            sessions: self.sessions@,
            session_count: self.session_count as nat,
            event_count: self.event_count as nat,
            shut_down: self.shut_down,
            consuming: self.consuming,
        }
    }
}

/// Output that a caller has not released.
pub struct EventLease {
    pub runtime: u64,
    pub engine_handle: u64,
    pub bytes: Bytes,
}

/// A session of an engine.
#[derive(Clone, Copy, Debug, PartialEq, Eq, Structural)]
pub struct Target {
    pub runtime: u64,
    pub engine_handle: u64,
}

/// The sessions of a runtime.
pub open spec fn sessions_of(runtime: u64) -> spec_fn(SessionEntry) -> bool {
    |entry: SessionEntry| entry.runtime == runtime
}

/// The leases of a runtime.
pub open spec fn leases_of(runtime: u64) -> spec_fn(EventLease) -> bool {
    |lease: EventLease| lease.runtime == runtime
}

/// All runtimes, sessions and leased events.
pub struct Adapter {
    pub runtimes: Registry<RuntimeEntry>,
    pub sessions: Registry<SessionEntry>,
    pub events: Registry<EventLease>,
}

impl Adapter {
    /// What a runtime's handle names.
    pub open spec fn runtime(&self, handle: u64) -> Option<RuntimeModel> {
        match self.runtimes.resolve(handle) {
            Some(entry) => Some(entry.model()),
            None => None,
        }
    }

    /// What a session's handle names.
    pub open spec fn session(&self, handle: u64) -> Option<SessionEntry> {
        self.sessions.resolve(handle)
    }

    /// How many sessions a runtime has.
    pub open spec fn session_total(&self, runtime: u64) -> nat {
        registry::tally(self.sessions.slots@, sessions_of(runtime))
    }

    /// How many leased events a runtime has.
    pub open spec fn event_total(&self, runtime: u64) -> nat {
        registry::tally(self.events.slots@, leases_of(runtime))
    }

    /// The session that an engine's handle stands for.
    pub open spec fn public(&self, runtime: u64, engine_handle: u64) -> Option<u64> {
        match self.runtime(runtime) {
            Some(entry) => if entry.sessions.contains_key(engine_handle) {
                Some(entry.sessions[engine_handle])
            } else {
                None
            },
            None => None,
        }
    }

    /// Whether a runtime's counts are those of its sessions and leases; one that is gone
    /// has none.
    pub open spec fn counts_ok(&self, runtime: u64) -> bool {
        match self.runtime(runtime) {
            Some(entry) => entry.session_count == self.session_total(runtime) && entry.event_count
                == self.event_total(runtime),
            None => self.session_total(runtime) == 0 && self.event_total(runtime) == 0,
        }
    }

    /// Whether an engine's handle that stands for a session stands for one that is active
    /// under it.
    pub open spec fn route_ok(&self, runtime: u64, engine_handle: u64) -> bool {
        self.public(runtime, engine_handle) matches Some(handle) ==> {
            &&& self.session(handle) matches Some(entry)
            &&& entry.runtime == runtime
            &&& entry.state == SessionState::Active(engine_handle)
        }
    }

    /// The adapter's invariant: every count is exact, and every engine handle that is
    /// known leads to a live session of its runtime that is active under it.
    pub open spec fn wf(&self) -> bool {
        &&& self.runtimes.wf()
        &&& self.sessions.wf()
        &&& self.events.wf()
        &&& forall|runtime: u64| #[trigger] self.counts_ok(runtime)
        &&& forall|runtime: u64, engine_handle: u64| #[trigger]
            self.route_ok(runtime, engine_handle)
    }

    /// Whether every runtime but one is as it was.
    pub open spec fn other_runtimes_same(&self, before: &Adapter, runtime: u64) -> bool {
        forall|other: u64|
            other != runtime ==> #[trigger] self.runtime(other) == before.runtime(other)
    }

    /// Whether every session but one is as it was.
    pub open spec fn other_sessions_same(&self, before: &Adapter, session: u64) -> bool {
        forall|other: u64|
            other != session ==> #[trigger] self.session(other) == before.session(other)
    }

    /// Whether every runtime is as it was.
    pub open spec fn runtimes_same(&self, before: &Adapter) -> bool {
        forall|other: u64| #[trigger] self.runtime(other) == before.runtime(other)
    }

    /// Whether every session is as it was.
    pub open spec fn sessions_same(&self, before: &Adapter) -> bool {
        forall|other: u64| #[trigger] self.session(other) == before.session(other)
    }

    /// Whether every lease is as it was.
    pub open spec fn events_same(&self, before: &Adapter) -> bool {
        self.events == before.events
    }

    /// Whether nothing changed.
    pub open spec fn same(&self, before: &Adapter) -> bool {
        self.runtimes_same(before) && self.sessions_same(before) && self.events_same(before)
    }

    /// An adapter without objects.
    pub fn new() -> (adapter: Adapter)
        ensures
            adapter.wf(),
            forall|handle: u64| #[trigger] adapter.runtime(handle) is None,
            forall|handle: u64| #[trigger] adapter.session(handle) is None,
    {
        Adapter { runtimes: Registry::new(), sessions: Registry::new(), events: Registry::new() }
    }

    /// Adds a runtime.
    pub fn insert_runtime(&mut self) -> (handle: u64)
        requires
            old(self).wf(),
            old(self).runtimes.slots@.len() < u32::MAX,
        ensures
            final(self).wf(),
            old(self).runtime(handle) is None,
            final(self).runtime(handle) == Some(fresh_runtime()),
            final(self).other_runtimes_same(old(self), handle),
            final(self).sessions_same(old(self)),
            final(self).events_same(old(self)),
    {
        let entry = RuntimeEntry {
            sessions: HashMap::new(),
            session_count: 0,
            event_count: 0,
            shut_down: false,
            consuming: false,
        };
        let handle: u64 = self.runtimes.insert(entry);
        proof {
            assert(old(self).runtime(handle) is None);
            assert forall|runtime: u64| #[trigger] self.counts_ok(runtime) by {
                assert(old(self).counts_ok(runtime));
            }
            assert forall|runtime: u64, engine_handle: u64| #[trigger]
                self.route_ok(runtime, engine_handle) by {
                assert(old(self).route_ok(runtime, engine_handle));
            }
        }
        handle
    }
}

/// A runtime that has just been made.
pub open spec fn fresh_runtime() -> RuntimeModel {
    RuntimeModel {
        sessions: Map::empty(),
        session_count: 0,
        event_count: 0,
        shut_down: false,
        consuming: false,
    }
}

/// A session that has just been started.
pub open spec fn fresh_session(runtime: u64) -> SessionEntry {
    SessionEntry {
        runtime,
        state: SessionState::Spawning,
        close_started: false,
        output_cancelled: false,
    }
}

/// A session's runtime is there as long as the session is: a runtime cannot be released
/// under its sessions.
pub proof fn sessions_keep_their_runtime(adapter: &Adapter, session: u64)
    requires
        adapter.wf(),
        adapter.session(session) is Some,
    ensures
        adapter.runtime(adapter.session(session).unwrap().runtime) is Some,
{
    let runtime = adapter.session(session).unwrap().runtime;
    registry::tally_counts(adapter.sessions.slots@, session, sessions_of(runtime));
    assert(adapter.counts_ok(runtime));
}

/// What the event loop does next.
#[derive(Debug, PartialEq, Eq)]
pub enum Next {
    /// Receive the next notice.
    Receive,
    /// Give the engine's session up, then receive.
    Abandon(u64),
    /// Have the engine activate the session of this request.
    Activate { request: u64, engine_handle: u64 },
    /// Hand this event to the caller.
    Deliver(Event),
    /// Give the session up, and hand this event to the caller.
    AbandonAndDeliver(u64, Event),
    /// Answer without an event.
    Finish(Reply),
}

/// An event about a session.
pub open spec fn event_of(struct_size: u32, session: u64, kind: u32) -> Event {
    Event { session, kind, ..c_api::empty_event(struct_size) }
}

/// The event that a notice other than of a spawn is shown as, with the token of its
/// lease.
pub open spec fn shown(struct_size: u32, session: u64, notice: Notice, token: u64) -> Event {
    match notice {
        Notice::Output { bytes, .. } => Event {
            data_length: buffer::bytes_of(bytes).len() as u64,
            token,
            ..event_of(struct_size, session, EVENT_OUTPUT)
        },
        Notice::InputFailed(_) => Event {
            error: c_api::error_of(ERROR_DOMAIN_INPUT, ERROR_NATIVE_FAILURE, OPERATION_WRITE, 0),
            ..event_of(struct_size, session, EVENT_INPUT_FAILED)
        },
        Notice::OutputFailed(_) => Event {
            error: c_api::error_of(ERROR_DOMAIN_OUTPUT, ERROR_NATIVE_FAILURE, OPERATION_OUTPUT, 0),
            ..event_of(struct_size, session, EVENT_OUTPUT_FAILED)
        },
        Notice::BrokerLost(_) => Event {
            error: c_api::error_of(
                ERROR_DOMAIN_RUNTIME,
                ERROR_INFRASTRUCTURE_LOST,
                OPERATION_OUTPUT,
                0,
            ),
            ..event_of(struct_size, session, EVENT_INFRASTRUCTURE_FAILED)
        },
        Notice::OutputDone(_) => event_of(struct_size, session, EVENT_OUTPUT_DONE),
        Notice::Exit { status, .. } => Event {
            value: status,
            ..event_of(struct_size, session, EVENT_EXIT)
        },
        Notice::Closed { result, .. } => Event {
            flags: c_api::close_flags_of(result),
            error: c_api::close_error_of(result),
            ..event_of(struct_size, session, EVENT_CLOSE_COMPLETE)
        },
        Notice::ModeChanged { modes, .. } => Event {
            value: c_api::mode_bits_of(modes) as i64,
            ..event_of(struct_size, session, EVENT_MODE_CHANGED)
        },
        _ => event_of(struct_size, session, 0),
    }
}

impl Adapter {
    /// Changes the state of a session.
    fn set_state(&mut self, session: u64, state: SessionState)
        requires
            old(self).wf(),
            old(self).session(session) is Some,
        ensures
            final(self).runtimes == old(self).runtimes,
            final(self).events == old(self).events,
            final(self).sessions.wf(),
            final(self).sessions.slots@.len() == old(self).sessions.slots@.len(),
            final(self).session(session) == Some(
                SessionEntry { state, ..old(self).session(session).unwrap() },
            ),
            final(self).other_sessions_same(old(self), session),
            forall|runtime: u64| #[trigger]
                final(self).session_total(runtime) == old(self).session_total(runtime),
    {
        let ghost changed = SessionEntry { state, ..self.session(session).unwrap() };
        let ghost slots = self.sessions.slots@;
        match self.sessions.get_mut(session) {
            Some(entry) => {
                entry.state = state;
            },
            None => {},
        }
        proof {
            assert(self.sessions.slots@ == registry::replaced(slots, session, changed));
            assert forall|runtime: u64| #[trigger]
                self.session_total(runtime) == old(self).session_total(runtime) by {
                registry::tally_replaced(slots, session, changed, sessions_of(runtime));
            }
        }
    }

    /// Checks a call for the next event and takes the place of its consumer.
    pub fn begin_next_event(&mut self, runtime: u64, event: Option<&Event>) -> (reply: Reply)
        requires
            old(self).wf(),
        ensures
            final(self).wf(),
            final(self).sessions_same(old(self)),
            final(self).events_same(old(self)),
            reply == if event is None || event.unwrap().struct_size < EVENT_SIZE {
                c_api::invalid(OPERATION_OUTPUT)
            } else if event.unwrap().token != 0 {
                c_api::misplaced(STATUS_WRONG_STATE, OPERATION_OUTPUT)
            } else if old(self).runtime(runtime) is None {
                c_api::stale(OPERATION_OUTPUT)
            } else if old(self).runtime(runtime).unwrap().consuming {
                c_api::misplaced(STATUS_BUSY, OPERATION_OUTPUT)
            } else {
                c_api::done()
            },
            if reply.status == STATUS_OK {
                &&& final(self).runtime(runtime) == Some(
                    RuntimeModel { consuming: true, ..old(self).runtime(runtime).unwrap() },
                )
                &&& final(self).other_runtimes_same(old(self), runtime)
            } else {
                final(self).runtimes_same(old(self))
            },
    {
        match event {
            Some(event) => {
                if event.struct_size < EVENT_SIZE {
                    return Reply::invalid(OPERATION_OUTPUT);
                }
                if event.token != 0 {
                    return Reply::misplaced(STATUS_WRONG_STATE, OPERATION_OUTPUT);
                }
            },
            None => {
                return Reply::invalid(OPERATION_OUTPUT);
            },
        }
        let reply = match self.runtimes.get_mut(runtime) {
            Some(entry) => {
                if entry.consuming {
                    Reply::misplaced(STATUS_BUSY, OPERATION_OUTPUT)
                } else {
                    entry.consuming = true;
                    Reply::done()
                }
            },
            None => Reply::stale(OPERATION_OUTPUT),
        };
        proof {
            self.keeps_wf(old(self), runtime);
        }
        reply
    }

    /// Gives the place of the consumer of events back.
    pub fn end_next_event(&mut self, runtime: u64)
        requires
            old(self).wf(),
        ensures
            final(self).wf(),
            final(self).sessions_same(old(self)),
            final(self).events_same(old(self)),
            final(self).other_runtimes_same(old(self), runtime),
            final(self).runtime(runtime) == match old(self).runtime(runtime) {
                Some(entry) => Some(RuntimeModel { consuming: false, ..entry }),
                None => None,
            },
    {
        match self.runtimes.get_mut(runtime) {
            Some(entry) => {
                entry.consuming = false;
            },
            None => {},
        }
        proof {
            self.keeps_wf(old(self), runtime);
        }
    }

    /// The invariant stays when one runtime keeps its routes and counts.
    proof fn keeps_wf(&self, before: &Adapter, runtime: u64)
        requires
            before.wf(),
            self.runtimes.wf(),
            self.sessions == before.sessions,
            self.events == before.events,
            self.other_runtimes_same(before, runtime),
            match (self.runtime(runtime), before.runtime(runtime)) {
                (Some(after), Some(entry)) => {
                    &&& after.sessions == entry.sessions
                    &&& after.session_count == entry.session_count
                    &&& after.event_count == entry.event_count
                },
                (None, None) => true,
                _ => false,
            },
        ensures
            self.wf(),
    {
        assert forall|other: u64| #[trigger] self.counts_ok(other) by {
            assert(before.counts_ok(other));
            assert(self.runtime(other) is Some == before.runtime(other) is Some);
        }
        assert forall|other: u64, engine_handle: u64| #[trigger]
            self.route_ok(other, engine_handle) by {
            assert(before.route_ok(other, engine_handle));
            assert(self.public(other, engine_handle) == before.public(other, engine_handle));
            if let Some(handle) = self.public(other, engine_handle) {
                assert(self.session(handle) == before.session(handle));
            }
        }
    }
}

/// Whether a session waits for its spawn in a runtime.
pub open spec fn awaits_spawn(adapter: &Adapter, runtime: u64, request: u64) -> bool {
    &&& adapter.session(request) matches Some(entry)
    &&& entry.runtime == runtime
    &&& entry.state is Spawning
}

/// Whether exactly the state of one session changed.
pub open spec fn state_set(
    before: &Adapter,
    after: &Adapter,
    session: u64,
    state: SessionState,
) -> bool {
    &&& after.session(session) == Some(
        SessionEntry { state, ..before.session(session).unwrap() },
    )
    &&& after.other_sessions_same(before, session)
    &&& after.events_same(before)
}

/// What a notice does that is not of a spawn, for the session that it is about.
pub open spec fn notice_taken(
    before: &Adapter,
    after: &Adapter,
    next: &Next,
    runtime: u64,
    struct_size: u32,
    route: u64,
    notice: Notice,
    session: u64,
) -> bool {
    match notice {
        Notice::Output { bytes, .. } => {
            let token = registry::next_handle(before.events.slots@, before.events.free@);
            &&& *next == Next::Deliver(shown(struct_size, session, notice, token))
            &&& before.events.resolve(token) is None
            &&& after.events.resolve(token) == Some(
                EventLease { runtime, engine_handle: route, bytes },
            )
            &&& forall|other: u64|
                other != token ==> #[trigger] after.events.resolve(other)
                    == before.events.resolve(other)
            &&& after.sessions_same(before)
            &&& after.other_runtimes_same(before, runtime)
            &&& after.runtime(runtime) == Some(
                RuntimeModel {
                    event_count: before.runtime(runtime).unwrap().event_count + 1,
                    ..before.runtime(runtime).unwrap()
                },
            )
        },
        Notice::Closed { .. } => {
            &&& *next == Next::Deliver(shown(struct_size, session, notice, 0))
            &&& state_set(before, after, session, SessionState::Closed)
            &&& after.other_runtimes_same(before, runtime)
            &&& after.runtime(runtime) == Some(
                RuntimeModel {
                    sessions: before.runtime(runtime).unwrap().sessions.remove(route),
                    ..before.runtime(runtime).unwrap()
                },
            )
        },
        _ => {
            &&& *next == Next::Deliver(shown(struct_size, session, notice, 0))
            &&& after.same(before)
        },
    }
}

impl Adapter {
    /// No route leads to a session that is not active.
    proof fn inactive_is_unrouted(&self, session: u64)
        requires
            self.wf(),
            self.session(session) matches Some(entry) && !(entry.state is Active),
        ensures
            forall|runtime: u64, engine_handle: u64| #[trigger]
                self.public(runtime, engine_handle) != Some(session),
    {
        assert forall|runtime: u64, engine_handle: u64| #[trigger]
            self.public(runtime, engine_handle) != Some(session) by {
            assert(self.route_ok(runtime, engine_handle));
        }
    }

    /// Changes the state of a session that is not active to another such state.
    fn move_inactive(&mut self, session: u64, state: SessionState)
        requires
            old(self).wf(),
            old(self).session(session) matches Some(entry) && !(entry.state is Active),
            !(state is Active),
        ensures
            final(self).wf(),
            state_set(old(self), final(self), session, state),
            final(self).runtimes_same(old(self)),
            final(self).runtimes == old(self).runtimes,
    {
        proof {
            self.inactive_is_unrouted(session);
        }
        self.set_state(session, state);
        proof {
            assert forall|other: u64| #[trigger] self.counts_ok(other) by {
                assert(old(self).counts_ok(other));
                assert(self.session_total(other) == old(self).session_total(other));
            }
            assert forall|other: u64, engine_handle: u64| #[trigger]
                self.route_ok(other, engine_handle) by {
                assert(old(self).route_ok(other, engine_handle));
                assert(self.public(other, engine_handle) == old(self).public(other, engine_handle));
                if let Some(handle) = self.public(other, engine_handle) {
                    assert(self.session(handle) == old(self).session(handle));
                }
            }
        }
    }

    /// The session that an engine's handle stands for.
    fn public_handle(&self, runtime: u64, engine_handle: u64) -> (session: Option<u64>)
        ensures
            session == self.public(runtime, engine_handle),
    {
        match self.runtimes.get(runtime) {
            Some(entry) => match entry.sessions.get(&engine_handle) {
                Some(session) => Some(*session),
                None => None,
            },
            None => None,
        }
    }

    /// Leases output to the caller.
    fn lease_output(&mut self, runtime: u64, engine_handle: u64, bytes: Bytes) -> (token: u64)
        requires
            old(self).wf(),
            old(self).runtime(runtime) is Some,
            old(self).events.slots@.len() < u32::MAX,
        ensures
            final(self).wf(),
            token == registry::next_handle(old(self).events.slots@, old(self).events.free@),
            old(self).events.resolve(token) is None,
            final(self).events.resolve(token) == Some(EventLease { runtime, engine_handle, bytes }),
            forall|other: u64|
                other != token ==> #[trigger] final(self).events.resolve(other) == old(self).events.resolve(other),
            final(self).sessions_same(old(self)),
            final(self).other_runtimes_same(old(self), runtime),
            final(self).runtime(runtime) == Some(
                RuntimeModel {
                    event_count: old(self).runtime(runtime).unwrap().event_count + 1,
                    ..old(self).runtime(runtime).unwrap()
                },
            ),
    {
        let ghost lease = EventLease { runtime, engine_handle, bytes };
        let ghost slots = self.events.slots@;
        let ghost free = self.events.free@;
        proof {
            assert(self.counts_ok(runtime));
            registry::tally_bound(slots, leases_of(runtime));
        }
        let token: u64 = self.events.insert(EventLease { runtime, engine_handle, bytes });
        match self.runtimes.get_mut(runtime) {
            Some(entry) => {
                entry.event_count = entry.event_count + 1;
            },
            None => {},
        }
        proof {
            assert forall|other: u64| #[trigger] self.counts_ok(other) by {
                assert(old(self).counts_ok(other));
                registry::tally_inserted(slots, free, u32::MAX, lease, leases_of(other));
                assert(leases_of(other)(lease) == (other == runtime));
            }
            assert forall|other: u64, other_handle: u64| #[trigger]
                self.route_ok(other, other_handle) by {
                assert(old(self).route_ok(other, other_handle));
                assert(self.public(other, other_handle) == old(self).public(other, other_handle));
                if let Some(handle) = self.public(other, other_handle) {
                    assert(self.session(handle) == old(self).session(handle));
                }
            }
        }
        token
    }

    /// Marks the session that an engine's handle stands for as closed, and forgets the
    /// handle.
    fn close_route(&mut self, runtime: u64, engine_handle: u64, session: u64)
        requires
            old(self).wf(),
            old(self).public(runtime, engine_handle) == Some(session),
        ensures
            final(self).wf(),
            state_set(old(self), final(self), session, SessionState::Closed),
            final(self).other_runtimes_same(old(self), runtime),
            final(self).runtime(runtime) == Some(
                RuntimeModel {
                    sessions: old(self).runtime(runtime).unwrap().sessions.remove(engine_handle),
                    ..old(self).runtime(runtime).unwrap()
                },
            ),
    {
        proof {
            assert(self.route_ok(runtime, engine_handle));
        }
        self.set_state(session, SessionState::Closed);
        let ghost marked = *self;
        self.forget_route(runtime, engine_handle);
        proof {
            assert forall|other: u64| #[trigger] self.session(other) == marked.session(other) by {}
            assert forall|other: u64| #[trigger] self.counts_ok(other) by {
                assert(old(self).counts_ok(other));
                assert(marked.session_total(other) == old(self).session_total(other));
                assert(marked.runtime(other) == old(self).runtime(other));
            }
            assert forall|other: u64, other_handle: u64| #[trigger]
                self.route_ok(other, other_handle) by {
                assert(old(self).route_ok(other, other_handle));
                if let Some(handle) = self.public(other, other_handle) {
                    assert(old(self).public(other, other_handle) == Some(handle));
                    assert(handle != session);
                    assert(marked.session(handle) == old(self).session(handle));
                }
            }
        }
    }

    /// Forgets an engine's handle.
    fn forget_route(&mut self, runtime: u64, engine_handle: u64)
        requires
            old(self).runtimes.wf(),
        ensures
            final(self).runtimes.wf(),
            final(self).sessions == old(self).sessions,
            final(self).events == old(self).events,
            final(self).other_runtimes_same(old(self), runtime),
            final(self).runtime(runtime) == match old(self).runtime(runtime) {
                Some(entry) => Some(
                    RuntimeModel { sessions: entry.sessions.remove(engine_handle), ..entry },
                ),
                None => None,
            },
            final(self).runtimes.slots@.len() == old(self).runtimes.slots@.len(),
    {
        match self.runtimes.get_mut(runtime) {
            Some(entry) => {
                let ghost known = entry.sessions@;
                entry.sessions.remove(&engine_handle);
                assert(entry.sessions@ =~= known.remove(engine_handle));
            },
            None => {},
        }
    }

    /// Takes a notice that came over a route, or the end of all notices.
    pub fn take_notice(
        &mut self,
        runtime: u64,
        struct_size: u32,
        route: u64,
        notice: Option<Notice>,
    ) -> (next: Next)
        requires
            old(self).wf(),
            old(self).events.slots@.len() < u32::MAX,
        ensures
            final(self).wf(),
            match notice {
                None => next == Next::Finish(c_api::plain(STATUS_END_OF_STREAM)) && final(self).same(old(self)),
                Some(Notice::SpawnReady { request, handle }) => if awaits_spawn(
                    old(self),
                    runtime,
                    request,
                ) {
                    &&& next == (Next::Activate { request, engine_handle: handle })
                    &&& state_set(old(self), final(self), request, SessionState::Activating)
                    &&& final(self).runtimes_same(old(self))
                } else {
                    next == Next::Abandon(handle) && final(self).same(old(self))
                },
                Some(Notice::SpawnFailed { request, failure }) => if awaits_spawn(
                    old(self),
                    runtime,
                    request,
                ) {
                    &&& next == Next::Deliver(
                        Event {
                            error: c_api::failure_error_of(OPERATION_SPAWN, failure),
                            ..event_of(struct_size, request, EVENT_SPAWN_FAILED)
                        },
                    )
                    &&& state_set(old(self), final(self), request, SessionState::Failed)
                    &&& final(self).runtimes_same(old(self))
                } else {
                    next == Next::Receive && final(self).same(old(self))
                },
                Some(other) => match old(self).public(runtime, route) {
                    Some(session) => notice_taken(
                        old(self),
                        final(self),
                        &next,
                        runtime,
                        struct_size,
                        route,
                        other,
                        session,
                    ),
                    None => next == Next::Receive && final(self).same(old(self)),
                },
            },
    {
        match notice {
            None => Next::Finish(Reply::plain(STATUS_END_OF_STREAM)),
            Some(Notice::SpawnReady { request, handle }) => {
                if !self.is_spawning(runtime, request) {
                    return Next::Abandon(handle);
                }
                self.move_inactive(request, SessionState::Activating);
                Next::Activate { request, engine_handle: handle }
            },
            Some(Notice::SpawnFailed { request, failure }) => {
                if !self.is_spawning(runtime, request) {
                    return Next::Receive;
                }
                self.move_inactive(request, SessionState::Failed);
                let mut event = Event::empty(struct_size);
                event.session = request;
                event.kind = EVENT_SPAWN_FAILED;
                event.error = c_api::failure_error(OPERATION_SPAWN, failure);
                Next::Deliver(event)
            },
            Some(other) => {
                let session: u64 = match self.public_handle(runtime, route) {
                    Some(session) => session,
                    None => {
                        return Next::Receive;
                    },
                };
                let mut event = Event::empty(struct_size);
                event.session = session;
                self.populate_event(runtime, route, other, session, event)
            },
        }
    }

    /// Whether a session waits for its spawn in a runtime.
    fn is_spawning(&self, runtime: u64, request: u64) -> (spawning: bool)
        ensures
            spawning == awaits_spawn(self, runtime, request),
    {
        match self.sessions.get(request) {
            Some(entry) => entry.runtime == runtime && entry.state == SessionState::Spawning,
            None => false,
        }
    }

    /// Shows a notice that is not of a spawn as an event of its session.
    fn populate_event(
        &mut self,
        runtime: u64,
        route: u64,
        notice: Notice,
        session: u64,
        event: Event,
    ) -> (next: Next)
        requires
            old(self).wf(),
            old(self).events.slots@.len() < u32::MAX,
            old(self).public(runtime, route) == Some(session),
            event == (Event { session, ..c_api::empty_event(event.struct_size) }),
            !(notice is SpawnReady),
            !(notice is SpawnFailed),
        ensures
            final(self).wf(),
            notice_taken(
                old(self),
                final(self),
                &next,
                runtime,
                event.struct_size,
                route,
                notice,
                session,
            ),
    {
        let mut event = event;
        match notice {
            Notice::Output { handle: _, bytes } => {
                event.kind = EVENT_OUTPUT;
                event.data_length = bytes.len() as u64;
                event.token = self.lease_output(runtime, route, bytes);
            },
            Notice::InputFailed(_) => {
                event.kind = EVENT_INPUT_FAILED;
                event.error = Error::value(
                    ERROR_DOMAIN_INPUT,
                    ERROR_NATIVE_FAILURE,
                    OPERATION_WRITE,
                    0,
                );
            },
            Notice::OutputFailed(_) => {
                event.kind = EVENT_OUTPUT_FAILED;
                event.error = Error::value(
                    ERROR_DOMAIN_OUTPUT,
                    ERROR_NATIVE_FAILURE,
                    OPERATION_OUTPUT,
                    0,
                );
            },
            Notice::BrokerLost(_) => {
                event.kind = EVENT_INFRASTRUCTURE_FAILED;
                event.error = Error::value(
                    ERROR_DOMAIN_RUNTIME,
                    ERROR_INFRASTRUCTURE_LOST,
                    OPERATION_OUTPUT,
                    0,
                );
            },
            Notice::OutputDone(_) => {
                event.kind = EVENT_OUTPUT_DONE;
            },
            Notice::Exit { handle: _, status } => {
                event.kind = EVENT_EXIT;
                event.value = status;
            },
            Notice::Closed { handle: _, result } => {
                event.kind = EVENT_CLOSE_COMPLETE;
                event.flags = c_api::close_flags(result);
                event.error = c_api::close_error(result);
                self.close_route(runtime, route, session);
            },
            Notice::ModeChanged { handle: _, modes } => {
                event.kind = EVENT_MODE_CHANGED;
                event.value = c_api::mode_bits(modes) as i64;
            },
            Notice::SpawnReady { .. } | Notice::SpawnFailed { .. } => {},
        }
        Next::Deliver(event)
    }
}

/// Whether a session waits for its activation in a runtime.
pub open spec fn awaits_activation(adapter: &Adapter, runtime: u64, request: u64) -> bool {
    &&& adapter.session(request) matches Some(entry)
    &&& entry.runtime == runtime
    &&& entry.state is Activating
}

/// The answer to a write that its session's engine was asked for.
pub open spec fn write_reply_of(code: i64) -> Reply {
    if code == 1 {
        c_api::done()
    } else if code == 0 {
        Reply {
            status: STATUS_BACKPRESSURE,
            error: c_api::error_of(ERROR_DOMAIN_INPUT, ERROR_QUEUE_FULL, OPERATION_WRITE, 0),
        }
    } else if code == -1 {
        Reply {
            status: STATUS_CLOSED,
            error: c_api::error_of(ERROR_DOMAIN_INPUT, ERROR_CLOSED, OPERATION_WRITE, 0),
        }
    } else {
        c_api::lost(OPERATION_WRITE)
    }
}

/// The answer to a write that its session's engine was asked for: accepted, no room, or
/// no input any more.
pub fn write_reply(code: i64) -> (reply: Reply)
    ensures
        reply == write_reply_of(code),
{
    if code == 1 {
        Reply::done()
    } else if code == 0 {
        Reply {
            status: STATUS_BACKPRESSURE,
            error: Error::value(ERROR_DOMAIN_INPUT, ERROR_QUEUE_FULL, OPERATION_WRITE, 0),
        }
    } else if code == -1 {
        Reply {
            status: STATUS_CLOSED,
            error: Error::value(ERROR_DOMAIN_INPUT, ERROR_CLOSED, OPERATION_WRITE, 0),
        }
    } else {
        Reply::lost(OPERATION_WRITE)
    }
}

/// The answer to an operation that the engine did or did not do.
pub fn control_reply(operation: u32, accepted: bool) -> (reply: Reply)
    ensures
        reply == if accepted {
            c_api::done()
        } else {
            c_api::refused(operation)
        },
{
    if accepted {
        Reply::done()
    } else {
        Reply::refused(operation)
    }
}

/// The answer to a signal, and whether it was delivered where that is known.
pub fn terminate_reply(delivered: Option<bool>) -> (result: (Reply, Option<u32>))
    ensures
        match delivered {
            Some(value) => result == (c_api::done(), Some(
                if value {
                    1u32
                } else {
                    0u32
                },
            )),
            None => result == (c_api::refused(OPERATION_TERMINATE), None::<u32>),
        },
{
    match delivered {
        Some(value) => (
            Reply::done(),
            Some(
                if value {
                    1u32
                } else {
                    0u32
                },
            ),
        ),
        None => (Reply::refused(OPERATION_TERMINATE), None),
    }
}

/// A spawn that was taken: its session, its configuration and the capacities.
#[derive(Debug)]
pub struct SpawnTaken {
    pub session: u64,
    pub config: BrokerSpawn<u8>,
    pub input_capacity: usize,
    pub output_capacity: usize,
}

/// What the release of a session comes to: the answer, the caller's handle afterwards,
/// and the engine's session to give up.
#[derive(Clone, Copy, Debug, PartialEq, Eq)]
pub struct SessionReleased {
    pub reply: Reply,
    pub session: u64,
    pub abandon: Option<Target>,
}

/// What the release of an event comes to: the answer, the caller's event afterwards, and
/// the output to credit.
#[derive(Clone, Copy, Debug, PartialEq, Eq)]
pub struct EventReleased {
    pub reply: Reply,
    pub event: Option<Event>,
    pub credit: Option<(Target, usize)>,
}

impl Adapter {
    /// Takes the engine's answer to an activation. The session may have been released
    /// meanwhile.
    pub fn after_activate(
        &mut self,
        runtime: u64,
        struct_size: u32,
        request: u64,
        engine_handle: u64,
        activated: bool,
    ) -> (next: Next)
        requires
            old(self).wf(),
        ensures
            final(self).wf(),
            if !activated {
                &&& next == Next::AbandonAndDeliver(
                    engine_handle,
                    Event {
                        error: c_api::lost(OPERATION_SPAWN).error,
                        ..event_of(struct_size, request, EVENT_SPAWN_FAILED)
                    },
                )
                &&& final(self).runtimes_same(old(self))
                &&& if awaits_activation(old(self), runtime, request) {
                    state_set(old(self), final(self), request, SessionState::Failed)
                } else {
                    final(self).sessions_same(old(self)) && final(self).events_same(old(self))
                }
            } else if awaits_activation(old(self), runtime, request) {
                &&& next == Next::Deliver(event_of(struct_size, request, EVENT_SPAWN_READY))
                &&& state_set(
                    old(self),
                    final(self),
                    request,
                    SessionState::Active(engine_handle),
                )
                &&& final(self).other_runtimes_same(old(self), runtime)
                &&& old(self).runtime(runtime) is Some
                &&& final(self).runtime(runtime) == Some(
                    RuntimeModel {
                        sessions: old(self).runtime(runtime).unwrap().sessions.insert(
                            engine_handle,
                            request,
                        ),
                        ..old(self).runtime(runtime).unwrap()
                    },
                )
            } else {
                next == Next::Abandon(engine_handle) && final(self).same(old(self))
            },
    {
        let waiting = match self.sessions.get(request) {
            Some(entry) => entry.runtime == runtime && entry.state == SessionState::Activating,
            None => false,
        };
        if !activated {
            if waiting {
                self.move_inactive(request, SessionState::Failed);
            }
            let mut event = Event::empty(struct_size);
            event.session = request;
            event.kind = EVENT_SPAWN_FAILED;
            event.error = Error::value(
                ERROR_DOMAIN_RUNTIME,
                ERROR_INFRASTRUCTURE_LOST,
                OPERATION_SPAWN,
                0,
            );
            return Next::AbandonAndDeliver(engine_handle, event);
        }
        if !waiting {
            return Next::Abandon(engine_handle);
        }
        proof {
            sessions_keep_their_runtime(self, request);
            self.inactive_is_unrouted(request);
        }
        self.set_state(request, SessionState::Active(engine_handle));
        let ghost marked = *self;
        match self.runtimes.get_mut(runtime) {
            Some(entry) => {
                entry.sessions.insert(engine_handle, request);
            },
            None => {},
        }
        proof {
            assert forall|other: u64| #[trigger] self.session(other) == marked.session(other) by {}
            assert forall|other: u64| #[trigger] self.counts_ok(other) by {
                assert(old(self).counts_ok(other));
                assert(marked.session_total(other) == old(self).session_total(other));
                assert(marked.runtime(other) == old(self).runtime(other));
            }
            assert forall|other: u64, other_handle: u64| #[trigger]
                self.route_ok(other, other_handle) by {
                assert(old(self).route_ok(other, other_handle));
                if let Some(handle) = self.public(other, other_handle) {
                    if other == runtime && other_handle == engine_handle {
                        assert(handle == request);
                    } else {
                        assert(old(self).public(other, other_handle) == Some(handle));
                        assert(handle != request);
                        assert(marked.session(handle) == old(self).session(handle));
                    }
                }
            }
        }
        let mut event = Event::empty(struct_size);
        event.session = request;
        event.kind = EVENT_SPAWN_READY;
        Next::Deliver(event)
    }

    /// Checks a call for a runtime: the broker that it names, or none where that is found
    /// by default.
    pub fn begin_create(has_destination: bool, options: Option<&RuntimeOptions>) -> (result: Result<
        Option<Vec<u8>>,
        Reply,
    >)
        requires
            options matches Some(options) ==> options.broker_path.readable(),
        ensures
            ({
                let path = c_api::broker_path_of(
                    match options {
                        Some(options) => Some(*options),
                        None => None,
                    },
                );
                match result {
                    Ok(Some(bytes)) => has_destination && path == Ok::<Option<Seq<u8>>, ()>(
                        Some(bytes@),
                    ),
                    Ok(None) => has_destination && path == Ok::<Option<Seq<u8>>, ()>(None),
                    Err(reply) => (!has_destination || path is Err) && reply == c_api::invalid(
                        OPERATION_RUNTIME_CREATE,
                    ),
                }
            }),
    {
        if !has_destination {
            return Err(Reply::invalid(OPERATION_RUNTIME_CREATE));
        }
        match c_api::runtime_broker_path(options) {
            Ok(path) => Ok(path),
            Err(()) => Err(Reply::invalid(OPERATION_RUNTIME_CREATE)),
        }
    }

    /// Takes the engine that was made for a runtime: whether its notices can be received.
    pub fn after_create(&mut self, created: Result<bool, IoError>) -> (result: (Reply, u64))
        requires
            old(self).wf(),
            old(self).runtimes.slots@.len() < u32::MAX,
        ensures
            final(self).wf(),
            match created {
                Ok(true) => {
                    &&& result.0 == c_api::done()
                    &&& old(self).runtime(result.1) is None
                    &&& final(self).runtime(result.1) == Some(fresh_runtime())
                    &&& final(self).other_runtimes_same(old(self), result.1)
                    &&& final(self).sessions_same(old(self))
                    &&& final(self).events_same(old(self))
                },
                Ok(false) => result == (c_api::lost(OPERATION_RUNTIME_CREATE), 0u64) && final(self).same(old(self)),
                Err(failure) => result == (
                    c_api::io_reply(OPERATION_RUNTIME_CREATE, failure.kind, failure.code),
                    0u64,
                ) && final(self).same(old(self)),
            },
    {
        match created {
            Ok(true) => {
                let handle: u64 = self.insert_runtime();
                (Reply::done(), handle)
            },
            Ok(false) => (Reply::lost(OPERATION_RUNTIME_CREATE), 0),
            Err(failure) => {
                let (status, error): (u32, Error) = c_api::io_error(
                    OPERATION_RUNTIME_CREATE,
                    &failure,
                );
                (Reply { status, error }, 0)
            },
        }
    }

    /// What a runtime can do.
    pub fn ptyx_runtime_capabilities(
        &self,
        runtime: u64,
        has_output: bool,
        platform: Platform,
    ) -> (result: Result<u32, Reply>)
        ensures
            result == if !has_output {
                Err(c_api::invalid(OPERATION_METADATA))
            } else if self.runtime(runtime) is None {
                Err(c_api::stale(OPERATION_METADATA))
            } else {
                Ok(c_api::capabilities_of(platform))
            },
    {
        if !has_output {
            return Err(Reply::invalid(OPERATION_METADATA));
        }
        if self.runtimes.get(runtime).is_none() {
            return Err(Reply::stale(OPERATION_METADATA));
        }
        Ok(c_api::capabilities(platform))
    }

    /// Whether a runtime's engine is to be shut down.
    pub fn begin_shutdown(&self, runtime: u64) -> (result: Result<bool, Reply>)
        ensures
            result == match self.runtime(runtime) {
                Some(entry) => Ok(!entry.shut_down),
                None => Err(c_api::stale(OPERATION_RUNTIME_SHUTDOWN)),
            },
    {
        match self.runtimes.get(runtime) {
            Some(entry) => Ok(!entry.shut_down),
            None => Err(Reply::stale(OPERATION_RUNTIME_SHUTDOWN)),
        }
    }

    /// Takes the engine's answer to a shutdown.
    pub fn after_shutdown(&mut self, runtime: u64, accepted: bool) -> (reply: Reply)
        requires
            old(self).wf(),
        ensures
            final(self).wf(),
            final(self).sessions_same(old(self)),
            final(self).events_same(old(self)),
            final(self).other_runtimes_same(old(self), runtime),
            if accepted {
                &&& reply == c_api::done()
                &&& final(self).runtime(runtime) == match old(self).runtime(runtime) {
                    Some(entry) => Some(RuntimeModel { shut_down: true, ..entry }),
                    None => None,
                }
            } else {
                &&& reply == c_api::lost(OPERATION_RUNTIME_SHUTDOWN)
                &&& final(self).runtime(runtime) == old(self).runtime(runtime)
            },
    {
        if !accepted {
            return Reply::lost(OPERATION_RUNTIME_SHUTDOWN);
        }
        match self.runtimes.get_mut(runtime) {
            Some(entry) => {
                entry.shut_down = true;
            },
            None => {},
        }
        proof {
            self.keeps_wf(old(self), runtime);
        }
        Reply::done()
    }

    /// Releases a runtime that is shut down and has neither sessions nor leased events.
    /// The second part of the result is the caller's handle afterwards.
    pub fn ptyx_runtime_release(&mut self, runtime: Option<u64>) -> (result: (Reply, Option<u64>))
        requires
            old(self).wf(),
        ensures
            final(self).wf(),
            final(self).sessions_same(old(self)),
            final(self).events_same(old(self)),
            match runtime {
                None => result == (c_api::invalid(OPERATION_RUNTIME_SHUTDOWN), None::<u64>)
                    && final(self).runtimes_same(old(self)),
                Some(handle) => if handle == 0 {
                    result == (c_api::done(), Some(0u64)) && final(self).runtimes_same(old(self))
                } else {
                    match old(self).runtime(handle) {
                        None => result == (c_api::stale(OPERATION_RUNTIME_SHUTDOWN), runtime)
                            && final(self).runtimes_same(old(self)),
                        Some(entry) => if !entry.shut_down || entry.session_count != 0
                            || entry.event_count != 0 {
                            &&& result == (
                                c_api::misplaced(STATUS_BUSY, OPERATION_RUNTIME_SHUTDOWN),
                                runtime,
                            )
                            &&& final(self).runtimes_same(old(self))
                        } else {
                            &&& result == (c_api::done(), Some(0u64))
                            &&& final(self).runtime(handle) is None
                            &&& final(self).other_runtimes_same(old(self), handle)
                        },
                    }
                },
            },
    {
        let handle: u64 = match runtime {
            Some(handle) => handle,
            None => {
                return (Reply::invalid(OPERATION_RUNTIME_SHUTDOWN), None);
            },
        };
        if handle == 0 {
            return (Reply::done(), Some(0));
        }
        match self.runtimes.get(handle) {
            Some(entry) => {
                if !entry.shut_down || entry.session_count != 0 || entry.event_count != 0 {
                    return (Reply::misplaced(STATUS_BUSY, OPERATION_RUNTIME_SHUTDOWN), runtime);
                }
            },
            None => {
                return (Reply::stale(OPERATION_RUNTIME_SHUTDOWN), runtime);
            },
        }
        proof {
            assert(self.counts_ok(handle));
        }
        let _removed = self.runtimes.remove(handle);
        proof {
            assert forall|other: u64| #[trigger] self.counts_ok(other) by {
                assert(old(self).counts_ok(other));
            }
            assert forall|other: u64, engine_handle: u64| #[trigger]
                self.route_ok(other, engine_handle) by {
                assert(old(self).route_ok(other, engine_handle));
                if let Some(session) = self.public(other, engine_handle) {
                    assert(old(self).public(other, engine_handle) == Some(session));
                    assert(self.session(session) == old(self).session(session));
                }
            }
        }
        (Reply::done(), Some(0))
    }
}

/// The engine's session of an active session.
pub open spec fn target_of(adapter: &Adapter, session: u64) -> Option<Target> {
    match adapter.session(session) {
        Some(entry) => match entry.state {
            SessionState::Active(engine_handle) => Some(
                Target { runtime: entry.runtime, engine_handle },
            ),
            _ => None,
        },
        None => None,
    }
}

/// The engine's session that an operation on a session is for, or its answer.
pub open spec fn required(adapter: &Adapter, session: u64, operation: u32) -> Result<
    Target,
    Reply,
> {
    if adapter.session(session) is None {
        Err(c_api::stale(operation))
    } else {
        match target_of(adapter, session) {
            Some(target) => Ok(target),
            None => Err(c_api::misplaced(STATUS_WRONG_STATE, operation)),
        }
    }
}

/// A spawn for a runtime that is shut down.
pub open spec fn spawn_after_shutdown() -> Reply {
    Reply {
        status: STATUS_CLOSED,
        error: c_api::error_of(ERROR_DOMAIN_STATE, ERROR_CLOSED, OPERATION_SPAWN, 0),
    }
}

impl Adapter {
    /// Adds a session to a runtime.
    fn insert_session(&mut self, runtime: u64) -> (session: u64)
        requires
            old(self).wf(),
            old(self).runtime(runtime) is Some,
            old(self).sessions.slots@.len() < u32::MAX,
        ensures
            final(self).wf(),
            old(self).session(session) is None,
            final(self).session(session) == Some(fresh_session(runtime)),
            final(self).other_sessions_same(old(self), session),
            final(self).events_same(old(self)),
            final(self).other_runtimes_same(old(self), runtime),
            final(self).runtime(runtime) == Some(
                RuntimeModel {
                    session_count: old(self).runtime(runtime).unwrap().session_count + 1,
                    ..old(self).runtime(runtime).unwrap()
                },
            ),
    {
        let entry = SessionEntry {
            runtime,
            state: SessionState::Spawning,
            close_started: false,
            output_cancelled: false,
        };
        let ghost slots = self.sessions.slots@;
        let ghost free = self.sessions.free@;
        proof {
            assert(self.counts_ok(runtime));
            registry::tally_bound(slots, sessions_of(runtime));
        }
        let session: u64 = self.sessions.insert(entry);
        match self.runtimes.get_mut(runtime) {
            Some(found) => {
                found.session_count = found.session_count + 1;
            },
            None => {},
        }
        proof {
            assert(old(self).session(session) is None);
            assert forall|other: u64| #[trigger] self.counts_ok(other) by {
                assert(old(self).counts_ok(other));
                registry::tally_inserted(slots, free, u32::MAX, entry, sessions_of(other));
                assert(sessions_of(other)(entry) == (other == runtime));
            }
            assert forall|other: u64, other_handle: u64| #[trigger]
                self.route_ok(other, other_handle) by {
                assert(old(self).route_ok(other, other_handle));
                assert(self.public(other, other_handle) == old(self).public(other, other_handle));
                if let Some(handle) = self.public(other, other_handle) {
                    assert(handle != session);
                    assert(self.session(handle) == old(self).session(handle));
                }
            }
        }
        session
    }

    /// Takes a session that is not active out of its runtime.
    fn remove_session(&mut self, session: u64)
        requires
            old(self).wf(),
            old(self).session(session) matches Some(entry) && !(entry.state is Active),
        ensures
            final(self).wf(),
            final(self).session(session) is None,
            final(self).other_sessions_same(old(self), session),
            final(self).events_same(old(self)),
            ({
                let runtime = old(self).session(session).unwrap().runtime;
                &&& old(self).runtime(runtime) matches Some(entry)
                &&& entry.session_count > 0
                &&& final(self).other_runtimes_same(old(self), runtime)
                &&& final(self).runtime(runtime) == Some(
                    RuntimeModel { session_count: (entry.session_count - 1) as nat, ..entry },
                )
            }),
    {
        let ghost slots = self.sessions.slots@;
        let ghost removed = self.session(session).unwrap();
        proof {
            self.inactive_is_unrouted(session);
            sessions_keep_their_runtime(self, session);
            registry::tally_counts(slots, session, sessions_of(removed.runtime));
            assert(self.counts_ok(removed.runtime));
        }
        if let Some(entry) = self.sessions.remove(session) {
            match self.runtimes.get_mut(entry.runtime) {
                Some(found) => {
                    found.session_count = found.session_count - 1;
                },
                None => {},
            }
        }
        proof {
            assert forall|other: u64| #[trigger] self.counts_ok(other) by {
                assert(old(self).counts_ok(other));
                registry::tally_removed(slots, session, u32::MAX, sessions_of(other));
                assert(sessions_of(other)(removed) == (other == removed.runtime));
            }
            assert forall|other: u64, other_handle: u64| #[trigger]
                self.route_ok(other, other_handle) by {
                assert(old(self).route_ok(other, other_handle));
                assert(self.public(other, other_handle) == old(self).public(other, other_handle));
                if let Some(handle) = self.public(other, other_handle) {
                    assert(handle != session);
                    assert(self.session(handle) == old(self).session(handle));
                }
            }
        }
    }

    /// Checks a spawn and gives it a session.
    pub fn begin_spawn(
        &mut self,
        runtime: u64,
        has_destination: bool,
        options: Option<&SpawnOptions>,
    ) -> (result: Result<SpawnTaken, Reply>)
        requires
            old(self).wf(),
            old(self).sessions.slots@.len() < u32::MAX,
            options matches Some(options) ==> options.readable(),
        ensures
            final(self).wf(),
            final(self).events_same(old(self)),
            match result {
                Ok(taken) => {
                    &&& has_destination
                    &&& options matches Some(options)
                    &&& options.accepted()
                    &&& options.describes(&taken.config)
                    &&& taken.input_capacity == options.input_capacity
                    &&& taken.output_capacity == options.output_capacity
                    &&& old(self).runtime(runtime) matches Some(entry)
                    &&& !entry.shut_down
                    &&& old(self).session(taken.session) is None
                    &&& final(self).session(taken.session) == Some(fresh_session(runtime))
                    &&& final(self).other_sessions_same(old(self), taken.session)
                    &&& final(self).other_runtimes_same(old(self), runtime)
                    &&& final(self).runtime(runtime) == Some(
                        RuntimeModel { session_count: entry.session_count + 1, ..entry },
                    )
                },
                Err(reply) => {
                    &&& final(self).same(old(self))
                    &&& if !has_destination || options is None {
                        reply == c_api::invalid(OPERATION_SPAWN)
                    } else if old(self).runtime(runtime) is None {
                        reply == c_api::stale(OPERATION_SPAWN)
                    } else if old(self).runtime(runtime).unwrap().shut_down {
                        reply == spawn_after_shutdown()
                    } else {
                        !options.unwrap().accepted() && reply == c_api::invalid(OPERATION_SPAWN)
                    }
                },
            },
    {
        if !has_destination {
            return Err(Reply::invalid(OPERATION_SPAWN));
        }
        let options = match options {
            Some(options) => options,
            None => {
                return Err(Reply::invalid(OPERATION_SPAWN));
            },
        };
        match self.runtimes.get(runtime) {
            Some(entry) => {
                if entry.shut_down {
                    return Err(
                        Reply {
                            status: STATUS_CLOSED,
                            error: Error::value(
                                ERROR_DOMAIN_STATE,
                                ERROR_CLOSED,
                                OPERATION_SPAWN,
                                0,
                            ),
                        },
                    );
                }
            },
            None => {
                return Err(Reply::stale(OPERATION_SPAWN));
            },
        }
        match c_spawn::spawn_config(options) {
            Ok((config, input_capacity, output_capacity)) => {
                let session: u64 = self.insert_session(runtime);
                Ok(SpawnTaken { session, config, input_capacity, output_capacity })
            },
            Err(()) => Err(Reply::invalid(OPERATION_SPAWN)),
        }
    }

    /// Takes the engine's answer to a spawn. A session whose spawn could not be started is
    /// forgotten. The second part of the result is the caller's handle.
    pub fn after_spawn_start(&mut self, session: u64, started: Result<(), IoError>) -> (result: (
        Reply,
        u64,
    ))
        requires
            old(self).wf(),
            started is Err ==> (old(self).session(session) matches Some(entry) && !(entry.state
                is Active)),
        ensures
            final(self).wf(),
            final(self).events_same(old(self)),
            match started {
                Ok(()) => result == (c_api::done(), session) && final(self).same(old(self)),
                Err(failure) => {
                    let runtime = old(self).session(session).unwrap().runtime;
                    &&& result == (
                        c_api::io_reply(OPERATION_SPAWN, failure.kind, failure.code),
                        0u64,
                    )
                    &&& final(self).session(session) is None
                    &&& final(self).other_sessions_same(old(self), session)
                    &&& old(self).runtime(runtime) matches Some(entry)
                    &&& final(self).other_runtimes_same(old(self), runtime)
                    &&& final(self).runtime(runtime) == Some(
                        RuntimeModel { session_count: (entry.session_count - 1) as nat, ..entry },
                    )
                },
            },
    {
        match started {
            Ok(()) => (Reply::done(), session),
            Err(failure) => {
                self.remove_session(session);
                let (status, error): (u32, Error) = c_api::io_error(OPERATION_SPAWN, &failure);
                (Reply { status, error }, 0)
            },
        }
    }

    /// The engine's session of an active session, or the status of its lack.
    pub fn active_session(&self, session: u64) -> (result: Result<Target, u32>)
        ensures
            result == if self.session(session) is None {
                Err(STATUS_STALE_HANDLE)
            } else {
                match target_of(self, session) {
                    Some(target) => Ok(target),
                    None => Err(STATUS_WRONG_STATE),
                }
            },
    {
        match self.sessions.get(session) {
            Some(entry) => match entry.state {
                SessionState::Active(engine_handle) => Ok(
                    Target { runtime: entry.runtime, engine_handle },
                ),
                _ => Err(STATUS_WRONG_STATE),
            },
            None => Err(STATUS_STALE_HANDLE),
        }
    }

    /// The engine's session of an active session, or the status of its lack. A write does
    /// not wait where the objects are held elsewhere.
    pub fn active_session_for_write(&self, session: u64, contended: bool) -> (result: Result<
        Target,
        u32,
    >)
        ensures
            result == if contended {
                Err(STATUS_BACKPRESSURE)
            } else if self.session(session) is None {
                Err(STATUS_STALE_HANDLE)
            } else {
                match target_of(self, session) {
                    Some(target) => Ok(target),
                    None => Err(STATUS_WRONG_STATE),
                }
            },
    {
        if contended {
            return Err(STATUS_BACKPRESSURE);
        }
        self.active_session(session)
    }

    /// The engine's session that an operation on a session is for, or its answer.
    pub fn require_active(&self, session: u64, operation: u32) -> (result: Result<Target, Reply>)
        ensures
            result == required(self, session, operation),
    {
        match self.active_session(session) {
            Ok(target) => Ok(target),
            Err(status) => {
                if status == STATUS_STALE_HANDLE {
                    Err(Reply::stale(operation))
                } else {
                    Err(Reply::misplaced(STATUS_WRONG_STATE, operation))
                }
            },
        }
    }

    /// Checks a write: the engine's session to ask, none where there is nothing to write,
    /// or the answer.
    pub fn begin_write(
        &self,
        session: u64,
        length: u64,
        has_bytes: bool,
        contended: bool,
        controls: &mut TestControls,
    ) -> (result: Result<Option<Target>, Reply>)
        ensures
            ({
                let readable = length <= isize::MAX && (length == 0 || has_bytes);
                let failing = old(controls).fail_next_write;
                &&& final(controls).fail_next_write == (failing && !readable)
                &&& final(controls).spawn_delay_ms == old(controls).spawn_delay_ms
                &&& final(controls).spawn_delay_active == old(controls).spawn_delay_active
                &&& result == if !readable {
                    Err(c_api::invalid(OPERATION_WRITE))
                } else if failing {
                    Err(c_api::lost(OPERATION_WRITE))
                } else if contended {
                    Err(write_reply_of(0))
                } else {
                    match required(self, session, OPERATION_WRITE) {
                        Ok(target) => Ok(
                            if length == 0 {
                                None
                            } else {
                                Some(target)
                            },
                        ),
                        Err(reply) => Err(reply),
                    }
                }
            }),
    {
        if let Err(reply) = check_write(length, has_bytes, controls) {
            return Err(reply);
        }
        match self.active_session_for_write(session, contended) {
            Ok(target) => {
                if length == 0 {
                    Ok(None)
                } else {
                    Ok(Some(target))
                }
            },
            Err(status) => {
                if status == STATUS_BACKPRESSURE {
                    Err(write_reply(0))
                } else if status == STATUS_STALE_HANDLE {
                    Err(Reply::stale(OPERATION_WRITE))
                } else {
                    Err(Reply::misplaced(STATUS_WRONG_STATE, OPERATION_WRITE))
                }
            },
        }
    }

    /// Checks the end of a session's output: the engine's session to ask, none where its
    /// output is over already, or the answer.
    pub fn begin_cancel_output(&self, session: u64) -> (result: Result<Option<Target>, Reply>)
        ensures
            result == match self.session(session) {
                Some(entry) => if entry.output_cancelled {
                    Ok(None)
                } else {
                    match required(self, session, OPERATION_OUTPUT) {
                        Ok(target) => Ok(Some(target)),
                        Err(reply) => Err(reply),
                    }
                },
                None => Err(c_api::stale(OPERATION_OUTPUT)),
            },
    {
        match self.sessions.get(session) {
            Some(entry) => {
                if entry.output_cancelled {
                    return Ok(None);
                }
            },
            None => {},
        }
        match self.require_active(session, OPERATION_OUTPUT) {
            Ok(target) => Ok(Some(target)),
            Err(reply) => Err(reply),
        }
    }

    /// Takes the engine's answer to the end of a session's output.
    pub fn after_cancel_output(&mut self, session: u64, accepted: bool) -> (reply: Reply)
        requires
            old(self).wf(),
        ensures
            final(self).wf(),
            final(self).runtimes_same(old(self)),
            final(self).events_same(old(self)),
            final(self).other_sessions_same(old(self), session),
            if accepted {
                &&& reply == c_api::done()
                &&& final(self).session(session) == match old(self).session(session) {
                    Some(entry) => Some(SessionEntry { output_cancelled: true, ..entry }),
                    None => None,
                }
            } else {
                &&& reply == c_api::misplaced(STATUS_WRONG_STATE, OPERATION_OUTPUT)
                &&& final(self).session(session) == old(self).session(session)
            },
    {
        if !accepted {
            return Reply::misplaced(STATUS_WRONG_STATE, OPERATION_OUTPUT);
        }
        let ghost slots = self.sessions.slots@;
        match self.sessions.get_mut(session) {
            Some(entry) => {
                entry.output_cancelled = true;
            },
            None => {},
        }
        proof {
            self.keeps_wf_of_session(old(self), session);
        }
        Reply::done()
    }

    /// The invariant stays when one session keeps its runtime and state.
    proof fn keeps_wf_of_session(&self, before: &Adapter, session: u64)
        requires
            before.wf(),
            self.runtimes == before.runtimes,
            self.events == before.events,
            self.sessions.wf(),
            self.other_sessions_same(before, session),
            match (self.session(session), before.session(session)) {
                (Some(after), Some(entry)) => {
                    &&& after.runtime == entry.runtime
                    &&& after.state == entry.state
                    &&& self.sessions.slots@ == registry::replaced(
                        before.sessions.slots@,
                        session,
                        after,
                    )
                },
                (None, None) => self.sessions == before.sessions,
                _ => false,
            },
        ensures
            self.wf(),
    {
        assert forall|other: u64| #[trigger] self.counts_ok(other) by {
            assert(before.counts_ok(other));
            if let Some(after) = self.session(session) {
                registry::tally_replaced(
                    before.sessions.slots@,
                    session,
                    after,
                    sessions_of(other),
                );
            }
        }
        assert forall|other: u64, engine_handle: u64| #[trigger]
            self.route_ok(other, engine_handle) by {
            assert(before.route_ok(other, engine_handle));
            if let Some(handle) = self.public(other, engine_handle) {
                assert(before.public(other, engine_handle) == Some(handle));
                if handle != session {
                    assert(self.session(handle) == before.session(handle));
                }
            }
        }
    }

    /// Checks a new size for a session's terminal.
    pub fn begin_resize(&self, session: u64, size: Option<Size>) -> (result: Result<Target, Reply>)
        ensures
            result == if size is None || !size.unwrap().ok() {
                Err(c_api::invalid(OPERATION_RESIZE))
            } else {
                required(self, session, OPERATION_RESIZE)
            },
    {
        match size {
            Some(size) => {
                if !size.is_valid() {
                    return Err(Reply::invalid(OPERATION_RESIZE));
                }
            },
            None => {
                return Err(Reply::invalid(OPERATION_RESIZE));
            },
        }
        self.require_active(session, OPERATION_RESIZE)
    }

    /// Checks a signal for a session.
    pub fn begin_terminate(&self, session: u64, has_destination: bool) -> (result: Result<
        Target,
        Reply,
    >)
        ensures
            result == if !has_destination {
                Err(c_api::invalid(OPERATION_TERMINATE))
            } else {
                required(self, session, OPERATION_TERMINATE)
            },
    {
        if !has_destination {
            return Err(Reply::invalid(OPERATION_TERMINATE));
        }
        self.require_active(session, OPERATION_TERMINATE)
    }

    /// Checks a change of whether a session's modes are observed.
    pub fn begin_observe_mode(&self, session: u64, enabled: u32, platform: Platform) -> (result:
        Result<Target, Reply>)
        ensures
            result == if enabled > 1 {
                Err(c_api::invalid(OPERATION_METADATA))
            } else {
                match required(self, session, OPERATION_METADATA) {
                    Ok(target) => match platform {
                        Platform::Unix => Ok(target),
                        Platform::Windows => Err(
                            Reply {
                                status: STATUS_UNSUPPORTED,
                                error: c_api::error_of(
                                    ERROR_DOMAIN_STATE,
                                    ERROR_UNSUPPORTED,
                                    OPERATION_METADATA,
                                    0,
                                ),
                            },
                        ),
                    },
                    Err(reply) => Err(reply),
                }
            },
    {
        if enabled > 1 {
            return Err(Reply::invalid(OPERATION_METADATA));
        }
        let target = match self.require_active(session, OPERATION_METADATA) {
            Ok(target) => target,
            Err(reply) => {
                return Err(reply);
            },
        };
        proof {
            assert(23u32 & 4u32 != 0) by (bit_vector);
            assert(8u32 & 4u32 == 0) by (bit_vector);
        }
        if !c_api::has_terminal_modes(platform) {
            return Err(
                Reply {
                    status: STATUS_UNSUPPORTED,
                    error: Error::value(
                        ERROR_DOMAIN_STATE,
                        ERROR_UNSUPPORTED,
                        OPERATION_METADATA,
                        0,
                    ),
                },
            );
        }
        Ok(target)
    }

    /// Checks the close of a session: the engine's session to ask, none where it is closed
    /// or closing already, or the answer.
    pub fn begin_close(&self, session: u64) -> (result: Result<Option<Target>, Reply>)
        ensures
            result == match self.session(session) {
                Some(entry) => match entry.state {
                    SessionState::Active(engine_handle) => Ok(
                        if entry.close_started {
                            None
                        } else {
                            Some(Target { runtime: entry.runtime, engine_handle })
                        },
                    ),
                    SessionState::Closed => Ok(None),
                    _ => Err(c_api::misplaced(STATUS_WRONG_STATE, OPERATION_CLOSE)),
                },
                None => Err(c_api::stale(OPERATION_CLOSE)),
            },
    {
        match self.sessions.get(session) {
            Some(entry) => match entry.state {
                SessionState::Active(engine_handle) => {
                    if entry.close_started {
                        Ok(None)
                    } else {
                        Ok(Some(Target { runtime: entry.runtime, engine_handle }))
                    }
                },
                SessionState::Closed => Ok(None),
                _ => Err(Reply::misplaced(STATUS_WRONG_STATE, OPERATION_CLOSE)),
            },
            None => Err(Reply::stale(OPERATION_CLOSE)),
        }
    }

    /// Takes the engine's answer to the close of a session.
    pub fn after_close(&mut self, session: u64, started: Result<(), IoError>) -> (reply: Reply)
        requires
            old(self).wf(),
        ensures
            final(self).wf(),
            final(self).runtimes_same(old(self)),
            final(self).events_same(old(self)),
            final(self).other_sessions_same(old(self), session),
            match started {
                Ok(()) => {
                    &&& reply == c_api::done()
                    &&& final(self).session(session) == match old(self).session(session) {
                        Some(entry) => Some(SessionEntry { close_started: true, ..entry }),
                        None => None,
                    }
                },
                Err(failure) => {
                    &&& reply == c_api::io_reply(OPERATION_CLOSE, failure.kind, failure.code)
                    &&& final(self).session(session) == old(self).session(session)
                },
            },
    {
        match started {
            Ok(()) => {
                match self.sessions.get_mut(session) {
                    Some(entry) => {
                        entry.close_started = true;
                    },
                    None => {},
                }
                proof {
                    self.keeps_wf_of_session(old(self), session);
                }
                Reply::done()
            },
            Err(failure) => {
                let (status, error): (u32, Error) = c_api::io_error(OPERATION_CLOSE, &failure);
                Reply { status, error }
            },
        }
    }

    /// Releases a session. An active one is given up.
    pub fn ptyx_session_release(&mut self, session: Option<u64>) -> (released: SessionReleased)
        requires
            old(self).wf(),
        ensures
            final(self).wf(),
            final(self).events_same(old(self)),
            match session {
                None => released == (SessionReleased {
                    reply: c_api::invalid(OPERATION_CLOSE),
                    session: 0,
                    abandon: None,
                }) && final(self).same(old(self)),
                Some(handle) => if handle == 0 {
                    released == (SessionReleased {
                        reply: c_api::done(),
                        session: 0,
                        abandon: None,
                    }) && final(self).same(old(self))
                } else if old(self).session(handle) is None {
                    released == (SessionReleased {
                        reply: c_api::stale(OPERATION_CLOSE),
                        session: handle,
                        abandon: None,
                    }) && final(self).same(old(self))
                } else {
                    let runtime = old(self).session(handle).unwrap().runtime;
                    let target = target_of(old(self), handle);
                    &&& released == (SessionReleased {
                        reply: c_api::done(),
                        session: 0,
                        abandon: target,
                    })
                    &&& final(self).session(handle) is None
                    &&& final(self).other_sessions_same(old(self), handle)
                    &&& final(self).other_runtimes_same(old(self), runtime)
                    &&& old(self).runtime(runtime) matches Some(entry)
                    &&& final(self).runtime(runtime) == Some(
                        RuntimeModel {
                            session_count: (entry.session_count - 1) as nat,
                            sessions: match target {
                                Some(target) => entry.sessions.remove(target.engine_handle),
                                None => entry.sessions,
                            },
                            ..entry
                        },
                    )
                },
            },
    {
        let handle: u64 = match session {
            Some(handle) => handle,
            None => {
                return SessionReleased {
                    reply: Reply::invalid(OPERATION_CLOSE),
                    session: 0,
                    abandon: None,
                };
            },
        };
        if handle == 0 {
            return SessionReleased { reply: Reply::done(), session: 0, abandon: None };
        }
        let entry: SessionEntry = match self.sessions.get(handle) {
            Some(entry) => *entry,
            None => {
                return SessionReleased {
                    reply: Reply::stale(OPERATION_CLOSE),
                    session: handle,
                    abandon: None,
                };
            },
        };
        proof {
            sessions_keep_their_runtime(self, handle);
        }
        let target: Option<Target> = match entry.state {
            SessionState::Active(engine_handle) => Some(
                Target { runtime: entry.runtime, engine_handle },
            ),
            _ => None,
        };
        match target {
            Some(target) => {
                self.set_state(handle, SessionState::Released);
                let ghost marked = *self;
                self.forget_route(target.runtime, target.engine_handle);
                proof {
                    assert forall|other: u64| #[trigger]
                        self.session(other) == marked.session(other) by {}
                    assert forall|other: u64| #[trigger] self.counts_ok(other) by {
                        assert(old(self).counts_ok(other));
                        assert(marked.session_total(other) == old(self).session_total(other));
                        assert(marked.runtime(other) == old(self).runtime(other));
                    }
                    assert forall|other: u64, other_handle: u64| #[trigger]
                        self.route_ok(other, other_handle) by {
                        assert(old(self).route_ok(other, other_handle));
                        if let Some(found) = self.public(other, other_handle) {
                            assert(old(self).public(other, other_handle) == Some(found));
                            assert(found != handle);
                            assert(marked.session(found) == old(self).session(found));
                        }
                    }
                }
            },
            None => {
                self.move_inactive(handle, SessionState::Released);
            },
        }
        let ghost unrouted = *self;
        self.remove_session(handle);
        SessionReleased { reply: Reply::done(), session: 0, abandon: target }
    }

    /// Releases an event. Leased output is credited to its session.
    pub fn ptyx_event_release(&mut self, event: Option<Event>) -> (released: EventReleased)
        requires
            old(self).wf(),
        ensures
            final(self).wf(),
            final(self).sessions_same(old(self)),
            match event {
                None => released == (EventReleased {
                    reply: c_api::invalid(OPERATION_OUTPUT),
                    event: None,
                    credit: None,
                }) && final(self).same(old(self)),
                Some(value) => if value.struct_size < EVENT_SIZE {
                    released == (EventReleased {
                        reply: c_api::invalid(OPERATION_OUTPUT),
                        event,
                        credit: None,
                    }) && final(self).same(old(self))
                } else if value.token == 0 {
                    released == (EventReleased {
                        reply: c_api::done(),
                        event: Some(c_api::empty_event(value.struct_size)),
                        credit: None,
                    }) && final(self).same(old(self))
                } else {
                    match old(self).events.resolve(value.token) {
                        None => released == (EventReleased {
                            reply: c_api::stale(OPERATION_OUTPUT),
                            event,
                            credit: None,
                        }) && final(self).same(old(self)),
                        Some(lease) => {
                            &&& released.reply == c_api::done()
                            &&& released.event == Some(c_api::empty_event(value.struct_size))
                            &&& released.credit matches Some(credit)
                            &&& credit.0 == (Target {
                                runtime: lease.runtime,
                                engine_handle: lease.engine_handle,
                            })
                            &&& credit.1 == buffer::bytes_of(lease.bytes).len()
                            &&& final(self).events.resolve(value.token) is None
                            &&& forall|other: u64|
                                other != value.token ==> #[trigger] final(self).events.resolve(
                                    other,
                                ) == old(self).events.resolve(other)
                            &&& old(self).runtime(lease.runtime) matches Some(entry)
                            &&& final(self).other_runtimes_same(old(self), lease.runtime)
                            &&& final(self).runtime(lease.runtime) == Some(
                                RuntimeModel {
                                    event_count: (entry.event_count - 1) as nat,
                                    ..entry
                                },
                            )
                        },
                    }
                },
            },
    {
        let value: Event = match event {
            Some(value) => value,
            None => {
                return EventReleased {
                    reply: Reply::invalid(OPERATION_OUTPUT),
                    event: None,
                    credit: None,
                };
            },
        };
        if value.struct_size < EVENT_SIZE {
            return EventReleased { reply: Reply::invalid(OPERATION_OUTPUT), event, credit: None };
        }
        if value.token == 0 {
            return EventReleased {
                reply: Reply::done(),
                event: Some(Event::empty(value.struct_size)),
                credit: None,
            };
        }
        if self.events.get(value.token).is_none() {
            return EventReleased { reply: Reply::stale(OPERATION_OUTPUT), event, credit: None };
        }
        let ghost slots = self.events.slots@;
        let lease = match self.events.remove(value.token) {
            Some(lease) => lease,
            None => {
                return EventReleased { reply: Reply::stale(OPERATION_OUTPUT), event, credit: None };
            },
        };
        proof {
            registry::tally_counts(slots, value.token, leases_of(lease.runtime));
            assert(old(self).counts_ok(lease.runtime));
        }
        match self.runtimes.get_mut(lease.runtime) {
            Some(entry) => {
                entry.event_count = entry.event_count - 1;
            },
            None => {},
        }
        proof {
            assert forall|other: u64| #[trigger] self.counts_ok(other) by {
                assert(old(self).counts_ok(other));
                registry::tally_removed(slots, value.token, u32::MAX, leases_of(other));
                assert(leases_of(other)(lease) == (other == lease.runtime));
            }
            assert forall|other: u64, engine_handle: u64| #[trigger]
                self.route_ok(other, engine_handle) by {
                assert(old(self).route_ok(other, engine_handle));
                assert(self.public(other, engine_handle) == old(self).public(other, engine_handle));
                if let Some(handle) = self.public(other, engine_handle) {
                    assert(self.session(handle) == old(self).session(handle));
                }
            }
        }
        let length: usize = lease.bytes.len();
        EventReleased {
            reply: Reply::done(),
            event: Some(Event::empty(value.struct_size)),
            credit: Some(
                (
                    Target { runtime: lease.runtime, engine_handle: lease.engine_handle },
                    length,
                ),
            ),
        }
    }
}

/// Checks what a write was given, before anything is locked for it.
pub fn check_write(length: u64, has_bytes: bool, controls: &mut TestControls) -> (result: Result<
    (),
    Reply,
>)
    ensures
        ({
            let readable = length <= isize::MAX && (length == 0 || has_bytes);
            let failing = old(controls).fail_next_write;
            &&& *final(controls) == (TestControls {
                fail_next_write: failing && !readable,
                ..*old(controls)
            })
            &&& result == if !readable {
                Err::<(), Reply>(c_api::invalid(OPERATION_WRITE))
            } else if failing {
                Err(c_api::lost(OPERATION_WRITE))
            } else {
                Ok(())
            }
        }),
{
    if length > isize::MAX as u64 || (length != 0 && !has_bytes) {
        return Err(Reply::invalid(OPERATION_WRITE));
    }
    if controls.fail_next_write {
        controls.fail_next_write = false;
        return Err(Reply::lost(OPERATION_WRITE));
    }
    Ok(())
}

/// Faults that tests ask for.
#[derive(Clone, Copy, Debug, PartialEq, Eq, Structural)]
pub struct TestControls {
    pub spawn_delay_ms: usize,
    pub spawn_delay_active: bool,
    pub fail_next_write: bool,
}

impl Default for TestControls {
    fn default() -> (controls: Self)
        ensures
            controls == (TestControls {
                spawn_delay_ms: 0,
                spawn_delay_active: false,
                fail_next_write: false,
            }),
    {
        TestControls { spawn_delay_ms: 0, spawn_delay_active: false, fail_next_write: false }
    }
}

/// Delays the report of the next spawn.
pub fn test_delay_next_spawn(controls: &mut TestControls, milliseconds: usize)
    ensures
        *final(controls) == (TestControls { spawn_delay_ms: milliseconds, ..*old(controls) }),
{
    controls.spawn_delay_ms = milliseconds;
}

/// Whether the report of a spawn is being delayed.
pub fn test_spawn_delay_active(controls: &TestControls) -> (active: bool)
    ensures
        active == controls.spawn_delay_active,
{
    controls.spawn_delay_active
}

/// Lets the next write fail.
pub fn test_fail_next_write(controls: &mut TestControls)
    ensures
        *final(controls) == (TestControls { fail_next_write: true, ..*old(controls) }),
{
    controls.fail_next_write = true;
}

/// Whether the broker of a runtime can be killed: there is one on Unix only.
pub fn test_kill_broker(adapter: &Adapter, runtime: u64, platform: Platform) -> (kill: bool)
    ensures
        kill == (adapter.runtime(runtime) is Some && platform == Platform::Unix),
{
    match adapter.runtimes.get(runtime) {
        Some(_) => platform == Platform::Unix,
        None => false,
    }
}

/// Takes the delay that the next spawn's report gets, once.
pub fn take_spawn_delay(controls: &mut TestControls) -> (milliseconds: usize)
    ensures
        milliseconds == old(controls).spawn_delay_ms,
        *final(controls) == (TestControls {
            spawn_delay_ms: 0,
            spawn_delay_active: milliseconds != 0 || old(controls).spawn_delay_active,
            ..*old(controls)
        }),
{
    let milliseconds: usize = controls.spawn_delay_ms;
    controls.spawn_delay_ms = 0;
    if milliseconds != 0 {
        controls.spawn_delay_active = true;
    }
    milliseconds
}

/// Output that is delivered is leased: the event's token names exactly the bytes that
/// came, and their runtime cannot be released before they are.
pub proof fn output_is_leased(
    before: &Adapter,
    after: &Adapter,
    next: &Next,
    runtime: u64,
    struct_size: u32,
    route: u64,
    handle: u64,
    bytes: Bytes,
    session: u64,
)
    requires
        before.wf(),
        before.public(runtime, route) == Some(session),
        notice_taken(
            before,
            after,
            next,
            runtime,
            struct_size,
            route,
            Notice::Output { handle, bytes },
            session,
        ),
    ensures
        *next matches Next::Deliver(event) && {
            &&& event.session == session
            &&& after.events.resolve(event.token) matches Some(lease)
            &&& lease.bytes == bytes
            &&& lease.runtime == runtime
            &&& lease.engine_handle == route
        },
        after.runtime(runtime) matches Some(entry) && entry.event_count > 0,
{
}

/// A closed session takes no more notices: no engine handle leads to it.
pub proof fn closed_session_is_silent(adapter: &Adapter, session: u64, runtime: u64, route: u64)
    requires
        adapter.wf(),
        adapter.session(session) matches Some(entry) && entry.state is Closed,
    ensures
        adapter.public(runtime, route) != Some(session),
{
    assert(adapter.route_ok(runtime, route));
}

} // verus!
