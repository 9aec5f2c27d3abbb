//! The pumps that callers hold by handle.
use crate::c_api::{
    self, Error, Reply, ERROR_DOMAIN_RUNTIME, ERROR_STALE_HANDLE, OPERATION_CLOSE, OPERATION_OUTPUT,
    OPERATION_RUNTIME_CREATE, OPERATION_RUNTIME_SHUTDOWN, STATUS_INVALID_ARGUMENT, STATUS_OK,
    STATUS_STALE_HANDLE, STATUS_WRONG_STATE,
};
use crate::cleanup::Cleanup;
use crate::pump::{Pump, PumpModel};
use crate::registry::{self, Registry};
use vstd::prelude::*;

verus! {

broadcast use vstd::std_specs::hash::group_hash_axioms;

/// All pumps.
pub struct PumpTable {
    pub pumps: Registry<Pump>,
}

/// Whether a pump still needs its runtime.
pub open spec fn uses(pump: Option<PumpModel>, runtime: u64) -> bool {
    pump matches Some(pump) && pump.runtime == runtime && !pump.cleaned
}

impl PumpTable {
    /// What a handle names.
    pub open spec fn pump(&self, handle: u64) -> Option<PumpModel> {
        match self.pumps.resolve(handle) {
            Some(pump) => Some(pump.model()),
            None => None,
        }
    }

    /// The table's invariant: a pump knows its handle, and no two pumps use one runtime.
    pub open spec fn wf(&self) -> bool {
        &&& self.pumps.wf()
        &&& forall|handle: u64|
            (#[trigger] self.pump(handle)) matches Some(pump) ==> pump.handle == handle
        &&& forall|first: u64, second: u64|
            #![trigger self.pump(first), self.pump(second)]
            first != second && self.pump(first) is Some && !self.pump(first).unwrap().cleaned
                ==> !uses(self.pump(second), self.pump(first).unwrap().runtime)
    }

    /// Whether every pump but one is as it was.
    pub open spec fn others_same(&self, before: &PumpTable, handle: u64) -> bool {
        forall|other: u64|
            other != handle ==> #[trigger] self.pump(other) == before.pump(other)
    }

    /// Whether every pump is as it was.
    pub open spec fn same(&self, before: &PumpTable) -> bool {
        forall|other: u64| #[trigger] self.pump(other) == before.pump(other)
    }

    /// A table without pumps.
    pub fn new() -> (table: PumpTable)
        ensures
            table.wf(),
            forall|handle: u64| #[trigger] table.pump(handle) is None,
    {
        PumpTable { pumps: Registry::new() }
    }

    /// Whether a pump uses a runtime.
    fn is_used(&self, runtime: u64) -> (used: bool)
        requires
            self.wf(),
        ensures
            used == exists|handle: u64| uses(#[trigger] self.pump(handle), runtime),
    {
        let values = self.pumps.values();
        let ghost items = registry::occupants(self.pumps.slots@);
        proof {
            registry::occupants_are_live(self.pumps.slots@);
            assert(values@.map_values(|value: &Pump| *value).len() == items.len());
        }
        for index in 0..values.len()
            invariant
                items == registry::occupants(self.pumps.slots@),
                values@.len() == items.len(),
                values@.map_values(|value: &Pump| *value) == items.map_values(
                    |item: (u64, Pump)| item.1,
                ),
                forall|i: int|
                    0 <= i < items.len() ==> registry::resolve(
                        self.pumps.slots@,
                        (#[trigger] items[i]).0,
                    ) == Some(items[i].1),
                forall|i: int|
                    0 <= i < index ==> !uses(Some((#[trigger] items[i]).1.model()), runtime),
        {
            let pump = values[index];
            proof {
                assert(values@.map_values(|value: &Pump| *value)[index as int] == items.map_values(
                    |item: (u64, Pump)| item.1,
                )[index as int]);
                assert(*pump == items[index as int].1);
            }
            if pump.runtime == runtime && !pump.cleaned {
                assert(uses(self.pump(items[index as int].0), runtime));
                return true;
            }
        }
        proof {
            if exists|handle: u64| uses(#[trigger] self.pump(handle), runtime) {
                let handle = choose|handle: u64| uses(#[trigger] self.pump(handle), runtime);
                registry::live_is_occupant(self.pumps.slots@, handle);
                let i = choose|i: int|
                    0 <= i < items.len() && #[trigger] items[i] == (
                        handle,
                        self.pumps.resolve(handle).unwrap(),
                    );
                assert(!uses(Some(items[i].1.model()), runtime));
            }
        }
        false
    }

    /// Checks a call that attaches a pump to a runtime.
    pub fn check_attach(has_destination: bool, initialized: bool, port: i64) -> (result: Result<
        (),
        Reply,
    >)
        ensures
            result == if !has_destination {
                Err(c_api::invalid(OPERATION_RUNTIME_CREATE))
            } else if !initialized {
                Err(c_api::misplaced(STATUS_WRONG_STATE, OPERATION_RUNTIME_CREATE))
            } else if port <= 0 {
                Err(c_api::invalid(OPERATION_RUNTIME_CREATE))
            } else {
                Ok(())
            },
    {
        if !has_destination {
            return Err(Reply::invalid(OPERATION_RUNTIME_CREATE));
        }
        if !initialized {
            return Err(Reply::misplaced(STATUS_WRONG_STATE, OPERATION_RUNTIME_CREATE));
        }
        if port <= 0 {
            return Err(Reply::invalid(OPERATION_RUNTIME_CREATE));
        }
        Ok(())
    }

    /// Attaches a pump to a runtime that no other pump uses.
    pub fn attach(&mut self, runtime: u64, port: i64) -> (result: Result<u64, Reply>)
        requires
            old(self).wf(),
            old(self).pumps.slots@.len() < u32::MAX,
        ensures
            final(self).wf(),
            match result {
                Ok(handle) => {
                    &&& forall|other: u64| !uses(#[trigger] old(self).pump(other), runtime)
                    &&& old(self).pump(handle) is None
                    &&& final(self).others_same(old(self), handle)
                    &&& final(self).pump(handle) == Some(
                        PumpModel {
                            handle,
                            in_flight_events: 0,
                            runtime,
                            runtime_retained: true,
                            port,
                            stopping: false,
                            outstanding: Set::empty(),
                            sessions: Set::empty(),
                            cleaned: false,
                        },
                    )
                },
                Err(reply) => {
                    &&& exists|other: u64| uses(#[trigger] old(self).pump(other), runtime)
                    &&& reply == c_api::misplaced(STATUS_WRONG_STATE, OPERATION_RUNTIME_CREATE)
                    &&& final(self).same(old(self))
                },
            },
    {
        if self.is_used(runtime) {
            return Err(Reply::misplaced(STATUS_WRONG_STATE, OPERATION_RUNTIME_CREATE));
        }
        let handle: u64 = self.pumps.insert(Pump::new(runtime, port));
        match self.pumps.get_mut(handle) {
            Some(pump) => {
                pump.handle = handle;
            },
            None => {},
        }
        proof {
            assert(old(self).pump(handle) is None);
            assert forall|other: u64| other != handle implies #[trigger] self.pump(other) == old(self).pump(other) by {}
            assert forall|first: u64, second: u64|
                #![trigger self.pump(first), self.pump(second)]
                first != second && self.pump(first) is Some && !self.pump(first).unwrap().cleaned implies !uses(
                self.pump(second),
                self.pump(first).unwrap().runtime,
            ) by {
                if first != handle && second != handle {
                    assert(old(self).pump(first) is Some);
                    assert(!uses(old(self).pump(second), old(self).pump(first).unwrap().runtime));
                } else if first == handle {
                    assert(!uses(old(self).pump(second), runtime));
                } else {
                    assert(!uses(old(self).pump(first), runtime));
                }
            }
        }
        Ok(handle)
    }

    /// Forgets a pump.
    pub fn remove(&mut self, handle: u64)
        requires
            old(self).wf(),
        ensures
            final(self).wf(),
            final(self).pump(handle) is None,
            final(self).others_same(old(self), handle),
    {
        let _removed = self.pumps.remove(handle);
        proof {
            assert forall|other: u64| other != handle implies #[trigger] self.pump(other) == old(self).pump(other) by {}
            assert forall|first: u64, second: u64|
                #![trigger self.pump(first), self.pump(second)]
                first != second && self.pump(first) is Some && !self.pump(first).unwrap().cleaned implies !uses(
                self.pump(second),
                self.pump(first).unwrap().runtime,
            ) by {
                assert(old(self).pump(first) is Some);
                assert(!uses(old(self).pump(second), old(self).pump(first).unwrap().runtime));
            }
        }
    }

    /// The runtime whose capabilities are asked for.
    pub fn begin_capabilities(&self, adapter: u64, has_output: bool) -> (result: Result<u64, Reply>)
        ensures
            result == if !has_output {
                Err(c_api::invalid(OPERATION_RUNTIME_CREATE))
            } else {
                match self.pump(adapter) {
                    Some(pump) => Ok(pump.runtime),
                    None => Err(
                        Reply {
                            status: STATUS_STALE_HANDLE,
                            error: c_api::error_of(
                                ERROR_DOMAIN_RUNTIME,
                                ERROR_STALE_HANDLE,
                                OPERATION_RUNTIME_CREATE,
                                0,
                            ),
                        },
                    ),
                }
            },
    {
        if !has_output {
            return Err(Reply::invalid(OPERATION_RUNTIME_CREATE));
        }
        match self.pumps.get(adapter) {
            Some(pump) => Ok(pump.runtime),
            None => Err(
                Reply {
                    status: STATUS_STALE_HANDLE,
                    error: Error::value(
                        ERROR_DOMAIN_RUNTIME,
                        ERROR_STALE_HANDLE,
                        OPERATION_RUNTIME_CREATE,
                        0,
                    ),
                },
            ),
        }
    }

    /// The runtime that a spawn is for. A pump that is stopping takes none.
    pub fn begin_spawn(&self, adapter: u64, has_options: bool, has_session: bool) -> (result: Result<
        u64,
        Reply,
    >)
        ensures
            result == match self.pump(adapter) {
                Some(pump) => if !has_options || !has_session {
                    Err(c_api::invalid(OPERATION_RUNTIME_CREATE))
                } else if pump.stopping {
                    Err(c_api::misplaced(STATUS_WRONG_STATE, OPERATION_CLOSE))
                } else {
                    Ok(pump.runtime)
                },
                None => Err(c_api::stale(OPERATION_CLOSE)),
            },
    {
        match self.pumps.get(adapter) {
            Some(pump) => {
                if !has_options || !has_session {
                    return Err(Reply::invalid(OPERATION_RUNTIME_CREATE));
                }
                if pump.stopping {
                    return Err(Reply::misplaced(STATUS_WRONG_STATE, OPERATION_CLOSE));
                }
                Ok(pump.runtime)
            },
            None => Err(Reply::stale(OPERATION_CLOSE)),
        }
    }

    /// Checks the release of a session: whether there is one to give back.
    pub fn begin_session_release(&self, adapter: u64, session: Option<u64>) -> (result: Result<
        bool,
        Reply,
    >)
        ensures
            result == match session {
                None => Err(c_api::invalid(OPERATION_CLOSE)),
                Some(handle) => if handle == 0 {
                    Ok(false)
                } else {
                    match self.pump(adapter) {
                        Some(pump) => if pump.sessions.contains(handle) {
                            Ok(true)
                        } else {
                            Err(c_api::misplaced(STATUS_WRONG_STATE, OPERATION_CLOSE))
                        },
                        None => Err(c_api::stale(OPERATION_CLOSE)),
                    }
                },
            },
    {
        let handle: u64 = match session {
            Some(handle) => handle,
            None => {
                return Err(Reply::invalid(OPERATION_CLOSE));
            },
        };
        if handle == 0 {
            return Ok(false);
        }
        match self.pumps.get(adapter) {
            Some(pump) => {
                if pump.sessions.contains(&handle) {
                    Ok(true)
                } else {
                    Err(Reply::misplaced(STATUS_WRONG_STATE, OPERATION_CLOSE))
                }
            },
            None => Err(Reply::stale(OPERATION_CLOSE)),
        }
    }

    /// Whether a pump is there for an acknowledgement.
    pub fn begin_ack(&self, adapter: u64) -> (result: Result<(), Reply>)
        ensures
            result == match self.pump(adapter) {
                Some(_) => Ok(()),
                None => Err(c_api::stale(OPERATION_OUTPUT)),
            },
    {
        match self.pumps.get(adapter) {
            Some(_) => Ok(()),
            None => Err(Reply::stale(OPERATION_OUTPUT)),
        }
    }

    /// What is to be detached: nothing where the pump is gone already.
    pub fn begin_detach(&self, adapter: Option<u64>) -> (result: Result<Option<u64>, Reply>)
        ensures
            result == match adapter {
                None => Err(c_api::invalid(OPERATION_RUNTIME_SHUTDOWN)),
                Some(handle) => if handle == 0 || self.pump(handle) is None {
                    Ok(None)
                } else {
                    Ok(Some(handle))
                },
            },
    {
        match adapter {
            None => Err(Reply::invalid(OPERATION_RUNTIME_SHUTDOWN)),
            Some(handle) => {
                if handle == 0 || self.pumps.get(handle).is_none() {
                    Ok(None)
                } else {
                    Ok(Some(handle))
                }
            },
        }
    }

    /// Takes the outcome of stopping a pump and of its cleanup. A pump that is clean is
    /// forgotten; the cleanup of another is tried again. The result is the status, the
    /// caller's handle afterwards, and the cleanup to schedule.
    pub fn after_detach(&mut self, handle: u64, stop_status: u32, cleanup_status: u32) -> (result: (
        u32,
        u64,
        Option<Cleanup>,
    ))
        requires
            old(self).wf(),
        ensures
            final(self).wf(),
            final(self).others_same(old(self), handle),
            ({
                let status = if cleanup_status == STATUS_OK {
                    stop_status
                } else {
                    cleanup_status
                };
                &&& result.0 == status
                &&& if status == STATUS_OK {
                    &&& result.1 == 0
                    &&& result.2 is None
                    &&& final(self).pump(handle) is None
                } else {
                    &&& result.1 == handle
                    &&& result.2 == if handle != 0 {
                        Some(Cleanup::Adapter(handle))
                    } else {
                        None
                    }
                    &&& final(self).pump(handle) == old(self).pump(handle)
                }
            }),
    {
        let status: u32 = if cleanup_status == STATUS_OK {
            stop_status
        } else {
            cleanup_status
        };
        if status != STATUS_OK {
            return (status, handle, finalize_adapter(handle));
        }
        self.remove(handle);
        (STATUS_OK, 0, None)
    }

    /// Takes the outcome of the cleanup at the end of a pump's thread.
    pub fn after_pump_end(&mut self, handle: u64, cleanup_status: u32) -> (retry: Option<Cleanup>)
        requires
            old(self).wf(),
        ensures
            final(self).wf(),
            final(self).others_same(old(self), handle),
            if cleanup_status == STATUS_OK {
                retry is None && final(self).pump(handle) is None
            } else {
                &&& retry == if handle != 0 {
                    Some(Cleanup::Adapter(handle))
                } else {
                    None
                }
                &&& final(self).pump(handle) == old(self).pump(handle)
            },
    {
        if cleanup_status == STATUS_OK {
            self.remove(handle);
            return None;
        }
        finalize_adapter(handle)
    }

    /// The pump that tracks a session.
    pub fn owner_of(&self, session: u64) -> (owner: Option<u64>)
        requires
            self.wf(),
        ensures
            match owner {
                Some(handle) => self.pump(handle) matches Some(pump) && pump.sessions.contains(
                    session,
                ),
                None => forall|handle: u64|
                    (#[trigger] self.pump(handle)) matches Some(pump) ==> !pump.sessions.contains(
                        session,
                    ),
            },
    {
        let values = self.pumps.values();
        let ghost items = registry::occupants(self.pumps.slots@);
        proof {
            registry::occupants_are_live(self.pumps.slots@);
            assert(values@.map_values(|value: &Pump| *value).len() == items.len());
        }
        for index in 0..values.len()
            invariant
                self.wf(),
                items == registry::occupants(self.pumps.slots@),
                values@.len() == items.len(),
                values@.map_values(|value: &Pump| *value) == items.map_values(
                    |item: (u64, Pump)| item.1,
                ),
                forall|i: int|
                    0 <= i < items.len() ==> registry::resolve(
                        self.pumps.slots@,
                        (#[trigger] items[i]).0,
                    ) == Some(items[i].1),
                forall|i: int|
                    0 <= i < index ==> !(#[trigger] items[i]).1.sessions@.contains(session),
        {
            let pump = values[index];
            proof {
                assert(values@.map_values(|value: &Pump| *value)[index as int] == items.map_values(
                    |item: (u64, Pump)| item.1,
                )[index as int]);
                assert(*pump == items[index as int].1);
                assert(self.pump(items[index as int].0) == Some(pump.model()));
            }
            if pump.sessions.contains(&session) {
                return Some(pump.handle);
            }
        }
        proof {
            assert forall|handle: u64|
                self.pump(handle) is Some implies !(#[trigger] self.pump(handle)).unwrap().sessions.contains(
                session,
            ) by {
                registry::live_is_occupant(self.pumps.slots@, handle);
                let i = choose|i: int|
                    0 <= i < items.len() && #[trigger] items[i] == (
                        handle,
                        self.pumps.resolve(handle).unwrap(),
                    );
                assert(!items[i].1.sessions@.contains(session));
            }
        }
        None
    }
}

/// The cleanup of an adapter that its owner lost.
pub fn finalize_adapter(handle: u64) -> (cleanup: Option<Cleanup>)
    ensures
        cleanup == if handle != 0 {
            Some(Cleanup::Adapter(handle))
        } else {
            None
        },
{
    if handle == 0 {
        None
    } else {
        Some(Cleanup::Adapter(handle))
    }
}

/// The cleanup of a session that its owner lost.
pub fn finalize_session(handle: u64) -> (cleanup: Option<Cleanup>)
    ensures
        cleanup == if handle != 0 {
            Some(Cleanup::Session(handle))
        } else {
            None
        },
{
    if handle == 0 {
        None
    } else {
        Some(Cleanup::Session(handle))
    }
}

/// The answer to an acknowledgement, and the cleanup of a token that could not be given
/// back. An acknowledged token that is gone is a stale one.
pub fn ack_reply(adapter: u64, token: u64, status: u32, error: Error) -> (result: (
    Reply,
    Option<Cleanup>,
))
    ensures
        result == if status == STATUS_STALE_HANDLE {
            (c_api::stale(OPERATION_OUTPUT), None)
        } else if status == STATUS_OK {
            (Reply { status, error }, None)
        } else {
            (Reply { status, error }, Some(Cleanup::Event { adapter, token }))
        },
{
    if status == STATUS_STALE_HANDLE {
        return (Reply::stale(OPERATION_OUTPUT), None);
    }
    if status != STATUS_OK {
        return (Reply { status, error }, Some(Cleanup::Event { adapter, token }));
    }
    (Reply { status, error }, None)
}

/// The answer to the initialization: the library has to stay loaded, and the cleanup
/// worker has to run, before the other side is asked.
pub fn initialize_status(
    has_data: bool,
    pinned: bool,
    has_worker: bool,
    accepted: bool,
) -> (status: u32)
    ensures
        status == if has_data && pinned && has_worker && accepted {
            STATUS_OK
        } else {
            STATUS_INVALID_ARGUMENT
        },
{
    if !has_data || !pinned || !has_worker || !accepted {
        return STATUS_INVALID_ARGUMENT;
    }
    STATUS_OK
}

/// A pump that changes, but for its handle, its runtime and a cleanup that is done, keeps
/// the table's invariant.
pub proof fn pump_changes_keep_table(before: &PumpTable, after: &PumpTable, handle: u64)
    requires
        before.wf(),
        after.pumps.wf(),
        after.others_same(before, handle),
        before.pump(handle) matches Some(old_pump) && after.pump(handle) matches Some(new_pump) && {
            &&& new_pump.handle == old_pump.handle
            &&& new_pump.runtime == old_pump.runtime
            &&& old_pump.cleaned ==> new_pump.cleaned
        },
    ensures
        after.wf(),
{
    assert forall|other: u64| after.pump(other) is Some implies (#[trigger] after.pump(
        other,
    )).unwrap().handle == other by {
        assert(before.pump(other) is Some);
    }
    assert forall|first: u64, second: u64|
        #![trigger after.pump(first), after.pump(second)]
        first != second && after.pump(first) is Some && !after.pump(first).unwrap().cleaned implies !uses(
        after.pump(second),
        after.pump(first).unwrap().runtime,
    ) by {
        assert(before.pump(first) is Some && !before.pump(first).unwrap().cleaned);
        assert(!uses(before.pump(second), before.pump(first).unwrap().runtime));
    }
}

} // verus!
