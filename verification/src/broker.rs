//! The broker: owner of the child processes.
//!
//! A slot holds one child from its start until its release. The broker's process
//! performs the system calls that a step names and hands back what they did.
use crate::fault::{ErrorKind, IoError};
use crate::frame::{
    self, Frame, FrameModel, CLOSE, CLOSE_ALREADY_EXITED, CLOSE_KILLED, CLOSE_RESULT, CLOSE_STALE,
    ERROR, ERROR_POST_EXEC, ERROR_PROTOCOL, ERROR_SPAWN, EXIT, HELLO, RELEASE, RELEASE_RESULT,
    SHUTDOWN, SHUTDOWN_RESULT, SIGNAL, SIGNAL_RESULT, SPAWN, SPAWN_OK, STATS, STATS_RESULT, VERSION,
};
use crate::handle;
use crate::posix::{self, Codes};
use crate::spawn_payload::{self, SpawnRequest};
use crate::wire::{self, ByteOrder};
use vstd::prelude::*;

verus! {

pub const MAX_SIGNAL: i32 = 31;

/// What a slot holds.
#[derive(Clone, Copy, Debug, PartialEq, Eq, Structural)]
pub enum SlotState {
    Vacant,
    Running { pid: i32 },
    Exited { code: i32, process_group: i32 },
}

/// One slot with the generation of its latest occupant.
#[derive(Clone, Copy, Debug, PartialEq, Eq, Structural)]
pub struct Slot {
    pub generation: u32,
    pub state: SlotState,
}

/// What a session names: a slot's state, if the session's generation is the slot's.
pub open spec fn slot_lookup(slots: Seq<Slot>, session: u64) -> Option<SlotState> {
    match handle::handle_parts_of(session) {
        Some((index, generation)) => if index < slots.len() && slots[index as int].generation
            == generation {
            Some(slots[index as int].state)
        } else {
            None
        },
        None => None,
    }
}

/// The slots after the one that a session names, if it names one, took a state.
pub open spec fn slot_update(slots: Seq<Slot>, session: u64, state: SlotState) -> Seq<Slot> {
    match handle::handle_parts_of(session) {
        Some((index, generation)) => if index < slots.len() && slots[index as int].generation
            == generation {
            slots.update(index as int, Slot { generation, state })
        } else {
            slots
        },
        None => slots,
    }
}

/// Whether `index` is the first vacant slot, or the end when there is none.
pub open spec fn is_first_vacant(slots: Seq<Slot>, index: nat) -> bool {
    &&& index <= slots.len()
    &&& forall|i: int| 0 <= i < index ==> !((#[trigger] slots[i]).state is Vacant)
    &&& index < slots.len() ==> slots[index as int].state is Vacant
}

/// The generation that follows, which is never zero.
pub open spec fn next_generation(generation: u32) -> u32 {
    if generation == u32::MAX {
        1
    } else {
        (generation + 1) as u32
    }
}

/// The generation that a slot's next occupant has.
pub open spec fn generation_at(slots: Seq<Slot>, index: nat) -> u32 {
    next_generation(
        if index < slots.len() {
            slots[index as int].generation
        } else {
            0
        },
    )
}

/// The slots after a child started in one of them or in a new one.
pub open spec fn slot_start(slots: Seq<Slot>, index: nat, pid: i32) -> Seq<Slot> {
    let slot = Slot {
        generation: generation_at(slots, index),
        state: SlotState::Running { pid },
    };
    if index < slots.len() {
        slots.update(index as int, slot)
    } else {
        slots.push(slot)
    }
}

/// How many slots hold a running child.
pub open spec fn running_count(slots: Seq<Slot>) -> nat
    decreases slots.len(),
{
    if slots.len() == 0 {
        0
    } else {
        running_count(slots.drop_last()) + if slots.last().state is Running {
            1nat
        } else {
            0nat
        }
    }
}

/// What the kernel answered to a signal.
#[derive(Clone, Copy, Debug, PartialEq, Eq, Structural)]
pub enum Killed {
    Delivered,
    NoSuchProcess,
    /// Failed, with the kernel's code if there is one.
    Failed(Option<i32>),
}

/// What a request asks of the broker's process.
#[derive(Clone, Debug, PartialEq, Eq)]
pub enum BrokerStep {
    /// Send this reply.
    Reply(Frame),
    /// Start this process, then report to `after_spawn`.
    Spawn { request: u32, target: SpawnRequest },
    /// Signal this process group and send the reply, whatever came of the signal.
    SignalAndReply { group: i32, signal: i32, reply: Frame },
    /// Kill this process group, then report to `after_close`.
    Close { request: u32, session: u64, group: i32 },
    /// Signal this process group, then report to `after_signal`.
    Signal { request: u32, group: i32, signal: i32 },
    /// Count the open descriptors, then report to `stats_reply`.
    Stats { request: u32 },
    /// Clean up, then send `shutdown_reply` and stop.
    Shutdown { request: u32 },
}

/// What starting a process asks of the broker's process.
#[derive(Clone, Debug, PartialEq, Eq)]
pub enum SpawnStep {
    /// Send this reply.
    Reply(Frame),
    /// Kill and reap this process, then send the reply.
    Discard { pid: i32, reply: Frame },
    /// Watch this process as this session, then report to `after_registration`.
    Register { pid: i32, session: u64 },
}

/// An error reply.
pub open spec fn error_frame(request: u32, category: u32, code: i32) -> FrameModel {
    FrameModel { request, aux: category, code, ..frame::bare(ERROR) }
}

/// The broker's record of its children.
#[derive(Clone, Debug, PartialEq, Eq)]
pub struct Broker {
    codes: Codes,
    slots: Vec<Slot>,
    signal_after_reap: u32,
    injected_cleanups: u32,
}

impl Broker {
    /// The slots.
    pub closed spec fn slots(&self) -> Seq<Slot> {
        self.slots@
    }

    /// The platform's numbers.
    pub closed spec fn codes(&self) -> Codes {
        self.codes
    }

    /// How often a signal was due to a child that had been reaped.
    pub closed spec fn signals_after_reap(&self) -> u32 {
        self.signal_after_reap
    }

    /// How often a start failed on request.
    pub closed spec fn injected(&self) -> u32 {
        self.injected_cleanups
    }

    /// A slot that holds a child has a generation, and every slot has a handle.
    pub open spec fn wf(&self) -> bool {
        &&& self.slots().len() <= u32::MAX
        &&& forall|i: int|
            0 <= i < self.slots().len() && !((#[trigger] self.slots()[i]).state is Vacant)
                ==> self.slots()[i].generation != 0
    }

    /// Everything but the slots is as in the other.
    pub open spec fn same_counters(&self, other: &Broker) -> bool {
        &&& self.codes() == other.codes()
        &&& self.signals_after_reap() == other.signals_after_reap()
        &&& self.injected() == other.injected()
    }

    /// A broker without children, with the given numbers.
    pub fn with_codes(codes: Codes) -> (broker: Broker)
        ensures
            broker.wf(),
            broker.slots() == Seq::<Slot>::empty(),
            broker.codes() == codes,
            broker.signals_after_reap() == 0,
            broker.injected() == 0,
    {
        Broker { codes, slots: Vec::new(), signal_after_reap: 0, injected_cleanups: 0 }
    }

    /// A broker without children, with the platform's numbers.
    pub fn new() -> (broker: Broker)
        ensures
            broker.wf(),
            broker.slots() == Seq::<Slot>::empty(),
            broker.signals_after_reap() == 0,
            broker.injected() == 0,
    {
        Broker::with_codes(posix::native_codes())
    }

    /// Takes the first vacant slot, or a new one, for a child.
    pub fn allocate_slot(&mut self, pid: i32) -> (session: u64)
        requires
            old(self).wf(),
            old(self).slots().len() < u32::MAX,
        ensures
            final(self).wf(),
            final(self).same_counters(old(self)),
            match handle::handle_parts_of(session) {
                Some((index, generation)) => {
                    &&& is_first_vacant(old(self).slots(), index)
                    &&& generation == generation_at(old(self).slots(), index)
                    &&& final(self).slots() == slot_start(old(self).slots(), index, pid)
                },
                None => false,
            },
    {
        let mut index: usize = 0;
        let mut searching = true;
        while searching && index < self.slots.len()
            invariant
                *self == *old(self),
                index <= self.slots@.len(),
                forall|i: int| 0 <= i < index ==> !((#[trigger] self.slots@[i]).state is Vacant),
                !searching ==> index < self.slots@.len() && self.slots@[index as int].state
                    is Vacant,
            decreases self.slots@.len() - index, if searching { 1int } else { 0int },
        {
            match self.slots[index].state {
                SlotState::Vacant => {
                    searching = false;
                },
                _ => {
                    index = index + 1;
                },
            }
        }
        if index == self.slots.len() {
            self.slots.push(Slot { generation: 0, state: SlotState::Vacant });
        }
        let previous: u32 = self.slots[index].generation;
        let generation: u32 = match previous.checked_add(1) {
            Some(next) => next,
            None => 1,
        };
        self.slots.set(index, Slot { generation, state: SlotState::Running { pid } });
        proof {
            assert(self.slots() =~= slot_start(old(self).slots(), index as nat, pid));
            assert forall|i: int|
                0 <= i < self.slots().len() && !((#[trigger] self.slots()[i]).state is Vacant)
            implies self.slots()[i].generation != 0 by {
                if i != index {
                    assert(self.slots()[i] == old(self).slots()[i]);
                }
            }
        }
        handle::make_session(index, generation)
    }

    /// The state that a session names.
    pub fn lookup(&self, session: u64) -> (state: Option<SlotState>)
        ensures
            state == slot_lookup(self.slots(), session),
    {
        match handle::split_session(session) {
            Some((index, generation)) => {
                if index < self.slots.len() && self.slots[index].generation == generation {
                    Some(self.slots[index].state)
                } else {
                    None
                }
            },
            None => None,
        }
    }

    /// Puts the slot that a session names, if it names one, into a state.
    fn set_state(&mut self, session: u64, state: SlotState)
        requires
            old(self).wf(),
        ensures
            final(self).wf(),
            final(self).same_counters(old(self)),
            final(self).slots() == slot_update(old(self).slots(), session, state),
    {
        match handle::split_session(session) {
            Some((index, generation)) => {
                if index < self.slots.len() && self.slots[index].generation == generation {
                    self.slots.set(index, Slot { generation, state });
                    proof {
                        assert forall|i: int|
                            0 <= i < self.slots().len() && !((
                            #[trigger] self.slots()[i]).state is Vacant) implies self.slots()[i].generation
                            != 0 by {
                            if i != index {
                                assert(self.slots()[i] == old(self).slots()[i]);
                            }
                        }
                    }
                }
            },
            None => {},
        }
    }

    /// Frees the slot that a session names, if it names one.
    pub fn vacate(&mut self, session: u64)
        requires
            old(self).wf(),
        ensures
            final(self).wf(),
            final(self).same_counters(old(self)),
            final(self).slots() == slot_update(old(self).slots(), session, SlotState::Vacant),
    {
        self.set_state(session, SlotState::Vacant);
    }

    /// The greeting that a new broker sends.
    pub fn hello(&self, identity: Vec<u8>) -> (reply: Frame)
        ensures
            reply@ == (FrameModel { aux: VERSION as u32, payload: identity@, ..frame::bare(HELLO) }),
    {
        let mut reply = Frame::new(HELLO);
        reply.aux = VERSION as u32;
        reply.payload = identity;
        reply
    }

    /// An error reply.
    fn error_reply(request: u32, category: u32, code: i32) -> (reply: Frame)
        ensures
            reply@ == error_frame(request, category, code),
    {
        let mut reply = Frame::new(ERROR);
        reply.request = request;
        reply.aux = category;
        reply.code = code;
        reply
    }

    /// What a request asks for. Only a release changes the slots.
    pub fn handle_request(&mut self, message: &Frame, order: ByteOrder) -> (step: BrokerStep)
        requires
            old(self).wf(),
        ensures
            final(self).wf(),
            final(self).same_counters(old(self)),
            ({
                let codes = old(self).codes();
                let state = slot_lookup(old(self).slots(), message.session);
                &&& final(self).slots() == if message.kind == RELEASE && state matches Some(
                    SlotState::Exited { .. },
                ) {
                    slot_update(old(self).slots(), message.session, SlotState::Vacant)
                } else {
                    old(self).slots()
                }
                &&& if message.kind == SPAWN {
                    spawn_request_step(message@, order, codes, step)
                } else if message.kind == CLOSE {
                    close_request_step(message@, state, codes, step)
                } else if message.kind == RELEASE {
                    release_request_step(message@, state, codes, step)
                } else if message.kind == SIGNAL {
                    signal_request_step(message@, state, codes, step)
                } else if message.kind == STATS {
                    step == (BrokerStep::Stats { request: message.request })
                } else if message.kind == SHUTDOWN {
                    step == (BrokerStep::Shutdown { request: message.request })
                } else {
                    step matches BrokerStep::Reply(reply) && reply@ == error_frame(
                        message.request,
                        ERROR_PROTOCOL,
                        codes.einval,
                    )
                }
            }),
    {
        if message.kind == SPAWN {
            self.handle_spawn(message, order)
        } else if message.kind == CLOSE {
            self.handle_close(message)
        } else if message.kind == RELEASE {
            self.handle_release(message)
        } else if message.kind == SIGNAL {
            self.handle_signal(message)
        } else if message.kind == STATS {
            BrokerStep::Stats { request: message.request }
        } else if message.kind == SHUTDOWN {
            BrokerStep::Shutdown { request: message.request }
        } else {
            BrokerStep::Reply(
                Broker::error_reply(message.request, ERROR_PROTOCOL, self.codes.einval),
            )
        }
    }

    /// Decodes a spawn request.
    pub fn handle_spawn(&self, message: &Frame, order: ByteOrder) -> (step: BrokerStep)
        ensures
            spawn_request_step(message@, order, self.codes(), step),
    {
        match spawn_payload::decode_spawn_in(message.payload.as_slice(), order) {
            Ok(target) => BrokerStep::Spawn { request: message.request, target },
            Err(error) => {
                let code: i32 = match error.raw_os_error() {
                    Some(code) => code,
                    None => self.codes.einval,
                };
                BrokerStep::Reply(Broker::error_reply(message.request, ERROR_PROTOCOL, code))
            },
        }
    }

    /// What follows the start of a process, which gave a process identifier or the
    /// kernel's code. A start that was to fail is undone.
    pub fn after_spawn(&mut self, request: u32, inject: bool, spawned: Result<i32, Option<i32>>) -> (step:
        SpawnStep)
        requires
            old(self).wf(),
            old(self).slots().len() < u32::MAX,
            old(self).injected() < u32::MAX,
        ensures
            final(self).wf(),
            final(self).codes() == old(self).codes(),
            final(self).signals_after_reap() == old(self).signals_after_reap(),
            match spawned {
                Err(code) => {
                    &&& *final(self) == *old(self)
                    &&& step matches SpawnStep::Reply(reply) && reply@ == error_frame(
                        request,
                        ERROR_SPAWN,
                        match code {
                            Some(code) => code,
                            None => old(self).codes().eio,
                        },
                    )
                },
                Ok(pid) => if inject {
                    &&& final(self).slots() == old(self).slots()
                    &&& final(self).injected() == old(self).injected() + 1
                    &&& step matches SpawnStep::Discard { pid: discarded, reply } && discarded == pid
                        && reply@ == error_frame(
                        request,
                        ERROR_POST_EXEC,
                        old(self).codes().ecanceled,
                    )
                } else {
                    &&& final(self).injected() == old(self).injected()
                    &&& step matches SpawnStep::Register { pid: registered, session } && registered
                        == pid && match handle::handle_parts_of(session) {
                        Some((index, generation)) => {
                            &&& is_first_vacant(old(self).slots(), index)
                            &&& generation == generation_at(old(self).slots(), index)
                            &&& final(self).slots() == slot_start(old(self).slots(), index, pid)
                        },
                        None => false,
                    }
                },
            },
    {
        let pid: i32 = match spawned {
            Ok(pid) => pid,
            Err(code) => {
                let code: i32 = match code {
                    Some(code) => code,
                    None => self.codes.eio,
                };
                return SpawnStep::Reply(Broker::error_reply(request, ERROR_SPAWN, code));
            },
        };
        if inject {
            self.injected_cleanups = self.injected_cleanups + 1;
            return SpawnStep::Discard {
                pid,
                reply: Broker::error_reply(request, ERROR_POST_EXEC, self.codes.ecanceled),
            };
        }
        let session: u64 = self.allocate_slot(pid);
        SpawnStep::Register { pid, session }
    }

    /// What follows the attempt to watch a new child, which may fail with the kernel's
    /// code. A child that cannot be watched is given up.
    pub fn after_registration(
        &mut self,
        request: u32,
        pid: i32,
        session: u64,
        registered: Result<(), Option<i32>>,
    ) -> (step: SpawnStep)
        requires
            old(self).wf(),
        ensures
            final(self).wf(),
            final(self).same_counters(old(self)),
            match registered {
                Ok(()) => {
                    &&& final(self).slots() == old(self).slots()
                    &&& step matches SpawnStep::Reply(reply) && reply@ == (FrameModel {
                        request,
                        session,
                        code: pid,
                        ..frame::bare(SPAWN_OK)
                    })
                },
                Err(code) => {
                    &&& final(self).slots() == slot_update(
                        old(self).slots(),
                        session,
                        SlotState::Vacant,
                    )
                    &&& step matches SpawnStep::Discard { pid: discarded, reply } && discarded == pid
                        && reply@ == error_frame(
                        request,
                        ERROR_POST_EXEC,
                        match code {
                            Some(code) => code,
                            None => old(self).codes().eio,
                        },
                    )
                },
            },
    {
        match registered {
            Ok(()) => {
                let mut reply = Frame::new(SPAWN_OK);
                reply.request = request;
                reply.session = session;
                reply.code = pid;
                SpawnStep::Reply(reply)
            },
            Err(code) => {
                self.vacate(session);
                let code: i32 = match code {
                    Some(code) => code,
                    None => self.codes.eio,
                };
                SpawnStep::Discard {
                    pid,
                    reply: Broker::error_reply(request, ERROR_POST_EXEC, code),
                }
            },
        }
    }

    /// Ends a session's processes.
    pub fn handle_close(&self, message: &Frame) -> (step: BrokerStep)
        ensures
            close_request_step(
                message@,
                slot_lookup(self.slots(), message.session),
                self.codes(),
                step,
            ),
    {
        let mut reply = Frame::new(CLOSE_RESULT);
        reply.request = message.request;
        reply.session = message.session;
        match self.lookup(message.session) {
            Some(SlotState::Running { pid }) => BrokerStep::Close {
                request: message.request,
                session: message.session,
                group: pid,
            },
            Some(SlotState::Exited { code, process_group }) => {
                reply.code = code;
                reply.aux = CLOSE_ALREADY_EXITED;
                BrokerStep::SignalAndReply {
                    group: process_group,
                    signal: self.codes.sigkill,
                    reply,
                }
            },
            _ => {
                reply.aux = CLOSE_STALE;
                BrokerStep::Reply(reply)
            },
        }
    }

    /// The reply to a close whose processes were signalled.
    pub fn after_close(&self, request: u32, session: u64, killed: Killed) -> (reply: Frame)
        ensures
            reply@ == match killed {
                Killed::Failed(code) => error_frame(
                    request,
                    ERROR_SPAWN,
                    match code {
                        Some(code) => code,
                        None => self.codes().eio,
                    },
                ),
                _ => FrameModel {
                    request,
                    session,
                    aux: CLOSE_KILLED,
                    ..frame::bare(CLOSE_RESULT)
                },
            },
    {
        match killed {
            Killed::Failed(code) => {
                let code: i32 = match code {
                    Some(code) => code,
                    None => self.codes.eio,
                };
                Broker::error_reply(request, ERROR_SPAWN, code)
            },
            _ => {
                let mut reply = Frame::new(CLOSE_RESULT);
                reply.request = request;
                reply.session = session;
                reply.aux = CLOSE_KILLED;
                reply
            },
        }
    }

    /// Signals a session's processes.
    pub fn handle_signal(&self, message: &Frame) -> (step: BrokerStep)
        ensures
            signal_request_step(
                message@,
                slot_lookup(self.slots(), message.session),
                self.codes(),
                step,
            ),
    {
        let signal: i32 = message.code;
        if signal <= 0 || signal > MAX_SIGNAL {
            return BrokerStep::Reply(
                Broker::error_reply(message.request, ERROR_PROTOCOL, self.codes.einval),
            );
        }
        match self.lookup(message.session) {
            Some(SlotState::Running { pid }) => BrokerStep::Signal {
                request: message.request,
                group: pid,
                signal,
            },
            _ => {
                let mut reply = Frame::new(SIGNAL_RESULT);
                reply.request = message.request;
                BrokerStep::Reply(reply)
            },
        }
    }

    /// The reply to a signal that was sent.
    pub fn after_signal(&self, request: u32, killed: Killed) -> (reply: Frame)
        ensures
            reply@ == match killed {
                Killed::Failed(code) => error_frame(
                    request,
                    ERROR_SPAWN,
                    match code {
                        Some(code) => code,
                        None => self.codes().eio,
                    },
                ),
                Killed::Delivered => FrameModel { request, aux: 1, ..frame::bare(SIGNAL_RESULT) },
                Killed::NoSuchProcess => FrameModel { request, ..frame::bare(SIGNAL_RESULT) },
            },
    {
        let mut reply = Frame::new(SIGNAL_RESULT);
        reply.request = request;
        match killed {
            Killed::Failed(code) => {
                let code: i32 = match code {
                    Some(code) => code,
                    None => self.codes.eio,
                };
                Broker::error_reply(request, ERROR_SPAWN, code)
            },
            Killed::Delivered => {
                reply.aux = 1;
                reply
            },
            Killed::NoSuchProcess => reply,
        }
    }

    /// Frees the slot of a session whose child exited.
    pub fn handle_release(&mut self, message: &Frame) -> (step: BrokerStep)
        requires
            old(self).wf(),
        ensures
            final(self).wf(),
            final(self).same_counters(old(self)),
            ({
                let state = slot_lookup(old(self).slots(), message.session);
                &&& final(self).slots() == if state matches Some(SlotState::Exited { .. }) {
                    slot_update(old(self).slots(), message.session, SlotState::Vacant)
                } else {
                    old(self).slots()
                }
                &&& release_request_step(message@, state, old(self).codes(), step)
            }),
    {
        let mut reply = Frame::new(RELEASE_RESULT);
        reply.request = message.request;
        reply.session = message.session;
        match self.lookup(message.session) {
            Some(SlotState::Exited { code: _, process_group }) => {
                self.vacate(message.session);
                reply.aux = 1;
                BrokerStep::SignalAndReply {
                    group: process_group,
                    signal: self.codes.sigkill,
                    reply,
                }
            },
            _ => BrokerStep::Reply(reply),
        }
    }

    /// The reply to a request for statistics.
    pub fn stats_reply(&self, request: u32, open_descriptors: usize, order: ByteOrder) -> (reply:
        Frame)
        requires
            self.wf(),
        ensures
            reply@ == (FrameModel {
                request,
                payload: wire::u32_bytes(order, running_count(self.slots()) as u32)
                    + wire::u32_bytes(order, open_descriptors as u32) + wire::u32_bytes(
                    order,
                    self.signals_after_reap(),
                ),
                ..frame::bare(STATS_RESULT)
            }),
    {
        let mut payload: Vec<u8> = Vec::new();
        wire::put_u32(&mut payload, order, self.running_jobs() as u32);
        wire::put_u32(&mut payload, order, open_descriptors as u32);
        wire::put_u32(&mut payload, order, self.signal_after_reap);
        let mut reply = Frame::new(STATS_RESULT);
        reply.request = request;
        reply.payload = payload;
        assert(reply.payload@ =~= wire::u32_bytes(order, running_count(self.slots()) as u32)
            + wire::u32_bytes(order, open_descriptors as u32) + wire::u32_bytes(
            order,
            self.signals_after_reap(),
        ));
        reply
    }

    /// The reply to a shutdown, sent after the cleanup.
    pub fn shutdown_reply(&self, request: u32) -> (reply: Frame)
        requires
            self.wf(),
        ensures
            reply@ == (FrameModel {
                request,
                aux: running_count(self.slots()) as u32,
                ..frame::bare(SHUTDOWN_RESULT)
            }),
    {
        let mut reply = Frame::new(SHUTDOWN_RESULT);
        reply.request = request;
        reply.aux = self.running_jobs() as u32;
        reply
    }

    /// Records that a child was reaped with this wait status. The first slot that runs
    /// it becomes exited, and the controller is told.
    pub fn reap(&mut self, pid: i32, status: i32) -> (notice: Option<Frame>)
        requires
            old(self).wf(),
        ensures
            final(self).wf(),
            final(self).same_counters(old(self)),
            match notice {
                Some(message) => {
                    &&& slot_lookup(old(self).slots(), message.session) == Some(
                        SlotState::Running { pid },
                    )
                    &&& forall|i: int|
                        0 <= i < handle::handle_parts_of(message.session).unwrap().0 ==> (
                        #[trigger] old(self).slots()[i]).state != (SlotState::Running { pid })
                    &&& final(self).slots() == slot_update(
                        old(self).slots(),
                        message.session,
                        SlotState::Exited { code: posix::wait_code(status), process_group: pid },
                    )
                    &&& message@ == (FrameModel {
                        session: message.session,
                        code: posix::wait_code(status),
                        ..frame::bare(EXIT)
                    })
                },
                None => final(self).slots() == old(self).slots() && forall|i: int|
                    0 <= i < old(self).slots().len() ==> (#[trigger] old(self).slots()[i]).state
                        != (SlotState::Running { pid }),
            },
    {
        let count: usize = self.slots.len();
        for index in 0..count
            invariant
                count == self.slots().len(),
                *self == *old(self),
                self.wf(),
                forall|i: int|
                    0 <= i < index ==> (#[trigger] self.slots()[i]).state != (SlotState::Running {
                        pid,
                    }),
        {
            let slot = self.slots[index];
            let matched = match slot.state {
                SlotState::Running { pid: child } => child == pid,
                _ => false,
            };
            if matched {
                assert(self.slots()[index as int].generation != 0);
                let session: u64 = handle::make_session(index, slot.generation);
                return Some(self.reaped(session, pid, status));
            }
        }
        None
    }

    /// Records that the child of a session was reaped with this wait status.
    pub fn reaped(&mut self, session: u64, pid: i32, status: i32) -> (notice: Frame)
        requires
            old(self).wf(),
        ensures
            final(self).wf(),
            final(self).same_counters(old(self)),
            final(self).slots() == slot_update(
                old(self).slots(),
                session,
                SlotState::Exited { code: posix::wait_code(status), process_group: pid },
            ),
            notice@ == (FrameModel {
                session,
                code: posix::wait_code(status),
                ..frame::bare(EXIT)
            }),
    {
        let code: i32 = posix::decode_wait_status(status);
        self.set_state(session, SlotState::Exited { code, process_group: pid });
        let mut notice = Frame::new(EXIT);
        notice.session = session;
        notice.code = code;
        notice
    }

    /// How many children run.
    pub fn running_jobs(&self) -> (count: usize)
        ensures
            count == running_count(self.slots()),
            count <= self.slots().len(),
    {
        let mut count: usize = 0;
        for index in 0..self.slots.len()
            invariant
                count == running_count(self.slots@.take(index as int)),
                count <= index,
        {
            proof {
                let taken = self.slots@.take(index + 1);
                assert(taken.drop_last() =~= self.slots@.take(index as int));
                assert(taken.last() == self.slots@[index as int]);
            }
            match self.slots[index].state {
                SlotState::Running { .. } => {
                    count = count + 1;
                },
                _ => {},
            }
        }
        assert(self.slots@.take(self.slots@.len() as int) =~= self.slots@);
        count
    }

    /// The process group to kill when a session's child must go. A child that was
    /// reaped is not signalled, only counted.
    pub fn kill_running(&mut self, session: u64) -> (group: Option<i32>)
        requires
            old(self).wf(),
            old(self).signals_after_reap() < u32::MAX,
        ensures
            final(self).wf(),
            final(self).slots() == old(self).slots(),
            final(self).codes() == old(self).codes(),
            final(self).injected() == old(self).injected(),
            match slot_lookup(old(self).slots(), session) {
                Some(SlotState::Running { pid }) => group == Some(pid)
                    && final(self).signals_after_reap() == old(self).signals_after_reap(),
                Some(SlotState::Exited { .. }) => group is None && final(self).signals_after_reap() == old(self).signals_after_reap() + 1,
                _ => group is None && final(self).signals_after_reap() == old(self).signals_after_reap(),
            },
    {
        match self.lookup(session) {
            Some(SlotState::Running { pid }) => Some(pid),
            Some(SlotState::Exited { .. }) => {
                self.signal_after_reap = self.signal_after_reap + 1;
                None
            },
            _ => None,
        }
    }

    /// Every process group that a cleanup kills, in the order of the slots.
    pub fn cleanup_groups(&self) -> (groups: Vec<i32>)
        ensures
            groups@ == groups_of(self.slots()),
    {
        let mut groups: Vec<i32> = Vec::new();
        for index in 0..self.slots.len()
            invariant
                groups@ == groups_of(self.slots@.take(index as int)),
        {
            proof {
                let taken = self.slots@.take(index + 1);
                assert(taken.drop_last() =~= self.slots@.take(index as int));
                assert(taken.last() == self.slots@[index as int]);
            }
            match self.slots[index].state {
                SlotState::Running { pid } => {
                    groups.push(pid);
                },
                SlotState::Exited { code: _, process_group } => {
                    groups.push(process_group);
                },
                SlotState::Vacant => {},
            }
        }
        assert(self.slots@.take(self.slots@.len() as int) =~= self.slots@);
        groups
    }

    /// Every session that a cleanup reaps, with its process, in the order of the slots.
    pub fn running_sessions(&self) -> (sessions: Vec<(u64, i32)>)
        requires
            self.wf(),
        ensures
            sessions@ == running_of(self.slots()),
    {
        let mut sessions: Vec<(u64, i32)> = Vec::new();
        for index in 0..self.slots.len()
            invariant
                self.wf(),
                sessions@ == running_of(self.slots@.take(index as int)),
        {
            proof {
                let taken = self.slots@.take(index + 1);
                assert(taken.drop_last() =~= self.slots@.take(index as int));
                assert(taken.last() == self.slots@[index as int]);
            }
            let slot = self.slots[index];
            match slot.state {
                SlotState::Running { pid } => {
                    sessions.push((handle::make_session(index, slot.generation), pid));
                },
                _ => {},
            }
        }
        assert(self.slots@.take(self.slots@.len() as int) =~= self.slots@);
        sessions
    }
}

/// The process groups of the slots that hold a child, running or exited.
pub open spec fn groups_of(slots: Seq<Slot>) -> Seq<i32>
    decreases slots.len(),
{
    if slots.len() == 0 {
        Seq::empty()
    } else {
        let rest = groups_of(slots.drop_last());
        match slots.last().state {
            SlotState::Running { pid } => rest.push(pid),
            SlotState::Exited { code: _, process_group } => rest.push(process_group),
            SlotState::Vacant => rest,
        }
    }
}

/// The sessions of the slots that hold a running child, with its process.
pub open spec fn running_of(slots: Seq<Slot>) -> Seq<(u64, i32)>
    decreases slots.len(),
{
    if slots.len() == 0 {
        Seq::empty()
    } else {
        let rest = running_of(slots.drop_last());
        match slots.last().state {
            SlotState::Running { pid } => rest.push(
                (handle::handle_of((slots.len() - 1) as nat, slots.last().generation), pid),
            ),
            _ => rest,
        }
    }
}

/// A spawn request is decoded, or answered with why it cannot be.
pub open spec fn spawn_request_step(
    message: FrameModel,
    order: ByteOrder,
    codes: Codes,
    step: BrokerStep,
) -> bool {
    match spawn_payload::spawn_parse(order, message.payload) {
        Ok(model) => step matches BrokerStep::Spawn { request, target } && request
            == message.request && target@ == model,
        Err(_) => step matches BrokerStep::Reply(reply) && reply@ == error_frame(
            message.request,
            ERROR_PROTOCOL,
            codes.einval,
        ),
    }
}

/// A running child is killed. The group of one that exited is killed too, and the
/// answer says how it ended. Any other session is stale.
pub open spec fn close_request_step(
    message: FrameModel,
    state: Option<SlotState>,
    codes: Codes,
    step: BrokerStep,
) -> bool {
    let answer = FrameModel {
        request: message.request,
        session: message.session,
        ..frame::bare(CLOSE_RESULT)
    };
    match state {
        Some(SlotState::Running { pid }) => step == (BrokerStep::Close {
            request: message.request,
            session: message.session,
            group: pid,
        }),
        Some(SlotState::Exited { code, process_group }) => step matches BrokerStep::SignalAndReply {
            group,
            signal,
            reply,
        } && group == process_group && signal == codes.sigkill && reply@ == (FrameModel {
            code,
            aux: CLOSE_ALREADY_EXITED,
            ..answer
        }),
        _ => step matches BrokerStep::Reply(reply) && reply@ == (FrameModel {
            aux: CLOSE_STALE,
            ..answer
        }),
    }
}

/// Only a child that exited is released; what is left of its group is killed.
pub open spec fn release_request_step(
    message: FrameModel,
    state: Option<SlotState>,
    codes: Codes,
    step: BrokerStep,
) -> bool {
    let answer = FrameModel {
        request: message.request,
        session: message.session,
        ..frame::bare(RELEASE_RESULT)
    };
    match state {
        Some(SlotState::Exited { code: _, process_group }) =>
            step matches BrokerStep::SignalAndReply { group, signal, reply } && group
                == process_group && signal == codes.sigkill && reply@ == (FrameModel {
                aux: 1,
                ..answer
            }),
        _ => step matches BrokerStep::Reply(reply) && reply@ == answer,
    }
}

/// A signal in range goes to a running child; any other session gets none.
pub open spec fn signal_request_step(
    message: FrameModel,
    state: Option<SlotState>,
    codes: Codes,
    step: BrokerStep,
) -> bool {
    if message.code <= 0 || message.code > MAX_SIGNAL {
        step matches BrokerStep::Reply(reply) && reply@ == error_frame(
            message.request,
            ERROR_PROTOCOL,
            codes.einval,
        )
    } else {
        match state {
            Some(SlotState::Running { pid }) => step == (BrokerStep::Signal {
                request: message.request,
                group: pid,
                signal: message.code,
            }),
            _ => step matches BrokerStep::Reply(reply) && reply@ == (FrameModel {
                request: message.request,
                ..frame::bare(SIGNAL_RESULT)
            }),
        }
    }
}

/// Starting a child leaves every other session as it was, except that sessions of
/// the slot's earlier occupants name nothing any more.
pub proof fn start_keeps_other_sessions(slots: Seq<Slot>, index: nat, pid: i32, session: u64)
    requires
        slots.len() <= u32::MAX,
        is_first_vacant(slots, index),
        index < u32::MAX,
    ensures
        ({
            let started = handle::handle_of(index, generation_at(slots, index));
            let after = slot_start(slots, index, pid);
            &&& slot_lookup(after, started) == Some(SlotState::Running { pid })
            &&& session != started ==> slot_lookup(after, session) == match handle::handle_parts_of(
                session,
            ) {
                Some((other, _)) => if other == index {
                    None
                } else {
                    slot_lookup(slots, session)
                },
                None => None,
            }
        }),
{
    let generation = generation_at(slots, index);
    handle::handle_round_trip(index, generation);
    if let Some((other, other_generation)) = handle::handle_parts_of(session) {
        handle::handle_is_canonical(session);
        if other == index && other_generation == generation {
            assert(session == handle::handle_of(index, generation));
        }
    }
}

/// The session of a slot's new occupant differs from that of the occupant before it.
pub proof fn occupants_have_different_sessions(slots: Seq<Slot>, index: nat)
    requires
        index < slots.len() <= u32::MAX,
        slots[index as int].generation != 0,
    ensures
        handle::handle_of(index, generation_at(slots, index)) != handle::handle_of(
            index,
            slots[index as int].generation,
        ),
{
    handle::handles_are_distinct(
        index,
        generation_at(slots, index),
        index,
        slots[index as int].generation,
    );
}

/// A change of one session's state is seen through that session and through no other.
pub proof fn update_is_local(slots: Seq<Slot>, session: u64, state: SlotState, other: u64)
    requires
        slot_lookup(slots, session) is Some,
    ensures
        slot_lookup(slot_update(slots, session, state), session) == Some(state),
        other != session ==> slot_lookup(slot_update(slots, session, state), other)
            == slot_lookup(slots, other),
{
    handle::handle_is_canonical(session);
    if let Some((index, generation)) = handle::handle_parts_of(other) {
        handle::handle_is_canonical(other);
    }
}

/// A released session stays released: a later close finds it stale, a later release
/// is refused, and a later signal reaches nobody.
pub proof fn release_is_final(
    slots: Seq<Slot>,
    message: FrameModel,
    codes: Codes,
    closed: BrokerStep,
    released: BrokerStep,
    signalled: BrokerStep,
)
    requires
        slot_lookup(slots, message.session) matches Some(SlotState::Exited { .. }),
        0 < message.code <= MAX_SIGNAL,
        ({
            let state = slot_lookup(
                slot_update(slots, message.session, SlotState::Vacant),
                message.session,
            );
            &&& close_request_step(message, state, codes, closed)
            &&& release_request_step(message, state, codes, released)
            &&& signal_request_step(message, state, codes, signalled)
        }),
    ensures
        closed matches BrokerStep::Reply(reply) && reply.aux == CLOSE_STALE,
        released matches BrokerStep::Reply(reply) && reply.aux == 0,
        signalled matches BrokerStep::Reply(reply) && reply.aux == 0,
{
    update_is_local(slots, message.session, SlotState::Vacant, message.session);
}

/// A reaped child no longer counts as running, and every other child still does.
pub proof fn reaping_lowers_the_count(slots: Seq<Slot>, index: int, code: i32, group: i32)
    requires
        0 <= index < slots.len(),
        slots[index].state is Running,
    ensures
        running_count(
            slots.update(
                index,
                Slot {
                    generation: slots[index].generation,
                    state: SlotState::Exited { code, process_group: group },
                },
            ),
        ) == running_count(slots) - 1,
    decreases slots.len(),
{
    let slot = Slot {
        generation: slots[index].generation,
        state: SlotState::Exited { code, process_group: group },
    };
    let after = slots.update(index, slot);
    if index == slots.len() - 1 {
        assert(after.drop_last() =~= slots.drop_last());
    } else {
        assert(after.drop_last() =~= slots.drop_last().update(index, slot));
        reaping_lowers_the_count(slots.drop_last(), index, code, group);
    }
}

/// What a new child reported of its start so far.
#[derive(Clone, Debug, PartialEq, Eq)]
pub struct ExecRecord {
    pub bytes: Vec<u8>,
}

/// The size of a whole record.
pub const EXEC_RECORD: usize = 4;

impl ExecRecord {
    /// A record of which nothing has come.
    pub fn new() -> (record: ExecRecord)
        ensures
            record.bytes@.len() == 0,
    {
        ExecRecord { bytes: Vec::new() }
    }

    /// How much is still wanted.
    pub fn wanted(&self) -> (count: usize)
        requires
            self.bytes@.len() <= EXEC_RECORD,
        ensures
            count == EXEC_RECORD - self.bytes@.len(),
    {
        EXEC_RECORD - self.bytes.len()
    }

    /// Takes what was read. A record that is whole is the error of a start that failed.
    pub fn absorb(&mut self, chunk: &[u8], order: ByteOrder) -> (failure: Option<i32>)
        requires
            0 < chunk@.len() <= EXEC_RECORD - old(self).bytes@.len(),
        ensures
            final(self).bytes@ == old(self).bytes@ + chunk@,
            failure == if final(self).bytes@.len() == EXEC_RECORD {
                Some(wire::i32_of_bits(wire::u32_at(order, final(self).bytes@, 0)))
            } else {
                None
            },
    {
        self.bytes.extend_from_slice(chunk);
        assert(self.bytes@ =~= old(self).bytes@ + chunk@);
        if self.bytes.len() == EXEC_RECORD {
            Some(wire::get_i32(self.bytes.as_slice(), order, 0))
        } else {
            None
        }
    }

    /// Takes the end of the record: a start that reports nothing has succeeded.
    pub fn end(&self) -> (result: Result<(), IoError>)
        ensures
            match result {
                Ok(()) => self.bytes@.len() == 0,
                Err(error) => self.bytes@.len() > 0 && error.is_simple(
                    ErrorKind::UnexpectedEof,
                    "partial exec failure record"@,
                ),
            },
    {
        if self.bytes.len() == 0 {
            Ok(())
        } else {
            Err(IoError::new(ErrorKind::UnexpectedEof, "partial exec failure record"))
        }
    }
}

} // verus!
