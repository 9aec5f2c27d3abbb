//! A plain client of the broker: its requests, what it makes of the replies, and the input
//! that it accepted for each session.
use crate::fault::{ErrorKind, IoError};
use crate::frame::{self, Frame, FrameModel};
use crate::spawn_payload;
use crate::text;
use crate::wire::{self, ByteOrder};
use std::collections::{HashMap, VecDeque};
use vstd::prelude::*;

verus! {

broadcast use vstd::std_specs::hash::group_hash_axioms;

/// Why accepted input was not written.
#[derive(Clone, Copy, Debug, PartialEq, Eq, Structural)]
pub enum InputFailure {
    SessionClosing,
    BrokerLost,
}

/// Input that was accepted and waits.
#[derive(Clone, Debug, PartialEq, Eq)]
pub struct AcceptedInput {
    pub sequence: u64,
    pub bytes: Vec<u8>,
}

/// A session of the client.
#[derive(Debug)]
pub struct ClientSession {
    pub id: u64,
    pub pid: i32,
    pub next_sequence: u64,
    pub queued: VecDeque<AcceptedInput>,
    pub failed: HashMap<u64, InputFailure>,
}

/// Whether input of this number waits.
pub open spec fn waits(queued: Seq<AcceptedInput>, sequence: u64) -> bool {
    exists|i: int| 0 <= i < queued.len() && (#[trigger] queued[i]).sequence == sequence
}

impl ClientSession {
    /// Every input that waits has a number that was given out.
    pub open spec fn wf(&self) -> bool {
        forall|i: int|
            0 <= i < self.queued@.len() ==> (#[trigger] self.queued@[i]).sequence
                < self.next_sequence
    }

    /// A session without input.
    pub fn new(id: u64, pid: i32) -> (session: ClientSession)
        ensures
            session.wf(),
            session.id == id,
            session.pid == pid,
            session.next_sequence == 1,
            session.queued@.len() == 0,
            session.failed@ == Map::<u64, InputFailure>::empty(),
    {
        ClientSession { id, pid, next_sequence: 1, queued: VecDeque::new(), failed: HashMap::new() }
    }

    /// Accepts input. The result is its number.
    pub fn accept(&mut self, bytes: &[u8]) -> (sequence: u64)
        requires
            old(self).wf(),
            old(self).next_sequence < u64::MAX,
        ensures
            final(self).wf(),
            sequence == old(self).next_sequence,
            final(self).next_sequence == old(self).next_sequence + 1,
            final(self).id == old(self).id,
            final(self).pid == old(self).pid,
            final(self).failed@ == old(self).failed@,
            final(self).queued@.len() == old(self).queued@.len() + 1,
            final(self).queued@.drop_last() == old(self).queued@,
            final(self).queued@.last().sequence == sequence,
            final(self).queued@.last().bytes@ == bytes@,
            waits(final(self).queued@, sequence),
    {
        let sequence: u64 = self.next_sequence;
        self.next_sequence = self.next_sequence + 1;
        let mut owned: Vec<u8> = Vec::new();
        owned.extend_from_slice(bytes);
        assert(owned@ =~= bytes@);
        let input = AcceptedInput { sequence, bytes: owned };
        let ghost before = self.queued@;
        self.queued.push_back(input);
        proof {
            assert(self.queued@.drop_last() =~= before);
            assert(self.queued@[before.len() as int].sequence == sequence);
        }
        sequence
    }

    /// Fails everything that waits.
    pub fn fail_accepted(&mut self, failure: InputFailure)
        ensures
            final(self).wf(),
            final(self).id == old(self).id,
            final(self).pid == old(self).pid,
            final(self).next_sequence == old(self).next_sequence,
            final(self).queued@.len() == 0,
            forall|sequence: u64|
                #![trigger final(self).failed@.contains_key(sequence)]
                #![trigger final(self).failed@[sequence]]
                if waits(old(self).queued@, sequence) {
                    final(self).failed@.contains_key(sequence) && final(self).failed@[sequence]
                        == failure
                } else {
                    &&& final(self).failed@.contains_key(sequence) == old(self).failed@.contains_key(sequence)
                    &&& old(self).failed@.contains_key(sequence) ==> final(self).failed@[sequence]
                        == old(self).failed@[sequence]
                },
    {
        let count: usize = self.queued.len();
        let ghost all = self.queued@;
        for done in 0..count
            invariant
                self.id == old(self).id,
                self.pid == old(self).pid,
                self.next_sequence == old(self).next_sequence,
                all == old(self).queued@,
                count == all.len(),
                self.queued@ == all.skip(done as int),
                forall|sequence: u64|
                    #![trigger self.failed@.contains_key(sequence)]
                    #![trigger self.failed@[sequence]]
                    if waits(all.take(done as int), sequence) {
                        self.failed@.contains_key(sequence) && self.failed@[sequence] == failure
                    } else {
                        &&& self.failed@.contains_key(sequence) == old(self).failed@.contains_key(
                            sequence,
                        )
                        &&& old(self).failed@.contains_key(sequence) ==> self.failed@[sequence]
                            == old(self).failed@[sequence]
                    },
        {
            if let Some(input) = self.queued.pop_front() {
                let sequence: u64 = input.sequence;
                self.failed.insert(sequence, failure);
                proof {
                    let earlier = all.take(done as int);
                    let later = all.take(done + 1);
                    assert(input == all[done as int]);
                    assert(self.queued@ =~= all.skip(done + 1));
                    assert forall|other: u64| waits(later, other) == (waits(earlier, other) || other
                        == sequence) by {
                        if waits(earlier, other) {
                            let i = choose|i: int|
                                0 <= i < earlier.len() && (#[trigger] earlier[i]).sequence == other;
                            assert(later[i].sequence == other);
                        }
                        assert(later[done as int].sequence == sequence);
                        if waits(later, other) && other != sequence {
                            let i = choose|i: int|
                                0 <= i < later.len() && (#[trigger] later[i]).sequence == other;
                            assert(earlier[i].sequence == other);
                        }
                    }
                }
            }
        }
        assert(all.take(all.len() as int) =~= all);
    }

    /// What became of accepted input: a failure, or success where nothing of it waits any
    /// more.
    pub fn flush_result(&self, sequence: u64) -> (result: Result<(), InputFailure>)
        requires
            self.failed@.contains_key(sequence) || !waits(self.queued@, sequence),
        ensures
            result == if self.failed@.contains_key(sequence) {
                Err::<(), InputFailure>(self.failed@[sequence])
            } else {
                Ok(())
            },
    {
        match self.failed.get(&sequence) {
            Some(failure) => Err(*failure),
            None => Ok(()),
        }
    }
}

/// What a reply means to the request that waits.
#[derive(Clone, Debug, PartialEq, Eq)]
pub enum Awaited {
    /// It tells of an exit. Wait on.
    Again,
    /// It is the reply.
    Reply,
    /// It refuses the request, or is none that can come.
    Failed(IoError),
}

/// What a broker's refusal says.
pub open spec fn refusal_text(aux: u32, code: i32) -> Seq<char> {
    "broker error category="@ + text::decimal_of(aux as int) + " code="@ + text::decimal_of(
        code as int,
    )
}

/// The client's side of the control protocol.
#[derive(Debug)]
pub struct Client {
    pub next_request: u32,
    /// The exits that came while something else was awaited.
    pub exits: HashMap<u64, i32>,
}

impl Client {
    /// A client that has asked for nothing.
    pub fn new() -> (client: Client)
        ensures
            client.next_request == 1,
            client.exits@ == Map::<u64, i32>::empty(),
    {
        Client { next_request: 1, exits: HashMap::new() }
    }

    /// The number of the next request.
    pub fn request_id(&mut self) -> (request: u32)
        requires
            old(self).next_request < u32::MAX,
        ensures
            request == old(self).next_request,
            final(self).next_request == old(self).next_request + 1,
            final(self).exits == old(self).exits,
    {
        let request: u32 = self.next_request;
        self.next_request = self.next_request + 1;
        request
    }

    /// A request of the given kind for a session.
    pub fn request(&mut self, kind: u16, session: u64) -> (message: Frame)
        requires
            old(self).next_request < u32::MAX,
        ensures
            message@ == (FrameModel {
                request: old(self).next_request,
                session,
                ..frame::bare(kind)
            }),
            final(self).next_request == old(self).next_request + 1,
            final(self).exits == old(self).exits,
    {
        let mut message = Frame::new(kind);
        message.request = self.request_id();
        message.session = session;
        message
    }

    /// A request to spawn, in the short layout.
    pub fn spawn_request(&mut self, argv: &Vec<Vec<u8>>, inject: bool, order: ByteOrder) -> (message:
        Frame)
        requires
            old(self).next_request < u32::MAX,
        ensures
            message@ == (FrameModel {
                request: old(self).next_request,
                payload: spawn_payload::short_bytes(
                    order,
                    inject,
                    spawn_payload::texts(argv@),
                ),
                ..frame::bare(frame::SPAWN)
            }),
            final(self).next_request == old(self).next_request + 1,
            final(self).exits == old(self).exits,
    {
        let mut payload: Vec<u8> = Vec::new();
        wire::put_u32(
            &mut payload,
            order,
            if inject {
                1
            } else {
                0
            },
        );
        wire::put_u32(&mut payload, order, argv.len() as u32);
        let ghost head = payload@;
        let ghost list = spawn_payload::texts(argv@);
        assert(head =~= head + spawn_payload::list_bytes(order, list.take(0)));
        for index in 0..argv.len()
            invariant
                list == spawn_payload::texts(argv@),
                payload@ == head + spawn_payload::list_bytes(order, list.take(index as int)),
        {
            let ghost before = payload@;
            wire::put_u32(&mut payload, order, argv[index].len() as u32);
            payload.extend_from_slice(argv[index].as_slice());
            proof {
                let taken = list.take(index + 1);
                assert(taken.drop_last() =~= list.take(index as int));
                assert(taken.last() == argv@[index as int]@);
                assert(payload@ =~= before + spawn_payload::text_bytes(order, taken.last()));
                assert(payload@ =~= head + spawn_payload::list_bytes(order, taken));
            }
        }
        assert(list.take(list.len() as int) =~= list);
        let mut message = self.request(frame::SPAWN, 0);
        message.payload = payload;
        assert(payload@ =~= spawn_payload::short_bytes(order, inject, list));
        message
    }

    /// Takes a message while the reply to a request is awaited. Exits are kept for later.
    pub fn receive_for(&mut self, request: u32, kind: u16, message: &Frame) -> (awaited: Awaited)
        ensures
            final(self).next_request == old(self).next_request,
            final(self).exits@ == if message.kind == frame::EXIT {
                old(self).exits@.insert(message.session, message.code)
            } else {
                old(self).exits@
            },
            if message.kind == frame::EXIT {
                awaited is Again
            } else if message.request == request && message.kind == kind {
                awaited is Reply
            } else if message.request == request && message.kind == frame::ERROR {
                awaited matches Awaited::Failed(error) && error.is_simple(
                    ErrorKind::Other,
                    refusal_text(message.aux, message.code),
                )
            } else {
                awaited matches Awaited::Failed(error) && error.is_simple(
                    ErrorKind::InvalidData,
                    "unexpected broker response"@,
                )
            },
    {
        if message.kind == frame::EXIT {
            self.exits.insert(message.session, message.code);
            return Awaited::Again;
        }
        if message.request == request && message.kind == kind {
            return Awaited::Reply;
        }
        if message.request == request && message.kind == frame::ERROR {
            let mut says = String::new();
            says.append("broker error category=");
            says.append(text::decimal(message.aux as i64).as_str());
            says.append(" code=");
            says.append(text::decimal(message.code as i64).as_str());
            assert(says@ =~= refusal_text(message.aux, message.code));
            return Awaited::Failed(IoError::new(ErrorKind::Other, says.as_str()));
        }
        Awaited::Failed(IoError::new(ErrorKind::InvalidData, "unexpected broker response"))
    }

    /// Takes a message while the refusal of a spawn is awaited.
    pub fn expect_spawn_failure(&mut self, request: u32, message: &Frame) -> (awaited: Awaited)
        ensures
            final(self).next_request == old(self).next_request,
            final(self).exits@ == if message.kind == frame::EXIT {
                old(self).exits@.insert(message.session, message.code)
            } else {
                old(self).exits@
            },
            if message.kind == frame::EXIT {
                awaited is Again
            } else if message.request == request && message.kind == frame::ERROR {
                awaited is Reply
            } else {
                awaited matches Awaited::Failed(error) && error.is_simple(
                    ErrorKind::InvalidData,
                    "expected spawn error"@,
                )
            },
    {
        if message.kind == frame::EXIT {
            self.exits.insert(message.session, message.code);
            return Awaited::Again;
        }
        if message.request == request && message.kind == frame::ERROR {
            return Awaited::Reply;
        }
        Awaited::Failed(IoError::new(ErrorKind::InvalidData, "expected spawn error"))
    }

    /// The exit of a session that came before it was asked for.
    pub fn known_exit(&mut self, session: u64) -> (code: Option<i32>)
        ensures
            final(self).next_request == old(self).next_request,
            code == if old(self).exits@.contains_key(session) {
                Some(old(self).exits@[session])
            } else {
                None
            },
            final(self).exits@ == old(self).exits@.remove(session),
    {
        let code: Option<i32> = self.exits.remove(&session);
        assert(code is None ==> old(self).exits@.remove(session) =~= old(self).exits@);
        code
    }

    /// Takes a message while the exit of a session is awaited. Other exits are kept for
    /// later, other messages dropped.
    pub fn exit_from(&mut self, session: u64, message: &Frame) -> (code: Option<i32>)
        ensures
            final(self).next_request == old(self).next_request,
            code == if message.kind == frame::EXIT && message.session == session {
                Some(message.code)
            } else {
                None
            },
            final(self).exits@ == if message.kind == frame::EXIT && message.session != session {
                old(self).exits@.insert(message.session, message.code)
            } else {
                old(self).exits@
            },
    {
        if message.kind != frame::EXIT {
            return None;
        }
        if message.session == session {
            return Some(message.code);
        }
        self.exits.insert(message.session, message.code);
        None
    }
}

/// The session that a reply to a spawn tells of. It comes with the terminal.
pub fn spawned_session(reply: &Frame, has_master: bool) -> (result: Result<ClientSession, IoError>)
    ensures
        match result {
            Ok(session) => {
                &&& has_master
                &&& session.wf()
                &&& session.id == reply.session
                &&& session.pid == reply.code
                &&& session.next_sequence == 1
                &&& session.queued@.len() == 0
                &&& session.failed@ == Map::<u64, InputFailure>::empty()
            },
            Err(error) => !has_master && error.is_simple(
                ErrorKind::InvalidData,
                "spawn response omitted PTY master"@,
            ),
        },
{
    if !has_master {
        return Err(IoError::new(ErrorKind::InvalidData, "spawn response omitted PTY master"));
    }
    Ok(ClientSession::new(reply.session, reply.code))
}

/// The statistics in a reply: running jobs, open descriptors, and signals after a reap.
pub fn stats_from(reply: &Frame, order: ByteOrder) -> (result: Result<(u32, u32, u32), IoError>)
    ensures
        match result {
            Ok((jobs, descriptors, signals)) => {
                &&& reply.payload@.len() == 12
                &&& jobs == wire::u32_at(order, reply.payload@, 0)
                &&& descriptors == wire::u32_at(order, reply.payload@, 4)
                &&& signals == wire::u32_at(order, reply.payload@, 8)
            },
            Err(error) => reply.payload@.len() != 12 && error.is_simple(
                ErrorKind::InvalidData,
                "bad stats"@,
            ),
        },
{
    let payload = reply.payload.as_slice();
    if payload.len() != 12 {
        return Err(IoError::new(ErrorKind::InvalidData, "bad stats"));
    }
    Ok(
        (
            wire::get_u32(payload, order, 0),
            wire::get_u32(payload, order, 4),
            wire::get_u32(payload, order, 8),
        ),
    )
}

/// The client reads the statistics that the broker wrote.
pub proof fn stats_round_trip(order: ByteOrder, jobs: u32, descriptors: u32, signals: u32)
    ensures
        ({
            let payload = wire::u32_bytes(order, jobs) + wire::u32_bytes(order, descriptors)
                + wire::u32_bytes(order, signals);
            &&& payload.len() == 12
            &&& wire::u32_at(order, payload, 0) == jobs
            &&& wire::u32_at(order, payload, 4) == descriptors
            &&& wire::u32_at(order, payload, 8) == signals
        }),
{
    let payload = wire::u32_bytes(order, jobs) + wire::u32_bytes(order, descriptors)
        + wire::u32_bytes(order, signals);
    wire::u32_round_trip(order, jobs);
    wire::u32_round_trip(order, descriptors);
    wire::u32_round_trip(order, signals);
    assert(payload.subrange(0, 4) =~= wire::u32_bytes(order, jobs));
    assert(payload.subrange(4, 8) =~= wire::u32_bytes(order, descriptors));
    assert(payload.subrange(8, 12) =~= wire::u32_bytes(order, signals));
    wire::u32_at_offset(order, payload, 0, wire::u32_bytes(order, jobs));
    wire::u32_at_offset(order, payload, 4, wire::u32_bytes(order, descriptors));
    wire::u32_at_offset(order, payload, 8, wire::u32_bytes(order, signals));
}

} // verus!
