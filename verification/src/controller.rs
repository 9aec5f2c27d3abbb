//! The controller's end of the broker protocol.
//!
//! The worker takes one request at a time, exchanges the frames that it needs, and says
//! what came of it. Exits that the broker reports meanwhile go to the reactor.
use crate::fault::{ErrorKind, IoError};
use crate::frame::{
    self, Frame, FrameModel, CLOSE, CLOSE_ALREADY_EXITED, CLOSE_KILLED, CLOSE_RESULT, CLOSE_STALE,
    ERROR, EXIT, HELLO, RELEASE, RELEASE_RESULT, SHUTDOWN, SHUTDOWN_RESULT, SIGNAL, SIGNAL_RESULT,
    SPAWN, SPAWN_OK, VERSION,
};
use crate::session::Sent;
use crate::spawn::BrokerSpawn;
use crate::spawn_payload;
use crate::wire::ByteOrder;
use std::collections::HashMap;
use vstd::prelude::*;

verus! {

broadcast use vstd::std_specs::hash::group_hash_axioms;

/// How many requests wait for the worker at most.
pub const REQUEST_CAPACITY: usize = 128;

/// How many requests the worker takes in one turn.
pub const REQUEST_QUANTUM: usize = 16;

/// The revision of the pair of programs that a handshake compares.
pub const HELLO_REVISION: u8 = 50;

/// What identifies a broker that fits: the release, the architecture and the revision,
/// separated by bars.
pub open spec fn identity_of(release: Seq<u8>, architecture: Seq<u8>) -> Seq<u8> {
    release.push(124) + architecture.push(124).push(HELLO_REVISION)
}

/// The identity that a broker sends in its greeting.
pub fn hello_payload(release: &[u8], architecture: &[u8]) -> (identity: Vec<u8>)
    ensures
        identity@ == identity_of(release@, architecture@),
{
    let mut identity: Vec<u8> = Vec::new();
    identity.extend_from_slice(release);
    identity.push(124);
    identity.extend_from_slice(architecture);
    identity.push(124);
    identity.push(HELLO_REVISION);
    assert(identity@ =~= identity_of(release@, architecture@));
    identity
}

/// Whether two byte strings are the same.
fn same_bytes(first: &Vec<u8>, second: &Vec<u8>) -> (same: bool)
    ensures
        same == (first@ == second@),
{
    if first.len() != second.len() {
        return false;
    }
    for index in 0..first.len()
        invariant
            first@.len() == second@.len(),
            forall|i: int| 0 <= i < index ==> first@[i] == second@[i],
    {
        if first[index] != second[index] {
            return false;
        }
    }
    assert(first@ =~= second@);
    true
}

/// Checks a broker's greeting. No descriptor may come with it.
pub fn check_hello(hello: &Frame, identity: &Vec<u8>, passed: bool) -> (result: Result<(), IoError>)
    ensures
        match result {
            Ok(()) => hello.kind == HELLO && hello.aux == VERSION && hello.payload@ == identity@
                && !passed,
            Err(error) => !(hello.kind == HELLO && hello.aux == VERSION && hello.payload@
                == identity@ && !passed) && error.is_simple(
                ErrorKind::InvalidData,
                "broker handshake rejected"@,
            ),
        },
{
    if hello.kind != HELLO || hello.aux != VERSION as u32 || !same_bytes(&hello.payload, identity)
        || passed {
        return Err(IoError::new(ErrorKind::InvalidData, "broker handshake rejected"));
    }
    Ok(())
}

/// Why a request to the broker failed.
#[derive(Clone, Debug, PartialEq, Eq)]
pub enum BrokerFault {
    /// The broker reported the operating system's code.
    Os(i32),
    /// The request was rejected before it was sent, or a transfer for it failed.
    Io(IoError),
    /// The frame that came answers no request.
    Unexpected,
    /// The session is not there any more.
    Stale,
    /// The answer to a close is none of the known ones.
    UnknownClose,
    /// The session's child has not exited.
    NotReleasable,
    /// The terminal did not come with the answer.
    OmittedMaster,
    /// The control socket came to its end.
    Lost,
}

/// What a close's answer means.
pub open spec fn close_status_of(status: u32) -> Result<(), BrokerFault> {
    if status == CLOSE_KILLED || status == CLOSE_ALREADY_EXITED {
        Ok(())
    } else if status == CLOSE_STALE {
        Err(BrokerFault::Stale)
    } else {
        Err(BrokerFault::UnknownClose)
    }
}

/// What a close's answer means.
pub fn close_status(status: u32) -> (result: Result<(), BrokerFault>)
    ensures
        result == close_status_of(status),
{
    if status == CLOSE_KILLED || status == CLOSE_ALREADY_EXITED {
        Ok(())
    } else if status == CLOSE_STALE {
        Err(BrokerFault::Stale)
    } else {
        Err(BrokerFault::UnknownClose)
    }
}

/// The category of a fault that has no code of the operating system.
pub open spec fn fault_kind_of(fault: BrokerFault) -> ErrorKind {
    match fault {
        BrokerFault::Stale => ErrorKind::NotFound,
        BrokerFault::NotReleasable => ErrorKind::WouldBlock,
        BrokerFault::Lost => ErrorKind::BrokenPipe,
        _ => ErrorKind::InvalidData,
    }
}

/// The text of a fault that has no code of the operating system.
pub open spec fn fault_text_of(fault: BrokerFault) -> Seq<char> {
    match fault {
        BrokerFault::Stale => "broker session is stale"@,
        BrokerFault::UnknownClose => "broker returned an unknown close result"@,
        BrokerFault::NotReleasable => "broker session is not releasable"@,
        BrokerFault::OmittedMaster => "broker omitted PTY master"@,
        BrokerFault::Lost => "broker control EOF"@,
        _ => "unexpected broker response"@,
    }
}

impl BrokerFault {
    /// The fault as an input or output failure.
    pub fn error(&self) -> (error: IoError)
        ensures
            match *self {
                BrokerFault::Os(code) => error.code == Some(code),
                BrokerFault::Io(inner) => error.kind == inner.kind && error.code == inner.code
                    && error.message@ == inner.message@,
                _ => error.is_simple(fault_kind_of(*self), fault_text_of(*self)),
            },
    {
        match self {
            BrokerFault::Os(code) => IoError::from_raw_os_error(*code),
            BrokerFault::Io(inner) => IoError {
                kind: inner.kind,
                code: inner.code,
                message: inner.message.clone(),
            },
            BrokerFault::Stale => IoError::new(ErrorKind::NotFound, "broker session is stale"),
            BrokerFault::UnknownClose => IoError::new(
                ErrorKind::InvalidData,
                "broker returned an unknown close result",
            ),
            BrokerFault::NotReleasable => IoError::new(
                ErrorKind::WouldBlock,
                "broker session is not releasable",
            ),
            BrokerFault::OmittedMaster => IoError::new(
                ErrorKind::InvalidData,
                "broker omitted PTY master",
            ),
            BrokerFault::Unexpected => IoError::new(
                ErrorKind::InvalidData,
                "unexpected broker response",
            ),
            BrokerFault::Lost => IoError::new(ErrorKind::BrokenPipe, "broker control EOF"),
        }
    }

    /// The category of the fault. That of a code is the platform's.
    pub fn kind(&self) -> (kind: ErrorKind)
        ensures
            match *self {
                BrokerFault::Os(_) => true,
                BrokerFault::Io(inner) => kind == inner.kind,
                _ => kind == fault_kind_of(*self),
            },
    {
        self.error().kind()
    }
}

/// The refusal of a request that the worker's queue did not take.
pub fn request_refused(sent: Sent) -> (result: Result<(), IoError>)
    ensures
        match sent {
            Sent::Queued => result is Ok,
            Sent::Full => result matches Err(error) && error.is_simple(
                ErrorKind::WouldBlock,
                "broker request queue is full"@,
            ),
            Sent::Disconnected => result matches Err(error) && error.is_simple(
                ErrorKind::BrokenPipe,
                "broker worker stopped"@,
            ),
        },
{
    match sent {
        Sent::Queued => Ok(()),
        Sent::Full => Err(IoError::new(ErrorKind::WouldBlock, "broker request queue is full")),
        Sent::Disconnected => Err(IoError::new(ErrorKind::BrokenPipe, "broker worker stopped")),
    }
}

/// A request to the worker.
#[derive(Debug)]
pub enum Request {
    Spawn { config: BrokerSpawn<u8> },
    CloseDetached { session: u64, handle: u64 },
    GracefulSignal { session: u64, handle: u64, signal: i32 },
    ForceClose { session: u64, handle: u64 },
    Release { session: u64, handle: u64 },
    Abort { session: u64 },
    AbortDetached { session: u64 },
    Signal { session: u64, signal: i32 },
    Shutdown,
}

/// What closing or releasing a session is for.
#[derive(Clone, Copy, Debug, PartialEq, Eq, Structural)]
pub enum Goal {
    /// A close that nobody waits for, or the forced end of a graceful one.
    Close { handle: u64, forced: bool },
    /// The release of a session.
    Release { handle: u64 },
    Abort,
    AbortDetached,
    /// The end of a child whose terminal did not come.
    DropSpawn,
    /// The end of a child whose terminal could not be prepared.
    DropUnprepared,
}

/// What an awaited answer is for.
#[derive(Clone, Copy, Debug, PartialEq, Eq, Structural)]
pub enum Task {
    Spawn,
    Close { session: u64, goal: Goal },
    Release { session: u64, goal: Goal, aborting: bool },
    GracefulSignal { handle: u64 },
    Signal,
    Shutdown,
}

/// Where the worker stands.
#[derive(Clone, Copy, Debug, PartialEq, Eq, Structural)]
pub enum Phase {
    Idle,
    /// An answer of this kind to this request is awaited.
    Await { request: u32, kind: u16, task: Task },
    /// The exit of a session that was closed is awaited.
    AwaitExit { session: u64, goal: Goal },
    /// The terminal of a new child is being prepared.
    Preparing { session: u64, pid: i32 },
}

/// What came of a request.
#[derive(Debug, PartialEq, Eq)]
pub enum Completed {
    Spawned { session: u64, pid: i32 },
    SpawnFailed(BrokerFault),
    Closed { handle: u64, forced: bool, succeeded: bool },
    GracefulSignal { handle: u64, result: Option<bool> },
    Released { handle: u64, succeeded: bool },
    Aborted(Result<(), BrokerFault>),
    AbortedDetached,
    Signalled(Result<bool, BrokerFault>),
    ShutDown { clean: bool },
}

/// What the worker's thread does next.
#[derive(Debug, PartialEq, Eq)]
pub enum WorkerStep {
    /// Send this frame, then receive.
    Send(Frame),
    /// Receive.
    Receive,
    /// Tell the reactor of an exit, then receive.
    Dispatch { session: u64, status: i32 },
    /// Prepare the terminal that came, then report to `after_prepare`.
    Prepare,
    /// Tell what came of the request.
    Done(Completed),
}

/// The worker's state.
pub struct Worker {
    pub order: ByteOrder,
    pub next_request: u32,
    pub exits: HashMap<u64, i32>,
    pub phase: Phase,
    /// Why the terminal of a child that is being dropped could not be prepared.
    pub unprepared: Option<IoError>,
}

/// The number that follows a request's.
pub open spec fn next_number(request: u32) -> u32 {
    if request == u32::MAX {
        u32::MAX
    } else {
        (request + 1) as u32
    }
}

/// The worker sent a request and awaits its answer. Exits are as given.
pub open spec fn requested(
    before: &Worker,
    after: &Worker,
    step: &WorkerStep,
    sent: FrameModel,
    answer: u16,
    task: Task,
    exits: Map<u64, i32>,
) -> bool {
    &&& *step matches WorkerStep::Send(message) && message@ == (FrameModel {
        request: before.next_request,
        ..sent
    })
    &&& after.order == before.order
    &&& after.next_request == next_number(before.next_request)
    &&& after.exits@ == exits
    &&& after.unprepared == before.unprepared
    &&& after.phase == (Phase::Await { request: before.next_request, kind: answer, task })
}

/// The worker is done with a request. Exits are as given.
pub open spec fn completed(
    before: &Worker,
    after: &Worker,
    step: &WorkerStep,
    result: Completed,
    exits: Map<u64, i32>,
) -> bool {
    &&& *step == WorkerStep::Done(result)
    &&& after.order == before.order
    &&& after.next_request == before.next_request
    &&& after.exits@ == exits
    &&& after.unprepared is None
    &&& after.phase is Idle
}

/// A frame that concerns a session.
pub open spec fn session_frame(kind: u16, session: u64) -> FrameModel {
    FrameModel { session, ..frame::bare(kind) }
}

/// What an abort came to, for each of its goals.
pub open spec fn abort_result(
    goal: Goal,
    result: Result<(), BrokerFault>,
    unprepared: Option<IoError>,
) -> Completed {
    match goal {
        Goal::Close { handle, forced } => Completed::Closed {
            handle,
            forced,
            succeeded: result is Ok,
        },
        Goal::Release { handle } => Completed::Released { handle, succeeded: result is Ok },
        Goal::Abort => Completed::Aborted(result),
        Goal::AbortDetached => Completed::AbortedDetached,
        Goal::DropSpawn => Completed::SpawnFailed(BrokerFault::OmittedMaster),
        Goal::DropUnprepared => Completed::SpawnFailed(
            match unprepared {
                Some(error) => BrokerFault::Io(error),
                None => BrokerFault::OmittedMaster,
            },
        ),
    }
}

/// What follows the answer to a close.
pub open spec fn after_close(
    before: &Worker,
    after: &Worker,
    step: &WorkerStep,
    session: u64,
    goal: Goal,
    result: Result<(), BrokerFault>,
    missing: bool,
) -> bool {
    if goal is Close {
        completed(
            before,
            after,
            step,
            abort_result(goal, result, before.unprepared),
            before.exits@,
        )
    } else {
        match result {
            Ok(()) => if before.exits@.contains_key(session) {
                requested(
                    before,
                    after,
                    step,
                    session_frame(RELEASE, session),
                    RELEASE_RESULT,
                    Task::Release { session, goal, aborting: true },
                    before.exits@.remove(session),
                )
            } else {
                &&& *step is Receive
                &&& after.order == before.order
                &&& after.next_request == before.next_request
                &&& after.exits@ == before.exits@
                &&& after.phase == (Phase::AwaitExit { session, goal })
                &&& after.unprepared == before.unprepared
            },
            Err(_) => completed(
                before,
                after,
                step,
                abort_result(
                    goal,
                    if missing {
                        Ok(())
                    } else {
                        result
                    },
                    before.unprepared,
                ),
                before.exits@,
            ),
        }
    }
}

/// What follows the answer to a release. A release that fails at first is tried again
/// with an abort.
pub open spec fn after_release(
    before: &Worker,
    after: &Worker,
    step: &WorkerStep,
    session: u64,
    goal: Goal,
    aborting: bool,
    result: Result<(), BrokerFault>,
) -> bool {
    let exits = if result is Ok {
        before.exits@.remove(session)
    } else {
        before.exits@
    };
    if result is Err && !aborting {
        requested(
            before,
            after,
            step,
            session_frame(CLOSE, session),
            CLOSE_RESULT,
            Task::Close { session, goal },
            exits,
        )
    } else {
        completed(before, after, step, abort_result(goal, result, before.unprepared), exits)
    }
}

/// What follows an answer, or the lack of one.
pub open spec fn concluded(
    before: &Worker,
    after: &Worker,
    step: &WorkerStep,
    task: Task,
    answer: Result<FrameModel, BrokerFault>,
    passed: bool,
    missing: bool,
) -> bool {
    match task {
        Task::Spawn => match answer {
            Ok(message) => if passed {
                &&& *step is Prepare
                &&& after.order == before.order
                &&& after.next_request == before.next_request
                &&& after.exits@ == before.exits@
                &&& after.phase == (Phase::Preparing { session: message.session, pid: message.code })
                &&& after.unprepared == before.unprepared
            } else {
                requested(
                    before,
                    after,
                    step,
                    session_frame(CLOSE, message.session),
                    CLOSE_RESULT,
                    Task::Close { session: message.session, goal: Goal::DropSpawn },
                    before.exits@,
                )
            },
            Err(fault) => completed(
                before,
                after,
                step,
                Completed::SpawnFailed(fault),
                before.exits@,
            ),
        },
        Task::Close { session, goal } => after_close(
            before,
            after,
            step,
            session,
            goal,
            match answer {
                Ok(message) => close_status_of(message.aux),
                Err(fault) => Err(fault),
            },
            missing || answer is Ok && close_status_of(answer->Ok_0.aux) == Err::<(), BrokerFault>(
                BrokerFault::Stale,
            ),
        ),
        Task::Release { session, goal, aborting } => after_release(
            before,
            after,
            step,
            session,
            goal,
            aborting,
            match answer {
                Ok(message) => if message.aux == 1 {
                    Ok(())
                } else {
                    Err(BrokerFault::NotReleasable)
                },
                Err(fault) => Err(fault),
            },
        ),
        Task::GracefulSignal { handle } => completed(
            before,
            after,
            step,
            Completed::GracefulSignal {
                handle,
                result: match answer {
                    Ok(message) => Some(message.aux == 1),
                    Err(_) => None,
                },
            },
            before.exits@,
        ),
        Task::Signal => completed(
            before,
            after,
            step,
            Completed::Signalled(
                match answer {
                    Ok(message) => Ok(message.aux == 1),
                    Err(fault) => Err(fault),
                },
            ),
            before.exits@,
        ),
        Task::Shutdown => completed(
            before,
            after,
            step,
            Completed::ShutDown { clean: answer is Ok },
            before.exits@,
        ),
    }
}

/// An exit is remembered and told to the reactor; the worker stands where it stood.
pub open spec fn recorded(
    before: &Worker,
    after: &Worker,
    step: &WorkerStep,
    message: FrameModel,
) -> bool {
    &&& *step == (WorkerStep::Dispatch { session: message.session, status: message.code })
    &&& after.order == before.order
    &&& after.next_request == before.next_request
    &&& after.exits@ == before.exits@.insert(message.session, message.code)
    &&& after.phase == before.phase
    &&& after.unprepared == before.unprepared
}

/// What a received frame does.
pub open spec fn received_step(
    before: &Worker,
    after: &Worker,
    step: &WorkerStep,
    message: FrameModel,
    passed: bool,
    code_is_missing: bool,
) -> bool {
    match before.phase {
        Phase::Idle | Phase::Preparing { .. } => if message.kind == EXIT {
            recorded(before, after, step, message)
        } else {
            *step is Receive && same_worker(before, after)
        },
        Phase::Await { request, kind, task } => if message.kind == EXIT {
            recorded(before, after, step, message)
        } else {
            let answer = if message.request == request && message.kind == kind {
                Ok(message)
            } else if message.request == request && message.kind == ERROR {
                Err(BrokerFault::Os(message.code))
            } else {
                Err(BrokerFault::Unexpected)
            };
            concluded(
                before,
                after,
                step,
                task,
                answer,
                passed,
                answer == Err::<FrameModel, BrokerFault>(BrokerFault::Os(message.code))
                    && code_is_missing,
            )
        },
        Phase::AwaitExit { session, goal } => if message.kind == EXIT && message.session
            == session {
            requested(
                before,
                after,
                step,
                session_frame(RELEASE, session),
                RELEASE_RESULT,
                Task::Release { session, goal, aborting: true },
                before.exits@,
            )
        } else if message.kind == EXIT {
            recorded(before, after, step, message)
        } else {
            *step is Receive && same_worker(before, after)
        },
    }
}

/// The worker is as it was.
pub open spec fn same_worker(before: &Worker, after: &Worker) -> bool {
    &&& after.order == before.order
    &&& after.next_request == before.next_request
    &&& after.exits@ == before.exits@
    &&& after.phase == before.phase
    &&& after.unprepared == before.unprepared
}

impl Worker {
    /// A worker that awaits nothing.
    pub fn new(order: ByteOrder) -> (worker: Worker)
        ensures
            worker.order == order,
            worker.next_request == 1,
            worker.exits@ == Map::<u64, i32>::empty(),
            worker.phase is Idle,
            worker.unprepared is None,
    {
        Worker {
            order,
            next_request: 1,
            exits: HashMap::new(),
            phase: Phase::Idle,
            unprepared: None,
        }
    }

    /// The number of the next request.
    fn request_id(&mut self) -> (request: u32)
        ensures
            request == old(self).next_request,
            final(self).next_request == next_number(old(self).next_request),
            final(self).order == old(self).order,
            final(self).exits == old(self).exits,
            final(self).phase == old(self).phase,
            final(self).unprepared == old(self).unprepared,
    {
        let request: u32 = self.next_request;
        self.next_request = self.next_request.saturating_add(1);
        request
    }

    /// Sends a request that concerns a session and awaits its answer.
    fn request(&mut self, kind: u16, session: u64, code: i32, answer: u16, task: Task) -> (step:
        WorkerStep)
        ensures
            requested(
                old(self),
                final(self),
                &step,
                FrameModel { session, code, ..frame::bare(kind) },
                answer,
                task,
                old(self).exits@,
            ),
    {
        let request: u32 = self.request_id();
        let mut message = Frame::new(kind);
        message.request = request;
        message.session = session;
        message.code = code;
        self.phase = Phase::Await { request, kind: answer, task };
        WorkerStep::Send(message)
    }

    /// Takes a request.
    pub fn start(&mut self, request: Request) -> (step: WorkerStep)
        requires
            old(self).phase is Idle,
        ensures
            match request {
                Request::Spawn { config } => match config.rejection() {
                    Some(text) => {
                        &&& step matches WorkerStep::Done(
                            Completed::SpawnFailed(BrokerFault::Io(error)),
                        ) && error.is_simple(ErrorKind::InvalidInput, text)
                        &&& same_worker(old(self), final(self))
                    },
                    None => requested(
                        old(self),
                        final(self),
                        &step,
                        FrameModel {
                            payload: spawn_payload::full_bytes(old(self).order, config.request()),
                            ..frame::bare(SPAWN)
                        },
                        SPAWN_OK,
                        Task::Spawn,
                        old(self).exits@,
                    ),
                },
                Request::CloseDetached { session, handle } => requested(
                    old(self),
                    final(self),
                    &step,
                    session_frame(CLOSE, session),
                    CLOSE_RESULT,
                    Task::Close { session, goal: Goal::Close { handle, forced: false } },
                    old(self).exits@,
                ),
                Request::ForceClose { session, handle } => requested(
                    old(self),
                    final(self),
                    &step,
                    session_frame(CLOSE, session),
                    CLOSE_RESULT,
                    Task::Close { session, goal: Goal::Close { handle, forced: true } },
                    old(self).exits@,
                ),
                Request::GracefulSignal { session, handle, signal } => requested(
                    old(self),
                    final(self),
                    &step,
                    FrameModel { session, code: signal, ..frame::bare(SIGNAL) },
                    SIGNAL_RESULT,
                    Task::GracefulSignal { handle },
                    old(self).exits@,
                ),
                Request::Signal { session, signal } => requested(
                    old(self),
                    final(self),
                    &step,
                    FrameModel { session, code: signal, ..frame::bare(SIGNAL) },
                    SIGNAL_RESULT,
                    Task::Signal,
                    old(self).exits@,
                ),
                Request::Release { session, handle } => requested(
                    old(self),
                    final(self),
                    &step,
                    session_frame(RELEASE, session),
                    RELEASE_RESULT,
                    Task::Release { session, goal: Goal::Release { handle }, aborting: false },
                    old(self).exits@,
                ),
                Request::Abort { session } => requested(
                    old(self),
                    final(self),
                    &step,
                    session_frame(CLOSE, session),
                    CLOSE_RESULT,
                    Task::Close { session, goal: Goal::Abort },
                    old(self).exits@,
                ),
                Request::AbortDetached { session } => requested(
                    old(self),
                    final(self),
                    &step,
                    session_frame(CLOSE, session),
                    CLOSE_RESULT,
                    Task::Close { session, goal: Goal::AbortDetached },
                    old(self).exits@,
                ),
                Request::Shutdown => requested(
                    old(self),
                    final(self),
                    &step,
                    frame::bare(SHUTDOWN),
                    SHUTDOWN_RESULT,
                    Task::Shutdown,
                    old(self).exits@,
                ),
            },
    {
        match request {
            Request::Spawn { config } => match config.encode(self.order) {
                Ok(payload) => {
                    let request: u32 = self.request_id();
                    let mut message = Frame::new(SPAWN);
                    message.request = request;
                    message.payload = payload;
                    self.phase = Phase::Await { request, kind: SPAWN_OK, task: Task::Spawn };
                    WorkerStep::Send(message)
                },
                Err(error) => WorkerStep::Done(
                    Completed::SpawnFailed(BrokerFault::Io(error)),
                ),
            },
            Request::CloseDetached { session, handle } => {
                let goal = Goal::Close { handle, forced: false };
                self.request(CLOSE, session, 0, CLOSE_RESULT, Task::Close { session, goal })
            },
            Request::ForceClose { session, handle } => {
                let goal = Goal::Close { handle, forced: true };
                self.request(CLOSE, session, 0, CLOSE_RESULT, Task::Close { session, goal })
            },
            Request::GracefulSignal { session, handle, signal } => self.request(
                SIGNAL,
                session,
                signal,
                SIGNAL_RESULT,
                Task::GracefulSignal { handle },
            ),
            Request::Signal { session, signal } => self.request(
                SIGNAL,
                session,
                signal,
                SIGNAL_RESULT,
                Task::Signal,
            ),
            Request::Release { session, handle } => {
                let goal = Goal::Release { handle };
                self.request(
                    RELEASE,
                    session,
                    0,
                    RELEASE_RESULT,
                    Task::Release { session, goal, aborting: false },
                )
            },
            Request::Abort { session } => self.request(
                CLOSE,
                session,
                0,
                CLOSE_RESULT,
                Task::Close { session, goal: Goal::Abort },
            ),
            Request::AbortDetached { session } => self.request(
                CLOSE,
                session,
                0,
                CLOSE_RESULT,
                Task::Close { session, goal: Goal::AbortDetached },
            ),
            Request::Shutdown => self.request(SHUTDOWN, 0, 0, SHUTDOWN_RESULT, Task::Shutdown),
        }
    }

    /// Ends the request.
    fn complete(&mut self, result: Completed) -> (step: WorkerStep)
        ensures
            completed(old(self), final(self), &step, result, old(self).exits@),
    {
        self.phase = Phase::Idle;
        self.unprepared = None;
        WorkerStep::Done(result)
    }

    /// Ends an abort.
    fn finish_abort(&mut self, goal: Goal, result: Result<(), BrokerFault>) -> (step: WorkerStep)
        ensures
            completed(
                old(self),
                final(self),
                &step,
                abort_result(goal, result, old(self).unprepared),
                old(self).exits@,
            ),
    {
        let completion = match goal {
            Goal::Close { handle, forced } => Completed::Closed {
                handle,
                forced,
                succeeded: result.is_ok(),
            },
            Goal::Release { handle } => Completed::Released { handle, succeeded: result.is_ok() },
            Goal::Abort => Completed::Aborted(result),
            Goal::AbortDetached => Completed::AbortedDetached,
            Goal::DropSpawn => Completed::SpawnFailed(BrokerFault::OmittedMaster),
            Goal::DropUnprepared => match self.unprepared.take() {
                Some(error) => Completed::SpawnFailed(BrokerFault::Io(error)),
                None => Completed::SpawnFailed(BrokerFault::OmittedMaster),
            },
        };
        self.complete(completion)
    }

    /// Goes on after the answer to a close.
    fn closed(
        &mut self,
        session: u64,
        goal: Goal,
        result: Result<(), BrokerFault>,
        missing: bool,
    ) -> (step: WorkerStep)
        ensures
            after_close(old(self), final(self), &step, session, goal, result, missing),
    {
        match goal {
            Goal::Close { .. } => {
                return self.finish_abort(goal, result);
            },
            _ => {},
        }
        match result {
            Ok(()) => {
                if self.exits.remove(&session).is_some() {
                    self.request(
                        RELEASE,
                        session,
                        0,
                        RELEASE_RESULT,
                        Task::Release { session, goal, aborting: true },
                    )
                } else {
                    assert(self.exits@ =~= old(self).exits@);
                    self.phase = Phase::AwaitExit { session, goal };
                    WorkerStep::Receive
                }
            },
            Err(fault) => {
                if missing {
                    self.finish_abort(goal, Ok(()))
                } else {
                    self.finish_abort(goal, Err(fault))
                }
            },
        }
    }

    /// Goes on after the answer to a release.
    fn released(
        &mut self,
        session: u64,
        goal: Goal,
        aborting: bool,
        result: Result<(), BrokerFault>,
    ) -> (step: WorkerStep)
        ensures
            after_release(old(self), final(self), &step, session, goal, aborting, result),
    {
        if result.is_ok() {
            self.exits.remove(&session);
            assert(self.exits@ =~= old(self).exits@.remove(session));
            return self.finish_abort(goal, result);
        }
        if aborting {
            return self.finish_abort(goal, result);
        }
        self.request(CLOSE, session, 0, CLOSE_RESULT, Task::Close { session, goal })
    }

    /// Goes on after an answer, or the lack of one. `missing` says that what is lacking is
    /// the session itself.
    fn conclude(
        &mut self,
        task: Task,
        answer: Result<&Frame, BrokerFault>,
        passed: bool,
        missing: bool,
    ) -> (step: WorkerStep)
        ensures
            concluded(
                old(self),
                final(self),
                &step,
                task,
                match answer {
                    Ok(message) => Ok(message@),
                    Err(fault) => Err(fault),
                },
                passed,
                missing,
            ),
    {
        match task {
            Task::Spawn => match answer {
                Ok(message) => {
                    let session: u64 = message.session;
                    if passed {
                        self.phase = Phase::Preparing { session, pid: message.code };
                        WorkerStep::Prepare
                    } else {
                        let goal = Goal::DropSpawn;
                        self.request(CLOSE, session, 0, CLOSE_RESULT, Task::Close { session, goal })
                    }
                },
                Err(fault) => self.complete(Completed::SpawnFailed(fault)),
            },
            Task::Close { session, goal } => match answer {
                Ok(message) => {
                    let stale = message.aux == CLOSE_STALE;
                    self.closed(session, goal, close_status(message.aux), missing || stale)
                },
                Err(fault) => self.closed(session, goal, Err(fault), missing),
            },
            Task::Release { session, goal, aborting } => match answer {
                Ok(message) => {
                    if message.aux == 1 {
                        self.released(session, goal, aborting, Ok(()))
                    } else {
                        self.released(session, goal, aborting, Err(BrokerFault::NotReleasable))
                    }
                },
                Err(fault) => self.released(session, goal, aborting, Err(fault)),
            },
            Task::GracefulSignal { handle } => {
                let result: Option<bool> = match answer {
                    Ok(message) => Some(message.aux == 1),
                    Err(_) => None,
                };
                self.complete(Completed::GracefulSignal { handle, result })
            },
            Task::Signal => {
                let result: Result<bool, BrokerFault> = match answer {
                    Ok(message) => Ok(message.aux == 1),
                    Err(fault) => Err(fault),
                };
                self.complete(Completed::Signalled(result))
            },
            Task::Shutdown => self.complete(Completed::ShutDown { clean: answer.is_ok() }),
        }
    }

    /// Remembers an exit and has it told to the reactor.
    fn record_exit(&mut self, message: &Frame) -> (step: WorkerStep)
        ensures
            recorded(old(self), final(self), &step, message@),
    {
        self.exits.insert(message.session, message.code);
        WorkerStep::Dispatch { session: message.session, status: message.code }
    }

    /// Takes a frame that came, with a descriptor or without. `code_is_missing` says
    /// whether the operating system's code in it means that nothing was found.
    pub fn received_with(&mut self, message: &Frame, passed: bool, code_is_missing: bool) -> (step:
        WorkerStep)
        ensures
            received_step(old(self), final(self), &step, message@, passed, code_is_missing),
    {
        match self.phase {
            Phase::Idle | Phase::Preparing { .. } => {
                if message.kind == EXIT {
                    return self.record_exit(message);
                }
                WorkerStep::Receive
            },
            Phase::Await { request, kind, task } => {
                if message.kind == EXIT {
                    return self.record_exit(message);
                }
                if message.request == request && message.kind == kind {
                    return self.conclude(task, Ok(message), passed, false);
                }
                if message.request == request && message.kind == ERROR {
                    return self.conclude(
                        task,
                        Err(BrokerFault::Os(message.code)),
                        passed,
                        code_is_missing,
                    );
                }
                self.conclude(task, Err(BrokerFault::Unexpected), passed, false)
            },
            Phase::AwaitExit { session, goal } => {
                if message.kind == EXIT && message.session == session {
                    return self.request(
                        RELEASE,
                        session,
                        0,
                        RELEASE_RESULT,
                        Task::Release { session, goal, aborting: true },
                    );
                }
                if message.kind == EXIT {
                    return self.record_exit(message);
                }
                WorkerStep::Receive
            },
        }
    }

    /// Takes a frame that came, with a descriptor or without. What an operating system's
    /// code in it means is the platform's.
    pub fn received(&mut self, message: &Frame, passed: bool) -> (step: WorkerStep)
        ensures
            exists|code_is_missing: bool| #[trigger]
                received_step(old(self), final(self), &step, message@, passed, code_is_missing),
    {
        let code_is_missing = IoError::from_raw_os_error(message.code).kind()
            == ErrorKind::NotFound;
        self.received_with(message, passed, code_is_missing)
    }

    /// Takes how the preparation of a new child's terminal ended. A child whose terminal
    /// cannot be prepared is aborted, and its spawn fails with that error.
    pub fn after_prepare(&mut self, prepared: Result<(), IoError>) -> (step: WorkerStep)
        requires
            old(self).phase is Preparing,
        ensures
            old(self).phase matches Phase::Preparing { session, pid } && match prepared {
                Ok(()) => completed(
                    old(self),
                    final(self),
                    &step,
                    Completed::Spawned { session, pid },
                    old(self).exits@,
                ),
                Err(error) => requested(
                    &(Worker { unprepared: Some(error), ..*old(self) }),
                    final(self),
                    &step,
                    session_frame(CLOSE, session),
                    CLOSE_RESULT,
                    Task::Close { session, goal: Goal::DropUnprepared },
                    old(self).exits@,
                ),
            },
    {
        match self.phase {
            Phase::Preparing { session, pid } => match prepared {
                Ok(()) => self.complete(Completed::Spawned { session, pid }),
                Err(error) => {
                    self.unprepared = Some(error);
                    let goal = Goal::DropUnprepared;
                    self.request(CLOSE, session, 0, CLOSE_RESULT, Task::Close { session, goal })
                },
            },
            _ => WorkerStep::Receive,
        }
    }

    /// Takes the end of the control socket.
    pub fn failed(&mut self) -> (step: WorkerStep)
        ensures
            failed_step(old(self), final(self), &step, BrokerFault::Lost, false),
    {
        self.fail(BrokerFault::Lost, false)
    }

    /// Takes the failure of a transfer on the control socket: what is under way ends with that
    /// error.
    pub fn failed_with(&mut self, error: IoError) -> (step: WorkerStep)
        ensures
            failed_step(
                old(self),
                final(self),
                &step,
                BrokerFault::Io(error),
                error.kind == ErrorKind::NotFound,
            ),
    {
        let missing = error.kind == ErrorKind::NotFound;
        self.fail(BrokerFault::Io(error), missing)
    }

    /// Ends what is under way with a fault. `missing` says that what is lacking is the session
    /// itself.
    fn fail(&mut self, fault: BrokerFault, missing: bool) -> (step: WorkerStep)
        ensures
            failed_step(old(self), final(self), &step, fault, missing),
    {
        match self.phase {
            Phase::Idle | Phase::Preparing { .. } => WorkerStep::Receive,
            Phase::Await { request: _, kind: _, task } => self.conclude(
                task,
                Err(fault),
                false,
                missing,
            ),
            Phase::AwaitExit { session: _, goal } => self.finish_abort(goal, Err(fault)),
        }
    }
}

/// What a failed transfer does: the answer that is awaited does not come, nor the exit.
pub open spec fn failed_step(
    before: &Worker,
    after: &Worker,
    step: &WorkerStep,
    fault: BrokerFault,
    missing: bool,
) -> bool {
    match before.phase {
        Phase::Idle | Phase::Preparing { .. } => *step is Receive && same_worker(before, after),
        Phase::Await { request, kind, task } => concluded(
            before,
            after,
            step,
            task,
            Err(fault),
            false,
            missing,
        ),
        Phase::AwaitExit { session, goal } => completed(
            before,
            after,
            step,
            abort_result(goal, Err(fault), before.unprepared),
            before.exits@,
        ),
    }
}

/// One turn of the worker at its requests. It ends at a shutdown, or when the quantum was
/// taken.
#[derive(Clone, Copy, Debug, PartialEq, Eq, Structural)]
pub struct RequestTurn {
    /// How many requests were taken.
    pub taken: usize,
    /// Whether the last of them was a shutdown.
    pub stopped: bool,
}

impl RequestTurn {
    /// Whether one more request can be taken.
    pub open spec fn is_open(&self) -> bool {
        self.taken < REQUEST_QUANTUM && !self.stopped
    }

    /// A turn that took nothing.
    pub fn new() -> (turn: RequestTurn)
        ensures
            turn == (RequestTurn { taken: 0, stopped: false }),
    {
        RequestTurn { taken: 0, stopped: false }
    }

    /// Whether one more request can be taken.
    pub fn takes_more(&self) -> (more: bool)
        ensures
            more == self.is_open(),
    {
        self.taken < REQUEST_QUANTUM && !self.stopped
    }

    /// Counts a request that was taken.
    pub fn count(&mut self, request: &Request)
        requires
            old(self).is_open(),
        ensures
            *final(self) == (RequestTurn {
                taken: (old(self).taken + 1) as usize,
                stopped: *request is Shutdown,
            }),
    {
        self.taken = self.taken + 1;
        self.stopped = matches!(request, Request::Shutdown);
    }

    /// Whom the turn wakes: the worker itself when more may wait, and the reactor when there
    /// is room for requests again. A shutdown wakes nobody.
    pub fn wakes(&self) -> (wakes: (bool, bool))
        ensures
            wakes.0 == (self.taken == REQUEST_QUANTUM && !self.stopped),
            wakes.1 == (self.taken != 0 && !self.stopped),
    {
        (
            self.taken == REQUEST_QUANTUM && !self.stopped,
            self.taken != 0 && !self.stopped,
        )
    }
}

/// Where the reaping of the broker's process stands.
#[derive(Clone, Copy, Debug, PartialEq, Eq, Structural)]
pub enum ReapProcess {
    /// It is over, with success or without.
    Settled(bool),
    /// Try again at once.
    Again,
    /// Wait a little and try again.
    Pause,
    /// Leave the process to the background reaper.
    Defer,
}

/// What one attempt to reap a process means: what the call returned, the category of its
/// failure, whether that failure says that there is no such child, and whether the time
/// for it is over.
pub fn after_reap(
    returned: i32,
    pid: i32,
    failure: ErrorKind,
    no_child: bool,
    overdue: bool,
) -> (step: ReapProcess)
    ensures
        step == if returned == pid {
            ReapProcess::Settled(true)
        } else if returned < 0 {
            if failure == ErrorKind::Interrupted {
                ReapProcess::Again
            } else {
                ReapProcess::Settled(no_child)
            }
        } else if overdue {
            ReapProcess::Defer
        } else {
            ReapProcess::Pause
        },
{
    if returned == pid {
        return ReapProcess::Settled(true);
    }
    if returned < 0 {
        return match failure {
            ErrorKind::Interrupted => ReapProcess::Again,
            _ => ReapProcess::Settled(no_child),
        };
    }
    if overdue {
        ReapProcess::Defer
    } else {
        ReapProcess::Pause
    }
}

/// An abort of a session whose child runs ends with its release: the close is answered,
/// the exit comes, and the release that follows is what the abort comes to.
pub proof fn abort_waits_for_exit(
    idle: &Worker,
    closing: &Worker,
    closed: &Worker,
    releasing: &Worker,
    sent: &WorkerStep,
    answered: &WorkerStep,
    exited: &WorkerStep,
    answer: FrameModel,
    exit: FrameModel,
    session: u64,
)
    requires
        requested(
            idle,
            closing,
            sent,
            session_frame(CLOSE, session),
            CLOSE_RESULT,
            Task::Close { session, goal: Goal::Abort },
            idle.exits@,
        ),
        !idle.exits@.contains_key(session),
        answer.kind == CLOSE_RESULT,
        answer.request == idle.next_request,
        answer.aux == CLOSE_KILLED,
        received_step(closing, closed, answered, answer, false, false),
        exit.kind == EXIT,
        exit.session == session,
        received_step(closed, releasing, exited, exit, false, false),
    ensures
        *answered is Receive,
        *exited matches WorkerStep::Send(message) && message.kind == RELEASE && message.session
            == session,
        releasing.phase matches Phase::Await { task, .. } && task == (Task::Release {
            session,
            goal: Goal::Abort,
            aborting: true,
        }),
{
}

/// However the abort of a child ends whose terminal could not be prepared, its spawn fails
/// with the error of the preparation.
pub proof fn unprepared_spawn_fails_with_its_error(
    before: &Worker,
    after: &Worker,
    step: &WorkerStep,
    error: IoError,
    result: Result<(), BrokerFault>,
    exits: Map<u64, i32>,
)
    requires
        before.unprepared == Some(error),
        completed(
            before,
            after,
            step,
            abort_result(Goal::DropUnprepared, result, before.unprepared),
            exits,
        ),
    ensures
        *step == WorkerStep::Done(Completed::SpawnFailed(BrokerFault::Io(error))),
{
}

} // verus!
