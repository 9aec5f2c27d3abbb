//! What holds between the engine, its broker and the children over several steps: a child is
//! found under its session from its start to its release, its end is told as it was, and
//! every request gets its own answer.
use crate::broker::{Broker, BrokerStep, ExecRecord, Killed, SlotState, SpawnStep};
use crate::candidate::{self, Candidates, Waited as CandidateWaited};
use crate::cleanup::{Cleanup, CleanupQueue, PendingCleanup};
use crate::client::{self, Awaited, Client};
use crate::controller::{
    self, BrokerFault, Completed, Phase, Request, Worker, WorkerStep,
};
use crate::fault::{ErrorKind, IoError};
use crate::frame::{self, Frame};
use crate::handle;
use crate::posix;
use crate::reaper::{Reaper, Waited};
use crate::spawn;
use crate::wire::{self, ByteOrder};
use vstd::prelude::*;

verus! {

/// A child that was started is found under its session, with its process, and its controller
/// is told both.
pub proof fn started_child_is_found(
    started: &mut Broker,
    request: u32,
    pid: i32,
    step: SpawnStep,
    session: u64,
    registered: &mut Broker,
    answer: SpawnStep,
    state: Option<SlotState>,
    other: u64,
    before: Option<SlotState>,
    after: Option<SlotState>,
)
    requires
        old(started).wf(),
        old(started).slots().len() < u32::MAX,
        call_ensures(
            Broker::after_spawn,
            (started, request, false, Ok::<i32, Option<i32>>(pid)),
            step,
        ),
        step == (SpawnStep::Register { pid, session }),
        *old(registered) == *final(started),
        call_ensures(
            Broker::after_registration,
            (registered, request, pid, session, Ok::<(), Option<i32>>(())),
            answer,
        ),
        call_ensures(Broker::lookup, (&*final(registered), session), state),
        call_ensures(Broker::lookup, (&*old(started), other), before),
        call_ensures(Broker::lookup, (&*final(registered), other), after),
        other != session,
        before matches Some(found) && !(found is Vacant),
    ensures
        state == Some(SlotState::Running { pid }),
        after == before,
        answer matches SpawnStep::Reply(reply) && reply.kind == frame::SPAWN_OK && reply.request
            == request && reply.session == session && reply.code == pid,
{
    let slots = old(started).slots();
    let (index, generation) = handle::handle_parts_of(session).unwrap();
    handle::handle_is_canonical(session);
    crate::broker::start_keeps_other_sessions(slots, index, pid, other);
}

/// A child that cannot be watched is discarded, its session names nothing, and the request is
/// refused with the kernel's code.
pub proof fn unwatched_child_is_given_up(
    broker: &mut Broker,
    request: u32,
    pid: i32,
    session: u64,
    code: i32,
    step: SpawnStep,
    before: Option<SlotState>,
    state: Option<SlotState>,
)
    requires
        call_ensures(
            Broker::after_registration,
            (broker, request, pid, session, Err::<(), Option<i32>>(Some(code))),
            step,
        ),
        call_ensures(Broker::lookup, (&*old(broker), session), before),
        before is Some,
        call_ensures(Broker::lookup, (&*final(broker), session), state),
    ensures
        state == Some(SlotState::Vacant),
        step matches SpawnStep::Discard { pid: discarded, reply } && discarded == pid && reply.kind
            == frame::ERROR && reply.request == request && reply.code == code,
{
    crate::broker::update_is_local(old(broker).slots(), session, SlotState::Vacant, session);
}

/// The end of a child is told as it was: an exit code as that code, a signal as its negated
/// number, under the session of the child, which keeps it until its release.
pub proof fn end_is_told_as_it_was(
    broker: &mut Broker,
    session: u64,
    pid: i32,
    status: i32,
    notice: Frame,
    before: Option<SlotState>,
    state: Option<SlotState>,
    number: i32,
)
    requires
        call_ensures(Broker::reaped, (broker, session, pid, status), notice),
        call_ensures(Broker::lookup, (&*old(broker), session), before),
        before is Some,
        call_ensures(Broker::lookup, (&*final(broker), session), state),
    ensures
        notice.kind == frame::EXIT && notice.session == session,
        state == Some(SlotState::Exited { code: notice.code, process_group: pid }),
        0 <= number <= 255 && status == number * 256 ==> notice.code == number,
        1 <= number <= 126 && (status == number || status == number + 128) ==> notice.code
            == -number,
{
    posix::wait_codes_keep_the_end(number, status);
    crate::broker::update_is_local(
        old(broker).slots(),
        session,
        SlotState::Exited { code: posix::wait_code(status), process_group: pid },
        session,
    );
}

/// A process that was reaped ends the session that ran it, and no other; a process that no
/// session runs ends none.
pub proof fn reaped_process_ends_its_session(
    broker: &mut Broker,
    pid: i32,
    status: i32,
    notice: Option<Frame>,
    session: u64,
    before: Option<SlotState>,
    after: Option<SlotState>,
    number: i32,
)
    requires
        old(broker).wf(),
        call_ensures(Broker::reap, (broker, pid, status), notice),
        call_ensures(Broker::lookup, (&*old(broker), session), before),
        call_ensures(Broker::lookup, (&*final(broker), session), after),
    ensures
        before == Some(SlotState::Running { pid }) ==> notice is Some,
        notice matches Some(message) ==> {
            &&& message.kind == frame::EXIT
            &&& message.session == session ==> before == Some(SlotState::Running { pid }) && after
                == Some(SlotState::Exited { code: message.code, process_group: pid })
            &&& message.session != session ==> after == before
            &&& 0 <= number <= 255 && status == number * 256 ==> message.code == number
            &&& 1 <= number <= 126 && (status == number || status == number + 128)
                ==> message.code == -number
        },
        notice is None ==> after == before,
{
    posix::wait_codes_keep_the_end(number, status);
    if before == Some(SlotState::Running { pid }) {
        let (index, generation) = handle::handle_parts_of(session).unwrap();
        assert(old(broker).slots()[index as int].state == (SlotState::Running { pid }));
    }
    if let Some(message) = notice {
        crate::broker::update_is_local(
            old(broker).slots(),
            message.session,
            SlotState::Exited { code: posix::wait_code(status), process_group: pid },
            session,
        );
    }
}

/// A close kills the group of a running child, answers how one that exited ended, and finds
/// anything else stale. Every answer carries the number of its request.
pub proof fn close_is_answered_by_state(
    broker: &Broker,
    message: &Frame,
    step: BrokerStep,
    state: Option<SlotState>,
    killed: Killed,
    reply: Frame,
)
    requires
        call_ensures(Broker::handle_close, (broker, message), step),
        call_ensures(Broker::lookup, (broker, message.session), state),
        call_ensures(Broker::after_close, (broker, message.request, message.session, killed), reply),
    ensures
        state matches Some(SlotState::Running { pid }) ==> (step matches BrokerStep::Close {
            request,
            session,
            group,
        } && request == message.request && session == message.session && group == pid),
        state matches Some(SlotState::Exited { code, process_group }) ==> (
        step matches BrokerStep::SignalAndReply { group, signal, reply } && group == process_group
            && signal == broker.codes().sigkill && reply.kind == frame::CLOSE_RESULT
            && reply.request == message.request && reply.session == message.session && reply.code
            == code && reply.aux == frame::CLOSE_ALREADY_EXITED),
        !(state matches Some(SlotState::Running { .. })) && !(state matches Some(
            SlotState::Exited { .. },
        )) ==> (step matches BrokerStep::Reply(reply) && reply.kind == frame::CLOSE_RESULT
            && reply.request == message.request && reply.aux == frame::CLOSE_STALE),
        reply.request == message.request,
        killed is Failed <==> reply.kind == frame::ERROR,
        !(killed is Failed) ==> reply.kind == frame::CLOSE_RESULT && reply.aux
            == frame::CLOSE_KILLED && reply.session == message.session,
        killed matches Killed::Failed(Some(code)) ==> reply.code == code,
{
}

/// A session is released exactly when its child exited; it names nothing then, and what is
/// left of its group is killed.
pub proof fn release_needs_an_exit(
    broker: &mut Broker,
    message: &Frame,
    step: BrokerStep,
    before: Option<SlotState>,
    after: Option<SlotState>,
)
    requires
        call_ensures(Broker::handle_release, (broker, message), step),
        call_ensures(Broker::lookup, (&*old(broker), message.session), before),
        call_ensures(Broker::lookup, (&*final(broker), message.session), after),
    ensures
        before matches Some(SlotState::Exited { process_group, .. }) ==> after == Some(
            SlotState::Vacant,
        ) && (step matches BrokerStep::SignalAndReply { group, signal, reply } && group
            == process_group && signal == old(broker).codes().sigkill && reply.kind
            == frame::RELEASE_RESULT && reply.request == message.request && reply.aux == 1),
        !(before matches Some(SlotState::Exited { .. })) ==> after == before && (
        step matches BrokerStep::Reply(reply) && reply.kind == frame::RELEASE_RESULT
            && reply.request == message.request && reply.aux == 0),
{
    if before matches Some(SlotState::Exited { .. }) {
        crate::broker::update_is_local(
            old(broker).slots(),
            message.session,
            SlotState::Vacant,
            message.session,
        );
    }
}

/// A signal from 1 to 31 goes to the group of a running child as it is; it counts as delivered
/// when the kernel delivered it.
pub proof fn signal_goes_to_a_running_child(
    broker: &Broker,
    message: &Frame,
    step: BrokerStep,
    state: Option<SlotState>,
    killed: Killed,
    reply: Frame,
)
    requires
        call_ensures(Broker::handle_signal, (broker, message), step),
        call_ensures(Broker::lookup, (broker, message.session), state),
        call_ensures(Broker::after_signal, (broker, message.request, killed), reply),
    ensures
        step is Signal <==> 1 <= message.code <= 31 && (state matches Some(
            SlotState::Running { .. },
        )),
        step matches BrokerStep::Signal { request, group, signal } ==> request == message.request
            && signal == message.code && state == Some(SlotState::Running { pid: group }),
        step matches BrokerStep::Reply(refusal) ==> refusal.request == message.request && (
        refusal.kind == frame::ERROR <==> !(1 <= message.code <= 31)) && refusal.aux != 1
            || refusal.kind == frame::ERROR,
        reply.request == message.request,
        killed is Delivered <==> reply.kind == frame::SIGNAL_RESULT && reply.aux == 1,
        killed is Failed <==> reply.kind == frame::ERROR,
{
}

/// A signal that the engine asks for reaches the child of its session, and the engine learns
/// whether the kernel delivered it.
pub proof fn signal_makes_the_round(
    asking: &mut Worker,
    session: u64,
    signal: i32,
    sent: Frame,
    first: WorkerStep,
    broker: &Broker,
    state: Option<SlotState>,
    pid: i32,
    step: BrokerStep,
    killed: Killed,
    reply: Frame,
    answered: &mut Worker,
    last: WorkerStep,
)
    requires
        old(asking).phase is Idle,
        call_ensures(Worker::start, (asking, Request::Signal { session, signal }), first),
        first == WorkerStep::Send(sent),
        1 <= signal <= 31,
        call_ensures(Broker::lookup, (broker, session), state),
        state == Some(SlotState::Running { pid }),
        call_ensures(Broker::handle_signal, (broker, &sent), step),
        call_ensures(Broker::after_signal, (broker, sent.request, killed), reply),
        *old(answered) == *final(asking),
        call_ensures(Worker::received_with, (answered, &reply, false, false), last),
    ensures
        step == (BrokerStep::Signal { request: sent.request, group: pid, signal }),
        killed is Delivered ==> last == WorkerStep::Done(Completed::Signalled(Ok(true))),
        killed is NoSuchProcess ==> last == WorkerStep::Done(Completed::Signalled(Ok(false))),
        killed matches Killed::Failed(Some(code)) ==> last == WorkerStep::Done(
            Completed::Signalled(Err(BrokerFault::Os(code))),
        ),
        final(answered).phase is Idle,
{
}

/// A close that the engine asks for kills the child of its session, and counts as done when
/// the child was killed or had exited.
pub proof fn close_makes_the_round(
    asking: &mut Worker,
    session: u64,
    handle: u64,
    sent: Frame,
    first: WorkerStep,
    broker: &Broker,
    state: Option<SlotState>,
    step: BrokerStep,
    killed: Killed,
    reply: Frame,
    answered: &mut Worker,
    last: WorkerStep,
)
    requires
        old(asking).phase is Idle,
        call_ensures(Worker::start, (asking, Request::ForceClose { session, handle }), first),
        first == WorkerStep::Send(sent),
        call_ensures(Broker::lookup, (broker, session), state),
        call_ensures(Broker::handle_close, (broker, &sent), step),
        match step {
            BrokerStep::Close { request, session: named, .. } => call_ensures(
                Broker::after_close,
                (broker, request, named, killed),
                reply,
            ),
            BrokerStep::SignalAndReply { reply: given, .. } => reply == given,
            BrokerStep::Reply(given) => reply == given,
            _ => false,
        },
        *old(answered) == *final(asking),
        call_ensures(Worker::received_with, (answered, &reply, false, false), last),
    ensures
        state matches Some(SlotState::Running { pid }) ==> (step matches BrokerStep::Close {
            group,
            ..
        } && group == pid) && last == WorkerStep::Done(
            Completed::Closed { handle, forced: true, succeeded: !(killed is Failed) },
        ),
        state matches Some(SlotState::Exited { .. }) ==> last == WorkerStep::Done(
            Completed::Closed { handle, forced: true, succeeded: true },
        ),
        state is None ==> last == WorkerStep::Done(
            Completed::Closed { handle, forced: true, succeeded: false },
        ),
{
}

/// A child's exit is told to the engine whatever it waits for, as the broker told it.
pub proof fn exit_is_always_told(
    worker: &mut Worker,
    message: &Frame,
    passed: bool,
    step: WorkerStep,
    session: u64,
)
    requires
        call_ensures(Worker::received_with, (worker, message, passed, false), step),
        message.kind == frame::EXIT,
        message.session == session,
        !(old(worker).phase matches Phase::AwaitExit { session: awaited, .. } && awaited
            == session),
    ensures
        step == (WorkerStep::Dispatch { session, status: message.code }),
        final(worker).phase == old(worker).phase,
        final(worker).exits@.contains_key(session) && final(worker).exits@[session]
            == message.code,
{
}

/// A spawn that the broker answered gives the session and the process that it named, once the
/// terminal is prepared; an error gives the kernel's code.
pub proof fn spawn_gives_the_started_session(
    answered: &mut Worker,
    reply: &Frame,
    passed: bool,
    step: WorkerStep,
    prepared: &mut Worker,
    last: WorkerStep,
)
    requires
        old(answered).phase matches Phase::Await { request, kind, task } && task is Spawn && kind
            == frame::SPAWN_OK && request == reply.request,
        old(answered).unprepared is None,
        call_ensures(Worker::received_with, (answered, reply, passed, false), step),
        *old(prepared) == *final(answered),
        reply.kind == frame::SPAWN_OK && passed ==> call_ensures(
            Worker::after_prepare,
            (prepared, Ok::<(), IoError>(())),
            last,
        ),
    ensures
        reply.kind == frame::SPAWN_OK && passed ==> step is Prepare && last == WorkerStep::Done(
            Completed::Spawned { session: reply.session, pid: reply.code },
        ),
        reply.kind == frame::SPAWN_OK && !passed ==> (step matches WorkerStep::Send(close)
            && close.kind == frame::CLOSE && close.session == reply.session),
        reply.kind == frame::ERROR ==> step == WorkerStep::Done(
            Completed::SpawnFailed(BrokerFault::Os(reply.code)),
        ),
{
}

/// A greeting is accepted exactly when it is one, of this protocol, from a broker of the same
/// release and architecture.
pub proof fn greeting_must_match(
    broker: &Broker,
    identity: Vec<u8>,
    expected: &Vec<u8>,
    hello: Frame,
    result: Result<(), IoError>,
    passed: bool,
)
    requires
        call_ensures(Broker::hello, (broker, identity), hello),
        call_ensures(controller::check_hello, (&hello, expected, passed), result),
    ensures
        result is Ok <==> identity@ == expected@ && !passed,
        result matches Err(error) ==> error.kind == ErrorKind::InvalidData,
{
}

/// What identifies a release and an architecture differs from any other: a bar parts them.
pub proof fn identities_differ(
    first: (&[u8], &[u8]),
    second: (&[u8], &[u8]),
    one: Vec<u8>,
    other: Vec<u8>,
)
    requires
        call_ensures(controller::hello_payload, (first.0, first.1), one),
        call_ensures(controller::hello_payload, (second.0, second.1), other),
        !first.0@.contains(124),
        !second.0@.contains(124),
        one@ == other@,
    ensures
        first.0@ == second.0@,
        first.1@ == second.1@,
{
    let a = first.0@;
    let b = second.0@;
    assert(one@[a.len() as int] == 124);
    assert(other@[b.len() as int] == 124);
    if a.len() < b.len() {
        assert(other@[a.len() as int] == b[a.len() as int]);
        assert(b.contains(124));
    } else if b.len() < a.len() {
        assert(one@[b.len() as int] == a[b.len() as int]);
        assert(a.contains(124));
    }
    assert forall|i: int| 0 <= i < a.len() implies a[i] == b[i] by {
        assert(one@[i] == a[i]);
        assert(other@[i] == b[i]);
    }
    assert(a =~= b);
    let c = first.1@;
    let d = second.1@;
    assert(one@.len() == a.len() + c.len() + 3);
    assert(other@.len() == b.len() + d.len() + 3);
    assert forall|i: int| 0 <= i < c.len() implies c[i] == d[i] by {
        assert(one@[a.len() + 1 + i] == c[i]);
        assert(other@[b.len() + 1 + i] == d[i]);
    }
    assert(c =~= d);
}

/// Every child is named at the cleanup: the group of each that runs or exited.
proof fn groups_hold_every_child(slots: Seq<crate::broker::Slot>, index: int)
    requires
        0 <= index < slots.len(),
    ensures
        slots[index].state matches SlotState::Running { pid } ==> crate::broker::groups_of(
            slots,
        ).contains(pid),
        slots[index].state matches SlotState::Exited { process_group, .. }
            ==> crate::broker::groups_of(slots).contains(process_group),
        slots[index].state matches SlotState::Running { pid } ==> crate::broker::running_of(
            slots,
        ).contains((handle::handle_of(index as nat, slots[index].generation), pid)),
    decreases slots.len(),
{
    let rest = crate::broker::groups_of(slots.drop_last());
    let all = crate::broker::groups_of(slots);
    let running = crate::broker::running_of(slots.drop_last());
    let every = crate::broker::running_of(slots);
    if index < slots.len() - 1 {
        assert(slots.drop_last()[index] == slots[index]);
        groups_hold_every_child(slots.drop_last(), index);
        assert forall|group: i32| rest.contains(group) implies all.contains(group) by {
            let k = choose|k: int| 0 <= k < rest.len() && rest[k] == group;
            assert(all[k] == group);
        }
        assert forall|one: (u64, i32)| running.contains(one) implies every.contains(one) by {
            let k = choose|k: int| 0 <= k < running.len() && running[k] == one;
            assert(every[k] == one);
        }
    } else {
        assert(slots.last() == slots[index]);
        if !(slots[index].state is Vacant) {
            assert(all[rest.len() as int] == all.last());
        }
        if slots[index].state is Running {
            assert(every[running.len() as int] == every.last());
        }
    }
}

/// No child is left behind: the cleanup kills the group of every child, also of one that
/// exited, and reaps every one that runs.
pub proof fn cleanup_leaves_no_child(
    broker: &Broker,
    groups: Vec<i32>,
    sessions: Vec<(u64, i32)>,
    session: u64,
    state: Option<SlotState>,
)
    requires
        broker.wf(),
        call_ensures(Broker::cleanup_groups, (broker,), groups),
        call_ensures(Broker::running_sessions, (broker,), sessions),
        call_ensures(Broker::lookup, (broker, session), state),
    ensures
        state matches Some(SlotState::Running { pid }) ==> groups@.contains(pid)
            && sessions@.contains((session, pid)),
        state matches Some(SlotState::Exited { process_group, .. }) ==> groups@.contains(
            process_group,
        ),
{
    if state is Some {
        let (index, generation) = handle::handle_parts_of(session).unwrap();
        groups_hold_every_child(broker.slots(), index as int);
        handle::handle_is_canonical(session);
    }
}

/// A child that was reaped is not signalled: its number may be another's by now.
pub proof fn reaped_child_is_not_signalled(
    broker: &mut Broker,
    session: u64,
    group: Option<i32>,
    state: Option<SlotState>,
)
    requires
        call_ensures(Broker::kill_running, (broker, session), group),
        call_ensures(Broker::lookup, (&*old(broker), session), state),
    ensures
        group matches Some(pid) ==> state == Some(SlotState::Running { pid }),
        state matches Some(SlotState::Running { pid }) ==> group == Some(pid),
{
}

/// The client reads the numbers that the broker counted.
pub proof fn statistics_arrive(
    broker: &Broker,
    request: u32,
    descriptors: usize,
    order: ByteOrder,
    running: usize,
    reply: Frame,
    result: Result<(u32, u32, u32), IoError>,
)
    requires
        broker.wf(),
        descriptors <= u32::MAX,
        call_ensures(Broker::running_jobs, (broker,), running),
        call_ensures(Broker::stats_reply, (broker, request, descriptors, order), reply),
        call_ensures(client::stats_from, (&reply, order), result),
    ensures
        reply.request == request,
        result matches Ok((jobs, open, signals)) && jobs == running && open == descriptors
            && signals == broker.signals_after_reap(),
{
    client::stats_round_trip(
        order,
        crate::broker::running_count(broker.slots()) as u32,
        descriptors as u32,
        broker.signals_after_reap(),
    );
}

/// The error of a start that failed is read as the child wrote it, however its bytes come; a
/// start that wrote nothing succeeded.
pub proof fn start_error_is_read_as_written(
    first: &mut ExecRecord,
    head: &[u8],
    early: Option<i32>,
    second: &mut ExecRecord,
    tail: &[u8],
    late: Option<i32>,
    order: ByteOrder,
    error: i32,
    ended: Result<(), IoError>,
)
    requires
        old(first).bytes@.len() == 0,
        0 < head@.len() < 4,
        call_ensures(ExecRecord::absorb, (first, head, order), early),
        *old(second) == *final(first),
        head@ + tail@ == wire::u32_bytes(order, wire::i32_bits(error)),
        call_ensures(ExecRecord::absorb, (second, tail, order), late),
        call_ensures(ExecRecord::end, (&*old(first),), ended),
    ensures
        early is None,
        late == Some(error),
        ended is Ok,
{
    wire::u32_round_trip(order, wire::i32_bits(error));
    wire::i32_round_trip(error);
    assert(final(second).bytes@ =~= head@ + tail@);
}

/// A process that was handed to the reaper is watched in its turn, and watched on while it
/// runs; a broker is launched only while every process is sure to be reaped.
pub proof fn handed_over_process_is_reaped(
    queued: &mut Reaper,
    pid: i32,
    has_thread: bool,
    begun: &mut Reaper,
    ended: &mut Reaper,
    waited: &Vec<Waited>,
    index: int,
    result: Result<(), IoError>,
)
    requires
        old(queued).wf(),
        call_ensures(Reaper::queue_reap, (queued, pid, has_thread), ()),
        *old(begun) == *final(queued),
        call_ensures(Reaper::begin_round, (begun,), ()),
        *old(ended) == *final(begun),
        waited@.len() == old(ended).watched@.len(),
        0 <= index < waited@.len(),
        waited@[index] == Waited::Running || waited@[index] == Waited::Interrupted,
        call_ensures(Reaper::end_round, (ended, waited), ()),
        call_ensures(Reaper::check, (&*final(ended),), result),
    ensures
        old(queued).waiting@.len() == 0 && old(queued).watched@.len() < 16 && has_thread ==> final(begun).watched@.contains(pid),
        final(ended).watched@.contains(old(ended).watched@[index]),
        !has_thread || old(queued).waiting@.len() >= 16 ==> result is Err,
        waited@.contains(Waited::Failed) ==> result is Err,
        old(queued).healthy && has_thread && old(queued).waiting@.len() < 16 && !waited@.contains(
            Waited::Failed,
        ) ==> result is Ok,
{
    crate::reaper::running_process_stays(old(ended).watched@, waited@, index);
    if old(queued).waiting@.len() == 0 && old(queued).watched@.len() < 16 && has_thread {
        assert(final(begun).watched@.last() == pid);
    }
}

/// An exit that comes while something else is awaited is kept and found later, once.
pub proof fn early_exit_is_kept(
    receiving: &mut Client,
    request: u32,
    kind: u16,
    message: &Frame,
    awaited: Awaited,
    asking: &mut Client,
    known: Option<i32>,
    again: &mut Client,
    rest: Option<i32>,
)
    requires
        call_ensures(Client::receive_for, (receiving, request, kind, message), awaited),
        message.kind == frame::EXIT,
        *old(asking) == *final(receiving),
        call_ensures(Client::known_exit, (asking, message.session), known),
        *old(again) == *final(asking),
        call_ensures(Client::known_exit, (again, message.session), rest),
    ensures
        awaited is Again,
        known == Some(message.code),
        rest is None,
{
}

/// A cleanup that is asked for is tried at once, and again until it succeeds: one that fails
/// stays scheduled, and one that succeeds does not.
pub proof fn cleanup_is_tried_until_it_succeeds(
    scheduled: &mut CleanupQueue,
    cleanup: Cleanup,
    now: u64,
    added: bool,
    settled: &mut CleanupQueue,
    item: PendingCleanup,
    status: u32,
    later: u64,
)
    requires
        old(scheduled).wf(),
        call_ensures(CleanupQueue::schedule_cleanup, (scheduled, cleanup, now), added),
        old(settled).wf(),
        old(settled).trying == Some(item),
        call_ensures(CleanupQueue::settle, (settled, status, later), ()),
    ensures
        final(scheduled).scheduled(cleanup),
        added ==> final(scheduled).pending@.last().cleanup == cleanup && final(scheduled).pending@.last().retry_at == now,
        !added ==> final(scheduled).pending@ == old(scheduled).pending@,
        final(settled).trying is None,
        status != 0 && status != crate::c_api::STATUS_STALE_HANDLE ==> {
            let again = final(settled).pending@.last();
            &&& again.cleanup == item.cleanup
            &&& later + item.delay <= u64::MAX ==> again.retry_at == later + item.delay
            &&& 10_000_000 <= again.delay <= 1_000_000_000
            &&& again.delay == 2 * item.delay || again.delay == 1_000_000_000
            &&& final(settled).pending@.len() == old(settled).pending@.len() + 1
        },
        status == 0 || status == crate::c_api::STATUS_STALE_HANDLE ==> final(settled).pending@
            == old(settled).pending@,
{
}

/// A cleanup whose time has come is taken, and the worker does not sleep past it.
pub proof fn due_cleanup_is_taken(
    queue: &mut CleanupQueue,
    now: u64,
    wait: u64,
    item: Option<PendingCleanup>,
    index: int,
)
    requires
        old(queue).wf(),
        call_ensures(CleanupQueue::next_wait, (&*old(queue), now), wait),
        call_ensures(CleanupQueue::take_due, (queue, now), item),
        0 <= index < old(queue).pending@.len(),
    ensures
        old(queue).pending@[index].retry_at <= now ==> wait == 0 && item is Some,
        old(queue).pending@[index].retry_at > now ==> now + wait
            <= old(queue).pending@[index].retry_at,
        item matches Some(taken) ==> taken.retry_at <= now && old(queue).pending@.contains(taken)
            && final(queue).pending@.len() == old(queue).pending@.len() - 1,
{
    assert(wait <= crate::cleanup::until(old(queue).pending@[index].retry_at, now));
    if let Some(taken) = item {
        let place = choose|place: int|
            #![trigger crate::cleanup::due_at(old(queue).pending@, now, place)]
            {
                &&& crate::cleanup::due_at(old(queue).pending@, now, place)
                &&& taken == old(queue).pending@[place]
                &&& final(queue).pending@ == old(queue).pending@.remove(place)
            };
        assert(old(queue).pending@[place] == taken);
    }
}

/// An exit code that the small interface waits for is that of the child, and a signal is told
/// as 128 more than its number; the code is known from then on.
pub proof fn waited_code_is_kept(
    candidates: &mut Candidates,
    handle: u64,
    session: candidate::Session,
    status: i32,
    errno: i32,
    done: CandidateWaited,
    again: Result<candidate::WaitStep, i32>,
    number: i32,
)
    requires
        old(candidates).at(handle) is Some,
        call_ensures(
            Candidates::after_wait,
            (candidates, handle, session, session.pid, status, errno),
            done,
        ),
        call_ensures(Candidates::begin_wait, (&*final(candidates), handle, true), again),
    ensures
        done matches CandidateWaited::Exit(code) && {
            &&& again == Ok::<candidate::WaitStep, i32>(candidate::WaitStep::Known(code))
            &&& 0 <= number <= 255 && status == number * 256 ==> code == number
            &&& 1 <= number <= 126 && (status == number || status == number + 128) ==> code
                == 128 + number
        },
{
    if 0 <= number <= 255 && status == number * 256 {
        assert(status & 0x7f == 0 && (status >> 8) & 0xff == number) by (bit_vector)
            requires
                0 <= number <= 255,
                status == number * 256,
        ;
    }
    if 1 <= number <= 126 && (status == number || status == number + 128) {
        assert(status & 0x7f == number) by (bit_vector)
            requires
                1 <= number <= 126,
                status == number || status == number + 128,
        ;
    }
}

/// A session of the small interface is found under the handle that it was given, until it is
/// closed.
pub proof fn session_is_found_until_closed(
    inserted: &mut Candidates,
    master: i32,
    pid: i32,
    handle: u64,
    found: Result<candidate::Session, i32>,
    closed: &mut Candidates,
    taken: Result<candidate::Session, i32>,
    after: Result<candidate::Session, i32>,
)
    requires
        call_ensures(Candidates::insert, (inserted, master, pid), Ok::<u64, i32>(handle)),
        call_ensures(Candidates::lookup, (&*final(inserted), handle), found),
        *old(closed) == *final(inserted),
        call_ensures(Candidates::close, (closed, handle), taken),
        call_ensures(Candidates::lookup, (&*final(closed), handle), after),
    ensures
        found matches Ok(session) && session.master == master && session.pid == pid
            && !session.waited,
        taken == found,
        after is Err,
{
    candidate::handle_round_trip(
        old(inserted).next_slot,
        old(inserted).next_generation,
        handle,
    );
}

/// A process is settled when it was reaped or is no child any more; one that still runs is
/// waited for until its time is over, and then left to the reaper.
pub proof fn reaping_ends_in_time(
    returned: i32,
    pid: i32,
    failure: ErrorKind,
    no_child: bool,
    overdue: bool,
    step: controller::ReapProcess,
)
    requires
        pid > 0,
        call_ensures(
            controller::after_reap,
            (returned, pid, failure, no_child, overdue),
            step,
        ),
    ensures
        returned == pid ==> step == controller::ReapProcess::Settled(true),
        returned == 0 && overdue ==> step is Defer,
        returned == 0 && !overdue ==> step is Pause,
        returned < 0 && failure != ErrorKind::Interrupted ==> step
            == controller::ReapProcess::Settled(no_child),
        returned < 0 && failure == ErrorKind::Interrupted ==> step is Again,
{
}

/// A turn takes at most 16 requests and none after a shutdown; the worker wakes itself when it
/// took all of them, and the reactor when there is room again.
pub proof fn request_turns_are_bounded(
    turn: &mut controller::RequestTurn,
    request: &Request,
    more: bool,
    wakes: (bool, bool),
)
    requires
        old(turn).taken < 16,
        !old(turn).stopped,
        call_ensures(controller::RequestTurn::count, (turn, request), ()),
        call_ensures(controller::RequestTurn::takes_more, (&*final(turn),), more),
        call_ensures(controller::RequestTurn::wakes, (&*final(turn),), wakes),
    ensures
        final(turn).taken == old(turn).taken + 1,
        *request is Shutdown ==> !more && !wakes.0 && !wakes.1,
        !(*request is Shutdown) ==> more == (old(turn).taken < 15) && wakes.0 == (old(turn).taken
            == 15) && wakes.1,
{
}

/// A request that the worker's queue did not take is answered with the reason: no room now, or
/// no worker any more.
pub proof fn refused_requests_say_why(sent: crate::session::Sent, result: Result<(), IoError>)
    requires
        call_ensures(controller::request_refused, (sent,), result),
    ensures
        sent is Queued <==> result is Ok,
        sent is Full ==> (result matches Err(error) && error.kind == ErrorKind::WouldBlock),
        sent is Disconnected ==> (result matches Err(error) && error.kind
            == ErrorKind::BrokenPipe),
{
}

/// A fault keeps what it stands for: an error of a transfer its kind, code and text, and a
/// broker's error its code.
pub proof fn faults_keep_their_error(fault: &BrokerFault, error: IoError, kind: ErrorKind)
    requires
        call_ensures(BrokerFault::error, (fault,), error),
        call_ensures(BrokerFault::kind, (fault,), kind),
    ensures
        *fault matches BrokerFault::Io(inner) ==> error.kind == inner.kind && error.code
            == inner.code && error.message@ == inner.message@ && kind == inner.kind,
        *fault matches BrokerFault::Os(code) ==> error.code == Some(code),
        *fault is Stale ==> kind == ErrorKind::NotFound && error.kind == kind,
        *fault is NotReleasable ==> kind == ErrorKind::WouldBlock && error.kind == kind,
        *fault is Lost ==> kind == ErrorKind::BrokenPipe && error.kind == kind,
        *fault is Unexpected || *fault is UnknownClose || *fault is OmittedMaster ==> kind
            == ErrorKind::InvalidData && error.kind == kind,
{
}

/// A graceful signal is answered with whether it was delivered; without an answer nothing is
/// known of it.
pub proof fn graceful_signal_is_answered(
    asking: &mut Worker,
    session: u64,
    handle: u64,
    signal: i32,
    sent: Frame,
    answered: &mut Worker,
    reply: &Frame,
    step: WorkerStep,
)
    requires
        old(asking).phase is Idle,
        call_ensures(
            Worker::start,
            (asking, Request::GracefulSignal { session, handle, signal }),
            WorkerStep::Send(sent),
        ),
        *old(answered) == *final(asking),
        reply.kind != frame::EXIT,
        call_ensures(Worker::received_with, (answered, reply, false, false), step),
    ensures
        sent.kind == frame::SIGNAL && sent.session == session && sent.code == signal,
        reply.kind == frame::SIGNAL_RESULT && reply.request == sent.request ==> step
            == WorkerStep::Done(
            Completed::GracefulSignal { handle, result: Some(reply.aux == 1) },
        ),
        reply.kind != frame::SIGNAL_RESULT || reply.request != sent.request ==> step
            == WorkerStep::Done(Completed::GracefulSignal { handle, result: None }),
        final(answered).phase is Idle,
{
}

/// A release that the broker granted is done; one that it refused is tried again with a close.
pub proof fn release_is_seen_through(
    asking: &mut Worker,
    session: u64,
    handle: u64,
    sent: Frame,
    answered: &mut Worker,
    reply: &Frame,
    step: WorkerStep,
)
    requires
        old(asking).phase is Idle,
        old(asking).unprepared is None,
        call_ensures(
            Worker::start,
            (asking, Request::Release { session, handle }),
            WorkerStep::Send(sent),
        ),
        *old(answered) == *final(asking),
        reply.request == sent.request,
        reply.kind != frame::EXIT,
        call_ensures(Worker::received_with, (answered, reply, false, false), step),
    ensures
        sent.kind == frame::RELEASE && sent.session == session,
        reply.kind == frame::RELEASE_RESULT && reply.aux == 1 ==> step == WorkerStep::Done(
            Completed::Released { handle, succeeded: true },
        ) && !final(answered).exits@.contains_key(session),
        reply.kind != frame::RELEASE_RESULT || reply.aux != 1 ==> (step matches WorkerStep::Send(
            close,
        ) && close.kind == frame::CLOSE && close.session == session && close.request
            == final(asking).next_request),
{
}

/// An abort closes the session, waits for the child's exit, and releases the session; one that
/// finds no session has nothing to do.
pub proof fn abort_is_seen_through(
    asking: &mut Worker,
    session: u64,
    sent: Frame,
    answered: &mut Worker,
    reply: &Frame,
    step: WorkerStep,
)
    requires
        old(asking).phase is Idle,
        old(asking).unprepared is None,
        call_ensures(Worker::start, (asking, Request::Abort { session }), WorkerStep::Send(sent)),
        *old(answered) == *final(asking),
        reply.kind == frame::CLOSE_RESULT,
        reply.request == sent.request,
        call_ensures(Worker::received_with, (answered, reply, false, false), step),
    ensures
        sent.kind == frame::CLOSE && sent.session == session,
        reply.aux == frame::CLOSE_STALE ==> step == WorkerStep::Done(Completed::Aborted(Ok(()))),
        reply.aux == frame::CLOSE_KILLED || reply.aux == frame::CLOSE_ALREADY_EXITED ==> {
            &&& old(asking).exits@.contains_key(session) ==> (step matches WorkerStep::Send(
                release,
            ) && release.kind == frame::RELEASE && release.session == session)
            &&& !old(asking).exits@.contains_key(session) ==> step is Receive && (
            final(answered).phase matches Phase::AwaitExit { session: awaited, .. } && awaited
                == session)
        },
        reply.aux != frame::CLOSE_KILLED && reply.aux != frame::CLOSE_ALREADY_EXITED && reply.aux
            != frame::CLOSE_STALE ==> step == WorkerStep::Done(
            Completed::Aborted(Err(BrokerFault::UnknownClose)),
        ),
{
}

/// The exit that an abort waits for leads to the release of its session.
pub proof fn awaited_exit_leads_to_release(worker: &mut Worker, message: &Frame, step: WorkerStep)
    requires
        old(worker).phase matches Phase::AwaitExit { session, .. } && session == message.session,
        message.kind == frame::EXIT,
        call_ensures(Worker::received_with, (worker, message, false, false), step),
    ensures
        step matches WorkerStep::Send(release) && release.kind == frame::RELEASE && release.session
            == message.session && release.request == old(worker).next_request,
{
}

/// An answer to another request is taken for none: the request under way fails.
pub proof fn answers_belong_to_their_request(
    worker: &mut Worker,
    reply: &Frame,
    passed: bool,
    step: WorkerStep,
)
    requires
        old(worker).phase matches Phase::Await { request, task, .. } && task is Signal && request
            != reply.request,
        reply.kind != frame::EXIT,
        call_ensures(Worker::received_with, (worker, reply, passed, false), step),
    ensures
        step == WorkerStep::Done(Completed::Signalled(Err(BrokerFault::Unexpected))),
        final(worker).phase is Idle,
{
}

/// Requests are numbered one after the other, so that no answer is taken for that of another
/// request.
pub proof fn requests_have_their_own_numbers(
    first: &mut Worker,
    one: Request,
    sent: Frame,
    second: &mut Worker,
    other: Request,
    later: Frame,
)
    requires
        old(first).phase is Idle,
        call_ensures(Worker::start, (first, one), WorkerStep::Send(sent)),
        old(second).phase is Idle,
        old(second).next_request == final(first).next_request,
        call_ensures(Worker::start, (second, other), WorkerStep::Send(later)),
        old(first).next_request < u32::MAX,
    ensures
        later.request == sent.request + 1,
{
}

/// A shutdown is clean exactly when the broker answered it.
pub proof fn shutdown_is_clean_when_answered(
    asking: &mut Worker,
    sent: Frame,
    answered: &mut Worker,
    reply: &Frame,
    step: WorkerStep,
    failed: &mut Worker,
    error: IoError,
    last: WorkerStep,
)
    requires
        old(asking).phase is Idle,
        call_ensures(Worker::start, (asking, Request::Shutdown), WorkerStep::Send(sent)),
        *old(answered) == *final(asking),
        reply.kind != frame::EXIT,
        call_ensures(Worker::received_with, (answered, reply, false, false), step),
        *old(failed) == *final(asking),
        call_ensures(Worker::failed_with, (failed, error), last),
    ensures
        sent.kind == frame::SHUTDOWN,
        step == WorkerStep::Done(
            Completed::ShutDown {
                clean: reply.kind == frame::SHUTDOWN_RESULT && reply.request == sent.request,
            },
        ),
        last == WorkerStep::Done(Completed::ShutDown { clean: false }),
{
}

/// A failed transfer ends what is under way with its own error, and the worker is free for the
/// next request.
pub proof fn failed_transfer_ends_the_request(
    worker: &mut Worker,
    error: IoError,
    step: WorkerStep,
    lost: &mut Worker,
    last: WorkerStep,
)
    requires
        old(worker).phase matches Phase::Await { task, .. } && task is Spawn,
        call_ensures(Worker::failed_with, (worker, error), step),
        *old(lost) == *old(worker),
        call_ensures(Worker::failed, (lost,), last),
    ensures
        step == WorkerStep::Done(Completed::SpawnFailed(BrokerFault::Io(error))),
        last == WorkerStep::Done(Completed::SpawnFailed(BrokerFault::Lost)),
        final(worker).phase is Idle,
        final(lost).phase is Idle,
{
}

/// Input of the plain client is numbered and kept in order, and what fails is told as failed
/// under its number.
pub proof fn accepted_input_is_told_as_failed(
    accepted: &mut client::ClientSession,
    bytes: &[u8],
    sequence: u64,
    failed: &mut client::ClientSession,
    failure: client::InputFailure,
    result: Result<(), client::InputFailure>,
)
    requires
        old(accepted).wf(),
        call_ensures(client::ClientSession::accept, (accepted, bytes), sequence),
        *old(failed) == *final(accepted),
        call_ensures(client::ClientSession::fail_accepted, (failed, failure), ()),
        call_ensures(client::ClientSession::flush_result, (&*final(failed), sequence), result),
    ensures
        final(accepted).queued@.last().bytes@ == bytes@,
        final(accepted).queued@.last().sequence == sequence,
        result == Err::<(), client::InputFailure>(failure),
        final(failed).queued@.len() == 0,
{
    assert(client::waits(old(failed).queued@, sequence));
    assert(final(failed).failed@.contains_key(sequence));
}

/// A process that was started is registered as a session, unless its start was to fail; one
/// that could not be started is answered with the kernel's code.
pub proof fn started_process_is_registered(
    broker: &mut Broker,
    request: u32,
    inject: bool,
    spawned: Result<i32, Option<i32>>,
    step: SpawnStep,
)
    requires
        call_ensures(Broker::after_spawn, (broker, request, inject, spawned), step),
    ensures
        spawned matches Ok(pid) ==> !inject ==> (step matches SpawnStep::Register {
            pid: registered,
            ..
        } && registered == pid),
        spawned matches Ok(pid) ==> inject ==> (step matches SpawnStep::Discard {
            pid: discarded,
            reply,
        } && discarded == pid && reply.kind == frame::ERROR && reply.request == request),
        spawned is Err ==> (step matches SpawnStep::Reply(reply) && reply.kind == frame::ERROR
            && reply.request == request && (spawned matches Err(Some(code)) ==> reply.code
            == code)),
{
}

/// Every request that breaks no rule is sent to the broker, for its session.
pub proof fn requests_are_sent(worker: &mut Worker, request: Request, step: WorkerStep)
    requires
        old(worker).phase is Idle,
        call_ensures(Worker::start, (worker, request), step),
        request matches Request::Spawn { config } ==> config.rejection() is None,
    ensures
        step matches WorkerStep::Send(sent) && {
            &&& sent.request == old(worker).next_request
            &&& match request {
                Request::Spawn { .. } => sent.kind == frame::SPAWN,
                Request::CloseDetached { session, .. }
                | Request::ForceClose { session, .. }
                | Request::Abort { session }
                | Request::AbortDetached { session } => sent.kind == frame::CLOSE && sent.session
                    == session,
                Request::GracefulSignal { session, signal, .. }
                | Request::Signal { session, signal } => sent.kind == frame::SIGNAL
                    && sent.session == session && sent.code == signal,
                Request::Release { session, .. } => sent.kind == frame::RELEASE && sent.session
                    == session,
                Request::Shutdown => sent.kind == frame::SHUTDOWN,
            }
        },
        final(worker).phase is Await,
{
}

/// What the engine asks to start is what the broker starts.
pub proof fn spawn_arrives_at_the_broker(
    worker: &mut Worker,
    config: spawn::BrokerSpawn<u8>,
    sent: Frame,
    broker: &Broker,
    step: BrokerStep,
)
    requires
        old(worker).phase is Idle,
        call_ensures(Worker::start, (worker, Request::Spawn { config }), WorkerStep::Send(sent)),
        config.is_decodable(),
        call_ensures(Broker::handle_spawn, (broker, &sent, old(worker).order), step),
    ensures
        step matches BrokerStep::Spawn { request, target } && request == sent.request
            && target.argv@.len() == config.arguments@.len() + 1 && target.argv@[0]@
            == config.executable@ && target.size.ws_row == config.rows && target.size.ws_col
            == config.columns && !target.inject && (target.cwd is Some == config.cwd is Some) && (
        target.environment is Some == config.environment is Some),
{
    spawn::broker_receives_configuration(config, old(worker).order);
    let target = step->target;
    assert(target@ == config.request());
    assert(target@.argv[0] == config.executable@);
    assert(target.argv@[0]@ == target@.argv[0]);
}

/// A request is handled by its kind, and one of no kind is refused.
pub proof fn requests_are_handled_by_kind(
    broker: &mut Broker,
    message: &Frame,
    order: ByteOrder,
    step: BrokerStep,
    session: u64,
    before: Option<SlotState>,
    after: Option<SlotState>,
)
    requires
        old(broker).wf(),
        call_ensures(Broker::handle_request, (broker, message, order), step),
        call_ensures(Broker::lookup, (&*old(broker), session), before),
        call_ensures(Broker::lookup, (&*final(broker), session), after),
    ensures
        message.kind == frame::SHUTDOWN ==> step == (BrokerStep::Shutdown {
            request: message.request,
        }),
        message.kind == frame::STATS ==> step == (BrokerStep::Stats { request: message.request }),
        message.kind != frame::RELEASE || message.session != session ==> after == before,
        message.kind == frame::RELEASE && message.session == session && (before matches Some(
            SlotState::Exited { .. },
        )) ==> after == Some(SlotState::Vacant),
        message.kind == frame::HELLO || message.kind == frame::EXIT || message.kind > 15 ==> (
        step matches BrokerStep::Reply(reply) && reply.kind == frame::ERROR && reply.request
            == message.request),
{
    let state = crate::broker::slot_lookup(old(broker).slots(), message.session);
    if state is Some {
        crate::broker::update_is_local(
            old(broker).slots(),
            message.session,
            SlotState::Vacant,
            session,
        );
    }
}

/// A session of the small interface is taken while its number is free.
pub proof fn free_number_is_taken(
    candidates: &mut Candidates,
    master: i32,
    pid: i32,
    result: Result<u64, i32>,
)
    requires
        call_ensures(Candidates::insert, (candidates, master, pid), result),
    ensures
        result is Ok <==> !old(candidates).entries@.contains_key(old(candidates).next_slot),
{
}

/// Transfers of the small interface reach the terminal of their session, and their results are
/// handed on; a terminal without a child is at its end.
pub proof fn transfers_are_handed_on(
    candidates: &Candidates,
    handle: u64,
    begun: Result<i32, i64>,
    moved: i64,
    errno: i32,
    read: Option<candidate::Transferred>,
    written: Option<candidate::Transferred>,
)
    requires
        call_ensures(Candidates::begin_transfer, (candidates, handle, true), begun),
        call_ensures(Candidates::after_read, (candidates, moved, errno), read),
        call_ensures(Candidates::after_write, (candidates, moved, errno), written),
    ensures
        candidates.at(handle) matches Some(session) ==> begun == Ok::<i32, i64>(session.master),
        candidates.at(handle) is None ==> begun is Err,
        moved >= 0 ==> (read matches Some(done) && done.value == moved) && (written matches Some(
            done,
        ) && done.value == moved),
        moved < 0 && errno == candidates.codes.eintr ==> read is None && written is None,
        moved < 0 && errno == candidates.codes.eio && errno != candidates.codes.eintr ==> (
        read matches Some(done) && done.value == 0) && (written matches Some(done) && done.value
            < 0 && done.remember == Some(errno)),
        moved < 0 && errno != candidates.codes.eio && errno != candidates.codes.eintr ==> (
        read matches Some(done) && done.value < 0 && done.remember == Some(errno)),
{
}

} // verus!
