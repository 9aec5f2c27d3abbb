//! What holds between the callers of the engine and its reactor over several steps: commands
//! and events arrive once and in order, whoever waits is woken, and a result is delivered to
//! the one who waits for it.
use crate::buffer;
use crate::channel::{Channel, Received, ReceiverClosed, Wakes};
use crate::control::{Control, ControlQueue, WakeGate};
use crate::engine_event::{self, Failure, Notice};
use crate::fault::{ErrorKind, IoError};
use crate::oneshot::{Oneshot, Polled};
use crate::reactor::Command;
use crate::runtime::{self, CommandTurn, IntegratedRuntime};
use crate::session::Sent;
use crate::spawn::BrokerSpawn;
use bytes::Bytes;
use std::collections::VecDeque;
use vstd::prelude::*;

verus! {

/// A write that finds room is taken: the reactor runs, fewer than 1024 commands wait, the
/// session's input is open, and the bytes and one more write fit. Its bytes are then the last
/// command, the reactor is woken, and the room is counted.
pub proof fn write_with_room_is_taken(
    runtime: &mut IntegratedRuntime,
    handle: u64,
    bytes: Bytes,
    result: i64,
)
    requires
        call_ensures(IntegratedRuntime::write, (runtime, handle, bytes), result),
        old(runtime).running,
        old(runtime).commands@.len() < 1024,
        old(runtime).reactor.at(handle) matches Some(session) && session.input.admission.open
            && session.input.admission.bytes + buffer::bytes_of(bytes).len()
            <= session.input.admission.capacity && session.input.admission.entries < 4096
            && session.input.admission.entries < session.input.admission.capacity,
        buffer::bytes_of(bytes).len() > 0,
    ensures
        result == 1,
        final(runtime).wake.pending,
        final(runtime).commands@.len() == old(runtime).commands@.len() + 1,
        final(runtime).commands@.take(old(runtime).commands@.len() as int) == old(runtime).commands@,
        final(runtime).commands@.last() matches Command::Write { handle: named, bytes: data }
            && named == handle && buffer::bytes_of(data) == buffer::bytes_of(bytes),
        final(runtime).reactor.at(handle) matches Some(next) && next.input.admission.bytes == old(runtime).reactor.at(handle).unwrap().input.admission.bytes + buffer::bytes_of(bytes).len()
            && next.input.admission.entries == old(runtime).reactor.at(
            handle,
        ).unwrap().input.admission.entries + 1,
{
    assert(final(runtime).commands@.take(old(runtime).commands@.len() as int)
        =~= final(runtime).commands@.drop_last());
}

/// A write is refused with the reason that holds: its session is gone or closed, the reactor
/// is gone, or there is no room now. A refused write leaves no trace among the commands.
pub proof fn refused_write_leaves_no_trace(
    runtime: &mut IntegratedRuntime,
    handle: u64,
    bytes: Bytes,
    result: i64,
)
    requires
        call_ensures(IntegratedRuntime::write, (runtime, handle, bytes), result),
        result != 1,
    ensures
        final(runtime).commands@ == old(runtime).commands@,
        result == -1 <==> (old(runtime).reactor.at(handle) matches Some(session)
            ==> !session.input.admission.open),
        result == -2 ==> !old(runtime).running && (final(runtime).reactor.at(
            handle,
        ) matches Some(next) && !next.input.admission.open),
        result == 0 ==> (old(runtime).reactor.at(handle) matches Some(session) && (
        buffer::bytes_of(bytes).len() == 0 || session.input.admission.bytes
            + buffer::bytes_of(bytes).len() > session.input.admission.capacity
            || session.input.admission.entries >= 4096 || session.input.admission.entries
            >= session.input.admission.capacity || old(runtime).commands@.len() >= 1024)),
        result == -1 || result == -2 || result == 0,
        final(runtime).reactor.at(handle) matches Some(next) ==> next.input.admission.bytes == old(runtime).reactor.at(handle).unwrap().input.admission.bytes,
{
}

/// A write by copy is answered as one that gives its bytes away.
pub proof fn copied_write_is_answered_alike(
    given: &mut IntegratedRuntime,
    copied: &mut IntegratedRuntime,
    handle: u64,
    bytes: Bytes,
    slice: &[u8],
    first: i64,
    second: i64,
)
    requires
        *old(given) == *old(copied),
        slice@ == buffer::bytes_of(bytes),
        call_ensures(IntegratedRuntime::write, (given, handle, bytes), first),
        call_ensures(IntegratedRuntime::write_copy, (copied, handle, slice), second),
    ensures
        first == second,
        final(given).commands@.len() == final(copied).commands@.len(),
        first == 1 ==> (final(copied).commands@.last() matches Command::Write {
            handle: named,
            bytes: data,
        } && named == handle && buffer::bytes_of(data) == slice@),
{
}

/// After the admission of a session was closed, no write to it is taken.
pub proof fn closed_admission_takes_no_write(
    closed: &mut IntegratedRuntime,
    written: &mut IntegratedRuntime,
    handle: u64,
    bytes: Bytes,
    result: i64,
    accepted: bool,
)
    requires
        call_ensures(IntegratedRuntime::close_admission, (closed, handle), ())
            || call_ensures(IntegratedRuntime::try_abandon, (closed, handle), accepted),
        *old(written) == *final(closed),
        call_ensures(IntegratedRuntime::write, (written, handle, bytes), result),
    ensures
        result == -1,
        final(written).commands@ == old(closed).commands@,
{
}

/// A command that was handed over is taken in its turn, and commands are taken in the order in
/// which they were handed over.
pub proof fn commands_are_taken_in_order(
    submitted: &mut IntegratedRuntime,
    command: Command,
    sent: Sent,
    taken: &mut IntegratedRuntime,
    turn: &mut CommandTurn,
    next: Option<Command>,
)
    requires
        call_ensures(IntegratedRuntime::submit, (submitted, command), sent),
        *old(taken) == *final(submitted),
        old(turn).taken < 64,
        !old(turn).stopped,
        call_ensures(IntegratedRuntime::next_in_turn, (taken, turn), next),
    ensures
        sent is Queued <==> old(submitted).running && old(submitted).commands@.len() < 1024,
        sent is Full ==> old(submitted).running && old(submitted).commands@.len() >= 1024,
        sent is Disconnected <==> !old(submitted).running,
        sent is Queued ==> final(submitted).wake.pending,
        sent is Queued && old(submitted).commands@.len() == 0 ==> next == Some(command),
        old(submitted).commands@.len() > 0 ==> next == Some(old(submitted).commands@[0]) && final(taken).commands@ == (if sent is Queued {
            old(submitted).commands@.skip(1).push(command)
        } else {
            old(submitted).commands@.skip(1)
        }),
        final(turn).stopped <==> (next matches Some(last) && last is Shutdown),
{
    let before = old(submitted).commands@;
    if before.len() > 0 {
        assert(before.push(command).skip(1) =~= before.skip(1).push(command));
    }
}

/// A turn takes at most 64 commands, and the reactor wakes itself when it took all of them,
/// because more may wait; after a shutdown it takes none.
pub proof fn turns_are_bounded(turn: &CommandTurn, more: bool, wake: bool)
    requires
        call_ensures(CommandTurn::takes_more, (turn,), more),
        call_ensures(CommandTurn::wakes_again, (turn,), wake),
    ensures
        turn.stopped ==> !more && !wake,
        !turn.stopped && turn.taken < 64 ==> more && !wake,
        turn.taken >= 64 ==> !more,
        !turn.stopped && turn.taken == 64 ==> wake,
{
}

/// Notices are handed out to one caller.
pub proof fn notices_are_handed_out_once(
    first: &mut IntegratedRuntime,
    taken: bool,
    second: &mut IntegratedRuntime,
    again: bool,
)
    requires
        call_ensures(IntegratedRuntime::take_notifications, (first,), taken),
        *old(second) == *final(first),
        call_ensures(IntegratedRuntime::take_notifications, (second,), again),
    ensures
        taken == old(first).has_notices,
        !again,
        final(second).commands@ == old(first).commands@,
        final(second).reactor == old(first).reactor,
{
}

/// Credit that is given back waits for the reactor, whole and for its session, and wakes it.
pub proof fn credit_reaches_the_reactor(
    runtime: &mut IntegratedRuntime,
    handle: u64,
    bytes: usize,
    accepted: bool,
)
    requires
        call_ensures(IntegratedRuntime::credit_async, (runtime, handle, bytes), accepted),
        old(runtime).controls.values@.len() < 4096,
    ensures
        accepted,
        final(runtime).wake.pending,
        final(runtime).controls.values@.last() == (Control::Credit { handle, bytes }),
        final(runtime).controls.values@.drop_last() == old(runtime).controls.values@,
        final(runtime).controls.lifecycle@ == old(runtime).controls.lifecycle@,
{
    assert(final(runtime).controls.values@.drop_last() =~= old(runtime).controls.values@);
}

/// A spawn is handed to the worker exactly when its capacities are from one byte to 64 MiB and
/// its configuration is in order.
pub proof fn spawn_starts_within_bounds(
    config: &BrokerSpawn<u8>,
    input_capacity: usize,
    output_capacity: usize,
    result: Result<(), IoError>,
    open: bool,
    sent: Sent,
    queued: Result<(), IoError>,
)
    requires
        call_ensures(
            IntegratedRuntime::spawn_start,
            (config, input_capacity, output_capacity),
            result,
        ),
        call_ensures(IntegratedRuntime::spawn_queued, (open, sent), queued),
    ensures
        result is Ok <==> 1 <= input_capacity <= 67_108_864 && 1 <= output_capacity <= 67_108_864
            && config.rejection() is None,
        result matches Err(error) ==> error.kind == ErrorKind::InvalidInput && error.code is None,
        queued is Ok <==> open && sent is Queued,
        queued matches Err(error) ==> error.kind == (if open && sent is Full {
            ErrorKind::WouldBlock
        } else {
            ErrorKind::BrokenPipe
        }),
{
}

/// A child whose session the reactor did not take is aborted, and one that it took is not; a
/// close counts as started when the reactor said so.
pub proof fn answers_are_handed_on(
    reply: Option<Result<u64, IoError>>,
    outcome: (Result<u64, IoError>, bool),
    closed: Option<bool>,
    result: Result<(), IoError>,
)
    requires
        call_ensures(runtime::staged, (reply,), outcome),
        call_ensures(runtime::close_started, (closed,), result),
    ensures
        reply is None <==> outcome.1,
        reply matches Some(answer) ==> outcome.0 == answer,
        reply is None ==> (outcome.0 matches Err(error) && error.kind == ErrorKind::BrokenPipe),
        result is Ok <==> closed == Some(true),
        result matches Err(error) ==> error.kind == (if closed is None {
            ErrorKind::BrokenPipe
        } else {
            ErrorKind::NotFound
        }),
{
}

/// A notice that is queued is for the session that it names, and for no other; a mode report
/// takes the place of one that waits, and everything else waits behind what came before.
pub proof fn notices_reach_their_session<W>(
    notices: &mut Channel<Notice, W>,
    notice: Notice,
    result: (bool, Option<Wakes<W>>),
    route: u64,
)
    requires
        call_ensures(engine_event::send_notice::<W>, (notices, notice), result),
        match notice {
            Notice::Output { handle, .. } => route == handle,
            Notice::InputFailed(handle) => route == handle,
            Notice::OutputFailed(handle) => route == handle,
            Notice::BrokerLost(handle) => route == handle,
            Notice::OutputDone(handle) => route == handle,
            Notice::Exit { handle, .. } => route == handle,
            Notice::Closed { handle, .. } => route == handle,
            Notice::SpawnReady { handle, .. } => route == handle,
            Notice::SpawnFailed { request, .. } => route == request,
            Notice::ModeChanged { handle, .. } => route == handle,
        },
        old(notices).senders > 0,
        !old(notices).closed@.contains(route),
        !old(notices).retired@.contains(route),
    ensures
        !(notice is ModeChanged) ==> final(notices).queue(route) == old(notices).queue(
            route,
        ).push(notice) && result.0,
        final(notices).queue(route).contains(notice),
        forall|other: u64|
            other != route ==> #[trigger] final(notices).queue(other) == old(notices).queue(other),
        result.1 is Some,
        final(notices).queue(route).len() >= old(notices).queue(route).len(),
{
    let queue = old(notices).queue(route);
    engine_event::last_mode_in_queue(queue);
    if notice is ModeChanged && engine_event::last_mode(queue) >= 0 {
        assert(final(notices).queue(route)[engine_event::last_mode(queue)] == notice);
    } else {
        assert(final(notices).queue(route).last() == notice);
    }
}

/// A notice of a route that takes no more is dropped and wakes nobody.
pub proof fn refused_notice_is_dropped<W>(
    notices: &mut Channel<Notice, W>,
    notice: Notice,
    result: (bool, Option<Wakes<W>>),
)
    requires
        call_ensures(engine_event::send_notice::<W>, (notices, notice), result),
        old(notices).senders == 0,
    ensures
        !result.0,
        result.1 is None,
        forall|other: u64| #[trigger] final(notices).queue(other) == old(notices).queue(other),
{
    assert forall|other: u64| #[trigger]
        final(notices).queue(other) == old(notices).queue(other) by {}
}

/// An error of the operating system keeps its code, and its category says what a caller can do
/// about it: correct an argument, wait, or give up.
pub proof fn failures_keep_their_code(error: &IoError, failure: Failure)
    requires
        call_ensures(Failure::from_io, (error,), failure),
    ensures
        failure.native_code == error.code,
        failure.kind is InvalidInput <==> error.kind is InvalidInput || error.kind is InvalidData,
        failure.kind is Backpressure <==> error.kind is WouldBlock,
        failure.kind is Unsupported <==> error.kind is Unsupported,
        failure.kind is NotFound <==> error.kind is NotFound,
        failure.kind is PermissionDenied <==> error.kind is PermissionDenied,
        failure.kind is Infrastructure <==> error.kind is BrokenPipe || error.kind
            is ConnectionAborted,
{
}

/// An event that is sent is received once, behind those that waited before it.
pub proof fn events_are_received_in_order<T, W>(
    sent: &mut Channel<T, W>,
    session: u64,
    event: T,
    result: Result<Wakes<W>, T>,
    received: &mut Channel<T, W>,
    first: Result<Option<T>, ReceiverClosed>,
    again: &mut Channel<T, W>,
    second: Result<Option<T>, ReceiverClosed>,
)
    requires
        call_ensures(Channel::<T, W>::send, (sent, session, event), result),
        result is Ok,
        old(sent).wf(),
        *old(received) == *final(sent),
        call_ensures(Channel::<T, W>::try_recv, (received, session), first),
        *old(again) == *final(received),
        call_ensures(Channel::<T, W>::try_recv, (again, session), second),
    ensures
        old(sent).queue(session).len() == 0 ==> first == Ok::<Option<T>, ReceiverClosed>(
            Some(event),
        ) && second == Ok::<Option<T>, ReceiverClosed>(None),
        old(sent).queue(session).len() == 1 ==> first == Ok::<Option<T>, ReceiverClosed>(
            Some(old(sent).queue(session)[0]),
        ) && second == Ok::<Option<T>, ReceiverClosed>(Some(event)),
        old(sent).queue(session).len() > 0 ==> final(received).queue(session) == old(sent).queue(
            session,
        ).skip(1).push(event),
{
    let queue = old(sent).queue(session);
    if queue.len() > 0 {
        assert(queue.push(event).skip(1) =~= queue.skip(1).push(event));
    }
}

/// A receiver of all sessions gets the same events: the oldest of a session that has any, and
/// nothing only when none waits; the end comes when nobody can send any more.
pub proof fn any_receiver_gets_what_waits<T, W>(
    channel: &mut Channel<T, W>,
    received: Received<(u64, T)>,
    session: u64,
)
    requires
        old(channel).wf(),
        call_ensures(Channel::<T, W>::recv, (channel,), received),
    ensures
        old(channel).queue(session).len() > 0 ==> received is Event,
        received matches Received::Event((from, event)) ==> old(channel).queue(from).len() > 0
            && event == old(channel).queue(from)[0] && final(channel).queue(from) == old(channel).queue(from).skip(1) && (session != from ==> final(channel).queue(session) == old(channel).queue(session)),
        received is Closed ==> old(channel).senders == 0,
        received is Wait ==> old(channel).senders > 0,
{
    if old(channel).queue(session).len() > 0 {
        assert(old(channel).queues@.contains_key(session));
        assert(old(channel).ready@.contains(session));
    }
}

/// A task that polled a session's receiver in vain is woken by the session's next event.
pub proof fn waiting_receiver_is_woken<T, W>(
    polled: &mut Channel<T, W>,
    session: u64,
    receiver: u64,
    waker: W,
    early: Received<T>,
    sent: &mut Channel<T, W>,
    event: T,
    result: Result<Wakes<W>, T>,
)
    requires
        old(polled).wf(),
        old(polled).owns(session, receiver),
        call_ensures(Channel::<T, W>::poll_recv, (polled, session, receiver, waker), early),
        early is Wait,
        *old(sent) == *final(polled),
        call_ensures(Channel::<T, W>::send, (sent, session, event), result),
    ensures
        result matches Ok(wakes) && wakes.waker == Some(waker) && wakes.receiver == Some(receiver)
            && wakes.any,
        final(sent).queue(session) == seq![event],
{
    assert(final(sent).queue(session) =~= seq![event]);
}

/// A session has one receiver at a time, and a receiver gets its own session's events.
pub proof fn session_has_one_receiver<T, W>(
    first: &mut Channel<T, W>,
    session: u64,
    receiver: Option<u64>,
    second: &mut Channel<T, W>,
    again: Option<u64>,
)
    requires
        old(first).wf(),
        call_ensures(Channel::<T, W>::session, (first, session), receiver),
        *old(second) == *final(first),
        call_ensures(Channel::<T, W>::session, (second, session), again),
    ensures
        again is None,
        receiver is Some <==> !old(first).closed@.contains(session)
            && !old(first).registered@.contains_key(session),
        receiver matches Some(identity) ==> final(first).owns(session, identity),
        forall|other: u64| #[trigger]
            old(first).registered@.contains_key(other) ==> Some(
                old(first).registered@[other].receiver,
            ) != receiver,
{
}

/// Closing a session's route hands out what waited, and the route takes nothing more.
pub proof fn closed_route_hands_out_what_waited<T, W>(
    closed: &mut Channel<T, W>,
    session: u64,
    receiver: u64,
    events: VecDeque<T>,
    sent: &mut Channel<T, W>,
    event: T,
    result: Result<Wakes<W>, T>,
)
    requires
        old(closed).wf(),
        old(closed).owns(session, receiver),
        !old(closed).retired@.contains(session),
        call_ensures(Channel::<T, W>::close_session, (closed, session, receiver), events),
        *old(sent) == *final(closed),
        call_ensures(Channel::<T, W>::send, (sent, session, event), result),
    ensures
        events@ == old(closed).queue(session),
        final(closed).queue(session).len() == 0,
        result == Err::<Wakes<W>, T>(event),
{
}

/// A route whose producer is done gives what waits, and then the end.
pub proof fn retired_route_ends<T, W>(
    retired: &mut Channel<T, W>,
    session: u64,
    wakes: Wakes<W>,
    received: &mut Channel<T, W>,
    result: Result<Option<T>, ReceiverClosed>,
)
    requires
        old(retired).wf(),
        old(retired).registered@.contains_key(session),
        call_ensures(Channel::<T, W>::retire_session, (retired, session), wakes),
        *old(received) == *final(retired),
        call_ensures(Channel::<T, W>::try_recv, (received, session), result),
    ensures
        wakes.receiver == Some(old(retired).registered@[session].receiver),
        wakes.waker == old(retired).registered@[session].waker,
        old(retired).queue(session).len() == 0 ==> result is Err,
        old(retired).queue(session).len() > 0 ==> result == Ok::<Option<T>, ReceiverClosed>(
            Some(old(retired).queue(session)[0]),
        ),
{
}

/// A wake that is asked for is sent unless one is on its way, so that one is on its way in any
/// case; after it arrived the next one is sent again.
pub proof fn wakes_are_not_lost(
    first: &mut WakeGate,
    send: bool,
    cleared: &mut WakeGate,
    second: &mut WakeGate,
    again: bool,
)
    requires
        call_ensures(WakeGate::request, (first,), send),
        *old(cleared) == *final(first),
        call_ensures(WakeGate::clear, (cleared,), ()),
        *old(second) == *final(cleared),
        call_ensures(WakeGate::request, (second,), again),
    ensures
        send || old(first).pending,
        old(first).pending ==> !send,
        again,
{
}

/// Every control that was accepted is handed to the reactor, those that end a session first,
/// and each kind in its order.
pub proof fn controls_are_handed_over(
    pushed: &mut ControlQueue,
    value: Control,
    accepted: bool,
    swapped: &mut ControlQueue,
    target: &mut VecDeque<Control>,
)
    requires
        call_ensures(ControlQueue::push, (pushed, value), accepted),
        *old(swapped) == *final(pushed),
        call_ensures(ControlQueue::swap_into, (swapped, target), ()),
    ensures
        accepted ==> final(target)@.contains(value),
        value is Credit ==> accepted == (old(pushed).values@.len() < 4096),
        value is Abandon ==> accepted == (old(pushed).lifecycle@.len() < 1024),
        final(target)@.len() == old(target)@.len() + old(pushed).lifecycle@.len() + old(pushed).values@.len() + (if accepted {
            1int
        } else {
            0int
        }),
        final(target)@.take((old(target)@.len() + old(pushed).lifecycle@.len()) as int) == old(target)@ + old(pushed).lifecycle@,
        final(swapped).values@.len() == 0 && final(swapped).lifecycle@.len() == 0,
{
    let all = old(target)@ + old(swapped).lifecycle@ + old(swapped).values@;
    assert(final(target)@ == all);
    if accepted {
        if value is Abandon {
            assert(all[(old(target)@.len() + old(pushed).lifecycle@.len()) as int] == value);
        } else {
            assert(all[all.len() - 1] == value);
        }
    }
    assert(all.take((old(target)@.len() + old(pushed).lifecycle@.len()) as int) =~= old(target)@
        + old(pushed).lifecycle@);
}

/// A result is delivered once: to the one who waits, who is woken, and a second result is not
/// taken.
pub proof fn result_is_delivered_once<T, W>(
    polled: &mut Oneshot<T, W>,
    waker: W,
    early: Polled<T>,
    sent: &mut Oneshot<T, W>,
    value: T,
    told: (bool, Option<W>),
    second: &mut Oneshot<T, W>,
    other: T,
    refused: (bool, Option<W>),
    received: &mut Oneshot<T, W>,
    result: Polled<T>,
    after: &mut Oneshot<T, W>,
    rest: Polled<T>,
)
    requires
        old(polled).wf(),
        call_ensures(Oneshot::<T, W>::poll, (polled, waker), early),
        early is Wait,
        *old(sent) == *final(polled),
        call_ensures(Oneshot::<T, W>::send, (sent, value), told),
        *old(second) == *final(sent),
        call_ensures(Oneshot::<T, W>::send, (second, other), refused),
        *old(received) == *final(second),
        call_ensures(Oneshot::<T, W>::recv, (received,), result),
        *old(after) == *final(received),
        call_ensures(Oneshot::<T, W>::recv, (after,), rest),
    ensures
        told == (true, Some(waker)),
        !refused.0,
        result == Polled::Ready(value),
        rest is Closed,
{
}

/// When the last sender goes without a result, the one who waits is woken and told so; when
/// the receiver goes, no result is taken.
pub proof fn abandoned_result_is_told<T, W>(
    dropped: &mut Oneshot<T, W>,
    told: (bool, Option<W>),
    received: &mut Oneshot<T, W>,
    result: Polled<T>,
    closed: &mut Oneshot<T, W>,
    sent: &mut Oneshot<T, W>,
    value: T,
    refused: (bool, Option<W>),
)
    requires
        old(dropped).wf(),
        old(dropped).senders == 1,
        call_ensures(Oneshot::<T, W>::drop_sender, (dropped,), told),
        *old(received) == *final(dropped),
        call_ensures(Oneshot::<T, W>::recv, (received,), result),
        old(closed).wf(),
        call_ensures(Oneshot::<T, W>::drop_receiver, (closed,), ()),
        *old(sent) == *final(closed),
        call_ensures(Oneshot::<T, W>::send, (sent, value), refused),
    ensures
        old(dropped).value is Pending ==> told == (true, old(dropped).waker) && result is Closed,
        !(old(dropped).value is Pending) ==> !told.0,
        !refused.0,
{
}

/// A write is taken only with room for it: its session's input is open, the bytes and one more
/// write fit, the reactor runs, and fewer than 1024 commands wait.
pub proof fn taken_write_had_room(
    runtime: &mut IntegratedRuntime,
    handle: u64,
    bytes: Bytes,
    result: i64,
)
    requires
        call_ensures(IntegratedRuntime::write, (runtime, handle, bytes), result),
        result == 1,
    ensures
        old(runtime).running,
        old(runtime).commands@.len() < 1024,
        old(runtime).reactor.at(handle) matches Some(session) && session.input.admission.open
            && session.input.admission.bytes + buffer::bytes_of(bytes).len()
            <= session.input.admission.capacity && session.input.admission.entries < 4096
            && session.input.admission.entries < session.input.admission.capacity,
        buffer::bytes_of(bytes).len() > 0,
{
}

/// An event is queued exactly when someone can send and the route takes events.
pub proof fn open_routes_take_events<T, W>(
    channel: &mut Channel<T, W>,
    session: u64,
    event: T,
    result: Result<Wakes<W>, T>,
)
    requires
        old(channel).wf(),
        call_ensures(Channel::<T, W>::send, (channel, session, event), result),
    ensures
        result is Ok <==> old(channel).senders > 0 && !old(channel).closed@.contains(session)
            && !old(channel).retired@.contains(session),
        result matches Err(back) ==> back == event && final(channel).queue(session) == old(channel).queue(session),
        result matches Ok(wakes) ==> wakes.any == (old(channel).queue(session).len() == 0) && (
        wakes.receiver is Some <==> old(channel).registered@.contains_key(session)),
{
}

/// The last sender's end is told to everyone who waits; as long as one sends, nobody is told.
pub proof fn last_sender_ends_the_channel<T, W>(
    channel: &mut Channel<T, W>,
    last: bool,
    received: Result<Option<T>, ReceiverClosed>,
    after: &mut Channel<T, W>,
    session: u64,
)
    requires
        old(channel).wf(),
        old(channel).senders > 0,
        call_ensures(Channel::<T, W>::drop_sender, (channel,), last),
        *old(after) == *final(channel),
        old(channel).queue(session).len() == 0,
        !old(channel).retired@.contains(session),
        call_ensures(Channel::<T, W>::try_recv, (after, session), received),
    ensures
        last <==> old(channel).senders == 1,
        last ==> received is Err,
        !last ==> received == Ok::<Option<T>, ReceiverClosed>(None),
{
}

/// A wake that could not be written because one waits already has done its work; an interrupted
/// one is made again.
pub proof fn full_wakes_are_enough(attempt: Result<(), IoError>, result: Option<Result<(), IoError>>)
    requires
        call_ensures(crate::control::complete_wake, (attempt,), result),
    ensures
        attempt is Ok ==> result == Some(Ok::<(), IoError>(())),
        attempt matches Err(error) ==> {
            &&& error.kind is Interrupted <==> result is None
            &&& error.kind is WouldBlock ==> result == Some(Ok::<(), IoError>(()))
            &&& !(error.kind is Interrupted) && !(error.kind is WouldBlock) ==> result == Some(
                Err::<(), IoError>(error),
            )
        },
{
}

/// A task that polls a session's receiver gets the oldest event, or the end, or is remembered.
pub proof fn polled_receiver_gets_what_waits<T, W>(
    channel: &mut Channel<T, W>,
    session: u64,
    receiver: u64,
    waker: W,
    received: Received<T>,
)
    requires
        old(channel).wf(),
        old(channel).owns(session, receiver),
        call_ensures(Channel::<T, W>::poll_recv, (channel, session, receiver, waker), received),
    ensures
        old(channel).queue(session).len() > 0 ==> received == Received::Event(
            old(channel).queue(session)[0],
        ) && final(channel).queue(session) == old(channel).queue(session).skip(1),
        old(channel).queue(session).len() == 0 ==> (received is Closed <==> old(channel).retired@.contains(session) || old(channel).senders == 0),
        received is Wait ==> final(channel).registered@.contains_key(session) && final(channel).registered@[session].waker == Some(waker),
{
}

} // verus!
