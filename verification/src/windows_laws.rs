//! What holds of the Windows engine's sessions over several steps: accepted input is written
//! in order, output goes out within its delay and on credit, an exit and a close are told as
//! they were and once, and consoles are closed once.
use crate::buffer;
use crate::channel::Wakes;
use crate::command_line;
use crate::control::Control;
use crate::error::{FailureKind, Operation, OperationError, WriteError};
use crate::fault::{ErrorKind, IoError};
use crate::handle;
use crate::notice::Notice;
use crate::registry::{self, Slot};
use crate::session::Sent;
use crate::spawn::BrokerSpawn;
use crate::windows_budget::{
    self, AdmissionResult, CloseAdmission, ClosePermit, LockAttempt, NoticeBudget,
    NoticeReservation, WindowsAdmission,
};
use crate::windows_desk::NoticeDesk;
use crate::windows_reactor::{
    self, PortEvent, ReapedSession, WindowsCommand, WindowsOutcome, WindowsReactor,
    WindowsReply, WindowsWork,
};
use crate::windows_runtime::{self, WindowsRuntime};
use crate::windows_session::{
    self, ConsoleStep, Follow, Outbox, OutboxModel, ReadDone, WindowsSession,
};
use crate::windows_spawn::{self, Coord, ProcessImage, RankedEntry};
use bytes::Bytes;
use vstd::prelude::*;

verus! {

/// Output that is due and can be handed out is sent by a refresh.
proof fn due_output_is_delivered(
    before: &WindowsSession,
    after: &WindowsSession,
    box_before: OutboxModel,
    box_after: OutboxModel,
    handle: u64,
    now: u64,
)
    requires
        before.wf(),
        windows_session::refreshed(before, after, box_before, box_after, handle, now),
        before.life.stage.active,
        !before.output.discarding,
        before.output.pending().len() > 0,
        before.life.flight.lease_bytes == 0,
        box_before.free > 0,
        box_before.open,
        before.output.deadline matches Some(deadline) && deadline <= now,
    ensures
        box_after.sent.len() > box_before.sent.len(),
        box_after.sent[box_before.sent.len() as int] matches Notice::Output {
            handle: route,
            bytes,
        } && route == handle && buffer::bytes_of(bytes).len() > 0 && buffer::bytes_of(bytes).len()
            <= 131_072 && buffer::bytes_of(bytes) == before.output.pending().take(
            buffer::bytes_of(bytes).len() as int,
        ),
        after.output.outstanding > before.output.outstanding,
        before.output.pending().len() <= 131_072 ==> after.output.pending().len() == 0,
{
    let (between, box_between) = choose|between: WindowsSession, box_between: OutboxModel|
        #![trigger windows_session::delivered(before, &between, box_before, box_between, handle, now)]
        windows_session::delivered(before, &between, box_before, box_between, handle, now)
            && windows_session::end_told(&between, after, box_between, box_after, handle);
    assert(windows_session::delivers(before, now));
    assert(box_between.sent.last() == box_between.sent[box_before.sent.len() as int]);
}

/// Output that is overdue is handed out: an active session that has no batch out with its
/// consumer sends the oldest bytes, at most 128 KiB of them, when their time has come.
pub proof fn overdue_output_is_sent(
    session: &mut WindowsSession,
    outbox: &mut Outbox,
    handle: u64,
    now: u64,
)
    requires
        call_ensures(WindowsSession::refresh_output, (session, handle, outbox, now), ()),
        old(session).wf(),
        old(session).life.stage.active,
        !old(session).output.discarding,
        old(session).output.pending().len() > 0,
        old(session).life.flight.lease_bytes == 0,
        old(outbox).free > 0,
        old(outbox).open,
        old(session).output.deadline matches Some(deadline) && deadline <= now,
    ensures
        final(outbox)@.sent.len() > old(outbox)@.sent.len(),
        final(outbox)@.sent[old(outbox)@.sent.len() as int] matches Notice::Output {
            handle: route,
            bytes,
        } && route == handle && buffer::bytes_of(bytes).len() > 0 && buffer::bytes_of(bytes).len()
            <= 131_072 && buffer::bytes_of(bytes) == old(session).output.pending().take(
            buffer::bytes_of(bytes).len() as int,
        ),
        final(session).output.outstanding > old(session).output.outstanding,
{
    due_output_is_delivered(
        old(session),
        final(session),
        old(outbox)@,
        final(outbox)@,
        handle,
        now,
    );
}

/// Nobody is handed output of a session that is not active, and nothing is sent for it.
pub proof fn inactive_session_sends_nothing(
    session: &mut WindowsSession,
    outbox: &mut Outbox,
    handle: u64,
    now: u64,
)
    requires
        call_ensures(WindowsSession::refresh_output, (session, handle, outbox, now), ()),
        !old(session).life.stage.active,
    ensures
        final(outbox)@.sent == old(outbox)@.sent,
        final(session).output == old(session).output,
        final(session).life == old(session).life,
{
}

/// Reads are made while the output has room, is not paused and has not ended, one at a time,
/// and never for more than there is room for.
pub proof fn reads_follow_room(session: &WindowsSession, room: Option<usize>)
    requires
        session.wf(),
        call_ensures(WindowsSession::read_room, (session,), room),
    ensures
        room is Some <==> session.life.stage.active && session.life.flight.reading is None
            && !session.output.eof && (session.output.discarding || !session.output.paused
            && session.output.pending().len() + session.output.outstanding
            < session.output.capacity),
        room matches Some(room) ==> 0 < room <= 65536 && (session.output.discarding
            || session.output.pending().len() + session.output.outstanding + room
            <= session.output.capacity),
{
}

/// Input is written one write at a time, oldest first, while the session is active and its
/// close has not begun; a write that went out in part is finished.
pub proof fn next_write_is_the_oldest(session: &WindowsSession, chunk: Option<&[u8]>)
    requires
        session.wf(),
        call_ensures(WindowsSession::next_write, (session,), chunk),
    ensures
        session.life.flight.writing ==> chunk is None,
        chunk matches Some(bytes) ==> {
            &&& bytes@.len() > 0
            &&& bytes@ == session.input.pending().take(bytes@.len() as int)
        },
        !session.life.flight.writing && session.life.stage.active
            && !session.life.stage.close_started && session.input.pending().len() > 0 ==> chunk
            is Some,
{
    if let Some(bytes) = chunk {
        assert(session.input.queue@[0].wf());
        assert(session.input.pending().take(bytes@.len() as int) =~= bytes@);
    }
    crate::session::pending_empty(session.input.queue@);
}

/// What went out leaves the queue, and nothing else does; the next write follows.
pub proof fn written_input_leaves_the_queue(
    session: &mut WindowsSession,
    outbox: &mut Outbox,
    handle: u64,
    amount: usize,
    follow: Vec<Follow>,
)
    requires
        call_ensures(
            WindowsSession::write_completed,
            (session, handle, outbox, Ok::<usize, IoError>(amount)),
            follow,
        ),
        amount > 0,
        !old(session).input.failed,
    ensures
        final(session).input.pending() == old(session).input.pending().skip(amount as int),
        !final(session).life.flight.writing,
        final(outbox)@ == old(outbox)@,
        follow@.contains(Follow::EnsureWrite),
        final(session).output == old(session).output,
{
    assert(follow@[0] == Follow::EnsureWrite);
}

/// A write that fails ends the input, and the loss of what waits is told to an active session,
/// once, with the platform's code.
pub proof fn failed_write_is_told(
    session: &mut WindowsSession,
    outbox: &mut Outbox,
    handle: u64,
    error: IoError,
    follow: Vec<Follow>,
)
    requires
        call_ensures(
            WindowsSession::write_completed,
            (session, handle, outbox, Err::<usize, IoError>(error)),
            follow,
        ),
        old(session).input.queue@.len() > 0,
        old(session).life.stage.active,
        !old(session).life.faults.input_notified,
        old(session).life.faults.input is None,
        old(session).life.reservations > 0,
        old(outbox).open,
    ensures
        !final(session).input.admission.open,
        final(session).input.failed,
        final(session).input.queue@.len() == 0,
        final(session).life.faults.input_notified,
        final(outbox)@.sent.len() == old(outbox)@.sent.len() + 1,
        final(outbox)@.sent.last() matches Notice::InputFailed { handle: route, failure } && route
            == handle && failure.operation == Operation::Write && failure.native_code
            == error.code,
{
}

/// An exit is told as it was: an active session sends the child's code, once.
pub proof fn exit_is_told_as_it_was(
    session: &mut WindowsSession,
    outbox: &mut Outbox,
    handle: u64,
    status: u32,
    follow: Vec<Follow>,
)
    requires
        call_ensures(
            WindowsSession::process_exited,
            (session, handle, outbox, Some(Ok::<u32, IoError>(status))),
            follow,
        ),
        old(session).life.exit.status is None,
        old(session).life.exit.failure is None,
        !old(session).life.exit.notified,
        old(session).life.stage.active,
        old(session).input.queue@.len() == 0,
        old(session).life.reservations > 0,
        old(outbox).open,
    ensures
        final(session).life.exit.status == Some(status as i64),
        final(session).life.exit.notified,
        final(outbox)@.sent == old(outbox)@.sent.push(
            Notice::Exit { handle, status: status as i64 },
        ),
        follow@.contains(Follow::CloseConsole),
{
    assert(follow@[1] == Follow::CloseConsole);
}

/// The first exit stays, and is not told again.
pub proof fn exit_is_told_once(
    session: &mut WindowsSession,
    outbox: &mut Outbox,
    handle: u64,
    exited: Option<Result<u32, IoError>>,
    follow: Vec<Follow>,
)
    requires
        call_ensures(
            WindowsSession::process_exited,
            (session, handle, outbox, exited),
            follow,
        ),
        old(session).life.exit.status is Some,
        old(session).life.exit.notified,
    ensures
        final(session).life.exit.status == old(session).life.exit.status,
        final(outbox)@.sent == old(outbox)@.sent,
{
}

/// An exit that came before activation is told on activation.
pub proof fn earlier_exit_is_told_on_activation(
    session: &mut WindowsSession,
    outbox: &mut Outbox,
    handle: u64,
    result: Result<(), IoError>,
)
    requires
        call_ensures(WindowsSession::activate, (session, handle, outbox), result),
        old(session).wf(),
        !old(session).life.stage.abandoned,
        !old(session).life.stage.close_started,
        old(session).life.faults.input is None,
    ensures
        result is Ok,
        !final(session).output.paused,
        final(session).life.stage.activation_deadline is None,
        old(session).life.exit.status is None && old(session).life.exit.failure is None
            ==> final(session).life.stage.active && final(outbox)@.sent == old(outbox)@.sent,
        old(session).life.exit.status is Some && old(session).life.exit.failure is None && !old(session).life.exit.notified && old(session).life.reservations > 0 && old(outbox).open
            ==> final(outbox)@.sent == old(outbox)@.sent.push(
            Notice::Exit { handle, status: old(session).life.exit.status.unwrap() },
        ),
{
}

/// A session that was closed or given up is not activated any more.
pub proof fn closed_session_is_not_activated(
    session: &mut WindowsSession,
    outbox: &mut Outbox,
    handle: u64,
    result: Result<(), IoError>,
)
    requires
        call_ensures(WindowsSession::activate, (session, handle, outbox), result),
        old(session).life.stage.abandoned || old(session).life.stage.close_started,
    ensures
        result matches Err(error) && error.kind == ErrorKind::BrokenPipe,
        final(session).life == old(session).life,
        final(outbox)@ == old(outbox)@,
{
}

/// A close ends the session's own side at once: no input or output is left, its processes are
/// killed, and its console goes. The caller waits with those who asked before.
pub proof fn close_ends_both_sides(
    session: &mut WindowsSession,
    outbox: &mut Outbox,
    handle: u64,
    waiter: u64,
    follow: Vec<Follow>,
)
    requires
        call_ensures(WindowsSession::begin_close, (session, handle, outbox, waiter), follow),
    ensures
        final(session).life.stage.close_started,
        final(session).close_waiters@ == old(session).close_waiters@.push(waiter),
        follow@.contains(Follow::CloseConsole),
        !old(session).life.stage.close_started ==> {
            &&& follow@.contains(Follow::TerminateJob)
            &&& follow@.contains(Follow::CancelWrite)
            &&& !final(session).input.admission.open
            &&& final(session).input.queue@.len() == 0
            &&& final(session).output.queue@.len() == 0
            &&& final(session).output.outstanding == 0
        },
        old(session).life.stage.close_started ==> {
            &&& !follow@.contains(Follow::TerminateJob)
            &&& final(session).life == old(session).life
            &&& final(outbox)@ == old(outbox)@
        },
{
    if !old(session).life.stage.close_started {
        assert(follow@[0] == Follow::TerminateJob);
        assert(follow@[1] == Follow::CancelWrite);
        assert(follow@[2] == Follow::CloseConsole);
    } else {
        assert(follow@[0] == Follow::CloseConsole);
    }
}

/// A console is closed when the child has exited and the session is not paused or is being
/// closed, and once: the console is no longer the session's then.
pub proof fn console_is_closed_once(
    first: &mut WindowsSession,
    step: ConsoleStep,
    second: &mut WindowsSession,
    again: ConsoleStep,
    forced: &mut WindowsSession,
    last: ConsoleStep,
)
    requires
        call_ensures(WindowsSession::console_close, (first,), step),
        !(step is Nothing),
        *old(second) == *final(first),
        call_ensures(WindowsSession::console_close, (second,), again),
        *old(forced) == *final(second),
        call_ensures(WindowsSession::force_console_close, (forced,), last),
    ensures
        old(first).life.exit.status is Some,
        !old(first).output.paused || old(first).life.stage.close_started,
        old(first).life.console.owned,
        again is Nothing,
        last is Nothing,
        step is CloseNow <==> !old(first).life.console.permit,
{
}

/// A console that is due is closed.
pub proof fn due_console_is_closed(session: &mut WindowsSession, step: ConsoleStep)
    requires
        call_ensures(WindowsSession::console_close, (session,), step),
        old(session).life.exit.status is Some,
        !old(session).output.paused || old(session).life.stage.close_started,
        old(session).life.console.owned,
        !old(session).life.console.close_started,
    ensures
        !(step is Nothing),
        !final(session).life.console.owned,
{
}

/// A session is over exactly when its child exited, its output ended and was consumed, nothing
/// is in flight, and its console is closed.
pub proof fn session_is_over_when_nothing_is_left(session: &WindowsSession, over: bool)
    requires
        session.wf(),
        call_ensures(WindowsSession::terminal, (session,), over),
    ensures
        over <==> session.life.exit.status is Some && session.output.eof
            && session.output.pending().len() == 0 && session.output.outstanding == 0
            && session.life.flight.reading is None && !session.life.flight.writing
            && session.life.console.close_done,
{
}

/// Credit makes room for as much as was consumed, and lets the next batch go out when all of
/// the last one is back.
pub proof fn credit_makes_room(session: &mut WindowsSession, bytes: usize, accepted: bool)
    requires
        call_ensures(WindowsSession::credit, (session, bytes), accepted),
    ensures
        accepted <==> bytes <= old(session).output.outstanding,
        accepted ==> final(session).output.outstanding + bytes == old(session).output.outstanding,
        accepted && bytes == old(session).life.flight.lease_bytes ==> final(session).life.flight.lease_bytes == 0,
        !accepted ==> final(session).output == old(session).output && final(session).life == old(session).life,
        final(session).output.pending() == old(session).output.pending(),
{
}

/// A write of an active session waits behind the earlier ones and is started.
pub proof fn accepted_write_is_started(
    reactor: &mut WindowsReactor,
    handle: u64,
    bytes: Bytes,
    outbox: &mut Outbox,
    outcome: WindowsOutcome,
)
    requires
        call_ensures(
            WindowsReactor::process,
            (reactor, WindowsCommand::Write { handle, bytes }, outbox),
            outcome,
        ),
        old(reactor).at(handle) matches Some(session) && session.life.stage.active
            && !session.life.stage.close_started && !session.input.failed,
        buffer::bytes_of(bytes).len() > 0,
    ensures
        final(reactor).at(handle) matches Some(next) && next.input.pending() == old(reactor).at(
            handle,
        ).unwrap().input.pending() + buffer::bytes_of(bytes),
        outcome.work matches WindowsWork::Follow { handle: named, steps } && named == handle
            && steps@.contains(Follow::EnsureWrite),
        final(outbox)@ == old(outbox)@,
{
    assert(outcome.work->steps@[0] == Follow::EnsureWrite);
}

/// A write that comes too late gives its room back and is told as lost, once.
pub proof fn late_write_is_reported(
    reactor: &mut WindowsReactor,
    handle: u64,
    bytes: Bytes,
    outbox: &mut Outbox,
    outcome: WindowsOutcome,
)
    requires
        call_ensures(
            WindowsReactor::process,
            (reactor, WindowsCommand::Write { handle, bytes }, outbox),
            outcome,
        ),
        old(reactor).at(handle) matches Some(session) && (session.life.stage.close_started
            || session.input.failed),
        buffer::bytes_of(bytes).len() <= usize::MAX,
    ensures
        final(reactor).at(handle) matches Some(next) && {
            let session = old(reactor).at(handle).unwrap();
            &&& next.input.pending() == session.input.pending()
            &&& next.input.admission.bytes + buffer::bytes_of(bytes).len()
                == session.input.admission.bytes || next.input.admission.bytes == 0
            &&& next.life.faults.input is Some
            &&& session.life.faults.input_notified ==> final(outbox)@.sent == old(outbox)@.sent
            &&& session.life.stage.active && !session.life.faults.input_notified
                && session.life.reservations > 0 && old(outbox).open ==> (
            final(outbox)@.sent.last() matches Notice::InputFailed { handle: route, .. } && route
                == handle) && next.life.faults.input_notified
        },
        outcome.work is Done,
{
}

/// A new size goes to the console of the session that the caller named, width before height;
/// a size that no console can have is refused, and so is one for a console that is gone.
pub proof fn resize_reaches_its_console(
    reactor: &mut WindowsReactor,
    handle: u64,
    size: [u32; 4],
    outbox: &mut Outbox,
    outcome: WindowsOutcome,
)
    requires
        call_ensures(
            WindowsReactor::process,
            (reactor, WindowsCommand::Resize { handle, size }, outbox),
            outcome,
        ),
    ensures
        final(reactor).at(handle) == old(reactor).at(handle),
        outcome.work is Resize <==> (old(reactor).at(handle) matches Some(session)
            && session.life.console.owned && 1 <= size[0] <= 32767 && 1 <= size[1] <= 32767),
        outcome.work matches WindowsWork::Resize { handle: named, size: asked, coord } ==> named
            == handle && asked == size && coord.x == size[1] && coord.y == size[0],
        !(outcome.work is Resize) ==> (outcome.reply matches WindowsReply::Done(Err(failure))
            && failure.operation == Operation::Resize),
{
}

/// A size that the platform took is the session's size from then on; one that it refused
/// changes nothing and is answered with the platform's code.
pub proof fn taken_size_is_shown(
    resized: &mut WindowsReactor,
    handle: u64,
    size: [u32; 4],
    result: i32,
    answer: Result<(), OperationError>,
    asked: &mut WindowsReactor,
    outbox: &mut Outbox,
    outcome: WindowsOutcome,
)
    requires
        call_ensures(WindowsReactor::after_resize, (resized, handle, size, result), answer),
        old(resized).at(handle) is Some,
        *old(asked) == *final(resized),
        call_ensures(
            WindowsReactor::process,
            (asked, WindowsCommand::Size { handle }, outbox),
            outcome,
        ),
    ensures
        result >= 0 <==> answer is Ok,
        result >= 0 ==> outcome.reply == WindowsReply::Size(Ok(size)),
        result < 0 ==> outcome.reply == WindowsReply::Size(
            Ok(old(resized).at(handle).unwrap().size),
        ) && (answer matches Err(failure) && failure.native_code == Some(result)),
{
}

/// A child that runs is terminated when it is signalled; one that exited is not, and a signal
/// that is none is refused.
pub proof fn signal_ends_a_running_child(
    reactor: &mut WindowsReactor,
    handle: u64,
    signal: i32,
    outbox: &mut Outbox,
    outcome: WindowsOutcome,
)
    requires
        call_ensures(
            WindowsReactor::process,
            (reactor, WindowsCommand::Signal { handle, signal }, outbox),
            outcome,
        ),
    ensures
        outcome.work is Terminate <==> (old(reactor).at(handle) matches Some(session)
            && session.life.exit.status is None && signal > 0),
        outcome.work matches WindowsWork::Terminate { handle: named } ==> named == handle,
        (old(reactor).at(handle) matches Some(session) && session.life.exit.status is Some
            && signal > 0) ==> outcome.reply == WindowsReply::Signalled(Ok(false)),
        final(reactor).at(handle) == old(reactor).at(handle),
{
}

/// The process and the size of a session are shown as they are.
pub proof fn facts_are_shown(
    reactor: &mut WindowsReactor,
    command: WindowsCommand,
    handle: u64,
    outbox: &mut Outbox,
    outcome: WindowsOutcome,
)
    requires
        call_ensures(WindowsReactor::process, (reactor, command, outbox), outcome),
        old(reactor).at(handle) is Some,
    ensures
        command == (WindowsCommand::ProcessId { handle }) ==> outcome.reply
            == WindowsReply::ProcessId(Ok(old(reactor).at(handle).unwrap().pid as i64)),
        command == (WindowsCommand::Size { handle }) ==> outcome.reply == WindowsReply::Size(
            Ok(old(reactor).at(handle).unwrap().size),
        ),
{
}

/// Commands for one session leave every other one as it is.
pub proof fn commands_keep_to_their_session(
    reactor: &mut WindowsReactor,
    command: WindowsCommand,
    outbox: &mut Outbox,
    outcome: WindowsOutcome,
    target: u64,
    peer: u64,
)
    requires
        call_ensures(WindowsReactor::process, (reactor, command, outbox), outcome),
        call_ensures(WindowsCommand::handle, (&command,), target),
        peer != target,
    ensures
        final(reactor).at(peer) == old(reactor).at(peer),
{
}

/// Sessions that are over are reported among those reaped.
proof fn reapable_is_reaped(items: Seq<(u64, WindowsSession)>, index: int)
    requires
        0 <= index < items.len(),
        windows_reactor::reapable(items[index].1),
        !items[index].1.life.stage.close_notified,
    ensures
        exists|i: int| #![trigger windows_reactor::reaped_of(items)[i]]
            0 <= i < windows_reactor::reaped_of(items).len() && {
                let one = windows_reactor::reaped_of(items)[i];
                &&& one.handle == items[index].0
                &&& one.waiters == items[index].1.close_waiters@
                &&& one.result.input_failure == items[index].1.life.faults.input
                &&& one.result.output_failure == items[index].1.life.faults.output
                &&& one.result.cleanup_failure == items[index].1.life.faults.cleanup
            },
    decreases items.len(),
{
    let rest = windows_reactor::reaped_of(items.drop_last());
    let all = windows_reactor::reaped_of(items);
    if index < items.len() - 1 {
        assert(items.drop_last()[index] == items[index]);
        reapable_is_reaped(items.drop_last(), index);
        let i = choose|i: int| #![trigger rest[i]]
            0 <= i < rest.len() && {
                let one = rest[i];
                &&& one.handle == items[index].0
                &&& one.waiters == items[index].1.close_waiters@
                &&& one.result.input_failure == items[index].1.life.faults.input
                &&& one.result.output_failure == items[index].1.life.faults.output
                &&& one.result.cleanup_failure == items[index].1.life.faults.cleanup
            };
        assert(all[i] == rest[i]);
    } else {
        assert(items.last() == items[index]);
        assert(all[rest.len() as int].handle == items[index].0);
    }
}

/// What was sent before the reaping stays sent, and the outbox stays open.
proof fn reaping_keeps_sent(items: Seq<(u64, WindowsSession)>, outbox: OutboxModel)
    ensures
        windows_reactor::reaped_box(items, outbox).open == outbox.open,
    decreases items.len(),
{
    if items.len() > 0 {
        reaping_keeps_sent(items.drop_last(), outbox);
    }
}

/// A session that is over sends the notice of its close.
proof fn reaped_close_is_sent(items: Seq<(u64, WindowsSession)>, outbox: OutboxModel, index: int)
    requires
        0 <= index < items.len(),
        windows_reactor::reapable(items[index].1),
        !items[index].1.life.stage.close_notified,
        items[index].1.life.reservations > 0,
        outbox.open,
    ensures
        exists|i: int| #![trigger windows_reactor::reaped_box(items, outbox).sent[i]]
            0 <= i < windows_reactor::reaped_box(items, outbox).sent.len() && (
            windows_reactor::reaped_box(items, outbox).sent[i] matches Notice::Closed {
                handle,
                result,
            } && handle == items[index].0 && result.input_failure
                == items[index].1.life.faults.input && result.output_failure
                == items[index].1.life.faults.output && result.cleanup_failure
                == items[index].1.life.faults.cleanup),
    decreases items.len(),
{
    let before = windows_reactor::reaped_box(items.drop_last(), outbox);
    let after = windows_reactor::reaped_box(items, outbox);
    reaping_keeps_sent(items.drop_last(), outbox);
    if index < items.len() - 1 {
        assert(items.drop_last()[index] == items[index]);
        reaped_close_is_sent(items.drop_last(), outbox, index);
        let i = choose|i: int| #![trigger before.sent[i]]
            0 <= i < before.sent.len() && (before.sent[i] matches Notice::Closed {
                handle,
                result,
            } && handle == items[index].0 && result.input_failure
                == items[index].1.life.faults.input && result.output_failure
                == items[index].1.life.faults.output && result.cleanup_failure
                == items[index].1.life.faults.cleanup);
        assert(after.sent[i] == before.sent[i]);
    } else {
        assert(items.last() == items[index]);
        assert(after.sent[before.sent.len() as int] is Closed);
    }
}

/// The close of a session is told: a closed session that is over goes, everyone who waits for
/// it gets its result, and its consumer gets the notice while it takes notices.
pub proof fn completed_close_is_told(
    reactor: &mut WindowsReactor,
    outbox: &mut Outbox,
    reaped: Vec<ReapedSession>,
    handle: u64,
)
    requires
        call_ensures(WindowsReactor::reap_closed, (reactor, outbox), reaped),
        old(reactor).wf(),
        old(reactor).orderly(),
        old(reactor).at(handle) matches Some(session) && session.life.stage.close_started
            && !session.life.stage.abandoned && session.life.exit.status is Some
            && session.output.eof && session.output.pending().len() == 0
            && session.output.outstanding == 0 && session.life.flight.reading is None
            && !session.life.flight.writing && session.life.console.close_done,
    ensures
        final(reactor).at(handle) is None,
        exists|i: int| #![trigger reaped@[i]]
            0 <= i < reaped@.len() && {
                let session = old(reactor).at(handle).unwrap();
                &&& reaped@[i].handle == handle
                &&& reaped@[i].waiters@ == session.close_waiters@
                &&& reaped@[i].result.input_failure == session.life.faults.input
                &&& reaped@[i].result.output_failure == session.life.faults.output
                &&& reaped@[i].result.cleanup_failure == session.life.faults.cleanup
            },
        old(outbox).open && old(reactor).at(handle).unwrap().life.reservations > 0 ==> exists|
            i: int,
        | #![trigger final(outbox)@.sent[i]]
            0 <= i < final(outbox)@.sent.len() && (final(outbox)@.sent[i] matches Notice::Closed {
                handle: route,
                result,
            } && route == handle && result.cleanup_failure == old(reactor).at(
                handle,
            ).unwrap().life.faults.cleanup && result.input_failure == old(reactor).at(
                handle,
            ).unwrap().life.faults.input && result.output_failure == old(reactor).at(
                handle,
            ).unwrap().life.faults.output),
{
    let slots = old(reactor).sessions.slots@;
    let items = registry::occupants(slots);
    registry::live_is_occupant(slots, handle);
    let index = choose|i: int|
        0 <= i < items.len() && #[trigger] items[i] == (
            handle,
            registry::resolve(slots, handle).unwrap(),
        );
    assert(!old(reactor).sessions.resolve(handle).unwrap().life.stage.close_notified);
    reapable_is_reaped(items, index);
    let models = windows_reactor::reaped_of(items);
    let shown = reaped@.map_values(|one: ReapedSession| one@);
    assert(shown == models);
    let session = old(reactor).at(handle).unwrap();
    let i = choose|i: int| #![trigger models[i]]
        0 <= i < models.len() && {
            let one = models[i];
            &&& one.handle == items[index].0
            &&& one.waiters == items[index].1.close_waiters@
            &&& one.result.input_failure == items[index].1.life.faults.input
            &&& one.result.output_failure == items[index].1.life.faults.output
            &&& one.result.cleanup_failure == items[index].1.life.faults.cleanup
        };
    assert(shown[i] == reaped@[i]@);
    assert(reaped@[i].handle == handle);
    if old(outbox).open && session.life.reservations > 0 {
        reaped_close_is_sent(items, old(outbox)@, index);
    }
}

/// A session that is not over, or was not closed, stays.
pub proof fn unfinished_session_stays(
    reactor: &mut WindowsReactor,
    outbox: &mut Outbox,
    reaped: Vec<ReapedSession>,
    handle: u64,
)
    requires
        call_ensures(WindowsReactor::reap_closed, (reactor, outbox), reaped),
        old(reactor).wf(),
        old(reactor).at(handle) matches Some(session) && (!session.life.stage.close_started
            || session.life.exit.status is None || !session.output.eof
            || session.output.pending().len() > 0 || session.output.outstanding > 0
            || session.life.flight.reading is Some || session.life.flight.writing
            || !session.life.console.close_done),
    ensures
        final(reactor).at(handle) == old(reactor).at(handle),
{
}

/// A session that nobody activates is given up five seconds after it was started, and not
/// before.
pub proof fn unclaimed_session_expires(
    pid: u32,
    size: [u32; 4],
    reservations: usize,
    capacities: (usize, usize),
    now: u64,
    session: WindowsSession,
    reactor: &mut WindowsReactor,
    handle: u64,
    outbox: &mut Outbox,
    later: u64,
    outcome: WindowsOutcome,
)
    requires
        now <= windows_session::MAX_NOW,
        call_ensures(
            WindowsSession::from_spawned,
            (pid, size, reservations, capacities.0, capacities.1, now),
            session,
        ),
        old(reactor).at(handle) == Some(session),
        call_ensures(WindowsReactor::expire, (reactor, handle, outbox, later), outcome),
    ensures
        final(reactor).at(handle) matches Some(next) && {
            &&& next.life.stage.abandoned <==> later >= now + 5_000_000_000
            &&& next.life.stage.abandoned ==> next.life.stage.close_started
                && !next.input.admission.open
            &&& next.pid == pid && next.size == size
        },
{
}

/// A read that was cancelled, broken or empty is the end of the output; data is handed on, and
/// anything else is a failure with its code.
pub proof fn read_ends_are_told_apart(error: Option<IoError>, data: Vec<u8>, done: ReadDone)
    requires
        call_ensures(windows_reactor::read_outcome, (error, data), done),
    ensures
        error is None && data@.len() > 0 <==> done is Data,
        done matches ReadDone::Data(kept) ==> kept == data,
        done matches ReadDone::Failed(failure) ==> error == Some(failure) && failure.code != Some(
            109i32,
        ) && failure.code != Some(995i32),
        error is None && data@.len() == 0 ==> done is End,
        error matches Some(failure) && (failure.code == Some(109i32) || failure.code == Some(
            995i32,
        )) ==> done is End,
{
}

/// Notices are bounded: what waits and what is reserved never exceed the limit, a reservation
/// is given while there is room, and room that is given back can be reserved again.
pub proof fn reservations_are_given_while_there_is_room(
    first: &mut NoticeBudget,
    reservation: Option<NoticeReservation>,
    back: &mut NoticeBudget,
    returned: NoticeReservation,
    second: &mut NoticeBudget,
    again: Option<NoticeReservation>,
)
    requires
        old(first).wf(),
        call_ensures(NoticeBudget::try_reserve, (first,), reservation),
        reservation is Some,
        *old(back) == *final(first),
        call_ensures(NoticeBudget::release, (back, returned), ()),
        *old(second) == *final(back),
        call_ensures(NoticeBudget::try_reserve, (second,), again),
    ensures
        old(first).held + old(first).queued < old(first).limit,
        final(first).held + final(first).queued <= final(first).limit,
        final(first).held == old(first).held + 1,
        *final(back) == *old(first),
        again is Some,
{
}

/// A session is started only with the right to close its console and to send five notices,
/// and what it cannot have leaves no trace.
pub proof fn session_starts_with_its_rights(
    admission: &mut CloseAdmission,
    budget: &mut NoticeBudget,
    result: Result<ClosePermit, IoError>,
)
    requires
        old(admission).wf(),
        old(budget).wf(),
        call_ensures(windows_budget::reserve_session, (admission, budget), result),
    ensures
        result is Ok <==> old(admission).reserved < old(admission).limit && old(budget).held
            + old(budget).queued + 5 <= old(budget).limit,
        result is Ok ==> final(admission).reserved == old(admission).reserved + 1 && final(budget).held == old(budget).held + 5,
        result is Err ==> *final(admission) == *old(admission) && *final(budget) == *old(budget),
        result matches Err(error) ==> error.kind == ErrorKind::WouldBlock,
{
}

/// A write is admitted exactly when the input is open, the bytes and one more write fit, and
/// the reactor took it; its room is counted then, and never otherwise.
pub proof fn write_is_admitted_with_room<K: FnOnce() -> bool, F: FnOnce() -> Sent>(
    admission: &mut WindowsAdmission,
    length: usize,
    attempt: LockAttempt,
    wake: K,
    send: F,
    result: AdmissionResult,
    outcome: Result<(), OperationError>,
)
    requires
        call_ensures(
            WindowsAdmission::admit_write_with::<K, F>,
            (admission, length, attempt, wake, send),
            result,
        ),
        length > 0,
        call_ensures(windows_budget::copy_result, (result, final(admission).failure), outcome),
    ensures
        outcome is Ok ==> {
            &&& attempt is Taken && old(admission).inner.open
            &&& old(admission).inner.bytes + length <= old(admission).inner.capacity
            &&& call_ensures(wake, (), true) && call_ensures(send, (), Sent::Queued)
            &&& final(admission).inner.bytes == old(admission).inner.bytes + length
            &&& final(admission).inner.entries == old(admission).inner.entries + 1
        },
        outcome is Err ==> final(admission).inner.bytes == old(admission).inner.bytes && final(admission).inner.entries == old(admission).inner.entries,
        attempt is Taken && !old(admission).inner.open ==> (outcome matches Err(failure) && (
        old(admission).failure is None ==> failure.kind == FailureKind::Closed) && (
        old(admission).failure matches Some(earlier) ==> failure == earlier)),
        attempt is Contended ==> (outcome matches Err(failure) && failure.kind
            == FailureKind::Backpressure),
        attempt is Poisoned ==> (outcome matches Err(failure) && failure.kind
            == FailureKind::InfrastructureLost),
        attempt is Taken && old(admission).inner.open && (old(admission).inner.bytes + length
            > old(admission).inner.capacity || old(admission).inner.entries >= 4096) ==> (
        outcome matches Err(failure) && failure.kind == FailureKind::Backpressure),
{
}

/// A completion leads to the session whose handle its key was made of.
pub proof fn keys_lead_back(
    reactor: &WindowsReactor,
    handle: u64,
    close: u64,
    exit: u64,
    closed: PortEvent,
    exited: PortEvent,
)
    requires
        reactor.wf(),
        reactor.at(handle) is Some,
        call_ensures(windows_reactor::close_key, (handle,), close),
        call_ensures(windows_reactor::exit_key, (handle,), exit),
        call_ensures(windows_reactor::port_event, (close, false, false), closed),
        call_ensures(windows_reactor::port_event, (exit, false, false), exited),
    ensures
        closed == PortEvent::ConsoleClosed(handle),
        exited == PortEvent::ProcessExited(handle),
{
    windows_reactor::keys_lead_to_their_session(reactor, handle);
}

/// The next deadline of all sessions is not after that of any of them.
proof fn earliest_is_not_after(slots: Seq<Slot<WindowsSession>>, index: int)
    requires
        0 <= index < slots.len(),
        slots[index].value is Some,
        windows_reactor::deadline_of(slots[index].value.unwrap()) is Some,
    ensures
        windows_reactor::earliest_deadline(slots) matches Some(earliest) && earliest
            <= windows_reactor::deadline_of(slots[index].value.unwrap()).unwrap(),
    decreases slots.len(),
{
    if index < slots.len() - 1 {
        assert(slots.drop_last()[index] == slots[index]);
        earliest_is_not_after(slots.drop_last(), index);
    }
}

/// The reactor does not sleep past a deadline: of output that can be handed out, and of an
/// activation. While a console closes it looks every tenth of a second.
pub proof fn reactor_wakes_in_time(
    reactor: &WindowsReactor,
    now: u64,
    timeout: u32,
    handle: u64,
    deadline: u64,
)
    requires
        reactor.wf(),
        call_ensures(WindowsReactor::output_timeout, (reactor, now), timeout),
        reactor.at(handle) matches Some(session) && {
            ||| session.output.bytes > 0 && session.output.deadline == Some(deadline)
                && !session.life.flight.blocked && session.life.flight.lease_bytes == 0
            ||| !session.life.stage.active && !session.life.stage.abandoned
                && session.life.stage.activation_deadline == Some(deadline)
        },
    ensures
        deadline <= now ==> timeout == 0,
        deadline > now ==> timeout * 1_000_000 <= deadline - now || timeout == 1,
        (reactor.at(handle) matches Some(session) && session.life.console.close_started
            && !session.life.console.close_done) ==> timeout <= 100,
{
    let session = reactor.at(handle).unwrap();
    let (index, generation) = handle::handle_parts_of(handle).unwrap();
    assert(reactor.sessions.slots@[index as int].value == Some(session));
    earliest_is_not_after(reactor.sessions.slots@, index as int);
    let earliest = windows_reactor::earliest_deadline(reactor.sessions.slots@).unwrap();
    if earliest > now {
        let millis = (earliest - now) / 1_000_000;
        assert(millis * 1_000_000 <= earliest - now);
    }
}

/// A write that finds room is taken: the reactor runs and wakes, fewer than 1024 commands
/// wait, the session's input is open, and the bytes and one more write fit. Its bytes are then
/// the last command, and the room is counted.
pub proof fn write_with_room_is_taken(
    runtime: &mut WindowsRuntime,
    handle: u64,
    bytes: Bytes,
    posted: bool,
    result: Result<(), WriteError>,
)
    requires
        call_ensures(WindowsRuntime::write, (runtime, handle, bytes, posted), result),
        old(runtime).running,
        old(runtime).wake.pending || posted,
        old(runtime).commands@.len() < 1024,
        old(runtime).reactor.at(handle) matches Some(session) && session.input.admission.open
            && session.input.admission.bytes + buffer::bytes_of(bytes).len()
            <= session.input.admission.capacity && session.input.admission.entries < 4096
            && session.input.admission.entries < session.input.admission.capacity,
        buffer::bytes_of(bytes).len() > 0,
    ensures
        result is Ok,
        final(runtime).wake.pending,
        final(runtime).commands@.len() == old(runtime).commands@.len() + 1,
        final(runtime).commands@.last() matches WindowsCommand::Write {
            handle: named,
            bytes: data,
        } && named == handle && buffer::bytes_of(data) == buffer::bytes_of(bytes),
        final(runtime).reactor.at(handle) matches Some(next) && next.input.admission.bytes == old(runtime).reactor.at(handle).unwrap().input.admission.bytes + buffer::bytes_of(bytes).len(),
{
}

/// A write that is not taken hands its bytes back and leaves no trace among the commands; the
/// reason is the one that holds.
pub proof fn refused_write_hands_its_bytes_back(
    runtime: &mut WindowsRuntime,
    handle: u64,
    bytes: Bytes,
    posted: bool,
    rejected: WriteError,
)
    requires
        call_ensures(
            WindowsRuntime::write,
            (runtime, handle, bytes, posted),
            Err::<(), WriteError>(rejected),
        ),
    ensures
        rejected.bytes == bytes,
        final(runtime).commands@ == old(runtime).commands@,
        rejected.kind is Closed <==> (old(runtime).reactor.at(handle) matches Some(session)
            ==> !session.input.admission.open),
        rejected.kind is Infrastructure ==> !old(runtime).running || !(old(runtime).wake.pending
            || posted),
        rejected.kind is Infrastructure ==> (final(runtime).reactor.at(handle) matches Some(next)
            && !next.input.admission.open),
        rejected.kind is Backpressure ==> (old(runtime).reactor.at(handle) matches Some(session)
            && (session.input.admission.bytes + buffer::bytes_of(bytes).len()
            > session.input.admission.capacity || session.input.admission.entries >= 4096
            || session.input.admission.entries >= session.input.admission.capacity || old(runtime).commands@.len() >= 1024)),
        !(rejected.kind is Empty),
{
}

/// A session that is given up takes no more writes, and the reactor learns of it: by a control
/// while there is room for one, else by a command.
pub proof fn given_up_session_is_told_to_the_reactor(
    runtime: &mut WindowsRuntime,
    handle: u64,
    queued: bool,
)
    requires
        old(runtime).wf(),
        call_ensures(WindowsRuntime::try_abandon, (runtime, handle), queued),
    ensures
        final(runtime).reactor.at(handle) matches Some(next) ==> !next.input.admission.open,
        old(runtime).running && (old(runtime).controls.lifecycle@.len() < 1024 || old(runtime).commands@.len() < 1024) ==> queued,
        queued ==> final(runtime).wake.pending,
        queued ==> final(runtime).controls.lifecycle@.contains(Control::Abandon { handle })
            || final(runtime).commands@.contains(WindowsCommand::Abandon { handle }),
{
    if queued {
        if windows_runtime::controls_have_room(old(runtime)) {
            assert(final(runtime).controls.lifecycle@.last() == (Control::Abandon { handle }));
        } else {
            assert(final(runtime).commands@.last() == (WindowsCommand::Abandon { handle }));
        }
    }
}

/// What a Windows process is created with is what was configured: the usual reading of the
/// command line gives the executable and the arguments back, the console has the size, and
/// texts end with a zero.
pub proof fn process_is_created_as_configured(
    config: &BrokerSpawn<u16>,
    result: Result<ProcessImage, IoError>,
)
    requires
        call_ensures(windows_spawn::process_image, (config,), result),
    ensures
        result is Ok <==> config.rejection() is None,
        result matches Ok(image) ==> {
            let line = image.command_line@;
            &&& line.len() > 0 && line.last() == 0
            &&& command_line::arguments_of(line.drop_last()).len() == config.arguments@.len() + 1
            &&& command_line::arguments_of(line.drop_last())[0] == config.executable@
            &&& forall|i: int|
                0 <= i < config.arguments@.len() ==> #[trigger] command_line::arguments_of(
                    line.drop_last(),
                )[i + 1] == config.arguments@[i]@
            &&& image.size.x == config.columns
            &&& image.size.y == config.rows
            &&& image.cwd is Some == config.cwd is Some
            &&& image.cwd matches Some(path) ==> path@ == config.cwd.unwrap()@.push(0)
            &&& image.application matches Some(path) ==> path@ == config.executable@.push(0)
            &&& image.application is None <==> forall|i: int|
                0 <= i < config.executable@.len() ==> (#[trigger] config.executable@[i]) != 92
                    && config.executable@[i] != 47 && config.executable@[i] != 58
        },
{
    if let Ok(image) = result {
        let arguments = seq![config.executable@] + command_line::views(config.arguments@);
        command_line::line_preserves_arguments(arguments);
        assert(image.command_line@.drop_last() =~= command_line::line_of(arguments));
        assert forall|i: int| 0 <= i < config.arguments@.len() implies
            #[trigger] arguments[i + 1] == config.arguments@[i]@ by {}
        if image.application is None {
            assert forall|i: int| 0 <= i < config.executable@.len() implies (
            #[trigger] config.executable@[i]) != 92 && config.executable@[i] != 47
                && config.executable@[i] != 58 by {
                assert(!windows_spawn::is_path_unit(config.executable@[i]));
            }
        } else {
            let i = choose|i: int|
                0 <= i < config.executable@.len() && windows_spawn::is_path_unit(
                    #[trigger] config.executable@[i],
                );
            assert(config.executable@[i] == 92 || config.executable@[i] == 47
                || config.executable@[i] == 58);
        }
    }
}

/// A line of a block stands in it whole.
proof fn line_stands_in_block(entries: Seq<RankedEntry>, index: int) -> (offset: int)
    requires
        0 <= index < entries.len(),
    ensures
        0 <= offset,
        offset + entries[index].line().len() <= windows_spawn::lines_of(entries).len(),
        windows_spawn::lines_of(entries).subrange(
            offset,
            offset + entries[index].line().len(),
        ) == entries[index].line(),
    decreases entries.len(),
{
    let rest = windows_spawn::lines_of(entries.drop_last());
    let all = windows_spawn::lines_of(entries);
    if index < entries.len() - 1 {
        assert(entries.drop_last()[index] == entries[index]);
        let offset = line_stands_in_block(entries.drop_last(), index);
        let end = offset + entries[index].line().len();
        assert(all.subrange(offset, end) =~= rest.subrange(offset, end));
        offset
    } else {
        assert(entries.last() == entries[index]);
        assert(all.subrange(rest.len() as int, all.len() as int) =~= entries[index].line());
        rest.len() as int
    }
}

/// An environment holds the last value of every key, as key, `=`, value and a zero, and ends
/// with one more zero; an entry that cannot stand in it is refused.
pub proof fn environment_holds_the_last_values(
    environment: Vec<RankedEntry>,
    root_rank: u32,
    system_root: Option<RankedEntry>,
    result: Result<Vec<u16>, IoError>,
    index: int,
)
    requires
        system_root matches Some(root) ==> root.rank == root_rank,
        call_ensures(
            windows_spawn::build_environment_wide,
            (environment, root_rank, system_root),
            result,
        ),
        0 <= index < environment@.len(),
        forall|j: int|
            index < j < environment@.len() ==> (#[trigger] environment@[j]).rank
                != environment@[index].rank,
    ensures
        result matches Ok(block) ==> {
            let line = (environment@[index].key@.push(61) + environment@[index].value@).push(0);
            &&& block@.len() > 0 && block@.last() == 0
            &&& exists|offset: int|
                0 <= offset && offset + line.len() < block@.len()
                    && #[trigger] block@.subrange(offset, offset + line.len()) == line
        },
        environment@[index].key@.len() == 0 ==> result is Err,
{
    let entry = environment@[index];
    if entry.key@.len() == 0 {
        assert(!entry.ok());
    }
    if let Ok(block) = result {
        let whole = match system_root {
            Some(root) => windows_spawn::with_root(environment@, root),
            None => environment@,
        };
        let places = choose|places: Seq<int>| #[trigger]
            windows_spawn::is_order(whole, places) && block@ == windows_spawn::block_of(
                windows_spawn::picked(whole, places),
            );
        assert(whole[index] == entry);
        assert forall|j: int| index < j < whole.len() implies (#[trigger] whole[j]).rank
            != entry.rank by {
            if j < environment@.len() {
                assert(whole[j] == environment@[j]);
            } else {
                assert(!windows_spawn::has_rank(environment@, root_rank));
                assert(environment@[index].rank != root_rank);
            }
        }
        assert(windows_spawn::is_last(whole, index));
        assert(places.contains(index));
        let place = choose|k: int| 0 <= k < places.len() && places[k] == index;
        let chosen = windows_spawn::picked(whole, places);
        assert(chosen[place] == entry);
        let offset = line_stands_in_block(chosen, place);
        let line = (entry.key@.push(61) + entry.value@).push(0);
        assert(entry.line() == line);
        assert(block@.subrange(offset, offset + line.len()) =~= windows_spawn::lines_of(
            chosen,
        ).subrange(offset, offset + line.len()));
    }
}

/// A console has from 1 to 32767 rows and columns, as asked for.
pub proof fn console_has_the_asked_size(rows: u32, columns: u32, result: Result<Coord, IoError>)
    requires
        call_ensures(windows_spawn::conpty_size, (rows, columns), result),
    ensures
        result is Ok <==> 1 <= rows <= 32767 && 1 <= columns <= 32767,
        result matches Ok(size) ==> size.x == columns && size.y == rows,
        result matches Err(error) ==> error.kind == ErrorKind::InvalidInput,
{
}

/// Windows from build 26100 on is supported, and nothing older.
pub proof fn old_windows_is_refused(status: i32, major: u32, build: u32, result: Result<(), IoError>)
    requires
        call_ensures(windows_spawn::validate_windows_build, (status, major, build), result),
    ensures
        result is Ok <==> status >= 0 && major >= 10 && build >= 26100,
        status >= 0 ==> (result matches Err(error) ==> error.kind == ErrorKind::Unsupported),
{
}

/// A spawn is told to the one who asked for it: ready under its handle, or failed with the
/// platform's code.
pub proof fn spawn_is_told_to_its_caller(request: u64, result: Result<u64, IoError>, notice: Notice)
    requires
        call_ensures(crate::notice::spawn_notice, (request, &result), notice),
    ensures
        match result {
            Ok(made) => notice == (Notice::SpawnReady { request, handle: made }),
            Err(error) => notice matches Notice::SpawnFailed { request: asked, failure } && asked
                == request && failure.native_code == error.code,
        },
{
}

/// A notice that is posted waits behind those of its session, counts in the budget, and wakes
/// whoever waits; output takes a place of its own, anything else one that was held.
pub proof fn posted_notice_waits_in_the_budget<W>(
    desk: &mut NoticeDesk<W>,
    notice: Notice,
    route: u64,
    wakes: Option<Wakes<W>>,
)
    requires
        old(desk).wf(),
        call_ensures(Notice::handle, (&notice,), route),
        call_ensures(NoticeDesk::<W>::post, (desk, notice), wakes),
        !old(desk).notices.refuses(route),
        notice is Output ==> old(desk).room() > 0,
        !(notice is Output) ==> old(desk).budget.held > 0,
    ensures
        final(desk).notices.queue(route) == old(desk).notices.queue(route).push(notice),
        final(desk).budget.queued == old(desk).budget.queued + 1,
        notice is Output ==> final(desk).room() == old(desk).room() - 1,
        !(notice is Output) ==> final(desk).room() == old(desk).room(),
        final(desk).budget.held + final(desk).budget.queued <= final(desk).budget.limit,
        wakes is Some,
        old(desk).notices.queue(route).len() == 0 ==> wakes.unwrap().any,
{
}

/// What a refresh sends and what still waits are together what waited.
proof fn refresh_keeps_bytes(
    before: &WindowsSession,
    after: &WindowsSession,
    box_before: OutboxModel,
    box_after: OutboxModel,
    handle: u64,
    now: u64,
)
    requires
        windows_session::refreshed(before, after, box_before, box_after, handle, now),
        before.wf(),
        box_before.open,
    ensures
        after.output.pending() == before.output.pending() || (box_after.sent.len()
            > box_before.sent.len() && (box_after.sent[box_before.sent.len() as int] matches Notice::Output {
            handle: route,
            bytes,
        } && route == handle && buffer::bytes_of(bytes) + after.output.pending()
            == before.output.pending())),
{
    if before.life.stage.active {
        let (between, box_between) = choose|between: WindowsSession, box_between: OutboxModel|
            #![trigger windows_session::delivered(before, &between, box_before, box_between, handle, now)]
            windows_session::delivered(before, &between, box_before, box_between, handle, now)
                && windows_session::end_told(&between, after, box_between, box_after, handle);
        if windows_session::delivers(before, now) && box_before.free > 0 {
            let length = windows_session::batch_len(&before.output) as int;
            assert(before.output.pending() =~= before.output.pending().take(length)
                + before.output.pending().skip(length));
            assert(box_between.sent.last() == box_between.sent[box_before.sent.len() as int]);
        }
    }
}

/// What is read waits behind what was read before, and goes out in that order: what is sent and
/// what still waits are together what waited and what was read.
pub proof fn reads_are_kept_in_order(
    session: &mut WindowsSession,
    outbox: &mut Outbox,
    handle: u64,
    data: Vec<u8>,
    now: u64,
    follow: Vec<Follow>,
)
    requires
        call_ensures(
            WindowsSession::read_completed,
            (session, handle, outbox, ReadDone::Data(data), now),
            follow,
        ),
        old(session).wf(),
        old(session).life.flight.reading matches Some(room) && data@.len() <= room,
        !old(session).life.stage.close_started,
        !old(session).output.discarding,
        old(outbox).open,
    ensures
        final(session).output.pending() == old(session).output.pending() + data@ || (
        final(outbox)@.sent.len() > old(outbox)@.sent.len() && (
        final(outbox)@.sent[old(outbox)@.sent.len() as int] matches Notice::Output {
            handle: route,
            bytes,
        } && route == handle && buffer::bytes_of(bytes) + final(session).output.pending() == old(session).output.pending() + data@)),
        final(session).life.flight.reading is None,
        follow@.contains(Follow::EnsureRead),
        final(session).input == old(session).input,
{
    let (between, box_between) = choose|between: WindowsSession, box_between: OutboxModel|
        #![trigger windows_session::refreshed(&between, final(session), box_between, final(outbox)@, handle, now)]
        {
            &&& between.wf()
            &&& (between.life, box_between) == windows_session::life_after_read(
                old(session),
                old(outbox)@,
                handle,
                ReadDone::Data(data),
            )
            &&& windows_session::output_after_read(
                old(session),
                &between.output,
                ReadDone::Data(data),
                now,
            )
            &&& windows_session::refreshed(
                &between,
                final(session),
                box_between,
                final(outbox)@,
                handle,
                now,
            )
        };
    refresh_keeps_bytes(&between, final(session), box_between, final(outbox)@, handle, now);
    assert(follow@[0] == Follow::EnsureRead);
}

/// A write is taken only with room for it: its session's input is open, the bytes and one more
/// write fit, the reactor runs and wakes, and fewer than 1024 commands wait.
pub proof fn taken_write_had_room(
    runtime: &mut WindowsRuntime,
    handle: u64,
    bytes: Bytes,
    posted: bool,
    result: Result<(), WriteError>,
)
    requires
        call_ensures(WindowsRuntime::write, (runtime, handle, bytes, posted), result),
        result is Ok,
        buffer::bytes_of(bytes).len() > 0,
    ensures
        old(runtime).running,
        old(runtime).wake.pending || posted,
        old(runtime).commands@.len() < 1024,
        old(runtime).reactor.at(handle) matches Some(session) && session.input.admission.open
            && session.input.admission.bytes + buffer::bytes_of(bytes).len()
            <= session.input.admission.capacity && session.input.admission.entries < 4096
            && session.input.admission.entries < session.input.admission.capacity,
{
}

/// The exit of a child ends its session's input, and the loss of what waits is told to an
/// active session before the exit.
pub proof fn exit_ends_the_input(
    reactor: &mut WindowsReactor,
    handle: u64,
    status: u32,
    outbox: &mut Outbox,
    work: WindowsWork,
)
    requires
        call_ensures(
            WindowsReactor::process_exited,
            (reactor, handle, Some(Ok::<u32, IoError>(status)), outbox),
            work,
        ),
        old(reactor).at(handle) matches Some(session) && session.life.exit.status is None,
    ensures
        final(reactor).at(handle) matches Some(next) && {
            let session = old(reactor).at(handle).unwrap();
            &&& next.life.exit.status == Some(status as i64)
            &&& next.input.failed && !next.input.admission.open && next.input.queue@.len() == 0
            &&& session.input.queue@.len() > 0 ==> next.life.faults.input is Some
            &&& session.input.queue@.len() > 0 && session.life.stage.active
                && !session.life.faults.input_notified && session.life.reservations > 0 && old(outbox).open ==> final(outbox)@.sent.len() > old(outbox)@.sent.len() && (
            final(outbox)@.sent[old(outbox)@.sent.len() as int] matches Notice::InputFailed {
                handle: route,
                ..
            } && route == handle)
            &&& next.output == session.output
        },
        work matches WindowsWork::Follow { handle: named, .. } && named == handle,
{
}

/// Credit reaches its session, and what can be read and sent then is read and sent.
pub proof fn credit_is_followed_by_reads(
    reactor: &mut WindowsReactor,
    handle: u64,
    bytes: usize,
    outbox: &mut Outbox,
    outcome: WindowsOutcome,
)
    requires
        call_ensures(
            WindowsReactor::control,
            (reactor, Control::Credit { handle, bytes }, outbox),
            outcome,
        ),
        old(reactor).at(handle) matches Some(session) && bytes <= session.output.outstanding,
    ensures
        final(reactor).at(handle) matches Some(next) && next.output.outstanding + bytes == old(reactor).at(handle).unwrap().output.outstanding,
        outcome.work matches WindowsWork::Follow { handle: named, steps } && named == handle
            && steps@.contains(Follow::EnsureRead) && steps@.contains(Follow::Refresh),
{
    let steps = outcome.work->steps;
    assert(steps@[0] == Follow::EnsureRead);
    assert(steps@[1] == Follow::Refresh);
}

/// A session that is given up goes without a trace to its consumer, when it is over and not
/// before; what it had reserved comes back.
pub proof fn given_up_session_goes_silently(
    reactor: &mut WindowsReactor,
    handle: u64,
    left: Option<usize>,
)
    requires
        old(reactor).wf(),
        call_ensures(WindowsReactor::forget_abandoned, (reactor, handle), left),
        old(reactor).at(handle) is Some,
    ensures
        ({
            let session = old(reactor).at(handle).unwrap();
            let over = session.life.stage.abandoned && session.life.exit.status is Some
                && session.output.eof && session.output.pending().len() == 0
                && session.output.outstanding == 0 && session.life.flight.reading is None
                && !session.life.flight.writing && session.life.console.close_done;
            &&& over <==> final(reactor).at(handle) is None
            &&& over ==> left == Some(session.life.reservations)
            &&& !over ==> left is None && final(reactor).at(handle) == Some(session)
        }),
{
}

/// A session that is given up ends both its sides and its processes, once, and is not active
/// any more.
pub proof fn given_up_session_is_closed(
    session: &mut WindowsSession,
    outbox: &mut Outbox,
    handle: u64,
    follow: Vec<Follow>,
)
    requires
        call_ensures(WindowsSession::abandon, (session, handle, outbox), follow),
        !old(session).life.stage.close_started,
    ensures
        final(session).life.stage.abandoned && final(session).life.stage.close_started,
        !final(session).life.stage.active,
        !final(session).input.admission.open,
        final(session).input.queue@.len() == 0,
        final(session).output.queue@.len() == 0 && final(session).output.outstanding == 0,
        follow@.contains(Follow::TerminateJob),
        final(outbox)@.sent == old(outbox)@.sent,
{
    assert(follow@[0] == Follow::TerminateJob);
}

/// At the end of the runtime every session goes, and no console is left open.
pub proof fn shutdown_takes_every_session(
    reactor: &mut WindowsReactor,
    ended: Vec<(u64, ConsoleStep)>,
    handle: u64,
)
    requires
        old(reactor).wf(),
        call_ensures(WindowsReactor::shutdown_all, (reactor,), ended),
    ensures
        final(reactor).at(handle) is None,
        old(reactor).at(handle) matches Some(session) ==> exists|i: int| #![trigger ended@[i]]
            0 <= i < ended@.len() && ended@[i].0 == handle && (ended@[i].1 is Nothing
                <==> session.life.console.close_started || !session.life.console.owned),
{
    let slots = old(reactor).sessions.slots@;
    let items = registry::occupants(slots);
    if let Some(session) = old(reactor).at(handle) {
        registry::live_is_occupant(slots, handle);
        let i = choose|i: int|
            0 <= i < items.len() && #[trigger] items[i] == (
                handle,
                registry::resolve(slots, handle).unwrap(),
            );
        assert(ended@[i].0 == handle);
    }
}

/// A session whose pipes cannot be joined is dropped with the reason; one whose pipes are is
/// watched until its child exits.
pub proof fn unjoined_session_is_dropped(
    reactor: &mut WindowsReactor,
    handle: u64,
    associated: Result<(), IoError>,
    exited: bool,
    step: windows_reactor::AddStep,
)
    requires
        call_ensures(WindowsReactor::after_associate, (reactor, handle, associated, exited), step),
    ensures
        associated matches Err(error) ==> final(reactor).at(handle) is None && (
        step matches windows_reactor::AddStep::Refused { failure, .. } && failure == error),
        associated is Ok ==> final(reactor).at(handle) == old(reactor).at(handle) && (
        step is Exited <==> exited) && (step is Watch <==> !exited),
{
}

/// A terminated session is told as such, and a failure with its code.
pub proof fn termination_is_answered(
    result: Result<(), IoError>,
    outcome: Result<bool, OperationError>,
)
    requires
        call_ensures(WindowsReactor::after_terminate, (result,), outcome),
    ensures
        result is Ok <==> outcome == Ok::<bool, OperationError>(true),
        result matches Err(error) ==> (outcome matches Err(failure) && failure.operation
            == Operation::Terminate && failure.native_code == error.code),
{
}

/// The end of a console's close is remembered, with its permit, and the session goes on.
pub proof fn closed_console_is_remembered(
    reactor: &mut WindowsReactor,
    handle: u64,
    permit: bool,
    work: WindowsWork,
)
    requires
        call_ensures(WindowsReactor::console_closed, (reactor, handle, permit), work),
        old(reactor).at(handle) is Some,
    ensures
        final(reactor).at(handle) matches Some(next) && next.life.console.close_done
            && next.life.console.permit == permit && next.input == old(reactor).at(
            handle,
        ).unwrap().input && next.output == old(reactor).at(handle).unwrap().output
            && next.life.stage == old(reactor).at(handle).unwrap().life.stage,
        work matches WindowsWork::Follow { handle: named, .. } && named == handle,
{
}

} // verus!
