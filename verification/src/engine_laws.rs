//! What holds of the engine's sessions over several steps: accepted input is followed by
//! readiness for writes, output does not wait past its delay, a close runs to its end and is
//! told once, and an exit is told as it was.
use crate::buffer;
use crate::engine_event::Notice;
use crate::engine_session::{
    Interest, Mail, ReadOutcome, Refresh, Session, Turn, TurnStep, WriteOutcome,
};
use crate::fault::{ErrorKind, IoError};
use crate::reactor::{
    self, AfterRead, Command, LostSession, Outcome, Query, Reactor, ReapStep, Reply, Work,
};
use crate::registry::{self, Slot};
use bytes::Bytes;
use vstd::prelude::*;

verus! {

/// What a terminal is polled for, reads and writes, after a change of its registration.
pub open spec fn polled_after(polled: (bool, bool), interest: Interest) -> (bool, bool) {
    match interest {
        Interest::Keep => polled,
        Interest::Remove => (false, false),
        Interest::Add { read, write } => (read, write),
        Interest::Change { read, write } => (read, write),
    }
}

/// A terminal that is polled for reads or writes is registered, and polled for what its
/// session asks for.
pub open spec fn polled_as_asked(session: &Session, polled: (bool, bool)) -> bool {
    &&& polled.0 == (session.filters.read == Some(true))
    &&& polled.1 == (session.filters.write == Some(true))
    &&& session.filters.registered == (polled.0 || polled.1)
}

/// A registration is added where there is none, and changed or removed where there is one.
pub open spec fn fits_registration(registered: bool, interest: Interest) -> bool {
    &&& interest is Add ==> !registered
    &&& interest is Change || interest is Remove ==> registered
}

/// Accepted input of an active session is followed by readiness for writes: the bytes wait
/// behind the earlier ones, and the change that is handed out has the terminal polled for
/// writes, if it was polled as the session asked before.
pub proof fn accepted_write_is_polled_for(
    reactor: &mut Reactor,
    handle: u64,
    bytes: Bytes,
    outcome: Outcome,
    polled: (bool, bool),
)
    requires
        call_ensures(Reactor::write, (reactor, handle, bytes), outcome),
        old(reactor).at(handle) matches Some(session) && session.life.active
            && !session.life.close_started && !session.input.failed,
        buffer::bytes_of(bytes).len() > 0,
    ensures
        final(reactor).at(handle) matches Some(next) && {
            let session = old(reactor).at(handle).unwrap();
            &&& next.input.pending() == session.input.pending() + buffer::bytes_of(bytes)
            &&& next.filters.write == Some(true)
            &&& next.filters.read == session.filters.read
            &&& next.output == session.output
            &&& next.life == session.life
            &&& outcome.notice is None
            &&& outcome.work matches Work::Apply { handle: named, interest } && {
                &&& named == handle
                &&& polled_as_asked(&session, polled) ==> {
                    &&& polled_after(polled, interest) == (polled.0, true)
                    &&& fits_registration(session.filters.registered, interest)
                }
            }
        },
{
}

/// A write that comes as a command does the same.
pub proof fn write_command_is_polled_for(
    reactor: &mut Reactor,
    handle: u64,
    bytes: Bytes,
    now: u64,
    outcome: Outcome,
    polled: (bool, bool),
)
    requires
        call_ensures(
            Reactor::process,
            (reactor, Command::Write { handle, bytes }, now),
            outcome,
        ),
        old(reactor).at(handle) matches Some(session) && session.life.active
            && !session.life.close_started && !session.input.failed && polled_as_asked(
            &session,
            polled,
        ),
        buffer::bytes_of(bytes).len() > 0,
    ensures
        final(reactor).at(handle) matches Some(next) && next.input.pending() == old(reactor).at(
            handle,
        ).unwrap().input.pending() + buffer::bytes_of(bytes) && next.filters.write == Some(true),
        outcome.work matches Work::Apply { handle: named, interest } && named == handle
            && polled_after(polled, interest) == (polled.0, true),
{
}

/// A write that comes too late is not queued, its room is given back, and the loss is told the
/// first time; a write to a session that is not there changes nothing.
pub proof fn late_write_is_reported(
    reactor: &mut Reactor,
    handle: u64,
    bytes: Bytes,
    outcome: Outcome,
)
    requires
        call_ensures(Reactor::write, (reactor, handle, bytes), outcome),
        old(reactor).at(handle) matches Some(session) ==> session.life.close_started
            || session.input.failed,
    ensures
        match (old(reactor).at(handle), final(reactor).at(handle)) {
            (Some(session), Some(next)) => {
                &&& next.input.pending() == session.input.pending()
                &&& next.input.admission.bytes + buffer::bytes_of(bytes).len()
                    == session.input.admission.bytes || next.input.admission.bytes == 0
                &&& next.input.admission.entries + 1 == session.input.admission.entries
                    || next.input.admission.entries == 0
                &&& next.input.failure_pending
                &&& outcome.notice == (if session.input.failure_notified {
                    None
                } else {
                    Some(Notice::InputFailed(handle))
                })
                &&& next.input.failure_notified
            },
            (None, None) => outcome.notice is None && outcome.work is Done,
            _ => false,
        },
{
}

/// Whatever command comes, an active session with input waiting goes on asking for writes, and
/// no session counts as told of its close.
pub proof fn commands_keep_sessions_orderly(
    reactor: &mut Reactor,
    command: Command,
    now: u64,
    outcome: Outcome,
    handle: u64,
)
    requires
        call_ensures(Reactor::process, (reactor, command, now), outcome),
        old(reactor).orderly(),
    ensures
        final(reactor).at(handle) matches Some(session) ==> {
            &&& session.life.active && session.input.queue@.len() > 0 ==> session.filters.write
                == Some(true)
            &&& !session.life.close_notified
            &&& session.output.bytes > 0 ==> session.output.deadline is Some
        },
{
}

/// The readiness that is registered follows what a session asks for: whichever filter is
/// updated, the change leads from what was polled to what is asked for now.
pub proof fn readiness_follows_filters(
    session: &mut Session,
    enabled: bool,
    interest: Interest,
    polled: (bool, bool),
)
    requires
        polled_as_asked(old(session), polled),
        call_ensures(Session::update_read_filter, (session, enabled), interest)
            || call_ensures(Session::update_write_filter, (session, enabled), interest),
    ensures
        call_ensures(Session::update_read_filter, (session, enabled), interest) ==> polled_after(
            polled,
            interest,
        ) == (enabled, polled.1) && final(session).filters.read == Some(enabled)
            && final(session).filters.write == old(session).filters.write,
        call_ensures(Session::update_write_filter, (session, enabled), interest) ==> polled_after(
            polled,
            interest,
        ) == (polled.0, enabled) && final(session).filters.write == Some(enabled)
            && final(session).filters.read == old(session).filters.read,
        fits_registration(old(session).filters.registered, interest),
{
}

/// A change that was made is remembered, so that the next one starts from what is polled.
pub proof fn made_changes_are_remembered(
    session: &mut Session,
    interest: Interest,
    polled: (bool, bool),
)
    requires
        call_ensures(Session::interest_changed, (session, interest), ()),
        old(session).filters.registered == (polled.0 || polled.1),
        fits_registration(old(session).filters.registered, interest),
        interest matches Interest::Add { read, write } ==> read || write,
        interest matches Interest::Change { read, write } ==> read || write,
    ensures
        final(session).filters.registered == (polled_after(polled, interest).0 || polled_after(
            polled,
            interest,
        ).1),
        final(session).filters.read == old(session).filters.read,
        final(session).filters.write == old(session).filters.write,
        final(session).life == old(session).life,
        final(session).input == old(session).input,
        final(session).output == old(session).output,
{
}

/// Output that is overdue is handed out: an active session that does not discard its output
/// gives at least one of the oldest bytes, and at most 64 KiB, when their time has come.
pub proof fn overdue_output_is_handed_out(
    reactor: &mut Reactor,
    handle: u64,
    now: u64,
    refresh: Option<Refresh>,
)
    requires
        call_ensures(Reactor::refresh_output, (reactor, handle, now), refresh),
        old(reactor).wf(),
        old(reactor).at(handle) matches Some(session) && session.life.active
            && !session.output.discarding && session.output.pending().len() > 0 && (
        session.output.deadline matches Some(deadline) && deadline <= now),
    ensures
        refresh matches Some(refresh) && refresh.output matches Some(bytes) && {
            let waiting = old(reactor).at(handle).unwrap().output.pending();
            &&& 0 < buffer::bytes_of(bytes).len() <= 65536
            &&& buffer::bytes_of(bytes) == waiting.take(buffer::bytes_of(bytes).len() as int)
            &&& waiting.len() <= 65536 ==> buffer::bytes_of(bytes) == waiting
        },
{
    let session = old(reactor).at(handle).unwrap();
    let next = final(reactor).at(handle).unwrap();
    let bytes = buffer::bytes_of(refresh.unwrap().output.unwrap());
    assert((bytes + next.output.pending()).take(bytes.len() as int) =~= bytes);
    assert(session.output.pending().take(session.output.pending().len() as int)
        =~= session.output.pending());
}

/// A little output goes out at once, and so does a full batch and the rest at the end; what
/// lies between waits for its time. Nobody is handed output before activation, or after it was
/// cancelled.
pub proof fn output_is_batched(
    reactor: &mut Reactor,
    handle: u64,
    now: u64,
    refresh: Option<Refresh>,
)
    requires
        call_ensures(Reactor::refresh_output, (reactor, handle, now), refresh),
        old(reactor).wf(),
        old(reactor).at(handle) is Some,
    ensures
        refresh matches Some(refresh) && {
            let session = old(reactor).at(handle).unwrap();
            let waiting = session.output.pending().len();
            &&& !session.life.active || session.output.discarding || waiting == 0
                ==> refresh.output is None
            &&& session.life.active && !session.output.discarding && (1 <= waiting <= 256
                || waiting >= 65536 || waiting > 0 && session.output.eof) ==> refresh.output
                is Some
            &&& 256 < waiting < 65536 && !session.output.eof && (
            session.output.deadline matches Some(deadline) ==> now < deadline) ==> refresh.output
                is None
        },
{
}

/// What is handed out and what waits are together what waited, and what is handed out counts
/// against the consumer's credit: bytes leave the session's account only by credit.
pub proof fn handed_output_is_on_credit(
    reactor: &mut Reactor,
    handle: u64,
    now: u64,
    refresh: Option<Refresh>,
)
    requires
        call_ensures(Reactor::refresh_output, (reactor, handle, now), refresh),
        old(reactor).wf(),
        old(reactor).at(handle) is Some,
    ensures
        refresh matches Some(refresh) && final(reactor).at(handle) matches Some(next) && {
            let session = old(reactor).at(handle).unwrap();
            let handed = match refresh.output {
                Some(bytes) => buffer::bytes_of(bytes),
                None => Seq::<u8>::empty(),
            };
            &&& handed + next.output.pending() == session.output.pending()
            &&& next.output.outstanding + next.output.pending().len()
                == session.output.outstanding + session.output.pending().len()
            &&& next.output.outstanding == session.output.outstanding + handed.len()
        },
{
    let session = old(reactor).at(handle).unwrap();
    let next = final(reactor).at(handle).unwrap();
    if refresh.unwrap().output is None {
        assert(Seq::<u8>::empty() + next.output.pending() =~= session.output.pending());
    }
}

/// The end of output is told once, to an active session's consumer, when everything before it
/// was consumed; and then it is told whether reading failed.
pub proof fn end_of_output_is_told_once(
    reactor: &mut Reactor,
    handle: u64,
    now: u64,
    refresh: Option<Refresh>,
)
    requires
        call_ensures(Reactor::refresh_output, (reactor, handle, now), refresh),
        old(reactor).wf(),
        old(reactor).at(handle) is Some,
    ensures
        refresh matches Some(refresh) && final(reactor).at(handle) matches Some(next) && {
            let session = old(reactor).at(handle).unwrap();
            &&& refresh.ended matches Some(failed) ==> {
                &&& session.life.active
                &&& session.output.eof
                &&& failed == session.output.failed
                &&& next.output.pending().len() == 0
                &&& next.output.outstanding == 0
                &&& !session.output.done_notified
                &&& next.output.done_notified
            }
            &&& session.output.done_notified ==> refresh.ended is None
                && next.output.done_notified
            &&& session.life.active && session.output.eof && session.output.pending().len() == 0
                && session.output.outstanding == 0 && !session.output.done_notified
                ==> refresh.ended is Some
        },
{
}

/// Reads are asked for exactly while the output has room, is not paused and has not ended; a
/// session that discards its output always has room. The terminal is polled accordingly.
pub proof fn reads_follow_room(
    reactor: &mut Reactor,
    handle: u64,
    now: u64,
    refresh: Option<Refresh>,
    polled: (bool, bool),
)
    requires
        call_ensures(Reactor::refresh_output, (reactor, handle, now), refresh),
        old(reactor).wf(),
        old(reactor).at(handle) matches Some(session) && polled_as_asked(&session, polled),
    ensures
        refresh matches Some(refresh) && final(reactor).at(handle) matches Some(next) && {
            let output = old(reactor).at(handle).unwrap().output;
            let room = output.discarding || output.pending().len() + output.outstanding
                < output.capacity;
            &&& polled_after(polled, refresh.interest) == (
                !output.paused && !output.eof && room,
                polled.1,
            )
            &&& next.filters.write == old(reactor).at(handle).unwrap().filters.write
            &&& fits_registration(
                old(reactor).at(handle).unwrap().filters.registered,
                refresh.interest,
            )
        },
{
}

/// No output waits longer than a millisecond: whatever an active session has read by some
/// time, refreshing it a millisecond later or more hands out a batch.
pub proof fn output_waits_at_most_its_delay(
    session: &mut Session,
    turn: &mut Turn,
    data: Vec<u8>,
    read_at: u64,
    step: TurnStep,
    reactor: &mut Reactor,
    handle: u64,
    now: u64,
    refresh: Option<Refresh>,
)
    requires
        call_ensures(
            Session::after_read,
            (session, turn, ReadOutcome::Data(data), read_at),
            step,
        ),
        old(session).wf(),
        data@.len() > 0,
        read_at <= crate::engine_session::MAX_NOW,
        old(session).life.active,
        !old(session).life.abandoned,
        !old(session).output.discarding,
        old(session).output.bytes > 0 ==> (old(session).output.deadline matches Some(deadline)
            && deadline <= read_at + 1_000_000),
        old(reactor).wf(),
        old(reactor).at(handle) == Some(*final(session)),
        now >= read_at + 1_000_000,
        call_ensures(Reactor::refresh_output, (reactor, handle, now), refresh),
    ensures
        final(session).output.bytes > 0,
        final(session).output.deadline matches Some(deadline) && deadline <= read_at + 1_000_000,
        refresh matches Some(refresh) && refresh.output matches Some(bytes) && buffer::bytes_of(
            bytes,
        ).len() > 0,
{
    assert(final(session).output.pending().len() == old(session).output.pending().len()
        + data@.len());
}

/// What is read of a session with a consumer waits behind what was read before; what is read
/// of one without is dropped.
pub proof fn reads_are_kept_in_order(
    session: &mut Session,
    turn: &mut Turn,
    data: Vec<u8>,
    now: u64,
    step: TurnStep,
)
    requires
        call_ensures(Session::after_read, (session, turn, ReadOutcome::Data(data), now), step),
    ensures
        step.again && !step.report_input_failure,
        final(session).output.pending() == if old(session).life.abandoned
            || old(session).output.discarding {
            old(session).output.pending()
        } else {
            old(session).output.pending() + data@
        },
        final(session).output.eof == old(session).output.eof,
        final(session).input == old(session).input,
{
}

/// The end of a terminal's output ends the input too, and the loss of input that waits is
/// told, once. A failure to read ends the output as failed; an interruption ends nothing.
pub proof fn end_of_terminal_ends_both_ways(
    session: &mut Session,
    turn: &mut Turn,
    outcome: ReadOutcome,
    now: u64,
    step: TurnStep,
)
    requires
        call_ensures(Session::after_read, (session, turn, outcome, now), step),
        !(outcome is Data),
    ensures
        final(session).output.pending() == old(session).output.pending(),
        final(session).output.outstanding == old(session).output.outstanding,
        outcome is End || outcome is HangUp ==> {
            &&& final(session).output.eof && !step.again
            &&& final(session).output.failed == old(session).output.failed
            &&& final(session).input.failed && !final(session).input.admission.open
            &&& final(session).input.queue@.len() == 0
            &&& step.report_input_failure ==> old(session).input.queue@.len() > 0
                && !old(session).input.failure_notified && final(session).input.failure_notified
            &&& old(session).input.queue@.len() > 0 ==> final(session).input.failure_pending && (
            step.report_input_failure || old(session).input.failure_notified)
        },
        outcome matches ReadOutcome::Failed(kind) ==> {
            &&& final(session).input == old(session).input
            &&& kind == ErrorKind::Interrupted || kind == ErrorKind::WouldBlock ==> final(
                session).output == old(session).output && step.again == (kind
                == ErrorKind::Interrupted)
            &&& kind != ErrorKind::Interrupted && kind != ErrorKind::WouldBlock ==> final(
                session).output.eof && final(session).output.failed && !step.again
        },
{
}

/// What a write turn offers is the oldest input, and what the terminal took of it leaves the
/// queue and the admission's count: nothing is written twice or left out.
pub proof fn written_input_leaves_the_queue(
    session: &mut Session,
    turn: &mut Turn,
    offered: &[u8],
    amount: usize,
    step: TurnStep,
)
    requires
        old(session).wf(),
        call_ensures(Session::next_write, (&*old(session), *old(turn)), Some(offered)),
        amount <= offered@.len(),
        call_ensures(
            Session::after_write,
            (session, turn, WriteOutcome::Wrote(amount)),
            step,
        ),
    ensures
        0 < offered@.len() <= 65536 - old(turn).bytes,
        offered@.take(amount as int) + final(session).input.pending()
            == old(session).input.pending(),
        final(session).input.admission.bytes + amount == old(session).input.admission.bytes
            || final(session).input.admission.bytes == 0 || amount == 0,
        step.again == (amount > 0),
        final(session).input.failure_pending == old(session).input.failure_pending,
        final(session).filters == old(session).filters,
{
    let before = old(session).input.pending();
    let after = final(session).input.pending();
    if amount == 0 {
        assert(offered@.take(0) + after =~= before);
    } else {
        assert(offered@.take(amount as int) =~= before.take(amount as int));
        assert(before.take(amount as int) + before.skip(amount as int) =~= before);
    }
}

/// A write that the terminal refuses for now loses nothing; one that fails loses everything
/// that waits, and that is told, once.
pub proof fn failed_write_is_reported(
    session: &mut Session,
    turn: &mut Turn,
    kind: ErrorKind,
    step: TurnStep,
)
    requires
        call_ensures(Session::after_write, (session, turn, WriteOutcome::Failed(kind)), step),
        old(session).input.queue@.len() > 0,
    ensures
        kind == ErrorKind::Interrupted || kind == ErrorKind::WouldBlock ==> {
            &&& final(session).input == old(session).input
            &&& step.again == (kind == ErrorKind::Interrupted)
            &&& !step.report_input_failure
        },
        kind != ErrorKind::Interrupted && kind != ErrorKind::WouldBlock ==> {
            &&& final(session).input.failed
            &&& !final(session).input.admission.open
            &&& final(session).input.queue@.len() == 0
            &&& final(session).input.failure_pending
            &&& final(session).input.failure_notified
            &&& step.report_input_failure == !old(session).input.failure_notified
            &&& !step.again
        },
{
}

/// A turn of reading is bounded: it reads at most 64 KiB with at most four calls, never more
/// than there is room for, and not at all when the output is paused, has ended or is full.
pub proof fn read_turns_are_bounded(session: &Session, turn: Turn, limit: Option<usize>)
    requires
        session.wf(),
        call_ensures(Session::read_limit, (session, turn), limit),
    ensures
        limit matches Some(limit) ==> {
            &&& 0 < limit
            &&& turn.bytes + limit <= 65536
            &&& turn.syscalls < 4
            &&& !session.output.eof
            &&& session.output.discarding || !session.output.paused
                && session.output.pending().len() + session.output.outstanding + limit
                <= session.output.capacity
        },
        limit is None && turn.bytes < 65536 && turn.syscalls < 4 ==> {
            ||| session.output.eof
            ||| !session.output.discarding && (session.output.paused
                || session.output.pending().len() + session.output.outstanding
                >= session.output.capacity)
        },
{
}

/// The close of a session is told: the step that takes a closed session out of an orderly
/// reactor hands out its result for everyone who waits, in the order in which they asked, and
/// has the notice sent. The session is gone then, so that nothing is told of it again.
pub proof fn completed_close_is_told(reactor: &mut Reactor, handle: u64, step: ReapStep)
    requires
        call_ensures(Reactor::reap_closed, (reactor, handle), step),
        old(reactor).orderly(),
        old(reactor).at(handle) matches Some(session) && final(reactor).at(handle) is None,
    ensures
        step matches ReapStep::Closed { result, waiters, notify } && {
            let session = old(reactor).at(handle).unwrap();
            &&& notify
            &&& waiters@ == session.close_waiters@
            &&& result.input_failed == session.input.failure_pending
            &&& result.output_failed == session.output.failed
            &&& result.cleanup_failed == session.life.cleanup_failed
        },
{
}

/// The close of a session whose release the broker cannot take any more is told too, with a
/// failed cleanup.
pub proof fn close_without_broker_is_told(
    reactor: &mut Reactor,
    handle: u64,
    mail: Mail,
    step: ReapStep,
)
    requires
        call_ensures(Reactor::after_release_request, (reactor, handle, mail), step),
        old(reactor).orderly(),
        old(reactor).at(handle) is Some,
    ensures
        mail is Lost <==> final(reactor).at(handle) is None,
        mail is Lost ==> (step matches ReapStep::Closed { result, waiters, notify } && {
            let session = old(reactor).at(handle).unwrap();
            &&& notify
            &&& waiters@ == session.close_waiters@
            &&& result.cleanup_failed
            &&& result.input_failed == session.input.failure_pending
            &&& result.output_failed == session.output.failed
        }),
        !(mail is Lost) ==> step is Keep,
{
}

/// A closed session goes when, and only when, its child exited, its output was read to the end
/// and consumed, and the broker released it; the broker is asked when only that is missing.
pub proof fn session_goes_when_nothing_is_left(reactor: &mut Reactor, handle: u64, step: ReapStep)
    requires
        call_ensures(Reactor::reap_closed, (reactor, handle), step),
        old(reactor).wf(),
        old(reactor).at(handle) is Some,
    ensures
        ({
            let session = old(reactor).at(handle).unwrap();
            let ready = session.life.close_started && !session.life.abandoned
                && session.life.exit_status is Some && session.output.eof
                && session.output.pending().len() == 0 && session.output.outstanding == 0;
            &&& final(reactor).at(handle) is None <==> ready && session.closing.release
                is Complete
            &&& ready && session.closing.release is Needed <==> step is AskRelease
            &&& step matches ReapStep::AskRelease { broker_session } ==> broker_session
                == session.broker_session
            &&& final(reactor).at(handle) is Some ==> final(reactor).at(handle) == Some(session)
            &&& step is Closed <==> final(reactor).at(handle) is None
        }),
{
}

/// A session that was given up goes under the same conditions, and nothing is told of it.
pub proof fn given_up_session_goes_silently(reactor: &mut Reactor, handle: u64, step: ReapStep)
    requires
        call_ensures(Reactor::reap_abandoned, (reactor, handle), step),
        old(reactor).wf(),
        old(reactor).at(handle) is Some,
    ensures
        ({
            let session = old(reactor).at(handle).unwrap();
            let ready = session.life.abandoned && session.life.exit_status is Some
                && session.output.eof && session.output.pending().len() == 0
                && session.output.outstanding == 0;
            &&& final(reactor).at(handle) is None <==> ready && session.closing.release
                is Complete
            &&& ready && session.closing.release is Needed <==> step is AskRelease
            &&& step matches ReapStep::AskRelease { broker_session } ==> broker_session
                == session.broker_session
            &&& !(step is Closed)
            &&& final(reactor).at(handle) is None <==> step is Removed
        }),
{
}

/// The result of the broker's release completes the close: the next reaping takes the session
/// out and tells its close, with a failed cleanup exactly when the release failed.
pub proof fn release_completes_the_close(
    released: &mut Reactor,
    handle: u64,
    succeeded: bool,
    now: u64,
    outcome: Outcome,
    reaped: &mut Reactor,
    step: ReapStep,
)
    requires
        call_ensures(
            Reactor::process,
            (released, Command::ReleaseResult { handle, succeeded }, now),
            outcome,
        ),
        old(released).wf(),
        old(released).orderly(),
        old(released).at(handle) matches Some(session) && session.life.close_started
            && !session.life.abandoned && session.life.exit_status is Some && session.output.eof
            && session.output.pending().len() == 0 && session.output.outstanding == 0,
        *old(reaped) == *final(released),
        call_ensures(Reactor::reap_closed, (reaped, handle), step),
    ensures
        final(reaped).at(handle) is None,
        step matches ReapStep::Closed { result, waiters, notify } && notify
            && result.cleanup_failed == !succeeded && waiters@ == old(released).at(
            handle,
        ).unwrap().close_waiters@,
{
}

/// A close ends the input at once, remembers who waits, and asks the processes to end; where
/// the child is gone or no time was given, they are killed. The session has until its timeout.
pub proof fn close_starts_with_a_request(
    reactor: &mut Reactor,
    handle: u64,
    waiter: u64,
    now: u64,
    outcome: Outcome,
)
    requires
        call_ensures(
            Reactor::process,
            (reactor, Command::CloseStart { handle, waiter }, now),
            outcome,
        ),
        old(reactor).wf(),
        old(reactor).at(handle) matches Some(session) && !session.life.close_started
            && !session.closing.escalated,
        now <= crate::engine_session::MAX_NOW,
    ensures
        outcome.reply == Reply::Flag(true),
        final(reactor).at(handle) matches Some(next) && {
            let session = old(reactor).at(handle).unwrap();
            &&& next.life.close_started
            &&& !next.input.admission.open
            &&& next.input.pending() == session.input.pending()
            &&& next.output == session.output
            &&& next.close_waiters@ == session.close_waiters@.push(waiter)
            &&& session.life.exit_status is None && session.closing.timeout > 0 ==> {
                &&& outcome.work matches Work::SignalGracefully { handle: named, broker_session }
                    && named == handle && broker_session == session.broker_session
                &&& next.closing.deadline matches Some(deadline) && deadline == now
                    + session.closing.timeout
            }
            &&& session.life.exit_status is Some || session.closing.timeout == 0 ==> {
                &&& outcome.work matches Work::ForceClose { handle: named, broker_session }
                    && named == handle && broker_session == session.broker_session
                &&& next.closing.deadline is None
            }
        },
{
}

/// A second close asks for nothing again, and its caller waits with the others.
pub proof fn close_starts_once(
    reactor: &mut Reactor,
    handle: u64,
    waiter: u64,
    now: u64,
    outcome: Outcome,
)
    requires
        call_ensures(
            Reactor::process,
            (reactor, Command::CloseStart { handle, waiter }, now),
            outcome,
        ),
        old(reactor).at(handle) matches Some(session) && session.life.close_started,
    ensures
        outcome.work is Done,
        outcome.reply == Reply::Flag(true),
        final(reactor).at(handle) matches Some(next) && {
            let session = old(reactor).at(handle).unwrap();
            &&& next.close_waiters@ == session.close_waiters@.push(waiter)
            &&& next.closing == session.closing
            &&& next.life == session.life
        },
{
}

/// A graceful close turns to force when its time is over and not before, and to force once:
/// when the broker took the request, no later time asks for it again.
pub proof fn overdue_close_turns_to_force(
    due: &mut Reactor,
    handle: u64,
    now: u64,
    force: Option<u64>,
    asked: &mut Reactor,
    later: &mut Reactor,
    later_now: u64,
    again: Option<u64>,
)
    requires
        call_ensures(Reactor::escalate_due_close, (due, handle, now), force),
        old(due).at(handle) matches Some(session) && !session.closing.escalated
            && session.closing.deadline is Some,
        *old(asked) == *final(due),
        call_ensures(Reactor::after_force_close, (asked, handle, Mail::Accepted, now), ()),
        *old(later) == *final(asked),
        call_ensures(Reactor::escalate_due_close, (later, handle, later_now), again),
    ensures
        ({
            let session = old(due).at(handle).unwrap();
            let deadline = session.closing.deadline.unwrap();
            &&& deadline <= now ==> force == Some(session.broker_session)
            &&& now < deadline ==> force is None && final(due).at(handle) == Some(session)
        }),
        again is None,
{
}

/// A request to kill that finds the broker's mailbox full is made again on the next turn.
pub proof fn full_mailbox_is_tried_again(
    asked: &mut Reactor,
    handle: u64,
    now: u64,
    later: &mut Reactor,
    later_now: u64,
    again: Option<u64>,
)
    requires
        call_ensures(Reactor::after_force_close, (asked, handle, Mail::Full, now), ()),
        old(asked).at(handle) matches Some(session) && !session.closing.escalated,
        *old(later) == *final(asked),
        now <= later_now,
        call_ensures(Reactor::escalate_due_close, (later, handle, later_now), again),
    ensures
        again == Some(old(asked).at(handle).unwrap().broker_session),
{
}

/// A graceful signal that cannot be sent, or that failed while the child is there, turns to
/// force at once.
pub proof fn failed_signal_turns_to_force(
    reactor: &mut Reactor,
    handle: u64,
    mail: Mail,
    force: Option<u64>,
    failed: &mut Reactor,
    result: Option<bool>,
    outcome: Outcome,
)
    requires
        call_ensures(Reactor::after_graceful_signal, (reactor, handle, mail), force),
        old(reactor).at(handle) matches Some(session) && !session.closing.escalated,
        call_ensures(Reactor::graceful_signal_result, (failed, handle, result), outcome),
        old(failed).at(handle) matches Some(session) && !session.closing.escalated
            && session.life.exit_status is None,
    ensures
        force == (if mail is Accepted {
            None
        } else {
            Some(old(reactor).at(handle).unwrap().broker_session)
        }),
        mail is Accepted ==> final(reactor).at(handle) == old(reactor).at(handle),
        result is None ==> (outcome.work matches Work::ForceClose { handle: named, broker_session }
            && named == handle && broker_session == old(failed).at(
            handle,
        ).unwrap().broker_session),
        result is Some ==> outcome.work is Done,
{
}

/// A child's exit is recorded as it was reported, with the first session that stands for it,
/// and told at once when the session is active.
pub proof fn exit_is_told_as_reported(
    exited: &mut Reactor,
    broker_session: u64,
    status: i32,
    now: u64,
    outcome: Outcome,
    read: &mut Reactor,
    then: AfterRead,
    handle: u64,
    told: (Option<Notice>, Option<Refresh>),
    asked: &mut Reactor,
    answer: Outcome,
)
    requires
        call_ensures(
            Reactor::process,
            (exited, Command::BrokerExit { broker_session, status }, now),
            outcome,
        ),
        outcome.work == (Work::Read { handle, then }),
        *old(read) == *final(exited),
        call_ensures(Reactor::after_read_turn, (read, handle, then, now), told),
        *old(asked) == *final(read),
        call_ensures(Reactor::process, (asked, Command::ExitStatus { handle }, now), answer),
    ensures
        old(exited).at(handle) matches Some(session) && {
            &&& session.broker_session == broker_session
            &&& session.life.active ==> told.0 == Some(
                Notice::Exit { handle, status: status as i64 },
            )
            &&& !session.life.active ==> told.0 is None
        },
        answer.reply == Reply::Status(Some(status as i64)),
{
}

/// An exit that came before activation is told on activation, and an activation without one
/// tells none.
pub proof fn earlier_exit_is_told_on_activation(
    reactor: &mut Reactor,
    handle: u64,
    now: u64,
    told: (Option<Notice>, Option<Refresh>),
)
    requires
        call_ensures(
            Reactor::after_read_turn,
            (reactor, handle, AfterRead::Activated, now),
            told,
        ),
        old(reactor).at(handle) is Some,
    ensures
        told.0 == match old(reactor).at(handle).unwrap().life.exit_status {
            Some(status) => Some(Notice::Exit { handle, status }),
            None => None,
        },
        told.1 is Some,
        final(reactor).at(handle) matches Some(next) && next.life.exit_status == old(reactor).at(
            handle,
        ).unwrap().life.exit_status,
{
}

/// Activation makes a session active and unpaused, with the terminal polled for writes exactly
/// when input waits, and the session orderly; the activation's time no longer runs.
pub proof fn activation_starts_a_session(
    started: &mut Reactor,
    reads: &mut Reactor,
    writes: &mut Reactor,
    handle: u64,
    first: Outcome,
    second: Outcome,
    third: Outcome,
    read_interest: Interest,
    write_interest: Interest,
    polled: (bool, bool),
)
    requires
        call_ensures(Reactor::activate, (started, handle), first),
        old(started).wf(),
        old(started).orderly(),
        old(started).at(handle) matches Some(session) && !session.life.abandoned
            && !session.life.close_started && polled_as_asked(&session, polled),
        first.work == (Work::RegisterReads { handle, interest: read_interest }),
        *old(reads) == *final(started),
        call_ensures(
            Reactor::after_register_reads,
            (reads, handle, read_interest, Ok::<(), IoError>(())),
            second,
        ),
        second.work == (Work::RegisterWrites { handle, interest: write_interest }),
        *old(writes) == *final(reads),
        call_ensures(
            Reactor::after_register_writes,
            (writes, handle, write_interest, Ok::<(), IoError>(())),
            third,
        ),
    ensures
        third.reply == Reply::Activated(Ok(())),
        third.work == (Work::Read { handle, then: AfterRead::Activated }),
        final(writes).orderly(),
        final(writes).at(handle) matches Some(next) && {
            let session = old(started).at(handle).unwrap();
            &&& next.life.active
            &&& next.life.activation_deadline is None
            &&& !next.output.paused
            &&& next.input.pending() == session.input.pending()
            &&& next.output.pending() == session.output.pending()
            &&& polled_after(polled_after(polled, read_interest), write_interest) == (
                !session.output.paused,
                session.input.queue@.len() > 0,
            )
            &&& polled_as_asked(
                &next,
                polled_after(polled_after(polled, read_interest), write_interest),
            )
            &&& session.input.failure_pending && !session.input.failure_notified ==> third.notice
                == Some(Notice::InputFailed(handle))
        },
{
}

/// A session that was closed or given up is not activated any more.
pub proof fn closed_session_is_not_activated(reactor: &mut Reactor, handle: u64, outcome: Outcome)
    requires
        call_ensures(Reactor::activate, (reactor, handle), outcome),
        old(reactor).at(handle) matches Some(session) ==> session.life.abandoned
            || session.life.close_started,
    ensures
        outcome.reply matches Reply::Activated(Err(error)) && (old(reactor).at(handle) is Some
            ==> error.kind == ErrorKind::BrokenPipe) && (old(reactor).at(handle) is None
            ==> error.kind == ErrorKind::NotFound),
        final(reactor).at(handle) matches Some(next) ==> next.life.abandoned && (
        next.life.close_started || outcome.work == (Work::RequestClose {
            handle,
            broker_session: next.broker_session,
        })),
{
}

/// A session that nobody activates is given up five seconds after it was added, and not
/// before.
pub proof fn unclaimed_session_expires(
    added: &mut Reactor,
    broker_session: u64,
    pid: i32,
    capacities: (usize, usize),
    timeout: u64,
    now: u64,
    handle: u64,
    expired: &mut Reactor,
    later: u64,
    request_close: Option<u64>,
)
    requires
        call_ensures(
            Reactor::add,
            (added, broker_session, pid, capacities.0, capacities.1, timeout, now),
            handle,
        ),
        now <= crate::engine_session::MAX_NOW,
        *old(expired) == *final(added),
        call_ensures(Reactor::expire_activation, (expired, handle, later), request_close),
    ensures
        final(expired).at(handle) matches Some(session) && {
            &&& session.life.abandoned <==> later >= now + 5_000_000_000
            &&& session.life.abandoned ==> !session.input.admission.open && request_close == Some(
                broker_session,
            )
            &&& !session.life.abandoned ==> request_close is None
        },
{
}

/// A new session starts as its child was started: not active, with nothing waiting, within its
/// capacities, and under a handle that named nothing before.
pub proof fn new_session_is_fresh(
    reactor: &mut Reactor,
    command: Command,
    now: u64,
    outcome: Outcome,
    handle: u64,
)
    requires
        call_ensures(Reactor::process, (reactor, command, now), outcome),
        command is Add,
        outcome.reply == Reply::Added(handle),
    ensures
        old(reactor).at(handle) is None,
        command matches Command::Add { broker_session, pid, input_capacity, output_capacity, .. }
            && final(reactor).at(handle) matches Some(session) && {
            &&& session.broker_session == broker_session
            &&& session.pid == pid
            &&& session.orderly()
            &&& !session.life.active && !session.life.close_started && !session.life.abandoned
            &&& session.input.admission.open
            &&& session.input.admission.capacity == input_capacity
            &&& session.input.admission.bytes == 0 && session.input.admission.entries == 0
            &&& session.output.capacity == output_capacity
            &&& session.output.outstanding == 0
            &&& session.closing.release is Needed
            &&& session.life.exit_status matches Some(status) ==> old(
                reactor).pending_exits@.contains_key(broker_session) && status == old(
                reactor).pending_exits@[broker_session]
        },
        forall|peer: u64|
            peer != handle ==> #[trigger] final(reactor).at(peer) == old(reactor).at(peer),
{
}

/// Credit makes room for as much as was consumed, and never for more than is out.
pub proof fn credit_makes_room(reactor: &mut Reactor, handle: u64, bytes: usize, refresh: bool)
    requires
        call_ensures(Reactor::credit, (reactor, handle, bytes), refresh),
        old(reactor).at(handle) is Some,
    ensures
        final(reactor).at(handle) matches Some(next) && {
            let session = old(reactor).at(handle).unwrap();
            &&& bytes <= session.output.outstanding ==> next.output.outstanding + bytes
                == session.output.outstanding && refresh == session.life.active
            &&& bytes > session.output.outstanding ==> next == session && !refresh
            &&& next.output.pending() == session.output.pending()
            &&& next.input == session.input
        },
{
}

/// A session that is given up drops what waits, admits nothing more, is read on and written
/// no more, and is closed by the broker unless that is under way or not needed.
pub proof fn given_up_session_is_drained(
    reactor: &mut Reactor,
    handle: u64,
    abandoned: Option<crate::reactor::Abandoned>,
    polled: (bool, bool),
)
    requires
        call_ensures(Reactor::abandon, (reactor, handle), abandoned),
        old(reactor).wf(),
        old(reactor).at(handle) matches Some(session) && polled_as_asked(&session, polled),
    ensures
        final(reactor).at(handle) matches Some(next) && abandoned matches Some(abandoned) && {
            let session = old(reactor).at(handle).unwrap();
            &&& next.life.abandoned && !next.life.active
            &&& !next.input.admission.open
            &&& next.input.queue@.len() == 0
            &&& next.output.queue@.len() == 0
            &&& next.output.outstanding == 0
            &&& !next.output.paused
            &&& polled_after(polled_after(polled, abandoned.reads), abandoned.writes) == (
                true,
                false,
            )
            &&& abandoned.request_close == Some(session.broker_session)
                || abandoned.request_close is None && next.life.close_started
            &&& abandoned.request_close is Some <==> !session.life.close_started && !(
            session.life.exit_status is Some && session.output.eof)
        },
{
}

/// A cancelled output drops what waits and goes on being read, so that the child does not
/// block; what is out with the consumer is still owed.
pub proof fn cancelled_output_is_read_on(reactor: &mut Reactor, handle: u64, outcome: Outcome)
    requires
        call_ensures(Reactor::cancel_output, (reactor, handle), outcome),
        old(reactor).wf(),
        old(reactor).at(handle) is Some,
    ensures
        outcome.reply == Reply::Flag(true),
        outcome.work == (Work::Read { handle, then: AfterRead::Nothing }),
        final(reactor).at(handle) matches Some(next) && {
            &&& next.output.discarding && !next.output.paused
            &&& next.output.pending().len() == 0
            &&& next.output.outstanding == old(reactor).at(handle).unwrap().output.outstanding
            &&& next.input == old(reactor).at(handle).unwrap().input
        },
{
}

/// A signal reaches the broker as it was asked for while the child runs; after its exit it is
/// not delivered.
pub proof fn signal_goes_to_a_running_child(
    reactor: &Reactor,
    handle: u64,
    signal: i32,
    outcome: Outcome,
)
    requires
        call_ensures(Reactor::signal, (reactor, handle, signal), outcome),
    ensures
        match reactor.at(handle) {
            Some(session) => if session.life.exit_status is None {
                outcome.work == (Work::Signal { broker_session: session.broker_session, signal })
                    && outcome.reply is Outside
            } else {
                outcome.work is Done && outcome.reply == Reply::Signalled(Some(false))
            },
            None => outcome.work is Done && outcome.reply == Reply::Signalled(None),
        },
{
}

/// A question or a new size goes to the terminal of the session that the caller named, and
/// leaves every session as it is.
pub proof fn questions_reach_their_terminal(
    reactor: &mut Reactor,
    command: Command,
    now: u64,
    outcome: Outcome,
    handle: u64,
)
    requires
        call_ensures(Reactor::process, (reactor, command, now), outcome),
        old(reactor).at(handle) is Some,
    ensures
        command == (Command::Size { handle }) ==> outcome.work == (Work::Ask {
            handle,
            query: Query::Size,
        }),
        command == (Command::Snapshot { handle }) ==> outcome.work == (Work::Ask {
            handle,
            query: Query::Snapshot,
        }),
        command == (Command::Mode { handle }) ==> outcome.work == (Work::Ask {
            handle,
            query: Query::Mode,
        }),
        command == (Command::TtyName { handle }) ==> outcome.work == (Work::Ask {
            handle,
            query: Query::TtyName,
        }),
        command matches Command::Resize { handle: named, size } ==> named == handle ==> outcome.work
            == (Work::Resize { handle, size }) && outcome.reply is Outside,
        command matches Command::ObserveMode { handle: named, observe } ==> named == handle
            ==> outcome.work == (Work::Observe { handle, observe }) && outcome.reply
            == Reply::Flag(true),
        command == (Command::Pid { handle }) ==> outcome.reply == Reply::Pid(
            Some(old(reactor).at(handle).unwrap().pid),
        ),
        command == (Command::ExitStatus { handle }) ==> outcome.reply == Reply::Status(
            old(reactor).at(handle).unwrap().life.exit_status,
        ),
        command is Size || command is Snapshot || command is Mode || command is TtyName
            || command is Resize || command is ObserveMode || command is Pid
            || command is ExitStatus || command is Signal ==> final(reactor).at(handle) == old(reactor).at(handle),
{
}

/// Commands for one session leave every other one as it is.
pub proof fn commands_keep_to_their_session(
    reactor: &mut Reactor,
    command: Command,
    now: u64,
    outcome: Outcome,
    peer: u64,
)
    requires
        call_ensures(Reactor::process, (reactor, command, now), outcome),
        old(reactor).at(peer) is Some,
        match command {
            Command::Activate { handle }
            | Command::Write { handle, .. }
            | Command::CancelOutput { handle }
            | Command::Close { handle }
            | Command::CloseStart { handle, .. }
            | Command::GracefulSignalResult { handle, .. }
            | Command::ReleaseResult { handle, .. } => handle != peer,
            Command::BrokerExit { broker_session, .. } => old(reactor).at(
                peer,
            ).unwrap().broker_session != broker_session,
            _ => true,
        },
    ensures
        final(reactor).at(peer) == old(reactor).at(peer),
{
}

/// A change of terminal modes is told once: a reading that differs from the last is told, the
/// same reading again is not, and one that failed tells nothing.
pub proof fn mode_change_is_told_once(
    first: &mut Session,
    mode: Option<[bool; 3]>,
    now: u64,
    told: Option<[bool; 3]>,
    second: &mut Session,
    later: u64,
    again: Option<[bool; 3]>,
)
    requires
        call_ensures(Session::refresh_mode, (first, mode, now), told),
        *old(second) == *final(first),
        call_ensures(Session::refresh_mode, (second, mode, later), again),
    ensures
        told == (if mode == old(first).modes.observed {
            None
        } else {
            mode
        }),
        again is None,
        mode is Some ==> final(second).modes.observed == mode,
        mode is None ==> final(second).modes.observed == old(first).modes.observed,
{
}

/// Terminal modes are read again after 40 to 250 milliseconds: soon after a change, and less
/// and less often without one.
pub proof fn modes_are_polled_in_time(
    session: &mut Session,
    mode: Option<[bool; 3]>,
    now: u64,
    told: Option<[bool; 3]>,
)
    requires
        call_ensures(Session::refresh_mode, (session, mode, now), told),
        old(session).wf(),
        now <= crate::engine_session::MAX_NOW,
    ensures
        final(session).modes.deadline matches Some(deadline) && {
            &&& now + 40_000_000 <= deadline <= now + 250_000_000
            &&& told is Some ==> deadline == now + 40_000_000
            &&& told is None ==> deadline >= now + old(session).modes.interval
            &&& told is None && old(session).modes.interval < 250_000_000 ==> deadline > now + old(session).modes.interval
        },
        final(session).modes.deadline == Some((now + final(session).modes.interval) as u64),
{
}

/// An observation tells the mode that it starts with, and ends with nothing left to observe.
pub proof fn observation_starts_with_a_report(
    session: &mut Session,
    observe: bool,
    mode: Option<[bool; 3]>,
    now: u64,
    current: Option<[bool; 3]>,
)
    requires
        call_ensures(Session::observe_mode, (session, observe, mode, now), current),
        now <= crate::engine_session::MAX_NOW,
    ensures
        observe ==> current == mode && final(session).modes.observed == mode && final(session).modes.deadline == Some((now + 40_000_000) as u64),
        !observe ==> current is None && final(session).modes.observed is None && final(session).modes.deadline is None,
        final(session).output == old(session).output,
        final(session).input == old(session).input,
{
}

/// The next deadline of all sessions is not after that of any of them.
proof fn earliest_is_not_after(slots: Seq<Slot<Session>>, index: int)
    requires
        0 <= index < slots.len(),
        slots[index].value is Some,
        reactor::deadline_of(slots[index].value.unwrap()) is Some,
    ensures
        reactor::earliest_deadline(slots) matches Some(earliest) && earliest
            <= reactor::deadline_of(slots[index].value.unwrap()).unwrap(),
    decreases slots.len(),
{
    if index < slots.len() - 1 {
        assert(slots.drop_last()[index] == slots[index]);
        earliest_is_not_after(slots.drop_last(), index);
    }
}

/// The next deadline of all sessions is that of one of them.
proof fn earliest_is_of_a_session(slots: Seq<Slot<Session>>) -> (index: int)
    requires
        reactor::earliest_deadline(slots) is Some,
    ensures
        0 <= index < slots.len(),
        slots[index].value is Some,
        reactor::deadline_of(slots[index].value.unwrap()) == reactor::earliest_deadline(slots),
    decreases slots.len(),
{
    let rest = reactor::earliest_deadline(slots.drop_last());
    if rest is Some && rest == reactor::earliest_deadline(slots) {
        earliest_is_of_a_session(slots.drop_last())
    } else {
        slots.len() - 1
    }
}

/// The reactor sleeps past no deadline of a session: of output that waits, of an activation, of
/// an observation and of a graceful close. It does not sleep when one is over, and wakes less
/// than a millisecond after the next one.
pub proof fn reactor_wakes_in_time(
    reactor: &Reactor,
    now: u64,
    timeout: i32,
    handle: u64,
    deadline: u64,
)
    requires
        reactor.wf(),
        call_ensures(Reactor::output_poll_timeout, (reactor, now), timeout),
        reactor.at(handle) matches Some(session) && {
            ||| session.output.pending().len() > 0 && session.output.deadline == Some(deadline)
            ||| !session.life.active && !session.life.abandoned
                && session.life.activation_deadline == Some(deadline)
            ||| session.modes.deadline == Some(deadline)
            ||| session.closing.deadline == Some(deadline)
        },
    ensures
        timeout >= 0,
        deadline <= now ==> timeout == 0,
        deadline > now ==> timeout * 1_000_000 < deadline - now + 1_000_000,
{
    let session = reactor.at(handle).unwrap();
    let (index, generation) = crate::handle::handle_parts_of(handle).unwrap();
    assert(reactor.sessions.slots@[index as int].value == Some(session));
    earliest_is_not_after(reactor.sessions.slots@, index as int);
    let earliest = reactor::earliest_deadline(reactor.sessions.slots@).unwrap();
    if earliest > now {
        let micros = (earliest - now) / 1000;
        assert(micros * 1000 <= earliest - now);
        assert(micros % 1000 == micros - micros / 1000 * 1000);
        assert(timeout <= micros / 1000 + (if micros % 1000 == 0 {
            0int
        } else {
            1int
        }));
    }
}

/// The reactor sleeps without end only where no session has a deadline, and less than a
/// microsecond too short for one at most.
pub proof fn reactor_sleeps_as_long_as_it_can(reactor: &Reactor, now: u64, timeout: i32)
    requires
        reactor.wf(),
        call_ensures(Reactor::output_poll_timeout, (reactor, now), timeout),
        timeout != i32::MAX,
    ensures
        timeout >= 0 ==> exists|index: int| #![trigger reactor.sessions.slots@[index]]
            0 <= index < reactor.sessions.slots@.len() && (
            reactor.sessions.slots@[index].value matches Some(session) && {
                ||| session.output.bytes > 0 && (session.output.deadline matches Some(deadline)
                    && deadline < now + timeout * 1_000_000 + 1000)
                ||| session.life.activation_deadline matches Some(deadline) && deadline < now
                    + timeout * 1_000_000 + 1000
                ||| session.modes.deadline matches Some(deadline) && deadline < now + timeout
                    * 1_000_000 + 1000
                ||| session.closing.deadline matches Some(deadline) && deadline < now + timeout
                    * 1_000_000 + 1000
            }),
{
    if timeout >= 0 {
        let index = earliest_is_of_a_session(reactor.sessions.slots@);
        let earliest = reactor::earliest_deadline(reactor.sessions.slots@).unwrap();
        if earliest > now {
            let micros = (earliest - now) / 1000;
            assert(earliest - now < micros * 1000 + 1000);
            assert(micros <= timeout * 1000);
        }
        assert(earliest < now + timeout * 1_000_000 + 1000);
        assert(reactor.sessions.slots@[index].value is Some);
    }
}

/// When the broker is lost every session goes, each is named once with its process, and the
/// loss of input that waited is told where it was not told before.
pub proof fn lost_broker_takes_every_session(
    reactor: &mut Reactor,
    lost: Vec<LostSession>,
    handle: u64,
)
    requires
        call_ensures(Reactor::fail_all, (reactor,), lost),
        old(reactor).wf(),
    ensures
        final(reactor).at(handle) is None,
        old(reactor).at(handle) matches Some(session) ==> exists|i: int| #![trigger lost@[i]]
            0 <= i < lost@.len() && {
                &&& lost@[i].handle == handle
                &&& lost@[i].pid == session.pid
                &&& lost@[i].broker_session == session.broker_session
                &&& lost@[i].report_input_failure == (session.input.pending().len() > 0
                    && !session.input.failure_notified)
            },
        forall|i: int, j: int| #![trigger lost@[i], lost@[j]]
            0 <= i < j < lost@.len() ==> lost@[i].handle != lost@[j].handle,
{
    let slots = old(reactor).sessions.slots@;
    let items = registry::occupants(slots);
    if let Some(session) = old(reactor).at(handle) {
        registry::live_is_occupant(slots, handle);
        let i = choose|i: int|
            0 <= i < items.len() && #[trigger] items[i] == (
                handle,
                registry::resolve(slots, handle).unwrap(),
            );
        crate::session::pending_empty(session.input.queue@);
        assert(lost@[i].handle == handle);
    }
    assert forall|i: int, j: int| #![trigger lost@[i], lost@[j]]
        0 <= i < j < lost@.len() implies lost@[i].handle != lost@[j].handle by {
        registry::occupants_are_distinct(slots, i, j);
        assert(items[i].0 != items[j].0);
    }
}

/// At the end of the runtime every session goes, and the broker is asked to close each one
/// whose close is neither under way nor needless.
pub proof fn shutdown_takes_every_session(
    reactor: &mut Reactor,
    ended: Vec<(u64, bool)>,
    handle: u64,
)
    requires
        call_ensures(Reactor::shutdown_all, (reactor,), ended),
        old(reactor).wf(),
    ensures
        final(reactor).at(handle) is None,
        old(reactor).at(handle) matches Some(session) ==> exists|i: int| #![trigger ended@[i]]
            0 <= i < ended@.len() && ended@[i].0 == session.broker_session && ended@[i].1 == !(
            session.life.close_started || session.life.exit_status is Some
                && session.output.eof),
{
    let slots = old(reactor).sessions.slots@;
    let items = registry::occupants(slots);
    if let Some(session) = old(reactor).at(handle) {
        registry::live_is_occupant(slots, handle);
        let i = choose|i: int|
            0 <= i < items.len() && #[trigger] items[i] == (
                handle,
                registry::resolve(slots, handle).unwrap(),
            );
        assert(ended@[i].0 == session.broker_session);
    }
}

/// The exit of a child ends its session's input: what waits is lost, and that is told the
/// first time. Time no longer runs for a graceful close.
pub proof fn exit_ends_the_input(
    reactor: &mut Reactor,
    broker_session: u64,
    status: i32,
    outcome: Outcome,
    handle: u64,
    then: AfterRead,
)
    requires
        call_ensures(Reactor::broker_exit, (reactor, broker_session, status), outcome),
        outcome.work == (Work::Read { handle, then }),
        old(reactor).at(handle) matches Some(session) && !session.life.abandoned,
    ensures
        then == AfterRead::Exited(status),
        final(reactor).at(handle) matches Some(next) && {
            let session = old(reactor).at(handle).unwrap();
            &&& next.life.exit_status == Some(status as i64)
            &&& next.closing.deadline is None
            &&& next.input.failed && !next.input.admission.open
            &&& next.input.queue@.len() == 0
            &&& session.input.queue@.len() > 0 ==> next.input.failure_pending
            &&& session.input.queue@.len() > 0 && !session.input.failure_notified
                ==> outcome.notice == Some(Notice::InputFailed(handle))
            &&& session.input.queue@.len() == 0 || session.input.failure_notified
                ==> outcome.notice is None
            &&& next.output == session.output
        },
{
}

/// An exit of which no session is known yet is kept, and changes no session.
pub proof fn unknown_exit_is_kept(
    reactor: &mut Reactor,
    broker_session: u64,
    status: i32,
    outcome: Outcome,
    handle: u64,
)
    requires
        call_ensures(Reactor::broker_exit, (reactor, broker_session, status), outcome),
        forall|peer: u64|
            (#[trigger] old(reactor).at(peer)) matches Some(session) ==> session.broker_session
                != broker_session,
    ensures
        outcome.work is Done,
        outcome.notice is None,
        final(reactor).pending_exits@.contains_key(broker_session) && final(reactor).pending_exits@[broker_session] == status,
        final(reactor).at(handle) == old(reactor).at(handle),
{
}

/// A close that the broker took counts as started and admits no more input; one that it did
/// not take leaves the session as it was.
pub proof fn taken_close_is_started(reactor: &mut Reactor, handle: u64, mail: Mail)
    requires
        call_ensures(Reactor::after_close_request, (reactor, handle, mail), ()),
        old(reactor).at(handle) is Some,
    ensures
        final(reactor).at(handle) matches Some(next) && {
            let session = old(reactor).at(handle).unwrap();
            &&& mail is Accepted ==> next.life.close_started && !next.input.admission.open
                && next.input.pending() == session.input.pending()
            &&& !(mail is Accepted) ==> next == session
            &&& next.output == session.output
            &&& next.close_waiters == session.close_waiters
        },
{
}

/// A release that the broker took is awaited, and one that its mailbox had no room for is asked
/// for again.
pub proof fn release_is_asked_until_taken(
    asked: &mut Reactor,
    handle: u64,
    mail: Mail,
    step: ReapStep,
    again: &mut Reactor,
    second: ReapStep,
)
    requires
        old(asked).at(handle) matches Some(session) && session.life.close_started
            && !session.life.abandoned && session.is_drained() && session.closing.release
            is Needed,
        call_ensures(Reactor::after_release_request, (asked, handle, mail), step),
        !(mail is Lost),
        *old(again) == *final(asked),
        call_ensures(Reactor::reap_closed, (again, handle), second),
    ensures
        step is Keep,
        mail is Accepted ==> second is Keep,
        mail is Full ==> second == (ReapStep::AskRelease {
            broker_session: old(asked).at(handle).unwrap().broker_session,
        }),
{
}

/// Ready terminals are served in turn: a round starts at one of them, and the next round one
/// further.
pub proof fn rounds_start_in_turn(
    rotation: usize,
    length: usize,
    first: (usize, usize),
    second: (usize, usize),
)
    requires
        length > 1,
        rotation < usize::MAX,
        call_ensures(reactor::rotate, (rotation, length), first),
        call_ensures(reactor::rotate, (first.1, length), second),
    ensures
        first.0 < length,
        second.0 < length,
        second.0 == (if first.0 == length - 1 {
            0int
        } else {
            first.0 + 1
        }),
{
    assert(first.1 == rotation + 1);
    let count = rotation as int;
    let size = length as int;
    vstd::arithmetic::div_mod::lemma_mod_adds(count, 1, size);
    assert(1int % size == 1) by {
        vstd::arithmetic::div_mod::lemma_small_mod(1, length as nat);
    }
    if first.0 == length - 1 {
        assert((count + 1) % size == 0) by {
            vstd::arithmetic::div_mod::lemma_add_mod_noop(count, 1, size);
            vstd::arithmetic::div_mod::lemma_mod_self_0(size);
        }
    } else {
        assert((count + 1) % size == count % size + 1) by {
            vstd::arithmetic::div_mod::lemma_add_mod_noop(count, 1, size);
            vstd::arithmetic::div_mod::lemma_small_mod(
                (first.0 + 1) as nat,
                length as nat,
            );
        }
    }
}

/// An activation whose registration fails gives the session up and answers with the error; the
/// broker is asked to close it, unless that is under way or not needed.
pub proof fn failed_registration_gives_up(
    reads: &mut Reactor,
    writes: &mut Reactor,
    handle: u64,
    interest: Interest,
    error: IoError,
    first: Outcome,
    second: Outcome,
)
    requires
        call_ensures(
            Reactor::after_register_reads,
            (reads, handle, interest, Err::<(), IoError>(error)),
            first,
        ),
        call_ensures(
            Reactor::after_register_writes,
            (writes, handle, interest, Err::<(), IoError>(error)),
            second,
        ),
        old(reads).at(handle) is Some,
        old(writes).at(handle) is Some,
    ensures
        first.reply == Reply::Activated(Err(error)),
        second.reply == Reply::Activated(Err(error)),
        final(reads).at(handle) matches Some(next) && next.life.abandoned
            && next.life.activation_deadline is None && (next.life.close_started || first.work == (
        Work::RequestClose { handle, broker_session: next.broker_session })),
        final(writes).at(handle) matches Some(next) && next.life.abandoned
            && next.life.activation_deadline is None && (next.life.close_started || second.work
            == (Work::RequestClose { handle, broker_session: next.broker_session })),
{
}

/// What a graceful signal came to does not matter any more once the child has exited, or when
/// it was delivered.
pub proof fn late_signal_result_changes_nothing(
    reactor: &mut Reactor,
    handle: u64,
    result: Option<bool>,
    outcome: Outcome,
)
    requires
        call_ensures(Reactor::graceful_signal_result, (reactor, handle, result), outcome),
        old(reactor).at(handle) matches Some(session) && (session.life.exit_status is Some
            || result is Some),
    ensures
        outcome.work is Done,
        outcome.notice is None,
        final(reactor).at(handle) == old(reactor).at(handle),
{
}

/// An exit that was kept for a session reaches that session alone, and is not kept any longer.
pub proof fn kept_exit_is_used_once(
    added: &mut Reactor,
    broker_session: u64,
    pid: i32,
    capacities: (usize, usize),
    timeout: u64,
    now: u64,
    handle: u64,
    other: u64,
)
    requires
        call_ensures(
            Reactor::add,
            (added, broker_session, pid, capacities.0, capacities.1, timeout, now),
            handle,
        ),
    ensures
        final(added).at(handle) matches Some(session) && session.life.exit_status == (if old(added).pending_exits@.contains_key(broker_session) {
            Some(old(added).pending_exits@[broker_session] as i64)
        } else {
            None
        }),
        !final(added).pending_exits@.contains_key(broker_session),
        other != broker_session ==> final(added).pending_exits@.contains_key(other) == old(added).pending_exits@.contains_key(other),
{
}

/// When the broker is lost, exits that were kept are forgotten and every session is taken
/// down; at the end of the runtime the reactor stops.
pub proof fn last_commands_take_everything_down(
    reactor: &mut Reactor,
    command: Command,
    now: u64,
    outcome: Outcome,
)
    requires
        call_ensures(Reactor::process, (reactor, command, now), outcome),
    ensures
        command is BrokerLost <==> outcome.work is FailAll,
        command is Shutdown <==> outcome.work is Stop,
        command is BrokerLost ==> final(reactor).pending_exits@ == Map::<u64, i32>::empty(),
{
}

/// A session that is not there is answered as missing, whatever is asked of it, and nothing
/// changes.
pub proof fn missing_session_is_answered(
    reactor: &mut Reactor,
    command: Command,
    now: u64,
    outcome: Outcome,
    handle: u64,
    peer: u64,
)
    requires
        call_ensures(Reactor::process, (reactor, command, now), outcome),
        old(reactor).at(handle) is None,
    ensures
        command == (Command::Pid { handle }) ==> outcome.reply == Reply::Pid(None),
        command == (Command::ExitStatus { handle }) ==> outcome.reply == Reply::Status(None),
        command == (Command::Size { handle }) || command == (Command::Snapshot { handle })
            || command == (Command::Mode { handle }) || command == (Command::TtyName { handle })
            ==> outcome.reply is Missing,
        command == (Command::CancelOutput { handle }) || command == (Command::Close { handle })
            ==> outcome.reply == Reply::Flag(false),
        command matches Command::CloseStart { handle: named, .. } ==> named == handle
            ==> outcome.reply == Reply::Flag(false),
        command matches Command::Resize { handle: named, .. } ==> named == handle ==> outcome.reply
            == Reply::Flag(false),
        command matches Command::Signal { handle: named, .. } ==> named == handle ==> outcome.reply
            == Reply::Signalled(None),
        command matches Command::Activate { handle: named } ==> named == handle ==> (
        outcome.reply matches Reply::Activated(Err(error)) && error.kind == ErrorKind::NotFound),
        (match command {
            Command::Activate { handle: named }
            | Command::Write { handle: named, .. }
            | Command::CancelOutput { handle: named }
            | Command::Close { handle: named }
            | Command::CloseStart { handle: named, .. }
            | Command::GracefulSignalResult { handle: named, .. }
            | Command::ReleaseResult { handle: named, .. } => named == handle,
            Command::Add { .. } | Command::BrokerLost | Command::BrokerExit { .. } => false,
            _ => true,
        }) ==> final(reactor).at(peer) == old(reactor).at(peer),
{
}

/// An exit reaches a session that stands for the child, wherever there is one.
pub proof fn known_exit_reaches_its_session(
    reactor: &mut Reactor,
    broker_session: u64,
    status: i32,
    outcome: Outcome,
    handle: u64,
)
    requires
        call_ensures(Reactor::broker_exit, (reactor, broker_session, status), outcome),
        old(reactor).at(handle) matches Some(session) && session.broker_session == broker_session,
    ensures
        outcome.work matches Work::Read { handle: found, then } && then == AfterRead::Exited(status)
            && (old(reactor).at(found) matches Some(session) && session.broker_session
            == broker_session) && (final(reactor).at(found) matches Some(next)
            && next.life.exit_status == Some(status as i64)),
        final(reactor).pending_exits@ == old(reactor).pending_exits@,
{
}

/// An activation registers the reading side first and the writing side then, and ends active.
pub proof fn activation_registers_both_sides(
    started: &mut Reactor,
    reads: &mut Reactor,
    writes: &mut Reactor,
    handle: u64,
    interest: Interest,
    first: Outcome,
    second: Outcome,
    third: Outcome,
)
    requires
        call_ensures(Reactor::activate, (started, handle), first),
        old(started).at(handle) matches Some(session) && !session.life.abandoned
            && !session.life.close_started,
        call_ensures(
            Reactor::after_register_reads,
            (reads, handle, interest, Ok::<(), IoError>(())),
            second,
        ),
        old(reads).at(handle) is Some,
        call_ensures(
            Reactor::after_register_writes,
            (writes, handle, interest, Ok::<(), IoError>(())),
            third,
        ),
        old(writes).at(handle) is Some,
    ensures
        first.work matches Work::RegisterReads { handle: named, .. } && named == handle,
        second.work matches Work::RegisterWrites { handle: named, .. } && named == handle,
        third.work == (Work::Read { handle, then: AfterRead::Activated }),
        third.reply == Reply::Activated(Ok(())),
        final(writes).at(handle) matches Some(next) && next.life.active,
{
}

/// A write turn offers input while some waits, for at most 64 KiB and four calls.
pub proof fn write_turns_are_bounded(session: &Session, turn: Turn, chunk: Option<&[u8]>)
    requires
        session.wf(),
        call_ensures(Session::next_write, (session, turn), chunk),
    ensures
        chunk is Some <==> session.input.pending().len() > 0 && turn.bytes < 65536
            && turn.syscalls < 4,
        chunk matches Some(offered) ==> 0 < offered@.len() && turn.bytes + offered@.len() <= 65536,
{
    crate::session::pending_empty(session.input.queue@);
}

/// A child that the broker started is added, whatever else is there.
pub proof fn started_child_is_added(
    reactor: &mut Reactor,
    command: Command,
    now: u64,
    outcome: Outcome,
)
    requires
        call_ensures(Reactor::process, (reactor, command, now), outcome),
        command is Add,
    ensures
        outcome.reply matches Reply::Added(handle) && old(reactor).at(handle) is None && final(reactor).at(handle) is Some,
        outcome.work is Done,
{
}

} // verus!
