//! What the users of a session can rely on over several steps: an end of the child is shown as
//! it was, writes are answered as the engine answered them, and a close is shared by everyone
//! who waits for it.
use crate::buffer;
use crate::c_snapshot::Metadata;
use crate::engine_event::{self, Notice};
use crate::error;
use crate::error::SpawnError;
use crate::facade::{
    self, CachedClose, CloseError, CloseState, ControlError, Event, ExitStatus,
    MetadataError, OutputChunk, SessionControl, SessionSnapshot, WaitStep, WriteError,
};
use crate::fault::IoError;
use crate::posix;
use crate::session::{InputAdmission, Sent};
use bytes::Bytes;
use vstd::prelude::*;

verus! {

/// An exit code of a child is shown as that code, and a signal that ended it as that signal,
/// all the way from the wait status.
pub proof fn wait_status_is_shown(
    number: i32,
    status: i32,
    code: i32,
    shown: Option<ExitStatus>,
)
    requires
        call_ensures(posix::decode_wait_status, (status,), code),
        call_ensures(ExitStatus::from_engine, (code as i64,), shown),
    ensures
        0 <= number <= 255 && status == number * 256 ==> shown == Some(
            ExitStatus::Exited(number as u32),
        ),
        1 <= number <= 126 && (status == number || status == number + 128) ==> shown == Some(
            ExitStatus::Signaled(number as u32),
        ),
{
    posix::wait_statuses_round_trip(number, status, code);
}

/// Every exit code of any platform is shown as itself, and different ends are shown apart.
pub proof fn ends_are_shown_apart(
    first: i64,
    second: i64,
    shown: Option<ExitStatus>,
    code: u32,
    exit: Option<ExitStatus>,
)
    requires
        call_ensures(ExitStatus::from_engine, (first,), shown),
        call_ensures(ExitStatus::from_engine, (second,), shown),
        shown is Some,
        call_ensures(ExitStatus::from_engine, (code as i64,), exit),
    ensures
        first == second,
        shown.unwrap() is Exited <==> first >= 0,
        exit == Some(ExitStatus::Exited(code)),
{
}

/// A notice is shown as the event of its kind, with the bytes, the end, the result or the mode
/// that it carries.
pub proof fn notices_are_shown_as_they_are(notice: Notice, event: Event<OutputChunk>)
    requires
        call_ensures(facade::convert, (notice,), event),
    ensures
        notice matches Notice::Output { bytes, .. } ==> (event matches Event::Output(chunk)
            && chunk.bytes == bytes),
        event is Output ==> notice is Output,
        event is OutputDone <==> notice is OutputDone,
        event is InputFailed <==> notice is InputFailed,
        event is OutputFailed <==> notice is OutputFailed,
        event is Closed <==> notice is Closed,
        event is ModeChanged <==> notice is ModeChanged,
        notice is BrokerLost ==> event is InfrastructureFailed,
        notice matches Notice::Exit { status, .. } ==> {
            &&& 0 <= status <= u32::MAX ==> (event matches Event::Exited(
                ExitStatus::Exited(code),
            ) && code == status)
            &&& -(u32::MAX as int) <= status < 0 ==> (event matches Event::Exited(
                ExitStatus::Signaled(signal),
            ) && signal == -status)
        },
        event is Exited ==> notice is Exit,
        notice matches Notice::Closed { result, .. } ==> (event matches Event::Closed(shown)
            && shown.input_failed == result.input_failed && shown.output_failed
            == result.output_failed && shown.cleanup_failed == result.cleanup_failed),
        notice matches Notice::ModeChanged { modes, .. } ==> (event matches Event::ModeChanged(
            mode,
        ) && mode.canonical == modes[0] && mode.echo == modes[1] && mode.signals == modes[2]),
{
}

/// A write is answered as the session's admission answered it: accepted when it was queued,
/// closed when the input is closed, as backpressure when there is no room now, and as lost
/// when nobody takes commands.
pub proof fn write_is_answered_as_admitted<F: FnOnce() -> Sent>(
    admission: &mut InputAdmission,
    length: usize,
    send: F,
    code: i64,
    result: Result<(), WriteError>,
)
    requires
        call_ensures(InputAdmission::admit_write_with::<F>, (admission, length, send), code),
        call_ensures(SessionControl::after_write, (code,), result),
        length > 0,
    ensures
        result is Ok ==> {
            &&& call_ensures(send, (), Sent::Queued)
            &&& final(admission).bytes == old(admission).bytes + length
            &&& final(admission).entries == old(admission).entries + 1
        },
        result is Err ==> final(admission).bytes == old(admission).bytes && final(admission).entries == old(admission).entries,
        !old(admission).open <==> result == Err::<(), WriteError>(WriteError::Closed),
        old(admission).open && (old(admission).bytes + length > old(admission).capacity
            || old(admission).entries >= 4096 || old(admission).entries
            >= old(admission).capacity) ==> result == Err::<(), WriteError>(
            WriteError::Backpressure,
        ),
        old(admission).open && old(admission).bytes + length <= old(admission).capacity && old(admission).entries < 4096 && old(admission).entries < old(admission).capacity ==> {
            ||| result is Ok
            ||| result == Err::<(), WriteError>(WriteError::Backpressure) && call_ensures(
                send,
                (),
                Sent::Full,
            )
            ||| result == Err::<(), WriteError>(WriteError::Infrastructure) && call_ensures(
                send,
                (),
                Sent::Disconnected,
            ) && !final(admission).open
        },
{
}

/// A session takes writes until its close begins, and none of nothing.
pub proof fn writes_end_with_the_close(
    control: &mut SessionControl,
    bytes: Bytes,
    before: Result<(), WriteError>,
    after: Result<(), WriteError>,
)
    requires
        call_ensures(SessionControl::begin_write, (&*old(control), &bytes), before),
        call_ensures(SessionControl::mark_closing, (control,), ())
            || call_ensures(SessionControl::mark_closed, (control,), ()),
        call_ensures(SessionControl::begin_write, (&*final(control), &bytes), after),
    ensures
        buffer::bytes_of(bytes).len() == 0 ==> before == Err::<(), WriteError>(WriteError::Empty)
            && after == Err::<(), WriteError>(WriteError::Empty),
        buffer::bytes_of(bytes).len() > 0 ==> after == Err::<(), WriteError>(WriteError::Closed),
        buffer::bytes_of(bytes).len() > 0 && !old(control).closing ==> before is Ok,
{
}

/// Output that is given back is credited in full while the session is not closed, and its
/// close credits nothing.
pub proof fn returned_output_is_credited(
    control: &SessionControl,
    chunk: &OutputChunk,
    length: usize,
    credit: Option<usize>,
)
    requires
        call_ensures(OutputChunk::len, (chunk,), length),
        call_ensures(SessionControl::release_output, (control, length), credit),
    ensures
        control.closed ==> credit is None,
        !control.closed && buffer::bytes_of(chunk.bytes).len() > 0 ==> (credit matches Some(bytes)
            && bytes == buffer::bytes_of(chunk.bytes).len()),
        credit matches Some(bytes) ==> bytes == buffer::bytes_of(chunk.bytes).len() && bytes > 0,
{
}

/// An output is cancelled once: after the engine took it, it is not asked again.
pub proof fn output_is_cancelled_once(
    control: &mut SessionControl,
    accepted: bool,
    result: Result<(), ControlError>,
    again: bool,
)
    requires
        call_ensures(SessionControl::after_cancel_output, (control, accepted), result),
        call_ensures(SessionControl::begin_cancel_output, (&*final(control),), again),
    ensures
        accepted ==> result is Ok && !again,
        !accepted ==> (result matches Err(error) && error.operation == "output cancellation"),
        !accepted && !old(control).output_cancelled && !old(control).closed ==> again,
        final(control).closing == old(control).closing,
        final(control).closed == old(control).closed,
{
}

/// The engine is asked to observe modes exactly when that changes something, and what it
/// accepted is remembered.
pub proof fn observation_is_switched_once(
    asked: &mut SessionControl,
    observe: bool,
    ask: Result<bool, ControlError>,
    answered: &mut SessionControl,
    accepted: bool,
    result: Result<(), ControlError>,
    again_control: &mut SessionControl,
    again: Result<bool, ControlError>,
)
    requires
        call_ensures(SessionControl::begin_observe_modes, (asked, observe), ask),
        *old(answered) == *final(asked),
        call_ensures(SessionControl::after_observe_modes, (answered, observe, accepted), result),
        *old(again_control) == *final(answered),
        call_ensures(SessionControl::begin_observe_modes, (again_control, observe), again),
    ensures
        !old(asked).closed ==> ask == Ok::<bool, ControlError>(
            old(asked).observing_modes != observe,
        ),
        old(asked).closed ==> ask is Err == (observe && !old(asked).observing_modes) && (
        ask matches Ok(value) ==> !value),
        accepted ==> result is Ok && again == Ok::<bool, ControlError>(false),
        !accepted ==> result is Err,
        !accepted && ask == Ok::<bool, ControlError>(true) ==> again == ask,
{
}

/// A session that nobody controls any more is given up, unless it is closed.
pub proof fn uncontrolled_session_is_given_up(control: &SessionControl, abandon: Option<u64>)
    requires
        call_ensures(SessionControl::abandoned, (control,), abandon),
    ensures
        control.closed <==> abandon is None,
        abandon matches Some(handle) ==> handle == control.handle,
{
}

/// A close is started once, and the first waiter alone waits for the engine; everyone else
/// waits for that one, and gets what it got.
pub proof fn close_is_shared<C, W>(
    started: &mut CloseState<C, W>,
    completion: C,
    accepted: Result<(), CloseError>,
    needed: bool,
    first: &mut CloseState<C, W>,
    first_step: WaitStep<C>,
    second: &mut CloseState<C, W>,
    second_step: WaitStep<C>,
    finished: &mut CloseState<C, W>,
    result: CachedClose,
    told: (CachedClose, Vec<W>),
    third: &mut CloseState<C, W>,
    third_step: WaitStep<C>,
)
    requires
        !old(started).started(),
        call_ensures(
            CloseState::<C, W>::after_start,
            (started, Ok::<C, IoError>(completion)),
            accepted,
        ),
        call_ensures(CloseState::<C, W>::needs_start, (&*final(started),), needed),
        *old(first) == *final(started),
        call_ensures(CloseState::<C, W>::wait_close, (first,), first_step),
        *old(second) == *final(first),
        call_ensures(CloseState::<C, W>::wait_close, (second,), second_step),
        *old(finished) == *final(second),
        call_ensures(CloseState::<C, W>::finish_close, (finished, result), told),
        *old(third) == *final(finished),
        call_ensures(CloseState::<C, W>::wait_close, (third,), third_step),
    ensures
        accepted is Ok,
        !needed,
        first_step == WaitStep::Await(completion),
        second_step is Block,
        told.0 == result,
        third_step == WaitStep::<C>::Ready(result),
{
}

/// A close that could not be started can be tried again, and says why.
pub proof fn failed_start_can_be_tried_again<C, W>(
    state: &mut CloseState<C, W>,
    error: IoError,
    result: Result<(), CloseError>,
    needed: bool,
)
    requires
        !old(state).started(),
        call_ensures(
            CloseState::<C, W>::after_start,
            (state, Err::<C, IoError>(error)),
            result,
        ),
        call_ensures(CloseState::<C, W>::needs_start, (&*final(state),), needed),
    ensures
        result == Err::<(), CloseError>(CloseError::Native(error)),
        needed,
{
}

/// The first result of a close stays, whatever comes later.
pub proof fn first_close_result_stays<C, W>(
    first: &mut CloseState<C, W>,
    early: CachedClose,
    told: (CachedClose, Vec<W>),
    second: &mut CloseState<C, W>,
    late: CachedClose,
    again: (CachedClose, Vec<W>),
)
    requires
        call_ensures(CloseState::<C, W>::finish_close, (first, early), told),
        *old(second) == *final(first),
        call_ensures(CloseState::<C, W>::finish_close, (second, late), again),
    ensures
        again.0 == told.0,
        old(first).result is None ==> told.0 == early,
        again.1@.len() == 0,
{
}

/// A waker that is kept is among those that are there.
proof fn kept_waker_is_present<W>(slots: Seq<Option<W>>, index: int)
    requires
        0 <= index < slots.len(),
        slots[index] is Some,
    ensures
        facade::present(slots).contains(slots[index].unwrap()),
    decreases slots.len(),
{
    let rest = facade::present(slots.drop_last());
    if index < slots.len() - 1 {
        assert(slots.drop_last()[index] == slots[index]);
        kept_waker_is_present(slots.drop_last(), index);
        let k = choose|k: int| 0 <= k < rest.len() && rest[k] == slots[index].unwrap();
        assert(facade::present(slots)[k] == slots[index].unwrap());
    } else {
        assert(facade::present(slots)[rest.len() as int] == slots[index].unwrap());
    }
}

/// Whoever polls a close that is not over is woken when it ends, and gets its result then.
pub proof fn pollers_are_woken<C, W>(
    polled: &mut CloseState<C, W>,
    index: &mut Option<usize>,
    waker: W,
    early: Option<CachedClose>,
    finished: &mut CloseState<C, W>,
    result: CachedClose,
    told: (CachedClose, Vec<W>),
)
    requires
        old(polled).result is None,
        call_ensures(CloseState::<C, W>::poll_waiting, (polled, index, waker), early),
        *old(finished) == *final(polled),
        call_ensures(CloseState::<C, W>::finish_close, (finished, result), told),
    ensures
        early is None,
        told.0 == result,
        told.1@.contains(waker),
{
    let place = final(index).unwrap() as int;
    kept_waker_is_present(final(polled).wakers@, place);
}

/// A close succeeds exactly when the engine reported one without any failure.
pub proof fn close_succeeds_without_failures(
    completion: Option<engine_event::CloseResult>,
    cached: CachedClose,
    result: Result<(), CloseError>,
)
    requires
        call_ensures(CachedClose::from_engine, (completion,), cached),
        call_ensures(CachedClose::result, (cached,), result),
    ensures
        result is Ok <==> (completion matches Some(told) && !told.input_failed
            && !told.output_failed && !told.cleanup_failed),
        completion is None <==> result == Err::<(), CloseError>(CloseError::CompletionLost),
        result matches Err(CloseError::Failed(shown)) ==> (completion matches Some(told)
            && shown.input_failed == told.input_failed && shown.output_failed
            == told.output_failed && shown.cleanup_failed == told.cleanup_failed),
{
}

/// A snapshot shows the process, the size, the mode and the name that the engine gave, and is
/// there exactly when the engine gave a process and a size that a terminal can have.
pub proof fn snapshot_shows_the_session(
    metadata: Option<Metadata>,
    result: Result<SessionSnapshot, MetadataError>,
)
    requires
        call_ensures(facade::snapshot_of, (metadata,), result),
    ensures
        result is Ok <==> (metadata matches Some(given) && given.pid >= 0 && 1 <= given.size[0]
            <= 32767 && 1 <= given.size[1] <= 32767 && given.size[2] <= 65535 && given.size[3]
            <= 65535),
        result matches Ok(snapshot) ==> (metadata matches Some(given) && {
            &&& snapshot.process_id == given.pid
            &&& snapshot.size.rows == given.size[0]
            &&& snapshot.size.columns == given.size[1]
            &&& snapshot.size.pixel_width == given.size[2]
            &&& snapshot.size.pixel_height == given.size[3]
            &&& snapshot.terminal_name == given.tty_name
            &&& snapshot.terminal_mode is Some == given.mode is Some
            &&& snapshot.terminal_mode matches Some(mode) ==> (given.mode matches Some(modes)
                && mode.canonical == modes[0] && mode.echo == modes[1] && mode.signals
                == modes[2])
        }),
{
}

/// A spawn that was awaited gives its session, and one that nobody awaits any more gives its
/// session up: no session is left without an owner.
pub proof fn spawned_session_has_an_owner(
    completion: Option<Result<u64, IoError>>,
    result: Result<u64, SpawnError>,
    dropped: Option<u64>,
)
    requires
        call_ensures(facade::spawn_outcome, (completion,), result),
        call_ensures(facade::dropped_spawn, (completion,), dropped),
    ensures
        result matches Ok(handle) ==> completion == Some(Ok::<u64, IoError>(handle)) && dropped
            == Some(handle),
        result is Err <==> dropped is None,
        completion matches Some(Err(error)) ==> (result matches Err(SpawnError::Native(inner))
            && inner == error),
        completion is None ==> (result matches Err(SpawnError::Activation)),
{
}

/// A session is published exactly when its events can be received and it was activated.
pub proof fn published_session_is_active(
    has_receiver: bool,
    activated: bool,
    result: Result<(), SpawnError>,
)
    requires
        call_ensures(facade::publish_session, (has_receiver, activated), result),
    ensures
        result is Ok <==> has_receiver && activated,
        result matches Err(error) ==> error is Activation,
{
}

/// The engine's answer to a termination is handed on, and that it had none is a failure.
pub proof fn termination_is_answered(
    delivered: Option<bool>,
    result: Result<bool, ControlError>,
    accepted: bool,
    control: Result<(), ControlError>,
    operation: &'static str,
)
    requires
        call_ensures(SessionControl::after_terminate, (delivered,), result),
        call_ensures(SessionControl::after_control, (operation, accepted), control),
    ensures
        delivered matches Some(value) ==> result == Ok::<bool, ControlError>(value),
        delivered is None ==> result is Err,
        control is Ok <==> accepted,
        control matches Err(error) ==> error.operation == operation,
{
}

/// The failure that stands for a close is one of its failures, and there is none exactly when
/// the close succeeded; that of the cleanup comes first, then that of the input.
pub proof fn primary_failure_is_a_failure(
    result: error::CloseResult,
    success: bool,
    primary: Option<error::OperationError>,
)
    requires
        call_ensures(error::CloseResult::is_success, (result,), success),
        call_ensures(error::CloseResult::primary_failure, (result,), primary),
    ensures
        success <==> primary is None,
        success <==> result.input_failure is None && result.output_failure is None
            && result.cleanup_failure is None,
        primary is Some ==> primary == result.cleanup_failure || primary == result.input_failure
            || primary == result.output_failure,
        result.cleanup_failure is Some ==> primary == result.cleanup_failure,
        result.cleanup_failure is None && result.input_failure is Some ==> primary
            == result.input_failure,
{
}

/// An operation that an error stopped keeps its operation and code, and its category says what
/// can be done about it.
pub proof fn operation_errors_keep_their_code(
    operation: error::Operation,
    error: &IoError,
    failure: error::OperationError,
)
    requires
        call_ensures(error::OperationError::from_io, (operation, error), failure),
    ensures
        failure.operation == operation,
        failure.native_code == error.code,
        failure.kind is InvalidArgument <==> error.kind is InvalidInput || error.kind
            is InvalidData,
        failure.kind is Backpressure <==> error.kind is WouldBlock,
        failure.kind is Unsupported <==> error.kind is Unsupported,
        error.kind is BrokenPipe ==> failure.kind is NativeFailure,
{
}

/// A rejected write gives the bytes back that were not taken.
pub proof fn rejected_write_gives_its_bytes_back(
    kind: error::WriteErrorKind,
    bytes: Bytes,
    failure: Option<error::OperationError>,
    rejected: error::WriteError,
    back: Bytes,
)
    requires
        call_ensures(error::WriteError::new, (kind, bytes, failure), rejected),
        call_ensures(error::WriteError::into_bytes, (rejected,), back),
    ensures
        back == bytes,
        rejected.kind == kind,
        rejected.failure == failure,
{
}

} // verus!
