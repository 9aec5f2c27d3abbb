//! What C callers can rely on over several steps: a session is reached under its handle while
//! it is there, its events carry what the engine told, output stays leased until it is given
//! back, and what a pump holds is given back.
use crate::adapter::{self, Adapter, EventReleased, Next, SessionReleased, SpawnTaken, Target};
use crate::buffer;
use crate::c_api::{self, Error, Event, Platform, Reply, Size};
use crate::c_snapshot::{self, Metadata, SessionSnapshot};
use crate::c_spawn::SpawnOptions;
use crate::cleanup::Cleanup;
use crate::engine_event::{CloseResult, Failure, Notice};
use crate::fault::IoError;
use crate::pump::{self, Pump, PumpStep};
use crate::pump_table::{self, PumpTable};
use vstd::prelude::*;

verus! {

/// A spawn leads to an active session: its handle is made for the runtime, the engine's word
/// that it is ready activates it, and from then on operations reach the engine's session.
pub proof fn spawned_session_becomes_active(
    begun: &mut Adapter,
    runtime: u64,
    options: &SpawnOptions,
    taken: SpawnTaken,
    ready: &mut Adapter,
    size: u32,
    engine_handle: u64,
    step: Next,
    activated: &mut Adapter,
    next: Next,
    target: Result<Target, u32>,
)
    requires
        old(begun).wf(),
        call_ensures(
            Adapter::begin_spawn,
            (begun, runtime, true, Some(options)),
            Ok::<SpawnTaken, Reply>(taken),
        ),
        *old(ready) == *final(begun),
        call_ensures(
            Adapter::take_notice,
            (
                ready,
                runtime,
                size,
                engine_handle,
                Some(Notice::SpawnReady { request: taken.session, handle: engine_handle }),
            ),
            step,
        ),
        *old(activated) == *final(ready),
        call_ensures(
            Adapter::after_activate,
            (activated, runtime, size, taken.session, engine_handle, true),
            next,
        ),
        call_ensures(Adapter::active_session, (&*final(activated), taken.session), target),
    ensures
        old(begun).session(taken.session) is None,
        step == (Next::Activate { request: taken.session, engine_handle }),
        next matches Next::Deliver(event) && event.kind == 1 && event.session == taken.session,
        target == Ok::<Target, u32>(Target { runtime, engine_handle }),
        final(activated).public(runtime, engine_handle) == Some(taken.session),
{
}

/// A session that is released while it spawns is not left running: the engine's session is
/// given up when it comes.
pub proof fn released_spawn_is_given_up(
    released: &mut Adapter,
    session: u64,
    answer: SessionReleased,
    ready: &mut Adapter,
    runtime: u64,
    size: u32,
    engine_handle: u64,
    step: Next,
)
    requires
        old(released).wf(),
        session != 0,
        old(released).session(session) is Some,
        call_ensures(Adapter::ptyx_session_release, (released, Some(session)), answer),
        *old(ready) == *final(released),
        call_ensures(
            Adapter::take_notice,
            (
                ready,
                runtime,
                size,
                engine_handle,
                Some(Notice::SpawnReady { request: session, handle: engine_handle }),
            ),
            step,
        ),
    ensures
        answer.reply.status == 0 && answer.session == 0,
        step == Next::Abandon(engine_handle),
{
}

/// A released session is gone: every operation on it finds a stale handle, and an active one
/// is given up.
pub proof fn released_session_is_gone(
    adapter: &mut Adapter,
    session: u64,
    answer: SessionReleased,
    before: Result<Target, u32>,
    after: Result<Target, u32>,
    operation: u32,
    required: Result<Target, Reply>,
)
    requires
        old(adapter).wf(),
        session != 0,
        old(adapter).session(session) is Some,
        call_ensures(Adapter::active_session, (&*old(adapter), session), before),
        call_ensures(Adapter::ptyx_session_release, (adapter, Some(session)), answer),
        call_ensures(Adapter::active_session, (&*final(adapter), session), after),
        call_ensures(Adapter::require_active, (&*final(adapter), session, operation), required),
    ensures
        after == Err::<Target, u32>(2),
        required matches Err(reply) && reply.status == 2 && reply.error.operation == operation,
        before matches Ok(target) ==> answer.abandon == Some(target),
        before is Err ==> answer.abandon is None,
        forall|other: u64|
            other != session ==> #[trigger] final(adapter).session(other) == old(adapter).session(
                other,
            ),
{
}

/// Output is shown with its length and a token, stays leased until the event is given back,
/// and is credited in full to the engine's session that it came from, once.
pub proof fn output_is_credited_once(
    taken: &mut Adapter,
    runtime: u64,
    size: u32,
    route: u64,
    handle: u64,
    bytes: bytes::Bytes,
    session: u64,
    event: Event,
    released: &mut Adapter,
    answer: EventReleased,
    again: &mut Adapter,
    second: EventReleased,
)
    requires
        old(taken).wf(),
        size >= 136,
        buffer::bytes_of(bytes).len() <= u64::MAX,
        old(taken).public(runtime, route) == Some(session),
        call_ensures(
            Adapter::take_notice,
            (taken, runtime, size, route, Some(Notice::Output { handle, bytes })),
            Next::Deliver(event),
        ),
        event.token != 0,
        *old(released) == *final(taken),
        call_ensures(Adapter::ptyx_event_release, (released, Some(event)), answer),
        *old(again) == *final(released),
        call_ensures(Adapter::ptyx_event_release, (again, Some(event)), second),
    ensures
        event.kind == 3 && event.session == session && event.data_length == buffer::bytes_of(
            bytes,
        ).len(),
        answer.reply.status == 0,
        answer.credit matches Some(credit) && credit.0 == (Target {
            runtime,
            engine_handle: route,
        }) && credit.1 == buffer::bytes_of(bytes).len(),
        second.credit is None && second.reply.status == 2,
{
}

/// An exit is shown with the status that the engine told, under the session of its route.
pub proof fn exit_is_shown_as_told(
    adapter: &mut Adapter,
    runtime: u64,
    size: u32,
    route: u64,
    status: i64,
    session: u64,
    next: Next,
)
    requires
        old(adapter).wf(),
        old(adapter).public(runtime, route) == Some(session),
        call_ensures(
            Adapter::take_notice,
            (adapter, runtime, size, route, Some(Notice::Exit { handle: route, status })),
            next,
        ),
    ensures
        next matches Next::Deliver(event) && event.kind == 8 && event.value == status
            && event.session == session && event.token == 0,
        final(adapter).public(runtime, route) == Some(session),
{
}

/// A close is shown with what failed, and is the last event of its session: nothing that the
/// engine tells of it later is shown.
pub proof fn close_is_the_last_event(
    closed: &mut Adapter,
    runtime: u64,
    size: u32,
    route: u64,
    result: CloseResult,
    session: u64,
    next: Next,
    later: &mut Adapter,
    notice: Notice,
    after: Next,
)
    requires
        old(closed).wf(),
        old(closed).public(runtime, route) == Some(session),
        call_ensures(
            Adapter::take_notice,
            (closed, runtime, size, route, Some(Notice::Closed { handle: route, result })),
            next,
        ),
        *old(later) == *final(closed),
        !(notice is SpawnReady) && !(notice is SpawnFailed),
        call_ensures(Adapter::take_notice, (later, runtime, size, route, Some(notice)), after),
    ensures
        next matches Next::Deliver(event) && event.kind == 9 && event.session == session
            && event.flags == (if result.input_failed {
            1int
        } else {
            0
        }) + (if result.output_failed {
            2int
        } else {
            0
        }) + (if result.cleanup_failed {
            4int
        } else {
            0
        }),
        after == Next::Receive,
{
}

/// The flags of a close say exactly what failed, and its failure is there exactly when
/// something did.
pub proof fn close_flags_say_what_failed(result: CloseResult, flags: u32, error: Error)
    requires
        call_ensures(c_api::close_flags, (result,), flags),
        call_ensures(c_api::close_error, (result,), error),
    ensures
        flags % 2 == 1 <==> result.input_failed,
        (flags / 2) % 2 == 1 <==> result.output_failed,
        (flags / 4) % 2 == 1 <==> result.cleanup_failed,
        flags < 8,
        error.kind == 0 <==> flags == 0,
        flags != 0 ==> error.operation == 9,
{
}

/// The bits of a terminal mode say exactly which flags are set.
pub proof fn mode_bits_say_what_is_set(modes: [bool; 3], bits: u32)
    requires
        call_ensures(c_api::mode_bits, (modes,), bits),
    ensures
        bits % 2 == 1 <==> modes[0],
        (bits / 2) % 2 == 1 <==> modes[1],
        (bits / 4) % 2 == 1 <==> modes[2],
        bits < 8,
{
}

/// Writes are answered as the engine answered them: accepted, no room now, closed, or lost.
pub proof fn writes_are_answered_as_told(code: i64, reply: Reply)
    requires
        call_ensures(adapter::write_reply, (code,), reply),
    ensures
        reply.status == 0 <==> code == 1,
        reply.status == 4 <==> code == 0,
        reply.status == 6 <==> code == -1,
        code != 1 && code != 0 && code != -1 ==> reply.status == 10,
        code == 1 ==> reply.error.kind == 0,
        code != 1 ==> reply.error.operation == 4 && reply.error.kind != 0,
{
}

/// A write reaches the engine's session of an active session, whatever its length; nothing to
/// write is accepted without asking, and a missing buffer is refused.
pub proof fn write_reaches_its_session(
    adapter: &Adapter,
    session: u64,
    length: u64,
    has_bytes: bool,
    contended: bool,
    controls: &mut adapter::TestControls,
    result: Result<Option<Target>, Reply>,
    active: Result<Target, u32>,
)
    requires
        !old(controls).fail_next_write,
        call_ensures(
            Adapter::begin_write,
            (adapter, session, length, has_bytes, contended, controls),
            result,
        ),
        call_ensures(Adapter::active_session, (adapter, session), active),
    ensures
        length > 0 && !has_bytes || length > isize::MAX ==> (result matches Err(reply)
            && reply.status == 1),
        has_bytes && length <= isize::MAX && contended ==> (result matches Err(reply)
            && reply.status == 4),
        has_bytes && 0 < length <= isize::MAX && !contended ==> match active {
            Ok(target) => result == Ok::<Option<Target>, Reply>(Some(target)),
            Err(status) => result matches Err(reply) && reply.status == status,
        },
        length == 0 && !contended && active is Ok ==> result == Ok::<Option<Target>, Reply>(None),
{
}

/// A resize reaches the engine's session of an active session for every size that a terminal
/// can have, and for no other.
pub proof fn resize_is_checked(
    adapter: &Adapter,
    session: u64,
    size: Size,
    result: Result<Target, Reply>,
    active: Result<Target, u32>,
)
    requires
        call_ensures(Adapter::begin_resize, (adapter, session, Some(size)), result),
        call_ensures(Adapter::active_session, (adapter, session), active),
    ensures
        1 <= size.rows <= 32767 && 1 <= size.columns <= 32767 && size.pixel_width <= 65535
            && size.pixel_height <= 65535 ==> match active {
            Ok(target) => result == Ok::<Target, Reply>(target),
            Err(status) => result matches Err(reply) && reply.status == status,
        },
        !(1 <= size.rows <= 32767 && 1 <= size.columns <= 32767 && size.pixel_width <= 65535
            && size.pixel_height <= 65535) ==> (result matches Err(reply) && reply.status == 1),
{
}

/// A close is asked of the engine once, and is accepted again without asking.
pub proof fn close_is_asked_once(
    adapter: &mut Adapter,
    session: u64,
    first: Result<Option<Target>, Reply>,
    reply: Reply,
    again: Result<Option<Target>, Reply>,
    active: Result<Target, u32>,
)
    requires
        old(adapter).wf(),
        call_ensures(Adapter::active_session, (&*old(adapter), session), active),
        active is Ok,
        old(adapter).session(session) matches Some(entry) && !entry.close_started,
        call_ensures(Adapter::begin_close, (&*old(adapter), session), first),
        call_ensures(Adapter::after_close, (adapter, session, Ok::<(), IoError>(())), reply),
        call_ensures(Adapter::begin_close, (&*final(adapter), session), again),
    ensures
        first == Ok::<Option<Target>, Reply>(Some(active->Ok_0)),
        reply.status == 0,
        again == Ok::<Option<Target>, Reply>(None),
{
}

/// A close that failed can be asked for again, and is answered with the platform's code.
pub proof fn failed_close_can_be_asked_again(
    adapter: &mut Adapter,
    session: u64,
    error: IoError,
    code: i32,
    reply: Reply,
    before: Result<Option<Target>, Reply>,
    again: Result<Option<Target>, Reply>,
)
    requires
        old(adapter).wf(),
        error.code == Some(code),
        !(error.kind is InvalidInput) && !(error.kind is InvalidData),
        call_ensures(Adapter::begin_close, (&*old(adapter), session), before),
        call_ensures(Adapter::after_close, (adapter, session, Err::<(), IoError>(error)), reply),
        call_ensures(Adapter::begin_close, (&*final(adapter), session), again),
    ensures
        reply.status != 0,
        reply.error.native_code == code,
        reply.error.operation == 9,
        again == before,
{
}

/// A runtime is released exactly when it is shut down and neither a session nor an event of it
/// is held; otherwise it stays.
pub proof fn runtime_outlives_what_it_holds(
    adapter: &mut Adapter,
    runtime: u64,
    result: (Reply, Option<u64>),
    shutdown: Result<bool, Reply>,
)
    requires
        old(adapter).wf(),
        runtime != 0,
        old(adapter).runtime(runtime) is Some,
        call_ensures(Adapter::ptyx_runtime_release, (adapter, Some(runtime)), result),
        call_ensures(Adapter::begin_shutdown, (&*final(adapter), runtime), shutdown),
    ensures
        ({
            let entry = old(adapter).runtime(runtime).unwrap();
            let free = entry.shut_down && old(adapter).session_total(runtime) == 0 && old(adapter).event_total(runtime) == 0;
            &&& free ==> result.0.status == 0 && result.1 == Some(0u64) && shutdown is Err
            &&& !free ==> result.0.status == 8 && result.1 == Some(runtime) && shutdown == Ok::<
                bool,
                Reply,
            >(!entry.shut_down)
        }),
{
    assert(old(adapter).counts_ok(runtime));
}

/// A runtime has one consumer of events at a time.
pub proof fn events_have_one_consumer(
    first: &mut Adapter,
    runtime: u64,
    event: &Event,
    taken: Reply,
    second: &mut Adapter,
    busy: Reply,
    ended: &mut Adapter,
    third: &mut Adapter,
    again: Reply,
)
    requires
        old(first).wf(),
        event.struct_size >= 136,
        event.token == 0,
        old(first).runtime(runtime) matches Some(entry) && !entry.consuming,
        call_ensures(Adapter::begin_next_event, (first, runtime, Some(event)), taken),
        *old(second) == *final(first),
        call_ensures(Adapter::begin_next_event, (second, runtime, Some(event)), busy),
        *old(ended) == *final(second),
        call_ensures(Adapter::end_next_event, (ended, runtime), ()),
        *old(third) == *final(ended),
        call_ensures(Adapter::begin_next_event, (third, runtime, Some(event)), again),
    ensures
        taken.status == 0,
        busy.status == 8,
        again.status == 0,
{
}

/// An error keeps the operation and the platform's code, and its category tells an argument
/// that can be corrected from a failure of the system.
pub proof fn errors_keep_their_code(operation: u32, error: &IoError, result: (u32, Error))
    requires
        call_ensures(c_api::io_error, (operation, error), result),
    ensures
        result.1.operation == operation,
        result.0 == 1 <==> error.kind is InvalidInput || error.kind is InvalidData,
        result.0 == 5 <==> error.kind is Unsupported,
        result.0 != 0,
        result.0 != 1 ==> (error.code matches Some(code) ==> result.1.native_code == code) && (
        error.code is None ==> result.1.native_code == 0),
{
}

/// A failed spawn is shown under its request, with the engine's reason and code.
pub proof fn failed_spawn_is_shown(
    adapter: &mut Adapter,
    runtime: u64,
    size: u32,
    route: u64,
    request: u64,
    failure: Failure,
    next: Next,
    state: Result<Target, u32>,
)
    requires
        old(adapter).wf(),
        old(adapter).session(request) matches Some(entry) && entry.runtime == runtime
            && entry.state is Spawning,
        call_ensures(
            Adapter::take_notice,
            (adapter, runtime, size, route, Some(Notice::SpawnFailed { request, failure })),
            next,
        ),
        call_ensures(Adapter::active_session, (&*final(adapter), request), state),
    ensures
        next matches Next::Deliver(event) && event.kind == 2 && event.session == request
            && event.error.operation == 3 && (failure.native_code matches Some(code)
            ==> event.error.native_code == code) && (failure.kind is InvalidInput
            <==> event.error.kind == 1) && (failure.kind is Infrastructure <==> event.error.kind
            == 8),
        state == Err::<Target, u32>(3),
{
}

/// A snapshot shows the engine's metadata, and says which parts there are; a name is stored
/// whole or not at all, with its length told in any case.
pub proof fn snapshot_shows_the_session(
    snapshot: &mut SessionSnapshot,
    metadata: Metadata,
    reply: Reply,
)
    requires
        call_ensures(c_snapshot::fill_snapshot, (snapshot, Some(metadata)), reply),
        old(snapshot).tty_name_capacity == 0 || old(snapshot).tty_name is Some,
        old(snapshot).tty_name matches Some(storage) ==> storage@.len() >= old(snapshot).tty_name_capacity,
        old(snapshot).tty_name_capacity <= usize::MAX,
        metadata.tty_name matches Some(name) ==> name@.len() <= u64::MAX,
    ensures
        final(snapshot).pid == metadata.pid,
        final(snapshot).size.rows == metadata.size[0],
        final(snapshot).size.columns == metadata.size[1],
        final(snapshot).size.pixel_width == metadata.size[2],
        final(snapshot).size.pixel_height == metadata.size[3],
        final(snapshot).flags % 2 == 1 <==> metadata.mode is Some,
        final(snapshot).flags / 2 == 1 <==> metadata.tty_name is Some,
        final(snapshot).flags < 4,
        metadata.mode matches Some(modes) ==> (final(snapshot).modes % 2 == 1 <==> modes[0]) && ((
        final(snapshot).modes / 2) % 2 == 1 <==> modes[1]) && ((final(snapshot).modes / 4) % 2 == 1
            <==> modes[2]),
        metadata.tty_name matches Some(name) ==> {
            &&& final(snapshot).tty_name_required == name@.len()
            &&& name@.len() <= old(snapshot).tty_name_capacity ==> reply.status == 0
            &&& name@.len() > old(snapshot).tty_name_capacity ==> reply.status == 11 && final(snapshot).tty_name == old(snapshot).tty_name
            &&& 0 < name@.len() <= old(snapshot).tty_name_capacity ==> (
            final(snapshot).tty_name matches Some(storage) && storage@.len() >= name@.len()
                && storage@.take(name@.len() as int) == name@)
        },
        metadata.tty_name is None ==> reply.status == 0,
{
    if let Some(name) = metadata.tty_name {
        if 0 < name@.len() <= old(snapshot).tty_name_capacity {
            let storage = final(snapshot).tty_name.unwrap();
            assert(storage@.take(name@.len() as int) =~= name@);
        }
    }
}

/// Signals, process groups, modes and names are there on Unix, and a pseudo console on
/// Windows; modes can be observed exactly where the capabilities say so.
pub proof fn capabilities_match_the_platform(platform: Platform, bits: u32, modes: bool)
    requires
        call_ensures(c_api::capabilities, (platform,), bits),
        call_ensures(c_api::has_terminal_modes, (platform,), modes),
    ensures
        platform is Unix ==> bits == 1 + 2 + 4 + 16,
        platform is Windows ==> bits == 8,
        modes <==> (bits / 4) % 2 == 1,
        modes <==> platform is Unix,
{
    assert(23u32 & 4u32 != 0 && 8u32 & 4u32 == 0) by (bit_vector);
}

/// Output that was posted is held until it is acknowledged, and acknowledged once.
pub proof fn posted_output_is_held_until_acknowledged<F: FnOnce() -> u32, G: FnOnce() -> u32>(
    taken: &mut Pump,
    event: &Event,
    step: PumpStep,
    posted: &mut Pump,
    next: PumpStep,
    acknowledged: &mut Pump,
    release: F,
    status: u32,
    again: &mut Pump,
    second: G,
    stale: u32,
)
    requires
        event.kind == 3,
        call_ensures(Pump::after_next_event, (taken, 0u32, event, true), step),
        step is Post,
        *old(posted) == *final(taken),
        call_ensures(Pump::after_post, (posted, event, true), next),
        *old(acknowledged) == *final(posted),
        call_ensures(Pump::acknowledge_token::<F>, (acknowledged, event.token, release), status),
        *old(again) == *final(acknowledged),
        call_ensures(Pump::acknowledge_token::<G>, (again, event.token, second), stale),
    ensures
        event.token != 0 && event.data_length > 0,
        next is Wait,
        final(posted).outstanding@.contains(event.token),
        call_ensures(release, (), status),
        status == 0 ==> !final(acknowledged).outstanding@.contains(event.token) && stale == 2,
        status != 0 && status != 2 ==> call_ensures(second, (), stale),
{
}

/// Output that could not be posted or acknowledged is not forgotten: it stays to be given
/// back.
pub proof fn unreleased_output_is_kept<F: FnOnce() -> u32>(
    pump: &mut Pump,
    token: u64,
    release: F,
    status: u32,
    failed: &mut Pump,
    failure: u32,
)
    requires
        old(pump).outstanding@.contains(token),
        call_ensures(Pump::acknowledge_token::<F>, (pump, token, release), status),
        status != 0 && status != 2,
        token != 0,
        failure != 0 && failure != 2,
        call_ensures(Pump::after_release, (failed, token, failure), ()),
    ensures
        final(pump).outstanding@ == old(pump).outstanding@,
        final(failed).outstanding@.contains(token),
{
}

/// A pump that is stopping posts nothing more, and one that ends by itself says so.
pub proof fn stopped_pump_posts_nothing(
    stopped: &mut Pump,
    waited: &mut Pump,
    started: bool,
    taken: &mut Pump,
    status: u32,
    event: &Event,
    has_data: bool,
    step: PumpStep,
)
    requires
        call_ensures(Pump::stop, (stopped,), ()),
        *old(waited) == *final(stopped),
        call_ensures(Pump::begin_event_wait, (waited,), started),
        *old(taken) == *final(stopped),
        call_ensures(Pump::after_next_event, (taken, status, event, has_data), step),
    ensures
        !started,
        step == (PumpStep::Release { report: false }) || step == (PumpStep::End { report: false }),
        status == 0 <==> step is Release,
{
}

/// A session that a pump started is tracked until it is given back, and the pump gives back
/// the session of a failed spawn or a completed close by itself.
pub proof fn tracked_session_is_given_back<F: FnOnce() -> u32>(
    started: &mut Pump,
    session: u64,
    released: &mut Pump,
    release: F,
    status: u32,
    posted: &mut Pump,
    event: &Event,
    step: PumpStep,
)
    requires
        call_ensures(Pump::after_spawn_start, (started, 0u32, session), ()),
        *old(released) == *final(started),
        call_ensures(Pump::release_tracked_session::<F>, (released, session, release), status),
        call_ensures(Pump::after_post, (posted, event, true), step),
    ensures
        final(started).sessions@.contains(session),
        call_ensures(release, (), status),
        final(released).sessions@.contains(session) <==> status != 0 && status != 2,
        event.kind == 2 || event.kind == 9 <==> step == PumpStep::ReleaseSession(event.session),
{
}

/// A cleanup gives back everything that the pump holds: each token and session is named once,
/// and exactly those that could be given back leave.
pub proof fn cleanup_gives_everything_back(
    pump: &mut Pump,
    held: (Vec<u64>, Vec<u64>),
    statuses: &Vec<u32>,
    status: u32,
    token: u64,
)
    requires
        call_ensures(Pump::snapshot, (&*old(pump),), held),
        statuses@.len() == held.0@.len(),
        call_ensures(Pump::settle_events, (pump, &held.0, statuses), status),
        forall|i: int|
            0 <= i < statuses@.len() ==> (#[trigger] statuses@[i] == 0 || statuses@[i] == 2),
    ensures
        held.0@.contains(token) <==> old(pump).outstanding@.contains(token),
        held.1@.contains(token) <==> old(pump).sessions@.contains(token),
        final(pump).outstanding@ == Set::<u64>::empty(),
        final(pump).sessions@ == old(pump).sessions@,
        status == 0,
{
    assert(held.0@.to_set().contains(token) == old(pump).outstanding@.contains(token));
    assert(held.1@.to_set().contains(token) == old(pump).sessions@.contains(token));
    assert forall|i: int| 0 <= i < statuses@.len() implies crate::cleanup::settled(
        #[trigger] statuses@[i],
    ) by {}
    pump::complete_cleanup_empties(old(pump).outstanding@, held.0@, statuses@);
    settled_is_no_failure(statuses@);
}

/// Where everything is settled there is no failure.
proof fn settled_is_no_failure(statuses: Seq<u32>)
    requires
        forall|i: int| 0 <= i < statuses.len() ==> crate::cleanup::settled(#[trigger] statuses[i]),
    ensures
        pump::last_failure(statuses) == 0,
    decreases statuses.len(),
{
    if statuses.len() > 0 {
        assert(statuses.last() == statuses[statuses.len() - 1]);
        assert forall|i: int| 0 <= i < statuses.drop_last().len() implies crate::cleanup::settled(
            #[trigger] statuses.drop_last()[i],
        ) by {
            assert(statuses.drop_last()[i] == statuses[i]);
        }
        settled_is_no_failure(statuses.drop_last());
    }
}

/// A runtime has one pump at a time: a second one is refused until the first is forgotten.
pub proof fn runtime_has_one_pump(
    first: &mut PumpTable,
    runtime: u64,
    port: i64,
    handle: u64,
    second: &mut PumpTable,
    refused: Result<u64, Reply>,
    removed: &mut PumpTable,
    third: &mut PumpTable,
    again: Result<u64, Reply>,
)
    requires
        old(first).wf(),
        call_ensures(PumpTable::attach, (first, runtime, port), Ok::<u64, Reply>(handle)),
        *old(second) == *final(first),
        call_ensures(PumpTable::attach, (second, runtime, port), refused),
        *old(removed) == *final(first),
        call_ensures(PumpTable::remove, (removed, handle), ()),
        *old(third) == *final(removed),
        call_ensures(PumpTable::attach, (third, runtime, port), again),
    ensures
        final(first).pump(handle) matches Some(pump) && pump.runtime == runtime && pump.port
            == port && !pump.stopping,
        refused matches Err(reply) && reply.status == 3,
        again is Ok,
{
    assert(pump_table::uses(old(second).pump(handle), runtime));
    assert forall|other: u64| !pump_table::uses(#[trigger] old(third).pump(other), runtime) by {
        if other != handle {
            assert(old(third).pump(other) == old(first).pump(other));
            assert(!pump_table::uses(old(first).pump(other), runtime));
        }
    }
}

/// A pump is forgotten when it was stopped and cleaned up; otherwise it stays, and its cleanup
/// is tried again.
pub proof fn unclean_pump_is_tried_again(
    table: &mut PumpTable,
    handle: u64,
    stopped: u32,
    cleaned: u32,
    result: (u32, u64, Option<Cleanup>),
)
    requires
        handle != 0,
        call_ensures(PumpTable::after_detach, (table, handle, stopped, cleaned), result),
    ensures
        stopped == 0 && cleaned == 0 <==> result.0 == 0,
        result.0 == 0 ==> final(table).pump(handle) is None && result.1 == 0 && result.2 is None,
        result.0 != 0 ==> final(table).pump(handle) == old(table).pump(handle) && result.1
            == handle && result.2 == Some(Cleanup::Adapter(handle)),
        cleaned != 0 ==> result.0 == cleaned,
{
}

/// A spawn through a pump is for the pump's runtime, and none is taken by a pump that stops.
pub proof fn pump_spawns_for_its_runtime(
    table: &PumpTable,
    handle: u64,
    result: Result<u64, Reply>,
)
    requires
        call_ensures(PumpTable::begin_spawn, (table, handle, true, true), result),
    ensures
        match table.pump(handle) {
            Some(pump) => if pump.stopping {
                result matches Err(reply) && reply.status == 3
            } else {
                result == Ok::<u64, Reply>(pump.runtime)
            },
            None => result matches Err(reply) && reply.status == 2,
        },
{
}

/// An acknowledgement that failed is tried again; one that succeeded, or of a token that is
/// gone, is not.
pub proof fn failed_acknowledgement_is_tried_again(
    adapter: u64,
    token: u64,
    status: u32,
    error: Error,
    result: (Reply, Option<Cleanup>),
)
    requires
        call_ensures(pump_table::ack_reply, (adapter, token, status, error), result),
    ensures
        result.0.status == status,
        result.1 is None <==> status == 0 || status == 2,
        result.1 is Some ==> result.1 == Some(Cleanup::Event { adapter, token }),
{
}

/// A spawn with acceptable options is taken by a runtime that is not shut down, for a session
/// that is new; otherwise it is answered with the reason, and nothing changes.
pub proof fn acceptable_spawn_is_taken(
    adapter: &mut Adapter,
    runtime: u64,
    options: &SpawnOptions,
    result: Result<SpawnTaken, Reply>,
)
    requires
        old(adapter).wf(),
        call_ensures(Adapter::begin_spawn, (adapter, runtime, true, Some(options)), result),
    ensures
        result is Ok <==> (old(adapter).runtime(runtime) matches Some(entry) && !entry.shut_down)
            && options.accepted(),
        old(adapter).runtime(runtime) is None ==> (result matches Err(reply) && reply.status == 2),
        (old(adapter).runtime(runtime) matches Some(entry) && entry.shut_down) ==> (
        result matches Err(reply) && reply.status == 6),
        (old(adapter).runtime(runtime) matches Some(entry) && !entry.shut_down)
            && !options.accepted() ==> (result matches Err(reply) && reply.status == 1),
        result matches Ok(taken) ==> options.describes(&taken.config) && taken.input_capacity
            == options.input_capacity && taken.output_capacity == options.output_capacity,
{
}

/// Output of a session that is known is delivered under a token of its own.
pub proof fn output_is_delivered(
    adapter: &mut Adapter,
    runtime: u64,
    size: u32,
    route: u64,
    handle: u64,
    bytes: bytes::Bytes,
    session: u64,
    next: Next,
)
    requires
        old(adapter).wf(),
        old(adapter).public(runtime, route) == Some(session),
        call_ensures(
            Adapter::take_notice,
            (adapter, runtime, size, route, Some(Notice::Output { handle, bytes })),
            next,
        ),
    ensures
        next matches Next::Deliver(event) && event.token != 0 && old(adapter).events.resolve(
            event.token,
        ) is None && (final(adapter).events.resolve(event.token) matches Some(lease)
            && lease.bytes == bytes),
{
    let event = next->Deliver_0;
    assert(crate::handle::handle_parts_of(event.token) is Some);
}

/// A runtime that no pump uses gets one.
pub proof fn free_runtime_gets_a_pump(
    table: &mut PumpTable,
    runtime: u64,
    port: i64,
    result: Result<u64, Reply>,
)
    requires
        old(table).wf(),
        call_ensures(PumpTable::attach, (table, runtime, port), result),
        forall|other: u64|
            (#[trigger] old(table).pump(other)) matches Some(pump) ==> pump.runtime != runtime,
    ensures
        result matches Ok(handle) && old(table).pump(handle) is None && (
        final(table).pump(handle) matches Some(pump) && pump.runtime == runtime && pump.port
            == port && pump.handle == handle),
{
}

/// Notices that say how a session stands are shown as the event of their kind, under the
/// session that they are about.
pub proof fn notices_are_shown_by_kind(
    adapter: &mut Adapter,
    runtime: u64,
    size: u32,
    route: u64,
    notice: Notice,
    session: u64,
    next: Next,
)
    requires
        old(adapter).wf(),
        old(adapter).public(runtime, route) == Some(session),
        call_ensures(Adapter::take_notice, (adapter, runtime, size, route, Some(notice)), next),
    ensures
        notice is InputFailed ==> (next matches Next::Deliver(event) && event.kind == 4
            && event.session == session && event.error.operation == 4 && event.error.domain == 3),
        notice is OutputFailed ==> (next matches Next::Deliver(event) && event.kind == 5
            && event.session == session && event.error.operation == 5 && event.error.domain == 4),
        notice is BrokerLost ==> (next matches Next::Deliver(event) && event.kind == 6
            && event.session == session && event.error.kind == 8),
        notice is OutputDone ==> (next matches Next::Deliver(event) && event.kind == 7
            && event.session == session && event.error.kind == 0),
        notice matches Notice::ModeChanged { modes, .. } ==> (next matches Next::Deliver(event)
            && event.kind == 10 && event.session == session && event.value == (if modes[0] {
            1int
        } else {
            0
        }) + (if modes[1] {
            2int
        } else {
            0
        }) + (if modes[2] {
            4int
        } else {
            0
        })),
{
}

/// A notice about a session that is not known is dropped.
pub proof fn unknown_notices_are_dropped(
    adapter: &mut Adapter,
    runtime: u64,
    size: u32,
    route: u64,
    notice: Notice,
    next: Next,
    session: u64,
)
    requires
        old(adapter).wf(),
        old(adapter).public(runtime, route) is None,
        !(notice is SpawnReady) && !(notice is SpawnFailed),
        call_ensures(Adapter::take_notice, (adapter, runtime, size, route, Some(notice)), next),
    ensures
        next == Next::Receive,
        final(adapter).session(session) == old(adapter).session(session),
{
}

/// A failure's text is written whole, with a zero behind it where there is room, or not at all;
/// its length is told in any case.
pub proof fn texts_are_written_whole(
    error: &Error,
    capacity: u64,
    formatted: c_api::Formatted,
    empty: c_api::Formatted,
)
    requires
        error.struct_size >= 64,
        capacity <= usize::MAX,
        call_ensures(c_api::ptyx_error_format, (Some(error), true, capacity), formatted),
        call_ensures(c_api::ptyx_error_format, (Some(error), true, 0u64), empty),
    ensures
        formatted.required is Some && formatted.required == empty.required,
        formatted.status == 0 || formatted.status == 11,
        formatted.status == 11 ==> formatted.written@.len() == 0,
        formatted.status == 0 ==> formatted.written@.len() <= capacity,
{
}

/// A failure is stored where the caller's layout has room for it, and nowhere else.
pub proof fn failures_are_stored_where_they_fit(
    stored: &mut Error,
    value: Error,
    cleared: &mut Error,
    valid: bool,
)
    requires
        call_ensures(c_api::error_is_valid, (Some(&*old(stored)),), valid),
        call_ensures(c_api::set_error, (stored, value), ()),
        *old(cleared) == *final(stored),
        value.struct_size >= 64,
        call_ensures(c_api::clear_error, (cleared,), ()),
    ensures
        valid <==> old(stored).struct_size >= 64,
        valid ==> *final(stored) == value && final(cleared).kind == 0 && final(cleared).domain == 0
            && final(cleared).native_code == 0,
        !valid ==> *final(stored) == *old(stored) && *final(cleared) == *old(stored),
{
}

/// A broker that the options name is the one that is used, and none is used where they name
/// none.
pub proof fn named_broker_is_used(
    options: &c_api::RuntimeOptions,
    result: Result<Option<Vec<u8>>, Reply>,
)
    requires
        options.broker_path.readable(),
        options.broker_path.length <= isize::MAX,
        call_ensures(Adapter::begin_create, (true, Some(options)), result),
    ensures
        options.struct_size < 56 || options.flags != 0 ==> (result matches Err(reply)
            && reply.status == 1),
        result matches Ok(Some(path)) ==> path@.len() == options.broker_path.length && path@.len()
            > 0 && (options.broker_path.data matches Some(data) && path@ == data@.take(
            path@.len() as int,
        )),
        result matches Ok(None) ==> options.broker_path.length == 0,
{
}

/// A runtime that was made is found under its handle until it is released.
pub proof fn made_runtime_is_found(
    adapter: &mut Adapter,
    created: Result<bool, IoError>,
    result: (Reply, u64),
    shutdown: Result<bool, Reply>,
)
    requires
        old(adapter).wf(),
        call_ensures(Adapter::after_create, (adapter, created), result),
        call_ensures(Adapter::begin_shutdown, (&*final(adapter), result.1), shutdown),
    ensures
        created == Ok::<bool, IoError>(true) ==> result.0.status == 0 && shutdown == Ok::<
            bool,
            Reply,
        >(true) && old(adapter).runtime(result.1) is None,
        created != Ok::<bool, IoError>(true) ==> result.0.status != 0 && result.1 == 0,
{
}

} // verus!
