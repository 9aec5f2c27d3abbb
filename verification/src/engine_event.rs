//! What the engine tells about its sessions.
use crate::channel::{self, Channel, Wakes};
use crate::fault::{ErrorKind, IoError};
use bytes::Bytes;
use vstd::prelude::*;

verus! {

broadcast use vstd::std_specs::hash::group_hash_axioms;

/// The category of a failed operation.
#[derive(Clone, Copy, Debug, PartialEq, Eq, Structural)]
pub enum FailureKind {
    InvalidInput,
    Backpressure,
    Unsupported,
    NotFound,
    PermissionDenied,
    Infrastructure,
    Other,
}

/// A failed operation, with the operating system's code when there is one.
#[derive(Clone, Copy, Debug, PartialEq, Eq, Structural)]
pub struct Failure {
    pub kind: FailureKind,
    pub native_code: Option<i32>,
}

/// The category of an operation that failed with this kind of error.
pub open spec fn failure_kind_of(kind: ErrorKind) -> FailureKind {
    match kind {
        ErrorKind::InvalidInput | ErrorKind::InvalidData => FailureKind::InvalidInput,
        ErrorKind::WouldBlock => FailureKind::Backpressure,
        ErrorKind::Unsupported => FailureKind::Unsupported,
        ErrorKind::NotFound => FailureKind::NotFound,
        ErrorKind::PermissionDenied => FailureKind::PermissionDenied,
        ErrorKind::BrokenPipe | ErrorKind::ConnectionAborted => FailureKind::Infrastructure,
        _ => FailureKind::Other,
    }
}

impl Failure {
    /// The failure that an error stands for.
    pub fn from_io(error: &IoError) -> (failure: Failure)
        ensures
            failure.kind == failure_kind_of(error.kind),
            failure.native_code == error.code,
    {
        let kind = match error.kind() {
            ErrorKind::InvalidInput | ErrorKind::InvalidData => FailureKind::InvalidInput,
            ErrorKind::WouldBlock => FailureKind::Backpressure,
            ErrorKind::Unsupported => FailureKind::Unsupported,
            ErrorKind::NotFound => FailureKind::NotFound,
            ErrorKind::PermissionDenied => FailureKind::PermissionDenied,
            ErrorKind::BrokenPipe | ErrorKind::ConnectionAborted => FailureKind::Infrastructure,
            _ => FailureKind::Other,
        };
        Failure { kind, native_code: error.raw_os_error() }
    }
}

/// How a session's cleanup ended.
#[derive(Clone, Copy, Debug, PartialEq, Eq, Structural)]
pub struct CloseResult {
    pub input_failed: bool,
    pub output_failed: bool,
    pub cleanup_failed: bool,
}

impl Default for CloseResult {
    fn default() -> (result: Self)
        ensures
            result == (CloseResult {
                input_failed: false,
                output_failed: false,
                cleanup_failed: false,
            }),
    {
        CloseResult { input_failed: false, output_failed: false, cleanup_failed: false }
    }
}

/// One event of a session.
#[derive(Debug, PartialEq, Eq)]
pub enum Notice {
    Output { handle: u64, bytes: Bytes },
    InputFailed(u64),
    OutputFailed(u64),
    BrokerLost(u64),
    OutputDone(u64),
    Exit { handle: u64, status: i64 },
    Closed { handle: u64, result: CloseResult },
    SpawnReady { request: u64, handle: u64 },
    SpawnFailed { request: u64, failure: Failure },
    ModeChanged { handle: u64, modes: [bool; 3] },
}

/// The route of a notice: its session, or the request of a spawn that failed.
pub open spec fn route_of(notice: Notice) -> u64 {
    match notice {
        Notice::Output { handle, .. } => handle,
        Notice::InputFailed(handle) => handle,
        Notice::OutputFailed(handle) => handle,
        Notice::BrokerLost(handle) => handle,
        Notice::OutputDone(handle) => handle,
        Notice::Exit { handle, .. } => handle,
        Notice::Closed { handle, .. } => handle,
        Notice::SpawnReady { handle, .. } => handle,
        Notice::SpawnFailed { request, .. } => request,
        Notice::ModeChanged { handle, .. } => handle,
    }
}

impl Notice {
    /// The route of the notice.
    pub fn handle(&self) -> (route: u64)
        ensures
            route == route_of(*self),
    {
        match self {
            Notice::Output { handle, .. } => *handle,
            Notice::InputFailed(handle) => *handle,
            Notice::OutputFailed(handle) => *handle,
            Notice::BrokerLost(handle) => *handle,
            Notice::OutputDone(handle) => *handle,
            Notice::Exit { handle, .. } => *handle,
            Notice::Closed { handle, .. } => *handle,
            Notice::SpawnReady { handle, .. } => *handle,
            Notice::SpawnFailed { request, .. } => *request,
            Notice::ModeChanged { handle, .. } => *handle,
        }
    }

    /// Whether the notice reports a terminal mode.
    pub fn is_mode_change(&self) -> (mode: bool)
        ensures
            mode == (*self is ModeChanged),
    {
        match self {
            Notice::ModeChanged { .. } => true,
            _ => false,
        }
    }
}

/// The place of the latest mode report in a queue, or -1.
pub open spec fn last_mode(queue: Seq<Notice>) -> int
    decreases queue.len(),
{
    if queue.len() == 0 {
        -1
    } else if queue.last() is ModeChanged {
        queue.len() - 1
    } else {
        last_mode(queue.drop_last())
    }
}

/// A queue after a notice was sent. A mode report takes the place of the latest one
/// that still waits.
pub open spec fn queue_after(queue: Seq<Notice>, notice: Notice) -> Seq<Notice> {
    if notice is ModeChanged && last_mode(queue) >= 0 {
        queue.update(last_mode(queue), notice)
    } else {
        queue.push(notice)
    }
}

/// The latest mode report is where it is found, and none comes after it.
pub proof fn last_mode_is_last(queue: Seq<Notice>, index: int)
    requires
        -1 <= index < queue.len(),
        index >= 0 ==> queue[index] is ModeChanged,
        forall|j: int| index < j < queue.len() ==> !(#[trigger] queue[j] is ModeChanged),
    ensures
        last_mode(queue) == index,
    decreases queue.len(),
{
    if queue.len() > 0 && !(queue.last() is ModeChanged) {
        let front = queue.drop_last();
        assert forall|j: int| index < j < front.len() implies !(#[trigger] front[j]
            is ModeChanged) by {
            assert(front[j] == queue[j]);
        }
        last_mode_is_last(front, index);
    } else if queue.len() > 0 {
        assert(queue[queue.len() - 1] is ModeChanged);
    }
}

/// Sends a notice. The first part of the result says whether its queue grew.
pub fn send_notice<W>(notices: &mut Channel<Notice, W>, notice: Notice) -> (result: (
    bool,
    Option<Wakes<W>>,
))
    requires
        old(notices).wf(),
    ensures
        final(notices).wf(),
        final(notices).same_routes(old(notices)),
        ({
            let route = route_of(notice);
            let queue = old(notices).queue(route);
            let registered = old(notices).registered@;
            &&& forall|other: u64|
                other != route ==> #[trigger] final(notices).queue(other) == old(notices).queue(
                    other,
                )
            &&& if old(notices).refuses(route) {
                &&& !result.0
                &&& result.1 is None
                &&& final(notices).queue(route) == queue
                &&& final(notices).ready@ == old(notices).ready@
                &&& final(notices).registered@ == registered
            } else {
                &&& result.0 == (final(notices).queue(route).len() > queue.len())
                &&& final(notices).queue(route) == queue_after(queue, notice)
                &&& final(notices).ready@ == if queue.len() == 0 {
                    old(notices).ready@.push(route)
                } else {
                    old(notices).ready@
                }
                &&& final(notices).registered@ == if result.0 {
                    channel::without_waker(registered, route)
                } else {
                    registered
                }
                &&& result.1 == Some(
                    if result.0 {
                        Wakes {
                            any: queue.len() == 0,
                            receiver: channel::registered_receiver(registered, route),
                            waker: channel::registered_waker(registered, route),
                        }
                    } else {
                        Wakes { any: false, receiver: None, waker: None }
                    },
                )
            }
        }),
{
    let route: u64 = notice.handle();
    let ghost queue = notices.queue(route);
    let is_mode = notice.is_mode_change();
    if is_mode {
        let select = |waiting: &Notice| -> (selected: bool)
            ensures
                selected == (*waiting is ModeChanged),
            { waiting.is_mode_change() };
        match notices.send_coalesced(route, notice, select) {
            Ok((grew, wakes)) => {
                proof {
                    if grew {
                        assert forall|j: int| -1 < j < queue.len() implies !(#[trigger] queue[j]
                            is ModeChanged) by {
                            assert(call_ensures(select, (&queue[j],), false));
                        }
                        last_mode_is_last(queue, -1);
                    } else {
                        let i = choose|i: int|
                            {
                                &&& 0 <= i < queue.len()
                                &&& call_ensures(select, (&#[trigger] queue[i],), true)
                                &&& forall|j: int|
                                    i < j < queue.len() ==> call_ensures(
                                        select,
                                        (&#[trigger] queue[j],),
                                        false,
                                    )
                                &&& notices.queue(route) == queue.update(i, notice)
                            };
                        last_mode_is_last(queue, i);
                    }
                }
                (grew, Some(wakes))
            },
            Err(_) => (false, None),
        }
    } else {
        match notices.send(route, notice) {
            Ok(wakes) => (true, Some(wakes)),
            Err(_) => (false, None),
        }
    }
}

/// A mode report that replaces one leaves exactly one report behind the last other
/// notice: however many changes a stalled consumer misses, its queue does not grow.
pub proof fn mode_reports_coalesce(queue: Seq<Notice>, first: Notice, second: Notice)
    requires
        first is ModeChanged,
        second is ModeChanged,
    ensures
        queue_after(queue_after(queue, first), second).len() == queue_after(queue, first).len(),
        queue_after(queue_after(queue, first), second) == queue_after(queue, second),
{
    let after = queue_after(queue, first);
    let place = last_mode(queue);
    last_mode_bounds(queue);
    if place >= 0 {
        assert forall|j: int| place < j < after.len() implies !(#[trigger] after[j]
            is ModeChanged) by {
            assert(after[j] == queue[j]);
        }
        last_mode_is_last(after, place);
        assert(queue.update(place, first).update(place, second) =~= queue.update(place, second));
    } else {
        last_mode_is_last(after, queue.len() as int);
        assert(queue.push(first).update(queue.len() as int, second) =~= queue.push(second));
    }
}

/// Where the latest mode report can stand.
proof fn last_mode_bounds(queue: Seq<Notice>)
    ensures
        -1 <= last_mode(queue) < queue.len(),
        last_mode(queue) >= 0 ==> queue[last_mode(queue)] is ModeChanged,
        forall|j: int|
            last_mode(queue) < j < queue.len() ==> !(#[trigger] queue[j] is ModeChanged),
    decreases queue.len(),
{
    if queue.len() > 0 && !(queue.last() is ModeChanged) {
        let front = queue.drop_last();
        last_mode_bounds(front);
        assert forall|j: int| last_mode(queue) < j < queue.len() implies !(#[trigger] queue[j]
            is ModeChanged) by {
            if j < front.len() {
                assert(front[j] == queue[j]);
            }
        }
    }
}

/// The latest mode report stands within its queue.
pub proof fn last_mode_in_queue(queue: Seq<Notice>)
    ensures
        -1 <= last_mode(queue) < queue.len(),
        last_mode(queue) >= 0 ==> queue[last_mode(queue)] is ModeChanged,
{
    last_mode_bounds(queue);
}

} // verus!
