use bytes::Bytes;
use ptyx::channel::{Channel, Received, ReceiverClosed, Wakes};
use ptyx::control::{complete_wake, Control, ControlQueue, WakeGate, MAX_CONTROL_ENTRIES};
use ptyx::engine_event::{send_notice, Notice};
use ptyx::fault::{ErrorKind, IoError};
use ptyx::oneshot::{Completion, CompletionClosed, Oneshot, Polled};
use ptyx::reactor::RuntimeCounters;
use std::collections::VecDeque;

#[test]
fn event_rotates_ready_sessions_after_each_event() {
    let mut channel: Channel<&str, u32> = Channel::new();
    channel.send(1, "first").unwrap();
    channel.send(1, "second").unwrap();
    channel.send(2, "peer").unwrap();

    let first = channel.recv();
    let peer = channel.recv();
    let second = channel.recv();

    assert_eq!(first, Received::Event((1, "first")));
    assert_eq!(peer, Received::Event((2, "peer")));
    assert_eq!(second, Received::Event((1, "second")));
}

#[test]
fn event_coalesced_events_keep_only_the_latest_pending_state() {
    let mut channel: Channel<&str, u32> = Channel::new();
    channel.send(7, "output").unwrap();
    let (grew, _) = channel
        .send_coalesced(7, "mode-1", |event: &&str| event.starts_with("mode"))
        .unwrap();
    assert!(grew);
    let (grew, _) = channel
        .send_coalesced(7, "mode-2", |event: &&str| event.starts_with("mode"))
        .unwrap();
    assert!(!grew);

    assert_eq!(channel.recv(), Received::Event((7, "output")));
    assert_eq!(channel.recv(), Received::Event((7, "mode-2")));
}

#[test]
fn event_coalescing_bounds_a_stalled_state_consumer() {
    let mut channel: Channel<i32, u32> = Channel::new();
    for state in 0..100_000 {
        let (inserted, _) = channel
            .send_coalesced(7, state, |_: &i32| true)
            .expect("event channel remains open");
        assert_eq!(inserted, state == 0);
    }

    assert_eq!(channel.recv(), Received::Event((7, 99_999)));
    assert!(channel.drop_sender());
    assert_eq!(channel.recv(), Received::Closed);
}

#[test]
fn event_session_poll_replaces_stale_waker_without_missing_delivery() {
    let mut channel: Channel<&str, u32> = Channel::new();
    let session = channel.session(7).expect("register session receiver");

    assert_eq!(channel.poll_recv(7, session, 1), Received::Wait);
    assert_eq!(channel.poll_recv(7, session, 2), Received::Wait);
    let wakes = channel.send(7, "ready").expect("send event");

    assert_eq!(wakes.waker, Some(2));
    assert_eq!(wakes.receiver, Some(session));
    assert_eq!(channel.poll_recv(7, session, 2), Received::Event("ready"));
}

#[test]
fn event_dropping_polled_session_receiver_releases_its_waker() {
    let mut channel: Channel<&str, u32> = Channel::new();
    let session = channel.session(7).expect("register session receiver");
    assert_eq!(channel.poll_recv(7, session, 1), Received::Wait);

    channel.close_session(7, session);
    assert_eq!(channel.send(7, "unobserved"), Err("unobserved"));
}

#[test]
fn dropping_session_receiver_purges_queued_events_and_rejects_later_sends() {
    let mut channel: Channel<&str, u32> = Channel::new();
    let session = channel.session(7).expect("register session receiver");
    channel.send(7, "first").expect("queue event");
    channel.send(7, "second").expect("queue event");

    let purged = channel.close_session(7, session);

    assert_eq!(purged, VecDeque::from(["first", "second"]));
    assert_eq!(channel.send(7, "late"), Err("late"));
    channel.send(8, "peer").expect("peer route remains open");
    assert_eq!(channel.recv(), Received::Event((8, "peer")));
}

#[test]
fn close_racing_send_cannot_leave_an_orphaned_session_queue() {
    for sends_before_close in 0..4 {
        let mut channel: Channel<i32, u32> = Channel::new();
        let session = channel.session(7).expect("register session receiver");
        for event in 0..sends_before_close {
            channel.send(7, event).unwrap();
        }
        channel.close_session(7, session);
        assert_eq!(channel.send(7, 9), Err(9));
        channel.drop_sender();
        assert_eq!(channel.recv(), Received::Closed);
    }
}

#[test]
fn retired_session_routes_do_not_accumulate_during_churn() {
    let mut channel: Channel<u64, u32> = Channel::new();
    for session_id in 1..=10_000 {
        let session = channel
            .session(session_id)
            .expect("register fresh session receiver");
        channel.send(session_id, session_id).expect("queue event");
        channel.close_session(session_id, session);
        channel.retire_session(session_id);
    }

    assert!(channel.queues.is_empty());
    assert!(channel.ready.is_empty());
    assert!(channel.registered.is_empty());
    assert!(channel.closed.is_empty());
    assert!(channel.retired.is_empty());
}

#[test]
fn producer_retirement_preserves_queued_events_until_receiver_close() {
    let mut channel: Channel<&str, u32> = Channel::new();
    let session = channel.session(7).expect("register session receiver");
    channel.send(7, "terminal").expect("queue terminal event");

    channel.retire_session(7);

    assert_eq!(channel.send(7, "late"), Err("late"));
    assert_eq!(channel.try_recv(7), Ok(Some("terminal")));
    assert_eq!(channel.try_recv(7), Err(ReceiverClosed));
    channel.close_session(7, session);
    assert!(!channel.retired.contains(&7));
    assert!(!channel.closed.contains(&7));
}

#[test]
fn producer_retirement_wakes_and_terminates_a_pending_session_receiver() {
    let mut channel: Channel<(), u32> = Channel::new();
    let session = channel.session(7).expect("register session receiver");
    assert_eq!(channel.poll_recv(7, session, 5), Received::Wait);

    let wakes = channel.retire_session(7);

    assert_eq!(
        wakes,
        Wakes {
            any: false,
            receiver: Some(session),
            waker: Some(5)
        }
    );
    assert_eq!(channel.poll_recv(7, session, 5), Received::Closed);
    assert_eq!(channel.try_recv(7), Err(ReceiverClosed));
}

#[test]
fn global_receiver_retirement_does_not_accumulate_route_markers() {
    let mut channel: Channel<u64, u32> = Channel::new();
    for session_id in 1..=10_000 {
        channel
            .send(session_id, session_id)
            .expect("queue terminal event");
        channel.retire_session(session_id);
    }

    assert!(channel.closed.is_empty());
    assert!(channel.retired.is_empty());

    for session_id in 1..=10_000 {
        assert_eq!(
            channel.recv(),
            Received::Event((session_id, session_id))
        );
    }
}

#[test]
fn event_wakes_a_blocked_receiver_when_the_last_sender_closes() {
    let mut channel: Channel<(), u32> = Channel::new();
    assert_eq!(channel.recv(), Received::Wait);
    channel.clone_sender();
    assert!(!channel.drop_sender());
    assert_eq!(channel.recv(), Received::Wait);
    assert!(channel.drop_sender());
    assert_eq!(channel.recv(), Received::Closed);
}

#[test]
fn event_session_receiver_does_not_consume_peer_events() {
    let mut channel: Channel<&str, u32> = Channel::new();
    let _first = channel.session(1).unwrap();
    channel.send(2, "peer").unwrap();
    channel.send(1, "mine").unwrap();

    assert_eq!(channel.try_recv(1), Ok(Some("mine")));
    assert_eq!(channel.recv(), Received::Event((2, "peer")));
}

#[test]
fn a_session_has_one_receiver() {
    let mut channel: Channel<(), u32> = Channel::new();
    assert!(channel.session(1).is_some());
    assert_eq!(channel.session(1), None);
    assert_eq!(channel.try_recv(1), Ok(None));
}

#[test]
fn pending_mode_observations_coalesce_to_the_current_state() {
    let mut channel: Channel<Notice, u32> = Channel::new();
    let mut counters = RuntimeCounters::default();
    let mode = |modes| Notice::ModeChanged { handle: 7, modes };
    let (grew, _) = send_notice(&mut channel, mode([false, false, false]));
    counters.count_notification(grew);
    let (grew, _) = send_notice(&mut channel, Notice::OutputDone(7));
    counters.count_notification(grew);
    for sequence in 0..100_000 {
        let (grew, _) = send_notice(&mut channel, mode([sequence & 1 != 0, true, false]));
        counters.count_notification(grew);
    }

    assert_eq!(
        channel.recv(),
        Received::Event((7, mode([true, true, false])))
    );
    assert_eq!(channel.recv(), Received::Event((7, Notice::OutputDone(7))));
    assert_eq!(channel.recv(), Received::Wait);
    assert_eq!(counters.notifications, 2);
}

#[test]
fn notices_of_a_closed_route_are_dropped() {
    let mut channel: Channel<Notice, u32> = Channel::new();
    let receiver = channel.session(7).unwrap();
    channel.close_session(7, receiver);
    let (sent, wakes) = send_notice(
        &mut channel,
        Notice::Output {
            handle: 7,
            bytes: Bytes::from_static(b"x"),
        },
    );
    assert!(!sent);
    assert_eq!(wakes, None);
}

#[test]
fn delivers_one_value_without_thread_local_channel_state() {
    let mut shared: Oneshot<i32, u32> = Oneshot::channel();

    assert!(shared.send(7).0);
    assert_eq!(shared.recv(), Polled::Ready(7));
}

#[test]
fn reports_sender_disconnection() {
    let mut shared: Oneshot<u8, u32> = Oneshot::channel();
    assert!(shared.drop_sender().0);

    assert_eq!(shared.recv(), Polled::Closed);
}

#[test]
fn rejects_a_result_after_receiver_cancellation() {
    let mut shared: Oneshot<i32, u32> = Oneshot::channel();
    shared.drop_receiver();

    assert!(!shared.send(7).0);
}

#[test]
fn a_completion_is_taken_once() {
    let mut completion: Completion<i32, u32> = Completion::new(Oneshot::channel());
    assert_eq!(completion.try_take(), Ok(None));
    assert_eq!(completion.wait(), Polled::Wait);
    assert_eq!(completion.receiver.poll(4), Polled::Wait);
    assert_eq!(completion.receiver.send(8), (true, Some(4)));
    assert_eq!(completion.receiver.send(9), (false, None));
    assert_eq!(completion.try_take(), Ok(Some(8)));
    assert_eq!(completion.try_take(), Err(CompletionClosed));
}

fn failed(kind: ErrorKind) -> Result<(), IoError> {
    Err(IoError::new(kind, "wake"))
}

#[test]
fn interrupted_wake_is_retried() {
    let mut results = VecDeque::from([failed(ErrorKind::Interrupted), Ok(())]);

    assert_eq!(complete_wake(results.pop_front().unwrap()), None);
    assert_eq!(complete_wake(results.pop_front().unwrap()), Some(Ok(())));

    assert!(results.is_empty());
}

#[test]
fn full_wake_descriptor_means_a_wake_is_already_pending() {
    assert_eq!(complete_wake(failed(ErrorKind::WouldBlock)), Some(Ok(())));
}

#[test]
fn fatal_wake_failure_is_reported() {
    let error = complete_wake(failed(ErrorKind::BrokenPipe))
        .expect("a fatal failure is not retried")
        .expect_err("broken wake descriptor must fail");

    assert_eq!(error.kind(), ErrorKind::BrokenPipe);
}

#[test]
fn wake_gate_coalesces_until_the_reactor_clears_it() {
    let mut gate = WakeGate::new();

    assert!(gate.request());
    assert!(!gate.request());
    assert!(!gate.request());
    gate.clear();
    assert!(gate.request());
}

#[test]
fn control_queue_rejects_unbounded_growth() {
    let mut queue = ControlQueue::new();
    for _ in 0..MAX_CONTROL_ENTRIES {
        assert!(queue.push(Control::Credit {
            handle: 1,
            bytes: 1
        }));
    }
    assert!(!queue.push(Control::Credit {
        handle: 1,
        bytes: 1
    }));
    assert!(queue.push(Control::Abandon { handle: 1 }));
}

#[test]
fn controls_of_a_session_s_life_come_first() {
    let mut queue = ControlQueue::new();
    queue.push(Control::Credit {
        handle: 1,
        bytes: 3,
    });
    queue.push(Control::Abandon { handle: 2 });
    let mut taken = VecDeque::new();
    queue.swap_into(&mut taken);
    assert_eq!(
        taken,
        VecDeque::from([
            Control::Abandon { handle: 2 },
            Control::Credit {
                handle: 1,
                bytes: 3
            }
        ])
    );
}
