use bytes::Bytes;
use ptyx::channel::{Channel, Received};
use ptyx::control::Control;
use ptyx::engine_event::{send_notice, CloseResult, Notice};
use ptyx::engine_session::{
    Interest, Mail, ReadOutcome, ReleaseState, Session, Turn, WriteOutcome, ACTIVATION_TIMEOUT,
    OUTPUT_BATCH,
};
use ptyx::fault::{ErrorKind, IoError};
use ptyx::reactor::{
    fail_input, notify_input_failure, rotate, validate_capacities, AfterRead, Command, LostSession,
    ReapStep, Reactor, Reply, Work,
};
use ptyx::registry::{GenerationRegistry, Registry, MAX_NOTICE_GENERATION};
use ptyx::runtime::{close_started, staged, CommandTurn, IntegratedRuntime, COMMAND_CAPACITY};
use ptyx::session::{InputAdmission, InputState, OutputState, Sent, WRITE_INFRASTRUCTURE_FAILURE};
use ptyx::spawn::BrokerSpawn;
use std::collections::VecDeque;
use std::time::Duration;

fn session(input_capacity: usize) -> Session {
    Session::from_broker(1, 1, input_capacity, 1024, 250_000_000, 0)
}

#[test]
fn terminal_input_failure_rejects_future_writes() {
    let mut session = session(4);
    assert_eq!(session.input.admission.admit_write_with(4, || Sent::Queued), 1);
    assert!(session
        .input
        .enqueue_write(Bytes::from(vec![1, 2, 3, 4]), false)
        .is_ok());
    let mut notices: Channel<Notice, ()> = Channel::new();

    let notice = fail_input(7, &mut session).expect("the loss is told");
    send_notice(&mut notices, notice);

    assert_eq!(notices.recv(), Received::Event((7, Notice::InputFailed(7))));
    assert!(session
        .input
        .enqueue_write(Bytes::from(vec![1]), false)
        .is_err());
    assert_eq!((session.input.admission.bytes, session.input.admission.entries), (0, 0));
}

#[test]
fn admitted_write_rejected_during_failure_is_reported_once() {
    let mut session = session(4);
    session.life.active = true;
    assert_eq!(session.input.admission.admit_write_with(1, || Sent::Queued), 1);
    let mut notices: Channel<Notice, ()> = Channel::new();

    assert_eq!(fail_input(7, &mut session), None);
    assert_eq!(notices.recv(), Received::Wait);
    assert!(session
        .input
        .enqueue_write(Bytes::from(vec![1]), false)
        .is_err());
    session.input.admission.release(1, 1);
    for _ in 0..2 {
        if let Some(notice) = notify_input_failure(7, &mut session) {
            send_notice(&mut notices, notice);
        }
    }

    assert_eq!(notices.recv(), Received::Event((7, Notice::InputFailed(7))));
    assert_eq!(notices.recv(), Received::Wait);
}

#[test]
fn a_write_that_meets_a_failed_session_is_told_by_the_reactor_once() {
    let (mut runtime, handle) = runtime_with_session(4);
    let session = runtime.reactor.sessions.get_mut(handle).unwrap();
    assert_eq!(fail_input(handle, session), None);
    let write = |bytes: &'static [u8]| Command::Write {
        handle,
        bytes: Bytes::from_static(bytes),
    };

    let first = runtime.reactor.process(write(b"a"), 0);
    let second = runtime.reactor.process(write(b"b"), 0);

    assert_eq!(first.notice, Some(Notice::InputFailed(handle)));
    assert_eq!(second.notice, None);
}

#[test]
fn disconnected_command_queue_permanently_closes_input() {
    let mut admission = InputAdmission::new(4);

    let result = admission.admit_write_with(1, || Sent::Disconnected);

    assert_eq!(result, WRITE_INFRASTRUCTURE_FAILURE);
    assert!(!admission.open);
    assert_eq!(admission.bytes, 0);
    assert_eq!(admission.entries, 0);
    assert_eq!(admission.admit_write_with(1, || Sent::Queued), -1);
}

#[test]
fn full_command_queue_preserves_recoverable_input() {
    let mut admission = InputAdmission::new(4);

    let result = admission.admit_write_with(1, || Sent::Full);

    assert_eq!(result, 0);
    assert!(admission.open);
    assert_eq!(admission.bytes, 0);
    assert_eq!(admission.entries, 0);
}

#[test]
fn rejected_admission_does_not_construct_input_storage() {
    let mut admission = InputAdmission::new(4);
    let mut constructed = false;

    let result = admission.admit_write_with(5, || {
        constructed = true;
        Sent::Queued
    });

    assert_eq!(result, 0);
    assert!(!constructed);
}

#[test]
fn arbitrary_output_chunking_preserves_every_byte_and_credit() {
    let mut output = OutputState::new(1 << 20);
    let mut expected = Vec::new();
    let mut state = 0x193a_6c8d_e42f_b751_u64;
    for chunk_index in 0..512 {
        state ^= state << 13;
        state ^= state >> 7;
        state ^= state << 17;
        let length = 1 + state as usize % 97;
        let bytes: Vec<_> = (0..length)
            .map(|index| (chunk_index + index) as u8)
            .collect();
        expected.extend_from_slice(&bytes);
        output.enqueue(bytes, 0);
    }

    let mut actual = Vec::new();
    let mut outstanding = Vec::new();
    while output.bytes != 0 {
        state ^= state << 13;
        state ^= state >> 7;
        state ^= state << 17;
        let maximum = 1 + state as usize % 193;
        let bytes = output.pull_output(maximum);
        outstanding.push(bytes.len());
        actual.extend_from_slice(&bytes);
        assert!(output.output_total() <= expected.len());
    }
    assert_eq!(output.outstanding, expected.len());
    for bytes in outstanding {
        assert!(output.credit(bytes));
    }

    assert_eq!(actual, expected);
    assert_eq!(output.output_total(), 0);
    assert!(!output.credit(1));
}

#[test]
fn complete_output_chunk_transfers_ownership_without_copying() {
    let mut output = OutputState::new(1 << 20);
    let bytes = vec![0x5a; OUTPUT_BATCH];
    let pointer = bytes.as_ptr();
    output.enqueue(bytes, 0);

    let pulled = output.pull_output(OUTPUT_BATCH);

    assert_eq!(pulled.as_ptr(), pointer);
    assert_eq!(output.bytes, 0);
    assert_eq!(output.outstanding, OUTPUT_BATCH);
}

#[test]
fn natural_exit_ignores_a_late_cleanup_failure() {
    let mut session = session(4096);
    session.life.exit_status = Some(0);

    assert!(!session.record_cleanup_result(false));

    assert!(!session.life.cleanup_failed);
}

#[test]
fn close_completion_waits_for_release_and_reports_release_failure() {
    let mut session = session(4096);
    session.life.close_started = true;
    session.life.exit_status = Some(0);
    session.output.eof = true;

    assert_eq!(session.completed_close_result(), None);
    session.closing.release = ReleaseState::Pending;
    assert_eq!(session.completed_close_result(), None);

    session.record_release_result(false);
    assert_eq!(
        session.completed_close_result(),
        Some(CloseResult {
            cleanup_failed: true,
            ..CloseResult::default()
        })
    );
}

#[test]
fn generated_input_is_all_or_reject_and_ordered() {
    let capacity = 257;
    let mut input = InputState::new(capacity);
    let mut expected: VecDeque<Bytes> = VecDeque::new();
    let mut state = 0xa841_3f69_7c2d_50be_u64;

    for step in 0..10_000 {
        state ^= state << 13;
        state ^= state >> 7;
        state ^= state << 17;
        if state & 3 == 0 && !input.queue.is_empty() {
            let taken = input.next_write(usize::MAX).unwrap().to_vec();
            assert_eq!(Some(&Bytes::from(taken.clone())), expected.pop_front().as_ref());
            input.wrote(taken.len());
            continue;
        }

        let length = 1 + state as usize % 64;
        let bytes = Bytes::from(
            (0..length)
                .map(|index| (step + index) as u8)
                .collect::<Vec<_>>(),
        );
        let before = input.bytes;
        let result = if before + bytes.len() <= capacity {
            input.enqueue_write(bytes.clone(), false)
        } else {
            Err(bytes.clone())
        };
        match result {
            Ok(()) => {
                assert_eq!(input.bytes, before + bytes.len());
                expected.push_back(bytes);
            }
            Err(rejected) => {
                assert_eq!(rejected, bytes);
                assert_eq!(input.bytes, before);
            }
        }
        assert!(input.bytes <= capacity);
        assert_eq!(input.entries, input.queue.len());
    }

    for queued in &input.queue {
        assert_eq!(Some(&queued.bytes), expected.pop_front().as_ref());
    }
    assert!(expected.is_empty());

    assert!(input.enqueue_write(Bytes::from(vec![1]), true).is_err());
}

#[test]
fn tiny_writes_have_a_bounded_admission_count() {
    let mut admission = InputAdmission::new(64 * 1024 * 1024);
    let limit = admission.entry_capacity();

    for _ in 0..limit {
        assert_eq!(admission.admit_write_with(1, || Sent::Queued), 1);
    }
    assert_eq!(admission.admit_write_with(1, || Sent::Queued), 0);

    assert_eq!(admission.bytes, limit);
    assert_eq!(admission.entries, limit);
    assert_eq!(limit, 4096);
}

#[test]
fn generation_registry_model_rejects_every_retired_handle() {
    let mut registry = GenerationRegistry::new();
    let mut live = Vec::new();
    let mut retired = Vec::new();
    let mut state = 0xd1b5_4a32_8f07_c6e9_u64;
    let operations = 20_000_u64;

    for value in 1..=operations {
        state ^= state << 13;
        state ^= state >> 7;
        state ^= state << 17;
        if !live.is_empty() && (live.len() >= 64 || state & 3 == 0) {
            let index = state as usize % live.len();
            let (handle, expected) = live.swap_remove(index);
            assert_eq!(registry.remove(handle), Some(expected));
            assert!(registry.get(handle).is_none());
            assert!(registry.get_mut(handle).is_none());
            assert_eq!(registry.remove(handle), None);
            retired.push(handle);
        } else {
            let handle = registry.insert(value);
            assert_eq!(registry.get(handle), Some(&value));
            live.push((handle, value));
        }

        for &(handle, expected) in &live {
            assert_eq!(registry.get(handle), Some(&expected));
        }
        for &handle in retired.iter().rev().take(64) {
            assert!(registry.get(handle).is_none());
        }
    }
}

#[test]
fn exhausted_generations_retire_the_slot_instead_of_wrapping() {
    let mut registry = GenerationRegistry::new();
    let handle = registry.insert(1_u8);
    registry.slots[0].generation = MAX_NOTICE_GENERATION;
    let exhausted = (u64::from(MAX_NOTICE_GENERATION) << 32) | (handle as u32 as u64);

    assert_eq!(registry.remove(exhausted), Some(1));
    let replacement = registry.insert(2);

    assert_eq!(replacement as u32, 2);
    assert!(registry.get(exhausted).is_none());
    assert_eq!(registry.get(replacement), Some(&2));
}

#[test]
fn retired_handles_do_not_resolve_after_slot_reuse() {
    let mut registry = Registry::new();
    let retired = registry.insert(1);

    assert_eq!(registry.remove(retired), Some(1));
    let replacement = registry.insert(2);

    assert!(registry.get(retired).is_none());
    assert_eq!(registry.get(replacement), Some(&2));
    assert_eq!(registry.live_count(), 1);
    assert_eq!(registry.sole(), Some(&2));
    assert_eq!(registry.values(), vec![&2]);
}

struct Host {
    reactor: Reactor,
    handle: u64,
    now: u64,
    notices: Vec<Notice>,
}

impl Host {
    fn start(timeout: u64) -> Host {
        let mut reactor = Reactor::new();
        let outcome = reactor.process(
            Command::Add {
                broker_session: 40,
                pid: 400,
                input_capacity: 64,
                output_capacity: 64,
                graceful_close_timeout: timeout,
            },
            0,
        );
        let Reply::Added(handle) = outcome.reply else {
            panic!("a child of the broker is added");
        };
        let mut host = Host {
            reactor,
            handle,
            now: 0,
            notices: Vec::new(),
        };
        host.activate();
        host
    }

    fn activate(&mut self) {
        let outcome = self.reactor.process(
            Command::Activate {
                handle: self.handle,
            },
            self.now,
        );
        let Work::RegisterReads { interest, .. } = outcome.work else {
            panic!("an activation registers the reading side");
        };
        let outcome = self
            .reactor
            .after_register_reads(self.handle, interest, Ok(()));
        let Work::RegisterWrites { interest, .. } = outcome.work else {
            panic!("an activation registers the writing side");
        };
        let outcome = self
            .reactor
            .after_register_writes(self.handle, interest, Ok(()));
        assert_eq!(outcome.reply, Reply::Activated(Ok(())));
        self.read_turn(ReadOutcome::Failed(ErrorKind::WouldBlock));
        let (notice, _) =
            self.reactor
                .after_read_turn(self.handle, AfterRead::Activated, self.now);
        self.notices.extend(notice);
    }

    fn read_turn(&mut self, outcome: ReadOutcome) {
        let session = self.reactor.sessions.get_mut(self.handle).unwrap();
        let mut turn = Turn {
            bytes: 0,
            syscalls: 0,
        };
        if session.read_limit(turn).is_some() {
            session.after_read(&mut turn, outcome, self.now);
        }
    }

    fn child_exits(&mut self, status: i32) {
        let outcome = self.reactor.process(
            Command::BrokerExit {
                broker_session: 40,
                status,
            },
            self.now,
        );
        self.notices.extend(outcome.notice);
        let Work::Read { handle, then } = outcome.work else {
            panic!("an exit is followed by a turn of reading");
        };
        self.read_turn(ReadOutcome::HangUp);
        let (notice, _) = self.reactor.after_read_turn(handle, then, self.now);
        self.notices.extend(notice);
        self.reactor.refresh_output(handle, self.now);
    }

    fn finish(&mut self) -> (CloseResult, Vec<u64>) {
        assert_eq!(
            self.reactor.reap_closed(self.handle),
            ReapStep::AskRelease { broker_session: 40 }
        );
        assert_eq!(
            self.reactor
                .after_release_request(self.handle, Mail::Accepted),
            ReapStep::Keep
        );
        self.reactor.process(
            Command::ReleaseResult {
                handle: self.handle,
                succeeded: true,
            },
            self.now,
        );
        match self.reactor.reap_closed(self.handle) {
            ReapStep::Closed {
                result, waiters, ..
            } => (result, waiters),
            _ => panic!("a released session is closed"),
        }
    }

    /// Closes the session. The child ends at once when it heeds the signal, else when it
    /// is killed. The result is how long that took.
    fn close(&mut self, heeds_signal: bool) -> Duration {
        let started = self.now;
        let handle = self.handle;
        let outcome = self
            .reactor
            .process(Command::CloseStart { handle, waiter: 3 }, self.now);
        assert_eq!(outcome.reply, Reply::Flag(true));
        match outcome.work {
            Work::SignalGracefully { broker_session, .. } => {
                assert_eq!(broker_session, 40);
                assert_eq!(
                    self.reactor.after_graceful_signal(handle, Mail::Accepted),
                    None
                );
                if heeds_signal {
                    self.child_exits(0);
                } else {
                    let timeout = self.reactor.output_poll_timeout(self.now);
                    assert_eq!(self.reactor.escalate_due_close(handle, self.now), None);
                    self.now += timeout as u64 * 1_000_000;
                    assert_eq!(
                        self.reactor.escalate_due_close(handle, self.now),
                        Some(40)
                    );
                    self.reactor
                        .after_force_close(handle, Mail::Accepted, self.now);
                    self.child_exits(-9);
                }
            }
            Work::ForceClose { broker_session, .. } => {
                assert_eq!(broker_session, 40);
                self.reactor
                    .after_force_close(handle, Mail::Accepted, self.now);
                self.child_exits(-9);
            }
            _ => panic!("a close signals or kills"),
        }
        let (result, waiters) = self.finish();
        assert_eq!(result, CloseResult::default());
        assert_eq!(waiters, vec![3]);
        assert!(self.reactor.sessions.get(handle).is_none());
        Duration::from_nanos(self.now - started)
    }
}

#[test]
fn graceful_close_allows_a_term_handler_to_exit() {
    let elapsed = Host::start(2_000_000_000).close(true);

    assert!(elapsed < Duration::from_secs(2));
}

#[test]
fn graceful_close_escalates_after_the_configured_deadline() {
    let elapsed = Host::start(250_000_000).close(false);

    assert!(elapsed >= Duration::from_millis(150), "{elapsed:?}");
    assert!(elapsed < Duration::from_secs(3), "{elapsed:?}");
}

#[test]
fn zero_graceful_close_timeout_escalates_immediately() {
    let elapsed = Host::start(0).close(false);

    assert!(elapsed < Duration::from_secs(2), "{elapsed:?}");
}

#[test]
fn graceful_close_flushes_already_accepted_input() {
    let mut host = Host::start(250_000_000);
    let handle = host.handle;
    let outcome = host.reactor.process(
        Command::Write {
            handle,
            bytes: Bytes::from_static(b"value\n"),
        },
        0,
    );
    assert!(matches!(outcome.work, Work::Apply { .. }));
    host.reactor
        .process(Command::CloseStart { handle, waiter: 1 }, 0);
    let session = host.reactor.sessions.get_mut(handle).unwrap();
    let mut turn = Turn {
        bytes: 0,
        syscalls: 0,
    };
    assert_eq!(session.next_write(turn), Some(b"value\n".as_slice()));
    let step = session.after_write(&mut turn, WriteOutcome::Wrote(6));
    assert!(step.again);
    assert_eq!(session.next_write(turn), None);
}

#[test]
fn close_remains_idempotent_after_cleanup() {
    let mut host = Host::start(0);
    host.close(false);
    let handle = host.handle;
    let outcome = host
        .reactor
        .process(Command::CloseStart { handle, waiter: 4 }, host.now);
    assert_eq!(outcome.reply, Reply::Flag(false));
}

#[test]
fn concurrent_close_waiters_share_one_result() {
    let mut host = Host::start(0);
    let handle = host.handle;
    host.reactor
        .process(Command::CloseStart { handle, waiter: 1 }, 0);
    let again = host
        .reactor
        .process(Command::CloseStart { handle, waiter: 2 }, 0);
    assert!(matches!(again.work, Work::Done));
    host.reactor.after_force_close(handle, Mail::Accepted, 0);
    host.child_exits(-9);
    let (result, waiters) = host.finish();
    assert_eq!(result, CloseResult::default());
    assert_eq!(waiters, vec![1, 2]);
}

#[test]
fn close_waits_for_native_cleanup() {
    let mut host = Host::start(0);
    let handle = host.handle;
    host.reactor
        .process(Command::CloseStart { handle, waiter: 1 }, 0);
    assert_eq!(host.reactor.reap_closed(handle), ReapStep::Keep);
    host.child_exits(-9);
    host.finish();
}

#[test]
fn close_accepts_a_natural_exit_racing_cleanup() {
    for _ in 0..64 {
        let mut host = Host::start(250_000_000);
        host.child_exits(0);
        let handle = host.handle;
        let outcome = host
            .reactor
            .process(Command::CloseStart { handle, waiter: 3 }, host.now);
        assert!(matches!(outcome.work, Work::ForceClose { .. }));
        host.reactor.after_force_close(handle, Mail::Lost, host.now);
        let (result, waiters) = host.finish();
        assert_eq!(result, CloseResult::default());
        assert_eq!(waiters, vec![3]);
    }
}

#[test]
fn an_exit_that_comes_before_its_session_is_kept() {
    let mut reactor = Reactor::new();
    reactor.process(
        Command::BrokerExit {
            broker_session: 9,
            status: 4,
        },
        0,
    );
    let Reply::Added(handle) = reactor
        .process(
            Command::Add {
                broker_session: 9,
                pid: 90,
                input_capacity: 1,
                output_capacity: 1,
                graceful_close_timeout: 0,
            },
            0,
        )
        .reply
    else {
        panic!("a child of the broker is added");
    };
    assert_eq!(
        reactor.process(Command::ExitStatus { handle }, 0).reply,
        Reply::Status(Some(4))
    );
    assert_eq!(
        reactor.process(Command::Pid { handle }, 0).reply,
        Reply::Pid(Some(90))
    );
    assert_eq!(
        reactor
            .process(Command::Signal { handle, signal: 15 }, 0)
            .reply,
        Reply::Signalled(Some(false))
    );
}

#[test]
fn output_flows_in_order_against_credit() {
    let mut host = Host::start(0);
    let handle = host.handle;
    host.read_turn(ReadOutcome::Data(b"hello".to_vec()));
    let refresh = host.reactor.refresh_output(handle, 0).unwrap();
    assert_eq!(refresh.output, Some(Bytes::from_static(b"hello")));
    let session = host.reactor.sessions.get(handle).unwrap();
    assert_eq!(session.output.outstanding, 5);
    assert!(!host.reactor.credit(handle, 6));
    assert!(host.reactor.credit(handle, 5));
    host.child_exits(0);
    assert_eq!(host.notices, vec![Notice::Exit { handle, status: 0 }]);
    assert_eq!(
        host.reactor.process(Command::Mode { handle }, 0).reply,
        Reply::Outside
    );
    assert_eq!(
        host.reactor
            .process(Command::Mode { handle: handle + 1 }, 0)
            .reply,
        Reply::Missing
    );
}

#[test]
fn a_refused_registration_refuses_the_activation() {
    let mut reactor = Reactor::new();
    let Reply::Added(handle) = reactor
        .process(
            Command::Add {
                broker_session: 9,
                pid: 90,
                input_capacity: 1,
                output_capacity: 1,
                graceful_close_timeout: 0,
            },
            0,
        )
        .reply
    else {
        panic!("a child of the broker is added");
    };
    let outcome = reactor.process(Command::Activate { handle }, 0);
    let Work::RegisterReads { interest, .. } = outcome.work else {
        panic!("an activation registers the reading side");
    };
    assert_eq!(interest, Interest::Keep);
    let error = IoError::new(ErrorKind::Other, "poll");
    let refused = reactor.after_register_reads(handle, interest, Err(error.clone()));
    assert_eq!(refused.reply, Reply::Activated(Err(error)));
    match reactor
        .process(Command::Activate { handle: 77 }, 0)
        .reply
    {
        Reply::Activated(Err(error)) => {
            assert_eq!(
                (error.kind(), error.message.as_str()),
                (ErrorKind::NotFound, "stale session")
            );
        }
        _ => panic!("a missing session cannot be activated"),
    }
}

#[test]
fn an_overdue_activation_is_given_up() {
    let mut reactor = Reactor::new();
    let Reply::Added(handle) = reactor
        .process(
            Command::Add {
                broker_session: 9,
                pid: 90,
                input_capacity: 1,
                output_capacity: 1,
                graceful_close_timeout: 0,
            },
            0,
        )
        .reply
    else {
        panic!("a child of the broker is added");
    };
    assert_eq!(reactor.output_poll_timeout(0), 5_000);
    assert_eq!(reactor.expire_activation(handle, ACTIVATION_TIMEOUT - 1), None);
    assert_eq!(
        reactor.expire_activation(handle, ACTIVATION_TIMEOUT),
        Some(9)
    );
    reactor.after_close_request(handle, Mail::Accepted);
    assert_eq!(reactor.expire_activation(handle, ACTIVATION_TIMEOUT), None);
    assert_eq!(reactor.reap_abandoned(handle), ReapStep::Keep);
}

#[test]
fn a_lost_broker_takes_every_session_down() {
    let mut host = Host::start(0);
    let handle = host.handle;
    host.reactor.process(
        Command::Write {
            handle,
            bytes: Bytes::from_static(b"x"),
        },
        0,
    );
    let outcome = host.reactor.process(Command::BrokerLost, 0);
    assert!(matches!(outcome.work, Work::FailAll));
    assert_eq!(
        host.reactor.fail_all(),
        vec![LostSession {
            handle,
            pid: 400,
            broker_session: 40,
            report_input_failure: true
        }]
    );
    assert!(host.reactor.sessions.get(handle).is_none());
    let mut other = Host::start(0);
    assert_eq!(other.reactor.shutdown_all(), vec![(40, true)]);
}

fn runtime_with_session(capacity: usize) -> (IntegratedRuntime, u64) {
    let mut runtime = IntegratedRuntime::new();
    let handle = runtime.reactor.add(1, 10, capacity, 64, 0, 0);
    (runtime, handle)
}

#[test]
fn rejected_write_accepts_no_partial_prefix() {
    let (mut runtime, handle) = runtime_with_session(1);

    let rejected = runtime.write(handle, Bytes::from_static(b"ab"));
    let accepted = runtime.write(handle, Bytes::from_static(b"z"));

    assert_eq!(rejected, 0);
    assert_eq!(accepted, 1);
    match runtime.next_in_turn(&mut CommandTurn::new()) {
        Some(Command::Write { bytes, .. }) => assert_eq!(bytes, Bytes::from_static(b"z")),
        _ => panic!("the accepted write is queued"),
    }
    assert!(runtime.next_in_turn(&mut CommandTurn::new()).is_none());
}

#[test]
fn accepted_input_reaches_the_child_in_order() {
    let (mut runtime, handle) = runtime_with_session(16);
    assert_eq!(runtime.write_copy(handle, b"val"), 1);
    assert_eq!(runtime.write_copy(handle, b"ue\n"), 1);
    assert!(runtime.wake.pending);
    let mut commands = CommandTurn::new();
    while let Some(command) = runtime.next_in_turn(&mut commands) {
        runtime.reactor.process(command, 0);
    }
    let session = runtime.reactor.sessions.get_mut(handle).unwrap();
    let mut written = Vec::new();
    let mut turn = Turn {
        bytes: 0,
        syscalls: 0,
    };
    while let Some(chunk) = session.next_write(turn) {
        let part = chunk[..chunk.len().min(2)].to_vec();
        written.extend_from_slice(&part);
        session.after_write(&mut turn, WriteOutcome::Wrote(part.len()));
    }
    assert_eq!(written, b"value\n");
    assert_eq!(session.input.admission.bytes, 0);
    assert_eq!(session.input.admission.entries, 0);
}

#[test]
fn the_runtime_bounds_what_it_queues() {
    let (mut runtime, handle) = runtime_with_session(1 << 20);
    for _ in 0..COMMAND_CAPACITY {
        assert_eq!(runtime.write_copy(handle, b"x"), 1);
    }
    assert_eq!(runtime.write_copy(handle, b"x"), 0);
    assert_eq!(runtime.write_copy(handle + 1, b"x"), -1);
    runtime.running = false;
    assert_eq!(runtime.write_copy(handle, b"x"), WRITE_INFRASTRUCTURE_FAILURE);
    assert_eq!(runtime.write_copy(handle, b"x"), -1);
}

#[test]
fn a_turn_takes_the_quantum_and_leaves_the_rest() {
    let (mut runtime, handle) = runtime_with_session(1 << 20);
    for _ in 0..100 {
        assert_eq!(runtime.write_copy(handle, b"x"), 1);
    }
    let mut turn = CommandTurn::new();
    assert!(!turn.wakes_again());
    while runtime.next_in_turn(&mut turn).is_some() {}
    assert_eq!((turn.taken, turn.stopped), (64, false));
    assert!(turn.wakes_again());
    assert_eq!(runtime.commands.len(), 36);

    let mut rest = CommandTurn::new();
    while runtime.next_in_turn(&mut rest).is_some() {}
    assert_eq!((rest.taken, rest.stopped), (36, false));
    assert!(!rest.wakes_again());
}

#[test]
fn a_turn_ends_at_a_shutdown() {
    let mut runtime = IntegratedRuntime::new();
    assert_eq!(runtime.submit(Command::Pid { handle: 1 }), Sent::Queued);
    assert_eq!(runtime.submit(Command::Shutdown), Sent::Queued);
    assert_eq!(runtime.submit(Command::Pid { handle: 2 }), Sent::Queued);
    let mut turn = CommandTurn::new();
    assert!(matches!(
        runtime.next_in_turn(&mut turn),
        Some(Command::Pid { handle: 1 })
    ));
    assert!(matches!(runtime.next_in_turn(&mut turn), Some(Command::Shutdown)));
    assert!(runtime.next_in_turn(&mut turn).is_none());
    assert_eq!((turn.taken, turn.stopped), (2, true));
    assert!(!turn.wakes_again());
    assert_eq!(runtime.commands.len(), 1);
}

#[test]
fn a_write_is_handled_before_a_later_close() {
    let (mut runtime, handle) = runtime_with_session(16);
    assert_eq!(runtime.write_copy(handle, b"last words"), 1);
    runtime.close_admission(handle);
    assert_eq!(runtime.submit(Command::CloseStart { handle, waiter: 1 }), Sent::Queued);

    let mut turn = CommandTurn::new();
    let write = runtime.next_in_turn(&mut turn).unwrap();
    assert_eq!(runtime.reactor.process(write, 0).notice, None);
    let close = runtime.next_in_turn(&mut turn).unwrap();
    assert_eq!(runtime.reactor.process(close, 0).reply, Reply::Flag(true));

    let session = runtime.reactor.sessions.get(handle).unwrap();
    assert_eq!(session.input.bytes, 10);
    assert!(session.life.close_started);
    assert_eq!(runtime.write_copy(handle, b"x"), -1);
}

#[test]
fn commands_are_bounded_and_refused_without_a_reactor() {
    let mut runtime = IntegratedRuntime::new();
    for handle in 0..COMMAND_CAPACITY as u64 {
        assert_eq!(runtime.submit(Command::Pid { handle }), Sent::Queued);
    }
    assert_eq!(runtime.submit(Command::Shutdown), Sent::Full);
    runtime.running = false;
    assert_eq!(runtime.submit(Command::Shutdown), Sent::Disconnected);
    assert_eq!(close_started(Some(true)), Ok(()));
    assert_eq!(close_started(Some(false)).unwrap_err().message, "stale session");
    let stopped = close_started(None).unwrap_err();
    assert_eq!(stopped.kind(), ErrorKind::BrokenPipe);
    assert_eq!(stopped.message, "ptyx reactor stopped");
}

#[test]
fn full_controls_still_wake_the_reactor() {
    let (mut runtime, handle) = runtime_with_session(16);
    for _ in 0..4096 {
        assert!(runtime.credit_async(handle, 1));
    }
    for _ in 0..1024 {
        assert!(runtime.try_abandon(handle));
    }
    runtime.wake.clear();
    assert!(runtime.credit_async(handle, 1));
    assert!(runtime.wake.pending);
    runtime.wake.clear();
    assert!(runtime.try_abandon(handle));
    assert!(runtime.wake.pending);
    assert_eq!(runtime.controls.values.len(), 4096);
    assert_eq!(runtime.controls.lifecycle.len(), 1024);
}

#[test]
fn a_session_that_is_given_up_takes_no_more_input() {
    let (mut runtime, handle) = runtime_with_session(16);
    assert!(runtime.credit_async(handle, 4));
    assert!(runtime.try_abandon(handle));
    assert_eq!(runtime.write_copy(handle, b"x"), -1);
    let mut controls = VecDeque::new();
    runtime.controls.swap_into(&mut controls);
    assert_eq!(
        controls,
        VecDeque::from([
            Control::Abandon { handle },
            Control::Credit { handle, bytes: 4 }
        ])
    );
    assert!(runtime.take_notifications());
    assert!(!runtime.take_notifications());
    let (mut other, closing) = runtime_with_session(16);
    other.close_admission(closing);
    assert_eq!(other.write_copy(closing, b"x"), -1);
}

fn configuration() -> BrokerSpawn<u8> {
    BrokerSpawn {
        executable: b"/bin/sh".to_vec(),
        arguments: Vec::new(),
        environment: None,
        cwd: None,
        rows: 24,
        columns: 80,
        pixel_width: 0,
        pixel_height: 0,
        graceful_close_timeout: 0,
    }
}

#[test]
fn spawns_are_checked_before_they_are_queued() {
    assert_eq!(
        IntegratedRuntime::spawn_start(&configuration(), 1, 1),
        Ok(())
    );
    assert_eq!(
        IntegratedRuntime::spawn_start(&configuration(), 0, 1)
            .unwrap_err()
            .message,
        "capacities must be in 1..=67108864"
    );
    assert!(validate_capacities(67_108_864, 67_108_865).is_err());
    assert!(validate_capacities(67_108_864, 67_108_864).is_ok());
    let mut empty = configuration();
    empty.executable.clear();
    assert_eq!(
        IntegratedRuntime::spawn_start(&empty, 1, 1)
            .unwrap_err()
            .message,
        "executable is empty or contains NUL"
    );
    assert_eq!(IntegratedRuntime::spawn_queued(true, Sent::Queued), Ok(()));
    assert_eq!(
        IntegratedRuntime::spawn_queued(true, Sent::Full).unwrap_err().kind(),
        ErrorKind::WouldBlock
    );
    assert_eq!(
        IntegratedRuntime::spawn_queued(true, Sent::Disconnected)
            .unwrap_err()
            .message,
        "spawn worker stopped"
    );
    assert_eq!(
        IntegratedRuntime::spawn_queued(false, Sent::Queued)
            .unwrap_err()
            .message,
        "runtime is shutting down"
    );
    assert_eq!(staged(Some(Ok(5))), (Ok(5), false));
    let (result, abort) = staged(None);
    assert!(abort);
    assert_eq!(result.unwrap_err().message, "ptyx reactor stopped");
}

#[test]
fn mode_observation_reports_changes_and_backs_off() {
    let mut session = session(4);
    assert_eq!(
        session.observe_mode(true, Some([true, true, true]), 0),
        Some([true, true, true])
    );
    assert!(session.modes.deadline.is_some());
    let due = session.modes.deadline.unwrap();
    assert!(!session.mode_is_due(due - 1));
    assert!(session.mode_is_due(due));
    assert_eq!(session.refresh_mode(Some([true, true, true]), due), None);
    let next = session.modes.deadline.unwrap();
    assert!(next - due > due);
    assert_eq!(
        session.refresh_mode(Some([false, true, true]), next),
        Some([false, true, true])
    );
    assert_eq!(session.observe_mode(false, None, next), None);
    assert_eq!(session.modes.deadline, None);
}

#[test]
fn turns_rotate_over_the_sessions() {
    assert_eq!(rotate(0, 3), (0, 1));
    assert_eq!(rotate(4, 3), (1, 5));
    assert_eq!(rotate(7, 0).1, 7);
}

#[test]
fn accepted_input_is_counted_until_it_is_written() {
    let mut input = InputState::new(4);
    assert_eq!(input.admission.admit_write_with(3, || Sent::Queued), 1);
    assert_eq!((input.admission.bytes, input.admission.entries), (3, 1));
    assert_eq!(input.admission.admit_write_with(2, || Sent::Queued), 0);

    assert!(input.enqueue_write(Bytes::from_static(b"abc"), false).is_ok());
    assert_eq!((input.admission.bytes, input.bytes, input.entries), (3, 3, 1));
    assert_eq!(input.next_write(2), Some(&b"ab"[..]));
    input.wrote(2);
    assert_eq!((input.admission.bytes, input.admission.entries), (1, 1));
    assert_eq!(input.admission.admit_write_with(3, || Sent::Queued), 1);
    input.wrote(1);
    assert_eq!((input.admission.bytes, input.admission.entries, input.bytes), (3, 1, 0));

    assert!(input.enqueue_write(Bytes::from_static(b"def"), false).is_ok());
    assert!(input.fail_input());
    assert_eq!((input.admission.bytes, input.admission.entries), (0, 0));
    assert!(!input.admission.open);
}
