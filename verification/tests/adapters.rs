use bytes::Bytes;
use ptyx::adapter::{
    check_write, control_reply, take_spawn_delay, terminate_reply, test_delay_next_spawn,
    test_fail_next_write, test_kill_broker, test_spawn_delay_active, write_reply, Adapter, Next, SessionState, Target,
    TestControls,
};
use ptyx::c_api::{
    capabilities, clear_error, close_flags, error_is_valid, io_error, mode_bits,
    ptyx_abi_version, ptyx_error_format, set_error, stale_error, BytesView, Error, Event, Platform,
    Reply, RuntimeOptions, Size, ERROR_DOMAIN_ARGUMENT, ERROR_DOMAIN_INPUT, ERROR_INVALID_ARGUMENT,
    ERROR_QUEUE_FULL, ERROR_SIZE, EVENT_CLOSE_COMPLETE, EVENT_EXIT, EVENT_MODE_CHANGED,
    EVENT_OUTPUT, EVENT_SIZE, EVENT_SPAWN_FAILED, EVENT_SPAWN_READY, OPERATION_CLOSE,
    OPERATION_METADATA, OPERATION_OUTPUT, OPERATION_RESIZE, OPERATION_RUNTIME_CREATE,
    OPERATION_RUNTIME_SHUTDOWN, OPERATION_SPAWN, OPERATION_TERMINATE, OPERATION_WRITE,
    RUNTIME_OPTIONS_SIZE, SESSION_SNAPSHOT_SIZE, SPAWN_OPTIONS_SIZE, STATUS_BACKPRESSURE,
    STATUS_BUFFER_TOO_SMALL, STATUS_BUSY, STATUS_CLOSED, STATUS_END_OF_STREAM, STATUS_INTERNAL,
    STATUS_INVALID_ARGUMENT, STATUS_OK, STATUS_STALE_HANDLE, STATUS_WRONG_STATE,
};
use ptyx::c_snapshot::{begin_snapshot, fill_snapshot, Metadata, SessionSnapshot};
use ptyx::c_spawn::SpawnOptions;
use ptyx::cleanup::{
    Cleanup, CleanupQueue, CLEANUP_RETRY_DELAY, CLEANUP_RETRY_MAX_DELAY,
};
use ptyx::engine_event::{CloseResult, Failure, FailureKind, Notice};
use ptyx::fault::{ErrorKind, IoError};
use ptyx::pump::{finalized_event, release_request, terminal_failure, Pump, PumpStep};
use ptyx::pump_table::{
    ack_reply, finalize_adapter, finalize_session, initialize_status, PumpTable,
};
use std::mem::size_of;

#[test]
fn error_layout_matches_the_public_header() {
    assert_eq!(size_of::<Error>(), 64);
    assert_eq!(ERROR_SIZE, 64);
    assert_eq!(RUNTIME_OPTIONS_SIZE, 56);
    assert_eq!(SPAWN_OPTIONS_SIZE, 144);
    assert_eq!(SESSION_SNAPSHOT_SIZE, 96);
    assert_eq!(EVENT_SIZE, 136);
}

#[test]
fn contended_write_registry_returns_backpressure() {
    let adapter = Adapter::new();

    let result = adapter.active_session_for_write(u64::MAX, true);

    assert!(matches!(result, Err(STATUS_BACKPRESSURE)));
}

#[test]
fn native_validation_errors_remain_invalid_argument_errors() {
    let (status, error) = io_error(
        OPERATION_SPAWN,
        &IoError::new(ErrorKind::InvalidInput, "invalid spawn"),
    );

    assert_eq!(status, STATUS_INVALID_ARGUMENT);
    assert_eq!(error.domain, ERROR_DOMAIN_ARGUMENT);
    assert_eq!(error.kind, ERROR_INVALID_ARGUMENT);
    assert_eq!(error.operation, OPERATION_SPAWN);
}

fn view(text: &str) -> BytesView {
    BytesView {
        data: Some(text.as_bytes().to_vec()),
        length: text.len() as u64,
    }
}

fn no_view() -> BytesView {
    BytesView {
        data: None,
        length: 0,
    }
}

fn options() -> SpawnOptions {
    SpawnOptions {
        struct_size: SPAWN_OPTIONS_SIZE,
        flags: 0,
        executable: view("/bin/sh"),
        arguments: Some(vec![view("-c"), view("exit")]),
        argument_count: 2,
        environment: Some(vec![view("TERM=xterm")]),
        environment_count: 1,
        working_directory: no_view(),
        size: Size {
            rows: 24,
            columns: 80,
            pixel_width: 0,
            pixel_height: 0,
        },
        input_capacity: 1024,
        output_capacity: 2048,
        graceful_close_timeout_us: 250_000,
        reserved: [0; 4],
    }
}

fn spawned(adapter: &mut Adapter, runtime: u64, engine_handle: u64) -> u64 {
    let taken = adapter
        .begin_spawn(runtime, true, Some(&options()))
        .expect("the options are acceptable");
    assert_eq!(taken.config.executable, b"/bin/sh");
    assert_eq!(
        taken.config.arguments,
        vec![b"-c".to_vec(), b"exit".to_vec()]
    );
    assert_eq!(
        taken.config.environment,
        Some(vec![(b"TERM".to_vec(), b"xterm".to_vec())])
    );
    assert_eq!((taken.input_capacity, taken.output_capacity), (1024, 2048));
    assert_eq!(taken.config.graceful_close_timeout, 250_000_000);
    let session = taken.session;
    assert_eq!(
        adapter.after_spawn_start(session, Ok(())),
        (Reply::done(), session)
    );
    let next = adapter.take_notice(
        runtime,
        EVENT_SIZE,
        engine_handle,
        Some(Notice::SpawnReady {
            request: session,
            handle: engine_handle,
        }),
    );
    assert!(matches!(next, Next::Activate { .. }));
    match adapter.after_activate(runtime, EVENT_SIZE, session, engine_handle, true) {
        Next::Deliver(event) => {
            assert_eq!((event.kind, event.session), (EVENT_SPAWN_READY, session));
        }
        _ => panic!("an activated session is reported"),
    }
    session
}

#[test]
fn a_session_of_the_c_interface_lives_from_spawn_to_release() {
    let mut adapter = Adapter::new();
    let (reply, runtime) = adapter.after_create(Ok(true));
    assert_eq!(reply, Reply::done());
    let session = spawned(&mut adapter, runtime, 70);
    assert_eq!(
        adapter.active_session(session),
        Ok(Target {
            runtime,
            engine_handle: 70
        })
    );
    let next = adapter.take_notice(
        runtime,
        EVENT_SIZE,
        70,
        Some(Notice::Output {
            handle: 70,
            bytes: Bytes::from_static(b"hello"),
        }),
    );
    let Next::Deliver(output) = next else {
        panic!("output is delivered");
    };
    assert_eq!(
        (output.kind, output.session, output.data_length),
        (EVENT_OUTPUT, session, 5)
    );
    let Next::Deliver(exit) = adapter.take_notice(
        runtime,
        EVENT_SIZE,
        70,
        Some(Notice::Exit {
            handle: 70,
            status: -9,
        }),
    ) else {
        panic!("an exit is delivered");
    };
    assert_eq!((exit.kind, exit.value), (EVENT_EXIT, -9));
    assert_eq!(
        adapter.ptyx_runtime_release(Some(runtime)).0.status,
        STATUS_BUSY
    );
    let released = adapter.ptyx_event_release(Some(output));
    assert_eq!(released.reply, Reply::done());
    assert_eq!(
        released.credit,
        Some((
            Target {
                runtime,
                engine_handle: 70
            },
            5
        ))
    );
    assert_eq!(
        adapter.ptyx_event_release(Some(output)).reply.status,
        STATUS_STALE_HANDLE
    );
    let Next::Deliver(closed) = adapter.take_notice(
        runtime,
        EVENT_SIZE,
        70,
        Some(Notice::Closed {
            handle: 70,
            result: CloseResult::default(),
        }),
    ) else {
        panic!("a close is delivered");
    };
    assert_eq!((closed.kind, closed.flags), (EVENT_CLOSE_COMPLETE, 0));
    assert!(matches!(
        adapter.take_notice(
            runtime,
            EVENT_SIZE,
            70,
            Some(Notice::OutputDone(70))
        ),
        Next::Receive
    ));
    let release = adapter.ptyx_session_release(Some(session));
    assert_eq!((release.reply, release.session), (Reply::done(), 0));
    assert_eq!(release.abandon, None);
    assert_eq!(
        adapter.active_session(session),
        Err(STATUS_STALE_HANDLE)
    );
    assert_eq!(
        adapter.ptyx_runtime_release(Some(runtime)).0.status,
        STATUS_BUSY
    );
    assert_eq!(adapter.begin_shutdown(runtime), Ok(true));
    assert_eq!(adapter.after_shutdown(runtime, true), Reply::done());
    assert_eq!(adapter.begin_shutdown(runtime), Ok(false));
    assert_eq!(
        adapter.ptyx_runtime_release(Some(runtime)),
        (Reply::done(), Some(0))
    );
    assert_eq!(
        adapter.begin_shutdown(runtime),
        Err(Reply::stale(OPERATION_RUNTIME_SHUTDOWN))
    );
}

#[test]
fn releasing_an_active_session_gives_the_engine_s_up() {
    let mut adapter = Adapter::new();
    let runtime = adapter.insert_runtime();
    let session = spawned(&mut adapter, runtime, 70);
    let released = adapter.ptyx_session_release(Some(session));
    assert_eq!(
        released.abandon,
        Some(Target {
            runtime,
            engine_handle: 70
        })
    );
    let Next::Receive = adapter.take_notice(
        runtime,
        EVENT_SIZE,
        70,
        Some(Notice::OutputDone(70)),
    ) else {
        panic!("a released session is silent");
    };
    assert_eq!(
        adapter.ptyx_session_release(Some(0)).reply,
        Reply::done()
    );
    assert_eq!(
        adapter.ptyx_session_release(None).reply,
        Reply::invalid(OPERATION_CLOSE)
    );
}

#[test]
fn failed_spawns_are_reported_or_forgotten() {
    let mut adapter = Adapter::new();
    let runtime = adapter.insert_runtime();
    let taken = adapter.begin_spawn(runtime, true, Some(&options())).unwrap();
    let next = adapter.take_notice(
        runtime,
        EVENT_SIZE,
        taken.session,
        Some(Notice::SpawnFailed {
            request: taken.session,
            failure: Failure {
                kind: FailureKind::NotFound,
                native_code: Some(2),
            },
        }),
    );
    let Next::Deliver(event) = next else {
        panic!("a failed spawn is delivered");
    };
    assert_eq!((event.kind, event.error.native_code), (EVENT_SPAWN_FAILED, 2));
    assert_eq!(
        adapter.active_session(taken.session),
        Err(STATUS_WRONG_STATE)
    );
    let refused = adapter.begin_spawn(runtime, true, Some(&options())).unwrap();
    let (reply, handle) = adapter.after_spawn_start(
        refused.session,
        Err(IoError::new(ErrorKind::InvalidInput, "too long")),
    );
    assert_eq!((reply.status, handle), (STATUS_INVALID_ARGUMENT, 0));
    assert_eq!(
        adapter.active_session(refused.session),
        Err(STATUS_STALE_HANDLE)
    );
    let third = adapter.begin_spawn(runtime, true, Some(&options())).unwrap();
    let Next::Activate { .. } = adapter.take_notice(
        runtime,
        EVENT_SIZE,
        9,
        Some(Notice::SpawnReady {
            request: third.session,
            handle: 9,
        }),
    ) else {
        panic!("a ready spawn is activated");
    };
    assert!(matches!(
        adapter.after_activate(runtime, EVENT_SIZE, third.session, 9, false),
        Next::AbandonAndDeliver(9, _)
    ));
    assert_eq!(
        adapter.sessions.get(third.session).map(|entry| entry.state),
        Some(SessionState::Failed)
    );
}

#[test]
fn spawn_options_are_checked() {
    let mut adapter = Adapter::new();
    let runtime = adapter.insert_runtime();
    let invalid = Reply::invalid(OPERATION_SPAWN);
    assert_eq!(
        adapter.begin_spawn(runtime, true, None).unwrap_err(),
        invalid
    );
    assert_eq!(
        adapter
            .begin_spawn(runtime, false, Some(&options()))
            .unwrap_err(),
        invalid
    );
    assert_eq!(
        adapter
            .begin_spawn(runtime + 1, true, Some(&options()))
            .unwrap_err(),
        Reply::stale(OPERATION_SPAWN)
    );
    let mut rejected: Vec<SpawnOptions> = Vec::new();
    let mut small = options();
    small.struct_size -= 1;
    rejected.push(small);
    let mut rows = options();
    rows.size.rows = 0;
    rejected.push(rows);
    let mut empty = options();
    empty.executable = no_view();
    rejected.push(empty);
    let mut nul = options();
    nul.executable = view("a\0b");
    rejected.push(nul);
    let mut entry = options();
    entry.environment = Some(vec![view("=x")]);
    rejected.push(entry);
    let mut capacity = options();
    capacity.output_capacity = 0;
    rejected.push(capacity);
    let mut timeout = options();
    timeout.graceful_close_timeout_us = 60_000_001;
    rejected.push(timeout);
    for options in &rejected {
        assert_eq!(
            adapter.begin_spawn(runtime, true, Some(options)).unwrap_err(),
            invalid
        );
    }
    adapter.after_shutdown(runtime, true);
    assert_eq!(
        adapter
            .begin_spawn(runtime, true, Some(&options()))
            .unwrap_err()
            .status,
        STATUS_CLOSED
    );
}

#[test]
fn events_have_one_consumer() {
    let mut adapter = Adapter::new();
    let runtime = adapter.insert_runtime();
    let event = Event::empty(EVENT_SIZE);
    assert_eq!(
        adapter.begin_next_event(runtime, None),
        Reply::invalid(OPERATION_OUTPUT)
    );
    assert_eq!(
        adapter.begin_next_event(runtime, Some(&release_request(4))).status,
        STATUS_WRONG_STATE
    );
    assert_eq!(
        adapter.begin_next_event(runtime + 1, Some(&event)),
        Reply::stale(OPERATION_OUTPUT)
    );
    assert_eq!(adapter.begin_next_event(runtime, Some(&event)), Reply::done());
    assert_eq!(
        adapter.begin_next_event(runtime, Some(&event)).status,
        STATUS_BUSY
    );
    adapter.end_next_event(runtime);
    assert_eq!(adapter.begin_next_event(runtime, Some(&event)), Reply::done());
    match adapter.take_notice(runtime, EVENT_SIZE, 0, None) {
        Next::Finish(reply) => assert_eq!(reply.status, STATUS_END_OF_STREAM),
        _ => panic!("the end of the notices is told"),
    }
}

#[test]
fn operations_need_an_active_session() {
    let mut adapter = Adapter::new();
    let runtime = adapter.insert_runtime();
    let session = spawned(&mut adapter, runtime, 70);
    let target = Target {
        runtime,
        engine_handle: 70,
    };
    let mut controls = TestControls::default();
    assert_eq!(
        adapter.begin_write(session, 3, true, false, &mut controls),
        Ok(Some(target))
    );
    assert_eq!(
        adapter.begin_write(session, 0, false, false, &mut controls),
        Ok(None)
    );
    assert_eq!(
        adapter.begin_write(session, 3, false, false, &mut controls),
        Err(Reply::invalid(OPERATION_WRITE))
    );
    assert_eq!(
        adapter
            .begin_write(session, 3, true, true, &mut controls)
            .unwrap_err()
            .status,
        STATUS_BACKPRESSURE
    );
    test_fail_next_write(&mut controls);
    assert_eq!(
        adapter
            .begin_write(session, 3, true, false, &mut controls)
            .unwrap_err()
            .status,
        STATUS_INTERNAL
    );
    assert_eq!(
        adapter.begin_resize(session, None),
        Err(Reply::invalid(OPERATION_RESIZE))
    );
    assert_eq!(adapter.begin_terminate(session, true), Ok(target));
    assert_eq!(adapter.begin_cancel_output(session), Ok(Some(target)));
    assert_eq!(adapter.after_cancel_output(session, true), Reply::done());
    assert_eq!(adapter.begin_cancel_output(session), Ok(None));
    assert_eq!(adapter.begin_close(session), Ok(Some(target)));
    assert_eq!(adapter.after_close(session, Ok(())), Reply::done());
    assert_eq!(adapter.begin_close(session), Ok(None));
    assert_eq!(
        adapter.begin_resize(session + 1, Some(options().size)),
        Err(Reply::stale(OPERATION_RESIZE))
    );
    assert_eq!(
        write_reply(0).error,
        Error::value(ERROR_DOMAIN_INPUT, ERROR_QUEUE_FULL, OPERATION_WRITE, 0)
    );
    assert_eq!(write_reply(1), Reply::done());
    assert_eq!(write_reply(-1).status, STATUS_CLOSED);
    assert_eq!(write_reply(-2).status, STATUS_INTERNAL);
    assert_eq!(control_reply(OPERATION_RESIZE, true), Reply::done());
    assert_eq!(
        control_reply(OPERATION_RESIZE, false),
        Reply::refused(OPERATION_RESIZE)
    );
    assert_eq!(terminate_reply(Some(true)), (Reply::done(), Some(1)));
    assert_eq!(
        terminate_reply(None),
        (Reply::refused(OPERATION_TERMINATE), None)
    );
}

#[test]
fn test_controls_are_taken_once() {
    let mut controls = TestControls::default();
    test_delay_next_spawn(&mut controls, 30);
    assert_eq!(take_spawn_delay(&mut controls), 30);
    assert_eq!(take_spawn_delay(&mut controls), 0);
    assert!(!test_spawn_delay_active(&TestControls::default()));
    let adapter = Adapter::new();
    assert!(!test_kill_broker(&adapter, 1, Platform::Windows));
}

#[test]
fn runtime_options_name_the_broker() {
    assert_eq!(Adapter::begin_create(true, None), Ok(None));
    let mut named = RuntimeOptions {
        struct_size: RUNTIME_OPTIONS_SIZE,
        flags: 0,
        broker_path: view("/broker"),
        reserved: [0; 4],
    };
    assert_eq!(
        Adapter::begin_create(true, Some(&named)),
        Ok(Some(b"/broker".to_vec()))
    );
    named.flags = 1;
    assert_eq!(
        Adapter::begin_create(true, Some(&named)),
        Err(Reply::invalid(OPERATION_RUNTIME_CREATE))
    );
    let mut adapter = Adapter::new();
    assert_eq!(adapter.after_create(Ok(false)).0.status, STATUS_INTERNAL);
    assert_eq!(
        adapter.ptyx_runtime_capabilities(5, true, Platform::Windows),
        Err(Reply::stale(OPERATION_METADATA))
    );
    let runtime = adapter.insert_runtime();
    assert_eq!(
        adapter.ptyx_runtime_capabilities(runtime, true, Platform::Windows),
        Ok(capabilities(Platform::Windows))
    );
    assert_eq!(capabilities(Platform::Windows), 8);
}

#[test]
fn snapshots_are_filled_whole() {
    let mut adapter = Adapter::new();
    let runtime = adapter.insert_runtime();
    let session = spawned(&mut adapter, runtime, 70);
    let mut snapshot = SessionSnapshot {
        struct_size: SESSION_SNAPSHOT_SIZE,
        flags: 0,
        pid: 0,
        size: Size {
            rows: 0,
            columns: 0,
            pixel_width: 0,
            pixel_height: 0,
        },
        modes: 0,
        reserved0: 0,
        tty_name: Some(vec![0; 4]),
        tty_name_capacity: 4,
        tty_name_required: 0,
        reserved: [0; 4],
    };
    assert!(begin_snapshot(&adapter, session, Some(&snapshot)).is_ok());
    assert_eq!(
        begin_snapshot(&adapter, session, None),
        Err(Reply::invalid(OPERATION_METADATA))
    );
    let metadata = Metadata {
        pid: 12,
        size: [31, 97, 0, 0],
        mode: Some([true, false, true]),
        tty_name: Some(b"/dev/pts/3".to_vec()),
    };
    let reply = fill_snapshot(&mut snapshot, Some(metadata.clone()));
    assert_eq!(reply.status, STATUS_BUFFER_TOO_SMALL);
    assert_eq!(snapshot.tty_name_required, 10);
    snapshot.tty_name = Some(vec![7; 12]);
    snapshot.tty_name_capacity = 12;
    assert_eq!(fill_snapshot(&mut snapshot, Some(metadata)), Reply::done());
    assert_eq!(snapshot.tty_name.unwrap(), b"/dev/pts/3\x07\x07");
    assert_eq!((snapshot.pid, snapshot.flags, snapshot.modes), (12, 3, 5));
    assert_eq!((snapshot.size.rows, snapshot.size.columns), (31, 97));
}

#[test]
fn errors_are_formatted_whole_or_not_at_all() {
    let error = stale_error(OPERATION_WRITE);
    let formatted = ptyx_error_format(Some(&error), true, 64);
    assert_eq!(formatted.status, STATUS_OK);
    assert_eq!(formatted.required, Some(12));
    assert_eq!(formatted.written, b"stale handle\0");
    let small = ptyx_error_format(Some(&error), true, 3);
    assert_eq!(small.status, STATUS_BUFFER_TOO_SMALL);
    assert!(small.written.is_empty());
    assert_eq!(
        ptyx_error_format(None, true, 3).status,
        STATUS_INVALID_ARGUMENT
    );
    let mut stored = Error::none();
    set_error(&mut stored, error);
    assert_eq!(stored, error);
    clear_error(&mut stored);
    assert_eq!(stored, Error::none());
    assert!(error_is_valid(None));
    assert!(error_is_valid(Some(&stored)));
    assert_eq!(ptyx_abi_version(), 1);
    assert_eq!(mode_bits([true, true, true]), 7);
    assert_eq!(
        close_flags(CloseResult {
            input_failed: true,
            output_failed: false,
            cleanup_failed: true
        }),
        5
    );
    assert_eq!(EVENT_MODE_CHANGED, 10);
}

#[test]
fn event_wait_registration_obeys_stop_state() {
    let mut pump = Pump::new(0, 1);
    assert!(pump.begin_event_wait());
    pump.stop();
    assert!(!pump.begin_event_wait());
    pump.end_event_wait();
    assert_eq!(pump.in_flight_events, 0);
}

fn table_with_pump(runtime: u64) -> (PumpTable, u64) {
    let mut table = PumpTable::new();
    let handle = table.attach(runtime, 1).expect("the runtime is free");
    (table, handle)
}

fn clean(table: &mut PumpTable, handle: u64) -> u32 {
    match table.pumps.get_mut(handle) {
        Some(pump) => {
            if pump.begin_cleanup() {
                let (tokens, sessions) = pump.snapshot();
                let released = vec![STATUS_OK; tokens.len()];
                let events = pump.settle_events(&tokens, &released);
                let released = vec![STATUS_OK; sessions.len()];
                let sessions = pump.settle_sessions(&sessions, &released);
                let status = Pump::cleanup_status(STATUS_OK, events, sessions);
                if status == STATUS_OK && pump.after_retained_release(STATUS_OK) {
                    pump.after_runtime_release(STATUS_OK);
                }
                status
            } else {
                STATUS_OK
            }
        }
        None => STATUS_OK,
    }
}

#[test]
fn concurrent_detach_releases_runtime_once() {
    let (mut table, handle) = table_with_pump(9);
    let mut releases = 0;
    for _ in 0..2 {
        if let Some(pump) = table.pumps.get_mut(handle) {
            if pump.begin_cleanup() {
                releases += 1;
                pump.after_retained_release(STATUS_OK);
                pump.after_runtime_release(STATUS_OK);
            }
        }
    }
    assert_eq!(releases, 1);
    assert!(table.pumps.get(handle).unwrap().cleaned);
    assert_eq!(table.begin_detach(Some(handle)), Ok(Some(handle)));
    assert_eq!(
        table.after_detach(handle, STATUS_OK, STATUS_OK),
        (STATUS_OK, 0, None)
    );
}

#[test]
fn abort_releases_the_adapter_idempotently() {
    let (mut table, handle) = table_with_pump(9);

    let status = clean(&mut table, handle);
    assert!(table.pumps.get(handle).unwrap().cleaned);
    assert_eq!(
        table.after_detach(handle, STATUS_OK, status),
        (STATUS_OK, 0, None)
    );

    assert_eq!(table.begin_detach(Some(handle)), Ok(None));
    assert_eq!(table.begin_detach(Some(0)), Ok(None));
    assert_eq!(
        table.begin_detach(None),
        Err(Reply::invalid(OPERATION_RUNTIME_SHUTDOWN))
    );
}

#[test]
fn session_finalization_is_serialized_with_adapter_cleanup() {
    let mut pump = Pump::new(0, 1);
    pump.after_spawn_start(STATUS_OK, 7);

    assert!(pump.sessions.contains(&7));

    assert_eq!(pump.release_tracked_session(7, || STATUS_OK), STATUS_OK);
    assert!(!pump.sessions.contains(&7));
    assert_eq!(
        pump.release_tracked_session(7, || STATUS_OK),
        STATUS_STALE_HANDLE
    );
}

#[test]
fn failed_event_release_retains_the_token_for_retry() {
    let mut pump = Pump::new(0, 1);
    pump.outstanding.insert(7);

    assert_eq!(
        pump.acknowledge_token(7, || STATUS_INTERNAL),
        STATUS_INTERNAL
    );
    assert!(pump.outstanding.contains(&7));

    assert_eq!(pump.acknowledge_token(7, || STATUS_OK), STATUS_OK);
    assert!(!pump.outstanding.contains(&7));
}

#[test]
fn what_the_pump_does_not_hold_is_not_released() {
    let mut pump = Pump::new(0, 1);
    let mut calls = 0;
    let released = pump.release_tracked_session(7, || {
        calls += 1;
        STATUS_OK
    });
    assert_eq!(released, STATUS_STALE_HANDLE);
    let acknowledged = pump.acknowledge_token(7, || {
        calls += 1;
        STATUS_OK
    });
    assert_ne!(acknowledged, STATUS_OK);
    assert_eq!(calls, 0);
}

#[test]
fn the_pump_posts_output_and_gives_the_rest_back() {
    let mut pump = Pump::new(3, 1);
    let mut output = Event::empty(EVENT_SIZE);
    output.kind = EVENT_OUTPUT;
    output.token = 5;
    output.data_length = 2;
    assert_eq!(
        pump.after_next_event(STATUS_OK, &output, true),
        PumpStep::Post
    );
    assert!(pump.outstanding.contains(&5));
    assert_eq!(pump.after_post(&output, true), PumpStep::Wait);
    assert_eq!(
        pump.after_post(&output, false),
        PumpStep::Release { report: true }
    );
    assert!(!pump.outstanding.contains(&5));
    output.data_length = 0;
    assert_eq!(
        pump.after_next_event(STATUS_OK, &output, true),
        PumpStep::Release { report: true }
    );
    assert_eq!(
        pump.after_next_event(STATUS_END_OF_STREAM, &output, false),
        PumpStep::End { report: true }
    );
    pump.stop();
    assert_eq!(
        pump.after_next_event(STATUS_OK, &output, true),
        PumpStep::Release { report: false }
    );
    assert_eq!(terminal_failure().kind, 6);
    assert_eq!(finalized_event(8).session, 8);
    assert_eq!(release_request(9).token, 9);
}

#[test]
fn one_pump_uses_a_runtime() {
    let (mut table, handle) = table_with_pump(9);
    assert!(table.attach(9, 2).is_err());
    let other = table.attach(10, 2).unwrap();
    assert_ne!(other, handle);
    assert_eq!(table.begin_spawn(handle, true, true), Ok(9));
    table
        .pumps
        .get_mut(handle)
        .unwrap()
        .after_spawn_start(STATUS_OK, 44);
    assert_eq!(table.owner_of(44), Some(handle));
    assert_eq!(table.owner_of(45), None);
    assert_eq!(table.begin_session_release(handle, Some(44)), Ok(true));
    assert_eq!(table.begin_session_release(handle, Some(0)), Ok(false));
    assert_eq!(
        table
            .begin_session_release(handle, Some(45))
            .unwrap_err()
            .status,
        STATUS_WRONG_STATE
    );
    assert_eq!(table.begin_capabilities(other, true), Ok(10));
    assert_eq!(table.begin_ack(handle), Ok(()));
    table.pumps.get_mut(handle).unwrap().stop();
    assert_eq!(
        table.begin_spawn(handle, true, true).unwrap_err().status,
        STATUS_WRONG_STATE
    );
    assert_eq!(
        table.after_detach(handle, STATUS_OK, STATUS_INTERNAL),
        (STATUS_INTERNAL, handle, Some(Cleanup::Adapter(handle)))
    );
    assert_eq!(table.after_pump_end(handle, STATUS_OK), None);
    assert_eq!(
        table.begin_ack(handle),
        Err(Reply::stale(OPERATION_OUTPUT))
    );
    assert!(table.attach(9, 2).is_ok());
    assert!(PumpTable::check_attach(true, true, 4).is_ok());
    assert!(PumpTable::check_attach(false, true, 4).is_err());
    assert!(PumpTable::check_attach(true, false, 4).is_err());
}

#[test]
fn failed_cleanups_are_tried_again_later() {
    let mut queue = CleanupQueue::new();
    assert!(queue.schedule_cleanup(Cleanup::Session(4), 100));
    assert!(!queue.schedule_cleanup(Cleanup::Session(4), 100));
    assert_eq!(queue.next_wait(100), 0);
    let item = queue.take_due(100).unwrap();
    assert_eq!(item.delay, CLEANUP_RETRY_DELAY);
    queue.settle(STATUS_BUSY, 100);
    assert_eq!(queue.take_due(100), None);
    assert_eq!(queue.next_wait(100), CLEANUP_RETRY_DELAY);
    let item = queue.take_due(100 + CLEANUP_RETRY_DELAY).unwrap();
    assert_eq!(item.delay, CLEANUP_RETRY_DELAY * 2);
    queue.settle(STATUS_STALE_HANDLE, 0);
    assert_eq!(queue.next_wait(0), CLEANUP_RETRY_MAX_DELAY);
    assert_eq!(finalize_adapter(0), None);
    assert_eq!(finalize_session(3), Some(Cleanup::Session(3)));
}

#[test]
fn acknowledgements_and_initialization_answer() {
    assert_eq!(
        ack_reply(1, 2, STATUS_STALE_HANDLE, Error::none()),
        (Reply::stale(OPERATION_OUTPUT), None)
    );
    assert_eq!(
        ack_reply(1, 2, STATUS_BUSY, Error::none()).1,
        Some(Cleanup::Event {
            adapter: 1,
            token: 2
        })
    );
    assert_eq!(ack_reply(1, 2, STATUS_OK, Error::none()).1, None);
    assert_eq!(initialize_status(true, true, true, true), STATUS_OK);
    assert_eq!(
        initialize_status(true, false, true, true),
        STATUS_INVALID_ARGUMENT
    );
}

#[test]
fn a_write_is_checked_before_anything_is_locked() {
    let mut controls = TestControls::default();
    assert!(check_write(0, false, &mut controls).is_ok());
    assert!(check_write(3, true, &mut controls).is_ok());
    let invalid = Err(Reply::invalid(OPERATION_WRITE));
    assert_eq!(check_write(3, false, &mut controls), invalid);
    assert_eq!(check_write(u64::MAX, true, &mut controls), invalid);
    test_fail_next_write(&mut controls);
    assert_eq!(check_write(3, false, &mut controls), invalid);
    assert_eq!(check_write(3, true, &mut controls), Err(Reply::lost(OPERATION_WRITE)));
    assert!(check_write(3, true, &mut controls).is_ok());
}
