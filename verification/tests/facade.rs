use bytes::Bytes;
use ptyx::c_snapshot::Metadata;
use ptyx::controller::{
    check_hello, close_status, hello_payload, BrokerFault, Request, RequestTurn, REQUEST_QUANTUM,
};
use ptyx::engine_event;
use ptyx::error::{
    CloseResult, FailureKind, InvalidSize, Operation, OperationError, SpawnError, WriteErrorKind,
};
use ptyx::facade::{
    clear_waker, convert, dropped_spawn, publish_session, register_waker, snapshot_of,
    spawn_outcome, CachedClose, CloseState, Event, ExitStatus, OutputChunk, RuntimeBuilder,
    RuntimeError, SessionControl, WaitStep, WriteError,
};
use ptyx::fault::{ErrorKind, IoError};
use ptyx::frame::{self, Frame, CLOSE_ALREADY_EXITED, CLOSE_KILLED, CLOSE_STALE};
use ptyx::options::{native_spawn_options, Size, SpawnOptions};
use ptyx::spawn::BrokerSpawn;
use ptyx::spawn_payload::decode_spawn;
use ptyx::wire;

#[test]
fn close_status_accepts_killed_and_already_exited() {
    assert!(close_status(CLOSE_KILLED).is_ok());
    assert!(close_status(CLOSE_ALREADY_EXITED).is_ok());
}

#[test]
fn close_status_preserves_stale_and_unknown_results() {
    assert_eq!(
        close_status(CLOSE_STALE).unwrap_err().kind(),
        ErrorKind::NotFound
    );
    assert_eq!(close_status(99).unwrap_err().kind(), ErrorKind::InvalidData);
}

#[test]
fn broker_faults_become_errors() {
    assert_eq!(BrokerFault::Os(13).error().raw_os_error(), Some(13));
    assert_eq!(BrokerFault::Os(libc::ENOENT).error().kind(), ErrorKind::NotFound);
    assert!(!BrokerFault::Os(libc::ENOENT).error().message.is_empty());
    assert_eq!(BrokerFault::Stale.error().kind(), ErrorKind::NotFound);
}

#[test]
fn a_broker_that_does_not_fit_is_rejected() {
    let identity = hello_payload(b"1.2.3", b"x86_64");
    let mut hello = Frame::new(frame::HELLO);
    hello.aux = 1;
    hello.payload = identity.clone();
    assert_eq!(check_hello(&hello, &identity, false), Ok(()));
    assert_eq!(
        check_hello(&hello, &identity, true).unwrap_err().message,
        "broker handshake rejected"
    );
    hello.payload.push(0);
    assert!(check_hello(&hello, &identity, false).is_err());
}

#[test]
fn operating_system_pipe_failure_is_not_normalized_to_clean_closure() {
    let error = IoError::new(ErrorKind::BrokenPipe, "write failed");

    let failure = OperationError::from_io(Operation::Write, &error);

    assert_eq!(failure.kind(), FailureKind::NativeFailure);
}

#[test]
fn operation_errors_preserve_stable_native_context() {
    let error = OperationError::new(Operation::Write, FailureKind::NativeFailure, Some(32));

    assert_eq!(error.operation(), Operation::Write);
    assert_eq!(error.kind(), FailureKind::NativeFailure);
    assert_eq!(error.native_code(), Some(32));
    assert_eq!(
        error.to_string(),
        "write failed with native failure (native code 32)"
    );
}

#[test]
fn close_result_retains_every_failure_and_prioritizes_cleanup() {
    let input = OperationError::new(Operation::Write, FailureKind::Closed, None);
    let output = OperationError::new(Operation::Output, FailureKind::NativeFailure, Some(5));
    let cleanup = OperationError::new(Operation::Close, FailureKind::InfrastructureLost, None);
    let result = CloseResult {
        input_failure: Some(input),
        output_failure: Some(output),
        cleanup_failure: Some(cleanup),
    };

    assert!(!result.is_success());
    assert_eq!(result.primary_failure(), Some(cleanup));
    assert_eq!(result.input_failure, Some(input));
    assert_eq!(result.output_failure, Some(output));
    assert!(CloseResult::default().is_success());
}

#[test]
fn errors_of_the_interface_have_their_texts() {
    assert_eq!(
        InvalidSize.to_string(),
        "terminal rows and columns must be in 1..=32767"
    );
    let error = ptyx::error::WriteError::new(
        WriteErrorKind::Backpressure,
        Bytes::from_static(b"x"),
        None,
    );
    assert_eq!(error.kind(), WriteErrorKind::Backpressure);
    assert_eq!(error.into_bytes(), Bytes::from_static(b"x"));
    assert_eq!(
        OperationError::new(Operation::Exit, FailureKind::Unsupported, None).to_string(),
        "exit observation failed with unsupported operation"
    );
}

#[test]
fn command_builder_preserves_owned_spawn_values() {
    let executable = b"/bin/sh".to_vec();
    let argument = b"printf ready".to_vec();
    let options = SpawnOptions::new(executable.clone())
        .argument(b"-c".to_vec())
        .argument(argument.clone())
        .size(Size::new(40, 120));

    assert_eq!(options.executable(), &executable);
    assert_eq!(options.arguments(), &vec![b"-c".to_vec(), argument]);
    assert_eq!(options.initial_size(), Size::new(40, 120));
}

#[test]
fn size_rejects_zero_cell_dimensions() {
    let error = Size::try_new(0, 80).unwrap_err();

    assert_eq!(
        error.to_string(),
        "terminal rows and columns must be in 1..=32767"
    );
}

#[test]
fn size_rejects_nonportable_cell_dimensions() {
    let error = Size::try_new(32768, 80).unwrap_err();

    assert_eq!(
        error.to_string(),
        "terminal rows and columns must be in 1..=32767"
    );
}

#[test]
fn sizes_survive_the_engine() {
    let size = Size::new(24, 80).with_pixels(640, 480);
    assert_eq!(size.native(), [24, 80, 640, 480]);
    assert_eq!(Size::from_native(size.native()), Some(size));
    assert_eq!(Size::from_native([0, 80, 0, 0]), None);
    assert_eq!(Size::from_native([24, 0, 0, 0]), None);
    let largest = Size::new(32767, 32767).with_pixels(65535, 65535);
    assert_eq!(Size::from_native([32767, 32767, 65535, 65535]), Some(largest));
}

#[test]
fn sizes_beyond_the_portable_limit_are_none() {
    assert_eq!(Size::from_native([32768, 80, 0, 0]), None);
    assert_eq!(Size::from_native([24, 32768, 0, 0]), None);
    assert_eq!(Size::from_native([65535, 65535, 0, 0]), None);
    assert_eq!(Size::from_native([24, 80, 65536, 0]), None);
    assert_eq!(Size::from_native([24, 80, 0, 65536]), None);
    let metadata = Metadata {
        pid: 7,
        size: [32768, 80, 0, 0],
        mode: None,
        tty_name: None,
    };
    assert!(snapshot_of(Some(metadata)).is_err());
}

#[test]
fn graceful_close_timeout_rejects_more_than_sixty_seconds() {
    let result = native_spawn_options(
        SpawnOptions::new(b"/bin/sh".to_vec()).graceful_close_timeout(61_000_000_000),
    );

    assert!(matches!(result, Err(SpawnError::InvalidCloseTimeout)));
}

#[test]
fn spawn_options_are_validated_field_by_field() {
    let options = || SpawnOptions::new(b"/bin/sh".to_vec());
    assert!(matches!(
        native_spawn_options(options().input_capacity(0)),
        Err(SpawnError::InvalidCapacity { bytes: 0, .. })
    ));
    assert!(matches!(
        native_spawn_options(options().environment(vec![(b"A=B".to_vec(), b"c".to_vec())])),
        Err(_)
    ));
    assert!(matches!(
        native_spawn_options(options().argument(b"a\0b".to_vec())),
        Err(_)
    ));
    let (config, input, output) = native_spawn_options(
        options()
            .clear_environment()
            .current_dir(b"/tmp".to_vec())
            .input_capacity(10)
            .output_capacity(20),
    )
    .expect("the options are acceptable");
    assert_eq!((input, output), (10, 20));
    assert_eq!(config.environment, Some(Vec::new()));
    assert_eq!(config.cwd, Some(b"/tmp".to_vec()));
}

fn valid() -> BrokerSpawn<u8> {
    BrokerSpawn {
        executable: b"echo".to_vec(),
        arguments: Vec::new(),
        environment: None,
        cwd: None,
        rows: 24,
        columns: 80,
        pixel_width: 0,
        pixel_height: 0,
        graceful_close_timeout: 250_000_000,
    }
}

#[test]
fn rejects_platform_inconsistent_cell_dimensions() {
    let mut config = valid();
    config.columns = i16::MAX as u32 + 1;
    assert_eq!(
        config.validate().unwrap_err().kind(),
        ErrorKind::InvalidInput
    );
}

#[test]
fn rejects_argument_node_amplification() {
    let mut config = valid();
    config.arguments = vec![Vec::new(); 257];
    assert_eq!(
        config.validate().unwrap_err().kind(),
        ErrorKind::InvalidInput
    );
}

#[test]
fn rejects_oversized_encoded_payload() {
    let mut config = valid();
    config.arguments = vec!["x".repeat(64 * 1024).into_bytes()];
    assert_eq!(
        config.validate().unwrap_err().kind(),
        ErrorKind::InvalidInput
    );
}

#[test]
fn the_broker_receives_the_configuration() {
    let mut config = valid();
    config.arguments = vec![b"hello".to_vec()];
    config.environment = Some(vec![(b"TERM".to_vec(), b"xterm".to_vec())]);
    config.cwd = Some(b"/tmp".to_vec());
    let payload = config.encode(wire::native_order()).unwrap();
    assert_eq!(payload.len(), config.encoded_payload_size().unwrap());
    let request = decode_spawn(&payload).unwrap();
    assert!(!request.inject);
    assert_eq!(request.argv, vec![b"echo".to_vec(), b"hello".to_vec()]);
    assert_eq!(request.environment, Some(vec![b"TERM=xterm".to_vec()]));
    assert_eq!(request.cwd, Some(b"/tmp".to_vec()));
    assert_eq!((request.size.ws_row, request.size.ws_col), (24, 80));
}

#[test]
fn unix_runtime_requires_an_explicit_broker() {
    let Err(error) = RuntimeBuilder::new().unix_broker() else {
        panic!("runtime unexpectedly accepted no Unix broker");
    };

    assert!(matches!(error, RuntimeError::MissingBroker));
    assert_eq!(
        RuntimeBuilder::default()
            .broker_path(b"/broker".to_vec())
            .unix_broker()
            .ok(),
        Some(b"/broker".to_vec())
    );
}

#[test]
fn dropped_close_waiters_do_not_accumulate_waker_slots() {
    let mut wakers: Vec<Option<u32>> = Vec::new();
    for _ in 0..10_000 {
        let mut index = None;
        register_waker(&mut wakers, &mut index, 1);
        clear_waker(&mut wakers, index.expect("waker slot registered"));
    }

    assert!(wakers.is_empty());
}

#[test]
fn snapshot_captures_session_metadata_atomically() {
    let snapshot = snapshot_of(Some(Metadata {
        pid: 41,
        size: [31, 97, 0, 0],
        mode: Some([true, true, false]),
        tty_name: Some(b"/dev/pts/1".to_vec()),
    }))
    .expect("capture session metadata");

    assert_ne!(snapshot.process_id(), 0);
    assert_eq!(snapshot.size(), Size::new(31, 97));
    assert!(snapshot.terminal_name().is_some());
    assert!(snapshot.terminal_mode().is_some());
    assert!(snapshot_of(None).is_err());
}

#[test]
fn exit_statuses_tell_codes_from_signals() {
    assert_eq!(ExitStatus::from_engine(3), Some(ExitStatus::Exited(3)));
    assert_eq!(ExitStatus::from_engine(-9), Some(ExitStatus::Signaled(9)));
    assert_eq!(ExitStatus::from_engine(i64::MAX), None);
    assert_eq!(ExitStatus::from_engine(i64::MIN), None);
}

#[test]
fn notices_become_events() {
    let event = convert(engine_event::Notice::Output {
        handle: 4,
        bytes: Bytes::from_static(b"out"),
    });
    match event {
        Event::Output(chunk) => assert_eq!(chunk.as_slice(), b"out"),
        _ => panic!("output is an event"),
    }
    assert!(matches!(
        convert(engine_event::Notice::OutputDone(4)),
        Event::OutputDone
    ));
    let chunk = OutputChunk::new(Bytes::new());
    assert!(chunk.is_empty());
    assert_eq!(chunk.len(), 0);
}

#[test]
fn spawn_results_reach_their_owner_or_are_given_up() {
    assert_eq!(spawn_outcome(Some(Ok(5))).ok(), Some(5));
    assert!(spawn_outcome(None).is_err());
    assert_eq!(dropped_spawn(Some(Ok(5))), Some(5));
    assert_eq!(dropped_spawn(None), None);
    assert!(publish_session(true, true).is_ok());
    assert!(publish_session(true, false).is_err());
}

#[test]
fn a_close_is_started_once_and_shared() {
    let mut state: CloseState<u32, u32> = CloseState::new();
    assert!(state.needs_start());
    state.after_start(Ok(7)).expect("the close starts");
    assert!(!state.needs_start());
    assert!(matches!(state.wait_close(), WaitStep::Await(7)));
    let mut index = None;
    assert!(state.poll_waiting(&mut index, 3).is_none());
    let result = CachedClose::from_engine(Some(engine_event::CloseResult::default()));
    let (_, wakers) = state.finish_close(result);
    assert_eq!(wakers, vec![3]);
    assert!(matches!(state.wait_close(), WaitStep::Ready(CachedClose::Complete(_))));
}

#[test]
fn session_controls_keep_their_rules() {
    let mut control = SessionControl::new(12);
    assert!(control.begin_write(&Bytes::from_static(b"x")).is_ok());
    assert_eq!(SessionControl::after_write(1), Ok(()));
    assert_eq!(
        SessionControl::after_write(0),
        Err(WriteError::Backpressure)
    );
    assert!(control.begin_cancel_output());
    assert!(control.after_cancel_output(true).is_ok());
    assert!(!control.begin_cancel_output());
    assert_eq!(control.begin_observe_modes(true).ok(), Some(true));
    assert!(control.after_observe_modes(true, true).is_ok());
    assert_eq!(SessionControl::after_terminate(Some(false)).ok(), Some(false));
    assert_eq!(
        SessionControl::after_terminate(None)
            .unwrap_err()
            .operation(),
        "termination"
    );
    assert_eq!(control.abandoned(), Some(12));
    assert_eq!(control.release_output(0), None);
}

#[test]
fn options_give_back_what_they_were_given() {
    let plain = SpawnOptions::new(b"/bin/sh".to_vec());
    assert_eq!(plain.environment_ref(), None);
    assert_eq!(plain.current_directory(), None);

    let options = plain
        .argument(b"-c".to_vec())
        .environment(vec![(b"A".to_vec(), b"1".to_vec())])
        .current_dir(b"/tmp".to_vec())
        .size(Size::new(2, 3));

    assert_eq!(options.executable(), b"/bin/sh");
    assert_eq!(options.arguments(), &vec![b"-c".to_vec()]);
    assert_eq!(options.environment_ref(), Some(&vec![(b"A".to_vec(), b"1".to_vec())]));
    assert_eq!(options.current_directory(), Some(&b"/tmp".to_vec()));
    assert_eq!(options.initial_size(), Size::new(2, 3));
    assert_eq!(options.clear_environment().environment_ref(), Some(&vec![]));
}

#[test]
fn a_closed_session_takes_no_write() {
    let bytes = Bytes::from_static(b"x");
    let mut control = SessionControl::new(9);
    assert_eq!(control.begin_write(&bytes), Ok(()));
    control.mark_closing();
    assert_eq!(control.begin_write(&bytes), Err(WriteError::Closed));
    assert_eq!(control.release_output(3), Some(3));
    control.mark_closed();
    assert_eq!(control.begin_write(&bytes), Err(WriteError::Closed));
    assert_eq!(control.begin_write(&Bytes::new()), Err(WriteError::Empty));
    assert_eq!(control.release_output(3), None);
}

#[test]
fn a_turn_of_requests_takes_the_quantum_or_ends_at_a_shutdown() {
    let mut turn = RequestTurn::new();
    assert_eq!(turn.wakes(), (false, false));
    while turn.takes_more() {
        turn.count(&Request::AbortDetached { session: 1 });
    }
    assert_eq!((turn.taken, turn.stopped), (REQUEST_QUANTUM, false));
    assert_eq!(turn.wakes(), (true, true));

    let mut turn = RequestTurn::new();
    turn.count(&Request::Abort { session: 1 });
    assert_eq!(turn.wakes(), (false, true));
    turn.count(&Request::Shutdown);
    assert!(!turn.takes_more());
    assert_eq!((turn.stopped, turn.wakes()), (true, (false, false)));
}

#[test]
fn events_show_their_output_as_their_consumer_wants_it() {
    let output = convert(engine_event::Notice::Output {
        handle: 7,
        bytes: Bytes::from_static(b"abc"),
    });
    match output.map_output(|chunk| chunk.len()) {
        Event::Output(length) => assert_eq!(length, 3),
        _ => panic!("output stays output"),
    }
    let exited = convert(engine_event::Notice::Exit { handle: 7, status: 3 });
    assert!(matches!(
        exited.map_output(|chunk| chunk.len()),
        Event::Exited(ExitStatus::Exited(3))
    ));
}

#[test]
fn one_who_polled_the_completion_finishes_the_close() {
    let mut close: CloseState<u8, u8> = CloseState::new();
    assert!(close.after_start(Ok(5)).is_ok());
    close.completion_came();
    assert!(!close.needs_start());
    assert!(matches!(close.wait_close(), WaitStep::Block));
    let (cached, _) = close.finish_close(CachedClose::Lost);
    assert_eq!(cached, CachedClose::Lost);
    assert!(matches!(close.wait_close(), WaitStep::Ready(CachedClose::Lost)));
}
