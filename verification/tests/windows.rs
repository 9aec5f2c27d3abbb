use bytes::Bytes;
use ptyx::command_line::build_command_line_wide;
use ptyx::control::Control;
use ptyx::error::{CloseResult, FailureKind, Operation, OperationError, WriteErrorKind};
use ptyx::fault::{ErrorKind, IoError};
use ptyx::notice::{spawn_notice, Failure, Notice};
use ptyx::runtime::CommandTurn;
use ptyx::session::Sent;
use ptyx::spawn::BrokerSpawn;
use ptyx::windows_budget::{
    copy_result, output_notification_deadline, output_terminal_notice, reserve_session,
    try_command_submission, AdmissionResult, CloseAdmission, LockAttempt, NoticeBudget,
    OutputTerminalNotice, WindowsAdmission,
};
use ptyx::windows_desk::NoticeDesk;
use ptyx::windows_reactor::{
    close_key, exit_key, port_event, read_outcome, AddStep, PortEvent, Transfer, WindowsCommand,
    WindowsReactor, WindowsReply, WindowsWork, INFINITE, NOTICE_AVAILABLE_KEY,
};
use ptyx::windows_runtime::WindowsRuntime;
use ptyx::windows_session::{
    ConsoleStep, Follow, Outbox, ReadDone, Submitted, WindowsSession, ACTIVATION_TIMEOUT,
    OUTPUT_DELAY,
};
use ptyx::windows_spawn::{
    build_environment_wide, conpty_size, nul_terminated_wide, pipe_name, process_image,
    uses_search_path, validate_windows_build, RankedEntry,
};

fn wide(value: &str) -> Vec<u16> {
    value.encode_utf16().collect()
}

fn command_line(arguments: &[&str]) -> String {
    let arguments = arguments.iter().map(|argument| wide(argument)).collect();
    let command = build_command_line_wide(&arguments).unwrap();
    String::from_utf16_lossy(&command[..command.len() - 1])
}

fn entry(rank: u32, key: &str, value: &str) -> RankedEntry {
    RankedEntry {
        rank,
        key: wide(key),
        value: wide(value),
    }
}

#[test]
fn notice_budget_rejects_reservations_beyond_its_limit() {
    let mut budget = NoticeBudget::new(2);
    let first = budget.try_reserve();
    let second = budget.try_reserve();

    let third = budget.try_reserve();

    assert!(first.is_some());
    assert!(second.is_some());
    assert!(third.is_none());
}

#[test]
fn notice_reservation_release_restores_capacity() {
    let mut budget = NoticeBudget::new(1);
    let reservation = budget.try_reserve().expect("reservation is available");
    budget.release(reservation);

    let replacement = budget.try_reserve();

    assert!(replacement.is_some());
}

#[test]
fn queued_notices_stay_within_the_budget() {
    let mut budget = NoticeBudget::new(2);
    assert!(budget.try_reserve_many(2));
    assert!(!budget.try_reserve_many(1));
    budget.settle(true);
    budget.settle(false);
    assert_eq!((budget.held, budget.queued), (0, 1));
    assert!(budget.consumed(1));
    assert!(!budget.consumed(0));
    assert_eq!(budget.queued, 0);
}

#[test]
fn owned_write_rejection_returns_the_exact_allocation() {
    let mut admission = WindowsAdmission::new(4);
    let bytes = Bytes::from(vec![1]);
    let original_pointer = bytes.as_ptr();

    let rejected = admission
        .admit_owned_write(bytes, false, || true, |bytes| Err((Sent::Full, bytes)))
        .expect_err("full command queue must reject the write");

    assert_eq!(rejected.kind(), WriteErrorKind::Backpressure);
    let bytes = rejected.into_bytes();
    assert_eq!(bytes.as_ptr(), original_pointer);
}

#[test]
fn owned_write_acceptance_moves_the_exact_allocation() {
    let mut admission = WindowsAdmission::new(4);
    let bytes = Bytes::from(vec![1]);
    let original_pointer = bytes.as_ptr();
    let mut queued = None;

    admission
        .admit_owned_write(
            bytes,
            false,
            || true,
            |bytes| {
                queued = Some(bytes);
                Ok(())
            },
        )
        .expect("write must be accepted");

    assert_eq!(queued.unwrap().as_ptr(), original_pointer);
    assert_eq!((admission.inner.bytes, admission.inner.entries), (1, 1));
}

#[test]
fn empty_owned_write_is_a_noop() {
    let mut admission = WindowsAdmission::new(4);
    let mut queued = false;

    admission
        .admit_owned_write(
            Bytes::new(),
            false,
            || true,
            |_| {
                queued = true;
                Ok(())
            },
        )
        .expect("empty writes are successful no-ops");

    assert!(!queued);
    assert_eq!(admission.inner.bytes, 0);
    assert_eq!(admission.inner.entries, 0);
}

#[test]
fn contended_copy_admission_returns_backpressure_without_copying() {
    let mut admission = WindowsAdmission::new(4);
    let mut constructed = false;

    let result = admission.admit_write_with(
        1,
        LockAttempt::Contended,
        || true,
        || {
            constructed = true;
            Sent::Queued
        },
    );

    assert_eq!(result, AdmissionResult::Backpressure);
    assert!(!constructed);
}

#[test]
fn contended_command_submission_returns_copy_backpressure() {
    let result = try_command_submission(LockAttempt::Contended);

    assert!(matches!(result, Err(0)));
    assert_eq!(try_command_submission(LockAttempt::Taken), Ok(()));
    assert_eq!(try_command_submission(LockAttempt::Poisoned), Err(-2));
}

#[test]
fn owned_write_wake_failure_returns_the_exact_allocation_without_enqueueing() {
    let mut admission = WindowsAdmission::new(4);
    let bytes = Bytes::from(vec![1]);
    let original_pointer = bytes.as_ptr();
    let mut queued = false;

    let rejected = admission
        .admit_owned_write(
            bytes,
            false,
            || false,
            |_| {
                queued = true;
                Ok(())
            },
        )
        .expect_err("failed wake must reject the write");

    assert_eq!(rejected.kind(), WriteErrorKind::Infrastructure);
    let bytes = rejected.into_bytes();
    assert_eq!(bytes.as_ptr(), original_pointer);
    assert!(!queued);
    assert!(!admission.inner.open);
}

#[test]
fn copy_write_wake_failure_does_not_copy_or_enqueue() {
    let mut admission = WindowsAdmission::new(4);
    let mut constructed = false;

    let result = admission.admit_write_with(
        1,
        LockAttempt::Taken,
        || false,
        || {
            constructed = true;
            Sent::Queued
        },
    );

    assert_eq!(result, AdmissionResult::Infrastructure);
    assert!(!constructed);
}

#[test]
fn a_lost_runtime_stays_the_reason_of_every_later_write() {
    let mut admission = WindowsAdmission::new(4);
    let lost = OperationError::new(Operation::Write, FailureKind::InfrastructureLost, None);
    let result =
        admission.admit_write_with(1, LockAttempt::Taken, || true, || Sent::Disconnected);
    assert_eq!(copy_result(result, admission.failure), Err(lost));
    let later = admission.admit_write_with(1, LockAttempt::Taken, || true, || Sent::Queued);
    assert_eq!(later, AdmissionResult::Closed);
    assert_eq!(copy_result(later, admission.failure), Err(lost));
    assert_eq!(copy_result(AdmissionResult::Accepted, None), Ok(()));
    assert_eq!(
        copy_result(AdmissionResult::Closed, None).unwrap_err().kind(),
        FailureKind::Closed
    );
    assert_eq!(
        copy_result(AdmissionResult::Backpressure, None)
            .unwrap_err()
            .kind(),
        FailureKind::Backpressure
    );
}

#[test]
fn notice_blocked_output_has_no_due_deadline() {
    assert_eq!(output_notification_deadline(true, false, false, Some(17)), None);
    assert_eq!(
        output_notification_deadline(false, false, false, Some(17)),
        Some(17)
    );
}

#[test]
fn close_admission_isolates_four_hung_closes() {
    let mut admission = CloseAdmission::new(5);
    let _first = admission.try_reserve().expect("first close is admitted");
    let _second = admission.try_reserve().expect("second close is admitted");
    let _third = admission.try_reserve().expect("third close is admitted");
    let _fourth = admission.try_reserve().expect("fourth close is admitted");

    let fifth = admission.try_reserve();

    assert!(fifth.is_some());
}

#[test]
fn close_admission_rejects_spawn_when_every_slot_is_reserved() {
    let mut admission = CloseAdmission::new(1);
    let reserved = admission.try_reserve().expect("close is admitted");

    let exhausted = admission.try_reserve();

    assert!(exhausted.is_none());
    admission.release(reserved);
    assert!(admission.try_reserve().is_some());
}

#[test]
fn a_session_reserves_its_close_and_its_notices() {
    let mut admission = CloseAdmission::new(2);
    let mut budget = NoticeBudget::new(9);
    assert!(reserve_session(&mut admission, &mut budget).is_ok());
    assert_eq!((admission.reserved, budget.held), (1, 5));
    assert_eq!(
        reserve_session(&mut admission, &mut budget)
            .unwrap_err()
            .message,
        "native notification capacity is exhausted"
    );
    assert_eq!(admission.reserved, 1);
    let mut full = CloseAdmission::new(0);
    assert_eq!(
        reserve_session(&mut full, &mut budget).unwrap_err().message,
        "ConPTY close isolation capacity is exhausted"
    );
}

#[test]
fn output_failure_waits_for_outstanding_bytes() {
    let notice = output_terminal_notice(true, true, 0, 1, false, false);

    assert_eq!(notice, None);
}

#[test]
fn output_failure_emits_after_every_byte_drains() {
    let notice = output_terminal_notice(true, true, 0, 0, false, false);

    assert_eq!(notice, Some(OutputTerminalNotice::Failed));
}

#[test]
fn command_line_preserves_empty_argument() {
    assert_eq!(command_line(&["program.exe", ""]), r#"program.exe """#);
}

#[test]
fn command_line_escapes_quotes_and_trailing_backslashes() {
    assert_eq!(
        command_line(&["program.exe", r#"quote"inside"#, r"tail\\"]),
        r#"program.exe "quote\"inside" tail\\"#
    );
}

#[test]
fn command_line_doubles_backslashes_before_quotes() {
    assert_eq!(
        command_line(&["program.exe", r"two words\", r#"a\"b"#]),
        r#"program.exe "two words\\" "a\\\"b""#
    );
    let nul = vec![wide("program.exe"), vec![0]];
    assert_eq!(
        build_command_line_wide(&nul).unwrap_err().kind(),
        ErrorKind::InvalidInput
    );
}

#[test]
fn bare_executables_use_windows_search_path() {
    assert!(uses_search_path(&wide("cmd.exe")));
    assert!(uses_search_path(&wide("tool")));
    assert!(!uses_search_path(&wide(r"C:\tools\tool.exe")));
    assert!(!uses_search_path(&wide(r".\tool.exe")));
    assert!(!uses_search_path(&wide(r"\\server\share\tool.exe")));
}

#[test]
fn environment_sorts_case_insensitively() {
    let block = build_environment_wide(
        vec![
            entry(2, "zeta", "2"),
            entry(0, "Alpha", "1"),
            entry(1, "SystemRoot", r"C:\Windows"),
        ],
        1,
        None,
    )
    .unwrap();

    assert_eq!(
        String::from_utf16_lossy(&block),
        "Alpha=1\0SystemRoot=C:\\Windows\0zeta=2\0\0"
    );
}

#[test]
fn later_case_variant_replaces_earlier_environment_entry() {
    let block = build_environment_wide(
        vec![
            entry(0, "Path", "old"),
            entry(0, "PATH", "new"),
            entry(1, "SystemRoot", r"C:\Windows"),
        ],
        1,
        None,
    )
    .unwrap();

    assert!(String::from_utf16_lossy(&block).contains("PATH=new\0"));
    assert!(!String::from_utf16_lossy(&block).contains("old"));
}

#[test]
fn environment_rejects_separator_in_key() {
    let result = build_environment_wide(
        vec![
            entry(0, "BAD=KEY", "value"),
            entry(1, "SystemRoot", r"C:\Windows"),
        ],
        1,
        None,
    );

    assert_eq!(result.unwrap_err().kind(), ErrorKind::InvalidInput);
}

#[test]
fn environment_takes_the_system_root_or_misses_it() {
    let block = build_environment_wide(
        vec![entry(2, "zeta", "2")],
        1,
        Some(entry(1, "SystemRoot", r"D:\Win")),
    )
    .unwrap();
    assert_eq!(
        String::from_utf16_lossy(&block),
        "SystemRoot=D:\\Win\0zeta=2\0\0"
    );
    let missing = build_environment_wide(vec![entry(2, "zeta", "2")], 1, None).unwrap_err();
    assert_eq!(missing.kind(), ErrorKind::NotFound);
    assert_eq!(missing.message, "SystemRoot is required");
}

#[test]
fn dimensions_accept_signed_coordinate_maximum() {
    let size = conpty_size(i16::MAX as u32, i16::MAX as u32).unwrap();

    assert_eq!((size.y, size.x), (i16::MAX, i16::MAX));
}

#[test]
fn dimensions_reject_zero_rows() {
    let result = conpty_size(0, 80);

    assert!(matches!(
        result,
        Err(error) if error.kind() == ErrorKind::InvalidInput
    ));
}

#[test]
fn dimensions_reject_unsigned_coordinate_range() {
    let result = conpty_size(i16::MAX as u32 + 1, 80);

    assert!(matches!(
        result,
        Err(error) if error.kind() == ErrorKind::InvalidInput
    ));
}

#[test]
fn windows_builds_and_names_are_checked() {
    assert_eq!(validate_windows_build(0, 10, 26_100), Ok(()));
    assert_eq!(
        validate_windows_build(0, 6, 7601).unwrap_err().kind(),
        ErrorKind::Unsupported
    );
    assert_eq!(
        validate_windows_build(-1, 10, 26_100).unwrap_err().kind(),
        ErrorKind::Other
    );
    assert_eq!(
        pipe_name(&[0xab; 16]),
        format!("{}{}", r"\\.\pipe\ptyx-", "ab".repeat(16))
    );
    assert_eq!(nul_terminated_wide(&wide("ab"), "cwd"), Ok(vec![97, 98, 0]));
    assert_eq!(
        nul_terminated_wide(&vec![97, 0], "cwd").unwrap_err().message,
        "cwd contains NUL"
    );
}

fn configuration(executable: &str) -> BrokerSpawn<u16> {
    BrokerSpawn {
        executable: wide(executable),
        arguments: vec![wide("/c"), wide("echo hi")],
        environment: None,
        cwd: None,
        rows: 24,
        columns: 80,
        pixel_width: 0,
        pixel_height: 0,
        graceful_close_timeout: 0,
    }
}

#[test]
fn process_images_name_the_program_unless_it_is_searched() {
    let image = process_image(&configuration("cmd.exe")).unwrap();
    assert_eq!(image.application, None);
    assert_eq!((image.size.x, image.size.y), (80, 24));
    assert_eq!(
        String::from_utf16_lossy(&image.command_line),
        "cmd.exe /c \"echo hi\"\0"
    );
    let image = process_image(&configuration(r"C:\cmd.exe")).unwrap();
    assert_eq!(
        image.application.map(|name| String::from_utf16_lossy(&name)),
        Some("C:\\cmd.exe\0".to_owned())
    );
}

fn live() -> (WindowsReactor, u64, Outbox) {
    let mut reactor = WindowsReactor::new();
    let session = WindowsSession::from_spawned(77, [24, 80, 0, 0], 5, 16, 64, 1_000);
    let handle = reactor.add(session);
    assert!(matches!(
        reactor.after_associate(handle, Ok(()), false),
        AddStep::Watch
    ));
    (reactor, handle, Outbox::new(true, 8))
}

fn steps(work: &WindowsWork) -> Vec<Follow> {
    match work {
        WindowsWork::Follow { steps, .. } => steps.clone(),
        _ => Vec::new(),
    }
}

fn activate(reactor: &mut WindowsReactor, handle: u64, outbox: &mut Outbox) {
    let outcome = reactor.process(WindowsCommand::Activate { handle }, outbox);
    assert!(matches!(outcome.reply, WindowsReply::Activated(Ok(()))));
    assert_eq!(
        steps(&outcome.work),
        vec![Follow::EnsureRead, Follow::EnsureWrite, Follow::Refresh]
    );
}

#[test]
fn port_keys_lead_to_their_sessions() {
    let (_, handle, _) = live();
    assert_eq!(
        port_event(close_key(handle), false, false),
        PortEvent::ConsoleClosed(handle)
    );
    assert_eq!(
        port_event(exit_key(handle), false, false),
        PortEvent::ProcessExited(handle)
    );
    assert_eq!(
        port_event(NOTICE_AVAILABLE_KEY, false, false),
        PortEvent::NoticeAvailable
    );
    assert_eq!(port_event(0, false, false), PortEvent::Commands);
    assert_eq!(port_event(0, false, true), PortEvent::Timeout);
    assert_eq!(port_event(handle, true, false), PortEvent::Transfer(handle));
}

#[test]
fn reads_end_with_the_pipe() {
    assert_eq!(read_outcome(None, vec![1]), ReadDone::Data(vec![1]));
    assert_eq!(read_outcome(None, Vec::new()), ReadDone::End);
    for code in [109, 995] {
        let error = IoError {
            kind: ErrorKind::Other,
            code: Some(code),
            message: String::new(),
        };
        assert_eq!(read_outcome(Some(error), Vec::new()), ReadDone::End);
    }
    let other = IoError::new(ErrorKind::Other, "lost");
    assert_eq!(
        read_outcome(Some(other.clone()), Vec::new()),
        ReadDone::Failed(other)
    );
}

#[test]
fn a_windows_session_lives_from_activation_to_close() {
    let (mut reactor, handle, mut outbox) = live();
    activate(&mut reactor, handle, &mut outbox);
    let session = reactor.sessions.get_mut(handle).unwrap();
    assert_eq!(session.read_room(), Some(64));
    assert!(!session.after_read_submit(handle, &mut outbox, 64, Submitted::Pending, 2_000));
    let work = reactor.transfer_completed(
        handle,
        Transfer::Read(ReadDone::Data(b"hello".to_vec())),
        &mut outbox,
        3_000,
    );
    assert_eq!(steps(&work), vec![Follow::EnsureRead]);
    assert_eq!(
        outbox.sent,
        vec![Notice::Output {
            handle,
            bytes: Bytes::from_static(b"hello")
        }]
    );
    let work = reactor.control(Control::Credit { handle, bytes: 5 }, &mut outbox);
    assert_eq!(steps(&work.work), vec![Follow::EnsureRead, Follow::Refresh]);
    let outcome = reactor.process(
        WindowsCommand::Write {
            handle,
            bytes: Bytes::from_static(b"input"),
        },
        &mut outbox,
    );
    assert_eq!(steps(&outcome.work), vec![Follow::EnsureWrite]);
    let session = reactor.sessions.get_mut(handle).unwrap();
    assert_eq!(session.next_write(), Some(b"input".as_slice()));
    session.after_write_submit(handle, &mut outbox, Ok(()));
    let work = reactor.transfer_completed(handle, Transfer::Write(Ok(2)), &mut outbox, 3_000);
    assert_eq!(steps(&work), vec![Follow::EnsureWrite]);
    let session = reactor.sessions.get_mut(handle).unwrap();
    assert_eq!(session.next_write(), Some(b"put".as_slice()));

    let outcome = reactor.process(WindowsCommand::CloseStart { handle, waiter: 9 }, &mut outbox);
    assert!(matches!(outcome.reply, WindowsReply::Flag(true)));
    assert_eq!(
        steps(&outcome.work),
        vec![
            Follow::TerminateJob,
            Follow::CancelWrite,
            Follow::CloseConsole,
            Follow::EnsureRead
        ]
    );
    let work = reactor.process_exited(handle, Some(Ok(1)), &mut outbox);
    assert_eq!(
        steps(&work),
        vec![Follow::CancelWrite, Follow::CloseConsole, Follow::EnsureRead]
    );
    let session = reactor.sessions.get_mut(handle).unwrap();
    assert_eq!(session.console_close(), ConsoleStep::Submit);
    session.after_console_submit(true);
    assert_eq!(reactor.output_timeout(3_000), 100);
    reactor.collect_completed_closes(&vec![handle]);
    assert_eq!(reactor.output_timeout(3_000), INFINITE);
    assert!(reactor.reap_closed(&mut outbox).is_empty());
    let session = reactor.sessions.get_mut(handle).unwrap();
    session.life.flight.reading = Some(16);
    reactor.transfer_completed(handle, Transfer::Read(ReadDone::End), &mut outbox, 4_000);
    let reaped = reactor.reap_closed(&mut outbox);
    assert_eq!(reaped.len(), 1);
    assert_eq!((reaped[0].handle, &reaped[0].waiters), (handle, &vec![9]));
    let closed = OperationError::new(Operation::Write, FailureKind::Closed, None);
    assert_eq!(
        reaped[0].result,
        CloseResult {
            input_failure: Some(closed),
            output_failure: None,
            cleanup_failure: None
        }
    );
    assert!(outbox.sent.contains(&Notice::Exit { handle, status: 1 }));
    assert_eq!(
        outbox.sent.last(),
        Some(&Notice::Closed {
            handle,
            result: reaped[0].result
        })
    );
    assert!(reactor.sessions.get(handle).is_none());
}

#[test]
fn windows_commands_answer_for_missing_sessions() {
    let mut reactor = WindowsReactor::new();
    let mut outbox = Outbox::new(true, 8);
    let handle = (1_u64 << 32) | 1;
    let wrong = |operation| OperationError::new(operation, FailureKind::WrongState, None);
    match reactor
        .process(WindowsCommand::Activate { handle }, &mut outbox)
        .reply
    {
        WindowsReply::Activated(Err(error)) => {
            assert_eq!((error.kind(), error.message.as_str()), (ErrorKind::NotFound, "stale session"));
        }
        _ => panic!("a missing session cannot be activated"),
    }
    match reactor
        .process(WindowsCommand::CancelOutput { handle }, &mut outbox)
        .reply
    {
        WindowsReply::Done(result) => assert_eq!(result, Err(wrong(Operation::Output))),
        _ => panic!("a missing session has no output"),
    }
    match reactor
        .process(WindowsCommand::Size { handle }, &mut outbox)
        .reply
    {
        WindowsReply::Size(result) => assert_eq!(result, Err(wrong(Operation::Metadata))),
        _ => panic!("a missing session has no size"),
    }
    match reactor
        .process(WindowsCommand::ProcessId { handle }, &mut outbox)
        .reply
    {
        WindowsReply::ProcessId(result) => assert_eq!(result, Err(wrong(Operation::Metadata))),
        _ => panic!("a missing session has no process"),
    }
    match reactor
        .process(WindowsCommand::Signal { handle, signal: 15 }, &mut outbox)
        .reply
    {
        WindowsReply::Signalled(result) => assert_eq!(result, Err(wrong(Operation::Terminate))),
        _ => panic!("a missing session is not signalled"),
    }
    assert!(matches!(
        reactor
            .process(WindowsCommand::CloseStart { handle, waiter: 1 }, &mut outbox)
            .reply,
        WindowsReply::Flag(false)
    ));
    assert!(matches!(
        reactor.process(WindowsCommand::Shutdown, &mut outbox).work,
        WindowsWork::Stop
    ));
    assert!(outbox.sent.is_empty());
}

#[test]
fn windows_resizes_are_checked_before_the_console_is_asked() {
    let (mut reactor, handle, mut outbox) = live();
    let bad = reactor.process(
        WindowsCommand::Resize {
            handle,
            size: [0, 80, 0, 0],
        },
        &mut outbox,
    );
    match bad.reply {
        WindowsReply::Done(Err(error)) => assert_eq!(error.kind(), FailureKind::InvalidArgument),
        _ => panic!("zero rows are refused"),
    }
    let size = [30, 100, 0, 0];
    match reactor
        .process(WindowsCommand::Resize { handle, size }, &mut outbox)
        .work
    {
        WindowsWork::Resize { coord, .. } => assert_eq!((coord.x, coord.y), (100, 30)),
        _ => panic!("a good size reaches the console"),
    }
    assert_eq!(
        reactor.after_resize(handle, size, -5),
        Err(OperationError::new(
            Operation::Resize,
            FailureKind::NativeFailure,
            Some(-5)
        ))
    );
    assert_eq!(reactor.after_resize(handle, size, 0), Ok(()));
    match reactor
        .process(WindowsCommand::Size { handle }, &mut outbox)
        .reply
    {
        WindowsReply::Size(result) => assert_eq!(result, Ok(size)),
        _ => panic!("the size is known"),
    }
    match reactor
        .process(WindowsCommand::Signal { handle, signal: 0 }, &mut outbox)
        .reply
    {
        WindowsReply::Signalled(Err(error)) => {
            assert_eq!(error.kind(), FailureKind::InvalidArgument);
        }
        _ => panic!("signal zero is refused"),
    }
    assert!(matches!(
        reactor
            .process(WindowsCommand::Signal { handle, signal: 9 }, &mut outbox)
            .work,
        WindowsWork::Terminate { .. }
    ));
    assert_eq!(WindowsReactor::after_terminate(Ok(())), Ok(true));
    reactor.process_exited(handle, Some(Ok(0)), &mut outbox);
    assert!(matches!(
        reactor
            .process(WindowsCommand::Signal { handle, signal: 9 }, &mut outbox)
            .reply,
        WindowsReply::Signalled(Ok(false))
    ));
}

#[test]
fn an_activation_that_does_not_come_expires() {
    let (mut reactor, handle, mut outbox) = live();
    assert_eq!(reactor.output_timeout(1_000), 5_000);
    let late = 1_000 + ACTIVATION_TIMEOUT;
    assert!(matches!(
        reactor.expire(handle, &mut outbox, late - 1).work,
        WindowsWork::Done
    ));
    assert_eq!(reactor.output_timeout(late), 0);
    assert_eq!(
        steps(&reactor.expire(handle, &mut outbox, late).work),
        vec![
            Follow::TerminateJob,
            Follow::CancelWrite,
            Follow::CloseConsole,
            Follow::EnsureRead
        ]
    );
    assert_eq!(reactor.forget_abandoned(handle), None);
    let session = reactor.sessions.get_mut(handle).unwrap();
    session.life.exit.status = Some(1);
    session.output.eof = true;
    reactor.console_closed(handle, true);
    assert!(reactor.forget_abandoned(handle).is_some());
    assert!(reactor.sessions.get(handle).is_none());
}

#[test]
fn stray_completions_lose_the_session_once() {
    let (mut reactor, handle, mut outbox) = live();
    activate(&mut reactor, handle, &mut outbox);
    reactor.transfer_completed(handle, Transfer::Other, &mut outbox, 1);
    reactor.transfer_completed(handle, Transfer::Write(Ok(1)), &mut outbox, 1);
    let lost = OperationError::new(Operation::Runtime, FailureKind::InfrastructureLost, None);
    assert_eq!(
        outbox.sent,
        vec![Notice::BrokerLost {
            handle,
            failure: lost
        }]
    );
}

#[test]
fn blocked_output_waits_for_room_among_the_notices() {
    let (mut reactor, handle, _) = live();
    let mut full = Outbox::new(true, 0);
    activate(&mut reactor, handle, &mut full);
    let session = reactor.sessions.get_mut(handle).unwrap();
    session.after_read_submit(handle, &mut full, 64, Submitted::Pending, 0);
    reactor.transfer_completed(
        handle,
        Transfer::Read(ReadDone::Data(vec![7; 10])),
        &mut full,
        0,
    );
    assert!(full.sent.is_empty());
    assert_eq!(reactor.output_timeout(0), INFINITE);
    reactor.unblock();
    assert_eq!(reactor.output_timeout(0), (OUTPUT_DELAY / 1_000_000) as u32);
    let mut outbox = Outbox::new(true, 1);
    let work = reactor.refresh_due(handle, &mut outbox, 0);
    assert_eq!(steps(&work), vec![Follow::EnsureRead]);
    assert_eq!(outbox.sent.len(), 1);
    assert_eq!(outbox.free, 0);
}

#[test]
fn a_session_without_a_consumer_is_given_up() {
    let (mut reactor, handle, mut outbox) = live();
    activate(&mut reactor, handle, &mut outbox);
    let mut gone = Outbox::new(false, 0);
    reactor.process_exited(handle, Some(Ok(3)), &mut gone);
    let session = reactor.sessions.get(handle).unwrap();
    assert!(session.life.stage.abandoned && !session.life.stage.active);
    assert_eq!(
        session.life.faults.cleanup,
        Some(OperationError::new(
            Operation::Close,
            FailureKind::InfrastructureLost,
            None
        ))
    );
    assert_eq!(gone.free, 1);
}

#[test]
fn sessions_that_cannot_be_set_up_leave_nothing() {
    let mut reactor = WindowsReactor::new();
    let handle = reactor.add(WindowsSession::from_spawned(1, [1, 1, 0, 0], 5, 16, 64, 0));
    match reactor.after_associate(handle, Err(IoError::new(ErrorKind::Other, "no")), false) {
        AddStep::Refused { failure, console } => {
            assert_eq!(failure.message, "no");
            assert_eq!(console, ConsoleStep::Submit);
        }
        _ => panic!("a failure refuses the session"),
    }
    assert!(reactor.sessions.get(handle).is_none());
    let other = reactor.add(WindowsSession::from_spawned(2, [1, 1, 0, 0], 5, 16, 64, 0));
    assert_ne!(other, handle);
    assert_eq!(reactor.shutdown_all(), vec![(other, ConsoleStep::Submit)]);
    assert!(reactor.sessions.get(other).is_none());
}

#[test]
fn spawn_notices_carry_their_result() {
    assert_eq!(
        spawn_notice(4, &Ok(9)),
        Notice::SpawnReady {
            request: 4,
            handle: 9
        }
    );
    let error = IoError::new(ErrorKind::WouldBlock, "full");
    assert_eq!(
        spawn_notice(4, &Err(error.clone())),
        Notice::SpawnFailed {
            request: 4,
            failure: Failure::from_io(&error)
        }
    );
    assert_eq!(Notice::OutputDone(3).handle(), 3);
}

fn runtime_with_session() -> (WindowsRuntime, u64) {
    let mut runtime = WindowsRuntime::new();
    let handle = runtime.reactor.add(WindowsSession::from_spawned(7, [24, 80, 0, 0], 5, 4, 64, 0));
    (runtime, handle)
}

#[test]
fn accepted_writes_wait_in_order_within_the_capacity() {
    let (mut runtime, handle) = runtime_with_session();
    assert!(runtime.needs_wake(handle, 2));
    assert!(!runtime.needs_wake(handle, 5));

    assert!(runtime.write(handle, Bytes::from_static(b"ab"), true).is_ok());
    assert!(!runtime.needs_wake(handle, 2));
    assert_eq!(runtime.write_copy(handle, b"cd", false), Ok(()));
    assert_eq!(runtime.write_copy(handle, b"", false), Ok(()));
    let rejected = runtime.write(handle, Bytes::from_static(b"e"), false).unwrap_err();
    assert_eq!(rejected.kind(), WriteErrorKind::Backpressure);
    assert_eq!(rejected.bytes, Bytes::from_static(b"e"));

    let mut taken = Vec::new();
    let mut turn = CommandTurn::new();
    while let Some(WindowsCommand::Write { handle: target, bytes }) =
        runtime.next_in_turn(&mut turn)
    {
        assert_eq!(target, handle);
        taken.extend_from_slice(&bytes);
    }
    assert_eq!(taken, b"abcd");
}

#[test]
fn a_write_without_a_wake_loses_the_session_for_good() {
    let (mut runtime, handle) = runtime_with_session();
    let lost = OperationError::new(Operation::Write, FailureKind::InfrastructureLost, None);

    let rejected = runtime.write(handle, Bytes::from_static(b"ab"), false).unwrap_err();

    assert_eq!(rejected.kind(), WriteErrorKind::Infrastructure);
    assert_eq!(rejected.failure(), Some(lost));
    assert!(!runtime.wake.pending);
    assert!(runtime.commands.is_empty());
    let later = runtime.write(handle, Bytes::from_static(b"a"), true).unwrap_err();
    assert_eq!((later.kind(), later.failure()), (WriteErrorKind::Closed, Some(lost)));
    assert_eq!(runtime.write_copy(handle, b"a", true), Err(lost));
}

#[test]
fn writes_to_a_stopped_reactor_or_a_missing_session_are_told_apart() {
    let (mut runtime, handle) = runtime_with_session();
    let missing = runtime.write(handle + 1, Bytes::from_static(b"a"), true).unwrap_err();
    assert_eq!((missing.kind(), missing.failure()), (WriteErrorKind::Closed, None));
    let closed = OperationError::new(Operation::Write, FailureKind::Closed, None);
    assert_eq!(runtime.write_copy(handle + 1, b"a", true), Err(closed));

    runtime.running = false;
    let lost = OperationError::new(Operation::Write, FailureKind::InfrastructureLost, None);
    assert_eq!(runtime.write_copy(handle, b"a", true), Err(lost));
    assert_eq!(runtime.submit(WindowsCommand::Shutdown), Sent::Disconnected);
}

#[test]
fn a_session_is_given_up_by_a_command_when_controls_are_full() {
    let (mut runtime, handle) = runtime_with_session();
    for other in 0..1024 {
        assert_eq!(runtime.enqueue_abandon(other), Ok(true));
    }
    assert!(runtime.commands.is_empty());

    assert!(runtime.try_abandon(handle));

    assert!(matches!(
        runtime.next_in_turn(&mut CommandTurn::new()),
        Some(WindowsCommand::Abandon { handle: target }) if target == handle
    ));
    assert!(runtime.write(handle, Bytes::from_static(b"a"), true).is_err());
    for _ in 0..1024 {
        assert_eq!(runtime.submit(WindowsCommand::Abandon { handle }), Sent::Queued);
    }
    assert_eq!(runtime.submit(WindowsCommand::Abandon { handle }), Sent::Full);
    assert_eq!(runtime.enqueue_abandon(handle), Ok(false));
    runtime.running = false;
    assert_eq!(runtime.enqueue_abandon(handle), Err(()));
    assert!(!runtime.try_abandon(handle));
}

#[test]
fn consoles_have_no_terminal_modes_and_no_name() {
    let (runtime, handle) = runtime_with_session();
    let unsupported = OperationError::new(Operation::Metadata, FailureKind::Unsupported, None);
    assert_eq!(runtime.terminal_mode(handle), Err(unsupported));
    assert_eq!(runtime.terminal_name(handle), Err(unsupported));
    assert_eq!(runtime.observe_mode(handle, true), Err(unsupported));
    let stopped = IoError::from_raw_os_error(6);
    assert_eq!(
        WindowsRuntime::request_failed(Operation::Resize, &stopped),
        OperationError::new(Operation::Resize, FailureKind::InfrastructureLost, Some(6))
    );
}

#[test]
fn windows_credit_waits_as_a_control() {
    let (mut runtime, handle) = runtime_with_session();
    assert!(runtime.credit_async(handle, 3));
    assert!(runtime.wake.pending);
    assert_eq!(runtime.controls.values.pop_front(), Some(Control::Credit { handle, bytes: 3 }));
}

#[test]
fn a_windows_turn_takes_the_quantum_or_ends_at_a_shutdown() {
    let (mut runtime, handle) = runtime_with_session();
    for _ in 0..70 {
        assert_eq!(runtime.submit(WindowsCommand::Size { handle }), Sent::Queued);
    }
    assert_eq!(runtime.submit(WindowsCommand::Shutdown), Sent::Queued);
    assert_eq!(runtime.submit(WindowsCommand::Size { handle }), Sent::Queued);
    let mut turn = CommandTurn::new();
    while runtime.next_in_turn(&mut turn).is_some() {}
    assert_eq!((turn.taken, turn.stopped, turn.wakes_again()), (64, false, true));
    let mut turn = CommandTurn::new();
    while runtime.next_in_turn(&mut turn).is_some() {}
    assert_eq!((turn.taken, turn.stopped, turn.wakes_again()), (7, true, false));
    assert_eq!(runtime.commands.len(), 1);
}

#[test]
fn a_windows_session_takes_no_write_once_its_close_started() {
    let (mut runtime, handle) = runtime_with_session();
    let mut outbox = Outbox::new(true, 8);
    let close = WindowsCommand::CloseStart { handle, waiter: 1 };
    runtime.reactor.process(close, &mut outbox);
    let rejected = runtime.write(handle, Bytes::from_static(b"a"), true).unwrap_err();
    assert_eq!(rejected.kind(), WriteErrorKind::Closed);
}

#[test]
fn every_notice_that_waits_has_its_place_in_the_budget() {
    let mut desk: NoticeDesk<()> = NoticeDesk::new(4);
    assert!(desk.budget.try_reserve_many(2));
    let outbox = desk.outbox(7);
    assert!(outbox.open);
    assert_eq!(outbox.free, 2);

    let output = Notice::Output { handle: 7, bytes: Bytes::from_static(b"a") };
    assert!(desk.post(output).is_some_and(|wakes| wakes.any));
    assert!(desk.post(Notice::OutputDone(7)).is_some_and(|wakes| !wakes.any));
    assert_eq!((desk.budget.held, desk.budget.queued), (1, 2));
    desk.reconcile(2);
    assert_eq!((desk.budget.held, desk.outbox(7).free), (0, 2));

    desk.notices.drop_sender();
    assert!(!desk.outbox(7).open);
    assert!(desk.budget.try_reserve_many(2));
    assert!(desk.post(Notice::OutputDone(7)).is_none());
    desk.release(5);
    assert_eq!((desk.budget.held, desk.budget.queued), (0, 2));
}
