use ptyx::broker::{Broker, BrokerStep, ExecRecord, Killed, SlotState, SpawnStep};
use ptyx::candidate;
use ptyx::client::{spawned_session, stats_from, Awaited, Client, ClientSession, InputFailure};
use ptyx::fault::{ErrorKind, IoError};
use ptyx::frame::{self, broker_protocol_frame, Frame, FrameFault, Side, HEADER, MAX_PAYLOAD};
use ptyx::handle::{decode_handle, encode_handle, make_session, split_session};
use ptyx::posix::{decode_wait_status, Codes};
use ptyx::reaper::{waited, Reaper, Waited};
use ptyx::spawn_payload::{decode_spawn, decode_spawn_in, fuzz_spawn_payload, SPAWN_V2};
use ptyx::transfer::{
    after_poll, check_truncation, record_descriptors, wait_timeout, FrameReader, FrameWriter,
    ReceiveStep, SendStep, WaitStep, Written,
};
use ptyx::wire::{self, ByteOrder};

fn codes() -> Codes {
    Codes {
        einval: 22,
        eio: 5,
        ecanceled: 125,
        eintr: 4,
        echild: 10,
        sigkill: 9,
        sigterm: 15,
    }
}

fn message(kind: u16, request: u32, session: u64) -> Frame {
    let mut frame = Frame::new(kind);
    frame.request = request;
    frame.session = session;
    frame
}

#[test]
fn protocol_rejects_oversize_payloads() {
    let mut frame = Frame::new(frame::SPAWN);
    frame.payload = vec![0; MAX_PAYLOAD + 1];
    assert_eq!(frame.encode().unwrap_err().kind(), ErrorKind::InvalidInput);
}

#[test]
fn generation_identity_rejects_zero_components() {
    assert_eq!(split_session(0), None);
    assert_eq!(split_session(1), None);
    assert_eq!(split_session(1_u64 << 32), None);
    assert_eq!(split_session(make_session(7, 9)), Some((7, 9)));
}

#[test]
fn zero_and_generationless_handles_are_invalid() {
    assert_eq!(decode_handle(0), None);
    assert_eq!(decode_handle(1), None);
}

#[test]
fn handles_hold_index_and_generation() {
    assert_eq!(make_session(7, 9), (9_u64 << 32) | 8);
    assert_eq!(encode_handle(0, 1), (1_u64 << 32) | 1);
    assert_eq!(decode_handle((3_u64 << 32) | 5), Some((4, 3)));
}

#[test]
fn accepted_input_receives_a_typed_failure() {
    let mut session = ClientSession::new(make_session(0, 1), 1);
    let sequence = session.accept(b"bytes");
    session.fail_accepted(InputFailure::SessionClosing);
    assert_eq!(
        session.flush_result(sequence),
        Err(InputFailure::SessionClosing)
    );
}

#[test]
fn failures_stay_with_the_input_they_hit() {
    let mut session = ClientSession::new(make_session(0, 1), 1);
    let first = session.accept(b"first");
    session.fail_accepted(InputFailure::SessionClosing);
    let second = session.accept(b"second");
    session.fail_accepted(InputFailure::BrokerLost);
    assert_eq!((first, second), (1, 2));
    assert_eq!(session.flush_result(first), Err(InputFailure::SessionClosing));
    assert_eq!(session.flush_result(second), Err(InputFailure::BrokerLost));
    assert_eq!(session.flush_result(3), Ok(()));
}

#[test]
fn spawn_decoder_rejects_arbitrary_bytes_without_panicking() {
    let mut state = 0x70f4_5a9d_c2b3_1187_u64;
    for length in 0..=1024 {
        let mut payload = vec![0_u8; length];
        for byte in &mut payload {
            state ^= state << 13;
            state ^= state >> 7;
            state ^= state << 17;
            *byte = state as u8;
        }
        fuzz_spawn_payload(&payload);
        broker_protocol_frame(&payload);
    }
}

#[test]
fn spawn_v2_decoder_round_trips_all_owned_fields() {
    let mut payload: Vec<u8> = Vec::new();
    for value in [1, SPAWN_V2, 2, 1, 30, 100, 800, 600, 4] {
        payload.extend_from_slice(&value.to_ne_bytes());
    }
    for value in [b"/bin/sh".as_slice(), b"-c", b"TERM=xterm"] {
        payload.extend_from_slice(&(value.len() as u32).to_ne_bytes());
        payload.extend_from_slice(value);
    }
    payload.extend_from_slice(b"/tmp");
    let request = decode_spawn(&payload).unwrap();
    assert!(request.inject);
    assert_eq!(request.argv[0], b"/bin/sh");
    assert_eq!(request.argv[1], b"-c");
    assert_eq!(request.environment.unwrap()[0], b"TERM=xterm");
    assert_eq!(request.cwd.unwrap(), b"/tmp");
    assert_eq!(request.size.ws_row, 30);
    assert_eq!(request.size.ws_col, 100);
    assert_eq!(request.size.ws_xpixel, 800);
    assert_eq!(request.size.ws_ypixel, 600);
}

fn spawn_error(payload: &[u8]) -> String {
    let error = decode_spawn_in(payload, ByteOrder::Little).unwrap_err();
    assert_eq!(error.kind(), ErrorKind::InvalidData);
    error.message
}

fn words(values: &[u32]) -> Vec<u8> {
    let mut bytes = Vec::new();
    for value in values {
        bytes.extend_from_slice(&value.to_le_bytes());
    }
    bytes
}

#[test]
fn every_broken_spawn_payload_is_named() {
    assert_eq!(spawn_error(b"short"), "short spawn");
    assert_eq!(spawn_error(&words(&[0, 0])), "bad argc");
    assert_eq!(spawn_error(&words(&[0, 33])), "bad argc");
    assert_eq!(spawn_error(&words(&[0, 1])), "short arg");
    assert_eq!(spawn_error(&words(&[0, 1, 0])), "bad arg");
    assert_eq!(spawn_error(&words(&[0, 1, 4, 0])), "NUL argument");
    assert_eq!(
        spawn_error(&words(&[0, 1, 4, 0x6161_6161, 7])),
        "trailing spawn payload"
    );
    assert_eq!(spawn_error(&words(&[0, SPAWN_V2])), "short v2 spawn");
    assert_eq!(
        spawn_error(&words(&[0, SPAWN_V2, 257, 0, 24, 80, 0, 0, 0])),
        "bad argc"
    );
    assert_eq!(
        spawn_error(&words(&[0, SPAWN_V2, 1, 0, 24, 80, 65536, 0, 0, 4, 0x6161_6161])),
        "pixel width exceeds platform limit"
    );
}

#[test]
fn short_spawn_payload_has_the_default_size() {
    let mut payload = words(&[0, 1, 3]);
    payload.extend_from_slice(b"/sh");
    let request = decode_spawn_in(&payload, ByteOrder::Little).unwrap();
    assert!(!request.inject);
    assert_eq!(request.argv, vec![b"/sh".to_vec()]);
    assert_eq!((request.size.ws_row, request.size.ws_col), (24, 80));
    assert_eq!(request.environment, None);
    assert_eq!(request.cwd, None);
}

#[test]
fn frames_round_trip_in_both_orders() {
    let mut frame = message(frame::SPAWN_OK, 0x0102_0304, 0x1122_3344_5566_7788);
    frame.code = -7;
    frame.aux = 9;
    frame.payload = b"payload".to_vec();
    for order in [ByteOrder::Little, ByteOrder::Big] {
        let bytes = frame.encode_in(order).unwrap();
        assert_eq!(bytes.len(), HEADER + 7);
        assert_eq!(Frame::decode_in(&bytes, order).unwrap(), frame);
    }
    let native = frame.encode().unwrap();
    assert_eq!(native[0..4], 0x4258_5450_u32.to_ne_bytes());
    assert_eq!(native[16..24], 0x1122_3344_5566_7788_u64.to_ne_bytes());
    assert_eq!(native[24..28], (-7_i32).to_ne_bytes());
    assert_eq!(Frame::decode(&native).unwrap(), frame);
}

#[test]
fn every_broken_frame_is_named() {
    let whole = Frame::new(frame::STATS).encode_in(ByteOrder::Little).unwrap();
    assert_eq!(
        Frame::decode_in(&whole[..31], ByteOrder::Little),
        Err(FrameFault::Short)
    );
    let mut magic = whole.clone();
    magic[0] ^= 1;
    assert_eq!(
        Frame::decode_in(&magic, ByteOrder::Little),
        Err(FrameFault::Header)
    );
    let mut longer = whole.clone();
    longer.push(0);
    assert_eq!(
        Frame::decode_in(&longer, ByteOrder::Little),
        Err(FrameFault::Length)
    );
    assert_eq!(
        FrameFault::Short.error(Side::Controller).message,
        "short broker frame"
    );
    assert_eq!(
        FrameFault::Short.error(Side::Broker).message,
        "short protocol frame"
    );
    assert_eq!(FrameFault::Partial.kind(), ErrorKind::UnexpectedEof);
    assert_eq!(FrameFault::WriteZero.kind(), ErrorKind::WriteZero);
    assert_eq!(FrameFault::Deadline.kind(), ErrorKind::TimedOut);
    assert_eq!(FrameFault::SocketFailed.kind(), ErrorKind::BrokenPipe);
}

#[test]
fn a_frame_crosses_the_socket_in_any_cut() {
    let mut sent = message(frame::SPAWN, 3, 0);
    sent.payload = (0..200_u8).collect();
    let mut writer = FrameWriter::start(&sent, ByteOrder::Little, true).unwrap();
    let mut reader = FrameReader::start(ByteOrder::Little);
    let mut cut = 1;
    let mut passed = 0;
    loop {
        let (rest, descriptor) = writer.pending();
        let count = cut.min(rest.len()).min(reader.wanted());
        passed += usize::from(descriptor);
        let chunk = rest[..count].to_vec();
        let received = reader.absorb(&chunk);
        let step = writer.after_write(Written::Moved(count));
        cut = cut % 7 + 1;
        if step == SendStep::Complete {
            assert_eq!(received, ReceiveStep::Complete);
            break;
        }
        assert_eq!(step, SendStep::Again);
    }
    assert_eq!(passed, 1);
    assert_eq!(reader.finish(1).unwrap(), sent);
    assert_eq!(reader.finish(2), Err(FrameFault::MultipleDescriptors));
}

#[test]
fn socket_failures_decide_the_next_step() {
    let frame = Frame::new(frame::STATS);
    let mut writer = FrameWriter::start(&frame, ByteOrder::Little, false).unwrap();
    assert_eq!(
        writer.after_write(Written::Failed(ErrorKind::Interrupted)),
        SendStep::Again
    );
    assert_eq!(
        writer.after_write(Written::Failed(ErrorKind::WouldBlock)),
        SendStep::WaitWritable
    );
    assert_eq!(
        writer.after_write(Written::Failed(ErrorKind::BrokenPipe)),
        SendStep::Fail
    );
    assert_eq!(
        writer.after_write(Written::Moved(0)),
        SendStep::Reject(FrameFault::WriteZero)
    );
    let mut reader = FrameReader::start(ByteOrder::Little);
    assert_eq!(reader.end_of_stream(), ReceiveStep::EndOfStream);
    reader.absorb(b"x");
    assert_eq!(
        reader.end_of_stream(),
        ReceiveStep::Reject(FrameFault::Partial)
    );
    assert_eq!(reader.failed(ErrorKind::WouldBlock), ReceiveStep::WaitReadable);
    let mut oversize = vec![0_u8; HEADER - 1];
    oversize[7..11].copy_from_slice(&65537_u32.to_le_bytes());
    assert_eq!(
        reader.absorb(&oversize),
        ReceiveStep::Reject(FrameFault::OversizeLength)
    );
}

#[test]
fn ancillary_data_and_polls_are_judged() {
    assert_eq!(record_descriptors(true, 20, 16), Ok(1));
    assert_eq!(
        record_descriptors(true, 18, 16),
        Err(FrameFault::InvalidDescriptors)
    );
    assert_eq!(
        record_descriptors(false, 20, 16),
        Err(FrameFault::UnexpectedAncillary)
    );
    assert_eq!(check_truncation(true), Err(FrameFault::Truncated));
    assert_eq!(check_truncation(false), Ok(()));
    assert_eq!(wait_timeout(0), Err(FrameFault::Deadline));
    assert_eq!(wait_timeout(1), Ok(1));
    assert_eq!(wait_timeout(2_500_000), Ok(2));
    assert_eq!(wait_timeout(u128::MAX), Ok(i32::MAX));
    assert_eq!(after_poll(1, false, ErrorKind::Other), WaitStep::Ready);
    assert_eq!(
        after_poll(1, true, ErrorKind::Other),
        WaitStep::Reject(FrameFault::SocketFailed)
    );
    assert_eq!(after_poll(0, false, ErrorKind::Other), WaitStep::Again);
    assert_eq!(after_poll(-1, false, ErrorKind::Interrupted), WaitStep::Again);
    assert_eq!(after_poll(-1, false, ErrorKind::Other), WaitStep::Fail);
}

#[test]
fn wait_statuses_tell_exits_from_signals() {
    assert_eq!(decode_wait_status(7 << 8), 7);
    assert_eq!(decode_wait_status(9), -9);
    assert_eq!(decode_wait_status(0x137f), i32::MIN);
}

fn start(broker: &mut Broker, pid: i32) -> u64 {
    match broker.after_spawn(1, false, Ok(pid)) {
        SpawnStep::Register { pid: child, session } => {
            assert_eq!(child, pid);
            match broker.after_registration(1, pid, session, Ok(())) {
                SpawnStep::Reply(reply) => {
                    assert_eq!(reply.kind, frame::SPAWN_OK);
                    assert_eq!((reply.session, reply.code), (session, pid));
                }
                _ => panic!("a registered child is reported"),
            }
            session
        }
        _ => panic!("a started child is registered"),
    }
}

#[test]
fn a_child_lives_from_spawn_to_release() {
    let mut broker = Broker::with_codes(codes());
    let session = start(&mut broker, 100);
    let other = start(&mut broker, 200);
    assert_eq!(session, make_session(0, 1));
    assert_eq!(other, make_session(1, 1));
    assert_eq!(broker.running_jobs(), 2);
    assert_eq!(
        broker.handle_request(&message(frame::CLOSE, 4, session), ByteOrder::Little),
        BrokerStep::Close { request: 4, session, group: 100 }
    );
    let killed = broker.after_close(4, session, Killed::Delivered);
    assert_eq!((killed.kind, killed.aux), (frame::CLOSE_RESULT, frame::CLOSE_KILLED));
    let exit = broker.reap(100, 9).unwrap();
    assert_eq!((exit.kind, exit.session, exit.code), (frame::EXIT, session, -9));
    assert_eq!(broker.reap(100, 9), None);
    match broker.handle_request(&message(frame::CLOSE, 5, session), ByteOrder::Little) {
        BrokerStep::SignalAndReply { group, signal, reply } => {
            assert_eq!((group, signal), (100, 9));
            assert_eq!((reply.aux, reply.code), (frame::CLOSE_ALREADY_EXITED, -9));
        }
        _ => panic!("an exited child answers a close"),
    }
    match broker.handle_request(&message(frame::RELEASE, 6, session), ByteOrder::Little) {
        BrokerStep::SignalAndReply { reply, .. } => assert_eq!(reply.aux, 1),
        _ => panic!("an exited child is released"),
    }
    assert_eq!(broker.lookup(session), Some(SlotState::Vacant));
    match broker.handle_request(&message(frame::CLOSE, 7, session), ByteOrder::Little) {
        BrokerStep::Reply(reply) => assert_eq!(reply.aux, frame::CLOSE_STALE),
        _ => panic!("a released session is stale"),
    }
    assert_eq!(start(&mut broker, 300), make_session(0, 2));
    assert_eq!(broker.lookup(session), None);
    assert_eq!(broker.lookup(other), Some(SlotState::Running { pid: 200 }));
    assert_eq!(broker.cleanup_groups(), vec![300, 200]);
    assert_eq!(
        broker.running_sessions(),
        vec![(make_session(0, 2), 300), (other, 200)]
    );
}

#[test]
fn refused_requests_carry_their_category() {
    let mut broker = Broker::with_codes(codes());
    match broker.handle_request(&message(99, 8, 0), ByteOrder::Little) {
        BrokerStep::Reply(reply) => assert_eq!(
            (reply.kind, reply.request, reply.aux, reply.code),
            (frame::ERROR, 8, frame::ERROR_PROTOCOL, 22)
        ),
        _ => panic!("an unknown kind is refused"),
    }
    match broker.after_spawn(1, false, Err(Some(2))) {
        SpawnStep::Reply(reply) => {
            assert_eq!((reply.aux, reply.code), (frame::ERROR_SPAWN, 2));
        }
        _ => panic!("a failed start is reported"),
    }
    match broker.after_spawn(1, true, Ok(50)) {
        SpawnStep::Discard { pid, reply } => {
            assert_eq!((pid, reply.aux, reply.code), (50, frame::ERROR_POST_EXEC, 125));
        }
        _ => panic!("an injected failure discards the child"),
    }
    let session = start(&mut broker, 60);
    let mut signal = message(frame::SIGNAL, 2, session);
    signal.code = 32;
    match broker.handle_request(&signal, ByteOrder::Little) {
        BrokerStep::Reply(reply) => assert_eq!(reply.aux, frame::ERROR_PROTOCOL),
        _ => panic!("a signal out of range is refused"),
    }
    signal.code = 15;
    assert_eq!(
        broker.handle_request(&signal, ByteOrder::Little),
        BrokerStep::Signal { request: 2, group: 60, signal: 15 }
    );
    assert_eq!(broker.after_signal(2, Killed::Delivered).aux, 1);
    assert_eq!(broker.after_signal(2, Killed::NoSuchProcess).aux, 0);
    assert_eq!(broker.after_signal(2, Killed::Failed(None)).code, 5);
    match broker.after_registration(1, 60, session, Err(None)) {
        SpawnStep::Discard { pid, reply } => assert_eq!((pid, reply.code), (60, 5)),
        _ => panic!("a child that cannot be watched is given up"),
    }
    assert_eq!(broker.running_jobs(), 0);
}

#[test]
fn signals_after_a_reap_are_counted() {
    let mut broker = Broker::with_codes(codes());
    let session = start(&mut broker, 70);
    assert_eq!(broker.kill_running(session), Some(70));
    broker.reap(70, 0);
    assert_eq!(broker.kill_running(session), None);
    let reply = broker.stats_reply(3, 11, ByteOrder::Little);
    assert_eq!(stats_from(&reply, ByteOrder::Little).unwrap(), (0, 11, 1));
    assert_eq!(broker.shutdown_reply(4).aux, 0);
}

#[test]
fn platform_numbers_reach_the_broker() {
    let mut broker = Broker::new();
    match broker.handle_request(&message(99, 8, 0), ByteOrder::Little) {
        BrokerStep::Reply(reply) => assert_eq!(reply.code, libc::EINVAL),
        _ => panic!("an unknown kind is refused"),
    }
}

#[test]
fn exec_records_are_whole_or_absent() {
    let mut record = ExecRecord::new();
    assert_eq!(record.end(), Ok(()));
    assert_eq!(record.absorb(&[2, 0], ByteOrder::Little), None);
    assert_eq!(record.wanted(), 2);
    let error = record.end().unwrap_err();
    assert_eq!(error.kind(), ErrorKind::UnexpectedEof);
    assert_eq!(error.message, "partial exec failure record");
    assert_eq!(record.absorb(&[0, 0], ByteOrder::Little), Some(2));
}

#[test]
fn the_client_keeps_exits_and_judges_replies() {
    let mut client = Client::new();
    let request = client.request_id();
    assert_eq!(request, 1);
    let mut exit = message(frame::EXIT, 0, 5);
    exit.code = 3;
    assert_eq!(client.receive_for(1, frame::SPAWN_OK, &exit), Awaited::Again);
    assert_eq!(
        client.receive_for(1, frame::SPAWN_OK, &message(frame::SPAWN_OK, 1, 5)),
        Awaited::Reply
    );
    let mut refusal = message(frame::ERROR, 1, 0);
    refusal.aux = 2;
    refusal.code = -13;
    assert_eq!(
        client.receive_for(1, frame::SPAWN_OK, &refusal),
        Awaited::Failed(IoError::new(
            ErrorKind::Other,
            "broker error category=2 code=-13"
        ))
    );
    assert_eq!(
        client.receive_for(1, frame::SPAWN_OK, &message(frame::SPAWN_OK, 2, 5)),
        Awaited::Failed(IoError::new(
            ErrorKind::InvalidData,
            "unexpected broker response"
        ))
    );
    assert_eq!(client.expect_spawn_failure(1, &refusal), Awaited::Reply);
    assert_eq!(
        client.expect_spawn_failure(1, &message(frame::SPAWN_OK, 1, 5)),
        Awaited::Failed(IoError::new(ErrorKind::InvalidData, "expected spawn error"))
    );
    assert_eq!(client.exit_from(6, &exit), None);
    assert_eq!(client.known_exit(5), Some(3));
    assert_eq!(client.known_exit(5), None);
    assert_eq!(client.exit_from(5, &exit), Some(3));
}

#[test]
fn the_broker_understands_the_client() {
    let mut client = Client::new();
    let argv = vec![b"/bin/sh".to_vec(), b"-c".to_vec(), b"exit 3".to_vec()];
    let order = wire::native_order();
    let sent = client.spawn_request(&argv, true, order);
    assert_eq!((sent.kind, sent.request), (frame::SPAWN, 1));
    let received = decode_spawn(&sent.payload).unwrap();
    assert_eq!(received.argv, argv);
    assert!(received.inject);
    let mut reply = message(frame::SPAWN_OK, 1, 44);
    reply.code = 1234;
    let session = spawned_session(&reply, true).unwrap();
    assert_eq!((session.id, session.pid), (44, 1234));
    assert_eq!(
        spawned_session(&reply, false).unwrap_err().message,
        "spawn response omitted PTY master"
    );
    assert_eq!(
        stats_from(&reply, order).unwrap_err().message,
        "bad stats"
    );
    assert_eq!(client.request(frame::CLOSE, 44).request, 2);
}

#[test]
fn candidate_handles_are_checked_by_generation() {
    let mut candidates = candidate::Candidates::with_codes(codes());
    let first = candidates.insert(10, 100).unwrap();
    assert_eq!(first, (1_u64 << 32) | 1);
    assert_eq!(candidate::handle_parts(first), (1, 1));
    assert_eq!(candidates.begin_transfer(first, true), Ok(10));
    assert_eq!(candidates.begin_transfer(first, false), Err(-1));
    assert_eq!(candidates.begin_transfer(first + 1, true), Err(-3));
    assert_eq!(candidates.lookup((2_u64 << 32) | 1), Err(candidate::STALE_HANDLE));
    let session = candidates.close(first).unwrap();
    assert_eq!((session.master, session.pid, session.waited), (10, 100, false));
    assert_eq!(candidates.close(first), Err(candidate::STALE_HANDLE));
    let second = candidates.insert(11, 101).unwrap();
    assert_eq!(second, (2_u64 << 32) | 2);
    assert_eq!(candidate::ptyx_candidate_abi(), 1);
}

#[test]
fn candidate_waits_normalize_the_exit() {
    let mut candidates = candidate::Candidates::new();
    let handle = candidates.insert(10, 100).unwrap();
    let session = match candidates.begin_wait(handle, true).unwrap() {
        candidate::WaitStep::Wait(session) => session,
        candidate::WaitStep::Known(_) => panic!("the child was not waited for"),
    };
    assert_eq!(
        candidates.after_wait(handle, session, -1, 0, libc::EINTR),
        candidate::Waited::Again
    );
    assert_eq!(
        candidates.after_wait(handle, session, -1, 0, libc::ECHILD),
        candidate::Waited::Failed(libc::ECHILD)
    );
    assert_eq!(
        candidates.after_wait(handle, session, 100, 9, 0),
        candidate::Waited::Exit(137)
    );
    assert_eq!(
        candidates.begin_wait(handle, true),
        Ok(candidate::WaitStep::Known(137))
    );
    assert_eq!(candidates.begin_wait(handle, false), Err(candidate::INVALID_ARGUMENT));
    assert_eq!(candidate::exit_code(3 << 8), 3);
    assert_eq!(candidates.after_read(-1, libc::EIO).unwrap().value, 0);
    assert_eq!(candidates.after_read(-1, libc::EINTR), None);
    assert_eq!(candidates.after_write(-1, libc::EIO).unwrap().value, -2);
    assert_eq!(candidates.after_write(5, 0).unwrap().value, 5);
    assert_eq!(
        candidates.after_close_wait(100, -1, libc::ECHILD),
        Some((candidate::OK, None))
    );
    assert_eq!(candidates.after_close_wait(100, -1, libc::EINTR), None);
    assert_eq!(candidate::check_script(b"exit"), Ok(()));
    assert_eq!(candidate::check_script(b""), Err(candidate::INVALID_ARGUMENT));
    assert_eq!(candidate::check_script(b"a\0b"), Err(candidate::INVALID_ARGUMENT));
}

#[test]
fn late_brokers_are_reaped_in_a_bounded_round() {
    let mut reaper = Reaper::new();
    assert!(reaper.check().is_ok());
    for pid in 1..=16 {
        reaper.queue_reap(pid, true);
    }
    assert!(reaper.healthy);
    reaper.begin_round();
    reaper.begin_round();
    reaper.begin_round();
    reaper.begin_round();
    assert_eq!(reaper.watched, vec![1, 2, 3, 4]);
    assert_eq!(reaper.waiting.len(), 12);
    let round = vec![Waited::Reaped, Waited::Running, Waited::Interrupted, Waited::NoChild];
    reaper.end_round(&round);
    assert_eq!(reaper.watched, vec![2, 3]);
    assert!(reaper.healthy);
    reaper.end_round(&vec![Waited::Failed, Waited::Running]);
    assert_eq!(reaper.watched, vec![3]);
    assert_eq!(reaper.check().unwrap_err().message, "broker reaper is unavailable");
}

#[test]
fn a_broker_that_cannot_be_handed_over_spoils_the_reaper() {
    let mut full = Reaper::new();
    for pid in 0..17 {
        full.queue_reap(pid, true);
    }
    assert_eq!(full.waiting.len(), 16);
    assert!(!full.healthy);
    let mut alone = Reaper::new();
    alone.queue_reap(1, false);
    assert!(alone.waiting.is_empty());
    assert!(alone.check().is_err());
}

#[test]
fn answers_of_a_wait_are_told_apart() {
    assert_eq!(waited(5, 5, ErrorKind::Other, false), Waited::Reaped);
    assert_eq!(waited(0, 5, ErrorKind::Other, false), Waited::Running);
    assert_eq!(waited(-1, 5, ErrorKind::Interrupted, false), Waited::Interrupted);
    assert_eq!(waited(-1, 5, ErrorKind::Other, true), Waited::NoChild);
    assert_eq!(waited(-1, 5, ErrorKind::Other, false), Waited::Failed);
}
