use ptyx::controller::{BrokerFault, Completed, Phase, Request, Worker, WorkerStep};
use ptyx::fault::{ErrorKind, IoError};
use ptyx::frame::{
    Frame, CLOSE, CLOSE_KILLED, CLOSE_RESULT, CLOSE_STALE, EXIT, RELEASE, RELEASE_RESULT, SHUTDOWN,
    SIGNAL, SPAWN, SPAWN_OK,
};
use ptyx::spawn::BrokerSpawn;
use ptyx::wire::ByteOrder;

fn config() -> BrokerSpawn<u8> {
    BrokerSpawn {
        executable: b"/bin/sh".to_vec(),
        arguments: Vec::new(),
        environment: None,
        cwd: None,
        rows: 24,
        columns: 80,
        pixel_width: 0,
        pixel_height: 0,
        graceful_close_timeout: 0,
    }
}

fn sent(step: WorkerStep) -> Frame {
    match step {
        WorkerStep::Send(frame) => frame,
        other => panic!("no frame to send: {:?}", other),
    }
}

fn answer(request: u32, kind: u16, session: u64, code: i32, aux: u32) -> Frame {
    Frame { kind, request, session, code, aux, payload: Vec::new() }
}

fn spawning() -> Worker {
    let mut worker = Worker::new(ByteOrder::Little);
    let frame = sent(worker.start(Request::Spawn { config: config() }));
    assert_eq!((frame.kind, frame.request), (SPAWN, 1));
    worker
}

#[test]
fn a_spawned_terminal_is_prepared_before_it_is_handed_out() {
    let mut worker = spawning();
    let step = worker.received_with(&answer(1, SPAWN_OK, 9, 1234, 0), true, false);
    assert_eq!(step, WorkerStep::Prepare);
    assert_eq!(worker.phase, Phase::Preparing { session: 9, pid: 1234 });

    let step = worker.after_prepare(Ok(()));

    assert_eq!(step, WorkerStep::Done(Completed::Spawned { session: 9, pid: 1234 }));
    assert_eq!(worker.phase, Phase::Idle);
}

#[test]
fn a_child_whose_terminal_cannot_be_prepared_is_aborted() {
    let mut worker = spawning();
    worker.received_with(&answer(1, SPAWN_OK, 9, 1234, 0), true, false);
    let error = IoError {
        kind: ErrorKind::Other,
        code: Some(22),
        message: "no such mode".to_string(),
    };

    let close = sent(worker.after_prepare(Err(error.clone())));
    assert_eq!((close.kind, close.request, close.session), (CLOSE, 2, 9));
    let step = worker.received_with(&answer(2, CLOSE_RESULT, 9, 0, CLOSE_KILLED), false, false);
    assert_eq!(step, WorkerStep::Receive);
    let step = worker.received_with(&answer(0, EXIT, 9, 137, 0), false, false);
    let release = sent(step);
    assert_eq!((release.kind, release.request, release.session), (RELEASE, 3, 9));
    let step = worker.received_with(&answer(3, RELEASE_RESULT, 9, 0, 1), false, false);

    assert_eq!(
        step,
        WorkerStep::Done(Completed::SpawnFailed(BrokerFault::Io(error)))
    );
    assert_eq!(worker.phase, Phase::Idle);
    assert_eq!(worker.unprepared, None);
}

#[test]
fn an_unprepared_child_that_is_gone_already_still_fails_its_spawn() {
    let mut worker = spawning();
    worker.received_with(&answer(1, SPAWN_OK, 9, 1234, 0), true, false);
    let error = IoError::new(ErrorKind::Other, "refused");
    worker.after_prepare(Err(error.clone()));

    let step = worker.received_with(&answer(2, CLOSE_RESULT, 9, 0, CLOSE_STALE), false, false);

    assert_eq!(
        step,
        WorkerStep::Done(Completed::SpawnFailed(BrokerFault::Io(error)))
    );
}

#[test]
fn a_child_whose_terminal_did_not_come_is_aborted() {
    let mut worker = spawning();
    let step = worker.received_with(&answer(1, SPAWN_OK, 9, 1234, 0), false, false);
    assert_eq!(sent(step).kind, CLOSE);
    let step = worker.received_with(&answer(2, CLOSE_RESULT, 9, 0, CLOSE_STALE), false, false);
    assert_eq!(
        step,
        WorkerStep::Done(Completed::SpawnFailed(BrokerFault::OmittedMaster))
    );
}

#[test]
fn a_failed_transfer_keeps_its_category_and_code() {
    let mut worker = spawning();
    let error = IoError {
        kind: ErrorKind::WouldBlock,
        code: Some(11),
        message: "try again".to_string(),
    };

    let step = worker.failed_with(error.clone());

    assert_eq!(
        step,
        WorkerStep::Done(Completed::SpawnFailed(BrokerFault::Io(error.clone())))
    );
    assert_eq!(BrokerFault::Io(error.clone()).error(), error);
    assert_eq!(worker.phase, Phase::Idle);
    let next = sent(worker.start(Request::Signal { session: 4, signal: 15 }));
    assert_eq!((next.kind, next.request, next.code), (SIGNAL, 2, 15));
}

#[test]
fn the_end_of_the_control_socket_is_a_broken_pipe() {
    let mut worker = spawning();
    let step = worker.failed();
    assert_eq!(
        step,
        WorkerStep::Done(Completed::SpawnFailed(BrokerFault::Lost))
    );
    let error = BrokerFault::Lost.error();
    assert_eq!(error.kind, ErrorKind::BrokenPipe);
    assert_eq!(error.message, "broker control EOF");
}

#[test]
fn an_abort_that_finds_nothing_has_done_its_work() {
    let mut worker = Worker::new(ByteOrder::Little);
    assert_eq!(sent(worker.start(Request::Abort { session: 5 })).kind, CLOSE);
    let step = worker.failed_with(IoError::new(ErrorKind::NotFound, "gone"));
    assert_eq!(step, WorkerStep::Done(Completed::Aborted(Ok(()))));

    assert_eq!(sent(worker.start(Request::Abort { session: 5 })).request, 2);
    let step = worker.failed();
    assert_eq!(
        step,
        WorkerStep::Done(Completed::Aborted(Err(BrokerFault::Lost)))
    );
}

#[test]
fn a_shutdown_is_clean_only_with_its_answer() {
    let mut worker = Worker::new(ByteOrder::Little);
    assert_eq!(sent(worker.start(Request::Shutdown)).kind, SHUTDOWN);
    let step = worker.failed_with(IoError::new(ErrorKind::Other, "broken"));
    assert_eq!(step, WorkerStep::Done(Completed::ShutDown { clean: false }));
}
