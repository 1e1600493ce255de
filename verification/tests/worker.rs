use fastplay::events::SessionEvent;
use fastplay::generations::{OpenGeneration, OperationId, SeekGeneration};
use fastplay::time::Duration;
use fastplay::worker::{
    DecodeCommand, DecodeControl, DecodeWorker, OpenOutcome, RunOutcome, SeekRequest, SendStep,
    WorkerStep,
};

fn worker() -> (DecodeWorker, WorkerStep) {
    DecodeWorker::new(OpenGeneration(1), SeekGeneration(0), OperationId(5), None)
}

fn running() -> DecodeWorker {
    let (mut w, _) = worker();
    let control = DecodeControl::new();
    let (event, step) = w.open_finished(OpenOutcome::Opened, false, &control);
    assert_eq!(event, None);
    assert_eq!(step, WorkerStep::Run);
    w
}

#[test]
fn the_latest_seek_wins() {
    let mut control = DecodeControl::new();
    control.send_seek(Duration::from_secs(1), SeekGeneration(1), OperationId(6));
    control.send_seek(Duration::from_secs(2), SeekGeneration(2), OperationId(7));
    let (command, _) = control.take_next().unwrap();
    assert_eq!(
        command,
        DecodeCommand::Seek(SeekRequest {
            target: Duration::from_secs(2),
            seek_gen: SeekGeneration(2),
            op_id: OperationId(7),
        })
    );
    assert!(control.take_next().is_none());
    control.send_shutdown();
    assert!(control.is_shutdown());
    assert_eq!(control.take_next().unwrap().0, DecodeCommand::Shutdown);
}

#[test]
fn a_seek_cancels_until_it_is_taken() {
    let mut w = running();
    let mut control = DecodeControl::new();
    assert!(!w.cancelled(&control));
    control.send_seek(Duration::from_secs(1), SeekGeneration(1), OperationId(6));
    assert!(w.cancelled(&control));
    let (command, seq) = control.take_next().unwrap();
    assert_eq!(
        w.command_received(command, seq),
        WorkerStep::Seek(Duration::from_secs(1))
    );
    assert!(!w.cancelled(&control));
    assert_eq!(w.seek_gen, SeekGeneration(1));
    assert_eq!(w.op_id, OperationId(6));
}

#[test]
fn the_end_of_a_run_is_reported_once() {
    let w = running();
    let control = DecodeControl::new();
    let (events, step) = w.run_finished(RunOutcome::Completed, true, false, &control);
    assert_eq!(step, WorkerStep::AwaitCommand);
    assert_eq!(events.len(), 2);
    assert!(matches!(events[0], SessionEvent::VideoStreamEnded { .. }));
    assert!(matches!(events[1], SessionEvent::AudioStreamEnded { .. }));
    let mut overtaken = DecodeControl::new();
    overtaken.send_seek(Duration::from_secs(1), SeekGeneration(1), OperationId(6));
    let (events, _) = w.run_finished(RunOutcome::Completed, true, false, &overtaken);
    assert!(events.is_empty());
}

#[test]
fn failures_are_told_from_a_lost_device() {
    let w = running();
    assert!(matches!(
        w.failure_event("x".to_string(), true),
        SessionEvent::DeviceLost { .. }
    ));
    match w.failure_event("x".to_string(), false) {
        SessionEvent::PlaybackFailed { error, op_id, .. } => {
            assert_eq!(error, "x");
            assert_eq!(op_id, OperationId(5));
        }
        other => panic!("{other:?}"),
    }
    let (mut w, _) = worker();
    let (event, step) = w.open_finished(
        OpenOutcome::Failed("y".to_string()),
        false,
        &DecodeControl::new(),
    );
    assert!(matches!(event, Some(SessionEvent::OpenFailed { .. })));
    assert_eq!(step, WorkerStep::Exit);
}

#[test]
fn a_full_channel_is_tried_again_until_a_newer_command() {
    let w = running();
    let mut control = DecodeControl::new();
    let mut retries = 0u32;
    assert!(matches!(
        w.on_channel_full(&mut retries, &control),
        SendStep::Retry(_)
    ));
    assert_eq!(retries, 1);
    control.send_shutdown();
    assert_eq!(w.on_channel_full(&mut retries, &control), SendStep::GiveUp);
}

#[test]
fn a_shutdown_ends_the_worker() {
    let mut w = running();
    assert_eq!(w.command_received(DecodeCommand::Shutdown, 9), WorkerStep::Exit);
}
