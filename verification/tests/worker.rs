use spx_transcoder::bucket_allocator::BucketError;
use spx_transcoder::queue::{Job, QueueError};
use spx_transcoder::temp_allocator::TempError;
use spx_transcoder::time::{Elapsed, Timestamp};
use spx_transcoder::transcoder::{TranscodeError, TranscoderMetadata};
use spx_transcoder::worker::{
    check_worker_count, JobOutcome, TaskEnd, Worker, WorkerAction, WorkerEvent,
};

const SPAN: Elapsed = Elapsed { secs: 4, nanos: 2 };

fn reply(worker: Worker, event: WorkerEvent) -> (Worker, WorkerAction) {
    assert!(worker.accepts(&event), "{:?} in {:?}", event, worker);
    worker.step(event)
}

fn getting() -> Worker {
    let (worker, action) = Worker::start();
    assert!(matches!(action, WorkerAction::Pin));
    let (worker, action) = reply(worker, WorkerEvent::Pinned(true));
    assert!(matches!(action, WorkerAction::CheckQueue));
    let (worker, action) = reply(worker, WorkerEvent::Completed(false));
    assert!(matches!(action, WorkerAction::GetJob));
    worker
}

fn opening() -> Worker {
    let at = Timestamp::new(0, 0);
    let job = Job::new("/in/f".to_string(), "sha".to_string(), at);
    let (worker, action) = reply(getting(), WorkerEvent::Got(Ok(job)));
    assert!(matches!(action, WorkerAction::OpenTemp(file_sha) if file_sha == "sha"));
    worker
}

fn cloning() -> Worker {
    let (worker, action) = reply(opening(), WorkerEvent::Opened(Ok(()), SPAN));
    assert!(matches!(action, WorkerAction::CloneTemp));
    worker
}

fn transcoding() -> Worker {
    let (worker, action) = reply(cloning(), WorkerEvent::Cloned(Ok(()), SPAN));
    match action {
        WorkerAction::Transcode(path) => assert_eq!(path, "/in/f"),
        other => panic!("{:?}", other),
    }
    worker
}

fn storing() -> Worker {
    let metadata = TranscoderMetadata { input_sample_rate: 8000, resampled_file_size: 77 };
    let end = TaskEnd::Returned(Ok(metadata));
    let (worker, action) = reply(transcoding(), WorkerEvent::Transcoded(end, SPAN));
    assert!(matches!(action, WorkerAction::Store));
    worker
}

fn outcome(next: (Worker, WorkerAction)) -> JobOutcome {
    let (worker, action) = next;
    let (worker, again) = reply(worker, WorkerEvent::Reported);
    assert!(matches!(again, WorkerAction::CheckQueue));
    assert!(matches!(worker, Worker::Checking));
    match action {
        WorkerAction::Report(outcome) => outcome,
        other => panic!("{:?}", other),
    }
}

fn error_text(next: (Worker, WorkerAction)) -> String {
    let outcome = outcome(next);
    assert_eq!(outcome.file_sha, "sha");
    assert_eq!(outcome.elapsed, SPAN);
    outcome.result.unwrap_err()
}

#[test]
fn worker_without_a_core_stops() {
    let (worker, _) = Worker::start();
    let (worker, action) = reply(worker, WorkerEvent::Pinned(false));
    assert!(matches!(action, WorkerAction::Stop));
    assert!(matches!(worker, Worker::Stopped));
}

#[test]
fn worker_stops_when_the_stream_has_ended() {
    let (worker, _) = Worker::start();
    let (worker, _) = reply(worker, WorkerEvent::Pinned(true));
    let (_, action) = reply(worker, WorkerEvent::Completed(true));
    assert!(matches!(action, WorkerAction::Stop));

    let (worker, action) = reply(getting(), WorkerEvent::Got(Err(QueueError::Exhausted)));
    assert!(matches!(action, WorkerAction::CheckQueue));
    let (_, action) = reply(worker, WorkerEvent::Completed(true));
    assert!(matches!(action, WorkerAction::Stop));
}

#[test]
fn worker_waits_after_a_failed_attempt() {
    let (worker, _) = reply(getting(), WorkerEvent::Got(Err(QueueError::Ack)));
    let (worker, action) = reply(worker, WorkerEvent::Completed(false));
    assert!(matches!(action, WorkerAction::Wait { millis: 500 }));
    let (worker, action) = reply(worker, WorkerEvent::Waited);
    assert!(matches!(action, WorkerAction::CheckQueue));
    assert!(matches!(worker, Worker::Checking));
}

#[test]
fn stored_output_is_reported() {
    let outcome = outcome(reply(storing(), WorkerEvent::Stored(Ok("/out/b/sha.pcm".to_string()))));
    assert_eq!(outcome.file_sha, "sha");
    assert_eq!(outcome.elapsed, SPAN);
    assert_eq!(outcome.result, Ok(("/out/b/sha.pcm".to_string(), 77)));
}

#[test]
fn failures_are_reported_in_words() {
    let event = WorkerEvent::Opened(Err(TempError::Open), SPAN);
    assert_eq!(
        error_text(reply(opening(), event)),
        "tempfile: Problem with initializing a new tempfile!"
    );
    let event = WorkerEvent::Cloned(Err("limit".to_string()), SPAN);
    assert_eq!(error_text(reply(cloning(), event)), "tempfile clone: limit");
    let end = TaskEnd::Returned(Err(TranscodeError::NoAudioStream));
    let event = WorkerEvent::Transcoded(end, SPAN);
    assert_eq!(
        error_text(reply(transcoding(), event)),
        "Unable to find suitable audio stream!"
    );
    let event = WorkerEvent::Transcoded(TaskEnd::Aborted("panic".to_string()), SPAN);
    assert_eq!(error_text(reply(transcoding(), event)), "spawn_blocking: panic");
    let error = TempError::Allocate(BucketError::Create { cause: "full".to_string() });
    assert_eq!(
        error_text(reply(storing(), WorkerEvent::Stored(Err(error)))),
        "Failed to allocate bucket: Faced error when creating directory!: full"
    );
}

#[test]
fn update_tells_success_from_failure() {
    let at = Timestamp::new(10, 0).unwrap();
    let done = JobOutcome {
        file_sha: "s".to_string(),
        elapsed: SPAN,
        result: Ok(("/p".to_string(), 5)),
    };
    let update = done.update_at(at);
    assert!(update.is_transcoded);
    assert_eq!(update.output_file_path, Some("/p".to_string()));
    assert_eq!(update.output_file_size, Some(5));
    assert_eq!(update.error_faced, None);
    assert_eq!(update.processed_at, at);
    assert_eq!(update.time_to_process, SPAN);
    let failed = JobOutcome {
        file_sha: "s".to_string(),
        elapsed: SPAN,
        result: Err("bad".to_string()),
    };
    let before = Timestamp::now().secs();
    let update = failed.update();
    assert!(!update.is_transcoded);
    assert_eq!(update.output_file_path, None);
    assert_eq!(update.output_file_size, None);
    assert_eq!(update.error_faced, Some("bad".to_string()));
    assert!(update.processed_at.secs() >= before);
}

#[test]
fn every_worker_needs_a_core() {
    assert_eq!(check_worker_count(0, 0), Ok(()));
    assert_eq!(check_worker_count(8, 8), Ok(()));
    assert_eq!(
        check_worker_count(12, 8),
        Err("WORKER_COUNT (12) exceeds available cores (8)".to_string())
    );
}

#[test]
fn worker_accepts_only_the_awaited_reply() {
    let (worker, _) = Worker::start();
    assert!(!worker.accepts(&WorkerEvent::Waited));
    assert!(!worker.accepts(&WorkerEvent::Completed(false)));
    assert!(!getting().accepts(&WorkerEvent::Reported));
    assert!(!storing().accepts(&WorkerEvent::Opened(Ok(()), SPAN)));
}
