use spx_transcoder::queue::{
    to_signed, Job, JobAction, JobCall, JobEvent, JobQueue, QueueError, QueueSetup, QueueSetupStep,
    SetupStage, JOB_CONSUMER, JOB_STREAM,
};
use spx_transcoder::time::Timestamp;

fn queue(pending: usize, capacity: usize) -> JobQueue {
    JobQueue {
        pending_queued_jobs: pending,
        queue_capacity: capacity,
        requested_job_pull: false,
        max_job_fetch_attempt_count: 2,
        failed_attempt: 0,
        queue_completed: false,
    }
}

fn job() -> Job {
    Job::received("/in/a.mkv".to_string(), "sha".to_string(), None, at(5))
}

fn at(secs: i64) -> Timestamp {
    Timestamp::new(secs, 0).unwrap()
}

fn finished(action: &JobAction) -> bool {
    matches!(action, JobAction::Finish(Ok(None)))
}

fn error_of(action: JobAction) -> QueueError {
    match action {
        JobAction::Finish(Err(error)) => error,
        other => panic!("{:?}", other),
    }
}

fn fetching(q: &mut JobQueue) -> JobCall {
    let (call, action) = q.check_job_pull();
    assert!(matches!(action, JobAction::Fetch { .. }), "{:?}", action);
    call
}

#[test]
fn job_keeps_its_time_or_takes_the_present_one() {
    let given = Job::new("p".to_string(), "s".to_string(), Some(at(7)));
    assert_eq!(given.file_received_at, Some(at(7)));
    assert_eq!(given.get_target_file_path(), "p");
    assert_eq!(given.get_file_sha(), "s");
    let before = Timestamp::now().secs();
    let fresh = Job::new("p".to_string(), "s".to_string(), None);
    assert!(fresh.file_received_at.unwrap().secs() >= before);
    assert_eq!(job().file_received_at, Some(at(5)));
    let kept = Job::received("p".to_string(), "s".to_string(), Some(at(1)), at(9));
    assert_eq!(kept.file_received_at, Some(at(1)));
}

#[test]
fn stream_of_jobs_is_bounded_by_the_capacity() {
    let plan = JobQueue::stream_plan(100);
    assert_eq!(plan.name, "transcoding_job_streams");
    assert_eq!(plan.subjects, vec!["transcoding_job_streams".to_string()]);
    assert_eq!(plan.consumer, "transcoding_job_worker");
    assert_eq!(plan.max_messages, Some(100));
    assert_eq!(plan.batch, 100);
    assert_eq!(JOB_STREAM, "transcoding_job_streams");
    assert_eq!(JOB_CONSUMER, "transcoding_job_worker");
}

#[test]
fn large_counts_turn_negative() {
    assert_eq!(to_signed(0), 0);
    assert_eq!(to_signed(i64::MAX as usize), i64::MAX);
    assert_eq!(to_signed(i64::MAX as usize + 1), i64::MIN);
    assert_eq!(to_signed(usize::MAX), -1);
}

fn next(step: QueueSetupStep) -> QueueSetup {
    match step {
        QueueSetupStep::Next(setup) => setup,
        other => panic!("{:?}", other),
    }
}

#[test]
fn setup_counts_the_messages_in_the_stream() {
    let setup = JobQueue::initalize(10, 3);
    assert_eq!(setup.stage, SetupStage::Stream);
    let setup = next(setup.step(Ok(99)));
    assert_eq!(setup.stage, SetupStage::Info);
    let setup = next(setup.step(Ok(4)));
    assert_eq!(setup.stage, SetupStage::Consumer);
    let setup = next(setup.step(Ok(99)));
    assert_eq!(setup.stage, SetupStage::Messages);
    let expected = JobQueue {
        pending_queued_jobs: 4,
        queue_capacity: 10,
        requested_job_pull: false,
        max_job_fetch_attempt_count: 3,
        failed_attempt: 0,
        queue_completed: false,
    };
    assert_eq!(setup.step(Ok(99)), QueueSetupStep::Finish(Ok(expected)));
}

#[test]
fn setup_reports_the_step_that_failed() {
    let mut setup = JobQueue::initalize(10, 3);
    for (stage, text) in [
        (SetupStage::Stream, "Error initializing nats transcoding stream context: down"),
        (SetupStage::Info, "Error getting nats transcoding stream context info struct: down"),
        (SetupStage::Consumer, "Error initializing nats transcoding consumer context: down"),
        (
            SetupStage::Messages,
            "Error initializing nats transcoding message stream context: down",
        ),
    ] {
        assert_eq!(setup.stage, stage);
        match setup.step(Err("down".to_string())) {
            QueueSetupStep::Finish(Err(error)) => {
                assert_eq!(error, QueueError::Setup(stage, "down".to_string()));
                assert_eq!(error.message(), text);
            }
            other => panic!("{:?}", other),
        }
        if stage != SetupStage::Messages {
            setup = next(setup.step(Ok(0)));
        }
    }
}

#[test]
fn refill_is_due_below_thirty_percent() {
    for (pending, capacity, due) in [
        (0, 10, true),
        (2, 10, true),
        (3, 10, false),
        (4, 10, false),
        (29, 100, true),
        (30, 100, false),
        (0, 1, true),
        (1, 1, false),
        (0, 0, false),
        (5, 0, false),
        (299_999, 1_000_000, true),
        (300_000, 1_000_000, false),
        (usize::MAX, 10, false),
    ] {
        let percent = (pending as f64 / capacity as f64) * 100.0;
        assert_eq!(percent < 30.0, due);
        let mut q = queue(pending, capacity);
        let (_, action) = q.check_job_pull();
        match action {
            JobAction::Fetch { limit } => {
                assert!(due);
                assert_eq!(limit, capacity - pending);
                assert!(q.requested_job_pull);
            }
            other => {
                assert!(!due);
                assert!(finished(&other));
                assert!(!q.requested_job_pull);
            }
        }
    }
}

#[test]
fn small_queues_agree_with_the_percentage() {
    for capacity in 1usize..200 {
        for pending in 0usize..200 {
            let percent = (pending as f64 / capacity as f64) * 100.0;
            let (_, action) = queue(pending, capacity).check_job_pull();
            assert_eq!(matches!(action, JobAction::Fetch { .. }), percent < 30.0);
        }
    }
}

#[test]
fn claimed_queue_is_not_refilled_twice() {
    let mut q = queue(0, 10);
    let _call = fetching(&mut q);
    let (_, action) = q.check_job_pull();
    assert!(finished(&action));
    let (_, action) = q.get_job();
    assert!(matches!(action, JobAction::Receive));
}

#[test]
fn jobs_are_published_in_order_and_the_claim_is_given_up() {
    let mut q = queue(1, 10);
    let call = fetching(&mut q);
    let jobs = vec![vec![1u8], vec![2], vec![3]];
    let (mut call, mut action) = call.step(&mut q, JobEvent::Fetched(Ok(jobs)));
    for i in 0..3usize {
        match action {
            JobAction::Publish { index } => assert_eq!(index, i),
            other => panic!("{:?}", other),
        }
        assert_eq!(call.payload(), Some(&vec![i as u8 + 1]));
        assert!(q.requested_job_pull);
        let (c, a) = call.step(&mut q, JobEvent::Published(Ok(())));
        call = c;
        action = a;
    }
    assert!(finished(&action));
    assert_eq!(call.payload(), None);
    assert_eq!(q, queue(1, 10));
}

#[test]
fn empty_fetch_is_an_error_but_no_failed_attempt() {
    let mut q = queue(0, 10);
    let call = fetching(&mut q);
    let (_, action) = call.step(&mut q, JobEvent::Fetched(Ok(vec![])));
    let error = error_of(action);
    assert_eq!(error, QueueError::FetchedNothing);
    assert_eq!(error.message(), "Transcoding Job fetch returned empty!");
    assert_eq!(q, queue(0, 10));
}

#[test]
fn failed_fetches_are_counted_up_to_the_limit() {
    let mut q = queue(0, 10);
    for attempt in 1..3usize {
        let call = fetching(&mut q);
        let (_, action) = call.step(&mut q, JobEvent::Fetched(Err("db".to_string())));
        let error = error_of(action);
        assert_eq!(error, QueueError::Fetch("db".to_string()));
        assert_eq!(error.message(), "Error fetching transcoding jobs: db");
        assert_eq!(q.failed_attempt, attempt);
        assert!(!q.requested_job_pull);
    }
    let (_, action) = q.get_job();
    assert!(matches!(action, JobAction::Receive));
    assert!(!q.requested_job_pull);
    let (_, action) = q.check_job_pull();
    assert!(finished(&action));
    assert!(!q.requested_job_pull);
    assert_eq!(q, JobQueue { failed_attempt: 2, ..queue(0, 10) });
}

#[test]
fn failed_publication_keeps_the_claim() {
    let mut q = queue(0, 10);
    let call = fetching(&mut q);
    let (call, _) = call.step(&mut q, JobEvent::Fetched(Ok(vec![vec![1], vec![2]])));
    let (_, action) = call.step(&mut q, JobEvent::Published(Err("nats".to_string())));
    let error = error_of(action);
    assert_eq!(error, QueueError::Publish("nats".to_string()));
    assert_eq!(error.message(), "Error publishing transcoding job to nats: nats");
    assert!(q.requested_job_pull);
    let (_, action) = q.check_job_pull();
    assert!(finished(&action));
}

#[test]
fn job_is_taken_after_the_refill() {
    let mut q = queue(2, 10);
    let (call, action) = q.get_job();
    assert!(matches!(action, JobAction::Fetch { limit: 8 }));
    let (call, _) = call.step(&mut q, JobEvent::Fetched(Ok(vec![vec![1]])));
    let (call, action) = call.step(&mut q, JobEvent::Published(Ok(())));
    assert!(matches!(action, JobAction::Receive));
    assert!(!q.requested_job_pull);
    let (call, action) = call.step(&mut q, JobEvent::Received(Some(vec![7, 8])));
    assert!(matches!(action, JobAction::Ack));
    assert_eq!(q.pending_queued_jobs, 1);
    let (call, action) = call.step(&mut q, JobEvent::Acked(true));
    assert!(matches!(action, JobAction::Decode(payload) if payload == vec![7, 8]));
    let (_, action) = call.step(&mut q, JobEvent::Decoded(Ok(job())));
    match action {
        JobAction::Finish(Ok(Some(taken))) => assert_eq!(taken.get_file_sha(), "sha"),
        other => panic!("{:?}", other),
    }
    assert!(!q.queue_completed);
}

#[test]
fn job_is_taken_without_a_refill_where_enough_wait() {
    let mut q = queue(5, 10);
    let (call, action) = q.get_job();
    assert!(matches!(action, JobAction::Receive));
    let (call, _) = call.step(&mut q, JobEvent::Received(Some(vec![7, 8])));
    let (_, action) = call.step(&mut q, JobEvent::Acked(false));
    let error = error_of(action);
    assert_eq!(error, QueueError::Ack);
    assert_eq!(error.message(), "Failed to ack job");
    assert_eq!(q.pending_queued_jobs, 4);
}

#[test]
fn message_without_a_job_is_an_error() {
    let mut q = queue(5, 10);
    let (call, _) = q.get_job();
    let (call, _) = call.step(&mut q, JobEvent::Received(Some(vec![7, 8])));
    let (call, _) = call.step(&mut q, JobEvent::Acked(true));
    let (_, action) = call.step(&mut q, JobEvent::Decoded(Err("bad json".to_string())));
    let error = error_of(action);
    assert_eq!(error, QueueError::Decode("bad json".to_string()));
    assert_eq!(error.message(), "bad json");
}

#[test]
fn end_of_the_stream_completes_the_queue() {
    let mut q = queue(5, 10);
    let (call, _) = q.get_job();
    let (_, action) = call.step(&mut q, JobEvent::Received(None));
    let error = error_of(action);
    assert_eq!(error, QueueError::Exhausted);
    assert_eq!(error.message(), "Job stream exhausted");
    assert!(q.queue_completed);
    assert_eq!(q.pending_queued_jobs, 5);
}

#[test]
fn pending_count_wraps_below_zero() {
    let mut q = queue(0, 0);
    let (call, _) = q.get_job();
    let _ = call.step(&mut q, JobEvent::Received(Some(vec![7, 8])));
    assert_eq!(q.pending_queued_jobs, usize::MAX);
}

#[test]
fn failed_refill_ends_the_taking_of_a_job() {
    let mut q = queue(0, 10);
    let (call, _) = q.get_job();
    let (_, action) = call.step(&mut q, JobEvent::Fetched(Err("db".to_string())));
    assert_eq!(error_of(action), QueueError::Fetch("db".to_string()));
}

#[test]
fn only_the_awaited_reply_is_accepted() {
    let mut q = queue(0, 10);
    let call = fetching(&mut q);
    assert!(call.accepts(&JobEvent::Fetched(Ok(vec![]))));
    assert!(!call.accepts(&JobEvent::Published(Ok(()))));
    assert!(!call.accepts(&JobEvent::Received(Some(vec![7, 8]))));
    let (call, _) = call.step(&mut q, JobEvent::Fetched(Ok(vec![vec![]])));
    assert!(call.accepts(&JobEvent::Published(Ok(()))));
    assert!(!call.accepts(&JobEvent::Acked(true)));
    let (call, _) = call.step(&mut q, JobEvent::Published(Ok(())));
    assert!(!call.accepts(&JobEvent::Decoded(Err(String::new()))));
}

#[test]
fn added_jobs_are_published_and_leave_the_queue_alone() {
    let mut q = queue(5, 10);
    let (call, action) = q.add_jobs(vec![vec![1], vec![2, 3]]);
    assert!(matches!(action, JobAction::Publish { index: 0 }));
    assert_eq!(call.payload(), Some(&vec![1]));
    let (call, action) = call.step(&mut q, JobEvent::Published(Ok(())));
    assert!(matches!(action, JobAction::Publish { index: 1 }));
    assert_eq!(call.payload(), Some(&vec![2, 3]));
    let (call, action) = call.step(&mut q, JobEvent::Published(Ok(())));
    assert!(finished(&action));
    assert_eq!(call.payload(), None);
    assert_eq!(q, queue(5, 10));
}

#[test]
fn nothing_to_add_is_done_at_once() {
    let (_, action) = queue(5, 10).add_jobs(vec![]);
    assert!(finished(&action));
}

#[test]
fn added_jobs_stop_at_the_first_failure() {
    let mut q = queue(5, 10);
    let (call, _) = q.add_jobs(vec![vec![1], vec![2]]);
    let (call, action) = call.step(&mut q, JobEvent::Published(Err("down".to_string())));
    assert_eq!(error_of(action), QueueError::Publish("down".to_string()));
    assert!(!call.accepts(&JobEvent::Published(Ok(()))));
}

#[test]
fn added_jobs_do_not_end_a_refill_of_another_call() {
    let mut q = queue(0, 10);
    let refill = fetching(&mut q);
    let (call, _) = q.add_jobs(vec![vec![1]]);
    let (_, action) = call.step(&mut q, JobEvent::Published(Ok(())));
    assert!(finished(&action));
    assert!(q.requested_job_pull);
    let (_, action) = refill.step(&mut q, JobEvent::Fetched(Ok(vec![])));
    assert_eq!(error_of(action), QueueError::FetchedNothing);
    assert!(!q.requested_job_pull);
}

#[test]
fn added_job_is_the_job_that_is_taken() {
    let write = |job: &Job| {
        format!("{}\n{}", job.get_target_file_path(), job.get_file_sha()).into_bytes()
    };
    let read = |bytes: Vec<u8>| {
        let text = String::from_utf8(bytes).unwrap();
        let (path, sha) = text.split_once('\n').unwrap();
        Job::received(path.to_string(), sha.to_string(), None, at(5))
    };
    let mut q = queue(9, 10);
    let (call, _) = q.add_jobs(vec![write(&job())]);
    let message = call.payload().unwrap().clone();
    let (_, action) = call.step(&mut q, JobEvent::Published(Ok(())));
    assert!(finished(&action));
    let (call, action) = q.get_job();
    assert!(matches!(action, JobAction::Receive));
    let (call, _) = call.step(&mut q, JobEvent::Received(Some(message)));
    let (call, action) = call.step(&mut q, JobEvent::Acked(true));
    let payload = match action {
        JobAction::Decode(payload) => payload,
        other => panic!("{:?}", other),
    };
    let (_, action) = call.step(&mut q, JobEvent::Decoded(Ok(read(payload))));
    match action {
        JobAction::Finish(Ok(Some(taken))) => {
            assert_eq!(taken.get_target_file_path(), "/in/a.mkv");
            assert_eq!(taken.get_file_sha(), "sha");
            assert_eq!(taken.file_received_at, Some(at(5)));
        }
        other => panic!("{:?}", other),
    }
}
