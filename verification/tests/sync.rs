use spx_transcoder::queue::SetupStage;
use spx_transcoder::sync_update::{
    JobUpdate, SyncAction, SyncCall, SyncError, SyncEvent, SyncSetupStep, SyncUpdate,
};
use spx_transcoder::time::{Elapsed, Timestamp};

fn update(sha: &str) -> JobUpdate {
    JobUpdate::new(
        sha.to_string(),
        Some("/out/x".to_string()),
        true,
        Timestamp::new(1, 0).unwrap(),
        Some(12),
        Elapsed { secs: 3, nanos: 4 },
        None,
    )
}

fn reports(pending: usize, threshold: usize) -> SyncUpdate {
    SyncUpdate {
        pending_queued_jobs: pending,
        sync_threshold: threshold,
        requested_db_sync: false,
        queue_completed: false,
    }
}

#[test]
fn report_keeps_what_it_is_made_of() {
    let u = JobUpdate::new(
        "s".to_string(),
        None,
        false,
        Timestamp::new(8, 9).unwrap(),
        None,
        Elapsed { secs: 1, nanos: 2 },
        Some("boom".to_string()),
    );
    assert_eq!(u.file_sha, "s");
    assert_eq!(u.output_file_path, None);
    assert!(!u.is_transcoded);
    assert_eq!(u.processed_at, Timestamp::new(8, 9).unwrap());
    assert_eq!(u.output_file_size, None);
    assert_eq!(u.time_to_process, Elapsed { secs: 1, nanos: 2 });
    assert_eq!(u.error_faced, Some("boom".to_string()));
    assert_eq!(update("x").output_file_size, Some(12));
}

#[test]
fn stream_of_reports_is_unbounded() {
    let plan = SyncUpdate::stream_plan(7);
    assert_eq!(plan.name, "db_sync_streams");
    assert_eq!(plan.subjects, vec!["db_sync_streams".to_string()]);
    assert_eq!(plan.consumer, "db_sync_worker");
    assert_eq!(plan.max_messages, None);
    assert_eq!(plan.batch, 7);
}

#[test]
fn setup_of_reports_counts_the_messages() {
    let mut setup = SyncUpdate::initalize(5);
    for (stage, reply) in [
        (SetupStage::Stream, 9u64),
        (SetupStage::Info, 2),
        (SetupStage::Consumer, 9),
    ] {
        assert_eq!(setup.stage, stage);
        let failed = setup.step(Err("down".to_string()));
        let error = SyncError::Setup("down".to_string());
        assert_eq!(error.message(), "down");
        assert_eq!(failed, SyncSetupStep::Finish(Err(error)));
        match setup.step(Ok(reply)) {
            SyncSetupStep::Next(next) => setup = next,
            other => panic!("{:?}", other),
        }
    }
    assert_eq!(setup.step(Ok(9)), SyncSetupStep::Finish(Ok(reports(2, 5))));
}

#[test]
fn reports_are_written_from_the_threshold_on() {
    for (pending, finished, starts) in [
        (4, None, false),
        (5, None, true),
        (6, None, true),
        (0, Some(false), false),
        (0, Some(true), true),
    ] {
        let (call, action) = reports(pending, 5).sync_updates(finished);
        if starts {
            assert_eq!(call, SyncCall::Draining);
            assert!(matches!(action, SyncAction::Drain));
        } else {
            assert_eq!(call, SyncCall::Finished);
            assert!(matches!(action, SyncAction::Finish(Ok(()))));
        }
    }
}

#[test]
fn writing_can_be_held_off() {
    let mut r = reports(9, 5);
    r.requested_db_sync = true;
    assert!(matches!(r.sync_updates(None).1, SyncAction::Finish(Ok(()))));
    assert!(matches!(r.sync_updates(Some(true)).1, SyncAction::Drain));
}

#[test]
fn batch_is_written_acknowledged_and_taken_off() {
    let mut r = reports(5, 5);
    let (call, _) = r.sync_updates(None);
    let messages = vec![Some(update("a")), None, Some(update("b"))];
    let (call, action) = call.step(&mut r, SyncEvent::Drained(messages));
    match action {
        SyncAction::Sync(updates) => {
            let shas: Vec<String> = updates.into_iter().map(|u| u.file_sha).collect();
            assert_eq!(shas, vec!["a".to_string(), "b".to_string()]);
        }
        other => panic!("{:?}", other),
    }
    assert_eq!(r.pending_queued_jobs, 5);
    let (call, action) = call.step(&mut r, SyncEvent::Synced(Ok(())));
    assert!(matches!(action, SyncAction::Ack { rows: 3 }));
    let (call, action) = call.step(&mut r, SyncEvent::Acked);
    assert!(matches!(action, SyncAction::Finish(Ok(()))));
    assert_eq!(call, SyncCall::Finished);
    assert_eq!(r, reports(2, 5));
}

#[test]
fn empty_batch_is_an_error() {
    let mut r = reports(5, 5);
    let (call, _) = r.sync_updates(None);
    let (_, action) = call.step(&mut r, SyncEvent::Drained(vec![]));
    match action {
        SyncAction::Finish(Err(error)) => {
            assert_eq!(error, SyncError::DrainedNothing);
            assert_eq!(error.message(), "DB Sync Job fetch returned empty!");
        }
        other => panic!("{:?}", other),
    }
    assert_eq!(r, reports(5, 5));
}

#[test]
fn failed_batch_stays() {
    let mut r = reports(5, 5);
    let (call, _) = r.sync_updates(None);
    let (call, _) = call.step(&mut r, SyncEvent::Drained(vec![None]));
    let (_, action) = call.step(&mut r, SyncEvent::Synced(Err("db".to_string())));
    match action {
        SyncAction::Finish(Err(error)) => {
            assert_eq!(error, SyncError::Sync("db".to_string()));
            assert_eq!(error.message(), "db");
        }
        other => panic!("{:?}", other),
    }
    assert_eq!(r, reports(5, 5));
}

#[test]
fn larger_batch_than_counted_wraps_around() {
    let mut r = reports(1, 1);
    let (call, _) = r.sync_updates(None);
    let (call, _) = call.step(&mut r, SyncEvent::Drained(vec![None, None]));
    let (call, _) = call.step(&mut r, SyncEvent::Synced(Ok(())));
    let _ = call.step(&mut r, SyncEvent::Acked);
    assert_eq!(r.pending_queued_jobs, usize::MAX);
}

#[test]
fn published_report_is_counted_and_may_start_a_write() {
    let mut r = reports(3, 5);
    for expected in 4..6usize {
        let (call, action) = r.enqueue_update(update("s"));
        assert!(matches!(action, SyncAction::Encode(report) if report.file_sha == "s"));
        let (call, action) = call.step(&mut r, SyncEvent::Encoded(Ok(vec![9])));
        assert!(matches!(action, SyncAction::Publish(bytes) if bytes == vec![9]));
        let (_, action) = call.step(&mut r, SyncEvent::Published(Ok(())));
        assert_eq!(r.pending_queued_jobs, expected);
        if expected < 5 {
            assert!(matches!(action, SyncAction::Finish(Ok(()))));
        } else {
            assert!(matches!(action, SyncAction::Drain));
        }
    }
}

#[test]
fn report_that_is_not_published_is_not_counted() {
    let mut r = reports(3, 5);
    let (call, _) = r.enqueue_update(update("s"));
    let (_, action) = call.step(&mut r, SyncEvent::Encoded(Err("depth".to_string())));
    match action {
        SyncAction::Finish(Err(error)) => {
            assert_eq!(error.message(), "Error serializing the payload!: depth")
        }
        other => panic!("{:?}", other),
    }
    let (call, _) = r.enqueue_update(update("s"));
    let (call, _) = call.step(&mut r, SyncEvent::Encoded(Ok(vec![9])));
    let (_, action) = call.step(&mut r, SyncEvent::Published(Err("down".to_string())));
    match action {
        SyncAction::Finish(Err(error)) => {
            assert_eq!(error.message(), "Error publishing sync update to nats!: down")
        }
        other => panic!("{:?}", other),
    }
    assert_eq!(r, reports(3, 5));
}

#[test]
fn sync_call_accepts_only_the_awaited_reply() {
    assert!(SyncCall::Draining.accepts(&SyncEvent::Drained(vec![])));
    assert!(!SyncCall::Draining.accepts(&SyncEvent::Acked));
    assert!(SyncCall::Acking { rows: 1 }.accepts(&SyncEvent::Acked));
    assert!(SyncCall::Syncing { rows: 1 }.accepts(&SyncEvent::Synced(Ok(()))));
    assert!(SyncCall::Encoding.accepts(&SyncEvent::Encoded(Ok(vec![9]))));
    assert!(SyncCall::Publishing.accepts(&SyncEvent::Published(Ok(()))));
    assert!(!SyncCall::Finished.accepts(&SyncEvent::Acked));
}
