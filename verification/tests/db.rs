use spx_transcoder::db::{
    fetch_job, fetch_query, sync_updates, FETCH_HEAD, FETCH_TAIL, SYNC_QUERY,
};
use spx_transcoder::sync_update::JobUpdate;
use spx_transcoder::time::{Elapsed, Timestamp};

#[test]
fn query_leases_as_many_jobs_as_asked_for() {
    for limit in [0usize, 1, 70, usize::MAX] {
        let query = fetch_query(limit);
        assert_eq!(query, format!("{}{}{}", FETCH_HEAD, limit, FETCH_TAIL));
        assert!(query.contains(&format!("LIMIT {}\n", limit)));
        assert!(query.contains("FOR UPDATE SKIP LOCKED"));
        assert!(query.contains("lease_until = now() + interval '15 minutes'"));
    }
}

#[test]
fn rows_without_bytes_are_left_out() {
    let rows = vec![Ok(vec![1u8]), Err(()), Ok(vec![]), Ok(vec![2, 3]), Err(())];
    assert_eq!(fetch_job(rows), vec![vec![1u8], vec![], vec![2, 3]]);
    assert_eq!(fetch_job(vec![Err(())]), Vec::<Vec<u8>>::new());
}

#[test]
fn reports_become_columns() {
    let first = JobUpdate::new(
        "a".to_string(),
        Some("/out/a".to_string()),
        true,
        Timestamp::new(0, 0).unwrap(),
        Some(640),
        Elapsed { secs: 2, nanos: 500_000_000 },
        None,
    );
    let second = JobUpdate::new(
        "b".to_string(),
        None,
        false,
        Timestamp::new(86_400, 1).unwrap(),
        None,
        Elapsed { secs: 0, nanos: 7 },
        Some("bad".to_string()),
    );
    let columns = sync_updates(vec![first, second]);
    assert_eq!(columns.file_sha, vec!["a".to_string(), "b".to_string()]);
    assert_eq!(columns.output_file_path, vec![Some("/out/a".to_string()), None]);
    assert_eq!(columns.is_transcoded, vec![true, false]);
    assert_eq!(columns.error_faced, vec![None, Some("bad".to_string())]);
    assert_eq!(
        columns.processed_at,
        vec![
            "1970-01-01T00:00:00+00:00".to_string(),
            "1970-01-02T00:00:00.000000001+00:00".to_string()
        ]
    );
    assert_eq!(columns.output_file_size, vec![Some(640), None]);
    assert_eq!(columns.time_to_process[0], Elapsed { secs: 2, nanos: 500_000_000 });
    assert_eq!(columns.time_to_process[1], Elapsed { secs: 0, nanos: 7 });
}

#[test]
fn no_reports_become_empty_columns() {
    let columns = sync_updates(vec![]);
    assert!(columns.file_sha.is_empty() && columns.time_to_process.is_empty());
}

#[test]
fn statement_has_a_parameter_for_each_column() {
    for i in 1..8 {
        assert!(SYNC_QUERY.contains(&format!("${}::", i)));
    }
    assert!(!SYNC_QUERY.contains("$8"));
}
