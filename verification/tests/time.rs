use spx_transcoder::time::{Elapsed, Timestamp, FIRST_SECOND, LAST_SECOND};

#[test]
fn epoch_in_rfc3339() {
    let t = Timestamp::new(0, 0).unwrap();
    assert_eq!(t.to_rfc3339(), "1970-01-01T00:00:00+00:00");
}

#[test]
fn fraction_in_rfc3339() {
    let t = Timestamp::new(1431648000, 5_000_000).unwrap();
    assert_eq!(t.to_rfc3339(), "2015-05-15T00:00:00.005+00:00");
}

#[test]
fn before_the_epoch_in_rfc3339() {
    let t = Timestamp::new(-1, 0).unwrap();
    assert_eq!(t.to_rfc3339(), "1969-12-31T23:59:59+00:00");
}

#[test]
fn range_of_instants_is_that_of_chrono() {
    for secs in [
        FIRST_SECOND - 1,
        FIRST_SECOND,
        FIRST_SECOND + 59,
        -61,
        -60,
        -1,
        0,
        58,
        59,
        60,
        LAST_SECOND,
        LAST_SECOND + 1,
        i64::MIN,
        i64::MAX,
    ] {
        for nanos in [0, 999_999_999, 1_000_000_000, 1_999_999_999, 2_000_000_000, u32::MAX] {
            let ours = Timestamp::new(secs, nanos);
            let theirs = chrono::DateTime::from_timestamp(secs, nanos);
            assert_eq!(ours.is_some(), theirs.is_some(), "{} {}", secs, nanos);
            if let (Some(t), Some(d)) = (ours, theirs) {
                assert_eq!(t.secs(), secs);
                assert_eq!(t.nanos(), nanos);
                assert_eq!(t.to_rfc3339(), d.to_rfc3339());
            }
        }
    }
}

#[test]
fn now_lies_between_two_readings_of_the_clock() {
    let before = chrono::Utc::now().timestamp();
    let now = Timestamp::now();
    let after = chrono::Utc::now().timestamp();
    assert!(before <= now.secs() && now.secs() <= after);
    assert!(now.nanos() < 1_000_000_000);
}

#[test]
fn spans_compare_by_their_parts() {
    let span = Elapsed { secs: 1, nanos: 2 };
    assert_eq!(span, Elapsed { secs: 1, nanos: 2 });
    assert_ne!(span, Elapsed { secs: 1, nanos: 3 });
}
