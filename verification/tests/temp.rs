use spx_transcoder::bucket_allocator::{BucketAllocator, BucketError, ScannedEntry};
use spx_transcoder::temp_allocator::{Persist, PersistAction, TempError, TempHolder};

fn holder() -> TempHolder {
    TempHolder::new("abc".to_string(), "pcm".to_string(), true).unwrap()
}

fn with_bucket() -> BucketAllocator {
    let mut a = BucketAllocator::initalize(5, "/out".to_string()).unwrap();
    let entry = ScannedEntry {
        is_directory: Some(true),
        path: Some("/out/b".to_string()),
        elements: Some(0),
    };
    a.scan_directory(Ok(vec![Some(entry)])).unwrap();
    a
}

#[test]
fn holder_needs_an_open_file() {
    let error = TempHolder::new("a".to_string(), "b".to_string(), false).unwrap_err();
    assert_eq!(error, TempError::Open);
    assert_eq!(error.message(), "Problem with initializing a new tempfile!");
    assert_eq!(holder().file_sha, "abc");
    assert_eq!(holder().output_extension, "pcm");
}

#[test]
fn file_goes_into_the_bucket_with_room() {
    let mut a = with_bucket();
    let (call, action) = holder().persist(&mut a);
    assert_eq!(action, PersistAction::Sync);
    let (call, action) = call.step(&mut a, Ok(()));
    assert_eq!(action, PersistAction::Move);
    match &call {
        Persist::Moving { target } => assert_eq!(target, "/out/b/abc.pcm"),
        other => panic!("{:?}", other),
    }
    let (call, action) = call.step(&mut a, Ok(()));
    assert!(matches!(call, Persist::Finished));
    assert_eq!(action, PersistAction::Finish(Ok("/out/b/abc.pcm".to_string())));
}

#[test]
fn file_goes_into_a_new_bucket_where_none_has_room() {
    let mut a = BucketAllocator::initalize(5, "/out".to_string()).unwrap();
    let (call, action) = holder().persist(&mut a);
    assert_eq!(action, PersistAction::CreateDirectory);
    let path = match &call {
        Persist::Creating { bucket, .. } => bucket.path.clone(),
        other => panic!("{:?}", other),
    };
    let (call, action) = call.step(&mut a, Ok(()));
    assert_eq!(action, PersistAction::Sync);
    match &call {
        Persist::Syncing { target } => assert_eq!(*target, format!("{}/abc.pcm", path)),
        other => panic!("{:?}", other),
    }
    let (again, action) = holder().persist(&mut a);
    assert_eq!(action, PersistAction::Sync);
    match again {
        Persist::Syncing { target } => assert_eq!(target, format!("{}/abc.pcm", path)),
        other => panic!("{:?}", other),
    }
}

#[test]
fn each_failure_ends_the_attempt() {
    let mut a = BucketAllocator::initalize(5, "/out".to_string()).unwrap();
    let (call, _) = holder().persist(&mut a);
    let (_, action) = call.step(&mut a, Err("full".to_string()));
    let error = TempError::Allocate(BucketError::Create { cause: "full".to_string() });
    assert_eq!(
        error.message(),
        "Failed to allocate bucket: Faced error when creating directory!: full"
    );
    assert_eq!(action, PersistAction::Finish(Err(error)));

    let mut a = with_bucket();
    let (call, _) = holder().persist(&mut a);
    let (_, action) = call.step(&mut a, Err("io".to_string()));
    let error = TempError::Sync("io".to_string());
    assert_eq!(error.message(), "Unable to sync tempfile: io");
    assert_eq!(action, PersistAction::Finish(Err(error)));

    let (call, _) = holder().persist(&mut a);
    let (call, _) = call.step(&mut a, Ok(()));
    let (_, action) = call.step(&mut a, Err("xdev".to_string()));
    let error = TempError::Persist("xdev".to_string());
    assert_eq!(error.message(), "Failed to persist tempfile: xdev");
    assert_eq!(action, PersistAction::Finish(Err(error)));
}
