use spx_transcoder::bucket_allocator::{
    Allocation, BucketAllocator, BucketEntry, BucketError, NewBucket, ScannedEntry,
};

fn item(
    is_directory: Option<bool>,
    path: Option<&str>,
    elements: Option<usize>,
) -> Option<ScannedEntry> {
    Some(ScannedEntry { is_directory, path: path.map(|p| p.to_string()), elements })
}

fn allocator(limit: usize) -> BucketAllocator {
    BucketAllocator::initalize(limit, "/out".to_string()).unwrap()
}

fn existing(allocation: Allocation<'_>) -> (String, String, usize) {
    match allocation {
        Allocation::Existing(b) => (b.get_bucket_id(), b.get_bucket_path(), b.elements()),
        Allocation::Create(b) => panic!("no bucket with room, but {:?}", b),
    }
}

fn created(allocation: Allocation<'_>) -> NewBucket {
    match allocation {
        Allocation::Create(b) => b,
        Allocation::Existing(b) => panic!("unexpected {:?}", b),
    }
}

#[test]
fn entry_keeps_what_it_is_made_of() {
    let mut entry = BucketEntry::new("id".to_string(), 3, "/out/id".to_string());
    assert_eq!(entry.get_bucket_id(), "id");
    assert_eq!(entry.get_bucket_path(), "/out/id");
    assert_eq!(entry.elements(), 3);
    entry.increment_elm();
    assert_eq!(entry.elements(), 4);
    assert_eq!(entry.get_bucket_path(), "/out/id");
}

#[test]
fn count_wraps_around() {
    let mut entry = BucketEntry::new("id".to_string(), usize::MAX, "p".to_string());
    entry.increment_elm();
    assert_eq!(entry.elements(), 0);
}

#[test]
fn scan_admits_directories_with_room() {
    let mut a = allocator(10);
    let listing = vec![
        None,
        item(Some(false), Some("/out/file"), Some(0)),
        item(Some(true), Some("/out/full"), Some(10)),
        item(Some(true), None, Some(0)),
        item(Some(true), Some("/out/unreadable"), None),
        item(Some(true), Some("/out/first"), Some(9)),
        item(None, Some("/out/second"), Some(1)),
    ];
    assert!(a.scan_directory(Ok(listing)).is_ok());
    match a.allocate_bucket() {
        Allocation::Existing(b) => {
            assert_eq!(b.get_bucket_id(), "first");
            assert_eq!(b.get_bucket_path(), "/out/first");
            assert_eq!(b.elements(), 9);
            b.increment_elm();
        }
        other => panic!("{:?}", other),
    }
    let second = existing(a.allocate_bucket());
    assert_eq!(second, ("second".to_string(), "/out/second".to_string(), 1));
}

#[test]
fn failed_scan_names_the_directory() {
    let mut a = allocator(10);
    let error = a.scan_directory(Err("denied".to_string())).unwrap_err();
    assert_eq!(
        error,
        BucketError::Scan { directory: "/out".to_string(), cause: "denied".to_string() }
    );
    assert_eq!(error.message(), "Failed to scan set output directory: /out: denied");
}

#[test]
fn second_scan_appends() {
    let mut a = allocator(2);
    a.scan_directory(Ok(vec![item(Some(true), Some("/out/a"), Some(1))])).unwrap();
    a.scan_directory(Ok(vec![item(Some(true), Some("/out/b"), Some(0))])).unwrap();
    assert_eq!(existing(a.allocate_bucket()).0, "a");
}

#[test]
fn bucket_is_named_by_its_uuid() {
    let b = allocator(1).bucket_named(0x67e5504410b1426f9247bb680e5fe0c8);
    assert_eq!(b.id, "67e55044-10b1-426f-9247-bb680e5fe0c8");
    assert_eq!(b.path, "/out/67e55044-10b1-426f-9247-bb680e5fe0c8");
    let zero = allocator(1).bucket_named(0);
    assert_eq!(zero.id, "00000000-0000-0000-0000-000000000000");
    let ones = allocator(1).bucket_named(u128::MAX);
    assert_eq!(ones.id, "ffffffff-ffff-ffff-ffff-ffffffffffff");
}

#[test]
fn different_uuids_name_different_buckets() {
    let a = allocator(1);
    assert_ne!(a.bucket_named(1).id, a.bucket_named(2).id);
    assert_ne!(a.bucket_named(1).path, a.bucket_named(1 << 127).path);
}

#[test]
fn random_names_are_version_four() {
    let a = allocator(1);
    for _ in 0..50 {
        let b = a.name_new_bucket();
        let chars: Vec<char> = b.id.chars().collect();
        assert_eq!(chars.len(), 36);
        for (i, c) in chars.iter().enumerate() {
            match i {
                8 | 13 | 18 | 23 => assert_eq!(*c, '-'),
                14 => assert_eq!(*c, '4'),
                19 => assert!("89ab".contains(*c)),
                _ => assert!(c.is_ascii_digit() || ('a'..='f').contains(c)),
            }
        }
        assert_eq!(b.path, format!("/out/{}", b.id));
        assert_ne!(b.id, a.name_new_bucket().id);
    }
}

#[test]
fn created_bucket_is_found_by_the_next_allocation() {
    let mut a = allocator(1);
    let b = created(a.allocate_bucket());
    let (id, path) = (b.id.clone(), b.path.clone());
    {
        let entry = a.create_new_bucket(b, Ok(())).unwrap();
        assert_eq!(entry.get_bucket_id(), id);
        assert_eq!(entry.get_bucket_path(), path);
        assert_eq!(entry.elements(), 0);
    }
    assert_eq!(existing(a.allocate_bucket()), (id, path, 0));
}

#[test]
fn full_buckets_are_passed_over() {
    let mut a = allocator(1);
    let b = created(a.allocate_bucket());
    a.create_new_bucket(b, Ok(())).unwrap().increment_elm();
    created(a.allocate_bucket());
}

#[test]
fn no_bucket_has_room_under_a_limit_of_zero() {
    let mut a = allocator(0);
    let b = created(a.allocate_bucket());
    a.create_new_bucket(b, Ok(())).unwrap();
    created(a.allocate_bucket());
}

#[test]
fn directory_that_is_not_created_is_no_bucket() {
    let mut a = allocator(1);
    let b = created(a.allocate_bucket());
    let error = a.create_new_bucket(b, Err("disk full".to_string())).unwrap_err();
    assert_eq!(error, BucketError::Create { cause: "disk full".to_string() });
    assert_eq!(error.message(), "Faced error when creating directory!: disk full");
    created(a.allocate_bucket());
}

#[test]
fn created_bucket_is_scanned_under_its_name() {
    let b = allocator(5).bucket_named(7);
    let mut a = allocator(5);
    a.scan_directory(Ok(vec![item(Some(true), Some(&b.path), Some(4))])).unwrap();
    assert_eq!(existing(a.allocate_bucket()), (b.id, b.path, 4));
}
