//! The buckets, directories with a bounded number of files, that finished files are put into.

use vstd::prelude::*;

use crate::bucket_id::random_uuid;
use crate::bucket_id::uuid_text;
use crate::path::find_last_component;
use crate::path::join;
use crate::text::caused_by;

verus! {

/// What a bucket is.
#[verifier::ext_equal]
pub struct BucketView {
    pub id: Seq<char>,
    pub path: Seq<char>,
    pub elements: usize,
}

/// A bucket and the number of files that it is known to hold.
#[derive(Debug)]
pub struct BucketEntry {
    bucket_id: String,
    bucket_path: String,
    bucket_elements: usize,
}

impl View for BucketEntry {
    type V = BucketView;

    closed spec fn view(&self) -> BucketView {
        BucketView {
            id: self.bucket_id@,
            path: self.bucket_path@,
            elements: self.bucket_elements,
        }
    }
}

impl BucketEntry {
    /// A bucket that is known to hold a number of files.
    pub fn new(bucket_id: String, bucket_elements: usize, bucket_path: String) -> (entry: Self)
        ensures
            entry@.id == bucket_id@,
            entry@.path == bucket_path@,
            entry@.elements == bucket_elements,
    {
        BucketEntry { bucket_id, bucket_path, bucket_elements }
    }

    /// Counts one more file, from the largest count back to zero.
    pub fn increment_elm(&mut self)
        ensures
            final(self)@.id == old(self)@.id,
            final(self)@.path == old(self)@.path,
            final(self)@.elements == if old(self)@.elements == usize::MAX {
                0
            } else {
                old(self)@.elements + 1
            },
    {
        self.bucket_elements = self.bucket_elements.wrapping_add(1);
    }

    /// Where the bucket is.
    pub fn get_bucket_path(&self) -> (path: String)
        ensures
            path@ == self@.path,
    {
        self.bucket_path.clone()
    }

    /// The name of the bucket.
    pub fn get_bucket_id(&self) -> (id: String)
        ensures
            id@ == self@.id,
    {
        self.bucket_id.clone()
    }

    /// How many files the bucket is known to hold.
    pub fn elements(&self) -> (elements: usize)
        ensures
            elements == self@.elements,
    {
        self.bucket_elements
    }
}

/// One item of the output directory, as far as it could be read.
#[derive(Debug)]
pub struct ScannedEntry {
    /// Whether it is a directory, where that is known.
    pub is_directory: Option<bool>,
    /// Its path, where that is valid text.
    pub path: Option<String>,
    /// How many items it holds, where they could be listed.
    pub elements: Option<usize>,
}

/// A bucket that is yet to be created.
#[derive(Debug)]
pub struct NewBucket {
    pub id: String,
    pub path: String,
}

/// Why no bucket could be provided or found. The texts are causes that were reported.
#[derive(Debug, PartialEq)]
pub enum BucketError {
    Scan { directory: String, cause: String },
    Create { cause: String },
}

impl BucketError {
    /// What the error reports, with its cause.
    pub open spec fn text(self) -> Seq<char> {
        match self {
            BucketError::Scan { directory, cause } => crate::text::with_cause(
                "Failed to scan set output directory: "@ + directory@,
                cause@,
            ),
            BucketError::Create { cause } => crate::text::with_cause(
                "Faced error when creating directory!"@,
                cause@,
            ),
        }
    }

    /// What the error reports, with its cause.
    pub fn message(&self) -> (message: String)
        ensures
            message@ == self.text(),
    {
        match self {
            BucketError::Scan { directory, cause } => {
                let mut context = "Failed to scan set output directory: ".to_owned();
                context.append(directory.as_str());
                caused_by(context.as_str(), cause.as_str())
            },
            BucketError::Create { cause } => caused_by(
                "Faced error when creating directory!",
                cause.as_str(),
            ),
        }
    }
}

/// What an allocator is.
#[verifier::ext_equal]
pub struct AllocatorView {
    /// How many files a bucket may hold.
    pub limit: usize,
    /// The directory that holds the buckets.
    pub directory: Seq<char>,
    /// The known buckets, in the order in which they became known.
    pub table: Seq<BucketView>,
}

/// Hands out buckets that have room.
#[derive(Debug)]
pub struct BucketAllocator {
    bucket_limit: usize,
    output_directory: String,
    bucket_table: Vec<BucketEntry>,
}

impl View for BucketAllocator {
    type V = AllocatorView;

    closed spec fn view(&self) -> AllocatorView {
        AllocatorView {
            limit: self.bucket_limit,
            directory: self.output_directory@,
            table: views(self.bucket_table@),
        }
    }
}

/// What a sequence of buckets is.
pub closed spec fn views(entries: Seq<BucketEntry>) -> Seq<BucketView> {
    entries.map_values(|entry: BucketEntry| entry@)
}

/// What an item of the output directory is taken for: a bucket, unless it is known to be no
/// directory, is named by no valid text, could not be listed or has no room.
pub open spec fn admitted(item: Option<ScannedEntry>, limit: usize) -> Option<BucketView> {
    match item {
        Some(entry) => match (entry.path, entry.elements) {
            (Some(path), Some(elements)) => match crate::path::last_component(path@) {
                Some(id) => if entry.is_directory != Some(false) && elements < limit {
                    Some(BucketView { id, path: path@, elements })
                } else {
                    None
                },
                None => None,
            },
            _ => None,
        },
        None => None,
    }
}

/// The buckets among the items of the output directory, in order.
pub open spec fn admitted_all(items: Seq<Option<ScannedEntry>>, limit: usize) -> Seq<BucketView>
    decreases items.len(),
{
    if items.len() == 0 {
        seq![]
    } else {
        let before = admitted_all(items.drop_last(), limit);
        match admitted(items.last(), limit) {
            Some(bucket) => before.push(bucket),
            None => before,
        }
    }
}

/// Whether the bucket at an index is the first one with room.
pub open spec fn first_with_room(allocator: AllocatorView, index: int) -> bool {
    &&& 0 <= index < allocator.table.len()
    &&& allocator.table[index].elements < allocator.limit
    &&& forall|i: int| 0 <= i < index ==> #[trigger] allocator.table[i].elements >= allocator.limit
}

/// Whether no bucket has room.
pub open spec fn is_full(allocator: AllocatorView) -> bool {
    forall|i: int|
        0 <= i < allocator.table.len() ==> #[trigger] allocator.table[i].elements
            >= allocator.limit
}

/// A new bucket: empty, named by a UUID, in the allocator's directory.
pub open spec fn fresh_bucket(directory: Seq<char>, uuid: u128) -> BucketView {
    BucketView {
        id: crate::bucket_id::hyphenated(uuid),
        path: crate::path::joined(directory, crate::bucket_id::hyphenated(uuid)),
        elements: 0,
    }
}

/// What to do for a bucket with room.
#[derive(Debug)]
pub enum Allocation<'a> {
    /// This bucket has room.
    Existing(&'a mut BucketEntry),
    /// No bucket has room; this one is to be created.
    Create(NewBucket),
}

impl BucketAllocator {
    /// An allocator that knows no bucket yet.
    pub fn initalize(bucket_limit: usize, output_directory: String) -> (allocator: Result<
        Self,
        BucketError,
    >)
        ensures
            allocator matches Ok(a) && a@ == (AllocatorView {
                limit: bucket_limit,
                directory: output_directory@,
                table: seq![],
            }),
    {
        let allocator = BucketAllocator { bucket_limit, output_directory, bucket_table: vec![] };
        proof {
            assert(allocator@.table =~= seq![]);
        }
        Ok(allocator)
    }

    /// Learns of the buckets among the items of the output directory, unless it could not be
    /// listed.
    pub fn scan_directory(
        &mut self,
        listing: Result<Vec<Option<ScannedEntry>>, String>,
    ) -> (result: Result<(), BucketError>)
        ensures
            match listing {
                Ok(items) => {
                    &&& result is Ok
                    &&& final(self)@ == AllocatorView {
                        table: old(self)@.table + admitted_all(items@, old(self)@.limit),
                        ..old(self)@
                    }
                },
                Err(reported) => {
                    &&& result matches Err(BucketError::Scan { directory, cause })
                    &&& directory@ == old(self)@.directory
                    &&& cause == reported
                    &&& final(self)@ == old(self)@
                },
            },
    {
        let items = match listing {
            Ok(items) => items,
            Err(cause) => return Err(
                BucketError::Scan { directory: self.output_directory.clone(), cause },
            ),
        };
        proof {
            assert(self@.table + admitted_all(items@.take(0), self@.limit) =~= self@.table);
        }
        let mut i: usize = 0;
        while i < items.len()
            invariant
                i <= items@.len(),
                self@ == (AllocatorView {
                    table: old(self)@.table + admitted_all(items@.take(i as int), old(self)@.limit),
                    ..old(self)@
                }),
            decreases items@.len() - i,
        {
            let ghost before = self@.table;
            let ghost seen = items@.take(i + 1);
            proof {
                assert(seen.drop_last() =~= items@.take(i as int));
                assert(seen.last() == items@[i as int]);
            }
            if let Some(entry) = &items[i] {
                let skipped = match entry.is_directory {
                    Some(is_directory) => !is_directory,
                    None => false,
                };
                if !skipped {
                    if let Some(path) = &entry.path {
                        if let Some(bucket_id) = find_last_component(path.as_str()) {
                            if let Some(elements) = entry.elements {
                                if elements < self.bucket_limit {
                                    let bucket = BucketEntry::new(
                                        bucket_id,
                                        elements,
                                        path.clone(),
                                    );
                                    let ghost entries = self.bucket_table@;
                                    self.bucket_table.push(bucket);
                                    proof {
                                        assert(views(self.bucket_table@) =~= views(entries).push(
                                            bucket@,
                                        ));
                                    }
                                }
                            }
                        }
                    }
                }
            }
            proof {
                assert(self@.table =~= old(self)@.table + admitted_all(seen, old(self)@.limit));
            }
            i += 1;
        }
        proof {
            assert(items@.take(i as int) =~= items@);
        }
        Ok(())
    }

    /// The bucket that a UUID names.
    pub fn bucket_named(&self, uuid: u128) -> (bucket: NewBucket)
        ensures
            bucket.id@ == fresh_bucket(self@.directory, uuid).id,
            bucket.path@ == fresh_bucket(self@.directory, uuid).path,
    {
        let id = uuid_text(uuid);
        let path = join(self.output_directory.as_str(), id.as_str());
        NewBucket { id, path }
    }

    /// Finds the first bucket with room, or names a new one where none has.
    pub fn allocate_bucket(&mut self) -> (allocation: Allocation<'_>)
        ensures
            match allocation {
                Allocation::Existing(bucket) => exists|index: int|
                    #![trigger first_with_room(old(self)@, index)]
                    first_with_room(old(self)@, index) && bucket@ == old(self)@.table[index]
                        && final(self)@ == AllocatorView {
                        table: old(self)@.table.update(index, final(bucket)@),
                        ..old(self)@
                    },
                Allocation::Create(bucket) => {
                    &&& is_full(old(self)@)
                    &&& final(self)@ == old(self)@
                    &&& exists|uuid: u128|
                        #![trigger fresh_bucket(old(self)@.directory, uuid)]
                        crate::bucket_id::is_random_uuid(uuid) && bucket.id@ == fresh_bucket(
                            old(self)@.directory,
                            uuid,
                        ).id && bucket.path@ == fresh_bucket(old(self)@.directory, uuid).path
                },
            },
    {
        let mut i: usize = 0;
        while i < self.bucket_table.len()
            invariant
                i <= self.bucket_table@.len(),
                *self == *old(self),
                forall|j: int|
                    0 <= j < i ==> #[trigger] self@.table[j].elements >= self@.limit,
            decreases self.bucket_table@.len() - i,
        {
            if self.bucket_table[i].bucket_elements < self.bucket_limit {
                let ghost entries = self.bucket_table@;
                proof {
                    assert(first_with_room(old(self)@, i as int));
                }
                let bucket = &mut self.bucket_table[i];
                proof {
                    assert(views(entries.update(i as int, *final(bucket))) =~= views(
                        entries,
                    ).update(i as int, final(bucket)@));
                }
                return Allocation::Existing(bucket);
            }
            i += 1;
        }
        Allocation::Create(self.name_new_bucket())
    }

    /// Names a new bucket at random.
    pub fn name_new_bucket(&self) -> (bucket: NewBucket)
        ensures
            exists|uuid: u128|
                #![trigger fresh_bucket(self@.directory, uuid)]
                crate::bucket_id::is_random_uuid(uuid) && bucket.id@ == fresh_bucket(
                    self@.directory,
                    uuid,
                ).id && bucket.path@ == fresh_bucket(self@.directory, uuid).path,
    {
        let uuid = random_uuid();
        self.bucket_named(uuid)
    }

    /// Takes a new bucket into the table, once its directory was created, and provides it.
    pub fn create_new_bucket(
        &mut self,
        bucket: NewBucket,
        created: Result<(), String>,
    ) -> (result: Result<&mut BucketEntry, BucketError>)
        ensures
            match created {
                Ok(_) => {
                    &&& result matches Ok(entry)
                    &&& entry@ == (BucketView {
                        id: bucket.id@,
                        path: bucket.path@,
                        elements: 0,
                    })
                    &&& final(self)@ == AllocatorView {
                        table: old(self)@.table.push(final(entry)@),
                        ..old(self)@
                    }
                },
                Err(reported) => {
                    &&& result matches Err(BucketError::Create { cause })
                    &&& cause == reported
                    &&& final(self)@ == old(self)@
                },
            },
    {
        if let Err(cause) = created {
            return Err(BucketError::Create { cause });
        }
        let ghost entries = self.bucket_table@;
        self.bucket_table.push(BucketEntry::new(bucket.id, 0, bucket.path));
        let last: usize = self.bucket_table.len() - 1;
        let entry = &mut self.bucket_table[last];
        proof {
            assert(views(
                entries.push(*entry).update(last as int, *final(entry)),
            ) =~= views(entries).push(final(entry)@));
        }
        Ok(entry)
    }
}

/// Either one bucket is the first with room, and no other is, or no bucket has room.
pub proof fn law_allocation_is_determined(allocator: AllocatorView)
    ensures
        is_full(allocator) <==> !exists|i: int| first_with_room(allocator, i),
        forall|i: int, j: int|
            first_with_room(allocator, i) && first_with_room(allocator, j) ==> i == j,
{
    lemma_room_is_found(allocator, allocator.table.len() as int);
    assert forall|i: int, j: int|
        first_with_room(allocator, i) && first_with_room(allocator, j) implies i == j by {
        if i < j {
            assert(allocator.table[i].elements >= allocator.limit);
        }
        if j < i {
            assert(allocator.table[j].elements >= allocator.limit);
        }
    }
}

proof fn lemma_room_is_found(allocator: AllocatorView, count: int)
    requires
        0 <= count <= allocator.table.len(),
    ensures
        (exists|i: int| first_with_room(allocator, i) && i < count) || (forall|i: int|
            0 <= i < count ==> #[trigger] allocator.table[i].elements >= allocator.limit),
    decreases count,
{
    if count > 0 {
        lemma_room_is_found(allocator, count - 1);
        if !(exists|i: int| first_with_room(allocator, i) && i < count - 1) {
            if allocator.table[count - 1].elements < allocator.limit {
                assert(first_with_room(allocator, count - 1));
            }
        }
    }
}

/// A bucket that was created because none had room is the one that the next allocation finds,
/// unless buckets may hold no files at all.
pub proof fn law_created_bucket_is_found(allocator: AllocatorView, uuid: u128)
    requires
        is_full(allocator),
        allocator.limit > 0,
    ensures
        first_with_room(
            AllocatorView {
                table: allocator.table.push(fresh_bucket(allocator.directory, uuid)),
                ..allocator
            },
            allocator.table.len() as int,
        ),
{
    let table = allocator.table.push(fresh_bucket(allocator.directory, uuid));
    assert forall|i: int| 0 <= i < allocator.table.len() implies #[trigger] table[i].elements
        >= allocator.limit by {
        assert(table[i] == allocator.table[i]);
    }
}

/// A scan finds a created bucket under the name and the path that it was created with, with the
/// number of files that it now holds, as long as it has room.
pub proof fn law_created_bucket_is_scanned(
    directory: Seq<char>,
    uuid: u128,
    entry: ScannedEntry,
    limit: usize,
)
    requires
        entry.is_directory != Some(false),
        entry.path is Some,
        entry.path->Some_0@ == fresh_bucket(directory, uuid).path,
        entry.elements is Some,
        entry.elements->Some_0 < limit,
    ensures
        admitted(Some(entry), limit) == Some(
            BucketView { elements: entry.elements->Some_0, ..fresh_bucket(directory, uuid) },
        ),
{
    let id = crate::bucket_id::hyphenated(uuid);
    assert(id.len() == 36);
    assert(!id.contains('/')) by {
        if id.contains('/') {
            let i = choose|i: int| 0 <= i < id.len() && id[i] == '/';
            assert(id[i] != '/');
        }
    }
    crate::path::law_joined_name_is_last(directory, id);
}

/// Every bucket that a scan takes into the table has room.
pub proof fn law_scanned_buckets_have_room(items: Seq<Option<ScannedEntry>>, limit: usize)
    ensures
        forall|i: int|
            0 <= i < admitted_all(items, limit).len() ==> #[trigger] admitted_all(
                items,
                limit,
            )[i].elements < limit,
        admitted_all(items, limit).len() <= items.len(),
    decreases items.len(),
{
    if items.len() > 0 {
        law_scanned_buckets_have_room(items.drop_last(), limit);
    }
}

/// The bucket that is handed out has room and all before it have none; buckets that become known
/// later do not change which it is.
pub proof fn law_first_bucket_with_room(
    allocator: AllocatorView,
    index: int,
    more: Seq<BucketView>,
)
    requires
        first_with_room(allocator, index),
    ensures
        0 <= index < allocator.table.len(),
        allocator.table[index].elements < allocator.limit,
        forall|i: int|
            0 <= i < index ==> !(#[trigger] allocator.table[i].elements < allocator.limit),
        first_with_room((AllocatorView { table: allocator.table + more, ..allocator }), index),
{
    let longer = AllocatorView { table: allocator.table + more, ..allocator };
    assert forall|i: int| 0 <= i <= index implies #[trigger] longer.table[i]
        == allocator.table[i] by {}
}

/// No bucket is created while one has room.
pub proof fn law_full_means_no_room(allocator: AllocatorView, index: int)
    requires
        0 <= index < allocator.table.len(),
        is_full(allocator),
    ensures
        allocator.table[index].elements >= allocator.limit,
{
}

/// A new bucket is empty, is named by a UUID and lies in the output directory under that name.
pub proof fn law_new_bucket_lies_in_the_directory(directory: Seq<char>, uuid: u128)
    ensures
        fresh_bucket(directory, uuid).elements == 0,
        fresh_bucket(directory, uuid).id == crate::bucket_id::hyphenated(uuid),
        directory.len() > 0 && directory.last() != '/' ==> fresh_bucket(directory, uuid).path
            == directory + seq!['/'] + crate::bucket_id::hyphenated(uuid),
        directory.len() == 0 || directory.last() == '/' ==> fresh_bucket(directory, uuid).path
            == directory + crate::bucket_id::hyphenated(uuid),
{
    let id = crate::bucket_id::hyphenated(uuid);
    assert(id[0] != '/');
    assert(directory.push('/') + id =~= directory + seq!['/'] + id);
}

/// An item of the output directory is taken for a bucket exactly where it is not known to be
/// anything but a directory, its name is text, its items could be counted and they are fewer
/// than a bucket may hold. It is taken under its whole path, with that count.
pub proof fn law_directories_with_room_are_buckets(entry: ScannedEntry, limit: usize)
    ensures
        admitted(None, limit) is None,
        admitted(Some(entry), limit) is Some <==> {
            &&& entry.is_directory is None || entry.is_directory == Some(true)
            &&& entry.path is Some && crate::path::last_component(entry.path->Some_0@) is Some
            &&& entry.elements is Some && entry.elements->Some_0 < limit
        },
        admitted(Some(entry), limit) matches Some(bucket) ==> {
            &&& bucket.path == entry.path->Some_0@
            &&& bucket.elements == entry.elements->Some_0
            &&& Some(bucket.id) == crate::path::last_component(bucket.path)
        },
{
    if let Some(is_directory) = entry.is_directory {
        if is_directory {
            assert(entry.is_directory == Some(true));
        } else {
            assert(entry.is_directory == Some(false));
        }
    }
}

/// A scan takes every item by itself: the buckets of two lists one after the other are those of
/// the first followed by those of the second, and one item gives what it alone is taken for.
pub proof fn law_scan_takes_items_one_by_one(
    first: Seq<Option<ScannedEntry>>,
    second: Seq<Option<ScannedEntry>>,
    item: Option<ScannedEntry>,
    limit: usize,
)
    ensures
        admitted_all(first + second, limit) == admitted_all(first, limit) + admitted_all(
            second,
            limit,
        ),
        admitted_all(seq![item], limit) == match admitted(item, limit) {
            Some(bucket) => seq![bucket],
            None => Seq::<BucketView>::empty(),
        },
    decreases second.len(),
{
    assert(seq![item].drop_last() =~= Seq::<Option<ScannedEntry>>::empty());
    assert(admitted_all(Seq::<Option<ScannedEntry>>::empty(), limit)
        =~= Seq::<BucketView>::empty());
    assert(admitted_all(seq![item], limit) =~= match admitted(item, limit) {
        Some(bucket) => seq![bucket],
        None => Seq::<BucketView>::empty(),
    });
    if second.len() == 0 {
        assert(first + second =~= first);
        assert(admitted_all(first + second, limit) =~= admitted_all(first, limit) + admitted_all(
            second,
            limit,
        ));
    } else {
        law_scan_takes_items_one_by_one(first, second.drop_last(), item, limit);
        assert((first + second).drop_last() =~= first + second.drop_last());
        assert(admitted_all(first + second, limit) =~= admitted_all(first, limit) + admitted_all(
            second,
            limit,
        ));
    }
}

/// A failure is reported with its whole cause behind what failed.
pub proof fn law_bucket_errors_carry_their_cause(directory: String, cause: String)
    ensures
        (BucketError::Scan { directory, cause }).text()
            == "Failed to scan set output directory: "@ + directory@ + ": "@ + cause@,
        (BucketError::Create { cause }).text() == "Faced error when creating directory!"@ + ": "@
            + cause@,
{
}

} // verus!
