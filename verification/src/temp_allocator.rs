//! The temporary file that a job writes to, and its way into a bucket.
//!
//! Files and directories are touched outside. A [`Persist`] takes the reply to one such call at
//! a time and answers with the next.

use vstd::prelude::*;

use crate::bucket_allocator::Allocation;
use crate::bucket_allocator::AllocatorView;
use crate::bucket_allocator::BucketAllocator;
use crate::bucket_allocator::BucketError;
use crate::bucket_allocator::BucketView;
use crate::bucket_allocator::NewBucket;
use crate::path::add_extension;
use crate::path::join;
use crate::text::caused_by;

verus! {

/// Why a file did not reach its bucket, or was not opened in the first place. The texts are
/// causes that were reported.
#[derive(Debug, PartialEq)]
pub enum TempError {
    Open,
    Allocate(BucketError),
    Sync(String),
    Persist(String),
}

impl TempError {
    /// What the error reports, with its cause.
    pub open spec fn text(self) -> Seq<char> {
        match self {
            TempError::Open => "Problem with initializing a new tempfile!"@,
            TempError::Allocate(error) => crate::text::with_cause(
                "Failed to allocate bucket"@,
                error.text(),
            ),
            TempError::Sync(cause) => crate::text::with_cause("Unable to sync tempfile"@, cause@),
            TempError::Persist(cause) => crate::text::with_cause(
                "Failed to persist tempfile"@,
                cause@,
            ),
        }
    }

    /// What the error reports, with its cause.
    pub fn message(&self) -> (message: String)
        ensures
            message@ == self.text(),
    {
        match self {
            TempError::Open => "Problem with initializing a new tempfile!".to_owned(),
            TempError::Allocate(error) => caused_by(
                "Failed to allocate bucket",
                error.message().as_str(),
            ),
            TempError::Sync(cause) => caused_by("Unable to sync tempfile", cause.as_str()),
            TempError::Persist(cause) => caused_by("Failed to persist tempfile", cause.as_str()),
        }
    }
}

/// What becomes of a temporary file: its name in the bucket and its extension.
#[derive(Debug)]
pub struct TempHolder {
    pub file_sha: String,
    pub output_extension: String,
}

/// Where a file is stored: in the bucket, under its hash, with the extension.
pub open spec fn stored_path(
    bucket: Seq<char>,
    file_sha: Seq<char>,
    extension: Seq<char>,
) -> Seq<char> {
    crate::path::extended(crate::path::joined(bucket, file_sha), extension)
}

/// A file on its way into a bucket: what is waited for.
#[derive(Debug)]
pub enum Persist {
    /// The directory of a new bucket is created.
    Creating { holder: TempHolder, bucket: NewBucket },
    /// The file is flushed to disk.
    Syncing { target: String },
    /// The file is moved to its place.
    Moving { target: String },
    Finished,
}

/// The next call to make. The path that it concerns is in the [`Persist`].
#[derive(Debug, PartialEq)]
pub enum PersistAction {
    CreateDirectory,
    Sync,
    Move,
    /// The path of the stored file, or why it was not stored.
    Finish(Result<String, TempError>),
}

/// Where a file with a name and an extension is stored.
fn target_path(bucket: &str, holder: &TempHolder) -> (target: String)
    requires
        !holder.output_extension@.contains('/'),
    ensures
        target@ == stored_path(bucket@, holder.file_sha@, holder.output_extension@),
{
    let path = join(bucket, holder.file_sha.as_str());
    add_extension(path.as_str(), holder.output_extension.as_str())
}

impl TempHolder {
    /// Describes a temporary file, if one could be opened.
    pub fn new(file_sha: String, output_extension: String, opened: bool) -> (holder: Result<
        Self,
        TempError,
    >)
        ensures
            holder == if opened {
                Ok::<TempHolder, TempError>(TempHolder { file_sha, output_extension })
            } else {
                Err(TempError::Open)
            },
    {
        if opened {
            Ok(TempHolder { file_sha, output_extension })
        } else {
            Err(TempError::Open)
        }
    }

    /// Starts to move the file into the first bucket with room, or into a new one.
    pub fn persist(self, allocator: &mut BucketAllocator) -> (start: (Persist, PersistAction))
        requires
            !self.output_extension@.contains('/'),
        ensures
            final(allocator)@ == old(allocator)@,
            match start.0 {
                Persist::Syncing { target } => {
                    &&& start.1 == PersistAction::Sync
                    &&& exists|index: int|
                        #![trigger old(allocator)@.table[index]]
                        crate::bucket_allocator::first_with_room(old(allocator)@, index)
                            && target@ == stored_path(
                            old(allocator)@.table[index].path,
                            self.file_sha@,
                            self.output_extension@,
                        )
                },
                Persist::Creating { holder, bucket } => {
                    &&& start.1 == PersistAction::CreateDirectory
                    &&& crate::bucket_allocator::is_full(old(allocator)@)
                    &&& holder == self
                    &&& exists|uuid: u128|
                        #![trigger crate::bucket_allocator::fresh_bucket(
                            old(allocator)@.directory,
                            uuid,
                        )]
                        crate::bucket_id::is_random_uuid(uuid) && bucket.id@
                            == crate::bucket_allocator::fresh_bucket(
                            old(allocator)@.directory,
                            uuid,
                        ).id && bucket.path@ == crate::bucket_allocator::fresh_bucket(
                            old(allocator)@.directory,
                            uuid,
                        ).path
                },
                _ => false,
            },
    {
        match allocator.allocate_bucket() {
            Allocation::Existing(entry) => {
                let bucket = entry.get_bucket_path();
                let target = target_path(bucket.as_str(), &self);
                (Persist::Syncing { target }, PersistAction::Sync)
            },
            Allocation::Create(bucket) => (
                Persist::Creating { holder: self, bucket },
                PersistAction::CreateDirectory,
            ),
        }
    }
}

/// Whether a step is what follows a reply.
pub open spec fn persist_follows(
    persist: Persist,
    reply: Result<(), String>,
    next: (Persist, PersistAction),
) -> bool {
    match (persist, reply) {
        (Persist::Creating { holder, bucket }, Ok(_)) => {
            &&& next.0 matches Persist::Syncing { target }
            &&& target@ == stored_path(
                bucket.path@,
                holder.file_sha@,
                holder.output_extension@,
            )
            &&& next.1 == PersistAction::Sync
        },
        (Persist::Creating { .. }, Err(cause)) => next == failed(
            TempError::Allocate(BucketError::Create { cause }),
        ),
        (Persist::Syncing { target }, Ok(_)) => next == (
            Persist::Moving { target },
            PersistAction::Move,
        ),
        (Persist::Syncing { .. }, Err(cause)) => next == failed(TempError::Sync(cause)),
        (Persist::Moving { target }, Ok(_)) => next == (
            Persist::Finished,
            PersistAction::Finish(Ok(target)),
        ),
        (Persist::Moving { .. }, Err(cause)) => next == failed(TempError::Persist(cause)),
        (Persist::Finished, _) => true,
    }
}

/// What the allocator is after a reply: a bucket that was created is known from then on.
pub open spec fn allocator_after(
    persist: Persist,
    reply: Result<(), String>,
    allocator: AllocatorView,
) -> AllocatorView {
    match (persist, reply) {
        (Persist::Creating { bucket, .. }, Ok(_)) => AllocatorView {
            table: allocator.table.push(
                BucketView { id: bucket.id@, path: bucket.path@, elements: 0 },
            ),
            ..allocator
        },
        _ => allocator,
    }
}

impl Persist {
    /// Takes the reply to the last call and gives the next one.
    pub fn step(self, allocator: &mut BucketAllocator, reply: Result<(), String>) -> (next: (
        Persist,
        PersistAction,
    ))
        requires
            self !is Finished,
            self matches Persist::Creating { holder, .. } ==> !holder.output_extension@.contains(
                '/',
            ),
        ensures
            persist_follows(self, reply, next),
            final(allocator)@ == allocator_after(self, reply, old(allocator)@),
    {
        match self {
            Persist::Creating { holder, bucket } => match allocator.create_new_bucket(
                bucket,
                reply,
            ) {
                Ok(entry) => {
                    let path = entry.get_bucket_path();
                    let target = target_path(path.as_str(), &holder);
                    (Persist::Syncing { target }, PersistAction::Sync)
                },
                Err(error) => (
                    Persist::Finished,
                    PersistAction::Finish(Err(TempError::Allocate(error))),
                ),
            },
            Persist::Syncing { target } => match reply {
                Ok(_) => (Persist::Moving { target }, PersistAction::Move),
                Err(cause) => (
                    Persist::Finished,
                    PersistAction::Finish(Err(TempError::Sync(cause))),
                ),
            },
            Persist::Moving { target } => match reply {
                Ok(_) => (Persist::Finished, PersistAction::Finish(Ok(target))),
                Err(cause) => (
                    Persist::Finished,
                    PersistAction::Finish(Err(TempError::Persist(cause))),
                ),
            },
            // Nothing is waited for any more.
            Persist::Finished => (Persist::Finished, PersistAction::Finish(Err(TempError::Open))),
        }
    }
}

/// The end of an attempt that failed.
pub open spec fn failed(error: TempError) -> (Persist, PersistAction) {
    (Persist::Finished, PersistAction::Finish(Err(error)))
}

/// A file is stored in its bucket under its whole hash, with the whole extension behind a dot.
pub proof fn law_file_is_stored_under_its_hash(
    bucket: Seq<char>,
    file_sha: Seq<char>,
    extension: Seq<char>,
)
    requires
        file_sha.len() > 0,
        !file_sha.contains('/'),
        file_sha != seq!['.'],
        file_sha != seq!['.', '.'],
    ensures
        extension.len() > 0 && bucket.len() > 0 && bucket.last() != '/' ==> stored_path(
            bucket,
            file_sha,
            extension,
        ) == bucket + seq!['/'] + file_sha + seq!['.'] + extension,
        extension.len() > 0 && (bucket.len() == 0 || bucket.last() == '/') ==> stored_path(
            bucket,
            file_sha,
            extension,
        ) == bucket + file_sha + seq!['.'] + extension,
        extension.len() == 0 && bucket.len() > 0 && bucket.last() != '/' ==> stored_path(
            bucket,
            file_sha,
            extension,
        ) == bucket + seq!['/'] + file_sha,
        extension.len() == 0 && (bucket.len() == 0 || bucket.last() == '/') ==> stored_path(
            bucket,
            file_sha,
            extension,
        ) == bucket + file_sha,
{
    assert(file_sha[0] != '/') by {
        assert(file_sha.contains(file_sha[0]));
    }
    let path = crate::path::joined(bucket, file_sha);
    if bucket.len() > 0 && bucket.last() != '/' {
        assert(path =~= bucket + seq!['/'] + file_sha);
    } else {
        assert(path =~= bucket + file_sha);
    }
    if extension.len() > 0 {
        crate::path::law_stored_path(bucket, file_sha, extension);
        assert(stored_path(bucket, file_sha, extension) =~= path + seq!['.'] + extension);
    }
}

/// Files with different hashes are stored at different paths of a bucket.
pub proof fn law_different_files_are_stored_apart(
    bucket: Seq<char>,
    left: Seq<char>,
    right: Seq<char>,
    extension: Seq<char>,
)
    requires
        left.len() > 0 && !left.contains('/') && left != seq!['.'] && left != seq!['.', '.'],
        right.len() > 0 && !right.contains('/') && right != seq!['.'] && right != seq!['.', '.'],
        stored_path(bucket, left, extension) == stored_path(bucket, right, extension),
    ensures
        left == right,
{
    law_file_is_stored_under_its_hash(bucket, left, extension);
    law_file_is_stored_under_its_hash(bucket, right, extension);
    let path = stored_path(bucket, left, extension);
    let tail: int = if extension.len() > 0 {
        extension.len() as int + 1
    } else {
        0
    };
    let start: int = if bucket.len() > 0 && bucket.last() != '/' {
        bucket.len() as int + 1
    } else {
        bucket.len() as int
    };
    assert(path.len() == start + left.len() + tail);
    assert(path.len() == start + right.len() + tail);
    assert(path.subrange(start, start + left.len()) =~= left);
    assert(path.subrange(start, start + right.len()) =~= right);
}

/// A path other than a plain name still decides where a file goes: an absolute one is kept whole
/// and a relative one is kept whole behind the bucket, before the extension is added.
pub proof fn law_odd_hash_is_kept(bucket: Seq<char>, file_sha: Seq<char>)
    ensures
        ({
            let path = stored_path(bucket, file_sha, Seq::<char>::empty());
            &&& path.len() >= file_sha.len()
            &&& path.skip(path.len() - file_sha.len()) == file_sha
            &&& file_sha.len() > 0 && file_sha[0] == '/' ==> path == file_sha
        }),
{
    if file_sha.len() > 0 && file_sha[0] == '/' {
        crate::path::law_absolute_path_replaces(bucket, file_sha);
    } else {
        crate::path::law_joined_keeps_both(bucket, file_sha);
    }
    let path = stored_path(bucket, file_sha, Seq::<char>::empty());
    assert(path.skip(path.len() - file_sha.len()) =~= file_sha);
}

/// A failure is reported with its whole cause behind what failed.
pub proof fn law_temp_errors_carry_their_cause(cause: String)
    ensures
        TempError::Sync(cause).text() == "Unable to sync tempfile"@ + ": "@ + cause@,
        TempError::Persist(cause).text() == "Failed to persist tempfile"@ + ": "@ + cause@,
        TempError::Allocate((BucketError::Create { cause })).text()
            == "Failed to allocate bucket"@ + ": "@ + ("Faced error when creating directory!"@
            + ": "@ + cause@),
        failed(TempError::Sync(cause)) == (
            Persist::Finished,
            PersistAction::Finish(Err(TempError::Sync(cause))),
        ),
{
}

/// A file that goes into a new bucket is synced and then moved, and the path that is reported is
/// the one that it was moved to: in that bucket, under its whole hash, with the extension. The
/// bucket is known from its creation on, empty, after those known before.
pub proof fn law_file_reaches_its_new_bucket(
    holder: TempHolder,
    bucket: NewBucket,
    allocator: AllocatorView,
    created: (Persist, PersistAction),
    synced: (Persist, PersistAction),
    moved: (Persist, PersistAction),
)
    requires
        persist_follows((Persist::Creating { holder, bucket }), Ok(()), created),
        persist_follows(created.0, Ok(()), synced),
        persist_follows(synced.0, Ok(()), moved),
    ensures
        created.1 == PersistAction::Sync,
        synced.1 == PersistAction::Move,
        synced.0 matches Persist::Moving { target } && target@ == stored_path(
            bucket.path@,
            holder.file_sha@,
            holder.output_extension@,
        ) && moved.1 == PersistAction::Finish(Ok(target)),
        moved.0 is Finished,
        ({
            let after = allocator_after((Persist::Creating { holder, bucket }), Ok(()), allocator);
            &&& after.limit == allocator.limit && after.directory == allocator.directory
            &&& after.table.drop_last() == allocator.table
            &&& after.table.last().id == bucket.id@
            &&& after.table.last().path == bucket.path@
            &&& after.table.last().elements == 0
            &&& allocator_after(created.0, Ok(()), after) == after
            &&& allocator_after(synced.0, Ok(()), after) == after
        }),
{
    let after = allocator_after((Persist::Creating { holder, bucket }), Ok(()), allocator);
    assert(after.table.drop_last() =~= allocator.table);
}

/// A file with a known bucket is synced and then moved to where it was to go, and that path is
/// reported. What fails ends the attempt with its cause, and the allocator stays as it is.
pub proof fn law_file_is_moved_where_it_was_to_go(
    target: String,
    holder: TempHolder,
    bucket: NewBucket,
    allocator: AllocatorView,
    cause: String,
    next: (Persist, PersistAction),
)
    ensures
        persist_follows((Persist::Syncing { target }), Ok(()), next) ==> next == (
            (Persist::Moving { target }),
            PersistAction::Move,
        ),
        persist_follows((Persist::Moving { target }), Ok(()), next) ==> next == (
            Persist::Finished,
            PersistAction::Finish(Ok(target)),
        ),
        persist_follows((Persist::Syncing { target }), Err(cause), next) ==> next == (
            Persist::Finished,
            PersistAction::Finish(Err(TempError::Sync(cause))),
        ),
        persist_follows((Persist::Moving { target }), Err(cause), next) ==> next == (
            Persist::Finished,
            PersistAction::Finish(Err(TempError::Persist(cause))),
        ),
        persist_follows((Persist::Creating { holder, bucket }), Err(cause), next) ==> next == (
            Persist::Finished,
            PersistAction::Finish(Err(TempError::Allocate((BucketError::Create { cause })))),
        ),
        allocator_after((Persist::Creating { holder, bucket }), Err(cause), allocator)
            == allocator,
        allocator_after((Persist::Syncing { target }), Ok(()), allocator) == allocator,
        allocator_after((Persist::Syncing { target }), Err(cause), allocator) == allocator,
        allocator_after((Persist::Moving { target }), Ok(()), allocator) == allocator,
        allocator_after((Persist::Moving { target }), Err(cause), allocator) == allocator,
{
}

} // verus!
