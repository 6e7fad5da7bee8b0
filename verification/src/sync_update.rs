//! The reports on finished jobs, on their way to the database.
//!
//! Reports are published to a stream of the broker and written to the database in batches. Both
//! lie outside. Workers share one [`SyncUpdate`]; each call that waits for the outside is a
//! [`SyncCall`], which takes one reply at a time and answers with the next thing to do.

use vstd::prelude::*;

use crate::queue::SetupStage;
use crate::queue::StreamPlan;
use crate::text::caused_by;
use crate::time::Elapsed;
use crate::time::Timestamp;

verus! {

/// The stream, and the subject on it, that reports are published to.
pub const SYNC_STREAM: &'static str = "db_sync_streams";

/// The consumer that all workers share.
pub const SYNC_CONSUMER: &'static str = "db_sync_worker";

/// The report on a job.
#[derive(Debug)]
pub struct JobUpdate {
    pub file_sha: String,
    pub is_transcoded: bool,
    pub error_faced: Option<String>,
    pub processed_at: Timestamp,
    pub output_file_path: Option<String>,
    pub output_file_size: Option<usize>,
    pub time_to_process: Elapsed,
}

impl JobUpdate {
    /// The report on a job.
    pub fn new(
        file_sha: String,
        output_file_path: Option<String>,
        is_transcoded: bool,
        processed_at: Timestamp,
        file_size: Option<usize>,
        time_to_process: Elapsed,
        error_faced: Option<String>,
    ) -> (update: Self)
        ensures
            update == (JobUpdate {
                file_sha,
                is_transcoded,
                error_faced,
                processed_at,
                output_file_path,
                output_file_size: file_size,
                time_to_process,
            }),
    {
        JobUpdate {
            file_sha,
            output_file_path,
            is_transcoded,
            processed_at,
            output_file_size: file_size,
            time_to_process,
            error_faced,
        }
    }
}

/// Why a call failed. The texts are causes that were reported.
#[derive(Debug, PartialEq)]
pub enum SyncError {
    Setup(String),
    DrainedNothing,
    Sync(String),
    Encode(String),
    Publish(String),
}

impl SyncError {
    /// What the error reports, with its cause.
    pub open spec fn text(self) -> Seq<char> {
        match self {
            SyncError::Setup(cause) => cause@,
            SyncError::DrainedNothing => "DB Sync Job fetch returned empty!"@,
            SyncError::Sync(cause) => cause@,
            SyncError::Encode(cause) => crate::text::with_cause(
                "Error serializing the payload!"@,
                cause@,
            ),
            SyncError::Publish(cause) => crate::text::with_cause(
                "Error publishing sync update to nats!"@,
                cause@,
            ),
        }
    }

    /// What the error reports, with its cause.
    pub fn message(&self) -> (message: String)
        ensures
            message@ == self.text(),
    {
        match self {
            SyncError::Setup(cause) => cause.clone(),
            SyncError::DrainedNothing => "DB Sync Job fetch returned empty!".to_owned(),
            SyncError::Sync(cause) => cause.clone(),
            SyncError::Encode(cause) => caused_by(
                "Error serializing the payload!",
                cause.as_str(),
            ),
            SyncError::Publish(cause) => caused_by(
                "Error publishing sync update to nats!",
                cause.as_str(),
            ),
        }
    }
}

/// The reports that wait for the database.
#[derive(Debug, PartialEq, Eq)]
pub struct SyncUpdate {
    /// How many reports are believed to wait in the stream. It wraps around at both ends.
    pub pending_queued_jobs: usize,
    /// From how many waiting reports on they are written to the database.
    pub sync_threshold: usize,
    /// Whether writing is held off.
    pub requested_db_sync: bool,
    pub queue_completed: bool,
}

/// The setting up of a stream of reports: the step that is waited for.
#[derive(Clone, Copy, Debug, PartialEq, Eq, Structural)]
pub struct SyncSetup {
    pub sync_threshold: usize,
    pub stage: SetupStage,
    /// How many messages the stream holds, once that is known.
    pub messages: u64,
}

/// What follows a step of the setup.
#[derive(Debug, PartialEq)]
pub enum SyncSetupStep {
    Next(SyncSetup),
    Finish(Result<SyncUpdate, SyncError>),
}

/// What follows a reply to a step of the setup.
pub open spec fn sync_setup_next(setup: SyncSetup, reply: Result<u64, String>) -> SyncSetupStep {
    match (reply, setup.stage) {
        (Err(cause), _) => SyncSetupStep::Finish(Err(SyncError::Setup(cause))),
        (Ok(_), SetupStage::Stream) => SyncSetupStep::Next(
            SyncSetup { stage: SetupStage::Info, ..setup },
        ),
        (Ok(count), SetupStage::Info) => SyncSetupStep::Next(
            SyncSetup { stage: SetupStage::Consumer, messages: count, ..setup },
        ),
        (Ok(_), SetupStage::Consumer) => SyncSetupStep::Next(
            SyncSetup { stage: SetupStage::Messages, ..setup },
        ),
        (Ok(_), SetupStage::Messages) => SyncSetupStep::Finish(
            Ok(
                SyncUpdate {
                    pending_queued_jobs: setup.messages as usize,
                    sync_threshold: setup.sync_threshold,
                    requested_db_sync: false,
                    queue_completed: false,
                },
            ),
        ),
    }
}

impl SyncSetup {
    /// Takes the reply to a step: for [`SetupStage::Info`], how many messages the stream holds.
    pub fn step(self, reply: Result<u64, String>) -> (next: SyncSetupStep)
        ensures
            next == sync_setup_next(self, reply),
    {
        match (reply, self.stage) {
            (Err(cause), _) => SyncSetupStep::Finish(Err(SyncError::Setup(cause))),
            (Ok(_), SetupStage::Stream) => SyncSetupStep::Next(
                SyncSetup { stage: SetupStage::Info, ..self },
            ),
            (Ok(count), SetupStage::Info) => SyncSetupStep::Next(
                SyncSetup { stage: SetupStage::Consumer, messages: count, ..self },
            ),
            (Ok(_), SetupStage::Consumer) => SyncSetupStep::Next(
                SyncSetup { stage: SetupStage::Messages, ..self },
            ),
            (Ok(_), SetupStage::Messages) => SyncSetupStep::Finish(
                Ok(
                    SyncUpdate {
                        pending_queued_jobs: self.messages as usize,
                        sync_threshold: self.sync_threshold,
                        requested_db_sync: false,
                        queue_completed: false,
                    },
                ),
            ),
        }
    }
}

/// Where a call stands: what it waits for.
#[derive(Clone, Copy, Debug, PartialEq, Eq, Structural)]
pub enum SyncCall {
    Encoding,
    Publishing,
    Draining,
    /// A batch of this many messages is being written to the database.
    Syncing { rows: usize },
    /// A batch of this many messages is being acknowledged.
    Acking { rows: usize },
    Finished,
}

/// The reply to what a call asked for.
#[derive(Debug)]
pub enum SyncEvent {
    /// The bytes of the report.
    Encoded(Result<Vec<u8>, String>),
    Published(Result<(), String>),
    /// The messages of a batch: the report in each, where it could be read.
    Drained(Vec<Option<JobUpdate>>),
    Synced(Result<(), String>),
    /// Every message of the batch was acknowledged, as far as that succeeded.
    Acked,
}

/// The next thing to do for a call.
#[derive(Debug)]
pub enum SyncAction {
    /// Turn this report into bytes.
    Encode(JobUpdate),
    /// Publish these bytes.
    Publish(Vec<u8>),
    /// Take a batch of messages from the stream.
    Drain,
    /// Write these reports to the database.
    Sync(Vec<JobUpdate>),
    /// Acknowledge the messages of the batch.
    Ack { rows: usize },
    Finish(Result<(), SyncError>),
}

/// What a [`SyncAction`] is.
pub enum SyncActionView {
    Encode(JobUpdate),
    Publish(Seq<u8>),
    Drain,
    Sync(Seq<JobUpdate>),
    Ack { rows: usize },
    Finish(Result<(), SyncError>),
}

impl View for SyncAction {
    type V = SyncActionView;

    open spec fn view(&self) -> SyncActionView {
        match *self {
            SyncAction::Encode(update) => SyncActionView::Encode(update),
            SyncAction::Publish(bytes) => SyncActionView::Publish(bytes@),
            SyncAction::Drain => SyncActionView::Drain,
            SyncAction::Sync(updates) => SyncActionView::Sync(updates@),
            SyncAction::Ack { rows } => SyncActionView::Ack { rows },
            SyncAction::Finish(result) => SyncActionView::Finish(result),
        }
    }
}

/// Whether the waiting reports are due to be written.
pub open spec fn due(sync: SyncUpdate) -> bool {
    sync.pending_queued_jobs >= sync.sync_threshold && !sync.requested_db_sync
}

/// The reports that could be read, in order.
pub open spec fn readable(messages: Seq<Option<JobUpdate>>) -> Seq<JobUpdate>
    decreases messages.len(),
{
    if messages.len() == 0 {
        seq![]
    } else {
        let before = readable(messages.drop_last());
        match messages.last() {
            Some(update) => before.push(update),
            None => before,
        }
    }
}

/// Whether a reply answers what a call asked for.
pub open spec fn sync_answers(call: SyncCall, event: SyncEvent) -> bool {
    match event {
        SyncEvent::Encoded(_) => call is Encoding,
        SyncEvent::Published(_) => call is Publishing,
        SyncEvent::Drained(_) => call is Draining,
        SyncEvent::Synced(_) => call is Syncing,
        SyncEvent::Acked => call is Acking,
    }
}

/// The start of a write to the database, if it is due or the queue is finished.
pub open spec fn begin_sync(sync: SyncUpdate, finished_queue: Option<bool>) -> (
    SyncCall,
    SyncActionView,
) {
    if due(sync) || finished_queue == Some(true) {
        (SyncCall::Draining, SyncActionView::Drain)
    } else {
        (SyncCall::Finished, SyncActionView::Finish(Ok(())))
    }
}

/// The reports, the call and the next thing to do after a reply.
pub open spec fn sync_next(sync: SyncUpdate, call: SyncCall, event: SyncEvent) -> (
    SyncUpdate,
    SyncCall,
    SyncActionView,
) {
    match event {
        SyncEvent::Encoded(result) => match result {
            Ok(bytes) => (sync, SyncCall::Publishing, SyncActionView::Publish(bytes@)),
            Err(cause) => (
                sync,
                SyncCall::Finished,
                SyncActionView::Finish(Err(SyncError::Encode(cause))),
            ),
        },
        SyncEvent::Published(result) => match result {
            Ok(_) => {
                let more = SyncUpdate {
                    pending_queued_jobs: sync.pending_queued_jobs.wrapping_add(1),
                    ..sync
                };
                (more, begin_sync(more, None).0, begin_sync(more, None).1)
            },
            Err(cause) => (
                sync,
                SyncCall::Finished,
                SyncActionView::Finish(Err(SyncError::Publish(cause))),
            ),
        },
        SyncEvent::Drained(messages) => if messages@.len() == 0 {
            (
                sync,
                SyncCall::Finished,
                SyncActionView::Finish(Err(SyncError::DrainedNothing)),
            )
        } else {
            (
                sync,
                SyncCall::Syncing { rows: messages@.len() as usize },
                SyncActionView::Sync(readable(messages@)),
            )
        },
        SyncEvent::Synced(result) => match (call, result) {
            (SyncCall::Syncing { rows }, Ok(_)) => (
                sync,
                SyncCall::Acking { rows },
                SyncActionView::Ack { rows },
            ),
            (_, Err(cause)) => (
                sync,
                SyncCall::Finished,
                SyncActionView::Finish(Err(SyncError::Sync(cause))),
            ),
            _ => arbitrary(),
        },
        SyncEvent::Acked => match call {
            SyncCall::Acking { rows } => (
                SyncUpdate {
                    pending_queued_jobs: sync.pending_queued_jobs.wrapping_sub(rows),
                    ..sync
                },
                SyncCall::Finished,
                SyncActionView::Finish(Ok(())),
            ),
            _ => arbitrary(),
        },
    }
}

/// Keeps the reports that could be read, in order.
fn keep_readable(messages: Vec<Option<JobUpdate>>) -> (updates: Vec<JobUpdate>)
    ensures
        updates@ == readable(messages@),
{
    let ghost all = messages@;
    let mut updates: Vec<JobUpdate> = Vec::new();
    for message in iter: messages
        invariant
            iter.seq() == all,
            updates@ == readable(all.take(iter.index())),
    {
        let ghost seen = all.take(iter.index() + 1);
        proof {
            assert(seen.drop_last() =~= all.take(iter.index()));
            assert(seen.last() == message);
        }
        if let Some(update) = message {
            updates.push(update);
        }
    }
    proof {
        assert(all.take(all.len() as int) =~= all);
    }
    updates
}

impl SyncUpdate {
    /// How the stream of reports is set up for a threshold.
    pub fn stream_plan(sync_threshold: usize) -> (plan: StreamPlan)
        ensures
            plan.name@ == SYNC_STREAM@,
            plan.subjects@.len() == 1,
            plan.subjects@[0]@ == SYNC_STREAM@,
            plan.max_messages is None,
            plan.consumer@ == SYNC_CONSUMER@,
            plan.batch == sync_threshold,
    {
        let mut subjects: Vec<String> = Vec::new();
        subjects.push(SYNC_STREAM.to_owned());
        StreamPlan {
            name: SYNC_STREAM.to_owned(),
            subjects,
            max_messages: None,
            consumer: SYNC_CONSUMER.to_owned(),
            batch: sync_threshold,
        }
    }

    /// Starts to set up the stream of reports.
    pub fn initalize(sync_threshold: usize) -> (setup: SyncSetup)
        ensures
            setup == (SyncSetup { sync_threshold, stage: SetupStage::Stream, messages: 0 }),
    {
        SyncSetup { sync_threshold, stage: SetupStage::Stream, messages: 0 }
    }

    /// Starts to write the waiting reports to the database, where they are due or the queue is
    /// finished.
    pub fn sync_updates(&self, finished_queue: Option<bool>) -> (start: (SyncCall, SyncAction))
        ensures
            (start.0, start.1@) == begin_sync(*self, finished_queue),
    {
        let is_due = self.pending_queued_jobs >= self.sync_threshold && !self.requested_db_sync;
        if is_due || finished_queue.unwrap_or(false) {
            (SyncCall::Draining, SyncAction::Drain)
        } else {
            (SyncCall::Finished, SyncAction::Finish(Ok(())))
        }
    }

    /// Starts to publish a report.
    pub fn enqueue_update(&self, payload: JobUpdate) -> (start: (SyncCall, SyncAction))
        ensures
            start.0 == SyncCall::Encoding,
            start.1 == SyncAction::Encode(payload),
    {
        (SyncCall::Encoding, SyncAction::Encode(payload))
    }
}

impl SyncCall {
    /// Whether a reply answers what the call asked for.
    pub fn accepts(&self, event: &SyncEvent) -> (accepted: bool)
        ensures
            accepted == sync_answers(*self, *event),
    {
        match event {
            SyncEvent::Encoded(_) => matches!(*self, SyncCall::Encoding),
            SyncEvent::Published(_) => matches!(*self, SyncCall::Publishing),
            SyncEvent::Drained(_) => matches!(*self, SyncCall::Draining),
            SyncEvent::Synced(_) => matches!(*self, SyncCall::Syncing { .. }),
            SyncEvent::Acked => matches!(*self, SyncCall::Acking { .. }),
        }
    }

    /// Takes the reply to what was asked for and gives the next thing to do.
    pub fn step(self, sync: &mut SyncUpdate, event: SyncEvent) -> (next: (SyncCall, SyncAction))
        requires
            sync_answers(self, event),
        ensures
            (*final(sync), next.0, next.1@) == sync_next(*old(sync), self, event),
    {
        match event {
            SyncEvent::Encoded(result) => match result {
                Ok(bytes) => (SyncCall::Publishing, SyncAction::Publish(bytes)),
                Err(cause) => (
                    SyncCall::Finished,
                    SyncAction::Finish(Err(SyncError::Encode(cause))),
                ),
            },
            SyncEvent::Published(result) => match result {
                Ok(_) => {
                    sync.pending_queued_jobs = sync.pending_queued_jobs.wrapping_add(1);
                    sync.sync_updates(None)
                },
                Err(cause) => (
                    SyncCall::Finished,
                    SyncAction::Finish(Err(SyncError::Publish(cause))),
                ),
            },
            SyncEvent::Drained(messages) => {
                let rows = messages.len();
                if rows == 0 {
                    (SyncCall::Finished, SyncAction::Finish(Err(SyncError::DrainedNothing)))
                } else {
                    (SyncCall::Syncing { rows }, SyncAction::Sync(keep_readable(messages)))
                }
            },
            SyncEvent::Synced(result) => match (self, result) {
                (SyncCall::Syncing { rows }, Ok(_)) => (
                    SyncCall::Acking { rows },
                    SyncAction::Ack { rows },
                ),
                (_, Err(cause)) => (
                    SyncCall::Finished,
                    SyncAction::Finish(Err(SyncError::Sync(cause))),
                ),
                // Only a batch that is being written is reported as written.
                _ => (SyncCall::Finished, SyncAction::Finish(Ok(()))),
            },
            SyncEvent::Acked => {
                if let SyncCall::Acking { rows } = self {
                    sync.pending_queued_jobs = sync.pending_queued_jobs.wrapping_sub(rows);
                }
                (SyncCall::Finished, SyncAction::Finish(Ok(())))
            },
        }
    }
}

/// The reports, the call and the next thing to do after a batch went through all its steps.
pub open spec fn after_batch(sync: SyncUpdate, messages: Vec<Option<JobUpdate>>) -> (
    SyncUpdate,
    SyncCall,
    SyncActionView,
) {
    let drained = sync_next(sync, SyncCall::Draining, SyncEvent::Drained(messages));
    let synced = sync_next(drained.0, drained.1, SyncEvent::Synced(Ok(())));
    sync_next(synced.0, synced.1, SyncEvent::Acked)
}

/// A batch that was written takes all its messages off the number of waiting reports, also those
/// that could not be read.
pub proof fn law_batch_leaves_the_queue(sync: SyncUpdate, messages: Vec<Option<JobUpdate>>)
    requires
        0 < messages@.len() <= usize::MAX,
    ensures
        after_batch(sync, messages).0 == (SyncUpdate {
            pending_queued_jobs: sync.pending_queued_jobs.wrapping_sub(messages@.len() as usize),
            ..sync
        }),
        messages@.len() <= sync.pending_queued_jobs ==> after_batch(
            sync,
            messages,
        ).0.pending_queued_jobs == sync.pending_queued_jobs - messages@.len(),
        after_batch(sync, messages).2 == SyncActionView::Finish(Ok(())),
{
}

/// A batch that was not written stays: nothing is acknowledged and nothing is taken off the
/// number of waiting reports.
pub proof fn law_failed_batch_stays(sync: SyncUpdate, rows: usize, cause: String)
    ensures
        ({
            let end = sync_next(sync, SyncCall::Syncing { rows }, SyncEvent::Synced(Err(cause)));
            end.0 == sync && end.1 is Finished && end.2 == SyncActionView::Finish(
                Err(SyncError::Sync(cause)),
            )
        }),
{
}

/// The reports that are written are those of the batch that could be read, and no others; where
/// all could be read they are written in the order of the batch.
pub proof fn law_readable_reports_are_written(messages: Seq<Option<JobUpdate>>, update: JobUpdate)
    ensures
        readable(messages).contains(update) <==> messages.contains(Some(update)),
        readable(messages).len() <= messages.len(),
        (forall|i: int| 0 <= i < messages.len() ==> #[trigger] messages[i] is Some) ==> readable(
            messages,
        ) =~= messages.map_values(|message: Option<JobUpdate>| message->Some_0),
    decreases messages.len(),
{
    if messages.len() > 0 {
        let front = messages.drop_last();
        law_readable_reports_are_written(front, update);
        assert(messages =~= front.push(messages.last()));
        assert(messages.contains(Some(update)) <==> front.contains(Some(update))
            || messages.last() == Some(update)) by {
            if messages.contains(Some(update)) {
                let i = choose|i: int| 0 <= i < messages.len() && messages[i] == Some(update);
                if i < front.len() {
                    assert(front[i] == Some(update));
                }
            }
            if front.contains(Some(update)) {
                let i = choose|i: int| 0 <= i < front.len() && front[i] == Some(update);
                assert(messages[i] == Some(update));
            }
            if messages.last() == Some(update) {
                assert(messages[messages.len() - 1] == Some(update));
            }
        }
        let before = readable(front);
        match messages.last() {
            Some(last) => {
                let after = before.push(last);
                assert(after.contains(update) <==> before.contains(update) || last == update) by {
                    if before.contains(update) {
                        let i = choose|i: int| 0 <= i < before.len() && before[i] == update;
                        assert(after[i] == update);
                    }
                    if last == update {
                        assert(after[before.len() as int] == update);
                    }
                    if after.contains(update) {
                        let i = choose|i: int| 0 <= i < after.len() && after[i] == update;
                        if i < before.len() {
                            assert(before[i] == update);
                        }
                    }
                }
            },
            None => {},
        }
        if forall|i: int| 0 <= i < messages.len() ==> #[trigger] messages[i] is Some {
            assert forall|i: int| 0 <= i < front.len() implies #[trigger] front[i] is Some by {
                assert(messages[i] is Some);
            }
            assert(messages[messages.len() - 1] is Some);
        }
    }
}

/// A report that was published is counted, and starts a write exactly from the threshold on.
pub proof fn law_published_report_is_counted(sync: SyncUpdate)
    requires
        sync.pending_queued_jobs < usize::MAX,
        !sync.requested_db_sync,
    ensures
        ({
            let next = sync_next(sync, SyncCall::Publishing, SyncEvent::Published(Ok(())));
            &&& next.0.pending_queued_jobs == sync.pending_queued_jobs + 1
            &&& next.2 == SyncActionView::Drain <==> sync.pending_queued_jobs + 1
                >= sync.sync_threshold
        }),
{
}

/// Reports are written exactly where as many wait as the threshold says and writing is not held
/// off, or where the queue is finished. Otherwise the call is over at once, without an error.
pub proof fn law_write_starts_at_the_threshold(sync: SyncUpdate, finished_queue: Option<bool>)
    ensures
        ({
            let start = begin_sync(sync, finished_queue);
            let writes = (sync.pending_queued_jobs >= sync.sync_threshold
                && !sync.requested_db_sync) || finished_queue == Some(true);
            &&& writes ==> start == (SyncCall::Draining, SyncActionView::Drain)
            &&& !writes ==> start == (SyncCall::Finished, SyncActionView::Finish(Ok(())))
        }),
{
}

/// Messages are read one by one: the reports in two batches one after the other are those of the
/// first followed by those of the second, and a message gives the report in it, if it could be
/// read.
pub proof fn law_messages_are_read_one_by_one(
    first: Seq<Option<JobUpdate>>,
    second: Seq<Option<JobUpdate>>,
    update: JobUpdate,
)
    ensures
        readable(first + second) == readable(first) + readable(second),
        readable(seq![Some(update)]) == seq![update],
        readable(seq![None::<JobUpdate>]) == Seq::<JobUpdate>::empty(),
    decreases second.len(),
{
    let none = Seq::<Option<JobUpdate>>::empty();
    assert(readable(none) =~= Seq::<JobUpdate>::empty());
    assert(seq![Some(update)].drop_last() =~= none);
    assert(readable(seq![Some(update)]) =~= seq![update]);
    assert(seq![None::<JobUpdate>].drop_last() =~= none);
    if second.len() == 0 {
        assert(first + second =~= first);
        assert(readable(first + second) =~= readable(first) + readable(second));
    } else {
        law_messages_are_read_one_by_one(first, second.drop_last(), update);
        assert((first + second).drop_last() =~= first + second.drop_last());
        assert(readable(first + second) =~= readable(first) + readable(second));
    }
}

/// What is published is what was encoded, byte by byte. Once it is published the report counts,
/// from the largest count back to none, and nothing else of the waiting reports changes.
pub proof fn law_encoded_report_is_published(sync: SyncUpdate, bytes: Vec<u8>)
    ensures
        ({
            let encoded = sync_next(sync, SyncCall::Encoding, SyncEvent::Encoded(Ok(bytes)));
            let published = sync_next(encoded.0, encoded.1, SyncEvent::Published(Ok(())));
            &&& encoded.0 == sync
            &&& encoded.2 matches SyncActionView::Publish(message)
            &&& message.len() == bytes@.len()
            &&& forall|i: int| 0 <= i < bytes@.len() ==> message[i] == bytes@[i]
            &&& sync.pending_queued_jobs < usize::MAX ==> published.0.pending_queued_jobs
                == sync.pending_queued_jobs + 1
            &&& sync.pending_queued_jobs == usize::MAX ==> published.0.pending_queued_jobs == 0
            &&& published.0 == (SyncUpdate {
                pending_queued_jobs: published.0.pending_queued_jobs,
                ..sync
            })
            &&& sync_answers(SyncCall::Encoding, SyncEvent::Encoded(Ok(bytes)))
            &&& sync_answers(encoded.1, SyncEvent::Published(Ok(())))
        }),
{
}

/// A batch is written as far as it could be read, all its messages are acknowledged after that,
/// and all of them are taken off the waiting reports at the end.
pub proof fn law_batch_is_written_and_acknowledged(
    sync: SyncUpdate,
    messages: Vec<Option<JobUpdate>>,
)
    requires
        0 < messages@.len() <= usize::MAX,
        messages@.len() <= sync.pending_queued_jobs,
    ensures
        ({
            let drained = sync_next(sync, SyncCall::Draining, SyncEvent::Drained(messages));
            let synced = sync_next(drained.0, drained.1, SyncEvent::Synced(Ok(())));
            let acked = sync_next(synced.0, synced.1, SyncEvent::Acked);
            &&& drained.0 == sync
            &&& drained.2 == SyncActionView::Sync(readable(messages@))
            &&& synced.0 == sync
            &&& synced.2 matches SyncActionView::Ack { rows }
            &&& rows == messages@.len()
            &&& acked.0.pending_queued_jobs + messages@.len() == sync.pending_queued_jobs
            &&& acked.0 == (SyncUpdate {
                pending_queued_jobs: acked.0.pending_queued_jobs,
                ..sync
            })
            &&& acked.1 is Finished
            &&& acked.2 == SyncActionView::Finish(Ok(()))
            &&& sync_answers(SyncCall::Draining, SyncEvent::Drained(messages))
            &&& sync_answers(drained.1, SyncEvent::Synced(Ok(())))
            &&& sync_answers(synced.1, SyncEvent::Acked)
        }),
{
}

/// A report that is handed in is written to the database, as long as what reads reports undoes
/// what writes them: where its bytes are published and a batch holds what is read from the
/// published bytes, that report is among those that the batch writes.
pub proof fn law_report_reaches_the_database(
    sync: SyncUpdate,
    update: JobUpdate,
    bytes: Vec<u8>,
    read: spec_fn(Seq<u8>) -> Option<JobUpdate>,
    later: SyncUpdate,
    messages: Vec<Option<JobUpdate>>,
    position: int,
)
    requires
        read(bytes@) == Some(update),
        0 <= position < messages@.len(),
        sync_next(sync, SyncCall::Encoding, SyncEvent::Encoded(Ok(bytes))).2
            matches SyncActionView::Publish(message) ==> messages@[position] == read(message),
    ensures
        sync_next(later, SyncCall::Draining, SyncEvent::Drained(messages)).2
            matches SyncActionView::Sync(updates) && updates.contains(update),
{
    law_readable_reports_are_written(messages@, update);
    let encoded = sync_next(sync, SyncCall::Encoding, SyncEvent::Encoded(Ok(bytes)));
    assert(encoded.2 is Publish);
    assert(messages@[position] == Some(update));
    assert(messages@.contains(Some(update)));
}

/// A call that goes wrong ends with the reason and changes nothing of the waiting reports.
pub proof fn law_failed_sync_changes_nothing(
    sync: SyncUpdate,
    rows: usize,
    cause: String,
    nothing: Vec<Option<JobUpdate>>,
)
    requires
        nothing@.len() == 0,
    ensures
        sync_next(sync, SyncCall::Encoding, SyncEvent::Encoded(Err(cause))) == (
            sync,
            SyncCall::Finished,
            SyncActionView::Finish(Err(SyncError::Encode(cause))),
        ),
        sync_next(sync, SyncCall::Publishing, SyncEvent::Published(Err(cause))) == (
            sync,
            SyncCall::Finished,
            SyncActionView::Finish(Err(SyncError::Publish(cause))),
        ),
        sync_next(sync, SyncCall::Draining, SyncEvent::Drained(nothing)) == (
            sync,
            SyncCall::Finished,
            SyncActionView::Finish(Err(SyncError::DrainedNothing)),
        ),
        sync_next(sync, (SyncCall::Syncing { rows }), SyncEvent::Synced(Err(cause))) == (
            sync,
            SyncCall::Finished,
            SyncActionView::Finish(Err(SyncError::Sync(cause))),
        ),
        sync_answers(SyncCall::Encoding, SyncEvent::Encoded(Err(cause))),
        sync_answers(SyncCall::Publishing, SyncEvent::Published(Err(cause))),
        sync_answers(SyncCall::Draining, SyncEvent::Drained(nothing)),
        sync_answers((SyncCall::Syncing { rows }), SyncEvent::Synced(Err(cause))),
{
}

/// A failure is reported with its whole cause, behind what failed where that is said.
pub proof fn law_sync_errors_carry_their_cause(cause: String)
    ensures
        SyncError::Encode(cause).text() == "Error serializing the payload!"@ + ": "@ + cause@,
        SyncError::Publish(cause).text() == "Error publishing sync update to nats!"@ + ": "@
            + cause@,
        SyncError::Sync(cause).text() == cause@,
        SyncError::Setup(cause).text() == cause@,
{
}

/// A setup goes through the stream, its message count, the consumer and the messages, in this
/// order. It ends with the threshold asked for and as many waiting reports as the stream was said
/// to hold, or at once with the reason of the step that failed.
pub proof fn law_sync_setup_counts_the_stream(
    threshold: usize,
    any: u64,
    messages: u64,
    at: SyncSetup,
    cause: String,
)
    requires
        messages <= usize::MAX,
    ensures
        ({
            let start = SyncSetup {
                sync_threshold: threshold,
                stage: SetupStage::Stream,
                messages: 0,
            };
            &&& sync_setup_next(start, Ok(any)) matches SyncSetupStep::Next(second)
            &&& second.stage == SetupStage::Info
            &&& sync_setup_next(second, Ok(messages)) matches SyncSetupStep::Next(third)
            &&& third.stage == SetupStage::Consumer
            &&& sync_setup_next(third, Ok(any)) matches SyncSetupStep::Next(fourth)
            &&& fourth.stage == SetupStage::Messages
            &&& sync_setup_next(fourth, Ok(any)) matches SyncSetupStep::Finish(Ok(sync))
            &&& sync.pending_queued_jobs == messages
            &&& sync.sync_threshold == threshold
            &&& !sync.requested_db_sync && !sync.queue_completed
        }),
        sync_setup_next(at, Err(cause)) == SyncSetupStep::Finish(Err(SyncError::Setup(cause))),
{
}

} // verus!
