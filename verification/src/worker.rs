//! A worker: the loop that takes jobs, transcodes their files and reports on them.
//!
//! A [`Worker`] takes the reply to one thing at a time and answers with the next thing to do.

use vstd::prelude::*;

use crate::queue::Job;
use crate::queue::QueueError;
use crate::sync_update::JobUpdate;
use crate::temp_allocator::TempError;
use crate::text::caused_by;
use crate::text::decimal_text;
use crate::time::Elapsed;
use crate::time::Timestamp;
use crate::transcoder::TranscodeError;
use crate::transcoder::TranscoderMetadata;

verus! {

/// How long a worker waits after a failed attempt to take a job.
pub const RETRY_MILLIS: u64 = 500;

/// What became of a job.
#[derive(Debug)]
pub struct JobOutcome {
    pub file_sha: String,
    pub elapsed: Elapsed,
    /// Where the output is and how large, or what went wrong.
    pub result: Result<(String, usize), String>,
}

/// What a [`JobOutcome`] is.
#[verifier::ext_equal]
pub struct OutcomeView {
    pub file_sha: Seq<char>,
    pub elapsed: Elapsed,
    pub result: Result<(Seq<char>, usize), Seq<char>>,
}

impl View for JobOutcome {
    type V = OutcomeView;

    open spec fn view(&self) -> OutcomeView {
        OutcomeView {
            file_sha: self.file_sha@,
            elapsed: self.elapsed,
            result: match self.result {
                Ok((path, size)) => Ok((path@, size)),
                Err(error) => Err(error@),
            },
        }
    }
}

/// The report on an outcome at a time.
pub open spec fn update_of(outcome: JobOutcome, processed_at: Timestamp) -> JobUpdate {
    match outcome.result {
        Ok((path, size)) => JobUpdate {
            file_sha: outcome.file_sha,
            is_transcoded: true,
            error_faced: None,
            processed_at,
            output_file_path: Some(path),
            output_file_size: Some(size),
            time_to_process: outcome.elapsed,
        },
        Err(error) => JobUpdate {
            file_sha: outcome.file_sha,
            is_transcoded: false,
            error_faced: Some(error),
            processed_at,
            output_file_path: None,
            output_file_size: None,
            time_to_process: outcome.elapsed,
        },
    }
}

impl JobOutcome {
    /// The report on the job at a time.
    pub fn update_at(self, processed_at: Timestamp) -> (update: JobUpdate)
        ensures
            update == update_of(self, processed_at),
    {
        match self.result {
            Ok((path, size)) => JobUpdate::new(
                self.file_sha,
                Some(path),
                true,
                processed_at,
                Some(size),
                self.elapsed,
                None,
            ),
            Err(error) => JobUpdate::new(
                self.file_sha,
                None,
                false,
                processed_at,
                None,
                self.elapsed,
                Some(error),
            ),
        }
    }

    /// The report on the job at the present time.
    pub fn update(self) -> (update: JobUpdate)
        ensures
            update.file_sha == self.file_sha,
            update.time_to_process == self.elapsed,
            crate::time::clock_can_show(update.processed_at),
            update.is_transcoded == self.result is Ok,
            match self.result {
                Ok((path, size)) => {
                    &&& update.output_file_path == Some(path)
                    &&& update.output_file_size == Some(size)
                    &&& update.error_faced is None
                },
                Err(error) => {
                    &&& update.output_file_path is None
                    &&& update.output_file_size is None
                    &&& update.error_faced == Some(error)
                },
            },
    {
        let now = Timestamp::now();
        self.update_at(now)
    }
}

/// How a transcoding task ended.
#[derive(Debug)]
pub enum TaskEnd {
    Returned(Result<TranscoderMetadata, TranscodeError>),
    /// The task did not return, for a reason that was reported.
    Aborted(String),
}

/// Where a worker stands: what it waits for.
#[derive(Debug)]
pub enum Worker {
    /// To be bound to its core.
    Pinning,
    /// To learn whether the stream of jobs has ended, before it takes one.
    Checking,
    /// To get a job.
    Getting,
    /// To learn whether the stream of jobs has ended, after it got none.
    Rechecking,
    /// To try again.
    Waiting,
    /// The temporary file.
    Opening { file_sha: String, input_path: String },
    /// A second handle of the temporary file.
    Cloning { file_sha: String, input_path: String },
    /// The end of the transcoding.
    Transcoding { file_sha: String },
    /// The temporary file to reach its bucket.
    Storing { file_sha: String, size: usize, elapsed: Elapsed },
    /// The report to be published.
    Reporting,
    Stopped,
}

/// The reply to what a worker asked for.
#[derive(Debug)]
pub enum WorkerEvent {
    /// Whether the worker is bound to its core.
    Pinned(bool),
    /// Whether the stream of jobs has ended.
    Completed(bool),
    Got(Result<Job, QueueError>),
    /// The wait is over.
    Waited,
    /// Whether the temporary file is open, and the time since the job was asked for.
    Opened(Result<(), TempError>, Elapsed),
    /// Whether the file could be shared, and the time since the job was asked for.
    Cloned(Result<(), String>, Elapsed),
    /// How the transcoding ended, and the time since the job was asked for.
    Transcoded(TaskEnd, Elapsed),
    /// Where the output is.
    Stored(Result<String, TempError>),
    /// The report was published, or that failed.
    Reported,
}

/// The next thing to do for a worker.
#[derive(Debug)]
pub enum WorkerAction {
    Pin,
    CheckQueue,
    GetJob,
    Wait { millis: u64 },
    /// Open a temporary file for the output of the file with this hash.
    OpenTemp(String),
    CloneTemp,
    /// Transcode the file at this path.
    Transcode(String),
    Store,
    Report(JobOutcome),
    Stop,
}

/// What a [`WorkerAction`] is.
pub enum WorkerActionView {
    Pin,
    CheckQueue,
    GetJob,
    Wait { millis: u64 },
    OpenTemp(Seq<char>),
    CloneTemp,
    Transcode(Seq<char>),
    Store,
    Report(OutcomeView),
    Stop,
}

impl View for WorkerAction {
    type V = WorkerActionView;

    open spec fn view(&self) -> WorkerActionView {
        match *self {
            WorkerAction::Pin => WorkerActionView::Pin,
            WorkerAction::CheckQueue => WorkerActionView::CheckQueue,
            WorkerAction::GetJob => WorkerActionView::GetJob,
            WorkerAction::Wait { millis } => WorkerActionView::Wait { millis },
            WorkerAction::OpenTemp(file_sha) => WorkerActionView::OpenTemp(file_sha@),
            WorkerAction::CloneTemp => WorkerActionView::CloneTemp,
            WorkerAction::Transcode(path) => WorkerActionView::Transcode(path@),
            WorkerAction::Store => WorkerActionView::Store,
            WorkerAction::Report(outcome) => WorkerActionView::Report(outcome@),
            WorkerAction::Stop => WorkerActionView::Stop,
        }
    }
}

/// Whether a reply answers what a worker asked for.
pub open spec fn worker_answers(worker: Worker, event: WorkerEvent) -> bool {
    match event {
        WorkerEvent::Pinned(_) => worker is Pinning,
        WorkerEvent::Completed(_) => worker is Checking || worker is Rechecking,
        WorkerEvent::Got(_) => worker is Getting,
        WorkerEvent::Waited => worker is Waiting,
        WorkerEvent::Opened(_, _) => worker is Opening,
        WorkerEvent::Cloned(_, _) => worker is Cloning,
        WorkerEvent::Transcoded(_, _) => worker is Transcoding,
        WorkerEvent::Stored(_) => worker is Storing,
        WorkerEvent::Reported => worker is Reporting,
    }
}

/// The hash of the file that a worker is busy with.
pub open spec fn current_sha(worker: Worker) -> Seq<char> {
    match worker {
        Worker::Opening { file_sha, .. } => file_sha@,
        Worker::Cloning { file_sha, .. } => file_sha@,
        Worker::Transcoding { file_sha } => file_sha@,
        Worker::Storing { file_sha, .. } => file_sha@,
        _ => seq![],
    }
}

/// A worker that reports on its job.
pub open spec fn report(
    worker: Worker,
    elapsed: Elapsed,
    result: Result<(Seq<char>, usize), Seq<char>>,
) -> (Worker, WorkerActionView) {
    (
        Worker::Reporting,
        WorkerActionView::Report(OutcomeView { file_sha: current_sha(worker), elapsed, result }),
    )
}

/// The worker and the next thing to do after a reply.
pub open spec fn worker_next(worker: Worker, event: WorkerEvent) -> (Worker, WorkerActionView) {
    match event {
        WorkerEvent::Pinned(pinned) => if pinned {
            (Worker::Checking, WorkerActionView::CheckQueue)
        } else {
            (Worker::Stopped, WorkerActionView::Stop)
        },
        WorkerEvent::Completed(completed) => if completed {
            (Worker::Stopped, WorkerActionView::Stop)
        } else if worker is Checking {
            (Worker::Getting, WorkerActionView::GetJob)
        } else {
            (Worker::Waiting, WorkerActionView::Wait { millis: RETRY_MILLIS })
        },
        WorkerEvent::Got(result) => match result {
            Ok(job) => (
                Worker::Opening { file_sha: job.file_sha_hash, input_path: job.input_file_path },
                WorkerActionView::OpenTemp(job.file_sha_hash@),
            ),
            Err(_) => (Worker::Rechecking, WorkerActionView::CheckQueue),
        },
        WorkerEvent::Waited => (Worker::Checking, WorkerActionView::CheckQueue),
        WorkerEvent::Opened(result, elapsed) => match (worker, result) {
            (Worker::Opening { file_sha, input_path }, Ok(_)) => (
                Worker::Cloning { file_sha, input_path },
                WorkerActionView::CloneTemp,
            ),
            (_, Err(error)) => report(
                worker,
                elapsed,
                Err(crate::text::with_cause("tempfile"@, error.text())),
            ),
            _ => arbitrary(),
        },
        WorkerEvent::Cloned(result, elapsed) => match (worker, result) {
            (Worker::Cloning { file_sha, input_path }, Ok(_)) => (
                Worker::Transcoding { file_sha },
                WorkerActionView::Transcode(input_path@),
            ),
            (_, Err(cause)) => report(
                worker,
                elapsed,
                Err(crate::text::with_cause("tempfile clone"@, cause@)),
            ),
            _ => arbitrary(),
        },
        WorkerEvent::Transcoded(end, elapsed) => match (worker, end) {
            (Worker::Transcoding { file_sha }, TaskEnd::Returned(Ok(metadata))) => (
                Worker::Storing { file_sha, size: metadata.resampled_file_size, elapsed },
                WorkerActionView::Store,
            ),
            (_, TaskEnd::Returned(Err(error))) => report(worker, elapsed, Err(error.text())),
            (_, TaskEnd::Aborted(cause)) => report(
                worker,
                elapsed,
                Err(crate::text::with_cause("spawn_blocking"@, cause@)),
            ),
            _ => arbitrary(),
        },
        WorkerEvent::Stored(result) => match worker {
            Worker::Storing { size, elapsed, .. } => report(
                worker,
                elapsed,
                match result {
                    Ok(path) => Ok((path@, size)),
                    Err(error) => Err(error.text()),
                },
            ),
            _ => arbitrary(),
        },
        WorkerEvent::Reported => (Worker::Checking, WorkerActionView::CheckQueue),
    }
}

fn failure(file_sha: String, elapsed: Elapsed, error: String) -> (next: (Worker, WorkerAction))
    ensures
        next.0 == Worker::Reporting,
        next.1@ == WorkerActionView::Report(
            OutcomeView { file_sha: file_sha@, elapsed, result: Err(error@) },
        ),
{
    (
        Worker::Reporting,
        WorkerAction::Report(JobOutcome { file_sha, elapsed, result: Err(error) }),
    )
}

impl Worker {
    /// A worker that is yet to be bound to its core.
    pub fn start() -> (start: (Worker, WorkerAction))
        ensures
            start.0 == Worker::Pinning,
            start.1 == WorkerAction::Pin,
    {
        (Worker::Pinning, WorkerAction::Pin)
    }

    /// Whether a reply answers what the worker asked for.
    pub fn accepts(&self, event: &WorkerEvent) -> (accepted: bool)
        ensures
            accepted == worker_answers(*self, *event),
    {
        match event {
            WorkerEvent::Pinned(_) => matches!(*self, Worker::Pinning),
            WorkerEvent::Completed(_) => matches!(*self, Worker::Checking) || matches!(
                *self,
                Worker::Rechecking
            ),
            WorkerEvent::Got(_) => matches!(*self, Worker::Getting),
            WorkerEvent::Waited => matches!(*self, Worker::Waiting),
            WorkerEvent::Opened(_, _) => matches!(*self, Worker::Opening { .. }),
            WorkerEvent::Cloned(_, _) => matches!(*self, Worker::Cloning { .. }),
            WorkerEvent::Transcoded(_, _) => matches!(*self, Worker::Transcoding { .. }),
            WorkerEvent::Stored(_) => matches!(*self, Worker::Storing { .. }),
            WorkerEvent::Reported => matches!(*self, Worker::Reporting),
        }
    }

    /// Takes the reply to what was asked for and gives the next thing to do.
    pub fn step(self, event: WorkerEvent) -> (next: (Worker, WorkerAction))
        requires
            worker_answers(self, event),
        ensures
            (next.0, next.1@) == worker_next(self, event),
    {
        match (self, event) {
            (_, WorkerEvent::Pinned(pinned)) => if pinned {
                (Worker::Checking, WorkerAction::CheckQueue)
            } else {
                (Worker::Stopped, WorkerAction::Stop)
            },
            (worker, WorkerEvent::Completed(completed)) => if completed {
                (Worker::Stopped, WorkerAction::Stop)
            } else if matches!(worker, Worker::Checking) {
                (Worker::Getting, WorkerAction::GetJob)
            } else {
                (Worker::Waiting, WorkerAction::Wait { millis: RETRY_MILLIS })
            },
            (_, WorkerEvent::Got(result)) => match result {
                Ok(job) => (
                    Worker::Opening {
                        file_sha: job.get_file_sha(),
                        input_path: job.get_target_file_path(),
                    },
                    WorkerAction::OpenTemp(job.get_file_sha()),
                ),
                Err(_) => (Worker::Rechecking, WorkerAction::CheckQueue),
            },
            (Worker::Opening { file_sha, input_path }, WorkerEvent::Opened(result, elapsed)) => {
                match result {
                    Ok(_) => (Worker::Cloning { file_sha, input_path }, WorkerAction::CloneTemp),
                    Err(error) => failure(
                        file_sha,
                        elapsed,
                        caused_by("tempfile", error.message().as_str()),
                    ),
                }
            },
            (Worker::Cloning { file_sha, input_path }, WorkerEvent::Cloned(result, elapsed)) => {
                match result {
                    Ok(_) => (
                        Worker::Transcoding { file_sha },
                        WorkerAction::Transcode(input_path),
                    ),
                    Err(cause) => failure(
                        file_sha,
                        elapsed,
                        caused_by("tempfile clone", cause.as_str()),
                    ),
                }
            },
            (Worker::Transcoding { file_sha }, WorkerEvent::Transcoded(end, elapsed)) => match end {
                TaskEnd::Returned(Ok(metadata)) => (
                    Worker::Storing { file_sha, size: metadata.resampled_file_size, elapsed },
                    WorkerAction::Store,
                ),
                TaskEnd::Returned(Err(error)) => failure(file_sha, elapsed, error.message()),
                TaskEnd::Aborted(cause) => failure(
                    file_sha,
                    elapsed,
                    caused_by("spawn_blocking", cause.as_str()),
                ),
            },
            (Worker::Storing { file_sha, size, elapsed }, WorkerEvent::Stored(result)) => {
                match result {
                    Ok(path) => (
                        Worker::Reporting,
                        WorkerAction::Report(
                            JobOutcome { file_sha, elapsed, result: Ok((path, size)) },
                        ),
                    ),
                    Err(error) => failure(file_sha, elapsed, error.message()),
                }
            },
            // After a wait or a report the worker looks at the queue again.
            _ => (Worker::Checking, WorkerAction::CheckQueue),
        }
    }
}

/// What is reported when there are more workers than cores.
pub open spec fn too_many_workers(worker_count: usize, cores: usize) -> Seq<char> {
    "WORKER_COUNT ("@ + crate::text::decimal(worker_count as nat)
        + ") exceeds available cores ("@ + crate::text::decimal(cores as nat) + ")"@
}

/// Checks that every worker can have a core of its own.
pub fn check_worker_count(worker_count: usize, cores: usize) -> (result: Result<(), String>)
    ensures
        result is Ok <==> worker_count <= cores,
        result matches Err(message) ==> message@ == too_many_workers(worker_count, cores),
{
    if worker_count <= cores {
        return Ok(());
    }
    let mut message = "WORKER_COUNT (".to_owned();
    message.append(decimal_text(worker_count as u64).as_str());
    message.append(") exceeds available cores (");
    message.append(decimal_text(cores as u64).as_str());
    message.append(")");
    Err(message)
}

/// Whether a worker is busy with a job that it has not reported on.
pub open spec fn busy(worker: Worker) -> bool {
    worker is Opening || worker is Cloning || worker is Transcoding || worker is Storing
}

/// The worker after a history of replies.
pub open spec fn worker_after(history: Seq<WorkerEvent>) -> Worker
    decreases history.len(),
{
    if history.len() == 0 {
        Worker::Pinning
    } else {
        worker_next(worker_after(history.drop_last()), history.last()).0
    }
}

/// What a history of replies leads to.
pub open spec fn worker_action_after(history: Seq<WorkerEvent>) -> WorkerActionView {
    if history.len() == 0 {
        WorkerActionView::Pin
    } else {
        worker_next(worker_after(history.drop_last()), history.last()).1
    }
}

/// Whether every reply of a history answers what was asked for before it.
pub open spec fn worker_possible(history: Seq<WorkerEvent>) -> bool
    decreases history.len(),
{
    history.len() == 0 || {
        &&& worker_possible(history.drop_last())
        &&& worker_answers(worker_after(history.drop_last()), history.last())
    }
}

/// How many jobs a history gives to the worker.
pub open spec fn jobs_taken(history: Seq<WorkerEvent>) -> nat
    decreases history.len(),
{
    if history.len() == 0 {
        0
    } else {
        jobs_taken(history.drop_last()) + match history.last() {
            WorkerEvent::Got(Ok(_)) => 1nat,
            _ => 0nat,
        }
    }
}

/// How many reports a history leads the worker to make.
pub open spec fn reports_made(history: Seq<WorkerEvent>) -> nat
    decreases history.len(),
{
    if history.len() == 0 {
        0
    } else {
        reports_made(history.drop_last()) + if worker_action_after(history) is Report {
            1nat
        } else {
            0nat
        }
    }
}

/// Every job is reported on exactly once, whatever happens to it; the one that the worker is
/// busy with is the only one without a report.
pub proof fn law_every_job_is_reported_once(history: Seq<WorkerEvent>)
    requires
        worker_possible(history),
    ensures
        jobs_taken(history) == reports_made(history) + if busy(worker_after(history)) {
            1nat
        } else {
            0nat
        },
    decreases history.len(),
{
    if history.len() > 0 {
        law_every_job_is_reported_once(history.drop_last());
    }
}

/// A report carries the hash of the job that the worker is busy with.
pub proof fn law_report_names_its_job(worker: Worker, event: WorkerEvent, outcome: OutcomeView)
    requires
        worker_answers(worker, event),
        worker_next(worker, event).1 == WorkerActionView::Report(outcome),
    ensures
        busy(worker),
        outcome.file_sha == current_sha(worker),
        worker_next(worker, event).0 == Worker::Reporting,
{
}

/// While a worker is busy with a job it keeps that job's hash.
pub proof fn law_job_is_kept(worker: Worker, event: WorkerEvent)
    requires
        worker_answers(worker, event),
        busy(worker),
        busy(worker_next(worker, event).0),
    ensures
        current_sha(worker_next(worker, event).0) == current_sha(worker),
{
}

/// A worker stops only where it could not be bound to its core or the stream of jobs has ended.
pub proof fn law_worker_stops_for_a_reason(worker: Worker, event: WorkerEvent)
    requires
        worker_answers(worker, event),
    ensures
        worker_next(worker, event).0 is Stopped <==> event == WorkerEvent::Pinned(false) || event
            == WorkerEvent::Completed(true),
{
}

/// A job counts as transcoded exactly where its output was stored, and the report then has the
/// path that it was stored at and the size that the transcoding reported.
pub proof fn law_success_means_stored(worker: Worker, event: WorkerEvent, outcome: OutcomeView)
    requires
        worker_answers(worker, event),
        worker_next(worker, event).1 == WorkerActionView::Report(outcome),
    ensures
        outcome.result is Ok <==> (event matches WorkerEvent::Stored(Ok(_))),
        outcome.result is Ok ==> match (worker, event) {
            (Worker::Storing { size, elapsed, .. }, WorkerEvent::Stored(Ok(path))) => {
                outcome.result == Ok::<(Seq<char>, usize), Seq<char>>((path@, size))
                    && outcome.elapsed == elapsed
            },
            _ => false,
        },
{
}

/// A job that nothing goes wrong with is opened, transcoded and stored: the temporary file is for
/// its hash, its own file is transcoded, and the report has its hash, the time that the
/// transcoding took, the path that the output was stored at and the size that the transcoding
/// gave. The worker then looks for the next job. Whatever the replies hold, they are accepted.
pub proof fn law_job_is_transcoded_stored_and_reported(
    job: Job,
    opened_after: Elapsed,
    cloned_after: Elapsed,
    metadata: TranscoderMetadata,
    elapsed: Elapsed,
    path: String,
)
    ensures
        ({
            let done = TaskEnd::Returned(Ok(metadata));
            let got = worker_next(Worker::Getting, WorkerEvent::Got(Ok(job)));
            let opened = worker_next(got.0, WorkerEvent::Opened(Ok(()), opened_after));
            let cloned = worker_next(opened.0, WorkerEvent::Cloned(Ok(()), cloned_after));
            let transcoded = worker_next(cloned.0, WorkerEvent::Transcoded(done, elapsed));
            let stored = worker_next(transcoded.0, WorkerEvent::Stored(Ok(path)));
            let reported = worker_next(stored.0, WorkerEvent::Reported);
            &&& got.1 == WorkerActionView::OpenTemp(job.file_sha_hash@)
            &&& opened.1 == WorkerActionView::CloneTemp
            &&& cloned.1 == WorkerActionView::Transcode(job.input_file_path@)
            &&& transcoded.1 == WorkerActionView::Store
            &&& stored.1 matches WorkerActionView::Report(outcome)
            &&& outcome.file_sha == job.file_sha_hash@
            &&& outcome.elapsed == elapsed
            &&& outcome.result matches Ok((at, size))
            &&& at == path@
            &&& size == metadata.resampled_file_size
            &&& reported == (Worker::Checking, WorkerActionView::CheckQueue)
            &&& worker_answers(Worker::Getting, WorkerEvent::Got(Ok(job)))
            &&& worker_answers(got.0, WorkerEvent::Opened(Ok(()), opened_after))
            &&& worker_answers(opened.0, WorkerEvent::Cloned(Ok(()), cloned_after))
            &&& worker_answers(cloned.0, WorkerEvent::Transcoded(done, elapsed))
            &&& worker_answers(transcoded.0, WorkerEvent::Stored(Ok(path)))
            &&& worker_answers(stored.0, WorkerEvent::Reported)
        }),
{
}

/// Whether a step reports a job as failed, with an error, after a time.
pub open spec fn reports_failure(
    step: (Worker, WorkerActionView),
    file_sha: Seq<char>,
    elapsed: Elapsed,
    error: Seq<char>,
) -> bool {
    &&& step.0 is Reporting
    &&& step.1 matches WorkerActionView::Report(outcome)
    &&& outcome.file_sha == file_sha
    &&& outcome.elapsed == elapsed
    &&& outcome.result == Err::<(Seq<char>, usize), Seq<char>>(error)
}

/// A job that something goes wrong with is reported at once with its hash, the time it took and
/// the whole text of what went wrong, and it is neither transcoded nor stored any further.
pub proof fn law_failed_job_is_reported_with_its_error(
    file_sha: String,
    input_path: String,
    size: usize,
    stored_after: Elapsed,
    elapsed: Elapsed,
    cause: String,
    temp: TempError,
    error: TranscodeError,
)
    ensures
        ({
            let opening = Worker::Opening { file_sha, input_path };
            let cloning = Worker::Cloning { file_sha, input_path };
            let transcoding = Worker::Transcoding { file_sha };
            let storing = Worker::Storing { file_sha, size, elapsed: stored_after };
            let unopened = WorkerEvent::Opened(Err(temp), elapsed);
            let uncloned = WorkerEvent::Cloned(Err(cause), elapsed);
            let failed = WorkerEvent::Transcoded(TaskEnd::Returned(Err(error)), elapsed);
            let aborted = WorkerEvent::Transcoded(TaskEnd::Aborted(cause), elapsed);
            let unstored = WorkerEvent::Stored(Err(temp));
            &&& reports_failure(
                worker_next(opening, unopened),
                file_sha@,
                elapsed,
                "tempfile"@ + ": "@ + temp.text(),
            )
            &&& reports_failure(
                worker_next(cloning, uncloned),
                file_sha@,
                elapsed,
                "tempfile clone"@ + ": "@ + cause@,
            )
            &&& reports_failure(
                worker_next(transcoding, failed),
                file_sha@,
                elapsed,
                error.text(),
            )
            &&& reports_failure(
                worker_next(transcoding, aborted),
                file_sha@,
                elapsed,
                "spawn_blocking"@ + ": "@ + cause@,
            )
            &&& reports_failure(
                worker_next(storing, unstored),
                file_sha@,
                stored_after,
                temp.text(),
            )
            &&& worker_answers(opening, unopened) && worker_answers(cloning, uncloned)
            &&& worker_answers(transcoding, failed) && worker_answers(transcoding, aborted)
            &&& worker_answers(storing, unstored)
        }),
{
}

/// A worker takes jobs until the stream of jobs has ended: it starts with its core, looks at the
/// stream before every job, and where it got none looks again and waits half a second before it
/// tries once more.
pub proof fn law_worker_goes_on_until_the_end(error: QueueError)
    ensures
        ({
            let pinned = worker_next(Worker::Pinning, WorkerEvent::Pinned(true));
            let unpinned = worker_next(Worker::Pinning, WorkerEvent::Pinned(false));
            let going = worker_next(pinned.0, WorkerEvent::Completed(false));
            let over = worker_next(pinned.0, WorkerEvent::Completed(true));
            let without = worker_next(going.0, WorkerEvent::Got(Err(error)));
            let waiting = worker_next(without.0, WorkerEvent::Completed(false));
            let ended = worker_next(without.0, WorkerEvent::Completed(true));
            let again = worker_next(waiting.0, WorkerEvent::Waited);
            &&& pinned == (Worker::Checking, WorkerActionView::CheckQueue)
            &&& unpinned == (Worker::Stopped, WorkerActionView::Stop)
            &&& going == (Worker::Getting, WorkerActionView::GetJob)
            &&& over == (Worker::Stopped, WorkerActionView::Stop)
            &&& without.1 == WorkerActionView::CheckQueue
            &&& waiting.1 == (WorkerActionView::Wait { millis: 500 })
            &&& ended == (Worker::Stopped, WorkerActionView::Stop)
            &&& again == pinned
            &&& worker_answers(Worker::Pinning, WorkerEvent::Pinned(true))
            &&& worker_answers(Worker::Pinning, WorkerEvent::Pinned(false))
            &&& worker_answers(pinned.0, WorkerEvent::Completed(false))
            &&& worker_answers(pinned.0, WorkerEvent::Completed(true))
            &&& worker_answers(going.0, WorkerEvent::Got(Err(error)))
            &&& worker_answers(without.0, WorkerEvent::Completed(false))
            &&& worker_answers(without.0, WorkerEvent::Completed(true))
            &&& worker_answers(waiting.0, WorkerEvent::Waited)
        }),
{
}

/// The job that a history gave to the worker last.
pub open spec fn last_job(history: Seq<WorkerEvent>) -> Option<Job>
    decreases history.len(),
{
    if history.len() == 0 {
        None
    } else {
        match history.last() {
            WorkerEvent::Got(Ok(job)) => Some(job),
            _ => last_job(history.drop_last()),
        }
    }
}

/// What a history says of the transcoding that returned last, and the time it took.
pub open spec fn last_transcoding(history: Seq<WorkerEvent>) -> Option<
    (TranscoderMetadata, Elapsed),
>
    decreases history.len(),
{
    if history.len() == 0 {
        None
    } else {
        match history.last() {
            WorkerEvent::Transcoded(TaskEnd::Returned(Ok(metadata)), elapsed) => Some(
                (metadata, elapsed),
            ),
            _ => last_transcoding(history.drop_last()),
        }
    }
}

/// Over any history: a report, a temporary file and a transcoding are for the job that came
/// last, and a successful report has the size and the time that came with the last transcoding
/// and the path that came with the storing.
pub proof fn law_reports_say_what_happened(history: Seq<WorkerEvent>)
    requires
        worker_possible(history),
    ensures
        worker_action_after(history) matches WorkerActionView::OpenTemp(sha) ==> {
            &&& last_job(history) matches Some(job)
            &&& sha == job.file_sha_hash@
        },
        worker_action_after(history) matches WorkerActionView::Transcode(path) ==> {
            &&& last_job(history) matches Some(job)
            &&& path == job.input_file_path@
        },
        worker_action_after(history) matches WorkerActionView::Report(outcome) ==> {
            &&& last_job(history) matches Some(job)
            &&& outcome.file_sha == job.file_sha_hash@
            &&& outcome.result matches Ok((path, size)) ==> {
                &&& last_transcoding(history) matches Some((metadata, elapsed))
                &&& size == metadata.resampled_file_size
                &&& outcome.elapsed == elapsed
                &&& history.last() matches WorkerEvent::Stored(Ok(stored))
                &&& path == stored@
            }
        },
{
    if history.len() > 0 {
        lemma_worker_remembers(history.drop_last());
    }
}

proof fn lemma_worker_remembers(history: Seq<WorkerEvent>)
    requires
        worker_possible(history),
    ensures
        busy(worker_after(history)) ==> {
            &&& last_job(history) matches Some(job)
            &&& current_sha(worker_after(history)) == job.file_sha_hash@
            &&& match worker_after(history) {
                Worker::Opening { input_path, .. } => input_path == job.input_file_path,
                Worker::Cloning { input_path, .. } => input_path == job.input_file_path,
                Worker::Storing { size, elapsed, .. } => {
                    &&& last_transcoding(history) matches Some((metadata, took))
                    &&& size == metadata.resampled_file_size
                    &&& elapsed == took
                },
                _ => true,
            }
        },
    decreases history.len(),
{
    if history.len() > 0 {
        lemma_worker_remembers(history.drop_last());
    }
}

/// The refusal of too many workers names both numbers: read back, they are the numbers given.
pub proof fn law_refusal_names_both_numbers(worker_count: usize, cores: usize)
    ensures
        ({
            let workers = crate::text::decimal(worker_count as nat);
            let available = crate::text::decimal(cores as nat);
            &&& too_many_workers(worker_count, cores) == "WORKER_COUNT ("@ + workers
                + ") exceeds available cores ("@ + available + ")"@
            &&& crate::text::decimal_value(workers) == worker_count
            &&& crate::text::decimal_value(available) == cores
        }),
{
    crate::text::law_decimal_reads_back(worker_count as nat);
    crate::text::law_decimal_reads_back(cores as nat);
}

/// The report on a job keeps its hash, its time and when it was made, and says that the job was
/// transcoded exactly where it has an output. It then has the path and the size of that and no
/// error; otherwise it has the error and neither.
pub proof fn law_update_tells_the_outcome(outcome: JobOutcome, processed_at: Timestamp)
    ensures
        ({
            let update = update_of(outcome, processed_at);
            &&& update.file_sha == outcome.file_sha
            &&& update.time_to_process == outcome.elapsed
            &&& update.processed_at == processed_at
            &&& update.is_transcoded <==> outcome.result is Ok
            &&& update.output_file_path is Some <==> outcome.result is Ok
            &&& update.output_file_size is Some <==> outcome.result is Ok
            &&& update.error_faced is Some <==> outcome.result is Err
            &&& outcome.result matches Ok((path, size)) ==> {
                &&& update.output_file_path == Some(path)
                &&& update.output_file_size == Some(size)
            }
            &&& outcome.result matches Err(error) ==> update.error_faced == Some(error)
        }),
{
}

} // verus!
