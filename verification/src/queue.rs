//! The queue that jobs are taken from, and its refilling.
//!
//! The messages live in a broker and the jobs in a database, both outside. Any number of workers
//! share one [`JobQueue`]; each call that waits for the outside is a [`JobCall`], which takes one
//! reply at a time and answers with the next thing to do. Between two replies of one call the
//! others may move the queue on.

use vstd::prelude::*;

use crate::text::caused_by;
use crate::time::Timestamp;

verus! {

/// The stream, and the subject on it, that jobs are published to.
pub const JOB_STREAM: &'static str = "transcoding_job_streams";

/// The consumer that all workers share.
pub const JOB_CONSUMER: &'static str = "transcoding_job_worker";

/// A queue filled to fewer percent of its capacity than this is refilled.
pub const REFILL_PERCENT: u64 = 30;

/// A file to transcode.
#[derive(Debug)]
pub struct Job {
    pub input_file_path: String,
    pub file_sha_hash: String,
    pub file_received_at: Option<Timestamp>,
}

impl Job {
    /// A job received at a time, or now where no time is given.
    pub fn new(
        input_file_path: String,
        file_sha_hash: String,
        file_received_at: Option<Timestamp>,
    ) -> (job: Self)
        ensures
            job.input_file_path == input_file_path,
            job.file_sha_hash == file_sha_hash,
            job.file_received_at matches Some(at) && match file_received_at {
                Some(given) => at == given,
                None => crate::time::clock_can_show(at),
            },
    {
        let now = match file_received_at {
            Some(given) => given,
            None => Timestamp::now(),
        };
        Job::received(input_file_path, file_sha_hash, file_received_at, now)
    }

    /// A job received at a time, or at the present time `now` where no time is given.
    pub fn received(
        input_file_path: String,
        file_sha_hash: String,
        file_received_at: Option<Timestamp>,
        now: Timestamp,
    ) -> (job: Self)
        ensures
            job == (Job {
                input_file_path,
                file_sha_hash,
                file_received_at: match file_received_at {
                    Some(at) => Some(at),
                    None => Some(now),
                },
            }),
    {
        let file_received_at = match file_received_at {
            Some(at) => Some(at),
            None => Some(now),
        };
        Job { input_file_path, file_sha_hash, file_received_at }
    }

    /// The file to read.
    pub fn get_target_file_path(&self) -> (path: String)
        ensures
            path == self.input_file_path,
    {
        self.input_file_path.clone()
    }

    /// The hash that names the file.
    pub fn get_file_sha(&self) -> (sha: String)
        ensures
            sha == self.file_sha_hash,
    {
        self.file_sha_hash.clone()
    }
}

/// The steps of setting up a queue.
#[derive(Clone, Copy, Debug, PartialEq, Eq, Structural)]
pub enum SetupStage {
    Stream,
    Info,
    Consumer,
    Messages,
}

/// Why a call failed. The texts are causes that were reported.
#[derive(Debug, PartialEq)]
pub enum QueueError {
    Setup(SetupStage, String),
    FetchedNothing,
    Fetch(String),
    Publish(String),
    Ack,
    Decode(String),
    Exhausted,
}

impl SetupStage {
    /// What a failure at this step is reported as.
    pub open spec fn text(self) -> Seq<char> {
        match self {
            SetupStage::Stream => "Error initializing nats transcoding stream context"@,
            SetupStage::Info => "Error getting nats transcoding stream context info struct"@,
            SetupStage::Consumer => "Error initializing nats transcoding consumer context"@,
            SetupStage::Messages =>
                "Error initializing nats transcoding message stream context"@,
        }
    }

    /// What a failure at this step is reported as.
    pub fn message(&self) -> (message: String)
        ensures
            message@ == self.text(),
    {
        match self {
            SetupStage::Stream => "Error initializing nats transcoding stream context".to_owned(),
            SetupStage::Info =>
                "Error getting nats transcoding stream context info struct".to_owned(),
            SetupStage::Consumer =>
                "Error initializing nats transcoding consumer context".to_owned(),
            SetupStage::Messages =>
                "Error initializing nats transcoding message stream context".to_owned(),
        }
    }
}

impl QueueError {
    /// What the error reports, with its cause.
    pub open spec fn text(self) -> Seq<char> {
        match self {
            QueueError::Setup(stage, cause) => crate::text::with_cause(stage.text(), cause@),
            QueueError::FetchedNothing => "Transcoding Job fetch returned empty!"@,
            QueueError::Fetch(cause) => crate::text::with_cause(
                "Error fetching transcoding jobs"@,
                cause@,
            ),
            QueueError::Publish(cause) => crate::text::with_cause(
                "Error publishing transcoding job to nats"@,
                cause@,
            ),
            QueueError::Ack => "Failed to ack job"@,
            QueueError::Decode(cause) => cause@,
            QueueError::Exhausted => "Job stream exhausted"@,
        }
    }

    /// What the error reports, with its cause.
    pub fn message(&self) -> (message: String)
        ensures
            message@ == self.text(),
    {
        match self {
            QueueError::Setup(stage, cause) => caused_by(
                stage.message().as_str(),
                cause.as_str(),
            ),
            QueueError::FetchedNothing => "Transcoding Job fetch returned empty!".to_owned(),
            QueueError::Fetch(cause) => caused_by(
                "Error fetching transcoding jobs",
                cause.as_str(),
            ),
            QueueError::Publish(cause) => caused_by(
                "Error publishing transcoding job to nats",
                cause.as_str(),
            ),
            QueueError::Ack => "Failed to ack job".to_owned(),
            QueueError::Decode(cause) => cause.clone(),
            QueueError::Exhausted => "Job stream exhausted".to_owned(),
        }
    }
}

/// How a stream and its consumer are set up.
#[derive(Debug)]
pub struct StreamPlan {
    pub name: String,
    pub subjects: Vec<String>,
    /// The most messages that the stream keeps, where it is bounded.
    pub max_messages: Option<i64>,
    pub consumer: String,
    /// The most messages that are pulled at a time.
    pub batch: usize,
}

/// A count as a signed 64-bit number: counts from 2^63 on turn negative.
pub open spec fn signed(count: usize) -> int {
    if count <= i64::MAX {
        count as int
    } else {
        count - 0x1_0000_0000_0000_0000
    }
}

/// A count as a signed 64-bit number.
pub fn to_signed(count: usize) -> (number: i64)
    ensures
        number == signed(count),
{
    let wide: u64 = count as u64;
    let number: i64 = wide as i64;
    proof {
        assert(wide <= 0x7fff_ffff_ffff_ffffu64 ==> number == wide) by (bit_vector)
            requires
                number == wide as i64,
        ;
        assert(wide > 0x7fff_ffff_ffff_ffffu64 ==> number == wide - 0x1_0000_0000_0000_0000) by (
            bit_vector)
            requires
                number == wide as i64,
        ;
    }
    number
}

/// The jobs that wait, and whether and how often they were asked for.
#[derive(Debug, PartialEq, Eq)]
pub struct JobQueue {
    /// How many jobs are believed to wait in the stream. It wraps around at zero.
    pub pending_queued_jobs: usize,
    pub queue_capacity: usize,
    /// Whether a refill is under way.
    pub requested_job_pull: bool,
    /// How many failed fetches are put up with.
    pub max_job_fetch_attempt_count: usize,
    pub failed_attempt: usize,
    /// Whether the stream of jobs has ended.
    pub queue_completed: bool,
}

/// The setting up of a stream of jobs: the step that is waited for.
#[derive(Clone, Copy, Debug, PartialEq, Eq, Structural)]
pub struct QueueSetup {
    pub queue_capacity: usize,
    pub max_job_fetch_attempt_count: usize,
    pub stage: SetupStage,
    /// How many messages the stream holds, once that is known.
    pub messages: u64,
}

/// What follows a step of the setup.
#[derive(Debug, PartialEq)]
pub enum QueueSetupStep {
    Next(QueueSetup),
    Finish(Result<JobQueue, QueueError>),
}

/// A queue over a stream that holds a number of messages.
pub open spec fn new_queue(
    queue_capacity: usize,
    max_job_fetch_attempt_count: usize,
    messages: u64,
) -> JobQueue {
    JobQueue {
        pending_queued_jobs: messages as usize,
        queue_capacity,
        requested_job_pull: false,
        max_job_fetch_attempt_count,
        failed_attempt: 0,
        queue_completed: false,
    }
}

/// What follows a reply to a step of the setup.
pub open spec fn setup_next(setup: QueueSetup, reply: Result<u64, String>) -> QueueSetupStep {
    match (reply, setup.stage) {
        (Err(cause), stage) => QueueSetupStep::Finish(
            Err(QueueError::Setup(stage, cause)),
        ),
        (Ok(_), SetupStage::Stream) => QueueSetupStep::Next(
            QueueSetup { stage: SetupStage::Info, ..setup },
        ),
        (Ok(count), SetupStage::Info) => QueueSetupStep::Next(
            QueueSetup { stage: SetupStage::Consumer, messages: count, ..setup },
        ),
        (Ok(_), SetupStage::Consumer) => QueueSetupStep::Next(
            QueueSetup { stage: SetupStage::Messages, ..setup },
        ),
        (Ok(_), SetupStage::Messages) => QueueSetupStep::Finish(
            Ok(
                new_queue(
                    setup.queue_capacity,
                    setup.max_job_fetch_attempt_count,
                    setup.messages,
                ),
            ),
        ),
    }
}

impl QueueSetup {
    /// Takes the reply to a step: for [`SetupStage::Info`], how many messages the stream holds.
    pub fn step(self, reply: Result<u64, String>) -> (next: QueueSetupStep)
        ensures
            next == setup_next(self, reply),
    {
        match (reply, self.stage) {
            (Err(cause), stage) => QueueSetupStep::Finish(Err(QueueError::Setup(stage, cause))),
            (Ok(_), SetupStage::Stream) => QueueSetupStep::Next(
                QueueSetup { stage: SetupStage::Info, ..self },
            ),
            (Ok(count), SetupStage::Info) => QueueSetupStep::Next(
                QueueSetup { stage: SetupStage::Consumer, messages: count, ..self },
            ),
            (Ok(_), SetupStage::Consumer) => QueueSetupStep::Next(
                QueueSetup { stage: SetupStage::Messages, ..self },
            ),
            (Ok(_), SetupStage::Messages) => QueueSetupStep::Finish(
                Ok(
                    JobQueue {
                        pending_queued_jobs: self.messages as usize,
                        queue_capacity: self.queue_capacity,
                        requested_job_pull: false,
                        max_job_fetch_attempt_count: self.max_job_fetch_attempt_count,
                        failed_attempt: 0,
                        queue_completed: false,
                    },
                ),
            ),
        }
    }
}

/// Where a call stands: what it waits for.
#[derive(Debug)]
pub enum JobPhase {
    Fetching,
    /// The jobs before `next` are published and that at `next` is being so.
    Publishing { jobs: Vec<Vec<u8>>, next: usize },
    Receiving,
    /// The message with this payload is being acknowledged.
    Acking { payload: Vec<u8> },
    Decoding,
    Finished,
}

/// What a call is for.
#[derive(Clone, Copy, Debug, PartialEq, Eq, Structural)]
pub enum CallPurpose {
    /// To publish jobs that are at hand.
    Add,
    /// To refill the queue.
    Pull,
    /// To take a job, after a refill where one is due.
    Get,
}

/// A call that waits for the outside.
#[derive(Debug)]
pub struct JobCall {
    pub purpose: CallPurpose,
    pub phase: JobPhase,
}

/// The reply to what a call asked for.
#[derive(Debug)]
pub enum JobEvent {
    /// The jobs from the database.
    Fetched(Result<Vec<Vec<u8>>, String>),
    Published(Result<(), String>),
    /// The payload of the message that came; none where the stream ended or failed.
    Received(Option<Vec<u8>>),
    /// Whether the message could be acknowledged.
    Acked(bool),
    /// The job in the message.
    Decoded(Result<Job, String>),
}

/// The next thing to do for a call.
#[derive(Debug)]
pub enum JobAction {
    /// Fetch at most this many jobs from the database.
    Fetch { limit: usize },
    /// Publish the job at this index of those to publish.
    Publish { index: usize },
    /// Wait for a message.
    Receive,
    /// Acknowledge the message.
    Ack,
    /// Read the job in this payload.
    Decode(Vec<u8>),
    /// Return: with a job, if one was wanted.
    Finish(Result<Option<Job>, QueueError>),
}

/// Whether a queue is filled to fewer than `REFILL_PERCENT` percent.
pub open spec fn nearly_empty(queue: JobQueue) -> bool {
    queue.pending_queued_jobs * 100 < queue.queue_capacity * REFILL_PERCENT
}

/// Whether the database may be asked for jobs once more.
pub open spec fn may_fetch(queue: JobQueue) -> bool {
    queue.failed_attempt < queue.max_job_fetch_attempt_count
}

/// Claims the refill and asks for as many jobs as there is room for.
pub open spec fn begin_fetch(queue: JobQueue, purpose: CallPurpose) -> (
    JobQueue,
    JobCall,
    JobAction,
) {
    (
        JobQueue { requested_job_pull: true, ..queue },
        JobCall { purpose, phase: JobPhase::Fetching },
        JobAction::Fetch { limit: (queue.queue_capacity - queue.pending_queued_jobs) as usize },
    )
}

/// The start of the publishing of jobs, the first of them first.
pub open spec fn begin_add(jobs: Vec<Vec<u8>>) -> (JobCall, JobAction) {
    if jobs@.len() == 0 {
        (
            JobCall { purpose: CallPurpose::Add, phase: JobPhase::Finished },
            JobAction::Finish(Ok(None)),
        )
    } else {
        (
            JobCall { purpose: CallPurpose::Add, phase: JobPhase::Publishing { jobs, next: 0 } },
            JobAction::Publish { index: 0 },
        )
    }
}

/// Whether a refill is due: the queue is nearly empty, nobody refills it and the database may be
/// asked for jobs.
pub open spec fn refill_due(queue: JobQueue) -> bool {
    nearly_empty(queue) && !queue.requested_job_pull && may_fetch(queue)
}

/// The start of a refill, where one is due. Where none is, nothing is done, which is no error.
pub open spec fn begin_pull(queue: JobQueue) -> (JobQueue, JobCall, JobAction) {
    if refill_due(queue) {
        begin_fetch(queue, CallPurpose::Pull)
    } else {
        (
            queue,
            JobCall { purpose: CallPurpose::Pull, phase: JobPhase::Finished },
            JobAction::Finish(Ok(None)),
        )
    }
}

/// The start of the taking of a job: with a refill where one is due.
pub open spec fn begin_get(queue: JobQueue) -> (JobQueue, JobCall, JobAction) {
    if refill_due(queue) {
        begin_fetch(queue, CallPurpose::Get)
    } else {
        (
            queue,
            JobCall { purpose: CallPurpose::Get, phase: JobPhase::Receiving },
            JobAction::Receive,
        )
    }
}

/// The end of a call.
pub open spec fn finish(
    queue: JobQueue,
    call: JobCall,
    result: Result<Option<Job>, QueueError>,
) -> (JobQueue, JobCall, JobAction) {
    (queue, JobCall { phase: JobPhase::Finished, ..call }, JobAction::Finish(result))
}

/// Whether a reply answers what a call asked for.
pub open spec fn job_answers(call: JobCall, event: JobEvent) -> bool {
    match event {
        JobEvent::Fetched(_) => call.phase is Fetching,
        JobEvent::Published(_) => call.phase matches JobPhase::Publishing { jobs, next } && next
            < jobs@.len(),
        JobEvent::Received(_) => call.phase is Receiving,
        JobEvent::Acked(_) => call.phase is Acking,
        JobEvent::Decoded(_) => call.phase is Decoding,
    }
}

/// The queue, the call and the next thing to do after a reply.
pub open spec fn job_next(queue: JobQueue, call: JobCall, event: JobEvent) -> (
    JobQueue,
    JobCall,
    JobAction,
) {
    match event {
        JobEvent::Fetched(result) => match result {
            Ok(jobs) => if jobs@.len() == 0 {
                finish(
                    JobQueue { requested_job_pull: false, ..queue },
                    call,
                    Err(QueueError::FetchedNothing),
                )
            } else {
                (
                    queue,
                    JobCall { phase: JobPhase::Publishing { jobs, next: 0 }, ..call },
                    JobAction::Publish { index: 0 },
                )
            },
            Err(cause) => finish(
                JobQueue {
                    requested_job_pull: false,
                    failed_attempt: queue.failed_attempt.wrapping_add(1),
                    ..queue
                },
                call,
                Err(QueueError::Fetch(cause)),
            ),
        },
        JobEvent::Published(result) => match (call.phase, result) {
            (JobPhase::Publishing { jobs, next }, Ok(_)) => if next + 1 < jobs@.len() {
                (
                    queue,
                    JobCall {
                        phase: JobPhase::Publishing { jobs, next: (next + 1) as usize },
                        ..call
                    },
                    JobAction::Publish { index: (next + 1) as usize },
                )
            } else {
                let refilled = JobQueue { requested_job_pull: false, ..queue };
                match call.purpose {
                    CallPurpose::Add => finish(queue, call, Ok(None)),
                    CallPurpose::Pull => finish(refilled, call, Ok(None)),
                    CallPurpose::Get => (
                        refilled,
                        JobCall { phase: JobPhase::Receiving, ..call },
                        JobAction::Receive,
                    ),
                }
            },
            (_, Err(cause)) => finish(queue, call, Err(QueueError::Publish(cause))),
            _ => arbitrary(),
        },
        JobEvent::Received(received) => match received {
            Some(payload) => (
                JobQueue {
                    pending_queued_jobs: queue.pending_queued_jobs.wrapping_sub(1),
                    ..queue
                },
                JobCall { phase: JobPhase::Acking { payload }, ..call },
                JobAction::Ack,
            ),
            None => finish(
                JobQueue { queue_completed: true, ..queue },
                call,
                Err(QueueError::Exhausted),
            ),
        },
        JobEvent::Acked(acked) => match (call.phase, acked) {
            (JobPhase::Acking { payload }, true) => (
                queue,
                JobCall { phase: JobPhase::Decoding, ..call },
                JobAction::Decode(payload),
            ),
            _ => finish(queue, call, Err(QueueError::Ack)),
        },
        JobEvent::Decoded(result) => match result {
            Ok(job) => finish(queue, call, Ok(Some(job))),
            Err(cause) => finish(queue, call, Err(QueueError::Decode(cause))),
        },
    }
}

impl JobQueue {
    /// How the stream of jobs is set up for a queue of a capacity.
    pub fn stream_plan(queue_capacity: usize) -> (plan: StreamPlan)
        ensures
            plan.name@ == JOB_STREAM@,
            plan.subjects@.len() == 1,
            plan.subjects@[0]@ == JOB_STREAM@,
            plan.max_messages matches Some(most) && most == signed(queue_capacity),
            plan.consumer@ == JOB_CONSUMER@,
            plan.batch == queue_capacity,
    {
        let mut subjects: Vec<String> = Vec::new();
        subjects.push(JOB_STREAM.to_owned());
        StreamPlan {
            name: JOB_STREAM.to_owned(),
            subjects,
            max_messages: Some(to_signed(queue_capacity)),
            consumer: JOB_CONSUMER.to_owned(),
            batch: queue_capacity,
        }
    }

    /// Starts to set up the stream of jobs.
    pub fn initalize(queue_capacity: usize, max_job_fetch_attempt_count: usize) -> (setup:
        QueueSetup)
        ensures
            setup == (QueueSetup {
                queue_capacity,
                max_job_fetch_attempt_count,
                stage: SetupStage::Stream,
                messages: 0,
            }),
    {
        QueueSetup {
            queue_capacity,
            max_job_fetch_attempt_count,
            stage: SetupStage::Stream,
            messages: 0,
        }
    }

    /// Whether a refill is due.
    fn is_refill_due(&self) -> (due: bool)
        ensures
            due == refill_due(*self),
    {
        let nearly_empty: bool = (self.pending_queued_jobs as u128) * 100 < (
        self.queue_capacity as u128) * (REFILL_PERCENT as u128);
        nearly_empty && !self.requested_job_pull && self.failed_attempt
            < self.max_job_fetch_attempt_count
    }

    /// Claims the refill and asks for as many jobs as there is room for.
    fn begin_fetch(&mut self, purpose: CallPurpose) -> (start: (JobCall, JobAction))
        requires
            nearly_empty(*old(self)),
        ensures
            (*final(self), start.0, start.1) == begin_fetch(*old(self), purpose),
    {
        self.requested_job_pull = true;
        let limit: usize = self.queue_capacity - self.pending_queued_jobs;
        (JobCall { purpose, phase: JobPhase::Fetching }, JobAction::Fetch { limit })
    }

    /// Starts to publish jobs to the stream. The queue stays as it is.
    pub fn add_jobs(&self, fetched_jobs: Vec<Vec<u8>>) -> (start: (JobCall, JobAction))
        ensures
            start == begin_add(fetched_jobs),
    {
        let purpose = CallPurpose::Add;
        if fetched_jobs.is_empty() {
            (JobCall { purpose, phase: JobPhase::Finished }, JobAction::Finish(Ok(None)))
        } else {
            (
                JobCall { purpose, phase: JobPhase::Publishing { jobs: fetched_jobs, next: 0 } },
                JobAction::Publish { index: 0 },
            )
        }
    }

    /// Starts a refill of the queue where one is due, and does nothing where none is.
    pub fn check_job_pull(&mut self) -> (start: (JobCall, JobAction))
        ensures
            (*final(self), start.0, start.1) == begin_pull(*old(self)),
    {
        if self.is_refill_due() {
            self.begin_fetch(CallPurpose::Pull)
        } else {
            (
                JobCall { purpose: CallPurpose::Pull, phase: JobPhase::Finished },
                JobAction::Finish(Ok(None)),
            )
        }
    }

    /// Starts the taking of a job, with a refill where one is due.
    pub fn get_job(&mut self) -> (start: (JobCall, JobAction))
        ensures
            (*final(self), start.0, start.1) == begin_get(*old(self)),
    {
        if self.is_refill_due() {
            self.begin_fetch(CallPurpose::Get)
        } else {
            (
                JobCall { purpose: CallPurpose::Get, phase: JobPhase::Receiving },
                JobAction::Receive,
            )
        }
    }
}

impl JobCall {
    /// Whether a reply answers what the call asked for.
    pub fn accepts(&self, event: &JobEvent) -> (accepted: bool)
        ensures
            accepted == job_answers(*self, *event),
    {
        match event {
            JobEvent::Fetched(_) => matches!(self.phase, JobPhase::Fetching),
            JobEvent::Published(_) => match &self.phase {
                JobPhase::Publishing { jobs, next } => *next < jobs.len(),
                _ => false,
            },
            JobEvent::Received(_) => matches!(self.phase, JobPhase::Receiving),
            JobEvent::Acked(_) => matches!(self.phase, JobPhase::Acking { .. }),
            JobEvent::Decoded(_) => matches!(self.phase, JobPhase::Decoding),
        }
    }

    /// The job that is being published.
    pub fn payload(&self) -> (payload: Option<&Vec<u8>>)
        ensures
            payload == match self.phase {
                JobPhase::Publishing { jobs, next } => if next < jobs@.len() {
                    Some(&jobs@[next as int])
                } else {
                    None
                },
                _ => None,
            },
    {
        match &self.phase {
            JobPhase::Publishing { jobs, next } => if *next < jobs.len() {
                Some(&jobs[*next])
            } else {
                None
            },
            _ => None,
        }
    }

    fn finish(self, result: Result<Option<Job>, QueueError>) -> (end: (JobCall, JobAction))
        ensures
            end.0 == (JobCall { phase: JobPhase::Finished, ..self }),
            end.1 == JobAction::Finish(result),
    {
        (
            JobCall { purpose: self.purpose, phase: JobPhase::Finished },
            JobAction::Finish(result),
        )
    }

    /// Takes the reply to what was asked for and gives the next thing to do.
    pub fn step(self, queue: &mut JobQueue, event: JobEvent) -> (next: (JobCall, JobAction))
        requires
            job_answers(self, event),
        ensures
            (*final(queue), next.0, next.1) == job_next(*old(queue), self, event),
    {
        let purpose = self.purpose;
        match event {
            JobEvent::Fetched(result) => match result {
                Ok(jobs) => if jobs.is_empty() {
                    queue.requested_job_pull = false;
                    self.finish(Err(QueueError::FetchedNothing))
                } else {
                    (
                        JobCall { purpose, phase: JobPhase::Publishing { jobs, next: 0 } },
                        JobAction::Publish { index: 0 },
                    )
                },
                Err(cause) => {
                    queue.requested_job_pull = false;
                    queue.failed_attempt = queue.failed_attempt.wrapping_add(1);
                    self.finish(Err(QueueError::Fetch(cause)))
                },
            },
            JobEvent::Published(result) => match result {
                Ok(_) => {
                    if let JobPhase::Publishing { jobs, next } = self.phase {
                        let count = jobs.len();
                        let index: usize = next + 1;
                        if index < count {
                            return (
                                JobCall {
                                    purpose,
                                    phase: JobPhase::Publishing { jobs, next: index },
                                },
                                JobAction::Publish { index },
                            );
                        }
                    }
                    if !matches!(purpose, CallPurpose::Add) {
                        queue.requested_job_pull = false;
                    }
                    if matches!(purpose, CallPurpose::Get) {
                        (JobCall { purpose, phase: JobPhase::Receiving }, JobAction::Receive)
                    } else {
                        (
                            JobCall { purpose, phase: JobPhase::Finished },
                            JobAction::Finish(Ok(None)),
                        )
                    }
                },
                Err(cause) => self.finish(Err(QueueError::Publish(cause))),
            },
            JobEvent::Received(received) => match received {
                Some(payload) => {
                    queue.pending_queued_jobs = queue.pending_queued_jobs.wrapping_sub(1);
                    (JobCall { purpose, phase: JobPhase::Acking { payload } }, JobAction::Ack)
                },
                None => {
                    queue.queue_completed = true;
                    self.finish(Err(QueueError::Exhausted))
                },
            },
            JobEvent::Acked(acked) => match (self.phase, acked) {
                (JobPhase::Acking { payload }, true) => (
                    JobCall { purpose, phase: JobPhase::Decoding },
                    JobAction::Decode(payload),
                ),
                _ => (
                    JobCall { purpose, phase: JobPhase::Finished },
                    JobAction::Finish(Err(QueueError::Ack)),
                ),
            },
            JobEvent::Decoded(result) => match result {
                Ok(job) => self.finish(Ok(Some(job))),
                Err(cause) => self.finish(Err(QueueError::Decode(cause))),
            },
        }
    }
}

/// A queue and the calls of the workers that share it, each under a number of its own.
pub struct SharedQueue {
    pub queue: JobQueue,
    pub calls: Map<nat, JobCall>,
}

/// Whether a call is refilling the queue.
pub open spec fn refilling(call: JobCall) -> bool {
    call.phase is Fetching || (call.phase is Publishing && call.purpose !is Add)
}

/// What holds of a shared queue whatever its workers do: at most one call refills it, it is then
/// claimed, the jobs of the refill are published one after the other, and the database has failed
/// at most as often as is put up with.
pub open spec fn orderly(shared: SharedQueue) -> bool {
    &&& shared.queue.failed_attempt <= shared.queue.max_job_fetch_attempt_count
    &&& forall|id: nat| #[trigger]
        shared.calls.contains_key(id) && refilling(shared.calls[id])
            ==> shared.queue.requested_job_pull
    &&& forall|id: nat| #[trigger]
        shared.calls.contains_key(id) && shared.calls[id].phase is Fetching ==> may_fetch(
            shared.queue,
        )
    &&& forall|id: nat| #[trigger]
        shared.calls.contains_key(id) ==> (shared.calls[id].phase matches JobPhase::Publishing {
            jobs,
            next,
        } ==> next < jobs@.len())
    &&& forall|id: nat, other: nat| #[trigger]
        shared.calls.contains_key(id) && #[trigger] shared.calls.contains_key(other) && refilling(
            shared.calls[id],
        ) && refilling(shared.calls[other]) ==> id == other
}

/// A shared queue after a new call was started.
pub open spec fn started(
    shared: SharedQueue,
    id: nat,
    start: (JobQueue, JobCall, JobAction),
) -> SharedQueue {
    SharedQueue { queue: start.0, calls: shared.calls.insert(id, start.1) }
}

/// A shared queue after one of its calls took a reply.
pub open spec fn moved(shared: SharedQueue, id: nat, event: JobEvent) -> SharedQueue {
    let next = job_next(shared.queue, shared.calls[id], event);
    SharedQueue { queue: next.0, calls: shared.calls.insert(id, next.1) }
}

/// A queue that was just set up is orderly.
pub proof fn law_new_queue_is_orderly(
    queue_capacity: usize,
    max_job_fetch_attempt_count: usize,
    messages: u64,
)
    ensures
        orderly(
            SharedQueue {
                queue: new_queue(queue_capacity, max_job_fetch_attempt_count, messages),
                calls: Map::empty(),
            },
        ),
{
}

/// Jobs that start to be published keep a shared queue orderly.
pub proof fn law_add_keeps_order(shared: SharedQueue, id: nat, jobs: Vec<Vec<u8>>)
    requires
        orderly(shared),
        !shared.calls.contains_key(id),
    ensures
        ({
            let start = begin_add(jobs);
            orderly(started(shared, id, (shared.queue, start.0, start.1)))
        }),
{
    let start = begin_add(jobs);
    let after = started(shared, id, (shared.queue, start.0, start.1));
    assert forall|k: nat| #[trigger] after.calls.contains_key(k) && k != id implies
        shared.calls.contains_key(k) && after.calls[k] == shared.calls[k] by {}
}

/// A refill that starts keeps a shared queue orderly.
pub proof fn law_pull_keeps_order(shared: SharedQueue, id: nat)
    requires
        orderly(shared),
        !shared.calls.contains_key(id),
    ensures
        orderly(started(shared, id, begin_pull(shared.queue))),
{
    lemma_start_keeps_order(shared, id, begin_pull(shared.queue));
}

/// The taking of a job that starts keeps a shared queue orderly.
pub proof fn law_get_keeps_order(shared: SharedQueue, id: nat)
    requires
        orderly(shared),
        !shared.calls.contains_key(id),
    ensures
        orderly(started(shared, id, begin_get(shared.queue))),
{
    lemma_start_keeps_order(shared, id, begin_get(shared.queue));
}

proof fn lemma_start_keeps_order(
    shared: SharedQueue,
    id: nat,
    start: (JobQueue, JobCall, JobAction),
)
    requires
        orderly(shared),
        !shared.calls.contains_key(id),
        start == begin_pull(shared.queue) || start == begin_get(shared.queue),
    ensures
        orderly(started(shared, id, start)),
{
    let after = started(shared, id, start);
    assert forall|k: nat| #[trigger] after.calls.contains_key(k) && k != id implies
        shared.calls.contains_key(k) && after.calls[k] == shared.calls[k] by {}
}

/// A reply to one of the calls keeps a shared queue orderly.
pub proof fn law_replies_keep_order(shared: SharedQueue, id: nat, event: JobEvent)
    requires
        orderly(shared),
        shared.calls.contains_key(id),
        job_answers(shared.calls[id], event),
    ensures
        orderly(moved(shared, id, event)),
{
    let after = moved(shared, id, event);
    assert forall|k: nat| #[trigger] after.calls.contains_key(k) && k != id implies
        shared.calls.contains_key(k) && after.calls[k] == shared.calls[k] by {}
}

/// A fetch asks for exactly the room that is left, which is more than the part of the capacity
/// at which refilling stops.
pub proof fn law_fetch_fills_the_room(queue: JobQueue, purpose: CallPurpose, limit: usize)
    requires
        nearly_empty(queue),
        begin_fetch(queue, purpose).2 == (JobAction::Fetch { limit }),
    ensures
        limit > 0,
        queue.pending_queued_jobs + limit == queue.queue_capacity,
        limit * 100 > queue.queue_capacity * (100 - REFILL_PERCENT),
{
}

/// While a queue is claimed for refilling no other refill starts, and neither does one once the
/// database has failed as often as is put up with.
pub proof fn law_no_fetch_when_claimed_or_given_up(queue: JobQueue)
    requires
        queue.requested_job_pull || !may_fetch(queue),
    ensures
        begin_pull(queue).2 == JobAction::Finish(Ok(None)),
        begin_pull(queue).0 == queue,
        begin_get(queue).2 == JobAction::Receive,
        begin_get(queue).0 == queue,
{
}

/// Where no refill is due, a call for one leaves the queue as it is, asks for nothing and is no
/// error.
pub proof fn law_undue_pull_does_nothing(queue: JobQueue)
    requires
        !nearly_empty(queue) || queue.requested_job_pull || !may_fetch(queue),
    ensures
        begin_pull(queue).0 == queue,
        begin_pull(queue).1.phase is Finished,
        begin_pull(queue).2 == JobAction::Finish(Ok(None)),
{
}

/// A refill that ends gives up its claim, unless it ends because publishing failed.
pub proof fn law_claim_after_a_refill(queue: JobQueue, call: JobCall, event: JobEvent)
    requires
        refilling(call),
        job_answers(call, event),
        job_next(queue, call, event).2 is Finish || job_next(queue, call, event).2 is Receive,
    ensures
        (event matches JobEvent::Published(Err(_))) ==> job_next(queue, call, event).0 == queue,
        !(event matches JobEvent::Published(Err(_))) ==> !job_next(
            queue,
            call,
            event,
        ).0.requested_job_pull,
{
}

/// Whether a queue is claimed although no call refills it.
pub open spec fn abandoned(shared: SharedQueue) -> bool {
    &&& shared.queue.requested_job_pull
    &&& forall|id: nat| #[trigger]
        shared.calls.contains_key(id) ==> !refilling(shared.calls[id])
}

/// A queue that is claimed although no call refills it, as after a failure to publish, is never
/// refilled again: neither a new call nor a reply changes that.
pub proof fn law_abandoned_queue_stays_so(
    shared: SharedQueue,
    id: nat,
    jobs: Vec<Vec<u8>>,
    event: JobEvent,
)
    requires
        abandoned(shared),
    ensures
        abandoned(
            started(shared, id, (shared.queue, begin_add(jobs).0, begin_add(jobs).1)),
        ),
        abandoned(started(shared, id, begin_pull(shared.queue))),
        abandoned(started(shared, id, begin_get(shared.queue))),
        shared.calls.contains_key(id) && job_answers(shared.calls[id], event) ==> abandoned(
            moved(shared, id, event),
        ),
{
    lemma_start_keeps_abandoned(
        shared,
        id,
        (shared.queue, begin_add(jobs).0, begin_add(jobs).1),
    );
    lemma_start_keeps_abandoned(shared, id, begin_pull(shared.queue));
    lemma_start_keeps_abandoned(shared, id, begin_get(shared.queue));
    if shared.calls.contains_key(id) && job_answers(shared.calls[id], event) {
        lemma_start_keeps_abandoned(
            shared,
            id,
            job_next(shared.queue, shared.calls[id], event),
        );
    }
}

proof fn lemma_start_keeps_abandoned(
    shared: SharedQueue,
    id: nat,
    start: (JobQueue, JobCall, JobAction),
)
    requires
        abandoned(shared),
        start.0.requested_job_pull,
        !refilling(start.1),
    ensures
        abandoned(started(shared, id, start)),
{
    let after = started(shared, id, start);
    assert forall|k: nat| #[trigger] after.calls.contains_key(k) implies !refilling(
        after.calls[k],
    ) by {
        if k != id {
            assert(shared.calls.contains_key(k));
        }
    }
}

/// The stream of jobs is taken for ended only when it ended, and that is never taken back.
pub proof fn law_completion_is_final(queue: JobQueue, call: JobCall, event: JobEvent)
    requires
        job_answers(call, event),
    ensures
        job_next(queue, call, event).0.queue_completed == (queue.queue_completed || event
            == JobEvent::Received(None)),
        begin_pull(queue).0.queue_completed == queue.queue_completed,
        begin_get(queue).0.queue_completed == queue.queue_completed,
{
}

/// The number of waiting jobs goes down by one for every message received, and is not touched by
/// anything else, a refill included.
pub proof fn law_pending_counts_messages(queue: JobQueue, call: JobCall, event: JobEvent)
    requires
        job_answers(call, event),
    ensures
        job_next(queue, call, event).0.pending_queued_jobs == if event matches JobEvent::Received(
            Some(_),
        ) {
            queue.pending_queued_jobs.wrapping_sub(1)
        } else {
            queue.pending_queued_jobs
        },
        begin_pull(queue).0.pending_queued_jobs == queue.pending_queued_jobs,
        begin_get(queue).0.pending_queued_jobs == queue.pending_queued_jobs,
{
}

/// A job is handed out only as it was read from the payload of a message that was received and
/// acknowledged: what is read after the acknowledgement is that payload.
pub proof fn law_received_payload_is_read(
    queue: JobQueue,
    call: JobCall,
    payload: Vec<u8>,
    job: Job,
)
    requires
        call.phase is Receiving,
    ensures
        ({
            let received = job_next(queue, call, JobEvent::Received(Some(payload)));
            let acked = job_next(received.0, received.1, JobEvent::Acked(true));
            let refused = job_next(received.0, received.1, JobEvent::Acked(false));
            &&& received.2 is Ack
            &&& acked.2 == JobAction::Decode(payload)
            &&& refused.2 == JobAction::Finish(Err(QueueError::Ack))
            &&& job_next(acked.0, acked.1, JobEvent::Decoded(Ok(job))).2 == JobAction::Finish(
                Ok(Some(job)),
            )
        }),
{
}

/// A job that was added is the job that is taken, as long as what reads jobs undoes what writes
/// them: where the written job is added and published, and its message is the next to come, no
/// refill is due and the acknowledgement succeeds, the call that takes a job returns that job.
pub proof fn law_added_job_is_taken(
    queue: JobQueue,
    job: Job,
    write: spec_fn(Job) -> Vec<u8>,
    read: spec_fn(Vec<u8>) -> Result<Job, String>,
    jobs: Vec<Vec<u8>>,
)
    requires
        read(write(job)) == Ok::<Job, String>(job),
        jobs@ == seq![write(job)],
        !refill_due(queue),
    ensures
        ({
            let adding = begin_add(jobs);
            let added = job_next(queue, adding.0, JobEvent::Published(Ok(())));
            let getting = begin_get(added.0);
            let received = job_next(getting.0, getting.1, JobEvent::Received(Some(jobs@[0])));
            let acked = job_next(received.0, received.1, JobEvent::Acked(true));
            &&& adding.1 == (JobAction::Publish { index: 0 })
            &&& added.2 == JobAction::Finish(Ok(None))
            &&& getting.2 == JobAction::Receive
            &&& received.2 == JobAction::Ack
            &&& acked.2 matches JobAction::Decode(payload)
            &&& job_next(acked.0, acked.1, JobEvent::Decoded(read(payload))).2
                == JobAction::Finish(Ok(Some(job)))
        }),
{
}

/// The queue, the call and the next thing to do after a number of jobs were published.
pub open spec fn published(queue: JobQueue, call: JobCall, count: nat) -> (
    JobQueue,
    JobCall,
    JobAction,
)
    decreases count,
{
    if count <= 1 {
        job_next(queue, call, JobEvent::Published(Ok(())))
    } else {
        let next = job_next(queue, call, JobEvent::Published(Ok(())));
        published(next.0, next.1, (count - 1) as nat)
    }
}

/// Jobs are published in their order, each once. With the last of them a refill is over; jobs
/// published outside a refill leave the queue as it is.
pub proof fn law_jobs_are_published_in_order(
    queue: JobQueue,
    purpose: CallPurpose,
    jobs: Vec<Vec<u8>>,
    next: usize,
    count: nat,
)
    requires
        1 <= count <= jobs@.len() - next,
        jobs@.len() <= usize::MAX,
    ensures
        ({
            let call = JobCall { purpose, phase: JobPhase::Publishing { jobs, next } };
            let end = published(queue, call, count);
            &&& next + count < jobs@.len() ==> {
                &&& end.0 == queue
                &&& end.2 == (JobAction::Publish { index: (next + count) as usize })
            }
            &&& next + count == jobs@.len() ==> {
                &&& end.0 == if purpose is Add {
                    queue
                } else {
                    JobQueue { requested_job_pull: false, ..queue }
                }
                &&& end.2 == if purpose is Get {
                    JobAction::Receive
                } else {
                    JobAction::Finish(Ok(None))
                }
            }
        }),
    decreases count,
{
    if count > 1 {
        law_jobs_are_published_in_order(
            queue,
            purpose,
            jobs,
            (next + 1) as usize,
            (count - 1) as nat,
        );
    }
}

/// A count and its signed form are the same number in 64 bits: they differ by a multiple of 2^64,
/// and the signed form lies within its bounds.
pub proof fn law_signed_count_keeps_its_bits(count: usize)
    ensures
        -0x8000_0000_0000_0000 <= signed(count) <= 0x7fff_ffff_ffff_ffff,
        (count - signed(count)) % 0x1_0000_0000_0000_0000 == 0,
{
}

/// A refill starts exactly where fewer than thirty percent of the capacity wait, no refill is
/// under way and the database has failed less often than is put up with, whoever asks. It then
/// asks for the room that is left and changes the queue in nothing but its claim. Where none
/// starts, the queue stays as it is; whoever wants a job goes on to receive one.
pub proof fn law_refill_starts_below_thirty_percent(queue: JobQueue)
    ensures
        ({
            let due = queue.pending_queued_jobs * 100 < queue.queue_capacity * 30
                && !queue.requested_job_pull && queue.failed_attempt
                < queue.max_job_fetch_attempt_count;
            let room = queue.queue_capacity - queue.pending_queued_jobs;
            let pull = begin_pull(queue);
            let get = begin_get(queue);
            &&& due ==> {
                &&& pull.0 == (JobQueue { requested_job_pull: true, ..queue })
                &&& pull.1 == (JobCall { purpose: CallPurpose::Pull, phase: JobPhase::Fetching })
                &&& pull.2 matches JobAction::Fetch { limit } && limit == room
                &&& get.0 == pull.0
                &&& get.1 == (JobCall { purpose: CallPurpose::Get, phase: JobPhase::Fetching })
                &&& get.2 == pull.2
            }
            &&& !due ==> {
                &&& pull.0 == queue
                &&& pull.1.phase is Finished
                &&& pull.2 == JobAction::Finish(Ok(None))
                &&& get.0 == queue
                &&& get.1 == (JobCall { purpose: CallPurpose::Get, phase: JobPhase::Receiving })
                &&& get.2 == JobAction::Receive
            }
        }),
{
}

/// The queue, the call and the next thing to do after a list of replies.
pub open spec fn after_replies(
    start: (JobQueue, JobCall, JobAction),
    replies: Seq<JobEvent>,
) -> (JobQueue, JobCall, JobAction)
    decreases replies.len(),
{
    if replies.len() == 0 {
        start
    } else {
        let before = after_replies(start, replies.drop_last());
        job_next(before.0, before.1, replies.last())
    }
}

/// Replies that so many jobs were published.
pub open spec fn publications(count: nat) -> Seq<JobEvent> {
    Seq::new(count, |i: int| JobEvent::Published(Ok(())))
}

/// Where a list of jobs stands after the first so many of them were published: the next one is
/// to be published, and with the last the call is over or goes on to receive a job.
pub open spec fn all_are_published(
    queue: JobQueue,
    purpose: CallPurpose,
    jobs: Vec<Vec<u8>>,
    count: nat,
    now: (JobQueue, JobCall, JobAction),
) -> bool {
    &&& count < jobs@.len() ==> {
        &&& now.0 == queue
        &&& now.1.purpose == purpose
        &&& now.1.phase matches JobPhase::Publishing { jobs: these, next }
        &&& these == jobs && next == count
        &&& now.2 matches JobAction::Publish { index }
        &&& index == count
        &&& job_answers(now.1, JobEvent::Published(Ok(())))
    }
    &&& count == jobs@.len() ==> {
        &&& purpose is Add ==> now.0 == queue
        &&& purpose !is Add ==> now.0 == (JobQueue { requested_job_pull: false, ..queue })
        &&& purpose is Get ==> now.1.phase is Receiving && now.2 == JobAction::Receive
        &&& purpose !is Get ==> now.1.phase is Finished && now.2 == JobAction::Finish(Ok(None))
    }
}

/// A refill publishes every job that was fetched, from the first to the last, each once: after
/// so many publications the job at that index is the next, whatever the refill is for. With the
/// last the claim is given up, and only then a worker that wants a job goes on to receive one.
pub proof fn law_refill_publishes_every_job(
    queue: JobQueue,
    purpose: CallPurpose,
    jobs: Vec<Vec<u8>>,
    count: nat,
)
    requires
        0 < jobs@.len() <= usize::MAX,
        count <= jobs@.len(),
    ensures
        ({
            let call = JobCall { purpose, phase: JobPhase::Fetching };
            let fetched = job_next(queue, call, JobEvent::Fetched(Ok(jobs)));
            &&& job_answers(call, JobEvent::Fetched(Ok(jobs)))
            &&& all_are_published(
                queue,
                purpose,
                jobs,
                count,
                after_replies(fetched, publications(count)),
            )
        }),
{
    let call = JobCall { purpose, phase: JobPhase::Fetching };
    let fetched = job_next(queue, call, JobEvent::Fetched(Ok(jobs)));
    lemma_all_are_published(queue, purpose, jobs, count, fetched);
}

/// Jobs that are added are published from the first to the last, each once, and leave the queue
/// as it is.
pub proof fn law_every_added_job_is_published(queue: JobQueue, jobs: Vec<Vec<u8>>, count: nat)
    requires
        jobs@.len() <= usize::MAX,
        count <= jobs@.len(),
    ensures
        ({
            let start = begin_add(jobs);
            all_are_published(
                queue,
                CallPurpose::Add,
                jobs,
                count,
                after_replies((queue, start.0, start.1), publications(count)),
            )
        }),
{
    let start = begin_add(jobs);
    lemma_all_are_published(queue, CallPurpose::Add, jobs, count, (queue, start.0, start.1));
}

proof fn lemma_all_are_published(
    queue: JobQueue,
    purpose: CallPurpose,
    jobs: Vec<Vec<u8>>,
    count: nat,
    start: (JobQueue, JobCall, JobAction),
)
    requires
        jobs@.len() <= usize::MAX,
        count <= jobs@.len(),
        all_are_published(queue, purpose, jobs, 0, start),
    ensures
        all_are_published(queue, purpose, jobs, count, after_replies(start, publications(count))),
    decreases count,
{
    if count > 0 {
        lemma_all_are_published(queue, purpose, jobs, (count - 1) as nat, start);
        assert(publications(count).drop_last() =~= publications((count - 1) as nat));
    }
}

/// A refill that goes wrong ends the call with the reason, whatever it is for, and no job is
/// published any more. Only a failed fetch counts as a failed attempt, once; only a failed
/// publication keeps the claim.
pub proof fn law_failed_refill_ends_the_call(
    queue: JobQueue,
    purpose: CallPurpose,
    jobs: Vec<Vec<u8>>,
    next: usize,
    cause: String,
    nothing: Vec<Vec<u8>>,
)
    requires
        queue.failed_attempt < queue.max_job_fetch_attempt_count,
        next < jobs@.len(),
        nothing@.len() == 0,
    ensures
        ({
            let fetching = JobCall { purpose, phase: JobPhase::Fetching };
            let publishing = JobCall { purpose, phase: JobPhase::Publishing { jobs, next } };
            let failed = job_next(queue, fetching, JobEvent::Fetched(Err(cause)));
            let empty = job_next(queue, fetching, JobEvent::Fetched(Ok(nothing)));
            let unpublished = job_next(queue, publishing, JobEvent::Published(Err(cause)));
            &&& failed.0.failed_attempt == queue.failed_attempt + 1
            &&& failed.0 == (JobQueue {
                requested_job_pull: false,
                failed_attempt: failed.0.failed_attempt,
                ..queue
            })
            &&& failed.1.phase is Finished
            &&& failed.2 == JobAction::Finish(Err(QueueError::Fetch(cause)))
            &&& empty.0 == (JobQueue { requested_job_pull: false, ..queue })
            &&& empty.1.phase is Finished
            &&& empty.2 == JobAction::Finish(Err(QueueError::FetchedNothing))
            &&& unpublished.0 == queue
            &&& unpublished.1.phase is Finished
            &&& unpublished.2 == JobAction::Finish(Err(QueueError::Publish(cause)))
            &&& job_answers(fetching, JobEvent::Fetched(Err(cause)))
            &&& job_answers(fetching, JobEvent::Fetched(Ok(nothing)))
            &&& job_answers(publishing, JobEvent::Published(Err(cause)))
        }),
{
}

/// A message that comes takes one off the waiting jobs, from none back to the largest count, and
/// is acknowledged before it is read; the call returns the job in it, or why it could not be had.
/// Where no message comes the queue is completed. Nothing else of the queue changes, and whatever
/// comes is accepted.
pub proof fn law_message_becomes_a_job(
    queue: JobQueue,
    purpose: CallPurpose,
    payload: Vec<u8>,
    job: Job,
    cause: String,
)
    ensures
        ({
            let call = JobCall { purpose, phase: JobPhase::Receiving };
            let received = job_next(queue, call, JobEvent::Received(Some(payload)));
            let ended = job_next(queue, call, JobEvent::Received(None));
            let acked = job_next(received.0, received.1, JobEvent::Acked(true));
            let unacked = job_next(received.0, received.1, JobEvent::Acked(false));
            let taken = job_next(acked.0, acked.1, JobEvent::Decoded(Ok(job)));
            let unread = job_next(acked.0, acked.1, JobEvent::Decoded(Err(cause)));
            &&& queue.pending_queued_jobs > 0 ==> received.0.pending_queued_jobs
                == queue.pending_queued_jobs - 1
            &&& queue.pending_queued_jobs == 0 ==> received.0.pending_queued_jobs == usize::MAX
            &&& received.0 == (JobQueue {
                pending_queued_jobs: received.0.pending_queued_jobs,
                ..queue
            })
            &&& received.2 == JobAction::Ack
            &&& acked.2 == JobAction::Decode(payload)
            &&& taken.2 == JobAction::Finish(Ok(Some(job)))
            &&& unread.2 == JobAction::Finish(Err(QueueError::Decode(cause)))
            &&& unacked.2 == JobAction::Finish(Err(QueueError::Ack))
            &&& taken.0 == received.0 && unread.0 == received.0 && unacked.0 == received.0
            &&& ended.0 == (JobQueue { queue_completed: true, ..queue })
            &&& ended.2 == JobAction::Finish(Err(QueueError::Exhausted))
            &&& job_answers(call, JobEvent::Received(Some(payload)))
            &&& job_answers(call, JobEvent::Received(None))
            &&& job_answers(received.1, JobEvent::Acked(true))
            &&& job_answers(received.1, JobEvent::Acked(false))
            &&& job_answers(acked.1, JobEvent::Decoded(Ok(job)))
            &&& job_answers(acked.1, JobEvent::Decoded(Err(cause)))
        }),
{
}

/// A new queue counts the messages that the stream holds as waiting jobs, and nothing has failed,
/// ended or been claimed.
pub proof fn law_new_queue_counts_the_stream(capacity: usize, attempts: usize, messages: u64)
    requires
        messages <= usize::MAX,
    ensures
        new_queue(capacity, attempts, messages).pending_queued_jobs == messages,
        new_queue(capacity, attempts, messages).queue_capacity == capacity,
        new_queue(capacity, attempts, messages).max_job_fetch_attempt_count == attempts,
        new_queue(capacity, attempts, messages).failed_attempt == 0,
        !new_queue(capacity, attempts, messages).requested_job_pull,
        !new_queue(capacity, attempts, messages).queue_completed,
{
}

/// A failure is reported with its whole cause behind what failed; what was wrong with a message
/// is reported as it is.
pub proof fn law_queue_errors_carry_their_cause(stage: SetupStage, cause: String)
    ensures
        QueueError::Fetch(cause).text() == "Error fetching transcoding jobs"@ + ": "@ + cause@,
        QueueError::Publish(cause).text() == "Error publishing transcoding job to nats"@ + ": "@
            + cause@,
        QueueError::Setup(stage, cause).text() == stage.text() + ": "@ + cause@,
        QueueError::Decode(cause).text() == cause@,
{
}

/// A setup goes through the stream, its message count, the consumer and the messages, in this
/// order. It ends with a queue that has the capacity and the attempts asked for and as many
/// waiting jobs as the stream was said to hold, or at once with the step that failed and why.
pub proof fn law_setup_ends_with_a_queue(
    capacity: usize,
    attempts: usize,
    any: u64,
    messages: u64,
    at: QueueSetup,
    cause: String,
)
    requires
        messages <= usize::MAX,
    ensures
        ({
            let start = QueueSetup {
                queue_capacity: capacity,
                max_job_fetch_attempt_count: attempts,
                stage: SetupStage::Stream,
                messages: 0,
            };
            &&& setup_next(start, Ok(any)) matches QueueSetupStep::Next(second)
            &&& second.stage == SetupStage::Info
            &&& setup_next(second, Ok(messages)) matches QueueSetupStep::Next(third)
            &&& third.stage == SetupStage::Consumer
            &&& setup_next(third, Ok(any)) matches QueueSetupStep::Next(fourth)
            &&& fourth.stage == SetupStage::Messages
            &&& setup_next(fourth, Ok(any)) matches QueueSetupStep::Finish(Ok(queue))
            &&& queue.pending_queued_jobs == messages
            &&& queue.queue_capacity == capacity
            &&& queue.max_job_fetch_attempt_count == attempts
            &&& queue.failed_attempt == 0
            &&& !queue.requested_job_pull && !queue.queue_completed
        }),
        setup_next(at, Err(cause)) == QueueSetupStep::Finish(
            Err(QueueError::Setup(at.stage, cause)),
        ),
{
}

} // verus!
