//! The transcoding of one media file into mono, 16 kHz, 32-bit float PCM.
//!
//! Demuxing, decoding and resampling are done by a media library that works on raw pointers.
//! What is done with each of its replies is decided here: a [`Transcode`] takes one reply at a
//! time and answers with the next call to make. It also says when each resource is to be
//! released, so that every path through a run gives back exactly what it acquired.

use vstd::prelude::*;

use crate::text::caused_by;

verus! {

/// The number of channels of the output.
pub const OUTPUT_CHANNELS: i32 = 1;

/// The sample rate of the output.
pub const OUTPUT_SAMPLE_RATE: i32 = 16000;

/// The format of the output's samples.
pub const OUTPUT_SAMPLE_FORMAT: SampleFormat = SampleFormat::Float32;

/// The speakers of the output.
pub const OUTPUT_LAYOUT: ChannelLayout = ChannelLayout::Mono;

/// The size of one output sample, a 32-bit float.
pub const BYTES_PER_SAMPLE: u64 = 4;

/// The length of the resampler's filter.
pub const FILTER_SIZE: i64 = 64;

/// The binary logarithm of the number of phases of the resampler's filter bank.
pub const PHASE_SHIFT: i64 = 10;

/// Whether the resampler interpolates between filter phases.
pub const LINEAR_INTERP: i64 = 0;

/// Whether the resampler adapts its phases to an exact rational ratio.
pub const EXACT_RATIONAL: i64 = 1;

/// The format of interleaved samples.
#[derive(Clone, Copy, Debug, PartialEq, Eq, Structural)]
pub enum SampleFormat {
    Unsigned8,
    Signed16,
    Signed32,
    Float32,
    Float64,
}

/// The speakers that the channels are for.
#[derive(Clone, Copy, Debug, PartialEq, Eq, Structural)]
pub enum ChannelLayout {
    /// One channel, for the front centre.
    Mono,
    /// Two channels, for the front left and right.
    Stereo,
}

/// What a finished run reports.
#[derive(Clone, Copy, Debug, PartialEq, Eq, Structural)]
pub struct TranscoderMetadata {
    pub input_sample_rate: usize,
    pub resampled_file_size: usize,
}

/// What stream selection reads of a stream.
#[derive(Debug)]
pub struct StreamInfo {
    pub is_audio: bool,
    /// The language tag, where the stream has one; the empty text where it is no valid text.
    pub language: Option<String>,
}

/// The two return codes of the decoder that are no failures.
#[derive(Clone, Copy, Debug, PartialEq, Eq, Structural)]
pub struct ReturnCodes {
    /// The decoder wants more input before it has output.
    pub again: i32,
    /// The decoder has no further output.
    pub end_of_stream: i32,
}

/// What a run acquires, in the order in which it does.
#[derive(Clone, Copy, Debug, PartialEq, Eq, Structural)]
pub enum Resource {
    Input,
    Decoder,
    Resampler,
    Packet,
    Frame,
    SampleBuffer,
}

/// Why a run failed. A variant with a text wraps the cause that was reported.
#[derive(Debug, PartialEq)]
pub enum TranscodeError {
    MissingInput,
    NulInPath(String),
    OpenInput,
    FindStreamInfo,
    NoAudioStream,
    NoDecoder,
    AllocDecoder,
    CopyParameters,
    OpenDecoder,
    BadChannelCount,
    CreateResampler,
    InitResampler,
    AllocPacket,
    AllocFrame,
    SendPacket,
    ReceiveFrame,
    CountSamples,
    AllocSamples,
    WriteOutput(String),
}

/// Where a run stands: which call it waits for.
#[derive(Clone, Copy, Debug, PartialEq, Eq, Structural)]
pub enum Phase {
    CheckingPath,
    ConvertingPath,
    OpeningInput,
    Probing,
    ListingStreams,
    FindingBestStream,
    FindingDecoder,
    AllocatingDecoder,
    CopyingParameters,
    OpeningDecoder,
    ReadingLayout,
    CreatingResampler,
    InitializingResampler,
    AllocatingPacket,
    AllocatingFrame,
    ReadingPacket,
    SendingPacket,
    ReceivingFrame,
    /// The next three tell the draining of the resampler apart from the conversion of a frame.
    CountingSamples { drain: bool },
    AllocatingSamples { samples: i32, drain: bool },
    Converting { drain: bool },
    Writing { bytes: u64, drain: bool },
    FreeingSamples { drain: bool },
    DroppingFrame,
    DroppingPacket,
    /// A release was asked for, and `held` resources are left to release.
    Closing { held: usize },
    Finished,
}

/// The reply to a call.
#[derive(Debug)]
pub enum Event {
    /// Whether the input file exists.
    Exists(bool),
    /// Whether the input path could be handed on, or why not.
    Converted(Result<(), String>),
    /// A return code, negative on failure.
    Code(i32),
    /// Whether a lookup or an allocation gave something.
    Present(bool),
    /// The streams of the input.
    Streams(Vec<StreamInfo>),
    /// The parameters of the selected stream.
    Layout { unspecified: bool, channels: i32, sample_rate: i32 },
    /// The return code of a read, and the stream that the packet belongs to.
    Packet { code: i32, stream_index: i32 },
    /// The return code of a receive, and the number of samples in the frame.
    Frame { code: i32, samples: i32 },
    /// The return code of an allocation of samples, and whether it gave a buffer.
    Buffer { code: i32, present: bool },
    /// Whether the output was written, or why not.
    Written(Result<(), String>),
    /// A call without a reply was made.
    Done,
}

/// The next call to make.
#[derive(Debug, PartialEq)]
pub enum Action {
    /// Look whether a file is at this path.
    CheckPath(String),
    /// Turn this path into the form that the media library takes.
    ConvertPath(String),
    /// Open the file at the converted path.
    OpenInput,
    Probe,
    ListStreams,
    FindBestStream,
    FindDecoder { stream: i32 },
    AllocDecoder,
    CopyParameters,
    OpenDecoder,
    ReadLayout,
    /// Set up the resampler from the input's layout, or from the default layout of a number of
    /// channels, to the output's.
    CreateResampler {
        default_channels: Option<i32>,
        layout: ChannelLayout,
        channels: i32,
        format: SampleFormat,
        sample_rate: i32,
    },
    InitResampler { filter_size: i64, phase_shift: i64, linear_interp: i64, exact_rational: i64 },
    AllocPacket,
    AllocFrame,
    ReadPacket,
    SendPacket,
    ReceiveFrame,
    /// Ask how many samples the resampler can give for `input` more samples.
    CountSamples { input: i32 },
    AllocSamples { channels: i32, samples: i32, format: SampleFormat },
    /// Convert the frame, or what is buffered where `drain` is set, into at most `samples`.
    Convert { samples: i32, drain: bool },
    /// Write the first `bytes` of the sample buffer.
    Write { bytes: u64 },
    UnrefFrame,
    UnrefPacket,
    Release(Resource),
    Finish(Result<TranscoderMetadata, TranscodeError>),
}

/// Where a run stands, and what it knows.
#[derive(Debug)]
pub struct Run {
    pub input_file_path: String,
    pub codes: ReturnCodes,
    pub phase: Phase,
    pub selected: i32,
    pub sample_rate: i32,
    pub total_bytes: u64,
    pub outcome: Option<Result<TranscoderMetadata, TranscodeError>>,
}

/// The resource that is acquired after `position` others.
pub open spec fn resource_at(position: int) -> Resource {
    if position == 0 {
        Resource::Input
    } else if position == 1 {
        Resource::Decoder
    } else if position == 2 {
        Resource::Resampler
    } else if position == 3 {
        Resource::Packet
    } else if position == 4 {
        Resource::Frame
    } else {
        Resource::SampleBuffer
    }
}

/// How many resources a run holds in a phase.
pub open spec fn held_in(phase: Phase) -> usize {
    match phase {
        Phase::CheckingPath | Phase::ConvertingPath | Phase::OpeningInput => 0,
        Phase::Probing | Phase::ListingStreams | Phase::FindingBestStream => 1,
        Phase::FindingDecoder | Phase::AllocatingDecoder => 1,
        Phase::CopyingParameters | Phase::OpeningDecoder | Phase::ReadingLayout => 2,
        Phase::CreatingResampler => 2,
        Phase::InitializingResampler | Phase::AllocatingPacket => 3,
        Phase::AllocatingFrame => 4,
        Phase::ReadingPacket | Phase::SendingPacket | Phase::ReceivingFrame => 5,
        Phase::CountingSamples { .. } | Phase::AllocatingSamples { .. } => 5,
        Phase::Converting { .. } | Phase::Writing { .. } => 6,
        Phase::FreeingSamples { .. } | Phase::DroppingFrame | Phase::DroppingPacket => 5,
        Phase::Closing { held } => held,
        Phase::Finished => 0,
    }
}

/// Whether a stream is tagged as English audio.
pub open spec fn english_audio(stream: StreamInfo) -> bool {
    stream.is_audio && match stream.language {
        Some(language) => language@ == "en"@ || language@ == "eng"@ || language@ == "english"@,
        None => false,
    }
}

/// The first stream that is tagged as English audio, if any is.
pub open spec fn english_choice(streams: Seq<StreamInfo>) -> Option<int>
    decreases streams.len(),
{
    if streams.len() == 0 {
        None
    } else {
        match english_choice(streams.drop_last()) {
            Some(i) => Some(i),
            None => if english_audio(streams.last()) {
                Some(streams.len() - 1)
            } else {
                None
            },
        }
    }
}

impl TranscodeError {
    /// What the error reports, with its cause.
    pub open spec fn text(self) -> Seq<char> {
        match self {
            TranscodeError::MissingInput => "Target file path doesn't exist!"@,
            TranscodeError::NulInPath(cause) => crate::text::with_cause(
                "Input path contains a NUL byte"@,
                cause@,
            ),
            TranscodeError::OpenInput => "Failed to initialize avformat & open input file!"@,
            TranscodeError::FindStreamInfo => "Failed to find stream info!"@,
            TranscodeError::NoAudioStream => "Unable to find suitable audio stream!"@,
            TranscodeError::NoDecoder => "Error finding the proper decoder codec!"@,
            TranscodeError::AllocDecoder => "Failed to allocate decoder context!"@,
            TranscodeError::CopyParameters =>
                "Failed to copy codec parameters for decoder context"@,
            TranscodeError::OpenDecoder => "Failed to initalize decoder context!"@,
            TranscodeError::BadChannelCount => "Invalid number of channels in the target file!"@,
            TranscodeError::CreateResampler => "Failed to create the SWR context!"@,
            TranscodeError::InitResampler => "Failed to initialize SWR context!"@,
            TranscodeError::AllocPacket => "Failed to allocate packet context!"@,
            TranscodeError::AllocFrame => "Failed to allocate frame context!"@,
            TranscodeError::SendPacket => "Error transferring packets to decoder context!"@,
            TranscodeError::ReceiveFrame => "Error fetching decoded frames from decoder!"@,
            TranscodeError::CountSamples => "Failed to output sample counts"@,
            TranscodeError::AllocSamples => "Failed to allocate output sample buffer"@,
            TranscodeError::WriteOutput(cause) => crate::text::with_cause(
                "Failed writing to temp file"@,
                cause@,
            ),
        }
    }

    /// What the error reports, with its cause.
    pub fn message(&self) -> (message: String)
        ensures
            message@ == self.text(),
    {
        match self {
            TranscodeError::MissingInput => "Target file path doesn't exist!".to_owned(),
            TranscodeError::NulInPath(cause) => caused_by(
                "Input path contains a NUL byte",
                cause.as_str(),
            ),
            TranscodeError::OpenInput =>
                "Failed to initialize avformat & open input file!".to_owned(),
            TranscodeError::FindStreamInfo => "Failed to find stream info!".to_owned(),
            TranscodeError::NoAudioStream => "Unable to find suitable audio stream!".to_owned(),
            TranscodeError::NoDecoder => "Error finding the proper decoder codec!".to_owned(),
            TranscodeError::AllocDecoder => "Failed to allocate decoder context!".to_owned(),
            TranscodeError::CopyParameters =>
                "Failed to copy codec parameters for decoder context".to_owned(),
            TranscodeError::OpenDecoder => "Failed to initalize decoder context!".to_owned(),
            TranscodeError::BadChannelCount =>
                "Invalid number of channels in the target file!".to_owned(),
            TranscodeError::CreateResampler => "Failed to create the SWR context!".to_owned(),
            TranscodeError::InitResampler => "Failed to initialize SWR context!".to_owned(),
            TranscodeError::AllocPacket => "Failed to allocate packet context!".to_owned(),
            TranscodeError::AllocFrame => "Failed to allocate frame context!".to_owned(),
            TranscodeError::SendPacket =>
                "Error transferring packets to decoder context!".to_owned(),
            TranscodeError::ReceiveFrame =>
                "Error fetching decoded frames from decoder!".to_owned(),
            TranscodeError::CountSamples => "Failed to output sample counts".to_owned(),
            TranscodeError::AllocSamples => "Failed to allocate output sample buffer".to_owned(),
            TranscodeError::WriteOutput(cause) => caused_by(
                "Failed writing to temp file",
                cause.as_str(),
            ),
        }
    }
}

/// The stream chosen by its tag is English audio, none before it is, and one is chosen where
/// any stream is English audio.
pub proof fn law_english_choice_is_first(streams: Seq<StreamInfo>)
    ensures
        match english_choice(streams) {
            Some(i) => {
                &&& 0 <= i < streams.len()
                &&& english_audio(streams[i])
                &&& forall|j: int| 0 <= j < i ==> !english_audio(#[trigger] streams[j])
            },
            None => forall|j: int|
                0 <= j < streams.len() ==> !english_audio(#[trigger] streams[j]),
        },
    decreases streams.len(),
{
    if streams.len() > 0 {
        let front = streams.drop_last();
        law_english_choice_is_first(front);
        assert forall|j: int| 0 <= j < front.len() implies front[j] == #[trigger] streams[j] by {}
        match english_choice(front) {
            Some(i) => {
                assert(front[i] == streams[i]);
            },
            None => {
                assert forall|j: int| 0 <= j < front.len() implies !english_audio(
                    #[trigger] streams[j],
                ) by {
                    assert(!english_audio(front[j]));
                }
            },
        }
    }
}

/// Finds the first stream that is tagged as English audio.
pub fn find_english(streams: &Vec<StreamInfo>) -> (choice: Option<usize>)
    ensures
        english_choice(streams@) == match choice {
            Some(i) => Some(i as int),
            None => None,
        },
        choice matches Some(i) ==> i < streams@.len(),
{
    let en = "en".to_owned();
    let eng = "eng".to_owned();
    let english = "english".to_owned();
    let mut i: usize = 0;
    while i < streams.len()
        invariant
            en@ == "en"@,
            eng@ == "eng"@,
            english@ == "english"@,
            i <= streams@.len(),
            english_choice(streams@.take(i as int)) is None,
        decreases streams@.len() - i,
    {
        let ghost seen = streams@.take(i + 1);
        proof {
            assert(seen.drop_last() =~= streams@.take(i as int));
            assert(seen.last() == streams@[i as int]);
        }
        if streams[i].is_audio {
            if let Some(language) = &streams[i].language {
                if *language == en || *language == eng || *language == english {
                    proof {
                        lemma_choice_stays(streams@, i as int + 1);
                    }
                    return Some(i);
                }
            }
        }
        i += 1;
    }
    proof {
        assert(streams@.take(i as int) =~= streams@);
    }
    None
}

/// A choice among the first streams is the choice among all of them.
proof fn lemma_choice_stays(streams: Seq<StreamInfo>, count: int)
    requires
        0 <= count <= streams.len(),
        english_choice(streams.take(count)) is Some,
    ensures
        english_choice(streams) == english_choice(streams.take(count)),
    decreases streams.len(),
{
    if count == streams.len() {
        assert(streams.take(count) =~= streams);
    } else {
        assert(streams.drop_last().take(count) =~= streams.take(count));
        lemma_choice_stays(streams.drop_last(), count);
    }
}

/// Whether a reply answers the call that a run waits for.
///
/// A file has fewer streams than a signed index can count, and the tally of written bytes is
/// kept in 64 bits.
pub open spec fn answers(run: Run, event: Event) -> bool {
    match event {
        Event::Exists(_) => run.phase == Phase::CheckingPath,
        Event::Converted(_) => run.phase == Phase::ConvertingPath,
        Event::Code(_) => match run.phase {
            Phase::OpeningInput | Phase::Probing | Phase::FindingBestStream => true,
            Phase::CopyingParameters | Phase::OpeningDecoder => true,
            Phase::CreatingResampler | Phase::InitializingResampler => true,
            Phase::SendingPacket => true,
            Phase::CountingSamples { .. } | Phase::Converting { .. } => true,
            _ => false,
        },
        Event::Present(_) => match run.phase {
            Phase::FindingDecoder | Phase::AllocatingDecoder => true,
            Phase::AllocatingPacket | Phase::AllocatingFrame => true,
            _ => false,
        },
        Event::Streams(streams) => run.phase == Phase::ListingStreams && streams@.len()
            <= i32::MAX,
        Event::Layout { .. } => run.phase == Phase::ReadingLayout,
        Event::Packet { .. } => run.phase == Phase::ReadingPacket,
        Event::Frame { .. } => run.phase == Phase::ReceivingFrame,
        Event::Buffer { .. } => run.phase is AllocatingSamples,
        Event::Written(result) => match run.phase {
            Phase::Writing { bytes, drain } => result is Ok && !drain ==> run.total_bytes + bytes
                <= u64::MAX,
            _ => false,
        },
        Event::Done => match run.phase {
            Phase::FreeingSamples { .. } | Phase::DroppingFrame | Phase::DroppingPacket => true,
            Phase::Closing { .. } => true,
            _ => false,
        },
    }
}

/// What a run that succeeds reports at this point.
pub open spec fn report(run: Run) -> TranscoderMetadata {
    TranscoderMetadata {
        input_sample_rate: run.sample_rate as usize,
        resampled_file_size: run.total_bytes as usize,
    }
}

/// A run that moves on to another phase.
pub open spec fn enter(run: Run, phase: Phase) -> Run {
    Run { phase, ..run }
}

/// A run that has nothing left to do but to release `held` resources, the latest first, and to
/// end with `outcome`.
pub open spec fn close(
    run: Run,
    held: usize,
    outcome: Result<TranscoderMetadata, TranscodeError>,
) -> (Run, Action) {
    if held == 0 {
        (Run { phase: Phase::Finished, outcome: None, ..run }, Action::Finish(outcome))
    } else {
        (
            Run {
                phase: Phase::Closing { held: (held - 1) as usize },
                outcome: Some(outcome),
                ..run
            },
            Action::Release(resource_at(held - 1)),
        )
    }
}

/// A run that fails where it stands.
pub open spec fn fail(run: Run, error: TranscodeError) -> (Run, Action) {
    close(run, held_in(run.phase), Err(error))
}

/// What follows a return code.
pub open spec fn after_code(run: Run, code: i32) -> (Run, Action) {
    match run.phase {
        Phase::OpeningInput => if code < 0 {
            fail(run, TranscodeError::OpenInput)
        } else {
            (enter(run, Phase::Probing), Action::Probe)
        },
        Phase::Probing => if code < 0 {
            fail(run, TranscodeError::FindStreamInfo)
        } else {
            (enter(run, Phase::ListingStreams), Action::ListStreams)
        },
        Phase::FindingBestStream => if code < 0 {
            fail(run, TranscodeError::NoAudioStream)
        } else {
            select(run, code)
        },
        Phase::CopyingParameters => if code < 0 {
            fail(run, TranscodeError::CopyParameters)
        } else {
            (enter(run, Phase::OpeningDecoder), Action::OpenDecoder)
        },
        Phase::OpeningDecoder => if code < 0 {
            fail(run, TranscodeError::OpenDecoder)
        } else {
            (enter(run, Phase::ReadingLayout), Action::ReadLayout)
        },
        Phase::CreatingResampler => if code < 0 {
            fail(run, TranscodeError::CreateResampler)
        } else {
            (
                enter(run, Phase::InitializingResampler),
                Action::InitResampler {
                    filter_size: FILTER_SIZE,
                    phase_shift: PHASE_SHIFT,
                    linear_interp: LINEAR_INTERP,
                    exact_rational: EXACT_RATIONAL,
                },
            )
        },
        Phase::InitializingResampler => if code < 0 {
            fail(run, TranscodeError::InitResampler)
        } else {
            (enter(run, Phase::AllocatingPacket), Action::AllocPacket)
        },
        Phase::SendingPacket => if code < 0 && code != run.codes.again {
            fail(run, TranscodeError::SendPacket)
        } else {
            (enter(run, Phase::ReceivingFrame), Action::ReceiveFrame)
        },
        Phase::CountingSamples { drain } => if drain && code <= 0 {
            close(run, held_in(run.phase), Ok(report(run)))
        } else if code < 0 {
            fail(run, TranscodeError::CountSamples)
        } else {
            (
                enter(run, Phase::AllocatingSamples { samples: code, drain }),
                Action::AllocSamples {
                    channels: OUTPUT_CHANNELS,
                    samples: code,
                    format: OUTPUT_SAMPLE_FORMAT,
                },
            )
        },
        Phase::Converting { drain } => if code > 0 {
            let bytes = (code * BYTES_PER_SAMPLE) as u64;
            (enter(run, Phase::Writing { bytes, drain }), Action::Write { bytes })
        } else if drain {
            close(run, held_in(run.phase), Ok(report(run)))
        } else {
            free_samples(run, drain)
        },
        _ => arbitrary(),
    }
}

/// A run that settles on a stream.
pub open spec fn select(run: Run, stream: i32) -> (Run, Action) {
    (
        Run { phase: Phase::FindingDecoder, selected: stream, ..run },
        Action::FindDecoder { stream },
    )
}

/// A run that is done with the sample buffer.
pub open spec fn free_samples(run: Run, drain: bool) -> (Run, Action) {
    (enter(run, Phase::FreeingSamples { drain }), Action::Release(Resource::SampleBuffer))
}

/// What follows a lookup or an allocation.
pub open spec fn after_presence(run: Run, present: bool) -> (Run, Action) {
    match run.phase {
        Phase::FindingDecoder => if !present {
            fail(run, TranscodeError::NoDecoder)
        } else {
            (enter(run, Phase::AllocatingDecoder), Action::AllocDecoder)
        },
        Phase::AllocatingDecoder => if !present {
            fail(run, TranscodeError::AllocDecoder)
        } else {
            (enter(run, Phase::CopyingParameters), Action::CopyParameters)
        },
        Phase::AllocatingPacket => if !present {
            fail(run, TranscodeError::AllocPacket)
        } else {
            (enter(run, Phase::AllocatingFrame), Action::AllocFrame)
        },
        Phase::AllocatingFrame => if !present {
            fail(run, TranscodeError::AllocFrame)
        } else {
            (enter(run, Phase::ReadingPacket), Action::ReadPacket)
        },
        _ => arbitrary(),
    }
}

/// What follows a call without a reply.
pub open spec fn after_done(run: Run) -> (Run, Action) {
    match run.phase {
        Phase::FreeingSamples { drain } => if drain {
            (
                enter(run, Phase::CountingSamples { drain: true }),
                Action::CountSamples { input: 0 },
            )
        } else {
            (enter(run, Phase::DroppingFrame), Action::UnrefFrame)
        },
        Phase::DroppingFrame => (enter(run, Phase::ReceivingFrame), Action::ReceiveFrame),
        Phase::DroppingPacket => (enter(run, Phase::ReadingPacket), Action::ReadPacket),
        Phase::Closing { held } => close(run, held, run.outcome->Some_0),
        _ => arbitrary(),
    }
}

/// The run and the call that follow a reply.
pub open spec fn next(run: Run, event: Event) -> (Run, Action) {
    match event {
        Event::Exists(exists) => if exists {
            (enter(run, Phase::ConvertingPath), Action::ConvertPath(run.input_file_path))
        } else {
            fail(run, TranscodeError::MissingInput)
        },
        Event::Converted(result) => match result {
            Ok(_) => (enter(run, Phase::OpeningInput), Action::OpenInput),
            Err(cause) => fail(run, TranscodeError::NulInPath(cause)),
        },
        Event::Code(code) => after_code(run, code),
        Event::Present(present) => after_presence(run, present),
        Event::Streams(streams) => match english_choice(streams@) {
            Some(i) => select(run, i as i32),
            None => (enter(run, Phase::FindingBestStream), Action::FindBestStream),
        },
        Event::Layout { unspecified, channels, sample_rate } => if unspecified && channels <= 0 {
            fail(run, TranscodeError::BadChannelCount)
        } else {
            (
                Run { phase: Phase::CreatingResampler, sample_rate, ..run },
                Action::CreateResampler {
                    default_channels: if unspecified {
                        Some(channels)
                    } else {
                        None
                    },
                    layout: OUTPUT_LAYOUT,
                    channels: OUTPUT_CHANNELS,
                    format: OUTPUT_SAMPLE_FORMAT,
                    sample_rate: OUTPUT_SAMPLE_RATE,
                },
            )
        },
        Event::Packet { code, stream_index } => if code < 0 {
            (
                enter(run, Phase::CountingSamples { drain: true }),
                Action::CountSamples { input: 0 },
            )
        } else if stream_index != run.selected {
            (enter(run, Phase::DroppingPacket), Action::UnrefPacket)
        } else {
            (enter(run, Phase::SendingPacket), Action::SendPacket)
        },
        Event::Frame { code, samples } => if code == run.codes.again || code
            == run.codes.end_of_stream {
            (enter(run, Phase::DroppingPacket), Action::UnrefPacket)
        } else if code < 0 {
            fail(run, TranscodeError::ReceiveFrame)
        } else {
            (
                enter(run, Phase::CountingSamples { drain: false }),
                Action::CountSamples { input: samples },
            )
        },
        Event::Buffer { code, present } => match run.phase {
            Phase::AllocatingSamples { samples, drain } => if code < 0 || !present {
                fail(run, TranscodeError::AllocSamples)
            } else {
                (enter(run, Phase::Converting { drain }), Action::Convert { samples, drain })
            },
            _ => arbitrary(),
        },
        Event::Written(result) => match (run.phase, result) {
            (Phase::Writing { bytes, drain }, Ok(_)) => free_samples(
                Run {
                    total_bytes: if drain {
                        run.total_bytes
                    } else {
                        (run.total_bytes + bytes) as u64
                    },
                    ..run
                },
                drain,
            ),
            (_, Err(cause)) => fail(run, TranscodeError::WriteOutput(cause)),
            _ => arbitrary(),
        },
        Event::Done => after_done(run),
    }
}

/// What holds of a run between two calls.
pub open spec fn consistent(run: Run) -> bool {
    &&& held_in(run.phase) <= 6
    &&& run.phase is Closing <==> run.outcome is Some
    &&& run.total_bytes % BYTES_PER_SAMPLE == 0
    &&& match run.phase {
        Phase::Writing { bytes, .. } => bytes % BYTES_PER_SAMPLE == 0 && 0 < bytes
            <= i32::MAX * BYTES_PER_SAMPLE,
        Phase::Closing { held } => held <= 5,
        _ => true,
    }
}

/// The run before any reply.
pub open spec fn initial(input_file_path: String, codes: ReturnCodes) -> Run {
    Run {
        input_file_path,
        codes,
        phase: Phase::CheckingPath,
        selected: (-1) as i32,
        sample_rate: 0,
        total_bytes: 0,
        outcome: None,
    }
}

/// A run in progress.
#[derive(Debug)]
pub struct Transcode {
    run: Run,
}

impl View for Transcode {
    type V = Run;

    closed spec fn view(&self) -> Run {
        self.run
    }
}

/// Starts the extraction and transcoding of the best, or first English-tagged, audio stream of
/// a file into mono, 16 kHz, f32 PCM.
pub fn transcoder(input_file_path: String, codes: ReturnCodes) -> (start: (Transcode, Action))
    ensures
        start.0@ == initial(input_file_path, codes),
        start.1 == Action::CheckPath(input_file_path),
{
    let path = input_file_path.clone();
    let run = Run {
        input_file_path,
        codes,
        phase: Phase::CheckingPath,
        selected: -1,
        sample_rate: 0,
        total_bytes: 0,
        outcome: None,
    };
    (Transcode { run }, Action::CheckPath(path))
}

impl Transcode {
    #[verifier::type_invariant]
    spec fn is_consistent(self) -> bool {
        consistent(self.run)
    }

    /// Where the run stands.
    pub fn state(&self) -> (run: &Run)
        ensures
            *run == self@,
            consistent(*run),
    {
        proof {
            use_type_invariant(self);
        }
        &self.run
    }

    /// Whether a reply answers the call that the run waits for.
    pub fn accepts(&self, event: &Event) -> (accepted: bool)
        ensures
            accepted == answers(self@, *event),
    {
        self.run.accepts(event)
    }

    /// Takes the reply to the last call and gives the next one.
    pub fn step(self, event: Event) -> (after: (Transcode, Action))
        requires
            answers(self@, event),
        ensures
            (after.0@, after.1) == next(self@, event),
    {
        proof {
            use_type_invariant(&self);
        }
        let mut run = self.run;
        let action = run.advance(event);
        (Transcode { run }, action)
    }
}

impl Run {
    /// Whether a reply answers the call that the run waits for.
    pub fn accepts(&self, event: &Event) -> (accepted: bool)
        ensures
            accepted == answers(*self, *event),
    {
        match event {
            Event::Exists(_) => matches!(self.phase, Phase::CheckingPath),
            Event::Converted(_) => matches!(self.phase, Phase::ConvertingPath),
            Event::Code(_) => match self.phase {
                Phase::OpeningInput | Phase::Probing | Phase::FindingBestStream => true,
                Phase::CopyingParameters | Phase::OpeningDecoder => true,
                Phase::CreatingResampler | Phase::InitializingResampler => true,
                Phase::SendingPacket => true,
                Phase::CountingSamples { .. } | Phase::Converting { .. } => true,
                _ => false,
            },
            Event::Present(_) => match self.phase {
                Phase::FindingDecoder | Phase::AllocatingDecoder => true,
                Phase::AllocatingPacket | Phase::AllocatingFrame => true,
                _ => false,
            },
            Event::Streams(streams) => matches!(self.phase, Phase::ListingStreams)
                && streams.len() <= i32::MAX as usize,
            Event::Layout { .. } => matches!(self.phase, Phase::ReadingLayout),
            Event::Packet { .. } => matches!(self.phase, Phase::ReadingPacket),
            Event::Frame { .. } => matches!(self.phase, Phase::ReceivingFrame),
            Event::Buffer { .. } => matches!(self.phase, Phase::AllocatingSamples { .. }),
            Event::Written(result) => match self.phase {
                Phase::Writing { bytes, drain } => drain || result.is_err() || bytes <= u64::MAX
                    - self.total_bytes,
                _ => false,
            },
            Event::Done => match self.phase {
                Phase::FreeingSamples { .. } | Phase::DroppingFrame | Phase::DroppingPacket => true,
                Phase::Closing { .. } => true,
                _ => false,
            },
        }
    }

    fn close(
        &mut self,
        held: usize,
        outcome: Result<TranscoderMetadata, TranscodeError>,
    ) -> (action: Action)
        requires
            held <= 6,
        ensures
            (*final(self), action) == close(*old(self), held, outcome),
    {
        if held == 0 {
            self.phase = Phase::Finished;
            self.outcome = None;
            return Action::Finish(outcome);
        }
        self.phase = Phase::Closing { held: held - 1 };
        self.outcome = Some(outcome);
        Action::Release(
            match held - 1 {
                0 => Resource::Input,
                1 => Resource::Decoder,
                2 => Resource::Resampler,
                3 => Resource::Packet,
                4 => Resource::Frame,
                _ => Resource::SampleBuffer,
            },
        )
    }

    fn held(&self) -> (held: usize)
        ensures
            held == held_in(self.phase),
    {
        match self.phase {
            Phase::CheckingPath | Phase::ConvertingPath | Phase::OpeningInput => 0,
            Phase::Probing | Phase::ListingStreams | Phase::FindingBestStream => 1,
            Phase::FindingDecoder | Phase::AllocatingDecoder => 1,
            Phase::CopyingParameters | Phase::OpeningDecoder | Phase::ReadingLayout => 2,
            Phase::CreatingResampler => 2,
            Phase::InitializingResampler | Phase::AllocatingPacket => 3,
            Phase::AllocatingFrame => 4,
            Phase::ReadingPacket | Phase::SendingPacket | Phase::ReceivingFrame => 5,
            Phase::CountingSamples { .. } | Phase::AllocatingSamples { .. } => 5,
            Phase::Converting { .. } | Phase::Writing { .. } => 6,
            Phase::FreeingSamples { .. } | Phase::DroppingFrame | Phase::DroppingPacket => 5,
            Phase::Closing { held } => held,
            Phase::Finished => 0,
        }
    }

    fn fail(&mut self, error: TranscodeError) -> (action: Action)
        requires
            consistent(*old(self)),
        ensures
            (*final(self), action) == fail(*old(self), error),
    {
        let held = self.held();
        self.close(held, Err(error))
    }

    fn succeed(&mut self) -> (action: Action)
        requires
            consistent(*old(self)),
        ensures
            (*final(self), action) == close(
                *old(self),
                held_in(old(self).phase),
                Ok(report(*old(self))),
            ),
    {
        let held = self.held();
        let metadata = TranscoderMetadata {
            input_sample_rate: self.sample_rate as usize,
            resampled_file_size: self.total_bytes as usize,
        };
        self.close(held, Ok(metadata))
    }

    fn enter(&mut self, phase: Phase, action: Action) -> (out: Action)
        ensures
            (*final(self), out) == (enter(*old(self), phase), action),
    {
        self.phase = phase;
        action
    }

    fn select(&mut self, stream: i32) -> (action: Action)
        ensures
            (*final(self), action) == select(*old(self), stream),
    {
        self.selected = stream;
        self.phase = Phase::FindingDecoder;
        Action::FindDecoder { stream }
    }

    fn free_samples(&mut self, drain: bool) -> (action: Action)
        ensures
            (*final(self), action) == free_samples(*old(self), drain),
    {
        self.phase = Phase::FreeingSamples { drain };
        Action::Release(Resource::SampleBuffer)
    }

    fn after_code(&mut self, code: i32) -> (action: Action)
        requires
            consistent(*old(self)),
            answers(*old(self), Event::Code(code)),
        ensures
            (*final(self), action) == after_code(*old(self), code),
    {
        match self.phase {
            Phase::OpeningInput => if code < 0 {
                self.fail(TranscodeError::OpenInput)
            } else {
                self.enter(Phase::Probing, Action::Probe)
            },
            Phase::Probing => if code < 0 {
                self.fail(TranscodeError::FindStreamInfo)
            } else {
                self.enter(Phase::ListingStreams, Action::ListStreams)
            },
            Phase::FindingBestStream => if code < 0 {
                self.fail(TranscodeError::NoAudioStream)
            } else {
                self.select(code)
            },
            Phase::CopyingParameters => if code < 0 {
                self.fail(TranscodeError::CopyParameters)
            } else {
                self.enter(Phase::OpeningDecoder, Action::OpenDecoder)
            },
            Phase::OpeningDecoder => if code < 0 {
                self.fail(TranscodeError::OpenDecoder)
            } else {
                self.enter(Phase::ReadingLayout, Action::ReadLayout)
            },
            Phase::CreatingResampler => if code < 0 {
                self.fail(TranscodeError::CreateResampler)
            } else {
                self.enter(
                    Phase::InitializingResampler,
                    Action::InitResampler {
                        filter_size: FILTER_SIZE,
                        phase_shift: PHASE_SHIFT,
                        linear_interp: LINEAR_INTERP,
                        exact_rational: EXACT_RATIONAL,
                    },
                )
            },
            Phase::InitializingResampler => if code < 0 {
                self.fail(TranscodeError::InitResampler)
            } else {
                self.enter(Phase::AllocatingPacket, Action::AllocPacket)
            },
            Phase::SendingPacket => if code < 0 && code != self.codes.again {
                self.fail(TranscodeError::SendPacket)
            } else {
                self.enter(Phase::ReceivingFrame, Action::ReceiveFrame)
            },
            Phase::CountingSamples { drain } => if drain && code <= 0 {
                self.succeed()
            } else if code < 0 {
                self.fail(TranscodeError::CountSamples)
            } else {
                self.enter(
                    Phase::AllocatingSamples { samples: code, drain },
                    Action::AllocSamples {
                        channels: OUTPUT_CHANNELS,
                        samples: code,
                        format: OUTPUT_SAMPLE_FORMAT,
                    },
                )
            },
            Phase::Converting { drain } => if code > 0 {
                let bytes: u64 = code as u64 * BYTES_PER_SAMPLE;
                self.enter(Phase::Writing { bytes, drain }, Action::Write { bytes })
            } else if drain {
                self.succeed()
            } else {
                self.free_samples(drain)
            },
            // No other phase waits for a code.
            _ => self.fail(TranscodeError::OpenInput),
        }
    }

    fn after_presence(&mut self, present: bool) -> (action: Action)
        requires
            consistent(*old(self)),
            answers(*old(self), Event::Present(present)),
        ensures
            (*final(self), action) == after_presence(*old(self), present),
    {
        match self.phase {
            Phase::FindingDecoder => if !present {
                self.fail(TranscodeError::NoDecoder)
            } else {
                self.enter(Phase::AllocatingDecoder, Action::AllocDecoder)
            },
            Phase::AllocatingDecoder => if !present {
                self.fail(TranscodeError::AllocDecoder)
            } else {
                self.enter(Phase::CopyingParameters, Action::CopyParameters)
            },
            Phase::AllocatingPacket => if !present {
                self.fail(TranscodeError::AllocPacket)
            } else {
                self.enter(Phase::AllocatingFrame, Action::AllocFrame)
            },
            _ => if !present {
                self.fail(TranscodeError::AllocFrame)
            } else {
                self.enter(Phase::ReadingPacket, Action::ReadPacket)
            },
        }
    }

    fn after_done(&mut self) -> (action: Action)
        requires
            consistent(*old(self)),
            answers(*old(self), Event::Done),
        ensures
            (*final(self), action) == after_done(*old(self)),
    {
        match self.phase {
            Phase::FreeingSamples { drain } => if drain {
                self.enter(
                    Phase::CountingSamples { drain: true },
                    Action::CountSamples { input: 0 },
                )
            } else {
                self.enter(Phase::DroppingFrame, Action::UnrefFrame)
            },
            Phase::DroppingFrame => self.enter(Phase::ReceivingFrame, Action::ReceiveFrame),
            Phase::DroppingPacket => self.enter(Phase::ReadingPacket, Action::ReadPacket),
            _ => {
                let held = self.held();
                let outcome = self.outcome.take().unwrap();
                self.close(held, outcome)
            },
        }
    }

    fn advance(&mut self, event: Event) -> (action: Action)
        requires
            consistent(*old(self)),
            answers(*old(self), event),
        ensures
            (*final(self), action) == next(*old(self), event),
            consistent(*final(self)),
    {
        match event {
            Event::Exists(exists) => if exists {
                let path = self.input_file_path.clone();
                self.enter(Phase::ConvertingPath, Action::ConvertPath(path))
            } else {
                self.fail(TranscodeError::MissingInput)
            },
            Event::Converted(result) => match result {
                Ok(_) => self.enter(Phase::OpeningInput, Action::OpenInput),
                Err(cause) => self.fail(TranscodeError::NulInPath(cause)),
            },
            Event::Code(code) => self.after_code(code),
            Event::Present(present) => self.after_presence(present),
            Event::Streams(streams) => match find_english(&streams) {
                Some(i) => self.select(i as i32),
                None => self.enter(Phase::FindingBestStream, Action::FindBestStream),
            },
            Event::Layout { unspecified, channels, sample_rate } => if unspecified && channels
                <= 0 {
                self.fail(TranscodeError::BadChannelCount)
            } else {
                self.sample_rate = sample_rate;
                self.enter(
                    Phase::CreatingResampler,
                    Action::CreateResampler {
                        default_channels: if unspecified {
                            Some(channels)
                        } else {
                            None
                        },
                        layout: OUTPUT_LAYOUT,
                        channels: OUTPUT_CHANNELS,
                        format: OUTPUT_SAMPLE_FORMAT,
                        sample_rate: OUTPUT_SAMPLE_RATE,
                    },
                )
            },
            Event::Packet { code, stream_index } => if code < 0 {
                self.enter(
                    Phase::CountingSamples { drain: true },
                    Action::CountSamples { input: 0 },
                )
            } else if stream_index != self.selected {
                self.enter(Phase::DroppingPacket, Action::UnrefPacket)
            } else {
                self.enter(Phase::SendingPacket, Action::SendPacket)
            },
            Event::Frame { code, samples } => if code == self.codes.again || code
                == self.codes.end_of_stream {
                self.enter(Phase::DroppingPacket, Action::UnrefPacket)
            } else if code < 0 {
                self.fail(TranscodeError::ReceiveFrame)
            } else {
                self.enter(
                    Phase::CountingSamples { drain: false },
                    Action::CountSamples { input: samples },
                )
            },
            Event::Buffer { code, present } => match self.phase {
                Phase::AllocatingSamples { samples, drain } if code >= 0 && present => self.enter(
                    Phase::Converting { drain },
                    Action::Convert { samples, drain },
                ),
                _ => self.fail(TranscodeError::AllocSamples),
            },
            Event::Written(result) => match result {
                Ok(_) => {
                    let mut draining: bool = true;
                    if let Phase::Writing { bytes, drain } = self.phase {
                        draining = drain;
                        if !drain {
                            self.total_bytes = self.total_bytes + bytes;
                        }
                    }
                    self.free_samples(draining)
                },
                Err(cause) => self.fail(TranscodeError::WriteOutput(cause)),
            },
            Event::Done => self.after_done(),
        }
    }
}

/// The run after a history of replies.
pub open spec fn state_after(
    input: String,
    codes: ReturnCodes,
    history: Seq<Event>,
) -> Run
    decreases history.len(),
{
    if history.len() == 0 {
        initial(input, codes)
    } else {
        next(state_after(input, codes, history.drop_last()), history.last()).0
    }
}

/// The call that a history of replies leads to.
pub open spec fn action_after(
    input: String,
    codes: ReturnCodes,
    history: Seq<Event>,
) -> Action {
    if history.len() == 0 {
        Action::CheckPath(input)
    } else {
        next(state_after(input, codes, history.drop_last()), history.last()).1
    }
}

/// Whether every reply of a history answers the call before it.
pub open spec fn possible(
    input: String,
    codes: ReturnCodes,
    history: Seq<Event>,
) -> bool
    decreases history.len(),
{
    history.len() == 0 || {
        &&& possible(input, codes, history.drop_last())
        &&& answers(state_after(input, codes, history.drop_last()), history.last())
    }
}

/// The place of a resource in the order of acquisition.
pub open spec fn position_of(resource: Resource) -> int {
    match resource {
        Resource::Input => 0,
        Resource::Decoder => 1,
        Resource::Resampler => 2,
        Resource::Packet => 3,
        Resource::Frame => 4,
        Resource::SampleBuffer => 5,
    }
}

/// Whether a reply hands a resource to a run.
pub open spec fn acquires(run: Run, event: Event, resource: Resource) -> bool {
    match resource {
        Resource::Input => {
            &&& run.phase == Phase::OpeningInput
            &&& event matches Event::Code(code)
            &&& code >= 0
        },
        Resource::Decoder => run.phase == Phase::AllocatingDecoder && event == Event::Present(true),
        Resource::Resampler => {
            &&& run.phase == Phase::CreatingResampler
            &&& event matches Event::Code(code)
            &&& code >= 0
        },
        Resource::Packet => run.phase == Phase::AllocatingPacket && event == Event::Present(true),
        Resource::Frame => run.phase == Phase::AllocatingFrame && event == Event::Present(true),
        Resource::SampleBuffer => event matches Event::Buffer { code, present } && code >= 0
            && present,
    }
}

/// How often a history hands a resource to the run.
pub open spec fn acquired(
    input: String,
    codes: ReturnCodes,
    history: Seq<Event>,
    resource: Resource,
) -> nat
    decreases history.len(),
{
    if history.len() == 0 {
        0
    } else {
        let before = history.drop_last();
        acquired(input, codes, before, resource) + if acquires(
            state_after(input, codes, before),
            history.last(),
            resource,
        ) {
            1nat
        } else {
            0nat
        }
    }
}

/// How often the calls up to the end of a history release a resource.
pub open spec fn released(
    input: String,
    codes: ReturnCodes,
    history: Seq<Event>,
    resource: Resource,
) -> nat
    decreases history.len(),
{
    if history.len() == 0 {
        0
    } else {
        let releases = action_after(input, codes, history) == Action::Release(resource);
        released(input, codes, history.drop_last(), resource) + if releases {
            1nat
        } else {
            0nat
        }
    }
}

/// How many bytes of converted frames a history reports as written.
pub open spec fn written(
    input: String,
    codes: ReturnCodes,
    history: Seq<Event>,
) -> nat
    decreases history.len(),
{
    if history.len() == 0 {
        0
    } else {
        let before = history.drop_last();
        let phase = state_after(input, codes, before).phase;
        written(input, codes, before) + match (phase, history.last()) {
            (Phase::Writing { bytes, drain }, Event::Written(Ok(_))) => if drain {
                0
            } else {
                bytes as nat
            },
            _ => 0,
        }
    }
}

/// A run stays consistent through every possible history, and a successful end is always the
/// report on what was written.
pub proof fn law_runs_stay_consistent(
    input: String,
    codes: ReturnCodes,
    history: Seq<Event>,
)
    requires
        possible(input, codes, history),
    ensures
        consistent(state_after(input, codes, history)),
        state_after(input, codes, history).outcome matches Some(Ok(metadata)) ==> metadata
            == report(state_after(input, codes, history)),
    decreases history.len(),
{
    if history.len() > 0 {
        law_runs_stay_consistent(input, codes, history.drop_last());
    }
}

/// Every resource is released exactly as often as it was acquired, up to the one that the run
/// still holds; so a finished run holds nothing and has released nothing twice, whichever way
/// it ended.
pub proof fn law_resources_are_released_once(
    input: String,
    codes: ReturnCodes,
    history: Seq<Event>,
    resource: Resource,
)
    requires
        possible(input, codes, history),
    ensures
        ({
            let phase = state_after(input, codes, history).phase;
            let got = acquired(input, codes, history, resource);
            let given_back = released(input, codes, history, resource);
            &&& got == given_back + if position_of(resource) < held_in(phase) {
                1nat
            } else {
                0nat
            }
            &&& phase == Phase::Finished ==> got == given_back
        }),
    decreases history.len(),
{
    if history.len() > 0 {
        law_resources_are_released_once(input, codes, history.drop_last(), resource);
        law_runs_stay_consistent(input, codes, history.drop_last());
    }
}

/// The reported size of the output is the sum of what was written for decoded frames, and a
/// whole number of samples. What the resampler gives when it is drained is written as well, but
/// not counted.
pub proof fn law_reported_size_is_what_was_written(
    input: String,
    codes: ReturnCodes,
    history: Seq<Event>,
)
    requires
        possible(input, codes, history),
    ensures
        state_after(input, codes, history).total_bytes == written(input, codes, history),
        written(input, codes, history) % (BYTES_PER_SAMPLE as nat) == 0,
        action_after(input, codes, history) matches Action::Finish(Ok(metadata)) ==> {
            &&& metadata.resampled_file_size == (written(input, codes, history) as u64) as usize
            &&& metadata.input_sample_rate == state_after(
                input,
                codes,
                history,
            ).sample_rate as usize
        },
    decreases history.len(),
{
    law_runs_stay_consistent(input, codes, history);
    if history.len() > 0 {
        law_reported_size_is_what_was_written(input, codes, history.drop_last());
        law_runs_stay_consistent(input, codes, history.drop_last());
    }
}

/// The path that is looked up and handed to the media library is the one that the run was
/// started with, and it is looked up first.
pub proof fn law_path_is_the_given_one(input: String, codes: ReturnCodes, history: Seq<Event>)
    requires
        possible(input, codes, history),
    ensures
        state_after(input, codes, history).input_file_path == input,
        action_after(input, codes, history) matches Action::CheckPath(path) ==> {
            &&& path == input
            &&& history.len() == 0
        },
        action_after(input, codes, history) matches Action::ConvertPath(path) ==> {
            &&& path == input
            &&& history.last() == Event::Exists(true)
        },
    decreases history.len(),
{
    if history.len() > 0 {
        law_path_is_the_given_one(input, codes, history.drop_last());
    }
}

/// The stream that is decoded is the first one tagged as English audio. Only where there is none
/// the best audio stream is asked for, and then it is that one.
pub proof fn law_english_or_best_stream_is_decoded(run: Run, event: Event)
    requires
        answers(run, event),
    ensures
        next(run, event).1 matches Action::FindDecoder { stream } ==> {
            &&& next(run, event).0.selected == stream
            &&& match event {
                Event::Streams(streams) => english_choice(streams@) == Some(stream as int),
                Event::Code(best) => run.phase == Phase::FindingBestStream && stream == best
                    && best >= 0,
                _ => false,
            }
        },
        next(run, event).1 == Action::FindBestStream ==> {
            &&& event matches Event::Streams(streams)
            &&& english_choice(streams@) is None
        },
{
    if let Event::Streams(streams) = event {
        law_english_choice_is_first(streams@);
    }
}

/// The output is mono, 16 kHz and in 32-bit float samples, whatever the input is: the resampler
/// is set up for nothing else, buffers are for one channel of such samples, and four bytes are
/// written for every sample that the resampler gave.
pub proof fn law_output_is_mono_16khz_float(run: Run, event: Event)
    requires
        answers(run, event),
    ensures
        next(run, event).1 is CreateResampler ==> sets_up_output(next(run, event).1),
        next(run, event).1 matches Action::AllocSamples { channels, format, .. } ==> {
            &&& channels == 1
            &&& format == SampleFormat::Float32
        },
        next(run, event).1 matches Action::Write { bytes } ==> {
            &&& event matches Event::Code(samples)
            &&& samples > 0
            &&& bytes == samples * 4
        },
{
}

/// Whether a call sets the resampler up for mono, 16 kHz, 32-bit float output.
pub open spec fn sets_up_output(action: Action) -> bool {
    &&& action matches Action::CreateResampler { layout, channels, format, sample_rate, .. }
    &&& layout == ChannelLayout::Mono
    &&& channels == 1
    &&& format == SampleFormat::Float32
    &&& sample_rate == 16000
}

/// Whether in a history the resampler was set up for that output, with success.
pub open spec fn output_is_set_up(
    input: String,
    codes: ReturnCodes,
    history: Seq<Event>,
) -> bool
    decreases history.len(),
{
    history.len() > 0 && {
        ||| output_is_set_up(input, codes, history.drop_last())
        ||| sets_up_output(action_after(input, codes, history.drop_last())) && (history.last()
            matches Event::Code(code) && code >= 0)
    }
}

/// Whether a run in a phase needs the resampler, or ended with success.
pub open spec fn needs_resampler(run: Run, action: Action) -> bool {
    match run.phase {
        Phase::Closing { .. } => run.outcome matches Some(Ok(_)),
        Phase::Finished => action matches Action::Finish(Ok(_)),
        _ => held_in(run.phase) >= 3,
    }
}

/// Nothing is converted or written, and no run succeeds, before the resampler was set up for
/// mono, 16 kHz, 32-bit float output.
pub proof fn law_output_is_set_up_first(input: String, codes: ReturnCodes, history: Seq<Event>)
    requires
        possible(input, codes, history),
    ensures
        ({
            let action = action_after(input, codes, history);
            action is Convert || action is Write || action matches Action::Finish(Ok(_))
        }) ==> output_is_set_up(input, codes, history),
{
    lemma_output_is_set_up(input, codes, history);
    law_runs_stay_consistent(input, codes, history);
    if history.len() > 0 {
        law_runs_stay_consistent(input, codes, history.drop_last());
    }
}

proof fn lemma_output_is_set_up(input: String, codes: ReturnCodes, history: Seq<Event>)
    requires
        possible(input, codes, history),
    ensures
        ({
            let run = state_after(input, codes, history);
            let action = action_after(input, codes, history);
            &&& run.phase == Phase::CreatingResampler ==> sets_up_output(action)
            &&& needs_resampler(run, action) ==> output_is_set_up(input, codes, history)
        }),
    decreases history.len(),
{
    if history.len() > 0 {
        lemma_output_is_set_up(input, codes, history.drop_last());
        law_runs_stay_consistent(input, codes, history.drop_last());
    }
}

/// Only packets of the selected stream reach the decoder.
pub proof fn law_other_streams_are_skipped(run: Run, event: Event)
    requires
        answers(run, event),
        next(run, event).1 == Action::SendPacket,
    ensures
        event matches Event::Packet { code, stream_index } && code >= 0 && stream_index
            == run.selected,
{
}

/// Once a stream is selected it stays selected.
pub proof fn law_selection_is_final(run: Run, event: Event)
    requires
        answers(run, event),
        run.phase != Phase::ListingStreams,
        run.phase != Phase::FindingBestStream,
    ensures
        next(run, event).0.selected == run.selected,
{
}

/// The run and the call after a number of calls without a reply.
pub open spec fn after_dones(run: Run, count: nat) -> (Run, Action)
    decreases count,
{
    if count <= 1 {
        next(run, Event::Done)
    } else {
        after_dones(next(run, Event::Done).0, (count - 1) as nat)
    }
}

/// A run that is closing makes no call but releases of what it holds, the latest first, and
/// then ends with the outcome it closed with.
pub proof fn law_closing_ends(run: Run, held: usize, count: nat)
    requires
        consistent(run),
        run.phase == (Phase::Closing { held }),
        1 <= count <= held + 1,
    ensures
        count <= held ==> after_dones(run, count).1 == Action::Release(resource_at(held - count)),
        count == held + 1 ==> {
            &&& after_dones(run, count).0.phase == Phase::Finished
            &&& after_dones(run, count).1 == Action::Finish(run.outcome->Some_0)
        },
    decreases count,
{
    if count > 1 {
        law_closing_ends(next(run, Event::Done).0, (held - 1) as usize, (count - 1) as nat);
    }
}

/// A conversion that gives nothing while the resampler is drained ends the run successfully,
/// whatever the resampler's estimate was.
pub proof fn law_draining_stops_without_output(run: Run, code: i32)
    requires
        consistent(run),
        run.phase == (Phase::Converting { drain: true }),
        code <= 0,
    ensures
        answers(run, Event::Code(code)),
        next(run, Event::Code(code)).0.phase is Closing,
        next(run, Event::Code(code)).0.outcome == Some(
            Ok::<TranscoderMetadata, TranscodeError>(report(run)),
        ),
{
}

/// Every packet that is read is dealt with by its stream alone, whatever was read or written
/// before: one of the selected stream goes to the decoder, any other is dropped and the next one
/// is read, and only where none can be read any more the resampler is drained.
pub proof fn law_every_selected_packet_is_decoded(run: Run, code: i32, stream_index: i32)
    requires
        run.phase == Phase::ReadingPacket,
    ensures
        ({
            let event = Event::Packet { code, stream_index };
            let step = next(run, event);
            let dropped = next(step.0, Event::Done);
            &&& answers(run, event)
            &&& step.1 == Action::SendPacket <==> code >= 0 && stream_index == run.selected
            &&& step.1 == Action::UnrefPacket <==> code >= 0 && stream_index != run.selected
            &&& step.1 == (Action::CountSamples { input: 0 }) <==> code < 0
            &&& step.1 == Action::SendPacket ==> step.0 == (Run {
                phase: Phase::SendingPacket,
                ..run
            })
            &&& step.1 == Action::UnrefPacket ==> {
                &&& answers(step.0, Event::Done)
                &&& dropped == (run, Action::ReadPacket)
            }
            &&& code < 0 ==> step.0 == (Run {
                phase: Phase::CountingSamples { drain: true },
                ..run
            })
        }),
{
}

/// The stream whose decoder a history made the run look up last.
pub open spec fn decoded_stream(
    input: String,
    codes: ReturnCodes,
    history: Seq<Event>,
) -> Option<i32>
    decreases history.len(),
{
    match action_after(input, codes, history) {
        Action::FindDecoder { stream } => Some(stream),
        _ => if history.len() == 0 {
            None
        } else {
            decoded_stream(input, codes, history.drop_last())
        },
    }
}

/// How many packets of the decoded stream a history reads.
pub open spec fn packets_of_stream(
    input: String,
    codes: ReturnCodes,
    history: Seq<Event>,
) -> nat
    decreases history.len(),
{
    if history.len() == 0 {
        0
    } else {
        let before = history.drop_last();
        packets_of_stream(input, codes, before) + match history.last() {
            Event::Packet { code, stream_index } => if code >= 0 && Some(stream_index)
                == decoded_stream(input, codes, before) {
                1nat
            } else {
                0nat
            },
            _ => 0nat,
        }
    }
}

/// How many packets the calls of a history hand to the decoder.
pub open spec fn packets_sent(input: String, codes: ReturnCodes, history: Seq<Event>) -> nat
    decreases history.len(),
{
    if history.len() == 0 {
        0
    } else {
        packets_sent(input, codes, history.drop_last()) + if action_after(input, codes, history)
            == Action::SendPacket {
            1nat
        } else {
            0nat
        }
    }
}

/// Over any history as many packets are handed to the decoder as were read of the decoded
/// stream: none is left out and none is sent twice.
pub proof fn law_no_packet_is_lost(input: String, codes: ReturnCodes, history: Seq<Event>)
    requires
        possible(input, codes, history),
    ensures
        packets_sent(input, codes, history) == packets_of_stream(input, codes, history),
    decreases history.len(),
{
    if history.len() > 0 {
        law_no_packet_is_lost(input, codes, history.drop_last());
        lemma_selected_is_decoded(input, codes, history.drop_last());
    }
}

proof fn lemma_selected_is_decoded(input: String, codes: ReturnCodes, history: Seq<Event>)
    requires
        possible(input, codes, history),
    ensures
        ({
            let run = state_after(input, codes, history);
            match run.phase {
                Phase::CheckingPath | Phase::ConvertingPath | Phase::OpeningInput => true,
                Phase::Probing | Phase::ListingStreams | Phase::FindingBestStream => true,
                Phase::Closing { .. } | Phase::Finished => true,
                _ => decoded_stream(input, codes, history) == Some(run.selected),
            }
        }),
    decreases history.len(),
{
    if history.len() > 0 {
        lemma_selected_is_decoded(input, codes, history.drop_last());
    }
}

/// After a packet every frame that the decoder gives is asked for, until it says that it has no
/// more; then the packet is dropped and the next one is read. A decoder that is full is no
/// failure.
pub proof fn law_every_frame_is_received(run: Run, code: i32, samples: i32)
    ensures
        run.phase == Phase::SendingPacket ==> {
            &&& answers(run, Event::Code(code))
            &&& code >= 0 || code == run.codes.again ==> next(run, Event::Code(code)) == (
                Run { phase: Phase::ReceivingFrame, ..run },
                Action::ReceiveFrame,
            )
        },
        run.phase == Phase::ReceivingFrame ==> {
            let event = Event::Frame { code, samples };
            let step = next(run, event);
            let over = code == run.codes.again || code == run.codes.end_of_stream;
            &&& answers(run, event)
            &&& over ==> {
                &&& step.1 == Action::UnrefPacket
                &&& answers(step.0, Event::Done)
                &&& next(step.0, Event::Done) == (
                    Run { phase: Phase::ReadingPacket, ..run },
                    Action::ReadPacket,
                )
            }
            &&& !over && code >= 0 ==> step.1 == (Action::CountSamples { input: samples })
        },
{
}

/// A frame is converted into a buffer for as many samples as the resampler can give for it, what
/// the resampler gave is written whole, four bytes for each sample, and is added to the size of
/// the output; then the buffer and the frame are given back and the next frame is asked for.
/// Nothing else of the run changes, and nothing is written where the resampler gave nothing.
pub proof fn law_frame_is_converted_and_written(
    run: Run,
    code: i32,
    samples: i32,
    estimate: i32,
    allocated: i32,
    output: i32,
)
    requires
        run.phase == Phase::ReceivingFrame,
        code >= 0 && code != run.codes.again && code != run.codes.end_of_stream,
        estimate >= 0,
        allocated >= 0,
        run.total_bytes + 4 * output <= u64::MAX,
    ensures
        ({
            let buffer = Event::Buffer { code: allocated, present: true };
            let received = next(run, (Event::Frame { code, samples }));
            let counted = next(received.0, Event::Code(estimate));
            let ready = next(counted.0, buffer);
            let converted = next(ready.0, Event::Code(output));
            let written = next(converted.0, Event::Written(Ok(())));
            let empty = if output > 0 {
                written
            } else {
                converted
            };
            let freed = next(empty.0, Event::Done);
            let last = next(freed.0, Event::Done);
            &&& received.1 == (Action::CountSamples { input: samples })
            &&& counted.1 == (Action::AllocSamples {
                channels: 1,
                samples: estimate,
                format: SampleFormat::Float32,
            })
            &&& ready.1 == (Action::Convert { samples: estimate, drain: false })
            &&& output > 0 ==> {
                &&& converted.1 matches Action::Write { bytes }
                &&& bytes == 4 * output
                &&& answers(converted.0, Event::Written(Ok(())))
                &&& last.0.total_bytes == run.total_bytes + 4 * output
            }
            &&& output <= 0 ==> last.0.total_bytes == run.total_bytes
            &&& empty.1 == Action::Release(Resource::SampleBuffer)
            &&& freed.1 == Action::UnrefFrame
            &&& last.1 == Action::ReceiveFrame
            &&& last.0 == (Run { total_bytes: last.0.total_bytes, ..run })
            &&& answers(received.0, Event::Code(estimate))
            &&& answers(counted.0, buffer)
            &&& answers(ready.0, Event::Code(output))
            &&& answers(empty.0, Event::Done)
            &&& answers(freed.0, Event::Done)
        }),
{
}

/// While the resampler is drained, what it still gives is written whole, four bytes for each
/// sample, and it is asked again; the size of the output does not change.
pub proof fn law_drained_samples_are_written(
    run: Run,
    estimate: i32,
    allocated: i32,
    output: i32,
)
    requires
        run.phase == (Phase::CountingSamples { drain: true }),
        estimate > 0,
        allocated >= 0,
        output > 0,
    ensures
        ({
            let buffer = Event::Buffer { code: allocated, present: true };
            let counted = next(run, Event::Code(estimate));
            let ready = next(counted.0, buffer);
            let converted = next(ready.0, Event::Code(output));
            let written = next(converted.0, Event::Written(Ok(())));
            &&& counted.1 == (Action::AllocSamples {
                channels: 1,
                samples: estimate,
                format: SampleFormat::Float32,
            })
            &&& ready.1 == (Action::Convert { samples: estimate, drain: true })
            &&& converted.1 matches Action::Write { bytes }
            &&& bytes == 4 * output
            &&& written.1 == Action::Release(Resource::SampleBuffer)
            &&& next(written.0, Event::Done) == (run, Action::CountSamples { input: 0 })
            &&& answers(run, Event::Code(estimate))
            &&& answers(counted.0, buffer)
            &&& answers(ready.0, Event::Code(output))
            &&& answers(converted.0, Event::Written(Ok(())))
            &&& answers(written.0, Event::Done)
        }),
{
}

/// The run and the call after a step and a number of releases.
pub open spec fn after_releases(step: (Run, Action), count: nat) -> (Run, Action)
    decreases count,
{
    if count == 0 {
        step
    } else {
        next(after_releases(step, (count - 1) as nat).0, Event::Done)
    }
}

/// Whether what follows is the release of the frame, the packet, the resampler, the decoder and
/// the input, in this order, and then the end with an outcome.
pub open spec fn ends_with(
    step: (Run, Action),
    outcome: Result<TranscoderMetadata, TranscodeError>,
) -> bool {
    &&& step.1 == Action::Release(Resource::Frame)
    &&& after_releases(step, 1).1 == Action::Release(Resource::Packet)
    &&& after_releases(step, 2).1 == Action::Release(Resource::Resampler)
    &&& after_releases(step, 3).1 == Action::Release(Resource::Decoder)
    &&& after_releases(step, 4).1 == Action::Release(Resource::Input)
    &&& after_releases(step, 5).1 == Action::Finish(outcome)
    &&& after_releases(step, 5).0.phase == Phase::Finished
}

/// A run that has drained the resampler releases all it holds, the decoding side before the
/// input, and ends with the sample rate of the input and the size of what was written for
/// frames. It has drained it where the resampler has no samples left, or gives none.
pub proof fn law_drained_run_ends_well(run: Run, code: i32)
    requires
        code <= 0,
    ensures
        ({
            let outcome = Ok::<TranscoderMetadata, TranscodeError>(
                TranscoderMetadata {
                    input_sample_rate: run.sample_rate as usize,
                    resampled_file_size: run.total_bytes as usize,
                },
            );
            let step = next(run, Event::Code(code));
            &&& run.phase == (Phase::CountingSamples { drain: true }) ==> {
                &&& answers(run, Event::Code(code))
                &&& ends_with(step, outcome)
            }
            &&& run.phase == (Phase::Converting { drain: true }) ==> {
                &&& answers(run, Event::Code(code))
                &&& step.1 == Action::Release(Resource::SampleBuffer)
                &&& ends_with(next(step.0, Event::Done), outcome)
            }
        }),
{
    reveal_with_fuel(after_releases, 6);
}

/// A run without failures opens the file at the given path, selects a stream, opens its decoder
/// and sets the resampler up for mono, 16 kHz, 32-bit float output with its four options, in
/// this order; then it reads packets of that stream, with nothing written yet. Codes above zero
/// are no failures.
pub proof fn law_run_is_set_up(
    input: String,
    codes: ReturnCodes,
    ok: i32,
    streams: Vec<StreamInfo>,
    best: i32,
    unspecified: bool,
    channels: i32,
    sample_rate: i32,
)
    requires
        ok >= 0,
        best >= 0,
        streams@.len() <= i32::MAX,
        unspecified ==> channels > 0,
    ensures
        ({
            let start = initial(input, codes);
            let exists_there = next(start, Event::Exists(true));
            let converted = next(exists_there.0, Event::Converted(Ok(())));
            let opened = next(converted.0, Event::Code(ok));
            let probed = next(opened.0, Event::Code(ok));
            let listed = next(probed.0, Event::Streams(streams));
            let searched = next(listed.0, Event::Code(best));
            let chosen = if listed.1 == Action::FindBestStream {
                searched
            } else {
                listed
            };
            let found = next(chosen.0, Event::Present(true));
            let allocated = next(found.0, Event::Present(true));
            let copied = next(allocated.0, Event::Code(ok));
            let decoding = next(copied.0, Event::Code(ok));
            let layout = Event::Layout { unspecified, channels, sample_rate };
            let laid_out = next(decoding.0, layout);
            let created = next(laid_out.0, Event::Code(ok));
            let resampling = next(created.0, Event::Code(ok));
            let packet = next(resampling.0, Event::Present(true));
            let frame = next(packet.0, Event::Present(true));
            &&& exists_there.1 == Action::ConvertPath(input)
            &&& converted.1 == Action::OpenInput
            &&& opened.1 == Action::Probe
            &&& probed.1 == Action::ListStreams
            &&& listed.1 == Action::FindBestStream ==> searched.1 == (Action::FindDecoder {
                stream: best,
            })
            &&& chosen.1 matches Action::FindDecoder { stream }
            &&& found.1 == Action::AllocDecoder
            &&& allocated.1 == Action::CopyParameters
            &&& copied.1 == Action::OpenDecoder
            &&& decoding.1 == Action::ReadLayout
            &&& laid_out.1 == (Action::CreateResampler {
                default_channels: if unspecified {
                    Some(channels)
                } else {
                    None
                },
                layout: ChannelLayout::Mono,
                channels: 1,
                format: SampleFormat::Float32,
                sample_rate: 16000,
            })
            &&& created.1 == (Action::InitResampler {
                filter_size: 64,
                phase_shift: 10,
                linear_interp: 0,
                exact_rational: 1,
            })
            &&& resampling.1 == Action::AllocPacket
            &&& packet.1 == Action::AllocFrame
            &&& frame.1 == Action::ReadPacket
            &&& frame.0 == (Run {
                input_file_path: input,
                codes,
                phase: Phase::ReadingPacket,
                selected: stream,
                sample_rate,
                total_bytes: 0,
                outcome: None,
            })
            &&& answers(start, Event::Exists(true))
            &&& answers(exists_there.0, Event::Converted(Ok(())))
            &&& answers(converted.0, Event::Code(ok)) && answers(opened.0, Event::Code(ok))
            &&& answers(probed.0, Event::Streams(streams))
            &&& listed.1 == Action::FindBestStream ==> answers(listed.0, Event::Code(best))
            &&& answers(chosen.0, Event::Present(true)) && answers(found.0, Event::Present(true))
            &&& answers(allocated.0, Event::Code(ok)) && answers(copied.0, Event::Code(ok))
            &&& answers(decoding.0, layout)
            &&& answers(laid_out.0, Event::Code(ok)) && answers(created.0, Event::Code(ok))
            &&& answers(resampling.0, Event::Present(true))
            &&& answers(packet.0, Event::Present(true))
        }),
{
}

/// The stream that is chosen from a list is audio tagged `en`, `eng` or `english`, and no stream
/// before it is; the best stream is asked for only where the list holds no such stream.
pub proof fn law_first_english_stream_is_chosen(run: Run, streams: Vec<StreamInfo>)
    requires
        run.phase == Phase::ListingStreams,
        streams@.len() <= i32::MAX,
    ensures
        ({
            let tagged = |stream: StreamInfo|
                stream.is_audio && stream.language is Some && {
                    ||| stream.language->Some_0@ == "en"@
                    ||| stream.language->Some_0@ == "eng"@
                    ||| stream.language->Some_0@ == "english"@
                };
            let step = next(run, Event::Streams(streams));
            match step.1 {
                Action::FindDecoder { stream } => {
                    &&& 0 <= stream < streams@.len()
                    &&& tagged(streams@[stream as int])
                    &&& forall|i: int| 0 <= i < stream ==> !tagged(#[trigger] streams@[i])
                },
                Action::FindBestStream => forall|i: int|
                    0 <= i < streams@.len() ==> !tagged(#[trigger] streams@[i]),
                _ => false,
            }
        }),
{
    law_english_choice_is_first(streams@);
}

/// How a step ends a run, or what a run that a step makes release its resources ends with.
pub open spec fn outcome_of(step: (Run, Action)) -> Option<
    Result<TranscoderMetadata, TranscodeError>,
> {
    match step.1 {
        Action::Finish(outcome) => Some(outcome),
        _ => step.0.outcome,
    }
}

/// Whether a step makes a run fail with an error.
pub open spec fn fails_with(run: Run, event: Event, error: TranscodeError) -> bool {
    &&& answers(run, event)
    &&& outcome_of(next(run, event)) == Some(
        Err::<TranscoderMetadata, TranscodeError>(error),
    )
}

/// Every call that fails ends the run with the error for that call, whatever came before.
pub proof fn law_each_failure_has_its_error(
    run: Run,
    code: i32,
    cause: String,
    channels: i32,
    sample_rate: i32,
    samples: i32,
)
    requires
        run.outcome is None,
        code < 0,
    ensures
        run.phase == Phase::CheckingPath ==> fails_with(
            run,
            Event::Exists(false),
            TranscodeError::MissingInput,
        ),
        run.phase == Phase::ConvertingPath ==> fails_with(
            run,
            Event::Converted(Err(cause)),
            TranscodeError::NulInPath(cause),
        ),
        run.phase == Phase::OpeningInput ==> fails_with(
            run,
            Event::Code(code),
            TranscodeError::OpenInput,
        ),
        run.phase == Phase::Probing ==> fails_with(
            run,
            Event::Code(code),
            TranscodeError::FindStreamInfo,
        ),
        run.phase == Phase::FindingBestStream ==> fails_with(
            run,
            Event::Code(code),
            TranscodeError::NoAudioStream,
        ),
        run.phase == Phase::FindingDecoder ==> fails_with(
            run,
            Event::Present(false),
            TranscodeError::NoDecoder,
        ),
        run.phase == Phase::AllocatingDecoder ==> fails_with(
            run,
            Event::Present(false),
            TranscodeError::AllocDecoder,
        ),
        run.phase == Phase::CopyingParameters ==> fails_with(
            run,
            Event::Code(code),
            TranscodeError::CopyParameters,
        ),
        run.phase == Phase::OpeningDecoder ==> fails_with(
            run,
            Event::Code(code),
            TranscodeError::OpenDecoder,
        ),
        run.phase == Phase::ReadingLayout && channels <= 0 ==> fails_with(
            run,
            (Event::Layout { unspecified: true, channels, sample_rate }),
            TranscodeError::BadChannelCount,
        ),
        run.phase == Phase::CreatingResampler ==> fails_with(
            run,
            Event::Code(code),
            TranscodeError::CreateResampler,
        ),
        run.phase == Phase::InitializingResampler ==> fails_with(
            run,
            Event::Code(code),
            TranscodeError::InitResampler,
        ),
        run.phase == Phase::AllocatingPacket ==> fails_with(
            run,
            Event::Present(false),
            TranscodeError::AllocPacket,
        ),
        run.phase == Phase::AllocatingFrame ==> fails_with(
            run,
            Event::Present(false),
            TranscodeError::AllocFrame,
        ),
        run.phase == Phase::SendingPacket && code != run.codes.again ==> fails_with(
            run,
            Event::Code(code),
            TranscodeError::SendPacket,
        ),
        run.phase == Phase::ReceivingFrame && code != run.codes.again && code
            != run.codes.end_of_stream ==> fails_with(
            run,
            (Event::Frame { code, samples }),
            TranscodeError::ReceiveFrame,
        ),
        run.phase == (Phase::CountingSamples { drain: false }) ==> fails_with(
            run,
            Event::Code(code),
            TranscodeError::CountSamples,
        ),
        run.phase is AllocatingSamples ==> fails_with(
            run,
            (Event::Buffer { code, present: true }),
            TranscodeError::AllocSamples,
        ) && fails_with(
            run,
            (Event::Buffer { code: samples, present: false }),
            TranscodeError::AllocSamples,
        ),
        run.phase is Writing ==> fails_with(
            run,
            Event::Written(Err(cause)),
            TranscodeError::WriteOutput(cause),
        ),
{
}

/// How many samples a history gives for frames, as far as the resampler gave any.
pub open spec fn samples_given(input: String, codes: ReturnCodes, history: Seq<Event>) -> nat
    decreases history.len(),
{
    if history.len() == 0 {
        0
    } else {
        let before = history.drop_last();
        samples_given(input, codes, before) + match (
            action_after(input, codes, before),
            history.last(),
        ) {
            (Action::Convert { drain: false, .. }, Event::Code(code)) => if code > 0 {
                code as nat
            } else {
                0nat
            },
            _ => 0nat,
        }
    }
}

/// The sample rate that a history says the input has.
pub open spec fn rate_given(history: Seq<Event>) -> i32
    decreases history.len(),
{
    if history.len() == 0 {
        0
    } else {
        match history.last() {
            Event::Layout { sample_rate, .. } => sample_rate,
            _ => rate_given(history.drop_last()),
        }
    }
}

/// A run that succeeds reports four bytes for every sample that the resampler gave for a frame,
/// over the whole file, and the sample rate that the input was said to have.
pub proof fn law_success_reports_the_whole_file(
    input: String,
    codes: ReturnCodes,
    history: Seq<Event>,
)
    requires
        possible(input, codes, history),
        4 * samples_given(input, codes, history) <= usize::MAX,
    ensures
        action_after(input, codes, history) matches Action::Finish(Ok(metadata)) ==> {
            &&& metadata.resampled_file_size == 4 * samples_given(input, codes, history)
            &&& metadata.input_sample_rate == rate_given(history) as usize
        },
{
    lemma_samples_are_tallied(input, codes, history);
    if history.len() > 0 {
        lemma_samples_are_tallied(input, codes, history.drop_last());
        law_runs_stay_consistent(input, codes, history.drop_last());
    }
}

proof fn lemma_samples_are_tallied(input: String, codes: ReturnCodes, history: Seq<Event>)
    requires
        possible(input, codes, history),
    ensures
        ({
            let run = state_after(input, codes, history);
            let action = action_after(input, codes, history);
            let waiting = match run.phase {
                Phase::Writing { bytes, drain: false } => bytes as int,
                _ => 0,
            };
            &&& run.phase matches Phase::Converting { drain } ==> {
                &&& action matches Action::Convert { drain: same, .. }
                &&& same == drain
            }
            &&& action is Convert ==> run.phase is Converting
            &&& !(run.outcome matches Some(Err(_))) && run.phase != Phase::Finished ==> {
                &&& run.total_bytes + waiting == 4 * samples_given(input, codes, history)
                &&& run.sample_rate == rate_given(history)
            }
            &&& action matches Action::Finish(Ok(metadata)) ==> {
                &&& run.total_bytes == 4 * samples_given(input, codes, history)
                &&& run.sample_rate == rate_given(history)
                &&& metadata == report(run)
            }
        }),
    decreases history.len(),
{
    if history.len() > 0 {
        lemma_samples_are_tallied(input, codes, history.drop_last());
        law_runs_stay_consistent(input, codes, history.drop_last());
    }
}

/// A failure that has a cause is reported with the whole of it behind what failed.
pub proof fn law_transcode_errors_carry_their_cause(cause: String)
    ensures
        TranscodeError::NulInPath(cause).text() == "Input path contains a NUL byte"@ + ": "@
            + cause@,
        TranscodeError::WriteOutput(cause).text() == "Failed writing to temp file"@ + ": "@
            + cause@,
{
}

} // verus!
