use spx_transcoder::transcoder::{
    find_english, transcoder, Action, ChannelLayout, Event, Phase, Resource, ReturnCodes, Run,
    SampleFormat, StreamInfo, Transcode, TranscodeError, TranscoderMetadata,
};

const AGAIN: i32 = -11;
const END: i32 = -541478725;

fn start() -> Transcode {
    let (run, action) = transcoder(
        "/in/a.mkv".to_string(),
        ReturnCodes { again: AGAIN, end_of_stream: END },
    );
    assert_eq!(action, Action::CheckPath("/in/a.mkv".to_string()));
    run
}

fn stream(is_audio: bool, language: Option<&str>) -> StreamInfo {
    StreamInfo { is_audio, language: language.map(|l| l.to_string()) }
}

fn reply(run: &mut Transcode, event: Event) -> Action {
    assert!(run.accepts(&event), "{:?} in {:?}", event, run);
    let (next, action) = std::mem::replace(run, start()).step(event);
    *run = next;
    action
}

fn resampler_to_mono_16khz_float(default_channels: Option<i32>) -> Action {
    Action::CreateResampler {
        default_channels,
        layout: ChannelLayout::Mono,
        channels: 1,
        format: SampleFormat::Float32,
        sample_rate: 16000,
    }
}

fn buffer_for(samples: i32) -> Action {
    Action::AllocSamples { channels: 1, samples, format: SampleFormat::Float32 }
}

/// The replies of a run without failures, up to the first packet; each with the next call.
fn prelude() -> Vec<(Event, Action)> {
    vec![
        (Event::Exists(true), Action::ConvertPath("/in/a.mkv".to_string())),
        (Event::Converted(Ok(())), Action::OpenInput),
        (Event::Code(0), Action::Probe),
        (Event::Code(0), Action::ListStreams),
        (Event::Streams(vec![stream(false, None), stream(true, None)]), Action::FindBestStream),
        (Event::Code(1), Action::FindDecoder { stream: 1 }),
        (Event::Present(true), Action::AllocDecoder),
        (Event::Present(true), Action::CopyParameters),
        (Event::Code(0), Action::OpenDecoder),
        (Event::Code(0), Action::ReadLayout),
        (
            Event::Layout { unspecified: false, channels: 2, sample_rate: 44100 },
            resampler_to_mono_16khz_float(None),
        ),
        (
            Event::Code(0),
            Action::InitResampler {
                filter_size: 64,
                phase_shift: 10,
                linear_interp: 0,
                exact_rational: 1,
            },
        ),
        (Event::Code(0), Action::AllocPacket),
        (Event::Present(true), Action::AllocFrame),
        (Event::Present(true), Action::ReadPacket),
    ]
}

fn after(count: usize) -> Transcode {
    let mut run = start();
    for (event, action) in prelude().into_iter().take(count) {
        assert_eq!(reply(&mut run, event), action);
    }
    run
}

fn reading() -> Transcode {
    after(prelude().len())
}

/// Releases everything, and gives the order and the outcome.
fn close(
    run: &mut Transcode,
    first: Action,
) -> (Vec<Resource>, Result<TranscoderMetadata, TranscodeError>) {
    let mut order = Vec::new();
    let mut action = first;
    loop {
        match action {
            Action::Release(resource) => order.push(resource),
            Action::Finish(outcome) => {
                assert_eq!(run.state().phase, Phase::Finished);
                assert!(!run.accepts(&Event::Done));
                return (order, outcome);
            }
            other => panic!("{:?}", other),
        }
        action = reply(run, Event::Done);
    }
}

/// Sends one frame of `samples` through the resampler, which gives `output` samples.
fn frame(run: &mut Transcode, samples: i32, estimate: i32, output: i32) -> Action {
    let action = reply(run, Event::Frame { code: 0, samples });
    assert_eq!(action, Action::CountSamples { input: samples });
    let action = reply(run, Event::Code(estimate));
    assert_eq!(action, buffer_for(estimate));
    let action = reply(run, Event::Buffer { code: 0, present: true });
    assert_eq!(action, Action::Convert { samples: estimate, drain: false });
    reply(run, Event::Code(output))
}

fn send_packet(run: &mut Transcode) {
    let action = reply(run, Event::Packet { code: 0, stream_index: 1 });
    assert_eq!(action, Action::SendPacket);
    assert_eq!(reply(run, Event::Code(0)), Action::ReceiveFrame);
}

#[test]
fn first_english_audio_stream_is_preferred() {
    for tag in ["en", "eng", "english"] {
        let streams = vec![
            stream(false, Some("eng")),
            stream(true, Some("deu")),
            stream(true, None),
            stream(true, Some(tag)),
            stream(true, Some("en")),
        ];
        assert_eq!(find_english(&streams), Some(3));
    }
    for tag in ["", "EN", "Eng", "en-US", "English"] {
        assert_eq!(find_english(&vec![stream(true, Some(tag))]), None);
    }
    assert_eq!(find_english(&vec![]), None);
}

#[test]
fn tagged_stream_is_selected_without_a_search() {
    let mut run = after(4);
    let streams = vec![stream(true, Some("fra")), stream(true, Some("eng"))];
    let action = reply(&mut run, Event::Streams(streams));
    assert_eq!(action, Action::FindDecoder { stream: 1 });
    assert_eq!(run.state().selected, 1);
}

#[test]
fn every_failure_releases_what_was_acquired() {
    let all = [
        Resource::Frame,
        Resource::Packet,
        Resource::Resampler,
        Resource::Decoder,
        Resource::Input,
    ];
    for (count, event, held, error, text) in [
        (
            0,
            Event::Exists(false),
            0,
            TranscodeError::MissingInput,
            "Target file path doesn't exist!",
        ),
        (
            1,
            Event::Converted(Err("nul".to_string())),
            0,
            TranscodeError::NulInPath("nul".to_string()),
            "Input path contains a NUL byte: nul",
        ),
        (
            2,
            Event::Code(-1),
            0,
            TranscodeError::OpenInput,
            "Failed to initialize avformat & open input file!",
        ),
        (3, Event::Code(-1), 1, TranscodeError::FindStreamInfo, "Failed to find stream info!"),
        (
            5,
            Event::Code(-1),
            1,
            TranscodeError::NoAudioStream,
            "Unable to find suitable audio stream!",
        ),
        (
            6,
            Event::Present(false),
            1,
            TranscodeError::NoDecoder,
            "Error finding the proper decoder codec!",
        ),
        (
            7,
            Event::Present(false),
            1,
            TranscodeError::AllocDecoder,
            "Failed to allocate decoder context!",
        ),
        (
            8,
            Event::Code(-1),
            2,
            TranscodeError::CopyParameters,
            "Failed to copy codec parameters for decoder context",
        ),
        (
            9,
            Event::Code(-1),
            2,
            TranscodeError::OpenDecoder,
            "Failed to initalize decoder context!",
        ),
        (
            10,
            Event::Layout { unspecified: true, channels: 0, sample_rate: 8000 },
            2,
            TranscodeError::BadChannelCount,
            "Invalid number of channels in the target file!",
        ),
        (
            11,
            Event::Code(-1),
            2,
            TranscodeError::CreateResampler,
            "Failed to create the SWR context!",
        ),
        (
            12,
            Event::Code(-1),
            3,
            TranscodeError::InitResampler,
            "Failed to initialize SWR context!",
        ),
        (
            13,
            Event::Present(false),
            3,
            TranscodeError::AllocPacket,
            "Failed to allocate packet context!",
        ),
        (
            14,
            Event::Present(false),
            4,
            TranscodeError::AllocFrame,
            "Failed to allocate frame context!",
        ),
    ] {
        let mut run = after(count);
        let action = reply(&mut run, event);
        let (order, outcome) = close(&mut run, action);
        assert_eq!(order, all[5 - held..].to_vec());
        assert_eq!(error.message(), text);
        assert_eq!(outcome, Err(error));
    }
}

#[test]
fn unspecified_layout_takes_the_default_for_its_channels() {
    let mut run = after(10);
    let event = Event::Layout { unspecified: true, channels: 6, sample_rate: 8000 };
    assert_eq!(
        reply(&mut run, event),
        resampler_to_mono_16khz_float(Some(6))
    );
}

#[test]
fn specified_layout_needs_no_channel_count() {
    let mut run = after(10);
    let event = Event::Layout { unspecified: false, channels: 0, sample_rate: 8000 };
    assert_eq!(
        reply(&mut run, event),
        resampler_to_mono_16khz_float(None)
    );
}

#[test]
fn packets_of_other_streams_are_skipped() {
    let mut run = reading();
    let action = reply(&mut run, Event::Packet { code: 0, stream_index: 0 });
    assert_eq!(action, Action::UnrefPacket);
    assert_eq!(reply(&mut run, Event::Done), Action::ReadPacket);
}

#[test]
fn frames_are_written_and_counted_and_the_drained_rest_is_only_written() {
    let mut run = reading();
    send_packet(&mut run);
    assert_eq!(frame(&mut run, 1024, 400, 372), Action::Write { bytes: 1488 });
    let action = reply(&mut run, Event::Written(Ok(())));
    assert_eq!(action, Action::Release(Resource::SampleBuffer));
    assert_eq!(reply(&mut run, Event::Done), Action::UnrefFrame);
    assert_eq!(reply(&mut run, Event::Done), Action::ReceiveFrame);
    assert_eq!(frame(&mut run, 1024, 400, 10), Action::Write { bytes: 40 });
    reply(&mut run, Event::Written(Ok(())));
    reply(&mut run, Event::Done);
    reply(&mut run, Event::Done);
    let action = reply(&mut run, Event::Frame { code: AGAIN, samples: 0 });
    assert_eq!(action, Action::UnrefPacket);
    assert_eq!(reply(&mut run, Event::Done), Action::ReadPacket);

    let action = reply(&mut run, Event::Packet { code: END, stream_index: 1 });
    assert_eq!(action, Action::CountSamples { input: 0 });
    assert_eq!(reply(&mut run, Event::Code(16)), buffer_for(16));
    let action = reply(&mut run, Event::Buffer { code: 0, present: true });
    assert_eq!(action, Action::Convert { samples: 16, drain: true });
    assert_eq!(reply(&mut run, Event::Code(5)), Action::Write { bytes: 20 });
    let action = reply(&mut run, Event::Written(Ok(())));
    assert_eq!(action, Action::Release(Resource::SampleBuffer));
    assert_eq!(reply(&mut run, Event::Done), Action::CountSamples { input: 0 });
    let action = reply(&mut run, Event::Code(0));
    let (order, outcome) = close(&mut run, action);
    assert_eq!(
        order,
        vec![
            Resource::Frame,
            Resource::Packet,
            Resource::Resampler,
            Resource::Decoder,
            Resource::Input
        ]
    );
    assert_eq!(
        outcome,
        Ok(TranscoderMetadata { input_sample_rate: 44100, resampled_file_size: 1528 })
    );
}

#[test]
fn draining_stops_when_nothing_comes_out() {
    let mut run = reading();
    reply(&mut run, Event::Packet { code: -1, stream_index: 0 });
    reply(&mut run, Event::Code(16));
    reply(&mut run, Event::Buffer { code: 0, present: true });
    let action = reply(&mut run, Event::Code(0));
    let (order, outcome) = close(&mut run, action);
    assert_eq!(order[0], Resource::SampleBuffer);
    assert_eq!(order.len(), 6);
    assert_eq!(
        outcome,
        Ok(TranscoderMetadata { input_sample_rate: 44100, resampled_file_size: 0 })
    );
}

#[test]
fn draining_tolerates_a_failed_estimate() {
    let mut run = reading();
    reply(&mut run, Event::Packet { code: -1, stream_index: 0 });
    let action = reply(&mut run, Event::Code(-22));
    assert!(close(&mut run, action).1.is_ok());
}

#[test]
fn conversion_without_output_writes_nothing() {
    let mut run = reading();
    send_packet(&mut run);
    let action = frame(&mut run, 8, 8, 0);
    assert_eq!(action, Action::Release(Resource::SampleBuffer));
    assert_eq!(reply(&mut run, Event::Done), Action::UnrefFrame);
    assert_eq!(run.state().total_bytes, 0);
}

#[test]
fn full_decoder_is_no_failure() {
    let mut run = reading();
    reply(&mut run, Event::Packet { code: 0, stream_index: 1 });
    assert_eq!(reply(&mut run, Event::Code(AGAIN)), Action::ReceiveFrame);
    let action = reply(&mut run, Event::Frame { code: END, samples: 0 });
    assert_eq!(action, Action::UnrefPacket);
}

#[test]
fn failures_while_decoding_end_the_run() {
    let mut run = reading();
    reply(&mut run, Event::Packet { code: 0, stream_index: 1 });
    let action = reply(&mut run, Event::Code(-22));
    let (order, outcome) = close(&mut run, action);
    assert_eq!(order.len(), 5);
    let error = outcome.unwrap_err();
    assert_eq!(error, TranscodeError::SendPacket);
    assert_eq!(error.message(), "Error transferring packets to decoder context!");

    let mut run = reading();
    send_packet(&mut run);
    let action = reply(&mut run, Event::Frame { code: -22, samples: 0 });
    let error = close(&mut run, action).1.unwrap_err();
    assert_eq!(error, TranscodeError::ReceiveFrame);
    assert_eq!(error.message(), "Error fetching decoded frames from decoder!");

    let mut run = reading();
    send_packet(&mut run);
    reply(&mut run, Event::Frame { code: 0, samples: 9 });
    let action = reply(&mut run, Event::Code(-1));
    let error = close(&mut run, action).1.unwrap_err();
    assert_eq!(error, TranscodeError::CountSamples);
    assert_eq!(error.message(), "Failed to output sample counts");

    for event in [
        Event::Buffer { code: -12, present: true },
        Event::Buffer { code: 0, present: false },
    ] {
        let mut run = reading();
        send_packet(&mut run);
        reply(&mut run, Event::Frame { code: 0, samples: 9 });
        reply(&mut run, Event::Code(9));
        let action = reply(&mut run, event);
        let (order, outcome) = close(&mut run, action);
        assert_eq!(order.len(), 5);
        let error = outcome.unwrap_err();
        assert_eq!(error, TranscodeError::AllocSamples);
        assert_eq!(error.message(), "Failed to allocate output sample buffer");
    }

    let mut run = reading();
    send_packet(&mut run);
    frame(&mut run, 9, 9, 9);
    let action = reply(&mut run, Event::Written(Err("full".to_string())));
    let (order, outcome) = close(&mut run, action);
    assert_eq!(order.len(), 6);
    assert_eq!(order[0], Resource::SampleBuffer);
    let error = outcome.unwrap_err();
    assert_eq!(error, TranscodeError::WriteOutput("full".to_string()));
    assert_eq!(error.message(), "Failed writing to temp file: full");
}

#[test]
fn negative_sample_rate_is_reported_as_it_is_cast() {
    let mut run = after(10);
    reply(&mut run, Event::Layout { unspecified: false, channels: 1, sample_rate: -1 });
    for event in [Event::Code(0), Event::Code(0), Event::Present(true), Event::Present(true)] {
        reply(&mut run, event);
    }
    reply(&mut run, Event::Packet { code: -1, stream_index: 0 });
    let action = reply(&mut run, Event::Code(0));
    let metadata = close(&mut run, action).1.unwrap();
    assert_eq!(metadata.input_sample_rate, -1i32 as usize);
}

#[test]
fn run_accepts_only_the_awaited_reply() {
    let run = start();
    assert!(run.accepts(&Event::Exists(true)));
    for event in [
        Event::Converted(Ok(())),
        Event::Code(0),
        Event::Present(true),
        Event::Streams(vec![]),
        Event::Packet { code: 0, stream_index: 0 },
        Event::Frame { code: 0, samples: 0 },
        Event::Buffer { code: 0, present: true },
        Event::Written(Ok(())),
        Event::Done,
    ] {
        assert!(!run.accepts(&event));
    }
}

#[test]
fn tally_beyond_its_type_is_not_accepted() {
    let run = Run {
        input_file_path: "/in/a.mkv".to_string(),
        codes: ReturnCodes { again: AGAIN, end_of_stream: END },
        phase: Phase::Writing { bytes: 36, drain: false },
        selected: 1,
        sample_rate: 44100,
        total_bytes: u64::MAX - 35,
        outcome: None,
    };
    assert!(!run.accepts(&Event::Written(Ok(()))));
    assert!(run.accepts(&Event::Written(Err(String::new()))));
}
