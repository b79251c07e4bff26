use avcore::error::{CodecError, ConfigField, Error, MismatchField};
use avcore::filter::{AudioFrame, ChannelLayout, FilterGraph, SampleFormat, StageState};
use avcore::time::{TimeBase, Timestamp};

const STEREO: u64 = 0x3;
const FMT_S16: u32 = 1;

fn complete_builder() -> avcore::filter::FilterGraphBuilder {
    FilterGraph::builder()
        .time_base(TimeBase::new(1, 1000))
        .source_channel_layout(ChannelLayout::from_raw(STEREO))
        .source_sample_format(SampleFormat::from_raw(FMT_S16))
        .source_sample_rate(48000)
        .target_channel_layout(ChannelLayout::from_raw(STEREO))
        .target_sample_format(SampleFormat::from_raw(FMT_S16))
        .target_sample_rate(44100)
        .filter_description("anull")
}

fn source_frame() -> AudioFrame {
    AudioFrame::new(
        ChannelLayout::from_raw(STEREO),
        SampleFormat::from_raw(FMT_S16),
        48000,
        TimeBase::new(1, 1000),
    )
}

#[test]
fn builder_reports_first_missing_field() {
    assert_eq!(
        FilterGraph::builder().build().unwrap_err(),
        Error::Config(ConfigField::TimeBase)
    );
    assert_eq!(
        FilterGraph::builder()
            .time_base(TimeBase::new(1, 1000))
            .build()
            .unwrap_err(),
        Error::Config(ConfigField::SourceChannelLayout)
    );
    assert_eq!(
        FilterGraph::builder()
            .time_base(TimeBase::new(1, 1000))
            .source_channel_layout(ChannelLayout::from_raw(STEREO))
            .build()
            .unwrap_err(),
        Error::Config(ConfigField::SourceSampleFormat)
    );
    assert_eq!(
        FilterGraph::builder()
            .time_base(TimeBase::new(1, 1000))
            .source_channel_layout(ChannelLayout::from_raw(STEREO))
            .source_sample_format(SampleFormat::from_raw(FMT_S16))
            .build()
            .unwrap_err(),
        Error::Config(ConfigField::SourceSampleRate)
    );
    assert_eq!(
        FilterGraph::builder()
            .time_base(TimeBase::new(1, 1000))
            .source_channel_layout(ChannelLayout::from_raw(STEREO))
            .source_sample_format(SampleFormat::from_raw(FMT_S16))
            .source_sample_rate(48000)
            .build()
            .unwrap_err(),
        Error::Config(ConfigField::TargetChannelLayout)
    );
    assert_eq!(
        FilterGraph::builder()
            .time_base(TimeBase::new(1, 1000))
            .source_channel_layout(ChannelLayout::from_raw(STEREO))
            .source_sample_format(SampleFormat::from_raw(FMT_S16))
            .source_sample_rate(48000)
            .target_channel_layout(ChannelLayout::from_raw(STEREO))
            .build()
            .unwrap_err(),
        Error::Config(ConfigField::TargetSampleFormat)
    );
    assert_eq!(
        FilterGraph::builder()
            .time_base(TimeBase::new(1, 1000))
            .source_channel_layout(ChannelLayout::from_raw(STEREO))
            .source_sample_format(SampleFormat::from_raw(FMT_S16))
            .source_sample_rate(48000)
            .target_channel_layout(ChannelLayout::from_raw(STEREO))
            .target_sample_format(SampleFormat::from_raw(FMT_S16))
            .build()
            .unwrap_err(),
        Error::Config(ConfigField::TargetSampleRate)
    );
    assert_eq!(
        FilterGraph::builder()
            .time_base(TimeBase::new(1, 1000))
            .source_channel_layout(ChannelLayout::from_raw(STEREO))
            .source_sample_format(SampleFormat::from_raw(FMT_S16))
            .source_sample_rate(48000)
            .target_channel_layout(ChannelLayout::from_raw(STEREO))
            .target_sample_format(SampleFormat::from_raw(FMT_S16))
            .target_sample_rate(44100)
            .build()
            .unwrap_err(),
        Error::Config(ConfigField::FilterDescription)
    );
}

#[test]
fn fresh_stage_is_ready_and_take_reports_empty() {
    let mut graph = complete_builder().build().unwrap();
    assert_eq!(graph.state, StageState::Ready);
    // a take before any push reports empty and is never an error
    assert_eq!(graph.take().unwrap(), None);
    assert_eq!(graph.state, StageState::Ready);
}

#[test]
fn push_then_drain_then_push_again() {
    let mut graph = complete_builder().build().unwrap();
    let frame = source_frame().with_pts(Timestamp::new(500, TimeBase::new(1, 1000)));
    graph.try_push(frame).unwrap();
    assert_eq!(graph.state, StageState::Draining);

    // a second push before draining reports backpressure
    let err = graph.try_push(source_frame()).unwrap_err();
    assert!(err.is_again());
    assert_eq!(err, CodecError::Again);

    // drain: one transformed frame, then empty
    let out = graph.take().unwrap().expect("one frame pending");
    assert_eq!(out.sample_rate(), 44100);
    assert_eq!(out.time_base(), TimeBase::new(1, 44100));
    // 0.5 s is 24000 source ticks (1/48000), then 22050 target ticks
    assert_eq!(out.pts().timestamp(), 22050);
    assert_eq!(graph.take().unwrap(), None);
    assert_eq!(graph.state, StageState::Ready);

    // the stage accepts input again after a complete drain
    graph.try_push(source_frame()).unwrap();
}

#[test]
fn shape_mismatches_are_rejected_locally() {
    let mut graph = complete_builder().build().unwrap();
    let bad_layout = AudioFrame::new(
        ChannelLayout::from_raw(0x4),
        SampleFormat::from_raw(FMT_S16),
        48000,
        TimeBase::new(1, 1000),
    );
    assert_eq!(
        graph.try_push(bad_layout).unwrap_err(),
        CodecError::Other(Error::Mismatch(MismatchField::ChannelLayout))
    );
    let bad_format = AudioFrame::new(
        ChannelLayout::from_raw(STEREO),
        SampleFormat::from_raw(9),
        48000,
        TimeBase::new(1, 1000),
    );
    assert_eq!(
        graph.try_push(bad_format).unwrap_err(),
        CodecError::Other(Error::Mismatch(MismatchField::SampleFormat))
    );
    let bad_rate = AudioFrame::new(
        ChannelLayout::from_raw(STEREO),
        SampleFormat::from_raw(FMT_S16),
        8000,
        TimeBase::new(1, 1000),
    );
    assert_eq!(
        graph.try_push(bad_rate).unwrap_err(),
        CodecError::Other(Error::Mismatch(MismatchField::SampleRate))
    );
    // the stage still accepts a matching frame
    graph.push(source_frame()).unwrap();
}

#[test]
fn flush_then_drain_is_terminal() {
    let mut graph = complete_builder().build().unwrap();
    graph.try_push(source_frame()).unwrap();
    assert!(graph.take().unwrap().is_some());
    assert_eq!(graph.take().unwrap(), None);

    graph.try_flush().unwrap();
    assert_eq!(graph.state, StageState::FlushDraining);
    // flushing again before the drain completes is backpressure
    assert_eq!(graph.try_flush().unwrap_err(), CodecError::Again);
    assert_eq!(graph.take().unwrap(), None);
    assert_eq!(graph.state, StageState::Finished);

    // the stage is terminal: no further push or flush succeeds
    assert_eq!(
        graph.try_push(source_frame()).unwrap_err(),
        CodecError::Other(Error::Flushed)
    );
    assert_eq!(graph.try_flush().unwrap_err(), CodecError::Other(Error::Flushed));
    // and further takes keep reporting empty
    assert_eq!(graph.take().unwrap(), None);
    assert_eq!(graph.state, StageState::Finished);
}

#[test]
fn audio_frame_rescale_is_atomic() {
    let frame = source_frame()
        .with_pts(Timestamp::new(250, TimeBase::new(1, 1000)))
        .with_time_base(TimeBase::new(1, 48000));
    assert_eq!(frame.time_base(), TimeBase::new(1, 48000));
    assert_eq!(frame.pts().timestamp(), 12000);
    // a null presentation timestamp survives re-basing as null
    let null_frame = source_frame().with_time_base(TimeBase::new(1, 48000));
    assert!(null_frame.pts().is_null());
}

#[test]
fn codec_error_helpers() {
    assert!(CodecError::Again.is_again());
    let native = CodecError::from_raw_error_code(-42);
    assert!(!native.is_again());
    assert_eq!(native.unwrap_inner(), Error::Native(-42));
    assert_eq!(Error::from_raw_error_code(-7), Error::Native(-7));
    assert!(!Error::Native(-7).message().is_empty());
}
