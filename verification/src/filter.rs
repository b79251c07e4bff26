//! The processing-stage exchange protocol, shown on an audio filter graph.
//!
//! A stage accepts one frame (or an end-of-input flush), buffers the
//! transformed output, and must be drained with `take` until it reports
//! empty before the next input is accepted. The protocol is strictly
//! alternating: `push -> take* -> push -> take* -> ... -> flush -> take*`.
//! A `take` before any push reports empty and is never an error. Once a
//! flush has been drained the stage is terminal and accepts no further
//! input.
//!
//! The native filter math is outside this layer; the stage models its
//! observable effect on this protocol: every accepted frame is re-based
//! into the stage's declared target time base (one tick per target
//! sample) and queued for `take` in arrival order.

use vstd::prelude::*;

use crate::error::{CodecError, ConfigField, Error, MismatchField};
use crate::time::{TimeBase, Timestamp};

verus! {

/// A channel layout identifier (a native channel-mask value).
#[derive(Clone, Copy, Debug, PartialEq, Eq, Structural)]
pub struct ChannelLayout(pub u64);

impl ChannelLayout {
    /// Create a channel layout from its raw native mask.
    pub fn from_raw(mask: u64) -> (r: ChannelLayout)
        ensures
            r == ChannelLayout(mask),
    {
        ChannelLayout(mask)
    }

    /// Get the raw native mask.
    pub fn into_raw(self) -> (r: u64)
        ensures
            r == self.0,
    {
        self.0
    }
}

/// A sample format identifier (an index into the native format table).
#[derive(Clone, Copy, Debug, PartialEq, Eq, Structural)]
pub struct SampleFormat(pub u32);

impl SampleFormat {
    /// Create a sample format from its raw native identifier.
    pub fn from_raw(id: u32) -> (r: SampleFormat)
        ensures
            r == SampleFormat(id),
    {
        SampleFormat(id)
    }

    /// Get the raw native identifier.
    pub fn into_raw(self) -> (r: u32)
        ensures
            r == self.0,
    {
        self.0
    }
}

/// A decoded audio buffer: its shape (channel layout, sample format,
/// sample rate), its time base and its presentation tick count. The tick
/// value `i64::MIN` is the null sentinel, as for `Timestamp`.
#[derive(Clone, Copy, Debug, PartialEq, Eq, Structural)]
pub struct AudioFrame {
    pub channel_layout: ChannelLayout,
    pub sample_format: SampleFormat,
    pub sample_rate: u32,
    pub time_base: TimeBase,
    pub pts_ticks: i64,
}

impl AudioFrame {
    /// A frame is well-formed when its time base is.
    pub open spec fn wf(self) -> bool {
        self.time_base.wf()
    }

    /// The frame's presentation timestamp as a spec value.
    pub open spec fn spec_pts(self) -> Timestamp {
        Timestamp { ticks: self.pts_ticks, base: self.time_base }
    }

    /// The frame after conversion to another time base: the tick count
    /// and the time base change together, and null stays null.
    pub open spec fn spec_with_time_base(self, tb: TimeBase) -> AudioFrame {
        AudioFrame { time_base: tb, pts_ticks: self.spec_pts().spec_with_time_base(tb).ticks, ..self }
    }

    /// Create a frame of the given shape with a null presentation
    /// timestamp.
    pub fn new(
        channel_layout: ChannelLayout,
        sample_format: SampleFormat,
        sample_rate: u32,
        time_base: TimeBase,
    ) -> (r: AudioFrame)
        requires
            time_base.wf(),
        ensures
            r == (AudioFrame {
                channel_layout,
                sample_format,
                sample_rate,
                time_base,
                pts_ticks: i64::MIN,
            }),
            r.wf(),
    {
        AudioFrame { channel_layout, sample_format, sample_rate, time_base, pts_ticks: i64::MIN }
    }

    /// Get the channel layout.
    pub fn channel_layout(&self) -> (r: ChannelLayout)
        ensures
            r == self.channel_layout,
    {
        self.channel_layout
    }

    /// Get the sample format.
    pub fn sample_format(&self) -> (r: SampleFormat)
        ensures
            r == self.sample_format,
    {
        self.sample_format
    }

    /// Get the sample rate.
    pub fn sample_rate(&self) -> (r: u32)
        ensures
            r == self.sample_rate,
    {
        self.sample_rate
    }

    /// Get the time base.
    pub fn time_base(&self) -> (r: TimeBase)
        ensures
            r == self.time_base,
    {
        self.time_base
    }

    /// Get the presentation timestamp.
    pub fn pts(&self) -> (r: Timestamp)
        requires
            self.wf(),
        ensures
            r == self.spec_pts(),
    {
        Timestamp::new(self.pts_ticks, self.time_base)
    }

    /// Set the presentation timestamp; it is converted into the frame's
    /// own time base first.
    pub fn with_pts(self, pts: Timestamp) -> (r: AudioFrame)
        requires
            self.wf(),
            pts.wf(),
        ensures
            r == (AudioFrame {
                pts_ticks: pts.spec_with_time_base(self.time_base).ticks,
                ..self
            }),
    {
        let rebased: Timestamp = pts.with_time_base(self.time_base);
        AudioFrame { pts_ticks: rebased.timestamp(), ..self }
    }

    /// Convert the frame to another time base, rescaling the presentation
    /// timestamp atomically with the change.
    pub fn with_time_base(self, time_base: TimeBase) -> (r: AudioFrame)
        requires
            self.wf(),
            time_base.wf(),
        ensures
            r == self.spec_with_time_base(time_base),
            r.wf(),
    {
        let rebased: Timestamp = self.pts().with_time_base(time_base);
        AudioFrame { time_base, pts_ticks: rebased.timestamp(), ..self }
    }
}

/// The protocol state of a processing stage.
#[derive(Clone, Copy, Debug, PartialEq, Eq, Structural)]
pub enum StageState {
    /// Accepting input: `push` or `flush` may be called.
    Ready,
    /// Output from a push is pending; only `take` makes progress.
    Draining,
    /// Output from the final flush is pending; only `take` makes progress.
    FlushDraining,
    /// The flush has been drained; the stage accepts no further input.
    Finished,
}

/// The observable protocol state of a stage: its state tag and the
/// buffered output frames in arrival order.
pub struct StageModel {
    pub state: StageState,
    pub pending: Seq<AudioFrame>,
}

/// One protocol step for input: with a shape mismatch the input is
/// rejected locally and nothing changes; otherwise a stage that is
/// `Ready` buffers the transformed frame and starts draining, a draining
/// stage reports backpressure, and a finished stage rejects the input.
pub open spec fn spec_push_step(m: StageModel, shape: Option<MismatchField>, out: AudioFrame) -> (
    StageModel,
    Result<(), CodecError>,
) {
    match shape {
        Some(f) => (m, Err(CodecError::Other(Error::Mismatch(f)))),
        None => match m.state {
            StageState::Ready => (
                StageModel { state: StageState::Draining, pending: m.pending.push(out) },
                Ok(()),
            ),
            StageState::Draining => (m, Err(CodecError::Again)),
            StageState::FlushDraining => (m, Err(CodecError::Again)),
            StageState::Finished => (m, Err(CodecError::Other(Error::Flushed))),
        },
    }
}

/// One protocol step for end-of-input: a `Ready` stage moves to draining
/// its final output, a draining stage reports backpressure, and a
/// finished stage rejects the flush.
pub open spec fn spec_flush_step(m: StageModel) -> (StageModel, Result<(), CodecError>) {
    match m.state {
        StageState::Ready => (StageModel { state: StageState::FlushDraining, ..m }, Ok(())),
        StageState::Draining => (m, Err(CodecError::Again)),
        StageState::FlushDraining => (m, Err(CodecError::Again)),
        StageState::Finished => (m, Err(CodecError::Other(Error::Flushed))),
    }
}

/// The state after one `take`: a buffered frame is removed if any is
/// pending; otherwise an empty drain completes and the stage moves back
/// to `Ready` (after a push) or to `Finished` (after a flush).
pub open spec fn spec_take_step(m: StageModel) -> StageModel {
    if m.pending.len() > 0 {
        StageModel { pending: m.pending.remove(0), ..m }
    } else {
        match m.state {
            StageState::Ready => m,
            StageState::Draining => StageModel { state: StageState::Ready, ..m },
            StageState::FlushDraining => StageModel { state: StageState::Finished, ..m },
            StageState::Finished => m,
        }
    }
}

/// What one `take` returns: the oldest pending frame, or nothing.
pub open spec fn spec_take_out(m: StageModel) -> Option<AudioFrame> {
    if m.pending.len() > 0 {
        Some(m.pending[0])
    } else {
        None
    }
}

/// The state after `n` consecutive `take` calls.
pub open spec fn spec_takes(m: StageModel, n: nat) -> StageModel
    decreases n,
{
    if n == 0 {
        m
    } else {
        spec_takes(spec_take_step(m), (n - 1) as nat)
    }
}

/// Builder for a filter-graph processing stage. Every field is required;
/// `build` fails with a configuration error naming the first missing one.
#[derive(Debug)]
pub struct FilterGraphBuilder {
    pub time_base: Option<TimeBase>,
    pub source_channel_layout: Option<ChannelLayout>,
    pub source_sample_format: Option<SampleFormat>,
    pub source_sample_rate: Option<u32>,
    pub target_channel_layout: Option<ChannelLayout>,
    pub target_sample_format: Option<SampleFormat>,
    pub target_sample_rate: Option<u32>,
    pub filter_description: Option<String>,
}

impl FilterGraphBuilder {
    /// A builder is well-formed when every option that has been set is
    /// usable: time bases are positive rationals and sample rates are
    /// non-zero (one tick per sample must be a valid time base).
    pub open spec fn wf(self) -> bool {
        &&& (self.time_base matches Some(tb) ==> tb.wf())
        &&& (self.source_sample_rate matches Some(r) ==> r >= 1)
        &&& (self.target_sample_rate matches Some(r) ==> r >= 1)
    }

    /// The first required option that is still missing, in the order the
    /// build checks them, or `None` when the configuration is complete.
    pub open spec fn spec_missing_field(self) -> Option<ConfigField> {
        if self.time_base is None {
            Some(ConfigField::TimeBase)
        } else if self.source_channel_layout is None {
            Some(ConfigField::SourceChannelLayout)
        } else if self.source_sample_format is None {
            Some(ConfigField::SourceSampleFormat)
        } else if self.source_sample_rate is None {
            Some(ConfigField::SourceSampleRate)
        } else if self.target_channel_layout is None {
            Some(ConfigField::TargetChannelLayout)
        } else if self.target_sample_format is None {
            Some(ConfigField::TargetSampleFormat)
        } else if self.target_sample_rate is None {
            Some(ConfigField::TargetSampleRate)
        } else if self.filter_description is None {
            Some(ConfigField::FilterDescription)
        } else {
            None
        }
    }

    /// Create a new builder with no options set.
    pub fn new() -> (r: FilterGraphBuilder)
        ensures
            r == (FilterGraphBuilder {
                time_base: None,
                source_channel_layout: None,
                source_sample_format: None,
                source_sample_rate: None,
                target_channel_layout: None,
                target_sample_format: None,
                target_sample_rate: None,
                filter_description: None,
            }),
            r.wf(),
    {
        FilterGraphBuilder {
            time_base: None,
            source_channel_layout: None,
            source_sample_format: None,
            source_sample_rate: None,
            target_channel_layout: None,
            target_sample_format: None,
            target_sample_rate: None,
            filter_description: None,
        }
    }

    /// Set the source time base.
    pub fn time_base(self, time_base: TimeBase) -> (r: FilterGraphBuilder)
        requires
            time_base.wf(),
        ensures
            r == (FilterGraphBuilder { time_base: Some(time_base), ..self }),
    {
        FilterGraphBuilder { time_base: Some(time_base), ..self }
    }

    /// Set the filter description (the transformation to perform).
    pub fn filter_description(self, filter_description: &str) -> (r: FilterGraphBuilder)
        ensures
            r.filter_description matches Some(d) && d@ == filter_description@,
            r == (FilterGraphBuilder { filter_description: r.filter_description, ..self }),
    {
        FilterGraphBuilder { filter_description: Some(filter_description.to_owned()), ..self }
    }

    /// Set the source channel layout.
    pub fn source_channel_layout(self, channel_layout: ChannelLayout) -> (r: FilterGraphBuilder)
        ensures
            r == (FilterGraphBuilder { source_channel_layout: Some(channel_layout), ..self }),
    {
        FilterGraphBuilder { source_channel_layout: Some(channel_layout), ..self }
    }

    /// Set the source sample format.
    pub fn source_sample_format(self, sample_format: SampleFormat) -> (r: FilterGraphBuilder)
        ensures
            r == (FilterGraphBuilder { source_sample_format: Some(sample_format), ..self }),
    {
        FilterGraphBuilder { source_sample_format: Some(sample_format), ..self }
    }

    /// Set the source sample rate.
    pub fn source_sample_rate(self, sample_rate: u32) -> (r: FilterGraphBuilder)
        requires
            sample_rate >= 1,
        ensures
            r == (FilterGraphBuilder { source_sample_rate: Some(sample_rate), ..self }),
    {
        FilterGraphBuilder { source_sample_rate: Some(sample_rate), ..self }
    }

    /// Set the target channel layout.
    pub fn target_channel_layout(self, channel_layout: ChannelLayout) -> (r: FilterGraphBuilder)
        ensures
            r == (FilterGraphBuilder { target_channel_layout: Some(channel_layout), ..self }),
    {
        FilterGraphBuilder { target_channel_layout: Some(channel_layout), ..self }
    }

    /// Set the target sample format.
    pub fn target_sample_format(self, sample_format: SampleFormat) -> (r: FilterGraphBuilder)
        ensures
            r == (FilterGraphBuilder { target_sample_format: Some(sample_format), ..self }),
    {
        FilterGraphBuilder { target_sample_format: Some(sample_format), ..self }
    }

    /// Set the target sample rate.
    pub fn target_sample_rate(self, sample_rate: u32) -> (r: FilterGraphBuilder)
        requires
            sample_rate >= 1,
        ensures
            r == (FilterGraphBuilder { target_sample_rate: Some(sample_rate), ..self }),
    {
        FilterGraphBuilder { target_sample_rate: Some(sample_rate), ..self }
    }

    /// Build the stage. With a complete configuration the stage starts in
    /// `Ready` with nothing pending; otherwise the first missing field is
    /// reported as a configuration error and nothing is built.
    pub fn build(self) -> (r: Result<FilterGraph, Error>)
        requires
            self.wf(),
        ensures
            (self.spec_missing_field() matches Some(f) ==> r == Err::<FilterGraph, Error>(
                Error::Config(f),
            )),
            self.spec_missing_field() is None ==> (r matches Ok(g) && g
                == (FilterGraph {
                state: StageState::Ready,
                pending: g.pending,
                time_base: self.time_base.unwrap(),
                source_channel_layout: self.source_channel_layout.unwrap(),
                source_sample_format: self.source_sample_format.unwrap(),
                source_sample_rate: self.source_sample_rate.unwrap(),
                target_channel_layout: self.target_channel_layout.unwrap(),
                target_sample_format: self.target_sample_format.unwrap(),
                target_sample_rate: self.target_sample_rate.unwrap(),
                filter_description: g.filter_description,
            }) && g.pending@.len() == 0 && g.filter_description@
                == self.filter_description.unwrap()@ && g.wf()),
    {
        let time_base: TimeBase = match self.time_base {
            Some(v) => v,
            None => {
                return Err(Error::Config(ConfigField::TimeBase));
            },
        };
        let source_channel_layout: ChannelLayout = match self.source_channel_layout {
            Some(v) => v,
            None => {
                return Err(Error::Config(ConfigField::SourceChannelLayout));
            },
        };
        let source_sample_format: SampleFormat = match self.source_sample_format {
            Some(v) => v,
            None => {
                return Err(Error::Config(ConfigField::SourceSampleFormat));
            },
        };
        let source_sample_rate: u32 = match self.source_sample_rate {
            Some(v) => v,
            None => {
                return Err(Error::Config(ConfigField::SourceSampleRate));
            },
        };
        let target_channel_layout: ChannelLayout = match self.target_channel_layout {
            Some(v) => v,
            None => {
                return Err(Error::Config(ConfigField::TargetChannelLayout));
            },
        };
        let target_sample_format: SampleFormat = match self.target_sample_format {
            Some(v) => v,
            None => {
                return Err(Error::Config(ConfigField::TargetSampleFormat));
            },
        };
        let target_sample_rate: u32 = match self.target_sample_rate {
            Some(v) => v,
            None => {
                return Err(Error::Config(ConfigField::TargetSampleRate));
            },
        };
        let filter_description: String = match self.filter_description {
            Some(v) => v,
            None => {
                return Err(Error::Config(ConfigField::FilterDescription));
            },
        };
        Ok(
            FilterGraph {
                state: StageState::Ready,
                pending: Vec::new(),
                time_base,
                source_channel_layout,
                source_sample_format,
                source_sample_rate,
                target_channel_layout,
                target_sample_format,
                target_sample_rate,
                filter_description,
            },
        )
    }
}

/// A buffering processing stage (an audio filter graph / resampler)
/// driven by the strictly alternating push/flush/take protocol.
///
/// Output frames carry timestamps re-based into the stage's declared
/// target time base, one tick per target sample.
#[derive(Debug)]
pub struct FilterGraph {
    pub state: StageState,
    pub pending: Vec<AudioFrame>,
    pub time_base: TimeBase,
    pub source_channel_layout: ChannelLayout,
    pub source_sample_format: SampleFormat,
    pub source_sample_rate: u32,
    pub target_channel_layout: ChannelLayout,
    pub target_sample_format: SampleFormat,
    pub target_sample_rate: u32,
    pub filter_description: String,
}

impl FilterGraph {
    /// The stage's observable protocol state.
    pub open spec fn model(self) -> StageModel {
        StageModel { state: self.state, pending: self.pending@ }
    }

    /// The declared target time base: one tick per target sample.
    pub open spec fn spec_target_time_base(self) -> TimeBase {
        TimeBase { num: 1u32, den: self.target_sample_rate }
    }

    /// The declared source time base: one tick per source sample.
    pub open spec fn spec_source_time_base(self) -> TimeBase {
        TimeBase { num: 1u32, den: self.source_sample_rate }
    }

    /// Well-formedness: valid rates and time base, every pending frame
    /// already in the target time base, and nothing pending unless the
    /// stage is draining.
    pub open spec fn wf(self) -> bool {
        &&& self.time_base.wf()
        &&& self.source_sample_rate >= 1
        &&& self.target_sample_rate >= 1
        &&& forall|i: int|
            0 <= i < self.pending@.len() ==> (#[trigger] self.pending@[i]).time_base
                == self.spec_target_time_base()
        &&& (self.state is Ready || self.state is Finished) ==> self.pending@.len() == 0
    }

    /// The stage's configuration, which no protocol operation changes.
    pub open spec fn same_config(self, other: FilterGraph) -> bool {
        &&& self.time_base == other.time_base
        &&& self.source_channel_layout == other.source_channel_layout
        &&& self.source_sample_format == other.source_sample_format
        &&& self.source_sample_rate == other.source_sample_rate
        &&& self.target_channel_layout == other.target_channel_layout
        &&& self.target_sample_format == other.target_sample_format
        &&& self.target_sample_rate == other.target_sample_rate
        &&& self.filter_description == other.filter_description
    }

    /// The part of a frame's shape that fails the stage's local check, if
    /// any: channel layout, then sample format, then sample rate must
    /// exactly match the declared source format.
    pub open spec fn spec_shape_error(self, frame: AudioFrame) -> Option<MismatchField> {
        if frame.channel_layout != self.source_channel_layout {
            Some(MismatchField::ChannelLayout)
        } else if frame.sample_format != self.source_sample_format {
            Some(MismatchField::SampleFormat)
        } else if frame.sample_rate != self.source_sample_rate {
            Some(MismatchField::SampleRate)
        } else {
            None
        }
    }

    /// What an accepted frame looks like when it leaves the stage: the
    /// declared target shape, with the presentation timestamp re-based
    /// first into the source tick base (as pushed to the native graph)
    /// and then into the target tick base (as attached on take).
    pub open spec fn spec_transform(self, frame: AudioFrame) -> AudioFrame {
        AudioFrame {
            channel_layout: self.target_channel_layout,
            sample_format: self.target_sample_format,
            sample_rate: self.target_sample_rate,
            time_base: self.spec_target_time_base(),
            pts_ticks: frame.spec_with_time_base(self.spec_source_time_base()).spec_with_time_base(
                self.spec_target_time_base(),
            ).pts_ticks,
        }
    }

    /// Get a builder for a filter graph.
    pub fn builder() -> (r: FilterGraphBuilder)
        ensures
            r == (FilterGraphBuilder {
                time_base: None,
                source_channel_layout: None,
                source_sample_format: None,
                source_sample_rate: None,
                target_channel_layout: None,
                target_sample_format: None,
                target_sample_rate: None,
                filter_description: None,
            }),
            r.wf(),
    {
        FilterGraphBuilder::new()
    }

    /// Offer a frame to the stage. The frame's shape is checked locally
    /// first; a stage that is draining reports backpressure (`Again`),
    /// and a finished stage rejects the input. On success the transformed
    /// frame is buffered and the stage drains.
    pub fn try_push(&mut self, frame: AudioFrame) -> (r: Result<(), CodecError>)
        requires
            old(self).wf(),
            frame.wf(),
        ensures
            final(self).wf(),
            final(self).same_config(*old(self)),
            final(self).model() == spec_push_step(
                old(self).model(),
                old(self).spec_shape_error(frame),
                old(self).spec_transform(frame),
            ).0,
            r == spec_push_step(
                old(self).model(),
                old(self).spec_shape_error(frame),
                old(self).spec_transform(frame),
            ).1,
    {
        if frame.channel_layout().into_raw() != self.source_channel_layout.into_raw() {
            return Err(CodecError::Other(Error::Mismatch(MismatchField::ChannelLayout)));
        }
        if frame.sample_format().into_raw() != self.source_sample_format.into_raw() {
            return Err(CodecError::Other(Error::Mismatch(MismatchField::SampleFormat)));
        }
        if frame.sample_rate() != self.source_sample_rate {
            return Err(CodecError::Other(Error::Mismatch(MismatchField::SampleRate)));
        }
        match self.state {
            StageState::Ready => {
                let src_tb: TimeBase = TimeBase::new(1, self.source_sample_rate);
                let tgt_tb: TimeBase = TimeBase::new(1, self.target_sample_rate);
                let rebased: AudioFrame = frame.with_time_base(src_tb).with_time_base(tgt_tb);
                let out: AudioFrame = AudioFrame {
                    channel_layout: self.target_channel_layout,
                    sample_format: self.target_sample_format,
                    sample_rate: self.target_sample_rate,
                    time_base: tgt_tb,
                    pts_ticks: rebased.pts_ticks,
                };
                self.pending.push(out);
                self.state = StageState::Draining;
                Ok(())
            },
            StageState::Draining => Err(CodecError::Again),
            StageState::FlushDraining => Err(CodecError::Again),
            StageState::Finished => Err(CodecError::Other(Error::Flushed)),
        }
    }

    /// Offer a frame to a stage known to be accepting input. Shape
    /// mismatches are still reported; the protocol outcomes cannot occur.
    pub fn push(&mut self, frame: AudioFrame) -> (r: Result<(), Error>)
        requires
            old(self).wf(),
            frame.wf(),
            old(self).state is Ready,
        ensures
            final(self).wf(),
            final(self).same_config(*old(self)),
            final(self).model() == spec_push_step(
                old(self).model(),
                old(self).spec_shape_error(frame),
                old(self).spec_transform(frame),
            ).0,
            r matches Err(e) ==> (e matches Error::Mismatch(f) && old(self).spec_shape_error(frame)
                == Some::<MismatchField>(f)),
            r is Ok <==> old(self).spec_shape_error(frame) is None,
    {
        match self.try_push(frame) {
            Ok(()) => Ok(()),
            Err(e) => Err(e.unwrap_inner()),
        }
    }

    /// Signal end-of-input. A draining stage reports backpressure and a
    /// finished stage rejects the flush; otherwise the stage moves to
    /// draining its final output and is terminal once that drain is done.
    pub fn try_flush(&mut self) -> (r: Result<(), CodecError>)
        requires
            old(self).wf(),
        ensures
            final(self).wf(),
            final(self).same_config(*old(self)),
            final(self).model() == spec_flush_step(old(self).model()).0,
            r == spec_flush_step(old(self).model()).1,
    {
        match self.state {
            StageState::Ready => {
                self.state = StageState::FlushDraining;
                Ok(())
            },
            StageState::Draining => Err(CodecError::Again),
            StageState::FlushDraining => Err(CodecError::Again),
            StageState::Finished => Err(CodecError::Other(Error::Flushed)),
        }
    }

    /// Signal end-of-input to a stage known to be accepting input.
    pub fn flush(&mut self) -> (r: Result<(), Error>)
        requires
            old(self).wf(),
            old(self).state is Ready,
        ensures
            final(self).wf(),
            final(self).same_config(*old(self)),
            final(self).model() == spec_flush_step(old(self).model()).0,
            r is Ok,
    {
        match self.try_flush() {
            Ok(()) => Ok(()),
            Err(e) => Err(e.unwrap_inner()),
        }
    }

    /// Retrieve one transformed output frame if available. An empty
    /// result is never an error: it completes the current drain, after
    /// which the stage is `Ready` again (after a push) or `Finished`
    /// (after a flush). A `take` before any input reports empty and
    /// changes nothing.
    pub fn take(&mut self) -> (r: Result<Option<AudioFrame>, Error>)
        requires
            old(self).wf(),
        ensures
            final(self).wf(),
            final(self).same_config(*old(self)),
            final(self).model() == spec_take_step(old(self).model()),
            r == Ok::<Option<AudioFrame>, Error>(spec_take_out(old(self).model())),
    {
        if self.pending.len() > 0 {
            let frame: AudioFrame = self.pending.remove(0);
            Ok(Some(frame))
        } else {
            match self.state {
                StageState::Ready => {},
                StageState::Draining => {
                    self.state = StageState::Ready;
                },
                StageState::FlushDraining => {
                    self.state = StageState::Finished;
                },
                StageState::Finished => {},
            }
            Ok(None)
        }
    }
}

/// Applying `n + 1` takes is one more take after `n` takes.
proof fn lemma_takes_succ(m: StageModel, n: nat)
    ensures
        spec_takes(m, n + 1) == spec_take_step(spec_takes(m, n)),
    decreases n,
{
    assert(spec_takes(m, n + 1) == spec_takes(spec_take_step(m), n));
    if n == 0 {
        assert(spec_takes(spec_take_step(m), 0) == spec_take_step(m));
        assert(spec_takes(m, 0) == m);
    } else {
        lemma_takes_succ(spec_take_step(m), (n - 1) as nat);
        assert(spec_takes(m, n) == spec_takes(spec_take_step(m), (n - 1) as nat));
    }
}

/// A stage that has just been built is `Ready` with nothing pending, so
/// a `take` before any push reports empty and changes nothing.
pub proof fn lemma_take_before_push(m: StageModel)
    requires
        m.state is Ready,
        m.pending.len() == 0,
    ensures
        spec_take_out(m) is None,
        spec_take_step(m) == m,
{
}

/// Backpressure: while a stage is draining, a further `push` or `flush`
/// reports `Again` and changes nothing, whatever the frame.
pub proof fn lemma_backpressure(m: StageModel, out: AudioFrame)
    requires
        m.state is Draining || m.state is FlushDraining,
    ensures
        spec_push_step(m, None, out) == (m, Err::<(), CodecError>(CodecError::Again)),
        spec_flush_step(m) == (m, Err::<(), CodecError>(CodecError::Again)),
{
}

/// Draining terminates: from a draining state, taking once per pending
/// frame leaves the same state with nothing pending, and the next take
/// reports empty and completes the drain — back to `Ready` after a push,
/// to the terminal `Finished` after a flush.
pub proof fn lemma_drain_completes(m: StageModel)
    requires
        m.state is Draining || m.state is FlushDraining,
    ensures
        spec_takes(m, m.pending.len()).state == m.state,
        spec_takes(m, m.pending.len()).pending.len() == 0,
        spec_take_out(spec_takes(m, m.pending.len())) is None,
        spec_takes(m, m.pending.len() + 1).pending.len() == 0,
        m.state is Draining ==> spec_takes(m, m.pending.len() + 1).state is Ready,
        m.state is FlushDraining ==> spec_takes(m, m.pending.len() + 1).state is Finished,
    decreases m.pending.len(),
{
    if m.pending.len() == 0 {
        lemma_takes_succ(m, 0);
    } else {
        lemma_drain_completes(spec_take_step(m));
        lemma_takes_succ(spec_take_step(m), (m.pending.len() - 1) as nat);
        lemma_takes_succ(m, m.pending.len());
    }
}

/// The push/drain cycle, end to end: a matching frame offered to a
/// ready stage is accepted and buffered; a second push before the drain
/// completes reports backpressure; and after one `take` per pending
/// frame plus the one that reports empty, the stage is `Ready` again.
pub proof fn lemma_push_cycle(m: StageModel, out: AudioFrame, out2: AudioFrame)
    requires
        m.state is Ready,
    ensures
        spec_push_step(m, None, out).1 is Ok,
        ({
            let m1 = spec_push_step(m, None, out).0;
            &&& m1.state is Draining
            &&& m1.pending.len() == m.pending.len() + 1
            &&& spec_push_step(m1, None, out2).1 == Err::<(), CodecError>(CodecError::Again)
            &&& spec_takes(m1, m1.pending.len() + 1).state is Ready
            &&& spec_takes(m1, m1.pending.len() + 1).pending.len() == 0
        }),
{
    let m1 = spec_push_step(m, None, out).0;
    lemma_drain_completes(m1);
}

/// The flush/drain cycle, end to end: a ready stage accepts the flush;
/// draining it leaves the stage terminal, and from then on no push ever
/// succeeds again.
pub proof fn lemma_flush_cycle(m: StageModel, out: AudioFrame)
    requires
        m.state is Ready,
    ensures
        spec_flush_step(m).1 is Ok,
        ({
            let m1 = spec_flush_step(m).0;
            let done = spec_takes(m1, m1.pending.len() + 1);
            &&& m1.state is FlushDraining
            &&& done.state is Finished
            &&& done.pending.len() == 0
            &&& spec_push_step(done, None, out).1 == Err::<(), CodecError>(
                CodecError::Other(Error::Flushed),
            )
            &&& spec_flush_step(done).1 == Err::<(), CodecError>(
                CodecError::Other(Error::Flushed),
            )
        }),
{
    let m1 = spec_flush_step(m).0;
    lemma_drain_completes(m1);
}

/// After a flush has been drained the stage is terminal: every further
/// `push` and every further `flush` fails, and a further `take` keeps
/// reporting empty without reviving the stage.
pub proof fn lemma_flush_drain_terminal(m: StageModel, out: AudioFrame)
    requires
        m.state is Finished,
    ensures
        spec_push_step(m, None, out).1 == Err::<(), CodecError>(CodecError::Other(Error::Flushed)),
        spec_push_step(m, None, out).0 == m,
        spec_flush_step(m).1 == Err::<(), CodecError>(CodecError::Other(Error::Flushed)),
        spec_flush_step(m).0 == m,
        m.pending.len() == 0 ==> spec_take_step(m) == m && spec_take_out(m) is None,
{
}

} // verus!

