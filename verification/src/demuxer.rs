//! The demultiplexer: reads a container, discovers its streams, yields
//! packets in container order and supports seeking.
//!
//! The native container parsing is outside this layer. The demultiplexer
//! models its observable behaviour over a discovered container: the
//! stream descriptors, the interleaved packet sequence (non-decreasing in
//! presentation microseconds and in byte position) and a read cursor.
//! Discard policies filter packets before they are handed out; seeking
//! repositions the cursor; end-of-stream is an empty result, never an
//! error.

use vstd::prelude::*;

use crate::error::Error;
use crate::packet::Packet;
use crate::stream::{spec_keeps, spec_lookup, Discard, Stream};
use crate::time::{
    spec_clamp_ticks, spec_microseconds, spec_rescale, TimeBase, Timestamp,
};

verus! {

/// The unit a seek target is expressed in.
#[derive(Clone, Copy, Debug, PartialEq, Eq, Structural)]
pub enum SeekType {
    /// A presentation time.
    Time,
    /// A byte offset in the container.
    Byte,
    /// A frame (packet) index.
    Frame,
}

impl SeekType {
    /// Get the native raw representation.
    pub fn into_raw(self) -> (r: i32)
        ensures
            r == match self {
                SeekType::Time => 0i32,
                SeekType::Byte => 1i32,
                SeekType::Frame => 2i32,
            },
    {
        match self {
            SeekType::Time => 0,
            SeekType::Byte => 1,
            SeekType::Frame => 2,
        }
    }
}

/// The search direction used when a stream cannot seek exactly to the
/// requested target point.
#[derive(Clone, Copy, Debug, PartialEq, Eq, Structural)]
pub enum SeekTarget {
    /// Seek at least to the requested target: if it cannot be met, move
    /// forward to the next possible seek target.
    From,
    /// Seek at most to the requested target: if it cannot be met, move
    /// backward to the previous possible seek target.
    UpTo,
    /// Force seeking to the requested target, even for containers that
    /// only support coarse seeking.
    Precise,
}

impl SeekTarget {
    /// Get the native raw representation.
    pub fn into_raw(self) -> (r: i32)
        ensures
            r == match self {
                SeekTarget::From => 0i32,
                SeekTarget::UpTo => 1i32,
                SeekTarget::Precise => 2i32,
            },
    {
        match self {
            SeekTarget::From => 0,
            SeekTarget::UpTo => 1,
            SeekTarget::Precise => 2,
        }
    }
}

/// A container input format, identified by name. Looking a format up in
/// the native format table happens outside this layer; the value itself
/// is a plain tag.
#[derive(Debug)]
pub struct InputFormat {
    pub name: String,
}

impl InputFormat {
    /// Create a format tag with the given name.
    pub fn with_name(name: &str) -> (r: InputFormat)
        ensures
            r.name@ == name@,
    {
        InputFormat { name: name.to_owned() }
    }

    /// The format's name.
    pub fn name(&self) -> (r: &str)
        ensures
            r@ == self.name@,
    {
        self.name.as_str()
    }
}

/// A packet's presentation time in whole microseconds (clamped to the
/// non-null tick range, as `as_micros` returns it).
pub open spec fn spec_pkt_micros(p: Packet) -> int {
    spec_clamp_ticks(spec_rescale(p.pts.ticks as int, p.pts.base, spec_microseconds()))
}

/// The first packet index at or after `from` whose packet survives its
/// stream's discard policy, or `None` if no such packet remains.
pub open spec fn spec_next_kept(streams: Seq<Stream>, packets: Seq<Packet>, from: int) -> Option<
    int,
>
    decreases packets.len() - from,
{
    if from < 0 || from >= packets.len() {
        None
    } else if spec_keeps(streams[packets[from].stream_index as int].discard, packets[from].key) {
        Some(from)
    } else {
        spec_next_kept(streams, packets, from + 1)
    }
}

/// The first packet index at or after `from` that is at or after time
/// `t` (in microseconds), restricted to keyframes when `keys_only`;
/// `packets.len()` if none remains.
pub open spec fn spec_seek_fwd(packets: Seq<Packet>, t: int, keys_only: bool, from: int) -> int
    decreases packets.len() - from,
{
    if from < 0 || from >= packets.len() {
        packets.len() as int
    } else if (packets[from].key || !keys_only) && spec_pkt_micros(packets[from]) >= t {
        from
    } else {
        spec_seek_fwd(packets, t, keys_only, from + 1)
    }
}

/// The last keyframe index below `upto` at or before time `t` (in
/// microseconds); 0 if none exists.
pub open spec fn spec_seek_back(packets: Seq<Packet>, t: int, upto: int) -> int
    decreases upto,
{
    if upto <= 0 {
        0
    } else if packets[upto - 1].key && spec_pkt_micros(packets[upto - 1]) <= t {
        upto - 1
    } else {
        spec_seek_back(packets, t, upto - 1)
    }
}

/// The first packet index at or after `from` whose byte position is at
/// or after `offset`; `packets.len()` if none remains.
pub open spec fn spec_seek_byte(packets: Seq<Packet>, offset: int, from: int) -> int
    decreases packets.len() - from,
{
    if from < 0 || from >= packets.len() {
        packets.len() as int
    } else if packets[from].position >= offset {
        from
    } else {
        spec_seek_byte(packets, offset, from + 1)
    }
}

/// Whether a packet should survive its stream's discard policy.
fn keeps(d: Discard, key: bool) -> (r: bool)
    ensures
        r == spec_keeps(d, key),
{
    match d {
        Discard::All => false,
        Discard::NonKey => key,
        _ => true,
    }
}

/// A demultiplexer over a discovered container: stream descriptors, the
/// container's interleaved packet sequence, a read cursor, and the
/// options and global metadata attached to it.
#[derive(Debug)]
pub struct Demuxer {
    pub streams: Vec<Stream>,
    pub packets: Vec<Packet>,
    pub cursor: usize,
    pub options: Vec<(String, String)>,
    pub metadata: Vec<(String, String)>,
}

impl Demuxer {
    /// The container rules: every stream descriptor is well-formed and
    /// sits at its own index; every packet is well-formed, refers to an
    /// existing stream and carries that stream's time base; packets come
    /// in interleaved container order, non-decreasing both in
    /// presentation microseconds and in byte position; and the read
    /// cursor stays within the sequence.
    pub open spec fn wf(self) -> bool {
        &&& self.packets@.len() <= i64::MAX
        &&& forall|s: int|
            0 <= s < self.streams@.len() ==> (#[trigger] self.streams@[s]).wf()
                && self.streams@[s].index == s
        &&& forall|i: int|
            0 <= i < self.packets@.len() ==> (#[trigger] self.packets@[i]).wf()
                && self.packets@[i].stream_index < self.streams@.len() && self.packets@[i].pts.base
                == self.streams@[self.packets@[i].stream_index as int].time_base
        &&& forall|i: int, j: int|
            #![trigger spec_pkt_micros(self.packets@[i]), spec_pkt_micros(self.packets@[j])]
            0 <= i && i <= j && j < self.packets@.len() ==> spec_pkt_micros(self.packets@[i])
                <= spec_pkt_micros(self.packets@[j])
        &&& forall|i: int, j: int|
            #![trigger self.packets@[i].position, self.packets@[j].position]
            0 <= i && i <= j && j < self.packets@.len() ==> self.packets@[i].position
                <= self.packets@[j].position
        &&& self.cursor <= self.packets@.len()
    }

    /// Set a demuxer option.
    pub fn set_option(&mut self, name: &str, value: &str) -> (r: Result<(), Error>)
        ensures
            final(self).options@.len() == old(self).options@.len() + 1,
            final(self).options@.last().0@ == name@,
            final(self).options@.last().1@ == value@,
            *final(self) == (Demuxer { options: final(self).options, ..*old(self) }),
            r is Ok,
    {
        self.options.push((name.to_owned(), value.to_owned()));
        Ok(())
    }

    /// Take the next packet that survives the discard policies, or
    /// `None` at end of stream. End of stream is not an error.
    pub fn take(&mut self) -> (r: Result<Option<Packet>, Error>)
        requires
            old(self).wf(),
        ensures
            final(self).wf(),
            *final(self) == (Demuxer { cursor: final(self).cursor, ..*old(self) }),
            match spec_next_kept(old(self).streams@, old(self).packets@, old(self).cursor as int) {
                Some(i) => final(self).cursor == i + 1 && (r matches Ok(p) && p matches Some(pkt)
                    && pkt@ == old(self).packets@[i]@),
                None => final(self).cursor == old(self).packets@.len() && (r matches Ok(p)
                    && p is None),
            },
    {
        while self.cursor < self.packets.len()
            invariant
                self.wf(),
                spec_next_kept(self.streams@, self.packets@, old(self).cursor as int)
                    == spec_next_kept(self.streams@, self.packets@, self.cursor as int),
                self.streams == old(self).streams,
                self.packets == old(self).packets,
                self.options == old(self).options,
                self.metadata == old(self).metadata,
                self.cursor >= old(self).cursor,
            decreases self.packets@.len() - self.cursor,
        {
            let pkt_stream: usize = self.packets[self.cursor].stream_index;
            let discard: Discard = self.streams[pkt_stream].discard;
            let key: bool = self.packets[self.cursor].key;
            if keeps(discard, key) {
                let pkt: Packet = self.packets[self.cursor].clone();
                self.cursor = self.cursor + 1;
                return Ok(Some(pkt));
            }
            self.cursor = self.cursor + 1;
        }
        Ok(None)
    }

    /// Get the streams.
    ///
    /// These are potentially missing some information until a stream
    /// info pass has run; see `find_stream_info`.
    pub fn streams(&self) -> (r: &Vec<Stream>)
        ensures
            r == &self.streams,
    {
        &self.streams
    }

    /// Set the discard policies so that packets come only from the
    /// stream with the given index: that stream drops nothing beyond the
    /// default, every other stream drops everything.
    pub fn read_single_stream(&mut self, stream_index: usize)
        requires
            old(self).wf(),
        ensures
            final(self).wf(),
            *final(self) == (Demuxer { streams: final(self).streams, ..*old(self) }),
            final(self).streams@.len() == old(self).streams@.len(),
            forall|i: int|
                0 <= i < old(self).streams@.len() ==> final(self).streams@[i] == (Stream {
                    discard: if old(self).streams@[i].index == stream_index {
                        Discard::Standard
                    } else {
                        Discard::All
                    },
                    ..old(self).streams@[i]
                }),
    {
        let n: usize = self.streams.len();
        let mut i: usize = 0;
        while i < n
            invariant
                n == self.streams@.len(),
                i <= n,
                self.packets == old(self).packets,
                self.options == old(self).options,
                self.metadata == old(self).metadata,
                self.cursor == old(self).cursor,
                self.streams@.len() == old(self).streams@.len(),
                forall|j: int|
                    0 <= j < i ==> self.streams@[j] == (Stream {
                        discard: if old(self).streams@[j].index == stream_index {
                            Discard::Standard
                        } else {
                            Discard::All
                        },
                        ..old(self).streams@[j]
                    }),
                forall|j: int| i <= j < n ==> self.streams@[j] == old(self).streams@[j],
            decreases n - i,
        {
            if self.streams[i].index() == stream_index {
                self.streams[i].set_discard(Discard::Standard);
            } else {
                self.streams[i].set_discard(Discard::All);
            }
            i = i + 1;
        }
    }

    /// Set the discard policies so that packets come only from the
    /// streams whose indexes are listed.
    pub fn enable_streams(&mut self, enabled_streams: &[usize])
        requires
            old(self).wf(),
        ensures
            final(self).wf(),
            *final(self) == (Demuxer { streams: final(self).streams, ..*old(self) }),
            final(self).streams@.len() == old(self).streams@.len(),
            forall|i: int|
                0 <= i < old(self).streams@.len() ==> final(self).streams@[i] == (Stream {
                    discard: if enabled_streams@.contains(old(self).streams@[i].index) {
                        Discard::Standard
                    } else {
                        Discard::All
                    },
                    ..old(self).streams@[i]
                }),
    {
        let n: usize = self.streams.len();
        let mut i: usize = 0;
        while i < n
            invariant
                n == self.streams@.len(),
                i <= n,
                self.packets == old(self).packets,
                self.options == old(self).options,
                self.metadata == old(self).metadata,
                self.cursor == old(self).cursor,
                self.streams@.len() == old(self).streams@.len(),
                forall|j: int|
                    0 <= j < i ==> self.streams@[j] == (Stream {
                        discard: if enabled_streams@.contains(old(self).streams@[j].index) {
                            Discard::Standard
                        } else {
                            Discard::All
                        },
                        ..old(self).streams@[j]
                    }),
                forall|j: int| i <= j < n ==> self.streams@[j] == old(self).streams@[j],
            decreases n - i,
        {
            if contains_index(enabled_streams, self.streams[i].index()) {
                self.streams[i].set_discard(Discard::Standard);
            } else {
                self.streams[i].set_discard(Discard::All);
            }
            i = i + 1;
        }
    }

    /// Reset the discard policies so that packets come from every
    /// stream.
    pub fn read_all_streams(&mut self)
        requires
            old(self).wf(),
        ensures
            final(self).wf(),
            *final(self) == (Demuxer { streams: final(self).streams, ..*old(self) }),
            final(self).streams@.len() == old(self).streams@.len(),
            forall|i: int|
                0 <= i < old(self).streams@.len() ==> final(self).streams@[i] == (Stream {
                    discard: Discard::Standard,
                    ..old(self).streams@[i]
                }),
    {
        let n: usize = self.streams.len();
        let mut i: usize = 0;
        while i < n
            invariant
                n == self.streams@.len(),
                i <= n,
                self.packets == old(self).packets,
                self.options == old(self).options,
                self.metadata == old(self).metadata,
                self.cursor == old(self).cursor,
                self.streams@.len() == old(self).streams@.len(),
                forall|j: int|
                    0 <= j < i ==> self.streams@[j] == (Stream {
                        discard: Discard::Standard,
                        ..old(self).streams@[j]
                    }),
                forall|j: int| i <= j < n ==> self.streams@[j] == old(self).streams@[j],
            decreases n - i,
        {
            self.streams[i].set_discard(Discard::Standard);
            i = i + 1;
        }
    }

    /// Get one global metadata entry, or `None` when the key is unknown.
    pub fn get_metadata(&self, key: &str) -> (r: Option<String>)
        ensures
            r == spec_lookup(self.metadata@, key@),
    {
        crate::stream::lookup_metadata(&self.metadata, key)
    }

    /// Seek to a specific timestamp in the container. A null timestamp
    /// cannot be seeked to and is rejected.
    pub fn seek_to_timestamp(&mut self, timestamp: &Timestamp, seek_target: SeekTarget) -> (r:
        Result<(), Error>)
        requires
            old(self).wf(),
            timestamp.wf(),
        ensures
            final(self).wf(),
            *final(self) == (Demuxer { cursor: final(self).cursor, ..*old(self) }),
            timestamp.spec_is_null() ==> r == Err::<(), Error>(Error::NullTimestamp)
                && final(self).cursor == old(self).cursor,
            !timestamp.spec_is_null() ==> r is Ok && final(self).cursor == spec_seek_cursor(
                old(self).packets@,
                timestamp.spec_with_time_base(spec_microseconds()).ticks as int,
                SeekType::Time,
                seek_target,
            ),
    {
        let micros: i64 = match timestamp.as_micros() {
            Some(v) => v,
            None => {
                return Err(Error::NullTimestamp);
            },
        };
        self.seek(micros, SeekType::Time, seek_target)
    }

    /// Seek to a specific frame (packet) index in the container.
    pub fn seek_to_frame(&mut self, frame: u64, seek_target: SeekTarget) -> (r: Result<(), Error>)
        requires
            old(self).wf(),
            frame <= i64::MAX,
        ensures
            final(self).wf(),
            *final(self) == (Demuxer { cursor: final(self).cursor, ..*old(self) }),
            r is Ok,
            final(self).cursor == spec_seek_cursor(
                old(self).packets@,
                frame as int,
                SeekType::Frame,
                seek_target,
            ),
    {
        self.seek(frame as i64, SeekType::Frame, seek_target)
    }

    /// Seek to a specific byte offset in the container. Byte seeks are
    /// always precise, since direction hints are unsupported for that
    /// unit.
    pub fn seek_to_byte(&mut self, offset: u64) -> (r: Result<(), Error>)
        requires
            old(self).wf(),
            offset <= i64::MAX,
        ensures
            final(self).wf(),
            *final(self) == (Demuxer { cursor: final(self).cursor, ..*old(self) }),
            r is Ok,
            final(self).cursor == spec_seek_cursor(
                old(self).packets@,
                offset as int,
                SeekType::Byte,
                SeekTarget::Precise,
            ),
    {
        // byte seeks force precise mode; the direction hint is ignored
        // for this unit
        self.seek(offset as i64, SeekType::Byte, SeekTarget::Precise)
    }

    /// Reposition the read cursor. Seeking does not reset the discovered
    /// stream descriptors.
    fn seek(&mut self, target_position: i64, seek_by: SeekType, seek_target: SeekTarget) -> (r:
        Result<(), Error>)
        requires
            old(self).wf(),
            !(seek_by is Time) ==> target_position >= 0,
        ensures
            final(self).wf(),
            *final(self) == (Demuxer { cursor: final(self).cursor, ..*old(self) }),
            r is Ok,
            final(self).cursor == spec_seek_cursor(
                old(self).packets@,
                target_position as int,
                seek_by,
                seek_target,
            ),
    {
        let new_cursor: usize = match seek_by {
            SeekType::Time => match seek_target {
                SeekTarget::From => seek_forward(&self.packets, target_position, true),
                SeekTarget::UpTo => seek_backward(&self.packets, target_position),
                SeekTarget::Precise => seek_forward(&self.packets, target_position, false),
            },
            SeekType::Byte => seek_byte_position(&self.packets, target_position),
            SeekType::Frame => {
                let n: usize = self.packets.len();
                if target_position as u64 <= n as u64 {
                    target_position as usize
                } else {
                    n
                }
            },
        };
        proof {
            lemma_seek_fwd_in_range(self.packets@, target_position as int, true, 0);
            lemma_seek_fwd_in_range(self.packets@, target_position as int, false, 0);
            lemma_seek_back_in_range(self.packets@, target_position as int, self.packets@.len() as int);
            lemma_seek_byte_in_range(self.packets@, target_position as int, 0);
        }
        self.cursor = new_cursor;
        Ok(())
    }

    /// The duration of the container: the presentation time of its last
    /// packet in microseconds, or null for an empty container.
    pub fn duration(&self) -> (r: Timestamp)
        requires
            self.wf(),
        ensures
            self.packets@.len() == 0 ==> r.spec_is_null(),
            self.packets@.len() > 0 ==> r == (Timestamp {
                ticks: spec_pkt_micros(self.packets@.last()) as i64,
                base: spec_microseconds(),
            }),
            r.base == spec_microseconds(),
    {
        let n: usize = self.packets.len();
        if n == 0 {
            Timestamp::null()
        } else {
            match self.packets[n - 1].pts().as_micros() {
                Some(v) => Timestamp::new(v, TimeBase::microseconds()),
                None => {
                    proof {
                        assert(false);
                    }
                    Timestamp::null()
                },
            }
        }
    }

    /// The frame rate the engine would guess for one stream, derived
    /// from the stream's raw frame-rate field: the raw rational with a
    /// zero denominator replaced by one, or nothing when the numerator
    /// is zero. Fails on a stream index outside the container.
    pub fn guess_frame_rate(&self, stream_index: usize) -> (r: Result<TimeBase, Error>)
        requires
            self.wf(),
        ensures
            stream_index >= self.streams@.len() ==> r == Err::<TimeBase, Error>(
                Error::InvalidStreamIndex,
            ),
            stream_index < self.streams@.len() ==> r == match spec_guess_frame_rate(
                self.streams@[stream_index as int],
            ) {
                Some(g) => Ok::<TimeBase, Error>(g),
                None => Err::<TimeBase, Error>(Error::InvalidData),
            },
    {
        if stream_index >= self.streams.len() {
            return Err(Error::InvalidStreamIndex);
        }
        guess_frame_rate_of(&self.streams[stream_index])
    }

    /// Wrap the demultiplexer with the stream information discovered so
    /// far, from container headers only: fast, but some fields may be
    /// absent or approximate. Use `find_stream_info` for a thorough
    /// search.
    pub fn with_basic_stream_info(self) -> (r: Result<
        DemuxerWithStreamInfo,
        (Demuxer, Error),
    >)
        requires
            self.wf(),
        ensures
            r matches Ok(d) && d.inner == self,
    {
        Ok(DemuxerWithStreamInfo { inner: self })
    }

    /// Run a deeper analysis pass to fill in accurate per-stream
    /// metadata: each stream's packet count, first presentation tick and
    /// tick span are learned from the packets within the analysis
    /// window. `max_analyze_duration` bounds the window in microseconds
    /// after the first packet; absent or zero means unbounded. On
    /// failure the demultiplexer itself is handed back alongside the
    /// error, so the caller can retry or fall back to basic discovery.
    pub fn find_stream_info(self, max_analyze_duration: Option<u64>) -> (r: Result<
        DemuxerWithStreamInfo,
        (Demuxer, Error),
    >)
        requires
            self.wf(),
        ensures
            r is Ok,
            r matches Ok(d) ==> {
                &&& d.inner.wf()
                &&& d.inner.packets == self.packets
                &&& d.inner.cursor == self.cursor
                &&& d.inner.options == self.options
                &&& d.inner.metadata == self.metadata
                &&& d.inner.streams@.len() == self.streams@.len()
                &&& forall|i: int|
                    0 <= i < self.streams@.len() ==> d.inner.streams@[i] == spec_refined_stream(
                        self.streams@[i],
                        self.packets@,
                        spec_analyze_end(self.packets@, max_analyze_duration),
                    )
            },
    {
        let mut dm: Demuxer = self;
        let ghost orig: Demuxer = dm;
        let k: usize = compute_analyze_end(&dm.packets, max_analyze_duration);
        let ns: usize = dm.streams.len();
        let mut s: usize = 0;
        while s < ns
            invariant
                ns == dm.streams@.len(),
                orig.wf(),
                s <= ns,
                k == spec_analyze_end(orig.packets@, max_analyze_duration),
                k <= orig.packets@.len(),
                dm.packets == orig.packets,
                dm.cursor == orig.cursor,
                dm.options == orig.options,
                dm.metadata == orig.metadata,
                ns == orig.streams@.len(),
                forall|j: int|
                    0 <= j < s ==> dm.streams@[j] == spec_refined_stream(
                        orig.streams@[j],
                        orig.packets@,
                        k as int,
                    ),
                forall|j: int| s <= j < ns ==> dm.streams@[j] == orig.streams@[j],
            decreases ns - s,
        {
            let (count, extremes) = stream_stats(&dm.packets, k, s);
            proof {
                lemma_stream_stats(dm.packets@, k as int, s as int);
                assert(orig.streams@[s as int].index == s);
            }
            match extremes {
                Option::Some((mn, mx)) => {
                    let diff: i128 = mx as i128 - mn as i128;
                    let duration: i64 = if diff > i64::MAX as i128 {
                        i64::MAX
                    } else {
                        diff as i64
                    };
                    update_stream_timing(&mut dm, s, mn, duration, count as i64);
                },
                Option::None => {
                    update_stream_count(&mut dm, s, 0);
                },
            }
            s = s + 1;
        }
        proof {
            lemma_refined_wf(dm, orig, k as int);
        }
        Ok(DemuxerWithStreamInfo { inner: dm })
    }
}

/// Write one stream's learned timing fields.
fn update_stream_timing(dm: &mut Demuxer, s: usize, start: i64, duration: i64, count: i64)
    requires
        s < old(dm).streams@.len(),
    ensures
        final(dm).streams@ =~= old(dm).streams@.update(
            s as int,
            Stream {
                start_time_ticks: start,
                duration_ticks: duration,
                frame_count: count,
                ..old(dm).streams@[s as int]
            },
        ),
        *final(dm) == (Demuxer { streams: final(dm).streams, ..*old(dm) }),
{
    dm.streams[s].start_time_ticks = start;
    dm.streams[s].duration_ticks = duration;
    dm.streams[s].frame_count = count;
    proof {
        assert(final(dm).streams@ =~= old(dm).streams@.update(
            s as int,
            Stream {
                start_time_ticks: start,
                duration_ticks: duration,
                frame_count: count,
                ..old(dm).streams@[s as int]
            },
        ));
    }
}

/// Write one stream's learned packet count, leaving its timing fields as
/// discovered.
fn update_stream_count(dm: &mut Demuxer, s: usize, count: i64)
    requires
        s < old(dm).streams@.len(),
    ensures
        final(dm).streams@ =~= old(dm).streams@.update(
            s as int,
            Stream { frame_count: count, ..old(dm).streams@[s as int] },
        ),
        *final(dm) == (Demuxer { streams: final(dm).streams, ..*old(dm) }),
{
    dm.streams[s].frame_count = count;
    proof {
        assert(final(dm).streams@ =~= old(dm).streams@.update(
            s as int,
            Stream { frame_count: count, ..old(dm).streams@[s as int] },
        ));
    }
}

/// A demultiplexer together with information about its individual
/// streams, produced by basic discovery or by a deeper analysis pass.
#[derive(Debug)]
pub struct DemuxerWithStreamInfo {
    pub inner: Demuxer,
}

impl DemuxerWithStreamInfo {
    /// Get the streams.
    pub fn streams(&self) -> (r: &Vec<Stream>)
        ensures
            r == &self.inner.streams,
    {
        &self.inner.streams
    }

    /// Get the underlying demultiplexer.
    pub fn into_demuxer(self) -> (r: Demuxer)
        ensures
            r == self.inner,
    {
        self.inner
    }

    /// Borrow the underlying demultiplexer.
    pub fn demuxer(&self) -> (r: &Demuxer)
        ensures
            r == &self.inner,
    {
        &self.inner
    }

    /// Borrow the underlying demultiplexer mutably.
    pub fn demuxer_mut(&mut self) -> (r: &mut Demuxer)
        ensures
            *r == old(self).inner,
            final(self).inner == *final(r),
    {
        &mut self.inner
    }

    /// Take the next packet that survives the discard policies, or
    /// `None` at end of stream.
    pub fn take(&mut self) -> (r: Result<Option<Packet>, Error>)
        requires
            old(self).inner.wf(),
        ensures
            final(self).inner.wf(),
            final(self).inner == (Demuxer { cursor: final(self).inner.cursor, ..old(self).inner }),
            match spec_next_kept(
                old(self).inner.streams@,
                old(self).inner.packets@,
                old(self).inner.cursor as int,
            ) {
                Some(i) => final(self).inner.cursor == i + 1 && (r matches Ok(p) && p matches Some(
                    pkt,
                ) && pkt@ == old(self).inner.packets@[i]@),
                None => final(self).inner.cursor == old(self).inner.packets@.len() && (r matches Ok(
                    p,
                ) && p is None),
            },
    {
        self.inner.take()
    }

    /// Set the discard policies so that packets come only from the
    /// stream with the given index.
    pub fn read_single_stream(&mut self, stream_index: usize)
        requires
            old(self).inner.wf(),
        ensures
            final(self).inner.wf(),
            final(self).inner == (Demuxer {
                streams: final(self).inner.streams,
                ..old(self).inner
            }),
            final(self).inner.streams@.len() == old(self).inner.streams@.len(),
            forall|i: int|
                0 <= i < old(self).inner.streams@.len() ==> final(self).inner.streams@[i] == (
                Stream {
                    discard: if old(self).inner.streams@[i].index == stream_index {
                        Discard::Standard
                    } else {
                        Discard::All
                    },
                    ..old(self).inner.streams@[i]
                }),
    {
        self.inner.read_single_stream(stream_index)
    }

    /// Reset the discard policies so that packets come from every
    /// stream.
    pub fn read_all_streams(&mut self)
        requires
            old(self).inner.wf(),
        ensures
            final(self).inner.wf(),
            final(self).inner == (Demuxer {
                streams: final(self).inner.streams,
                ..old(self).inner
            }),
            final(self).inner.streams@.len() == old(self).inner.streams@.len(),
            forall|i: int|
                0 <= i < old(self).inner.streams@.len() ==> final(self).inner.streams@[i] == (
                Stream { discard: Discard::Standard, ..old(self).inner.streams@[i] }),
    {
        self.inner.read_all_streams()
    }

    /// Get one global metadata entry, or `None` when the key is unknown.
    pub fn get_metadata(&self, key: &str) -> (r: Option<String>)
        ensures
            r == spec_lookup(self.inner.metadata@, key@),
    {
        self.inner.get_metadata(key)
    }
}

/// A refined demultiplexer keeps the container rules: the analysis pass
/// touches only fields outside them.
proof fn lemma_refined_wf(dm: Demuxer, orig: Demuxer, k: int)
    requires
        orig.wf(),
        dm.packets == orig.packets,
        dm.cursor == orig.cursor,
        dm.streams@.len() == orig.streams@.len(),
        forall|j: int|
            0 <= j < orig.streams@.len() ==> dm.streams@[j] == spec_refined_stream(
                orig.streams@[j],
                orig.packets@,
                k,
            ),
    ensures
        dm.wf(),
{
    assert forall|s: int|
        0 <= s < dm.streams@.len() implies (#[trigger] dm.streams@[s]).wf() && dm.streams@[s].index
        == s by {
        assert(orig.streams@[s].wf() && orig.streams@[s].index == s);
    }
    assert forall|i: int|
        0 <= i < dm.packets@.len() implies (#[trigger] dm.packets@[i]).wf()
        && dm.packets@[i].stream_index < dm.streams@.len() && dm.packets@[i].pts.base
        == dm.streams@[dm.packets@[i].stream_index as int].time_base by {
        assert(orig.packets@[i].wf());
        assert(dm.streams@[dm.packets@[i].stream_index as int].time_base == orig.streams@[
            orig.packets@[i].stream_index as int].time_base);
    }
}


/// The cursor position that a seek lands on: time seeks honour the
/// search direction (forward seeks and backward seeks snap to keyframes,
/// precise seeks to any packet), byte seeks are always precise, and
/// frame seeks position directly on the packet index.
pub open spec fn spec_seek_cursor(
    packets: Seq<Packet>,
    target: int,
    seek_by: SeekType,
    seek_target: SeekTarget,
) -> int {
    match seek_by {
        SeekType::Time => match seek_target {
            SeekTarget::From => spec_seek_fwd(packets, target, true, 0),
            SeekTarget::UpTo => spec_seek_back(packets, target, packets.len() as int),
            SeekTarget::Precise => spec_seek_fwd(packets, target, false, 0),
        },
        SeekType::Byte => spec_seek_byte(packets, target, 0),
        SeekType::Frame => if target <= packets.len() {
            target
        } else {
            packets.len() as int
        },
    }
}

/// Find the first packet at or after time `t`, optionally keyframes
/// only.
fn seek_forward(packets: &Vec<Packet>, t: i64, keys_only: bool) -> (r: usize)
    requires
        forall|i: int| 0 <= i < packets@.len() ==> (#[trigger] packets@[i]).wf(),
    ensures
        r == spec_seek_fwd(packets@, t as int, keys_only, 0),
{
    let n: usize = packets.len();
    let mut i: usize = 0;
    while i < n
        invariant
            n == packets@.len(),
            i <= n,
            forall|k: int| 0 <= k < packets@.len() ==> (#[trigger] packets@[k]).wf(),
            spec_seek_fwd(packets@, t as int, keys_only, 0) == spec_seek_fwd(
                packets@,
                t as int,
                keys_only,
                i as int,
            ),
        decreases n - i,
    {
        let key_ok: bool = packets[i].is_key() || !keys_only;
        match packets[i].pts().as_micros() {
            Some(v) => {
                if key_ok && v >= t {
                    return i;
                }
            },
            None => {
                proof {
                    assert(false);
                }
            },
        }
        i = i + 1;
    }
    n
}

/// Find the last keyframe at or before time `t`, or the container start.
fn seek_backward(packets: &Vec<Packet>, t: i64) -> (r: usize)
    requires
        forall|i: int| 0 <= i < packets@.len() ==> (#[trigger] packets@[i]).wf(),
    ensures
        r == spec_seek_back(packets@, t as int, packets@.len() as int),
{
    let mut i: usize = packets.len();
    while i > 0
        invariant
            i <= packets@.len(),
            forall|k: int| 0 <= k < packets@.len() ==> (#[trigger] packets@[k]).wf(),
            spec_seek_back(packets@, t as int, packets@.len() as int) == spec_seek_back(
                packets@,
                t as int,
                i as int,
            ),
        decreases i,
    {
        if packets[i - 1].is_key() {
            match packets[i - 1].pts().as_micros() {
                Some(v) => {
                    if v <= t {
                        return i - 1;
                    }
                },
                None => {
                    proof {
                        assert(false);
                    }
                },
            }
        }
        i = i - 1;
    }
    0
}

/// Find the first packet at or after the given byte position.
fn seek_byte_position(packets: &Vec<Packet>, offset: i64) -> (r: usize)
    requires
        offset >= 0,
    ensures
        r == spec_seek_byte(packets@, offset as int, 0),
{
    let n: usize = packets.len();
    let mut i: usize = 0;
    while i < n
        invariant
            n == packets@.len(),
            i <= n,
            offset >= 0,
            spec_seek_byte(packets@, offset as int, 0) == spec_seek_byte(
                packets@,
                offset as int,
                i as int,
            ),
        decreases n - i,
    {
        if packets[i].position() >= offset as u64 {
            return i;
        }
        i = i + 1;
    }
    n
}

/// Whether a slice of stream indexes contains the given index.
fn contains_index(indexes: &[usize], index: usize) -> (r: bool)
    ensures
        r == indexes@.contains(index),
{
    let n: usize = indexes.len();
    let mut i: usize = 0;
    while i < n
        invariant
            n == indexes@.len(),
            i <= n,
            forall|j: int| 0 <= j < i ==> indexes@[j] != index,
        decreases n - i,
    {
        if indexes[i] == index {
            assert(indexes@[i as int] == index);
            return true;
        }
        i = i + 1;
    }
    assert(!indexes@.contains(index));
    false
}

/// The engine's frame-rate guess for one stream, as this model derives
/// it: the raw frame-rate rational with a zero denominator replaced by
/// one, or nothing when the numerator is zero.
pub open spec fn spec_guess_frame_rate(s: Stream) -> Option<TimeBase> {
    if s.raw_frame_rate.0 >= 1 {
        Some(
            TimeBase {
                num: s.raw_frame_rate.0,
                den: if s.raw_frame_rate.1 > 0 {
                    s.raw_frame_rate.1
                } else {
                    1u32
                },
            },
        )
    } else {
        None
    }
}

/// Compute the frame-rate guess for one stream.
fn guess_frame_rate_of(s: &Stream) -> (r: Result<TimeBase, Error>)
    ensures
        r == match spec_guess_frame_rate(*s) {
            Some(g) => Ok::<TimeBase, Error>(g),
            None => Err::<TimeBase, Error>(Error::InvalidData),
        },
{
    let (num, den) = s.raw_frame_rate;
    if num >= 1 {
        let den: u32 = if den > 0 {
            den
        } else {
            1
        };
        Ok(TimeBase::new(num, den))
    } else {
        Err(Error::InvalidData)
    }
}

/// The container rules that a discovered container must satisfy before
/// a demultiplexer is built over it: streams sit at their own indexes
/// with positive-rational time bases; packets are non-null, belong to an
/// existing stream and carry that stream's time base; and consecutive
/// packets are non-decreasing in presentation microseconds and in byte
/// position.
pub open spec fn spec_container_ok(streams: Seq<Stream>, packets: Seq<Packet>) -> bool {
    &&& packets.len() <= i64::MAX
    &&& forall|s: int|
        0 <= s < streams.len() ==> (#[trigger] streams[s]).time_base.wf() && streams[s].index == s
    &&& forall|i: int|
        0 <= i < packets.len() ==> (#[trigger] packets[i]).stream_index < streams.len()
            && !packets[i].pts.spec_is_null() && packets[i].pts.base
            == streams[packets[i].stream_index as int].time_base
    &&& forall|i: int|
        0 <= i < packets.len() - 1 ==> spec_pkt_micros(#[trigger] packets[i]) <= spec_pkt_micros(
            packets[i + 1],
        ) && packets[i].position <= packets[i + 1].position
}

/// Non-decreasing between neighbours extends to any pair of packet
/// indexes, both for presentation microseconds and for byte positions.
proof fn lemma_sorted_pairs(packets: Seq<Packet>, i: int, j: int)
    requires
        forall|k: int|
            0 <= k < packets.len() - 1 ==> spec_pkt_micros(#[trigger] packets[k])
                <= spec_pkt_micros(packets[k + 1]) && packets[k].position <= packets[k + 1].position,
        0 <= i <= j < packets.len(),
    ensures
        spec_pkt_micros(packets[i]) <= spec_pkt_micros(packets[j]),
        packets[i].position <= packets[j].position,
    decreases j - i,
{
    if i < j {
        lemma_sorted_pairs(packets, i, j - 1);
        assert(spec_pkt_micros(packets[j - 1]) <= spec_pkt_micros(packets[j]));
    }
}

/// Builder for a demultiplexer: collects options and an optional forced
/// input format, then builds over a discovered container.
#[derive(Debug)]
pub struct DemuxerBuilder {
    pub input_format: Option<InputFormat>,
    pub options: Vec<(String, String)>,
}

impl DemuxerBuilder {
    /// Create a new demuxer builder.
    pub fn new() -> (r: DemuxerBuilder)
        ensures
            r.input_format is None,
            r.options@.len() == 0,
    {
        DemuxerBuilder { input_format: None, options: Vec::new() }
    }

    /// Set a demuxer option.
    pub fn set_option(self, name: &str, value: &str) -> (r: DemuxerBuilder)
        ensures
            r.options@.len() == self.options@.len() + 1,
            r.options@.last().0@ == name@,
            r.options@.last().1@ == value@,
            r.options@.subrange(0, self.options@.len() as int) == self.options@,
            r.input_format == self.input_format,
    {
        let mut options: Vec<(String, String)> = self.options;
        options.push((name.to_owned(), value.to_owned()));
        proof {
            assert(options@.subrange(0, options@.len() - 1) =~= options@.drop_last());
        }
        DemuxerBuilder { input_format: self.input_format, options }
    }

    /// Set the input format. When none is set the format is guessed from
    /// the input.
    pub fn input_format(self, format: Option<InputFormat>) -> (r: DemuxerBuilder)
        ensures
            r.input_format == format,
            r.options == self.options,
    {
        DemuxerBuilder { input_format: format, options: self.options }
    }

    /// Build the demultiplexer over a discovered container: the streams
    /// found in it, its interleaved packet sequence and its global
    /// metadata. A container that breaks the container rules is
    /// rejected whole; otherwise every stream gets its frame-rate guess
    /// filled in and reading starts at the first packet.
    #[verifier::spinoff_prover]
    #[verifier::rlimit(100)]
    pub fn build(self, streams: Vec<Stream>, packets: Vec<Packet>, metadata: Vec<(String, String)>)
        -> (r: Result<Demuxer, Error>)
        ensures
            r is Ok <==> spec_container_ok(streams@, packets@),
            r matches Ok(d) ==> {
                &&& d.wf()
                &&& d.cursor == 0
                &&& d.packets == packets
                &&& d.options == self.options
                &&& d.metadata == metadata
                &&& d.streams@.len() == streams@.len()
                &&& forall|i: int|
                    0 <= i < streams@.len() ==> d.streams@[i] == (Stream {
                        frame_rate_guess: spec_guess_frame_rate(streams@[i]),
                        ..streams@[i]
                    })
            },
            !spec_container_ok(streams@, packets@) ==> r == Err::<Demuxer, Error>(
                Error::InvalidData,
            ),
    {
        if !validate_container(&streams, &packets) {
            return Err(Error::InvalidData);
        }
        let ghost orig_streams: Seq<Stream> = streams@;
        let streams: Vec<Stream> = apply_frame_rate_guesses(streams);

        let d = Demuxer { streams, packets, cursor: 0, options: self.options, metadata };
        proof {
            lemma_built_wf(d, orig_streams);
        }
        Ok(d)
    }
}

/// Check a discovered container against the container rules.
fn validate_container(streams: &Vec<Stream>, packets: &Vec<Packet>) -> (r: bool)
    ensures
        r == spec_container_ok(streams@, packets@),
{
    if packets.len() as u64 > i64::MAX as u64 {
        return false;
    }
    if !validate_streams(streams) {
        return false;
    }
    if !validate_packet_membership(streams, packets) {
        return false;
    }
    proof {
        assert forall|i: int|
            0 <= i < packets@.len() implies (#[trigger] packets@[i]).pts.wf()
            && !packets@[i].pts.spec_is_null() by {
            assert(streams@[packets@[i].stream_index as int].time_base.wf());
        }
    }
    if !validate_packet_order(packets) {
        return false;
    }
    true
}

/// A demultiplexer assembled from a container that satisfies the
/// container rules, with frame-rate guesses filled in and the cursor at
/// the start, is well-formed.
proof fn lemma_built_wf(d: Demuxer, orig_streams: Seq<Stream>)
    requires
        spec_container_ok(orig_streams, d.packets@),
        d.streams@.len() == orig_streams.len(),
        forall|i: int|
            0 <= i < orig_streams.len() ==> d.streams@[i] == (Stream {
                frame_rate_guess: spec_guess_frame_rate(orig_streams[i]),
                ..orig_streams[i]
            }),
        d.cursor == 0,
    ensures
        d.wf(),
{
    assert forall|i: int, j: int|
        #![trigger spec_pkt_micros(d.packets@[i]), spec_pkt_micros(d.packets@[j])]
        0 <= i && i <= j && j < d.packets@.len() implies spec_pkt_micros(d.packets@[i])
        <= spec_pkt_micros(d.packets@[j]) by {
        lemma_sorted_pairs(d.packets@, i, j);
    }
    assert forall|i: int, j: int|
        #![trigger d.packets@[i].position, d.packets@[j].position]
        0 <= i && i <= j && j < d.packets@.len() implies d.packets@[i].position
        <= d.packets@[j].position by {
        lemma_sorted_pairs(d.packets@, i, j);
    }
}

/// Check that every stream descriptor sits at its own index with a
/// positive-rational time base.
fn validate_streams(streams: &Vec<Stream>) -> (r: bool)
    ensures
        r == forall|s: int|
            0 <= s < streams@.len() ==> (#[trigger] streams@[s]).time_base.wf() && streams@[s].index
                == s,
{
    let ns: usize = streams.len();
    let mut s: usize = 0;
    while s < ns
        invariant
            ns == streams@.len(),
            s <= ns,
            forall|j: int|
                0 <= j < s ==> (#[trigger] streams@[j]).time_base.wf() && streams@[j].index == j,
        decreases ns - s,
    {
        let ok: bool = streams[s].index() == s && streams[s].time_base().num() >= 1
            && streams[s].time_base().den() >= 1;
        if !ok {
            return false;
        }
        s = s + 1;
    }
    true
}

/// Check that every packet is non-null, belongs to an existing stream
/// and carries that stream's time base.
fn validate_packet_membership(streams: &Vec<Stream>, packets: &Vec<Packet>) -> (r: bool)
    ensures
        r == forall|i: int|
            0 <= i < packets@.len() ==> (#[trigger] packets@[i]).stream_index < streams@.len()
                && !packets@[i].pts.spec_is_null() && packets@[i].pts.base
                == streams@[packets@[i].stream_index as int].time_base,
{
    let ns: usize = streams.len();
    let np: usize = packets.len();
    let mut i: usize = 0;
    while i < np
        invariant
            np == packets@.len(),
            ns == streams@.len(),
            i <= np,
            forall|j: int|
                0 <= j < i ==> (#[trigger] packets@[j]).stream_index < ns
                    && !packets@[j].pts.spec_is_null() && packets@[j].pts.base
                    == streams@[packets@[j].stream_index as int].time_base,
        decreases np - i,
    {
        let idx: usize = packets[i].stream_index();
        if idx >= ns {
            return false;
        }
        if packets[i].pts().is_null() {
            return false;
        }
        if !(packets[i].pts().time_base() == streams[idx].time_base()) {
            return false;
        }
        i = i + 1;
    }
    true
}

/// Check that consecutive packets are non-decreasing in presentation
/// microseconds and in byte position.
fn validate_packet_order(packets: &Vec<Packet>) -> (r: bool)
    requires
        forall|i: int|
            0 <= i < packets@.len() ==> (#[trigger] packets@[i]).pts.wf()
                && !packets@[i].pts.spec_is_null(),
    ensures
        r == forall|i: int|
            0 <= i < packets@.len() - 1 ==> spec_pkt_micros(#[trigger] packets@[i])
                <= spec_pkt_micros(packets@[i + 1]) && packets@[i].position
                <= packets@[i + 1].position,
{
    let np: usize = packets.len();
    let mut i: usize = 1;
    while i < np
        invariant
            np == packets@.len(),
            1 <= i,
            i <= np || np == 0,
            forall|k: int|
                0 <= k < packets@.len() ==> (#[trigger] packets@[k]).pts.wf()
                    && !packets@[k].pts.spec_is_null(),
            forall|j: int|
                0 <= j < i - 1 ==> spec_pkt_micros(#[trigger] packets@[j]) <= spec_pkt_micros(
                    packets@[j + 1],
                ) && packets@[j].position <= packets@[j + 1].position,
        decreases np - i,
    {
        let prev_micros: i64 = match packets[i - 1].pts().as_micros() {
            Some(v) => v,
            None => {
                proof {
                    assert(false);
                }
                0
            },
        };
        let cur_micros: i64 = match packets[i].pts().as_micros() {
            Some(v) => v,
            None => {
                proof {
                    assert(false);
                }
                0
            },
        };
        if prev_micros > cur_micros {
            return false;
        }
        if packets[i - 1].position() > packets[i].position() {
            return false;
        }
        i = i + 1;
    }
    true
}

/// Fill in each stream's frame-rate guess, leaving every other field
/// untouched.
fn apply_frame_rate_guesses(streams: Vec<Stream>) -> (r: Vec<Stream>)
    ensures
        r@.len() == streams@.len(),
        forall|j: int|
            0 <= j < streams@.len() ==> r@[j] == (Stream {
                frame_rate_guess: spec_guess_frame_rate(streams@[j]),
                ..streams@[j]
            }),
{
    let ns: usize = streams.len();
    let ghost orig_streams: Seq<Stream> = streams@;
    let mut streams: Vec<Stream> = streams;
    let mut s: usize = 0;
    while s < ns
        invariant
            ns == streams@.len(),
            orig_streams.len() == ns,
            s <= ns,
            forall|j: int|
                0 <= j < s ==> streams@[j] == (Stream {
                    frame_rate_guess: spec_guess_frame_rate(orig_streams[j]),
                    ..orig_streams[j]
                }),
            forall|j: int| s <= j < ns ==> streams@[j] == orig_streams[j],
        decreases ns - s,
    {
        let guess: Option<TimeBase> = match guess_frame_rate_of(&streams[s]) {
            Ok(g) => Some(g),
            Err(_) => None,
        };
        streams[s].set_frame_rate_guess(guess);
        s = s + 1;
    }
    streams
}

/// The end of the analysis window: the first packet index whose
/// presentation time (microseconds) exceeds `limit`, or the whole
/// sequence.
pub open spec fn spec_window_end(packets: Seq<Packet>, limit: int, from: int) -> int
    decreases packets.len() - from,
{
    if from < 0 || from >= packets.len() {
        packets.len() as int
    } else if spec_pkt_micros(packets[from]) > limit {
        from
    } else {
        spec_window_end(packets, limit, from + 1)
    }
}

/// How many packets a deeper analysis pass reads: all of them when no
/// bound is given or the bound is zero, otherwise only those within
/// `bound` microseconds of the first packet.
pub open spec fn spec_analyze_end(packets: Seq<Packet>, bound: Option<u64>) -> int {
    match bound {
        Some(d) => if d > 0 && packets.len() > 0 {
            spec_window_end(packets, spec_pkt_micros(packets[0]) + d, 0)
        } else {
            packets.len() as int
        },
        None => packets.len() as int,
    }
}

/// The number of packets of stream `s` among the first `k` packets.
pub open spec fn spec_stream_count(packets: Seq<Packet>, k: int, s: int) -> int
    decreases k,
{
    if k <= 0 {
        0
    } else {
        spec_stream_count(packets, k - 1, s) + (if packets[k - 1].stream_index == s {
            1int
        } else {
            0int
        })
    }
}

/// The smallest presentation tick of stream `s` among the first `k`
/// packets, or `None` when the stream has none there.
pub open spec fn spec_stream_min_pts(packets: Seq<Packet>, k: int, s: int) -> Option<int>
    decreases k,
{
    if k <= 0 {
        None
    } else {
        let rest = spec_stream_min_pts(packets, k - 1, s);
        if packets[k - 1].stream_index == s {
            match rest {
                Option::None => Some(packets[k - 1].pts.ticks as int),
                Option::Some(m) => Some(
                    if packets[k - 1].pts.ticks < m {
                        packets[k - 1].pts.ticks as int
                    } else {
                        m
                    },
                ),
            }
        } else {
            rest
        }
    }
}

/// The largest presentation tick of stream `s` among the first `k`
/// packets, or `None` when the stream has none there.
pub open spec fn spec_stream_max_pts(packets: Seq<Packet>, k: int, s: int) -> Option<int>
    decreases k,
{
    if k <= 0 {
        None
    } else {
        let rest = spec_stream_max_pts(packets, k - 1, s);
        if packets[k - 1].stream_index == s {
            match rest {
                Option::None => Some(packets[k - 1].pts.ticks as int),
                Option::Some(m) => Some(
                    if packets[k - 1].pts.ticks > m {
                        packets[k - 1].pts.ticks as int
                    } else {
                        m
                    },
                ),
            }
        } else {
            rest
        }
    }
}

/// Clamp an integer into the `i64` range.
pub open spec fn spec_saturate_i64(v: int) -> i64 {
    if v > i64::MAX {
        i64::MAX
    } else if v < i64::MIN {
        i64::MIN
    } else {
        v as i64
    }
}

/// What a deeper analysis pass learns about one stream from the packets
/// in the analysis window: its packet count, and — when it has packets
/// there — its first presentation tick and the tick span between its
/// first and last packet. Everything else is left as discovered.
pub open spec fn spec_refined_stream(orig: Stream, packets: Seq<Packet>, k: int) -> Stream {
    match (
        spec_stream_min_pts(packets, k, orig.index as int),
        spec_stream_max_pts(packets, k, orig.index as int),
    ) {
        (Option::Some(mn), Option::Some(mx)) => Stream {
            start_time_ticks: mn as i64,
            duration_ticks: spec_saturate_i64(mx - mn),
            frame_count: spec_stream_count(packets, k, orig.index as int) as i64,
            ..orig
        },
        _ => Stream { frame_count: 0i64, ..orig },
    }
}

/// The per-stream statistics agree: minimum, maximum and count exist
/// together, the extremes are tick values of actual packets (so they fit
/// the tick range), and the minimum never exceeds the maximum.
pub proof fn lemma_stream_stats(packets: Seq<Packet>, k: int, s: int)
    requires
        k <= packets.len(),
    ensures
        spec_stream_min_pts(packets, k, s) is Some <==> spec_stream_max_pts(packets, k, s)
            is Some,
        spec_stream_min_pts(packets, k, s) is Some <==> spec_stream_count(packets, k, s) > 0,
        0 <= spec_stream_count(packets, k, s) <= (if k >= 0 { k } else { 0 }),
        (spec_stream_min_pts(packets, k, s) matches Some(mn) ==> i64::MIN <= mn <= i64::MAX),
        (spec_stream_max_pts(packets, k, s) matches Some(mx) ==> i64::MIN <= mx <= i64::MAX),
        match (spec_stream_min_pts(packets, k, s), spec_stream_max_pts(packets, k, s)) {
            (Option::Some(mn), Option::Some(mx)) => mn <= mx,
            _ => true,
        },
    decreases k,
{
    if k > 0 {
        lemma_stream_stats(packets, k - 1, s);
    }
}

/// Compute the end of the analysis window.
fn compute_analyze_end(packets: &Vec<Packet>, bound: Option<u64>) -> (r: usize)
    requires
        forall|i: int|
            0 <= i < packets@.len() ==> (#[trigger] packets@[i]).pts.wf()
                && !packets@[i].pts.spec_is_null(),
    ensures
        r == spec_analyze_end(packets@, bound),
        r <= packets@.len(),
{
    let np: usize = packets.len();
    let d: u64 = match bound {
        Option::None => {
            return np;
        },
        Option::Some(d) => d,
    };
    if d == 0 || np == 0 {
        return np;
    }
    let first: i64 = match packets[0].pts().as_micros() {
        Option::Some(v) => v,
        Option::None => {
            proof {
                assert(false);
            }
            0
        },
    };
    let limit: i128 = first as i128 + d as i128;
    let ghost glimit: int = spec_pkt_micros(packets@[0]) + d;
    assert(limit == glimit);
    let mut i: usize = 0;
    while i < np
        invariant
            np == packets@.len(),
            i <= np,
            limit == glimit,
            bound == Some(d),
            d > 0,
            np > 0,
            glimit == spec_pkt_micros(packets@[0]) + d,
            forall|k: int|
                0 <= k < packets@.len() ==> (#[trigger] packets@[k]).pts.wf()
                    && !packets@[k].pts.spec_is_null(),
            spec_window_end(packets@, glimit, 0) == spec_window_end(packets@, glimit, i as int),
        decreases np - i,
    {
        match packets[i].pts().as_micros() {
            Option::Some(v) => {
                if v as i128 > limit {
                    proof {
                        assert(spec_pkt_micros(packets@[i as int]) > glimit);
                        assert(spec_window_end(packets@, glimit, i as int) == i);
                    }
                    return i;
                }
            },
            Option::None => {
                proof {
                    assert(false);
                }
            },
        }
        i = i + 1;
    }
    np
}

/// Count one stream's packets in the analysis window and find the
/// extremes of their presentation ticks.
fn stream_stats(packets: &Vec<Packet>, k: usize, s: usize) -> (r: (usize, Option<(i64, i64)>))
    requires
        k <= packets@.len(),
    ensures
        r.0 == spec_stream_count(packets@, k as int, s as int),
        match spec_stream_min_pts(packets@, k as int, s as int) {
            Option::Some(mn) => r.1 matches Some(p) && p.0 == mn && (
            spec_stream_max_pts(packets@, k as int, s as int) matches Some(mx) && p.1 == mx),
            Option::None => r.1 is None,
        },
{
    let mut count: usize = 0;
    let mut extremes: Option<(i64, i64)> = None;
    let mut i: usize = 0;
    while i < k
        invariant
            k <= packets@.len(),
            i <= k,
            count == spec_stream_count(packets@, i as int, s as int),
            match spec_stream_min_pts(packets@, i as int, s as int) {
                Option::Some(mn) => extremes matches Some(p) && p.0 == mn && (
                spec_stream_max_pts(packets@, i as int, s as int) matches Some(mx) && p.1 == mx),
                Option::None => extremes is None,
            },
        decreases k - i,
    {
        proof {
            lemma_stream_stats(packets@, i as int, s as int);
        }
        if packets[i].stream_index() == s {
            let ticks: i64 = packets[i].pts().timestamp();
            extremes = match extremes {
                Option::None => Some((ticks, ticks)),
                Option::Some((mn, mx)) => Some(
                    (
                        if ticks < mn {
                            ticks
                        } else {
                            mn
                        },
                        if ticks > mx {
                            ticks
                        } else {
                            mx
                        },
                    ),
                ),
            };
            count = count + 1;
        }
        i = i + 1;
    }
    (count, extremes)
}

/// A forward seek stays between its starting point and the end of the
/// packet sequence, and the packet it lands on (if any) is at or after
/// the requested time.
pub proof fn lemma_seek_fwd_in_range(packets: Seq<Packet>, t: int, keys_only: bool, from: int)
    requires
        0 <= from <= packets.len(),
    ensures
        from <= spec_seek_fwd(packets, t, keys_only, from) <= packets.len(),
        spec_seek_fwd(packets, t, keys_only, from) < packets.len() ==> spec_pkt_micros(
            packets[spec_seek_fwd(packets, t, keys_only, from)],
        ) >= t,
    decreases packets.len() - from,
{
    if from < packets.len() {
        if (packets[from].key || !keys_only) && spec_pkt_micros(packets[from]) >= t {
        } else {
            lemma_seek_fwd_in_range(packets, t, keys_only, from + 1);
        }
    }
}

/// A backward seek stays within the packet sequence.
pub proof fn lemma_seek_back_in_range(packets: Seq<Packet>, t: int, upto: int)
    requires
        0 <= upto <= packets.len(),
    ensures
        0 <= spec_seek_back(packets, t, upto) <= packets.len(),
        spec_seek_back(packets, t, upto) < upto || spec_seek_back(packets, t, upto) == 0,
    decreases upto,
{
    if upto > 0 {
        if packets[upto - 1].key && spec_pkt_micros(packets[upto - 1]) <= t {
        } else {
            lemma_seek_back_in_range(packets, t, upto - 1);
        }
    }
}

/// A byte seek stays between its starting point and the end of the
/// packet sequence.
pub proof fn lemma_seek_byte_in_range(packets: Seq<Packet>, offset: int, from: int)
    requires
        0 <= from <= packets.len(),
    ensures
        from <= spec_seek_byte(packets, offset, from) <= packets.len(),
    decreases packets.len() - from,
{
    if from < packets.len() {
        if packets[from].position >= offset {
        } else {
            lemma_seek_byte_in_range(packets, offset, from + 1);
        }
    }
}

/// A found next packet lies between the cursor and the end of the
/// sequence.
pub proof fn lemma_next_kept_in_range(streams: Seq<Stream>, packets: Seq<Packet>, from: int)
    ensures
        spec_next_kept(streams, packets, from) matches Some(i) ==> from <= i < packets.len(),
    decreases packets.len() - from,
{
    if 0 <= from < packets.len() {
        if !spec_keeps(streams[packets[from].stream_index as int].discard, packets[from].key) {
            lemma_next_kept_in_range(streams, packets, from + 1);
        }
    }
}

/// Restricting to one stream is effective: when every other stream's
/// policy is `All`, any packet the demultiplexer hands out comes from
/// the selected stream.
pub proof fn lemma_single_stream_packets(
    streams: Seq<Stream>,
    packets: Seq<Packet>,
    from: int,
    selected: int,
    i: int,
)
    requires
        forall|s: int|
            0 <= s < streams.len() && s != selected ==> (#[trigger] streams[s]).discard is All,
        forall|k: int| 0 <= k < packets.len() ==> (#[trigger] packets[k]).stream_index
            < streams.len(),
        spec_next_kept(streams, packets, from) == Some(i),
    ensures
        0 <= i < packets.len(),
        packets[i].stream_index == selected,
    decreases packets.len() - from,
{
    if 0 <= from < packets.len() {
        if spec_keeps(streams[packets[from].stream_index as int].discard, packets[from].key) {
            assert(packets[from].stream_index == selected);
        } else {
            lemma_single_stream_packets(streams, packets, from + 1, selected, i);
        }
    }
}

/// A forward time seek never yields an earlier packet: after seeking
/// at-or-after time `t`, every packet the demultiplexer hands out from
/// then on (whatever the discard policies, and however many reads have
/// happened since) has presentation time at least `t`.
pub proof fn lemma_seek_at_or_after_reads_at_or_after(d: Demuxer, t: int, i: int)
    requires
        d.wf(),
        d.cursor >= spec_seek_fwd(d.packets@, t, true, 0),
        spec_next_kept(d.streams@, d.packets@, d.cursor as int) == Some(i),
    ensures
        0 <= i < d.packets@.len(),
        spec_pkt_micros(d.packets@[i]) >= t,
{
    let landed = spec_seek_fwd(d.packets@, t, true, 0);
    lemma_seek_fwd_in_range(d.packets@, t, true, 0);
    lemma_next_kept_in_range(d.streams@, d.packets@, d.cursor as int);
    assert(landed < d.packets@.len());
    assert(spec_pkt_micros(d.packets@[landed]) >= t);
    assert(spec_pkt_micros(d.packets@[landed]) <= spec_pkt_micros(d.packets@[i]));
}

} // verus!
