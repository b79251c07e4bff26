//! Per-stream descriptors of a demultiplexed container.
//!
//! A stream descriptor carries the static and learned metadata of one
//! elementary stream: its container-assigned index, its native time base,
//! a best-effort frame-rate guess, its discard policy, read-only codec
//! parameters, and a key/value metadata dictionary.

use vstd::prelude::*;

use crate::time::{TimeBase, Timestamp};

verus! {

/// How aggressively a stream's packets are dropped before they leave the
/// demultiplexer, from `Nothing` (drop nothing, not even corrupt
/// packets) to `All` (drop everything). This is an advisory filter applied by the
/// native engine; callers must still check a packet's stream index.
#[derive(Clone, Copy, Debug, PartialEq, Eq, Structural)]
pub enum Discard {
    Nothing,
    Standard,
    NonRef,
    BiDir,
    NonIntra,
    NonKey,
    All,
}

impl Discard {
    /// Get the native raw representation; the values are ordered by how
    /// aggressively packets are dropped.
    pub fn into_raw(self) -> (r: i32)
        ensures
            r == spec_discard_raw(self),
    {
        match self {
            Discard::Nothing => -16,
            Discard::Standard => 0,
            Discard::NonRef => 8,
            Discard::BiDir => 16,
            Discard::NonIntra => 24,
            Discard::NonKey => 32,
            Discard::All => 48,
        }
    }
}

/// The native raw value of a discard policy.
pub open spec fn spec_discard_raw(d: Discard) -> i32 {
    match d {
        Discard::Nothing => -16i32,
        Discard::Standard => 0i32,
        Discard::NonRef => 8i32,
        Discard::BiDir => 16i32,
        Discard::NonIntra => 24i32,
        Discard::NonKey => 32i32,
        Discard::All => 48i32,
    }
}

/// Whether a packet survives a discard policy. The model tracks one
/// packet attribute, the keyframe flag, so the policies that inspect it
/// are exact (`NonKey`, `All`); the policies between them keep every
/// packet here.
pub open spec fn spec_keeps(d: Discard, key: bool) -> bool {
    match d {
        Discard::All => false,
        Discard::NonKey => key,
        _ => true,
    }
}

/// Read-only codec parameters of one stream, carried through opaquely.
#[derive(Debug)]
pub struct CodecParameters {
    pub data: Vec<u8>,
}

impl CodecParameters {
    /// Create codec parameters from their raw encoded form.
    pub fn from_raw(data: Vec<u8>) -> (r: CodecParameters)
        ensures
            r.data@ == data@,
    {
        CodecParameters { data }
    }

    /// The raw encoded form.
    pub fn raw(&self) -> (r: &Vec<u8>)
        ensures
            r@ == self.data@,
    {
        &self.data
    }
}

/// Look a key up in a metadata dictionary; the most recently set value
/// wins.
pub open spec fn spec_lookup(entries: Seq<(String, String)>, key: Seq<char>) -> Option<String>
    decreases entries.len(),
{
    if entries.len() == 0 {
        None
    } else if entries.last().0@ == key {
        Some(entries.last().1)
    } else {
        spec_lookup(entries.drop_last(), key)
    }
}

/// Setting one key leaves every other key's lookup unchanged.
pub proof fn lemma_lookup_other_key(
    entries: Seq<(String, String)>,
    added: (String, String),
    key: Seq<char>,
)
    requires
        added.0@ != key,
    ensures
        spec_lookup(entries.push(added), key) == spec_lookup(entries, key),
{
    assert(entries.push(added).drop_last() =~= entries);
}

/// Search a metadata dictionary, newest entry first.
pub(crate) fn lookup_metadata(entries: &Vec<(String, String)>, key: &str) -> (r: Option<String>)
    ensures
        r == spec_lookup(entries@, key@),
{
    let owned_key: String = key.to_owned();
    let mut i: usize = entries.len();
    proof {
        assert(entries@.subrange(0, entries@.len() as int) =~= entries@);
    }
    while i > 0
        invariant
            i <= entries@.len(),
            owned_key@ == key@,
            spec_lookup(entries@, key@) == spec_lookup(entries@.subrange(0, i as int), key@),
        decreases i,
    {
        i = i - 1;
        let pair: &(String, String) = &entries[i];
        if pair.0 == owned_key {
            proof {
                assert(entries@.subrange(0, i + 1).last() == entries@[i as int]);
            }
            return Some(pair.1.clone());
        }
        proof {
            assert(entries@.subrange(0, i + 1).drop_last() =~= entries@.subrange(0, i as int));
        }
    }
    proof {
        assert(entries@.subrange(0, 0) =~= Seq::<(String, String)>::empty());
    }
    None
}

/// One elementary stream of a container.
#[derive(Debug)]
pub struct Stream {
    /// The container-assigned index, stable across the stream's life.
    pub index: usize,
    /// The stream's native time base.
    pub time_base: TimeBase,
    /// A best-effort frame-rate guess, absent when nothing could be
    /// guessed. Independent from the raw frame-rate field below.
    pub frame_rate_guess: Option<TimeBase>,
    /// The raw container frame-rate field `(num, den)`; the denominator
    /// may be zero when the container left it unset.
    pub raw_frame_rate: (u32, u32),
    /// First presentation tick of the stream, in its own time base.
    pub start_time_ticks: i64,
    /// Duration in ticks of the stream's own time base.
    pub duration_ticks: i64,
    /// Number of frames recorded by the container; non-positive when
    /// unknown.
    pub frame_count: i64,
    /// The discard policy currently applied while demultiplexing.
    pub discard: Discard,
    /// Read-only codec parameters.
    pub codec_parameters: CodecParameters,
    /// Stream metadata, newest entry last.
    pub metadata: Vec<(String, String)>,
}

impl Stream {
    /// A stream descriptor is well-formed when its time base is a
    /// positive rational, as is its frame-rate guess if present.
    pub open spec fn wf(self) -> bool {
        &&& self.time_base.wf()
        &&& (self.frame_rate_guess matches Some(g) ==> g.wf())
    }

    /// Get the stream time base.
    pub fn time_base(&self) -> (r: TimeBase)
        ensures
            r == self.time_base,
    {
        self.time_base
    }

    /// Get the best-guess frame rate.
    pub fn frame_rate_guess(&self) -> (r: Option<TimeBase>)
        ensures
            r == self.frame_rate_guess,
    {
        self.frame_rate_guess
    }

    /// Set the best-guess frame rate.
    pub fn set_frame_rate_guess(&mut self, guess: Option<TimeBase>)
        ensures
            *final(self) == (Stream { frame_rate_guess: guess, ..*old(self) }),
    {
        self.frame_rate_guess = guess;
    }

    /// Get the raw container frame rate; a zero denominator is replaced
    /// by one to keep the result a valid rational.
    pub fn r_frame_rate(&self) -> (r: TimeBase)
        requires
            self.raw_frame_rate.0 >= 1,
        ensures
            r == (TimeBase {
                num: self.raw_frame_rate.0,
                den: if self.raw_frame_rate.1 > 0 {
                    self.raw_frame_rate.1
                } else {
                    1u32
                },
            }),
            r.wf(),
    {
        let (num, den) = self.raw_frame_rate;
        // avoid division by zero
        let den: u32 = if den > 0 {
            den
        } else {
            1
        };
        TimeBase::new(num, den)
    }

    /// Get the stream's index.
    pub fn index(&self) -> (r: usize)
        ensures
            r == self.index,
    {
        self.index
    }

    /// Get the presentation timestamp of the stream's first frame, in the
    /// stream's own time base.
    pub fn start_time(&self) -> (r: Timestamp)
        requires
            self.wf(),
        ensures
            r == (Timestamp { ticks: self.start_time_ticks, base: self.time_base }),
    {
        Timestamp::new(self.start_time_ticks, self.time_base)
    }

    /// Get the duration of the stream, in its own time base.
    pub fn duration(&self) -> (r: Timestamp)
        requires
            self.wf(),
        ensures
            r == (Timestamp { ticks: self.duration_ticks, base: self.time_base }),
    {
        Timestamp::new(self.duration_ticks, self.time_base)
    }

    /// Get the number of frames in the stream, or `None` when the
    /// container does not record it. Depending on the container this may
    /// count only keyframes.
    pub fn frames(&self) -> (r: Option<u64>)
        ensures
            self.frame_count <= 0 ==> r is None,
            self.frame_count > 0 ==> r == Some(self.frame_count as u64),
    {
        if self.frame_count <= 0 {
            None
        } else {
            Some(self.frame_count as u64)
        }
    }

    /// Set the discard policy for this stream.
    pub fn set_discard(&mut self, discard: Discard)
        ensures
            *final(self) == (Stream { discard, ..*old(self) }),
    {
        self.discard = discard;
    }

    /// Get the codec parameters.
    pub fn codec_parameters(&self) -> (r: &CodecParameters)
        ensures
            r == &self.codec_parameters,
    {
        &self.codec_parameters
    }

    /// Set one stream metadata entry; a later value for the same key
    /// shadows an earlier one.
    pub fn set_metadata(&mut self, key: &str, value: &str)
        ensures
            final(self).metadata@.len() == old(self).metadata@.len() + 1,
            final(self).metadata@.last().0@ == key@,
            final(self).metadata@.last().1@ == value@,
            final(self).metadata@.drop_last() == old(self).metadata@,
            *final(self) == (Stream { metadata: final(self).metadata, ..*old(self) }),
    {
        self.metadata.push((key.to_owned(), value.to_owned()));
        proof {
            assert(self.metadata@.drop_last() =~= old(self).metadata@);
        }
    }

    /// Get one stream metadata entry, or `None` when the key is unknown.
    pub fn get_metadata(&self, key: &str) -> (r: Option<String>)
        ensures
            r == spec_lookup(self.metadata@, key@),
    {
        lookup_metadata(&self.metadata, key)
    }
}

} // verus!
