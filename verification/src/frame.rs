//! Decoded video frames and their planar buffers.
//!
//! A frame owns up to four planes, indexed positionally by the native
//! format's component order. A plane's line size (stride) may exceed the
//! logical row width because of alignment padding: consumers must index
//! by stride, never assume stride equals width times bytes per pixel.
//! A mutable frame can be frozen into an immutable one — the only
//! direction this conversion goes — and immutable frames are cheaply
//! cloneable and never expose mutation, so a clone always observes the
//! same bytes.

use vstd::prelude::*;

use crate::packet::clone_bytes;
use crate::time::{spec_microseconds, TimeBase, Timestamp};

verus! {

/// Copy a byte slice into an owned buffer holding exactly the same
/// bytes.
fn copy_slice(src: &[u8]) -> (r: Vec<u8>)
    ensures
        r@ == src@,
{
    let n: usize = src.len();
    let mut r: Vec<u8> = Vec::new();
    let mut j: usize = 0;
    while j < n
        invariant
            n == src@.len(),
            j <= n,
            r@ == src@.subrange(0, j as int),
        decreases n - j,
    {
        r.push(src[j]);
        proof {
            assert(r@ =~= src@.subrange(0, j + 1));
        }
        j = j + 1;
    }
    proof {
        assert(src@.subrange(0, n as int) =~= src@);
    }
    r
}

/// A pixel format identifier (an index into the native format table).
/// Resolving names to identifiers is the native table's business and
/// happens outside this layer.
#[derive(Clone, Copy, Debug, PartialEq, Eq, Structural)]
pub struct PixelFormat(pub i32);

impl PixelFormat {
    /// Create a pixel format value from its raw representation.
    pub fn from_raw(v: i32) -> (r: PixelFormat)
        ensures
            r == PixelFormat(v),
    {
        PixelFormat(v)
    }

    /// Get the raw value.
    pub fn into_raw(self) -> (r: i32)
        ensures
            r == self.0,
    {
        self.0
    }
}

/// An error indicating an unknown pixel format name.
#[derive(Debug, Copy, Clone, PartialEq, Eq, Structural)]
pub struct UnknownPixelFormat;

impl UnknownPixelFormat {
    /// A short description of the error.
    pub fn message(&self) -> (r: String)
        ensures
            r@ == "unknown pixel format"@,
    {
        "unknown pixel format".to_owned()
    }
}

/// The observable content of a plane.
pub struct PlaneModel {
    pub data: Seq<u8>,
    pub line_size: usize,
    pub line_count: usize,
}

/// One colour/sample component buffer of a frame: `line_count` lines of
/// `line_size` bytes each, stored contiguously.
#[derive(Debug)]
pub struct Plane {
    pub data: Vec<u8>,
    pub line_size: usize,
    pub line_count: usize,
}

impl View for Plane {
    type V = PlaneModel;

    open spec fn view(&self) -> PlaneModel {
        PlaneModel { data: self.data@, line_size: self.line_size, line_count: self.line_count }
    }
}

impl Plane {
    /// A plane's buffer holds exactly its lines.
    pub open spec fn wf(self) -> bool {
        self.data@.len() == self.line_size * self.line_count
    }

    /// Get the plane data.
    pub fn data(&self) -> (r: &Vec<u8>)
        ensures
            r@ == self.data@,
    {
        &self.data
    }

    /// Get the line size (stride). It need not equal the picture width.
    pub fn line_size(&self) -> (r: usize)
        ensures
            r == self.line_size,
    {
        self.line_size
    }

    /// Get the number of lines. It need not equal the picture height.
    pub fn line_count(&self) -> (r: usize)
        ensures
            r == self.line_count,
    {
        self.line_count
    }

    /// Get a single line, or `None` past the end.
    pub fn line(&self, index: usize) -> (r: Option<&[u8]>)
        requires
            self.wf(),
        ensures
            index < self.line_count ==> (r matches Some(l) && l@ == self.data@.subrange(
                index * self.line_size,
                index * self.line_size + self.line_size,
            )),
            index >= self.line_count ==> r is None,
    {
        if index < self.line_count {
            let total: usize = self.data.len();
            proof {
                assert(index * self.line_size + self.line_size <= self.line_size
                    * self.line_count) by (nonlinear_arith)
                    requires
                        index < self.line_count,
                ;
                assert(0 <= index * self.line_size) by (nonlinear_arith)
                    requires
                        index >= 0,
                        self.line_size >= 0,
                ;
                assert(self.line_size * self.line_count == total);
            }
            let offset: usize = index * self.line_size;
            Some(vstd::slice::slice_subrange(self.data.as_slice(), offset, offset + self.line_size))
        } else {
            None
        }
    }

    /// Overwrite a single line with the given bytes.
    pub fn write_line(&mut self, index: usize, src: &[u8])
        requires
            old(self).wf(),
            index < old(self).line_count,
            src@.len() == old(self).line_size,
        ensures
            final(self).wf(),
            final(self).line_size == old(self).line_size,
            final(self).line_count == old(self).line_count,
            final(self).data@.len() == old(self).data@.len(),
            forall|k: int|
                0 <= k < old(self).data@.len() ==> final(self).data@[k] == (if index
                    * old(self).line_size <= k < index * old(self).line_size + old(
                    self,
                ).line_size {
                    src@[k - index * old(self).line_size]
                } else {
                    old(self).data@[k]
                }),
    {
        let total: usize = self.data.len();
        proof {
            assert(index * self.line_size + self.line_size <= self.line_size * self.line_count)
                by (nonlinear_arith)
                requires
                    index < self.line_count,
            ;
            assert(0 <= index * self.line_size) by (nonlinear_arith)
                requires
                    index >= 0,
                    self.line_size >= 0,
            ;
            assert(self.line_size * self.line_count == total);
        }
        let offset: usize = index * self.line_size;
        let mut j: usize = 0;
        while j < self.line_size
            invariant
                self.wf(),
                self.line_size == old(self).line_size,
                self.line_count == old(self).line_count,
                self.data@.len() == old(self).data@.len(),
                index < self.line_count,
                src@.len() == self.line_size,
                offset == index * self.line_size,
                offset + self.line_size <= self.data@.len(),
                self.data@.len() <= usize::MAX,
                j <= self.line_size,
                forall|k: int|
                    0 <= k < self.data@.len() ==> self.data@[k] == (if offset <= k < offset + j {
                        src@[k - offset]
                    } else {
                        old(self).data@[k]
                    }),
            decreases self.line_size - j,
        {
            self.data[offset + j] = src[j];
            j = j + 1;
        }
    }

    /// Iterate over the plane's lines, oldest first.
    pub fn lines(&self) -> (r: LinesIter)
        requires
            self.wf(),
        ensures
            r.data@ == self.data@,
            r.line_size == self.line_size,
            r.line_count == self.line_count,
            r.pos == 0,
            r.wf(),
    {
        LinesIter {
            data: clone_bytes(&self.data),
            line_size: self.line_size,
            line_count: self.line_count,
            pos: 0,
        }
    }
}

impl Clone for Plane {
    /// A cloned plane holds exactly the same bytes and geometry.
    fn clone(&self) -> (r: Self)
        ensures
            r@ == self@,
    {
        Plane {
            data: clone_bytes(&self.data),
            line_size: self.line_size,
            line_count: self.line_count,
        }
    }
}

/// A cursor over the lines of a plane, handing out one copied line per
/// step.
#[derive(Debug)]
pub struct LinesIter {
    pub data: Vec<u8>,
    pub line_size: usize,
    pub line_count: usize,
    pub pos: usize,
}

impl LinesIter {
    /// The cursor stays within its plane's geometry.
    pub open spec fn wf(self) -> bool {
        &&& self.data@.len() == self.line_size * self.line_count
        &&& self.pos <= self.line_count
    }

    /// The next line, or `None` when every line has been handed out.
    pub fn next(&mut self) -> (r: Option<Vec<u8>>)
        requires
            old(self).wf(),
        ensures
            final(self).wf(),
            final(self).data@ == old(self).data@,
            final(self).line_size == old(self).line_size,
            final(self).line_count == old(self).line_count,
            old(self).pos < old(self).line_count ==> final(self).pos == old(self).pos + 1 && (
            r matches Some(l) && l@ == old(self).data@.subrange(
                old(self).pos * old(self).line_size,
                old(self).pos * old(self).line_size + old(self).line_size,
            )),
            old(self).pos >= old(self).line_count ==> r is None && final(self).pos == old(
                self,
            ).pos,
    {
        if self.pos < self.line_count {
            let total: usize = self.data.len();
            proof {
                assert(self.pos * self.line_size + self.line_size <= self.line_size
                    * self.line_count) by (nonlinear_arith)
                    requires
                        self.pos < self.line_count,
                ;
                assert(0 <= self.pos * self.line_size) by (nonlinear_arith)
                    requires
                        self.pos >= 0,
                        self.line_size >= 0,
                ;
                assert(self.line_size * self.line_count == total);
            }
            let offset: usize = self.pos * self.line_size;
            let line: &[u8] = vstd::slice::slice_subrange(
                self.data.as_slice(),
                offset,
                offset + self.line_size,
            );
            let copied: Vec<u8> = copy_slice(line);
            self.pos = self.pos + 1;
            Some(copied)
        } else {
            None
        }
    }
}

/// The number of planes every frame exposes; unused trailing planes are
/// empty.
pub open spec fn spec_plane_count() -> int {
    4
}

/// The stride a frame allocation uses: the width rounded up to a
/// multiple of the effective alignment (an alignment of zero lets the
/// layer pick its own, an alignment of one avoids all padding).
pub open spec fn spec_stride(width: int, alignment: int) -> int {
    let a = if alignment == 0 {
        32
    } else {
        alignment
    };
    ((width + a - 1) / a) * a
}

/// The observable content of a video frame.
pub struct VideoFrameModel {
    pub planes: Seq<PlaneModel>,
    pub width: usize,
    pub height: usize,
    pub pixel_format: PixelFormat,
    pub time_base: TimeBase,
    pub pts_ticks: i64,
    pub is_blank: bool,
    pub pkt_duration: i64,
    pub repeat: i32,
    pub colorspace: u32,
    pub color_transfer_characteristic: u32,
    pub color_primaries: u32,
}

/// A video frame with mutable data: exclusively owned, its planes
/// writable. Freezing it yields the immutable, shareable variant; the
/// reverse direction does not exist.
#[derive(Debug)]
pub struct VideoFrameMut {
    pub planes: Vec<Plane>,
    pub width: usize,
    pub height: usize,
    pub pixel_format: PixelFormat,
    pub time_base: TimeBase,
    pub pts_ticks: i64,
    pub is_blank: bool,
    pub pkt_duration: i64,
    pub repeat: i32,
    pub colorspace: u32,
    pub color_transfer_characteristic: u32,
    pub color_primaries: u32,
}

impl View for VideoFrameMut {
    type V = VideoFrameModel;

    open spec fn view(&self) -> VideoFrameModel {
        VideoFrameModel {
            planes: Seq::new(self.planes@.len(), |i: int| self.planes@[i]@),
            width: self.width,
            height: self.height,
            pixel_format: self.pixel_format,
            time_base: self.time_base,
            pts_ticks: self.pts_ticks,
            is_blank: self.is_blank,
            pkt_duration: self.pkt_duration,
            repeat: self.repeat,
            colorspace: self.colorspace,
            color_transfer_characteristic: self.color_transfer_characteristic,
            color_primaries: self.color_primaries,
        }
    }
}

impl VideoFrameMut {
    /// A frame carries its full complement of well-formed planes and a
    /// valid time base.
    pub open spec fn wf(self) -> bool {
        &&& self.planes@.len() == spec_plane_count()
        &&& forall|i: int| 0 <= i < self.planes@.len() ==> (#[trigger] self.planes@[i]).wf()
        &&& self.time_base.wf()
    }

    /// Create a black video frame: every plane holds `height` lines of
    /// `stride` zero bytes, where the stride is the width rounded up to
    /// the effective alignment. The time base is microseconds, the
    /// presentation timestamp starts null and `is_blank` is false.
    pub fn black(pixel_format: PixelFormat, width: usize, height: usize, alignment: usize) -> (r:
        VideoFrameMut)
        requires
            width + 32 + alignment <= usize::MAX,
            spec_stride(width as int, alignment as int) * height <= usize::MAX,
        ensures
            r.wf(),
            r.width == width,
            r.height == height,
            r.pixel_format == pixel_format,
            r.time_base == spec_microseconds(),
            r.pts_ticks == i64::MIN,
            r.is_blank == false,
            r.pkt_duration == 0,
            r.repeat == 0,
            r.planes@.len() == spec_plane_count(),
            forall|i: int|
                0 <= i < spec_plane_count() ==> (#[trigger] r.planes@[i]).line_size == spec_stride(
                    width as int,
                    alignment as int,
                ) && r.planes@[i].line_count == height && r.planes@[i].data@.len() == spec_stride(
                    width as int,
                    alignment as int,
                ) * height && (forall|k: int|
                    0 <= k < r.planes@[i].data@.len() ==> r.planes@[i].data@[k] == 0),
    {
        let a: usize = if alignment == 0 {
            32
        } else {
            alignment
        };
        proof {
            let x: int = width + a - 1;
            assert(0 <= (x / (a as int)) * (a as int) <= x) by (nonlinear_arith)
                requires
                    a >= 1,
                    x >= 0,
            ;
        }
        let stride: usize = ((width + a - 1) / a) * a;
        proof {
            assert(stride == spec_stride(width as int, alignment as int));
        }
        let bytes: usize = stride * height;
        let mut planes: Vec<Plane> = Vec::new();
        let mut i: usize = 0;
        while i < 4
            invariant
                i <= 4,
                planes@.len() == i,
                bytes == stride * height,
                forall|j: int|
                    0 <= j < i as int ==> (#[trigger] planes@[j]).line_size == stride
                        && planes@[j].line_count == height && planes@[j].data@.len() == bytes && (
                    forall|k: int| 0 <= k < planes@[j].data@.len() ==> planes@[j].data@[k] == 0),
            decreases 4 - i,
        {
            planes.push(Plane { data: zero_bytes(bytes), line_size: stride, line_count: height });
            i = i + 1;
        }
        VideoFrameMut {
            planes,
            width,
            height,
            pixel_format,
            time_base: TimeBase::microseconds(),
            pts_ticks: i64::MIN,
            is_blank: false,
            pkt_duration: 0,
            repeat: 0,
            colorspace: 0,
            color_transfer_characteristic: 0,
            color_primaries: 0,
        }
    }

    /// Get the frame pixel format.
    pub fn pixel_format(&self) -> (r: PixelFormat)
        ensures
            r == self.pixel_format,
    {
        self.pixel_format
    }

    /// Get the frame width.
    pub fn width(&self) -> (r: usize)
        ensures
            r == self.width,
    {
        self.width
    }

    /// Get the frame height.
    pub fn height(&self) -> (r: usize)
        ensures
            r == self.height,
    {
        self.height
    }

    /// Get the frame time base.
    pub fn time_base(&self) -> (r: TimeBase)
        ensures
            r == self.time_base,
    {
        self.time_base
    }

    /// Convert the frame to another time base; the current presentation
    /// timestamp is rescaled atomically with the change.
    pub fn with_time_base(self, time_base: TimeBase) -> (r: VideoFrameMut)
        requires
            self.wf(),
            time_base.wf(),
        ensures
            r == (VideoFrameMut {
                time_base,
                pts_ticks: (Timestamp { ticks: self.pts_ticks, base: self.time_base })
                    .spec_with_time_base(time_base).ticks,
                ..self
            }),
            r.wf(),
    {
        let rebased: Timestamp = Timestamp::new(self.pts_ticks, self.time_base).with_time_base(
            time_base,
        );
        VideoFrameMut { time_base, pts_ticks: rebased.timestamp(), ..self }
    }

    /// Set whether this frame is blank. `black` does not set the flag;
    /// it is caller-controlled.
    pub fn with_is_blank(self, blank: bool) -> (r: VideoFrameMut)
        ensures
            r == (VideoFrameMut { is_blank: blank, ..self }),
    {
        VideoFrameMut { is_blank: blank, ..self }
    }

    /// Get whether this frame is blank.
    pub fn is_blank(&self) -> (r: bool)
        ensures
            r == self.is_blank,
    {
        self.is_blank
    }

    /// Get the presentation timestamp.
    pub fn pts(&self) -> (r: Timestamp)
        requires
            self.wf(),
        ensures
            r == (Timestamp { ticks: self.pts_ticks, base: self.time_base }),
    {
        Timestamp::new(self.pts_ticks, self.time_base)
    }

    /// Set the presentation timestamp; it is converted into the frame's
    /// own time base first.
    pub fn with_pts(self, pts: Timestamp) -> (r: VideoFrameMut)
        requires
            self.wf(),
            pts.wf(),
        ensures
            r == (VideoFrameMut {
                pts_ticks: pts.spec_with_time_base(self.time_base).ticks,
                ..self
            }),
    {
        let rebased: Timestamp = pts.with_time_base(self.time_base);
        VideoFrameMut { pts_ticks: rebased.timestamp(), ..self }
    }

    /// Get the picture planes.
    pub fn planes(&self) -> (r: &Vec<Plane>)
        ensures
            r == &self.planes,
    {
        &self.planes
    }

    /// Borrow one picture plane mutably. Planes are distinct buffers, so
    /// writing through the borrow touches no other plane; two mutable
    /// views of the same plane cannot coexist.
    pub fn plane_mut(&mut self, index: usize) -> (r: &mut Plane)
        requires
            index < old(self).planes@.len(),
        ensures
            *r == old(self).planes@[index as int],
            final(self).planes@ == old(self).planes@.update(index as int, *final(r)),
            *final(self) == (VideoFrameMut { planes: final(self).planes, ..*old(self) }),
    {
        &mut self.planes[index]
    }

    /// Get the duration of the corresponding packet, in the frame's time
    /// base ticks.
    pub fn duration(&self) -> (r: i64)
        ensures
            r == self.pkt_duration,
    {
        self.pkt_duration
    }

    /// Get the repeat value of the frame, which says whether its display
    /// should be extended.
    pub fn repeat(&self) -> (r: i32)
        ensures
            r == self.repeat,
    {
        self.repeat
    }

    /// Make the frame immutable. The presentation timestamp at this
    /// moment is retained separately as the original timestamp, which
    /// later re-basing never changes.
    pub fn freeze(self) -> (r: VideoFrame)
        requires
            self.wf(),
        ensures
            r.wf(),
            r.planes == self.planes,
            r.width == self.width,
            r.height == self.height,
            r.pixel_format == self.pixel_format,
            r.time_base == self.time_base,
            r.pts_ticks == self.pts_ticks,
            r.is_blank == self.is_blank,
            r.pkt_duration == self.pkt_duration,
            r.repeat == self.repeat,
            r.colorspace == self.colorspace,
            r.color_transfer_characteristic == self.color_transfer_characteristic,
            r.color_primaries == self.color_primaries,
            r.original_pts == (Timestamp { ticks: self.pts_ticks, base: self.time_base }),
    {
        VideoFrame {
            planes: self.planes,
            width: self.width,
            height: self.height,
            pixel_format: self.pixel_format,
            time_base: self.time_base,
            pts_ticks: self.pts_ticks,
            is_blank: self.is_blank,
            original_pts: Timestamp::new(self.pts_ticks, self.time_base),
            pkt_duration: self.pkt_duration,
            repeat: self.repeat,
            colorspace: self.colorspace,
            color_transfer_characteristic: self.color_transfer_characteristic,
            color_primaries: self.color_primaries,
        }
    }
}

/// Create a zero-filled byte buffer.
fn zero_bytes(n: usize) -> (r: Vec<u8>)
    ensures
        r@.len() == n,
        forall|k: int| 0 <= k < n ==> r@[k] == 0,
{
    let mut r: Vec<u8> = Vec::new();
    let mut j: usize = 0;
    while j < n
        invariant
            j <= n,
            r@.len() == j,
            forall|k: int| 0 <= k < j ==> r@[k] == 0,
        decreases n - j,
    {
        r.push(0);
        j = j + 1;
    }
    r
}

/// The observable content of an immutable video frame.
pub struct VideoFrameImmModel {
    pub frame: VideoFrameModel,
    pub original_pts: Timestamp,
}

/// A video frame with immutable data: shareable by cheap clone, and
/// without any mutating interface, so nothing done to one handle is ever
/// observable from another. Alongside the re-basable current timestamp
/// it retains the original presentation timestamp set when the frame was
/// frozen.
#[derive(Debug)]
pub struct VideoFrame {
    pub planes: Vec<Plane>,
    pub width: usize,
    pub height: usize,
    pub pixel_format: PixelFormat,
    pub time_base: TimeBase,
    pub pts_ticks: i64,
    pub is_blank: bool,
    pub original_pts: Timestamp,
    pub pkt_duration: i64,
    pub repeat: i32,
    pub colorspace: u32,
    pub color_transfer_characteristic: u32,
    pub color_primaries: u32,
}

impl View for VideoFrame {
    type V = VideoFrameImmModel;

    open spec fn view(&self) -> VideoFrameImmModel {
        VideoFrameImmModel {
            frame: VideoFrameModel {
                planes: Seq::new(self.planes@.len(), |i: int| self.planes@[i]@),
                width: self.width,
                height: self.height,
                pixel_format: self.pixel_format,
                time_base: self.time_base,
                pts_ticks: self.pts_ticks,
                is_blank: self.is_blank,
                pkt_duration: self.pkt_duration,
                repeat: self.repeat,
                colorspace: self.colorspace,
                color_transfer_characteristic: self.color_transfer_characteristic,
                color_primaries: self.color_primaries,
            },
            original_pts: self.original_pts,
        }
    }
}

impl VideoFrame {
    /// A frame carries its full complement of well-formed planes and
    /// valid time bases.
    pub open spec fn wf(self) -> bool {
        &&& self.planes@.len() == spec_plane_count()
        &&& forall|i: int| 0 <= i < self.planes@.len() ==> (#[trigger] self.planes@[i]).wf()
        &&& self.time_base.wf()
        &&& self.original_pts.wf()
    }

    /// Get the frame pixel format.
    pub fn pixel_format(&self) -> (r: PixelFormat)
        ensures
            r == self.pixel_format,
    {
        self.pixel_format
    }

    /// Get the frame width.
    pub fn width(&self) -> (r: usize)
        ensures
            r == self.width,
    {
        self.width
    }

    /// Get the frame height.
    pub fn height(&self) -> (r: usize)
        ensures
            r == self.height,
    {
        self.height
    }

    /// Get the colourspace (the index of the conversion matrix in the
    /// native table).
    pub fn colorspace(&self) -> (r: u32)
        ensures
            r == self.colorspace,
    {
        self.colorspace
    }

    /// Get the colour transfer characteristic (the transfer function's
    /// index in the native table).
    pub fn color_transfer_characteristic(&self) -> (r: u32)
        ensures
            r == self.color_transfer_characteristic,
    {
        self.color_transfer_characteristic
    }

    /// Get the colour primaries (their index in the native table).
    pub fn color_primaries(&self) -> (r: u32)
        ensures
            r == self.color_primaries,
    {
        self.color_primaries
    }

    /// Get the picture planes, read-only.
    pub fn planes(&self) -> (r: &Vec<Plane>)
        ensures
            r == &self.planes,
    {
        &self.planes
    }

    /// Get the frame time base.
    pub fn time_base(&self) -> (r: TimeBase)
        ensures
            r == self.time_base,
    {
        self.time_base
    }

    /// Convert the frame to another time base; the current presentation
    /// timestamp is rescaled atomically with the change, while the
    /// original timestamp keeps both its value and its base.
    pub fn with_time_base(self, time_base: TimeBase) -> (r: VideoFrame)
        requires
            self.wf(),
            time_base.wf(),
        ensures
            r == (VideoFrame {
                time_base,
                pts_ticks: (Timestamp { ticks: self.pts_ticks, base: self.time_base })
                    .spec_with_time_base(time_base).ticks,
                ..self
            }),
            r.original_pts == self.original_pts,
            r.wf(),
    {
        let rebased: Timestamp = Timestamp::new(self.pts_ticks, self.time_base).with_time_base(
            time_base,
        );
        VideoFrame { time_base, pts_ticks: rebased.timestamp(), ..self }
    }

    /// Get the original presentation timestamp, set once when the frame
    /// was frozen and immutable from then on.
    pub fn original_pts(&self) -> (r: Timestamp)
        ensures
            r == self.original_pts,
    {
        self.original_pts
    }

    /// Get the presentation timestamp.
    pub fn pts(&self) -> (r: Timestamp)
        requires
            self.wf(),
        ensures
            r == (Timestamp { ticks: self.pts_ticks, base: self.time_base }),
    {
        Timestamp::new(self.pts_ticks, self.time_base)
    }

    /// Set the presentation timestamp; it is converted into the frame's
    /// own time base first. The original timestamp is untouched.
    pub fn with_pts(self, pts: Timestamp) -> (r: VideoFrame)
        requires
            self.wf(),
            pts.wf(),
        ensures
            r == (VideoFrame {
                pts_ticks: pts.spec_with_time_base(self.time_base).ticks,
                ..self
            }),
            r.original_pts == self.original_pts,
    {
        let rebased: Timestamp = pts.with_time_base(self.time_base);
        VideoFrame { pts_ticks: rebased.timestamp(), ..self }
    }

    /// Get the duration of the corresponding packet, in the frame's own
    /// time base.
    pub fn duration(&self) -> (r: Timestamp)
        requires
            self.wf(),
        ensures
            r == (Timestamp { ticks: self.pkt_duration, base: self.time_base }),
    {
        Timestamp::new(self.pkt_duration, self.time_base)
    }

    /// Get the repeat value of the frame, which says whether its display
    /// should be extended.
    pub fn repeat(&self) -> (r: i32)
        ensures
            r == self.repeat,
    {
        self.repeat
    }

    /// Get whether this frame is blank.
    pub fn is_blank(&self) -> (r: bool)
        ensures
            r == self.is_blank,
    {
        self.is_blank
    }
}

impl Clone for VideoFrame {
    /// Cloning an immutable frame duplicates the logical reference: the
    /// clone observes exactly the bytes, timestamps and attributes of
    /// the original, and since neither handle exposes mutation, nothing
    /// done with one is ever observable from the other.
    fn clone(&self) -> (r: Self)
        ensures
            r@ == self@,
    {
        let mut planes: Vec<Plane> = Vec::new();
        let mut i: usize = 0;
        let n: usize = self.planes.len();
        while i < n
            invariant
                i <= n,
                n == self.planes@.len(),
                planes@.len() == i,
                forall|j: int| 0 <= j < i as int ==> (#[trigger] planes@[j])@ == self.planes@[j]@,
            decreases n - i,
        {
            planes.push(self.planes[i].clone());
            i = i + 1;
        }
        let r = VideoFrame {
            planes,
            width: self.width,
            height: self.height,
            pixel_format: self.pixel_format,
            time_base: self.time_base,
            pts_ticks: self.pts_ticks,
            is_blank: self.is_blank,
            original_pts: self.original_pts,
            pkt_duration: self.pkt_duration,
            repeat: self.repeat,
            colorspace: self.colorspace,
            color_transfer_characteristic: self.color_transfer_characteristic,
            color_primaries: self.color_primaries,
        };
        proof {
            assert(r@.frame.planes =~= self@.frame.planes);
        }
        r
    }
}

} // verus!
