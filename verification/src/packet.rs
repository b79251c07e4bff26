//! Compressed data units read from a container.

use vstd::prelude::*;

use crate::time::Timestamp;

verus! {

/// Copy a byte buffer; the copy holds exactly the same bytes.
pub fn clone_bytes(v: &Vec<u8>) -> (r: Vec<u8>)
    ensures
        r@ == v@,
{
    let r: Vec<u8> = v.clone();
    proof {
        assert(r@ =~= v@);
    }
    r
}

/// An opaque compressed data unit, bound to the time base of the stream
/// that produced it at the moment it was read. A packet is exclusively
/// owned; ownership transfers on move.
#[derive(Debug)]
pub struct Packet {
    /// Index of the originating stream.
    pub stream_index: usize,
    /// Presentation timestamp, in the originating stream's time base.
    pub pts: Timestamp,
    /// Whether this packet starts at a keyframe.
    pub key: bool,
    /// Byte offset of the packet within the container.
    pub position: u64,
    /// The compressed payload.
    pub data: Vec<u8>,
}

/// The observable content of a packet, with the payload as a byte
/// sequence.
pub struct PacketModel {
    pub stream_index: usize,
    pub pts: Timestamp,
    pub key: bool,
    pub position: u64,
    pub data: Seq<u8>,
}

impl View for Packet {
    type V = PacketModel;

    open spec fn view(&self) -> PacketModel {
        PacketModel {
            stream_index: self.stream_index,
            pts: self.pts,
            key: self.key,
            position: self.position,
            data: self.data@,
        }
    }
}

impl Packet {
    /// A packet is well-formed when its timestamp is: the time base is a
    /// positive rational and the tick value is defined.
    pub open spec fn wf(self) -> bool {
        &&& self.pts.wf()
        &&& !self.pts.spec_is_null()
    }

    /// Create a packet from its parts.
    pub fn new(stream_index: usize, pts: Timestamp, key: bool, position: u64, data: Vec<u8>) -> (r:
        Packet)
        ensures
            r.stream_index == stream_index,
            r.pts == pts,
            r.key == key,
            r.position == position,
            r.data@ == data@,
    {
        Packet { stream_index, pts, key, position, data }
    }

    /// The index of the stream this packet came from.
    pub fn stream_index(&self) -> (r: usize)
        ensures
            r == self.stream_index,
    {
        self.stream_index
    }

    /// The presentation timestamp, in the originating stream's time base.
    pub fn pts(&self) -> (r: Timestamp)
        ensures
            r == self.pts,
    {
        self.pts
    }

    /// Whether this packet starts at a keyframe.
    pub fn is_key(&self) -> (r: bool)
        ensures
            r == self.key,
    {
        self.key
    }

    /// The byte offset of the packet within the container.
    pub fn position(&self) -> (r: u64)
        ensures
            r == self.position,
    {
        self.position
    }

    /// The compressed payload.
    pub fn data(&self) -> (r: &Vec<u8>)
        ensures
            r@ == self.data@,
    {
        &self.data
    }
}

impl Clone for Packet {
    /// A cloned packet equals the original in every observable part.
    fn clone(&self) -> (r: Self)
        ensures
            r@ == self@,
    {
        Packet {
            stream_index: self.stream_index,
            pts: self.pts,
            key: self.key,
            position: self.position,
            data: clone_bytes(&self.data),
        }
    }
}

} // verus!
