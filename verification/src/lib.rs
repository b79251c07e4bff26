//! Timing and streaming-protocol core for a multimedia pipeline.
//!
//! The crate models the layer that sits between a native codec/container
//! engine and application code: rational time bases and timestamps with
//! drift-free conversion, a demultiplexer with seeking and per-stream
//! discard control, the strictly alternating push/flush/take exchange
//! protocol of buffering processing stages, and decoded frames built from
//! planar byte buffers.

pub mod demuxer;
pub mod error;
pub mod filter;
pub mod frame;
pub mod packet;
pub mod stream;
pub mod time;
