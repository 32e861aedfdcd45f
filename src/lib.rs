//! Zero-copy readers and writers for RTP and RTCP packets, with a
//! demultiplexer for streams that carry both on one transport.
//!
//! Construction of a view fails only when the buffer is shorter than the
//! fixed part of the layout; every field is exposed as it stands on the wire.
pub mod bytes;
pub mod demux;
pub mod discord;
pub mod rtcp;
pub mod rtp;
pub mod wrap;
