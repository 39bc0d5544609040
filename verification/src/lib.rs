//! Decoder and builder for the fixed-layout header of an 802.11 MAC frame.
//!
//! The decode path turns a raw byte buffer into a [`frame::Dot11Frame`]:
//! the two frame-control bytes are taken apart bit by bit, the byte-aligned
//! header fields follow, and the variable-length payload region is separated
//! from the trailing two-byte checksum by length arithmetic alone.  The
//! builder path constructs and rebuilds frame records field by field.

pub mod bits;
pub mod control;
pub mod error;
pub mod frame;
pub mod reader;
pub mod uints;
