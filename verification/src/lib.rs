//! A fixed-size frame header in network byte order, and views that lay it
//! over the front of a byte buffer without copying the buffer.
//!
//! A header takes the first [`HEADER_LEN`] octets of a frame: a version
//! octet, a tag octet, two octets of flags, four of stream identifier and
//! four of payload length, each number with its most significant octet
//! first, and one last octet that holds no field. [`Frame`] and [`FrameMut`]
//! split a buffer into that header and the payload behind it, and read and
//! write the fields where they lie.

pub mod endian;
pub mod frame;
pub mod header;
pub mod tag;

pub use crate::frame::{Frame, FrameMut, FrameView, ParseError};
pub use crate::header::{Data, Fields, Flags, Header, Len, StreamId, Version, HEADER_LEN};
pub use crate::tag::Tag;
