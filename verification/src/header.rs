//! The header that stands before every frame: its fields, their places among
//! its octets, and the values that hold them.

use crate::endian::{
    be_u16, be_u16_bytes, be_u32, be_u32_bytes, lemma_be_u16_bytes_of, lemma_be_u16_of_bytes,
    lemma_be_u32_bytes_of, lemma_be_u32_of_bytes, u16_from_network, u16_to_network,
    u32_from_network, u32_to_network,
};
use crate::tag::Tag;
use std::marker::PhantomData;
use vstd::prelude::*;

verus! {

/// The number of octets that a header takes at the front of a buffer.
pub const HEADER_LEN: usize = 13;

/// Where the version octet lies in a header.
pub const VERSION_AT: usize = 0;

/// Where the tag octet lies in a header.
pub const TAG_AT: usize = 1;

/// Where the two octets of the flags begin in a header.
pub const FLAGS_AT: usize = 2;

/// Where the four octets of the stream identifier begin in a header.
pub const STREAM_ID_AT: usize = 4;

/// Where the four octets of the payload length begin in a header.
pub const LENGTH_AT: usize = 8;

/// Where the fields end. The one octet from here to the end of the header
/// belongs to no field: it is written as zero and never read.
pub const FIELDS_END: usize = 12;

/// The fields of a header, as numbers.
pub struct Fields {
    pub version: u8,
    pub tag: u8,
    pub flags: u16,
    pub stream_id: u32,
    pub length: u32,
}

impl Fields {
    /// The octets of a header with these fields: the fields in their order,
    /// nothing between them, each number with its most significant octet
    /// first, and a zero octet to fill the header.
    pub open spec fn encode(self) -> Seq<u8> {
        seq![self.version, self.tag] + be_u16_bytes(self.flags) + be_u32_bytes(self.stream_id)
            + be_u32_bytes(self.length) + seq![0u8]
    }

    /// The fields that the octets of a header hold.
    pub open spec fn decode(header: Seq<u8>) -> Fields
        recommends
            header.len() == HEADER_LEN,
    {
        Fields {
            version: header[VERSION_AT as int],
            tag: header[TAG_AT as int],
            flags: be_u16(header.subrange(FLAGS_AT as int, STREAM_ID_AT as int)),
            stream_id: be_u32(header.subrange(STREAM_ID_AT as int, LENGTH_AT as int)),
            length: be_u32(header.subrange(LENGTH_AT as int, FIELDS_END as int)),
        }
    }

    /// A header is `HEADER_LEN` octets long whatever its fields hold, and
    /// reading the octets gives every field back.
    pub proof fn lemma_decode_encode(self)
        ensures
            self.encode().len() == HEADER_LEN,
            Fields::decode(self.encode()) == self,
    {
        let h = self.encode();
        lemma_be_u16_of_bytes(self.flags);
        lemma_be_u32_of_bytes(self.stream_id);
        lemma_be_u32_of_bytes(self.length);
        assert(h.subrange(FLAGS_AT as int, STREAM_ID_AT as int) =~= be_u16_bytes(self.flags));
        assert(h.subrange(STREAM_ID_AT as int, LENGTH_AT as int) =~= be_u32_bytes(self.stream_id));
        assert(h.subrange(LENGTH_AT as int, FIELDS_END as int) =~= be_u32_bytes(self.length));
    }

    /// Writing out the fields read from a header gives its octets back, but
    /// for the last one, which holds no field.
    pub proof fn lemma_encode_decode(header: Seq<u8>)
        requires
            header.len() == HEADER_LEN,
        ensures
            Fields::decode(header).encode() == header.update(FIELDS_END as int, 0u8),
    {
        lemma_be_u16_bytes_of(header.subrange(FLAGS_AT as int, STREAM_ID_AT as int));
        lemma_be_u32_bytes_of(header.subrange(STREAM_ID_AT as int, LENGTH_AT as int));
        lemma_be_u32_bytes_of(header.subrange(LENGTH_AT as int, FIELDS_END as int));
        assert(Fields::decode(header).encode() =~= header.update(FIELDS_END as int, 0u8));
    }
}

/// The revision of the format that a frame follows.
#[derive(Copy, Clone, Debug)]
pub struct Version(u8);

impl View for Version {
    type V = u8;

    closed spec fn view(&self) -> u8 {
        self.0
    }
}

impl Version {
    /// The version with the number `val`.
    pub fn new(val: u8) -> (version: Self)
        ensures
            version@ == val,
    {
        Version(val)
    }

    /// The number of this version.
    pub fn val(self) -> (val: u8)
        ensures
            val == self@,
    {
        self.0
    }
}

/// The flags of a frame, held as they lie on the wire.
#[derive(Copy, Clone, Debug)]
pub struct Flags([u8; 2]);

impl View for Flags {
    type V = u16;

    closed spec fn view(&self) -> u16 {
        be_u16(self.0@)
    }
}

impl Flags {
    /// The flags with the bits of `val`.
    pub fn new(val: u16) -> (flags: Self)
        ensures
            flags@ == val,
    {
        proof {
            lemma_be_u16_of_bytes(val);
        }
        Flags(u16_to_network(val))
    }

    /// The bits of these flags, as a number of this machine.
    pub fn val(self) -> (val: u16)
        ensures
            val == self@,
    {
        u16_from_network(self.0)
    }

    /// The flags that lie in `raw`.
    pub(crate) fn from_wire(raw: [u8; 2]) -> (flags: Self)
        ensures
            flags@ == be_u16(raw@),
    {
        Flags(raw)
    }

    /// The octets of these flags, as they lie on the wire.
    pub(crate) fn wire(self) -> (raw: [u8; 2])
        ensures
            raw@ == be_u16_bytes(self@),
    {
        proof {
            lemma_be_u16_bytes_of(self.0@);
        }
        self.0
    }
}

/// The stream that a frame belongs to, held as it lies on the wire.
#[derive(Copy, Clone, Debug)]
pub struct StreamId([u8; 4]);

impl View for StreamId {
    type V = u32;

    closed spec fn view(&self) -> u32 {
        be_u32(self.0@)
    }
}

impl StreamId {
    /// The identifier of stream `val`; every number names a stream.
    pub fn new(val: u32) -> (id: Self)
        ensures
            id@ == val,
    {
        proof {
            lemma_be_u32_of_bytes(val);
        }
        StreamId(u32_to_network(val))
    }

    /// The number of the stream, as a number of this machine.
    pub fn val(self) -> (val: u32)
        ensures
            val == self@,
    {
        u32_from_network(self.0)
    }

    /// The stream identifier that lies in `raw`.
    pub(crate) fn from_wire(raw: [u8; 4]) -> (id: Self)
        ensures
            id@ == be_u32(raw@),
    {
        StreamId(raw)
    }

    /// The octets of this stream identifier, as they lie on the wire.
    pub(crate) fn wire(self) -> (raw: [u8; 4])
        ensures
            raw@ == be_u32_bytes(self@),
    {
        proof {
            lemma_be_u32_bytes_of(self.0@);
        }
        self.0
    }
}

/// The number of octets in a frame's payload, held as it lies on the wire.
#[derive(Copy, Clone, Debug)]
pub struct Len([u8; 4]);

impl View for Len {
    type V = u32;

    closed spec fn view(&self) -> u32 {
        be_u32(self.0@)
    }
}

impl Len {
    /// The length of a payload of `val` octets.
    pub fn new(val: u32) -> (len: Self)
        ensures
            len@ == val,
    {
        proof {
            lemma_be_u32_of_bytes(val);
        }
        Len(u32_to_network(val))
    }

    /// The number of octets, as a number of this machine; whatever four
    /// octets the header holds is a length.
    pub fn val(self) -> (val: u32)
        ensures
            val == self@,
    {
        u32_from_network(self.0)
    }

    /// The length that lies in `raw`.
    pub(crate) fn from_wire(raw: [u8; 4]) -> (len: Self)
        ensures
            len@ == be_u32(raw@),
    {
        Len(raw)
    }

    /// The octets of this length, as they lie on the wire.
    pub(crate) fn wire(self) -> (raw: [u8; 4])
        ensures
            raw@ == be_u32_bytes(self@),
    {
        proof {
            lemma_be_u32_bytes_of(self.0@);
        }
        self.0
    }
}

/// Marks a header as that of a data frame.
#[derive(Copy, Clone, Debug)]
pub struct Data {}

/// A header as a value of its own, apart from any buffer. `T` marks the kind
/// of frame that it was made for.
#[derive(Debug)]
pub struct Header<T> {
    version: Version,
    tag: u8,
    flags: Flags,
    stream_id: StreamId,
    length: Len,
    _marker: PhantomData<T>,
}

impl<T> Clone for Header<T> {
    fn clone(&self) -> (copy: Self)
        ensures
            copy == *self,
    {
        *self
    }
}

impl<T> Copy for Header<T> {}

impl<T> View for Header<T> {
    type V = Fields;

    closed spec fn view(&self) -> Fields {
        Fields {
            version: self.version@,
            tag: self.tag,
            flags: self.flags@,
            stream_id: self.stream_id@,
            length: self.length@,
        }
    }
}

impl<T> Header<T> {
    /// A header with the given fields.
    pub fn new(
        version: Version,
        tag: Tag,
        flags: Flags,
        stream_id: StreamId,
        length: Len,
    ) -> (header: Self)
        ensures
            header@ == (Fields {
                version: version@,
                tag: tag.byte(),
                flags: flags@,
                stream_id: stream_id@,
                length: length@,
            }),
    {
        Header { version, tag: tag.byte(), flags, stream_id, length, _marker: PhantomData }
    }

    /// The octets of this header, as they lie at the front of a frame.
    pub fn to_bytes(&self) -> (bytes: [u8; HEADER_LEN])
        ensures
            bytes@ == self@.encode(),
    {
        let f = self.flags.wire();
        let s = self.stream_id.wire();
        let l = self.length.wire();
        let bytes = [
            self.version.val(),
            self.tag,
            f[0],
            f[1],
            s[0],
            s[1],
            s[2],
            s[3],
            l[0],
            l[1],
            l[2],
            l[3],
            0,
        ];
        assert(bytes@ =~= self@.encode());
        bytes
    }
}

impl Header<Data> {
    /// The header of a data frame on stream `id` with a payload of `len` octets.
    pub fn data(id: StreamId, len: u32) -> (header: Self)
        ensures
            header@ == (Fields {
                version: 0,
                tag: Tag::Data.byte(),
                flags: 0,
                stream_id: id@,
                length: len,
            }),
    {
        Header {
            version: Version::new(0),
            tag: Tag::Data.byte(),
            flags: Flags::new(0),
            stream_id: id,
            length: Len::new(len),
            _marker: PhantomData,
        }
    }
}

} // verus!
