//! Frames laid over a buffer: the header is the front of the buffer, the
//! payload is what follows, and neither is copied.

use crate::header::{
    Fields, Flags, Len, StreamId, Version, FIELDS_END, FLAGS_AT, HEADER_LEN, LENGTH_AT,
    STREAM_ID_AT, TAG_AT, VERSION_AT,
};
use crate::tag::Tag;
use vstd::prelude::*;
use zerocopy::Ref;

verus! {

/// Why a buffer holds no frame.
#[derive(Copy, Clone, Debug, PartialEq, Eq, Structural)]
pub enum ParseError {
    /// The buffer is shorter than a header: more octets may still come.
    InsufficientData,
    /// The tag octet stands for no tag: the frame is corrupt.
    InvalidTag,
}

/// What a frame shows of its buffer: the octets of the header and those of
/// the payload.
pub struct FrameView {
    pub header: Seq<u8>,
    pub body: Seq<u8>,
}

impl FrameView {
    /// The fields that the header holds.
    pub open spec fn fields(self) -> Fields {
        Fields::decode(self.header)
    }

    /// The octets of the whole buffer under the frame.
    pub open spec fn bytes(self) -> Seq<u8> {
        self.header + self.body
    }

    /// The frame with the octet of `tag` in the place of the tag.
    pub open spec fn with_tag(self, tag: Tag) -> FrameView {
        FrameView { header: self.header.update(TAG_AT as int, tag.byte()), body: self.body }
    }
}

/// What parsing makes of a buffer that holds `bytes`: no frame where the
/// buffer is shorter than a header or the tag octet stands for no tag, else
/// the frame whose header is the first `HEADER_LEN` octets and whose payload
/// is the rest.
pub open spec fn parsed(bytes: Seq<u8>) -> Result<FrameView, ParseError> {
    if bytes.len() < HEADER_LEN {
        Err(ParseError::InsufficientData)
    } else if Tag::of_byte(bytes[TAG_AT as int]) is None {
        Err(ParseError::InvalidTag)
    } else {
        Ok(
            FrameView {
                header: bytes.subrange(0, HEADER_LEN as int),
                body: bytes.subrange(HEADER_LEN as int, bytes.len() as int),
            },
        )
    }
}

/// A buffer shorter than a header holds no frame, whatever is in it.
pub proof fn lemma_short_buffer_rejected(bytes: Seq<u8>)
    requires
        bytes.len() < HEADER_LEN,
    ensures
        parsed(bytes) == Err::<FrameView, ParseError>(ParseError::InsufficientData),
{
}

/// A buffer as long as a header or longer, whose tag octet is 4 or more,
/// holds no frame.
pub proof fn lemma_unknown_tag_rejected(bytes: Seq<u8>)
    requires
        bytes.len() >= HEADER_LEN,
        bytes[TAG_AT as int] >= 4,
    ensures
        parsed(bytes) == Err::<FrameView, ParseError>(ParseError::InvalidTag),
{
}

/// Every other buffer holds a frame: one as long as a header or longer, whose
/// tag octet is below 4.
pub proof fn lemma_parsed_when(bytes: Seq<u8>)
    ensures
        parsed(bytes) is Ok <==> bytes.len() >= HEADER_LEN && bytes[TAG_AT as int] < 4,
{
}

/// The header of a frame is the front of its buffer and the payload is the
/// rest, octet for octet: the payload of a buffer of `n` octets has
/// `n - HEADER_LEN` octets, and its octet `i` is the buffer's octet
/// `HEADER_LEN + i`. The tag octet of the frame stands for a tag.
pub proof fn lemma_frame_lies_in_buffer(bytes: Seq<u8>)
    requires
        parsed(bytes) is Ok,
    ensures
        Tag::of_byte(parsed(bytes)->Ok_0.fields().tag) is Some,
        parsed(bytes)->Ok_0.header.len() == HEADER_LEN,
        parsed(bytes)->Ok_0.body.len() == bytes.len() - HEADER_LEN,
        forall|i: int|
            0 <= i < HEADER_LEN ==> #[trigger] parsed(bytes)->Ok_0.header[i] == bytes[i],
        forall|i: int|
            0 <= i < bytes.len() - HEADER_LEN ==> #[trigger] parsed(bytes)->Ok_0.body[i]
                == bytes[HEADER_LEN + i],
        parsed(bytes)->Ok_0.bytes() == bytes,
{
    assert(parsed(bytes)->Ok_0.bytes() =~= bytes);
}

/// A header written out, with any payload behind it, parses to a frame that
/// holds the same five fields and the same payload, as long as the tag octet
/// stands for a tag.
pub proof fn lemma_parse_of_encoded(fields: Fields, body: Seq<u8>)
    requires
        Tag::of_byte(fields.tag) is Some,
    ensures
        parsed(fields.encode() + body) == Ok::<FrameView, ParseError>(
            FrameView { header: fields.encode(), body },
        ),
        parsed(fields.encode() + body)->Ok_0.fields() == fields,
{
    let bytes = fields.encode() + body;
    fields.lemma_decode_encode();
    assert(bytes.subrange(0, HEADER_LEN as int) =~= fields.encode());
    assert(bytes.subrange(HEADER_LEN as int, bytes.len() as int) =~= body);
}

/// Writing a tag through a frame changes the tag octet of the buffer that the
/// frame was parsed from, and nothing else in it; the buffer still holds a
/// frame, with that tag and with every other field as before.
pub proof fn lemma_set_tag_in_place(bytes: Seq<u8>, tag: Tag)
    requires
        parsed(bytes) is Ok,
    ensures
        parsed(bytes)->Ok_0.with_tag(tag).bytes() == bytes.update(TAG_AT as int, tag.byte()),
        parsed(bytes.update(TAG_AT as int, tag.byte())) == Ok::<FrameView, ParseError>(
            parsed(bytes)->Ok_0.with_tag(tag),
        ),
        parsed(bytes)->Ok_0.with_tag(tag).fields() == (Fields {
            tag: tag.byte(),
            ..parsed(bytes)->Ok_0.fields()
        }),
{
    let before = parsed(bytes)->Ok_0;
    let after = before.with_tag(tag);
    let written = bytes.update(TAG_AT as int, tag.byte());
    assert(after.bytes() =~= written);
    assert(written.subrange(0, HEADER_LEN as int) =~= after.header);
    assert(written.subrange(HEADER_LEN as int, written.len() as int) =~= after.body);
    assert(after.header.subrange(FLAGS_AT as int, STREAM_ID_AT as int) =~= before.header.subrange(
        FLAGS_AT as int,
        STREAM_ID_AT as int,
    ));
    assert(after.header.subrange(STREAM_ID_AT as int, LENGTH_AT as int)
        =~= before.header.subrange(STREAM_ID_AT as int, LENGTH_AT as int));
    assert(after.header.subrange(LENGTH_AT as int, FIELDS_END as int) =~= before.header.subrange(
        LENGTH_AT as int,
        FIELDS_END as int,
    ));
}

/// Splits a buffer after its first `N` octets through
/// `zerocopy::Ref::new_from_prefix`, taken at the type of an array of `N`
/// octets; `zerocopy::Ref::into_ref` turns the first part into a plain
/// reference. There is a result exactly when the buffer holds `N` octets or
/// more; its first part then holds those `N` octets and its second part the
/// octets behind them.
#[verifier::external_body]
fn split_prefix<'a, const N: usize>(bytes: &'a [u8]) -> (parts: Option<(&'a [u8; N], &'a [u8])>)
    ensures
        parts is Some <==> bytes@.len() >= N,
        parts matches Some((head, rest)) ==> head@ == bytes@.subrange(0, N as int) && rest@
            == bytes@.subrange(N as int, bytes@.len() as int),
{
    match Ref::<&'a [u8], [u8; N]>::new_from_prefix(bytes) {
        Some((head, rest)) => Some((head.into_ref(), rest)),
        None => None,
    }
}

/// Splits a buffer that may be written after its first `N` octets through
/// `zerocopy::Ref::new_from_prefix`, taken at the type of an array of `N`
/// octets; `zerocopy::Ref::into_mut` turns the first part into a plain
/// reference. There is a result exactly when the buffer holds `N` octets or
/// more; its first part then holds those `N` octets and its second part the
/// octets behind them, and in the end the buffer holds what the two parts
/// hold in the end, one behind the other. Without a result the buffer is left
/// as it was.
#[verifier::external_body]
fn split_prefix_mut<'a, const N: usize>(bytes: &'a mut [u8]) -> (parts: Option<
    (&'a mut [u8; N], &'a mut [u8]),
>)
    ensures
        parts is Some <==> old(bytes)@.len() >= N,
        parts matches Some((head, rest)) ==> head@ == old(bytes)@.subrange(0, N as int)
            && rest@ == old(bytes)@.subrange(N as int, old(bytes)@.len() as int)
            && final(bytes)@ == final(head)@ + final(rest)@,
        parts is None ==> final(bytes)@ == old(bytes)@,
{
    match Ref::<&'a mut [u8], [u8; N]>::new_from_prefix(bytes) {
        Some((head, rest)) => Some((head.into_mut(), rest)),
        None => None,
    }
}

/// The version in a header.
fn version_in(header: &[u8; HEADER_LEN]) -> (version: Version)
    ensures
        version@ == Fields::decode(header@).version,
{
    Version::new(header[VERSION_AT])
}

/// The tag in a header, if its tag octet stands for one.
fn tag_in(header: &[u8; HEADER_LEN]) -> (tag: Result<Tag, ()>)
    ensures
        tag is Ok <==> Tag::of_byte(Fields::decode(header@).tag) is Some,
        tag matches Ok(t) ==> Tag::of_byte(Fields::decode(header@).tag) == Some(t),
{
    Tag::try_from(header[TAG_AT])
}

/// The flags in a header.
fn flags_in(header: &[u8; HEADER_LEN]) -> (flags: Flags)
    ensures
        flags@ == Fields::decode(header@).flags,
{
    let raw = [header[FLAGS_AT], header[FLAGS_AT + 1]];
    assert(raw@ =~= header@.subrange(FLAGS_AT as int, STREAM_ID_AT as int));
    Flags::from_wire(raw)
}

/// The stream identifier in a header.
fn stream_id_in(header: &[u8; HEADER_LEN]) -> (id: StreamId)
    ensures
        id@ == Fields::decode(header@).stream_id,
{
    let raw = [
        header[STREAM_ID_AT],
        header[STREAM_ID_AT + 1],
        header[STREAM_ID_AT + 2],
        header[STREAM_ID_AT + 3],
    ];
    assert(raw@ =~= header@.subrange(STREAM_ID_AT as int, LENGTH_AT as int));
    StreamId::from_wire(raw)
}

/// The payload length in a header.
fn length_in(header: &[u8; HEADER_LEN]) -> (len: Len)
    ensures
        len@ == Fields::decode(header@).length,
{
    let raw = [
        header[LENGTH_AT],
        header[LENGTH_AT + 1],
        header[LENGTH_AT + 2],
        header[LENGTH_AT + 3],
    ];
    assert(raw@ =~= header@.subrange(LENGTH_AT as int, FIELDS_END as int));
    Len::from_wire(raw)
}

/// A frame in a buffer that is only read.
#[derive(Copy, Clone, Debug)]
pub struct Frame<'a> {
    /// The front of the buffer.
    pub header: &'a [u8; HEADER_LEN],
    /// The rest of the buffer.
    pub body: &'a [u8],
}

impl<'a> View for Frame<'a> {
    type V = FrameView;

    open spec fn view(&self) -> FrameView {
        FrameView { header: self.header@, body: self.body@ }
    }
}

impl<'a> Frame<'a> {
    /// Lays a frame over `bytes`, or says why none lies there.
    pub fn try_parse(bytes: &'a [u8]) -> (r: Result<Frame<'a>, ParseError>)
        ensures
            match r {
                Ok(frame) => parsed(bytes@) == Ok::<FrameView, ParseError>(frame@),
                Err(e) => parsed(bytes@) == Err::<FrameView, ParseError>(e),
            },
    {
        match split_prefix::<HEADER_LEN>(bytes) {
            None => Err(ParseError::InsufficientData),
            Some((header, body)) => {
                if tag_in(header).is_ok() {
                    Ok(Frame { header, body })
                } else {
                    Err(ParseError::InvalidTag)
                }
            },
        }
    }

    /// Lays a frame over `bytes`; there is none where `bytes` is shorter than
    /// a header or its tag octet stands for no tag.
    pub fn parse(bytes: &'a [u8]) -> (r: Option<Frame<'a>>)
        ensures
            match r {
                Some(frame) => parsed(bytes@) == Ok::<FrameView, ParseError>(frame@),
                None => parsed(bytes@) is Err,
            },
    {
        match Self::try_parse(bytes) {
            Ok(frame) => Some(frame),
            Err(_) => None,
        }
    }

    /// The version, copied out of the header.
    pub fn version(&self) -> (version: Version)
        ensures
            version@ == self@.fields().version,
    {
        version_in(self.header)
    }

    /// The tag, if the tag octet stands for one; it does in a frame as
    /// parsing gives it.
    pub fn tag(&self) -> (tag: Result<Tag, ()>)
        ensures
            tag is Ok <==> Tag::of_byte(self@.fields().tag) is Some,
            tag matches Ok(t) ==> Tag::of_byte(self@.fields().tag) == Some(t),
    {
        tag_in(self.header)
    }

    /// The flags, copied out of the header.
    pub fn flags(&self) -> (flags: Flags)
        ensures
            flags@ == self@.fields().flags,
    {
        flags_in(self.header)
    }

    /// The stream identifier, copied out of the header.
    pub fn stream_id(&self) -> (id: StreamId)
        ensures
            id@ == self@.fields().stream_id,
    {
        stream_id_in(self.header)
    }

    /// The payload length that the header declares, copied out of it. It is
    /// not held against the octets that the payload has.
    pub fn length(&self) -> (len: Len)
        ensures
            len@ == self@.fields().length,
    {
        length_in(self.header)
    }
}

/// A frame in a buffer that may be written: what is written through the frame
/// is written to the buffer.
#[derive(Debug)]
pub struct FrameMut<'a> {
    /// The front of the buffer.
    pub header: &'a mut [u8; HEADER_LEN],
    /// The rest of the buffer.
    pub body: &'a mut [u8],
}

impl<'a> View for FrameMut<'a> {
    type V = FrameView;

    open spec fn view(&self) -> FrameView {
        FrameView { header: self.header@, body: self.body@ }
    }
}

impl<'a> FrameMut<'a> {
    /// Lays a frame over `bytes`, or says why none lies there. With a frame,
    /// the buffer holds in the end what the frame's two parts hold in the
    /// end; without one it is left as it was.
    pub fn try_parse(bytes: &'a mut [u8]) -> (r: Result<FrameMut<'a>, ParseError>)
        ensures
            match r {
                Ok(frame) => parsed(old(bytes)@) == Ok::<FrameView, ParseError>(frame@)
                    && final(bytes)@ == final(frame.header)@ + final(frame.body)@,
                Err(e) => parsed(old(bytes)@) == Err::<FrameView, ParseError>(e) && final(bytes)@
                    == old(bytes)@,
            },
    {
        match split_prefix_mut::<HEADER_LEN>(bytes) {
            None => Err(ParseError::InsufficientData),
            Some((header, body)) => {
                if tag_in(header).is_ok() {
                    Ok(FrameMut { header, body })
                } else {
                    assert(header@ + body@ =~= old(bytes)@);
                    Err(ParseError::InvalidTag)
                }
            },
        }
    }

    /// Lays a frame over `bytes`; there is none where `bytes` is shorter than
    /// a header or its tag octet stands for no tag. With a frame, the buffer
    /// holds in the end what the frame's two parts hold in the end; without
    /// one it is left as it was.
    pub fn parse(bytes: &'a mut [u8]) -> (r: Option<FrameMut<'a>>)
        ensures
            match r {
                Some(frame) => parsed(old(bytes)@) == Ok::<FrameView, ParseError>(frame@)
                    && final(bytes)@ == final(frame.header)@ + final(frame.body)@,
                None => parsed(old(bytes)@) is Err && final(bytes)@ == old(bytes)@,
            },
    {
        match Self::try_parse(bytes) {
            Ok(frame) => Some(frame),
            Err(_) => None,
        }
    }

    /// The version, copied out of the header.
    pub fn version(&self) -> (version: Version)
        ensures
            version@ == self@.fields().version,
    {
        version_in(self.header)
    }

    /// The tag, if the tag octet stands for one; it does in a frame as
    /// parsing gives it.
    pub fn tag(&self) -> (tag: Result<Tag, ()>)
        ensures
            tag is Ok <==> Tag::of_byte(self@.fields().tag) is Some,
            tag matches Ok(t) ==> Tag::of_byte(self@.fields().tag) == Some(t),
    {
        tag_in(self.header)
    }

    /// The flags, copied out of the header.
    pub fn flags(&self) -> (flags: Flags)
        ensures
            flags@ == self@.fields().flags,
    {
        flags_in(self.header)
    }

    /// The stream identifier, copied out of the header.
    pub fn stream_id(&self) -> (id: StreamId)
        ensures
            id@ == self@.fields().stream_id,
    {
        stream_id_in(self.header)
    }

    /// The payload length that the header declares, copied out of it. It is
    /// not held against the octets that the payload has.
    pub fn length(&self) -> (len: Len)
        ensures
            len@ == self@.fields().length,
    {
        length_in(self.header)
    }

    /// Writes the octet of `tag` over the tag octet, in the buffer itself.
    /// No other octet of the header changes and none of the payload, and the
    /// frame lies over the same buffer as before. The length is not held
    /// against the new tag.
    pub fn set_tag(&mut self, tag: Tag)
        ensures
            final(self)@ == old(self)@.with_tag(tag),
            final(final(self).header)@ == final(old(self).header)@,
            final(final(self).body)@ == final(old(self).body)@,
    {
        self.header[TAG_AT] = tag.byte();
    }
}

} // verus!
