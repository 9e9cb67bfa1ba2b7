//! The kinds of frame, and the octet that stands for each on the wire.

use vstd::prelude::*;

verus! {

/// What a frame carries.
#[derive(Copy, Clone, Debug, PartialEq, Eq, Structural)]
pub enum Tag {
    Data,
    WindowUpdate,
    Ping,
    GoAway,
}

impl Tag {
    /// The octet that stands for this tag in a header.
    pub open spec fn spec_byte(self) -> u8 {
        match self {
            Tag::Data => 0,
            Tag::WindowUpdate => 1,
            Tag::Ping => 2,
            Tag::GoAway => 3,
        }
    }

    /// The tag that `byte` stands for, if it stands for any.
    pub open spec fn of_byte(byte: u8) -> Option<Tag> {
        if byte == 0 {
            Some(Tag::Data)
        } else if byte == 1 {
            Some(Tag::WindowUpdate)
        } else if byte == 2 {
            Some(Tag::Ping)
        } else if byte == 3 {
            Some(Tag::GoAway)
        } else {
            None
        }
    }

    /// The octet that stands for this tag in a header.
    #[verifier::when_used_as_spec(spec_byte)]
    pub fn byte(self) -> (b: u8)
        ensures
            b == self.spec_byte(),
    {
        match self {
            Tag::Data => 0,
            Tag::WindowUpdate => 1,
            Tag::Ping => 2,
            Tag::GoAway => 3,
        }
    }

    /// Exactly the octets 0 to 3 stand for a tag.
    pub proof fn lemma_of_byte_defined(byte: u8)
        ensures
            Tag::of_byte(byte) is Some <==> byte < 4,
    {
    }

    /// A tag's octet stands for that tag, and an octet that stands for a tag
    /// is that tag's octet.
    pub proof fn lemma_byte_round_trip(tag: Tag, byte: u8)
        ensures
            Tag::of_byte(tag.byte()) == Some(tag),
            Tag::of_byte(byte) == Some(tag) <==> tag.byte() == byte,
    {
    }
}

impl TryFrom<u8> for Tag {
    type Error = ();

    /// The tag that `value` stands for; an error for an octet above 3.
    fn try_from(value: u8) -> (r: Result<Self, Self::Error>)
        ensures
            r is Ok <==> value < 4,
            r matches Ok(tag) ==> tag.byte() == value,
    {
        match value {
            0 => Ok(Self::Data),
            1 => Ok(Self::WindowUpdate),
            2 => Ok(Self::Ping),
            3 => Ok(Self::GoAway),
            _ => Err(()),
        }
    }
}

impl vstd::std_specs::convert::TryFromSpecImpl<u8> for Tag {
    open spec fn obeys_try_from_spec() -> bool {
        true
    }

    open spec fn try_from_spec(value: u8) -> Result<Self, Self::Error> {
        match Tag::of_byte(value) {
            Some(tag) => Ok(tag),
            None => Err(()),
        }
    }
}

} // verus!
