use frame_header::{Data, Flags, Header, Len, StreamId, Tag, Version, HEADER_LEN};

#[test]
fn header_is_thirteen_octets() {
    assert_eq!(HEADER_LEN, 13);
    let header = Header::<Data>::data(StreamId::new(0), 0);
    assert_eq!(header.to_bytes().len(), 13);
}

#[test]
fn data_header_has_version_zero_tag_data_flags_zero() {
    let header = Header::<Data>::data(StreamId::new(7), 9);
    assert_eq!(header.to_bytes(), [0, 0, 0, 0, 0, 0, 0, 7, 0, 0, 0, 9, 0]);
}

#[test]
fn stream_id_one_and_length_three_are_written_high_octet_first() {
    let header = Header::<Data>::new(
        Version::new(1),
        Tag::Data,
        Flags::new(0),
        StreamId::new(1),
        Len::new(3),
    );
    assert_eq!(
        header.to_bytes(),
        [0x01, 0x00, 0x00, 0x00, 0x00, 0x00, 0x00, 0x01, 0x00, 0x00, 0x00, 0x03, 0x00]
    );
}

#[test]
fn flags_with_the_high_octet_set_are_written_high_octet_first() {
    let header = Header::<Data>::new(
        Version::new(1),
        Tag::Data,
        Flags::new(0x0100),
        StreamId::new(1),
        Len::new(3),
    );
    let bytes = header.to_bytes();
    assert_eq!(
        bytes[..12],
        [0x01, 0x00, 0x01, 0x00, 0x00, 0x00, 0x00, 0x01, 0x00, 0x00, 0x00, 0x03]
    );
    assert_eq!(bytes[12], 0);
}

#[test]
fn every_octet_of_a_number_has_its_place() {
    let header = Header::<Data>::new(
        Version::new(0xab),
        Tag::GoAway,
        Flags::new(0x1234),
        StreamId::new(0x0102_0304),
        Len::new(0xa0b0_c0d0),
    );
    assert_eq!(
        header.to_bytes(),
        [0xab, 0x03, 0x12, 0x34, 0x01, 0x02, 0x03, 0x04, 0xa0, 0xb0, 0xc0, 0xd0, 0x00]
    );
}

#[test]
fn largest_values_fill_every_field_octet() {
    let header = Header::<Data>::new(
        Version::new(u8::MAX),
        Tag::GoAway,
        Flags::new(u16::MAX),
        StreamId::new(u32::MAX),
        Len::new(u32::MAX),
    );
    assert_eq!(
        header.to_bytes(),
        [0xff, 0x03, 0xff, 0xff, 0xff, 0xff, 0xff, 0xff, 0xff, 0xff, 0xff, 0xff, 0x00]
    );
}

#[test]
fn field_values_read_back_what_was_put_in() {
    assert_eq!(Version::new(0).val(), 0);
    assert_eq!(Version::new(200).val(), 200);
    assert_eq!(Flags::new(0).val(), 0);
    assert_eq!(Flags::new(0x0102).val(), 0x0102);
    assert_eq!(Flags::new(u16::MAX).val(), u16::MAX);
    assert_eq!(StreamId::new(0).val(), 0);
    assert_eq!(StreamId::new(1).val(), 1);
    assert_eq!(StreamId::new(0xdead_beef).val(), 0xdead_beef);
    assert_eq!(Len::new(3).val(), 3);
    assert_eq!(Len::new(0x0100_0000).val(), 0x0100_0000);
    assert_eq!(Len::new(u32::MAX).val(), u32::MAX);
}

#[test]
fn header_is_copied_not_moved() {
    let header = Header::<Data>::data(StreamId::new(5), 6);
    let copy = header;
    let clone = header.clone();
    assert_eq!(header.to_bytes(), copy.to_bytes());
    assert_eq!(header.to_bytes(), clone.to_bytes());
}

#[test]
fn tag_octets_are_zero_to_three() {
    assert_eq!(Tag::Data.byte(), 0);
    assert_eq!(Tag::WindowUpdate.byte(), 1);
    assert_eq!(Tag::Ping.byte(), 2);
    assert_eq!(Tag::GoAway.byte(), 3);
}

#[test]
fn tag_from_octet() {
    assert_eq!(Tag::try_from(0), Ok(Tag::Data));
    assert_eq!(Tag::try_from(1), Ok(Tag::WindowUpdate));
    assert_eq!(Tag::try_from(2), Ok(Tag::Ping));
    assert_eq!(Tag::try_from(3), Ok(Tag::GoAway));
}

#[test]
fn no_tag_from_an_octet_above_three() {
    for octet in 4..=u8::MAX {
        assert_eq!(Tag::try_from(octet), Err(()));
    }
}

#[test]
fn tag_octet_round_trip() {
    for tag in [Tag::Data, Tag::WindowUpdate, Tag::Ping, Tag::GoAway] {
        assert_eq!(Tag::try_from(tag.byte()), Ok(tag));
    }
    for octet in 0..4u8 {
        assert_eq!(Tag::try_from(octet).unwrap().byte(), octet);
    }
}

#[test]
fn octet_into_tag() {
    let tag: Result<Tag, ()> = 2u8.try_into();
    assert_eq!(tag, Ok(Tag::Ping));
    let none: Result<Tag, ()> = 9u8.try_into();
    assert_eq!(none, Err(()));
}
