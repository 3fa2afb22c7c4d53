use solo2::der::{Der, Tag};
use solo2::derp::{read_tag_and_get_value, nested, expect_tag_and_value, Error};

fn integer(bytes: &[u8]) -> Vec<u8> {
    // non-negative INTEGER: a leading zero keeps the sign bit clear
    let mut v = vec![0u8];
    v.extend_from_slice(bytes);
    v
}

#[test]
fn write_asn1_der_ecdsa_signature() {
    let r = [
        167u8, 156, 58, 251, 253, 197, 176, 208, 165, 146, 155, 16, 217, 152, 192, 243, 206,
        76, 214, 207, 207, 180, 237, 8, 156, 160, 64, 32, 147, 82, 213, 158,
    ];
    let s = [
        184, 156, 136, 100, 87, 142, 84, 61, 235, 27, 193, 223, 254, 97, 11, 111, 80, 37, 46,
        150, 121, 96, 165, 96, 65, 242, 211, 180, 175, 91, 158, 88,
    ];
    let mut content = Der::new(1024);
    content.raw_tlv(Tag::Integer.code(), &integer(&r)).unwrap();
    content.raw_tlv(Tag::Integer.code(), &integer(&s)).unwrap();
    let mut der = Der::new(1024);
    der.sequence(content.as_slice()).unwrap();

    let expected = [
        48u8, 70,
        2, 33,
            0, 167, 156, 58, 251, 253, 197, 176, 208, 165, 146, 155, 16, 217, 152,
            192, 243, 206, 76, 214, 207, 207, 180, 237, 8, 156, 160, 64, 32, 147, 82, 213, 158,
        2, 33,
            0, 184, 156, 136, 100, 87, 142, 84, 61, 235, 27, 193, 223, 254, 97, 11, 111, 80,
            37, 46, 150, 121, 96, 165, 96, 65, 242, 211, 180, 175, 91, 158, 88,
    ];
    assert_eq!(der.len(), expected.len());
    assert_eq!(der.as_slice(), &expected[..]);
}

#[test]
fn long_length_field() {
    let mut der = Der::new(600);
    let value = vec![7u8; 300];
    der.raw_tlv(0x04, &value).unwrap();
    assert_eq!(&der.as_slice()[..4], &[0x04, 0x82, 0x01, 0x2c]);
    assert_eq!(der.len(), 304);
}

#[test]
fn writer_refuses_overflow_and_keeps_contents() {
    let mut der = Der::new(4);
    der.raw_tlv(0x02, &[1]).unwrap();
    assert!(der.raw_tlv(0x02, &[1, 2]).is_err());
    assert_eq!(&der.as_slice()[..3], &[0x02, 0x01, 0x01]);
}

#[test]
fn nested_prefixes_tag_and_length() {
    let mut der = Der::new(16);
    der.nested(0x7c, &[0x82, 0x01, 0xaa]).unwrap();
    assert_eq!(der.as_slice(), &[0x7c, 0x03, 0x82, 0x01, 0xaa]);
}

#[test]
fn minimal_big_endian_length_bytes() {
    assert_eq!(Der::minimal_be_bytes(0x1234), vec![0x12, 0x34]);
    assert_eq!(Der::minimal_be_bytes(0x80), vec![0x80]);
}

#[test]
fn read_back_what_was_written() {
    let mut der = Der::new(64);
    der.raw_tlv(0x53, &[1, 2, 3]).unwrap();
    der.raw_tlv(0x30, &[]).unwrap();
    let bytes = der.into_inner();
    let (tag, value, consumed) = read_tag_and_get_value(&bytes).unwrap();
    assert_eq!(tag, 0x53);
    assert_eq!(value, &[1, 2, 3]);
    assert_eq!(consumed, 5);
    let (tag, value, consumed) = read_tag_and_get_value(&bytes[5..]).unwrap();
    assert_eq!((tag, value.len(), consumed), (0x30, 0, 2));
}

#[test]
fn reader_errors() {
    assert_eq!(read_tag_and_get_value(&[]), Err(Error::UnexpectedEnd));
    assert_eq!(read_tag_and_get_value(&[0x1f, 0x01]), Err(Error::HighTagNumberForm));
    assert_eq!(read_tag_and_get_value(&[0x04, 0x81, 0x05]), Err(Error::NonCanonical));
    assert_eq!(read_tag_and_get_value(&[0x04, 0x82, 0x00, 0x05]), Err(Error::NonCanonical));
    assert_eq!(read_tag_and_get_value(&[0x04, 0x83, 0x00, 0x00, 0x01]), Err(Error::LongLengthNotSupported));
    assert_eq!(read_tag_and_get_value(&[0x04, 0x03, 0x00]), Err(Error::UnexpectedEnd));
    assert_eq!(nested(&[0xac, 0x01, 0x00, 0x00], 0xac), Err(Error::Read));
    assert_eq!(nested(&[0xac, 0x01, 0x00], 0xad), Err(Error::WrongTag));
    assert_eq!(expect_tag_and_value(&[0x80, 0x01, 0x22], 0x80, &[0x11]), Err(Error::WrongValue));
    assert_eq!(expect_tag_and_value(&[0x80, 0x01, 0x22], 0x80, &[0x22]), Ok(3));
}
