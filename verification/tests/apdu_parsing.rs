use solo2::apdu::{calculate_lengths, Apdu, Class, Command, Response, Range, SecureMessaging, Chain, ClassRequest};

#[test]
fn length_cases() {
    // header only
    assert_eq!(calculate_lengths(&[0, 0xa4, 4, 0]), Ok((0, 0, 0)));
    // short Le
    assert_eq!(calculate_lengths(&[0, 0xb0, 0, 0, 0x10]), Ok((0, 0x10, 0)));
    assert_eq!(calculate_lengths(&[0, 0xb0, 0, 0, 0x00]), Ok((0, 256, 0)));
    // short Lc and data
    assert_eq!(calculate_lengths(&[0, 0xa4, 4, 0, 2, 0xe1, 0x04]), Ok((2, 0, 1)));
    // short Lc, data and Le: a non-zero Le byte is Le itself
    assert_eq!(calculate_lengths(&[0, 0xa4, 4, 0, 2, 0xe1, 0x04, 0x05]), Ok((2, 5, 1)));
    assert_eq!(calculate_lengths(&[0x00, 0xB0, 0x00, 0x00, 0x01, 0xAA, 0x10]), Ok((1, 16, 1)));
    assert_eq!(calculate_lengths(&[0, 0xa4, 4, 0, 2, 0xe1, 0x04, 0x00]), Ok((2, 256, 1)));
    // extended Le
    assert_eq!(calculate_lengths(&[0, 0xb0, 0, 0, 0, 0x01, 0x00]), Ok((0, 256, 0)));
    assert_eq!(calculate_lengths(&[0, 0xb0, 0, 0, 0, 0, 0]), Ok((0, 65536, 0)));
    // extended Lc and data
    assert_eq!(calculate_lengths(&[0, 0xdb, 0, 0, 0, 0, 2, 7, 8]), Ok((2, 0, 3)));
    // extended Lc, data and Le; an Le of zero reads as 65536
    assert_eq!(calculate_lengths(&[0, 0xdb, 0, 0, 0, 0, 1, 7, 0x01, 0x00]), Ok((1, 256, 3)));
    assert_eq!(calculate_lengths(&[0, 0xdb, 0, 0, 0, 0, 1, 7, 0, 0]), Ok((1, 65536, 3)));
    // inconsistent lengths
    assert_eq!(calculate_lengths(&[0, 0xa4, 4, 0, 3, 0xe1]), Err(()));
    assert_eq!(calculate_lengths(&[0, 0xa4, 4, 0, 0, 0, 5, 1]), Err(()));
}

#[test]
fn apdu_fields() {
    let bytes = [0x00, 0xa4, 0x04, 0x00, 0x02, 0xe1, 0x04, 0x00];
    let apdu = Apdu::try_from(&bytes).unwrap();
    assert_eq!((apdu.cla(), apdu.ins(), apdu.p1(), apdu.p2()), (0x00, 0xa4, 0x04, 0x00));
    assert_eq!((apdu.lc(), apdu.le()), (2, 256));
    assert_eq!(apdu.data(), &[0xe1, 0x04]);
    let command = Command::try_from(&bytes).unwrap();
    assert_eq!(command.data, vec![0xe1, 0x04]);
    assert_eq!(command.le, 256);
}

#[test]
fn response_message() {
    let r = Response { sw1: 0x90, sw2: 0x00, data: vec![1, 2] };
    assert_eq!(r.into_message(), vec![1, 2, 0x90, 0x00]);
}

#[test]
fn class_byte() {
    let c = Class::new(0x10);
    assert!(!c.last());
    assert!(matches!(c.chain(), Chain::NotTheLast));
    assert!(matches!(c.range(), Range::FirstInterindustry));
    assert_eq!(Class::new(0x03).channel(), Some(3));
    assert!(matches!(Class::new(0x0c).secure_messaging(), SecureMessaging::Authenticated));
    assert!(matches!(Class::new(0x00).secure_messaging(), SecureMessaging::NotUsed));
    // further interindustry: bit 0x20 marks standard secure messaging,
    // the low four bits are the channel above 3
    assert!(matches!(Class::new(0x40).secure_messaging(), SecureMessaging::NotUsed));
    assert!(matches!(Class::new(0x60).secure_messaging(), SecureMessaging::Standard));
    assert_eq!(Class::new(0x40).channel(), Some(4));
    assert_eq!(Class::new(0x44).channel(), Some(8));
    assert_eq!(Class::new(0x4f).channel(), Some(19));
    assert!(matches!(Class::new(0x80).range(), Range::Proprietary));
    assert!(matches!(Class::new(0x20).range(), Range::Reserved));
    assert!(matches!(Class::new(0xff).range(), Range::Invalid));
    assert_eq!(Class::new(0x80).channel(), None);
    assert!(matches!(Class::new(0x80).chain(), Chain::Unknown));
    assert_eq!(ClassRequest::try_from(2), Ok(ClassRequest::GetClockFrequencies));
    assert_eq!(ClassRequest::try_from(4), Err(()));
}
