use solo2::provisioner::{
    Provisioner, Step, Instructions, AttestationKind, generate_attestation_key, serialize_secret_key,
    serialize_public_key, t1_public_file, uuid,
};
use solo2::status::Status;

fn hex(s: &str) -> Vec<u8> {
    (0..s.len()).step_by(2).map(|i| u8::from_str_radix(&s[i..i + 2], 16).unwrap()).collect()
}

fn seed(s: &str) -> [u8; 32] {
    let v = hex(s);
    let mut a = [0u8; 32];
    a.copy_from_slice(&v);
    a
}

#[test]
fn instruction_codes() {
    assert_eq!(Instructions::try_from(0xbf), Ok(Instructions::WriteFile));
    assert_eq!(Instructions::try_from(0x62), Ok(Instructions::GetUuid));
    assert_eq!(Instructions::try_from(0xb5), Ok(Instructions::SaveT1IntermediatePublicKey));
    assert_eq!(Instructions::try_from(0xb8), Err(()));
}

#[test]
fn key_records() {
    let r = serialize_secret_key(5, &[7u8; 32]);
    assert_eq!(&r[..4], &[0x00, 0x03, 0x00, 0x05]);
    assert_eq!(r.len(), 36);
    let p = serialize_public_key(&[9u8; 32]).unwrap();
    assert_eq!(&p[..4], &[0x00, 0x00, 0x00, 0x04]);
    assert_eq!(serialize_public_key(&[9u8; 31]).err(), Some(Status::IncorrectDataParameter));
    assert_eq!(t1_public_file(), b"/attn/pub/00".to_vec());
    assert_eq!(AttestationKind::Ed255.secret_file(), b"/attn/sec/02".to_vec());
    assert_eq!(AttestationKind::X255.certificate_file(), b"/attn/x5c/03".to_vec());
}

#[test]
fn ed25519_attestation_key_of_rfc8032_seed() {
    let s = seed("9d61b19deffd5a60ba844af492ec2cc44449c5697b326919703bac031cae7f60");
    let (record, public) = generate_attestation_key(AttestationKind::Ed255, &s);
    assert_eq!(public, hex("d75a980182b10ab7d54bfed3c964073a0ee172f3daa62325af021a68f707511a"));
    assert_eq!(&record[..4], &[0x00, 0x03, 0x00, 0x04]);
    assert_eq!(&record[4..], &s[..]);
}

#[test]
fn x25519_attestation_key_of_rfc7748_seed() {
    let s = seed("77076d0a7318a57d3c16c17251b26645df4c2f87ebc0992ab177fba51db92c2a");
    let (record, public) = generate_attestation_key(AttestationKind::X255, &s);
    assert_eq!(public, hex("8520f0098930a754748b7ddcb43ef75a0dbf3a0d26381af4eba4a98eaa9b4e6a"));
    assert_eq!(&record[..4], &[0x00, 0x03, 0x00, 0x06]);
}

#[test]
fn p256_attestation_key_of_scalar_one_is_the_generator() {
    let mut s = [0u8; 32];
    s[31] = 1;
    let (record, public) = generate_attestation_key(AttestationKind::P256, &s);
    let mut expected = hex("6b17d1f2e12c4247f8bce6e563a440f277037d812deb33a0f4a13945d898c296");
    expected.extend(hex("4fe342e2fe1a7f9b8ee7eb4a7c0f9e162bce33576b315ececbb6406837bf51f5"));
    assert_eq!(public, expected);
    assert_eq!(&record[..4], &[0x00, 0x03, 0x00, 0x05]);
}

#[test]
fn write_a_file_through_the_buffers() {
    let mut p = Provisioner::new(false);
    assert!(matches!(p.handle(0xa4, &[0xe1, 0x01]), Ok(Step::Done)));
    assert!(matches!(p.handle(0xd0, b"/fido/x5c/00"), Ok(Step::Done)));
    assert!(matches!(p.handle(0xa4, &[0xe1, 0x02]), Ok(Step::Done)));
    assert!(matches!(p.handle(0xd0, &[1, 2, 3]), Ok(Step::Done)));
    assert!(matches!(p.handle(0xd0, &[4]), Ok(Step::Done)));
    match p.handle(0xbf, &[]) {
        Ok(Step::StoreFile { path, contents }) => {
            assert_eq!(path, b"/fido/x5c/00".to_vec());
            assert_eq!(contents, vec![1, 2, 3, 4]);
        }
        _ => panic!("a file to store expected"),
    }
    // the buffers were emptied
    assert_eq!(p.handle(0xbf, &[]).err(), Some(Status::IncorrectDataParameter));
}

#[test]
fn write_file_refusals() {
    let mut p = Provisioner::new(true);
    assert_eq!(p.handle(0xa4, &[0xe1, 0x03]).err(), Some(Status::NotFound));
    // a name with a NUL inside is no path; the buffers stay
    p.handle(0xd0, &[b'a', 0, b'b']).unwrap();
    p.handle(0xa4, &[0xe1, 0x02]).unwrap();
    p.handle(0xd0, &[1]).unwrap();
    assert_eq!(p.handle(0xbf, &[]).err(), Some(Status::IncorrectDataParameter));
    p.select();
    assert_eq!(p.handle(0xbf, &[]).err(), Some(Status::IncorrectDataParameter));
}

#[test]
fn other_instructions() {
    let mut p = Provisioner::new(false);
    assert!(matches!(p.handle(0xbc, &[]), Ok(Step::Generate(AttestationKind::P256))));
    assert!(matches!(p.handle(0xbd, &[]), Ok(Step::Reformat)));
    assert!(matches!(p.handle(0x62, &[]), Ok(Step::ReplyUuid)));
    assert!(matches!(p.handle(0x51, &[]), Ok(Step::BootToBootrom)));
    assert_eq!(p.handle(0xba, &[0u8; 99]).err(), Some(Status::IncorrectDataParameter));
    let cert = [0x30u8; 100];
    match p.handle(0xb9, &cert) {
        Ok(Step::SaveCertificate(AttestationKind::Ed255, c)) => assert_eq!(c.len(), 100),
        _ => panic!("a certificate expected"),
    }
    assert!(matches!(p.handle(0xb5, &[1u8; 32]), Ok(Step::StorePublicKey(_))));
    assert_eq!(p.handle(0xb5, &[1u8; 33]).err(), Some(Status::IncorrectDataParameter));
    assert_eq!(p.handle(0x01, &[]).err(), Some(Status::FunctionNotSupported));
    assert_eq!(p.handle(0xcb, &[]).err(), Some(Status::FunctionNotSupported));
}

#[test]
fn uuid_packs_device_id_words_big_endian() {
    let r = uuid(&[0x0102_0304, 0xA0B0_C0D0]);
    assert_eq!(r, [1, 2, 3, 4, 0xA0, 0xB0, 0xC0, 0xD0, 0, 0, 0, 0, 0, 0, 0, 0]);
}

#[test]
fn p256_zero_seed_has_no_public_key() {
    // a seed that reduces to zero gives the identity, whose encoding is empty
    let (record, public) = generate_attestation_key(AttestationKind::P256, &[0u8; 32]);
    assert_eq!(record.len(), 36);
    assert!(public.is_empty());
}

#[test]
fn certificate_needs_its_secret_key() {
    let path = solo2::provisioner::certificate_destination(AttestationKind::Ed255, true).unwrap();
    assert_eq!(path, b"/attn/x5c/02".to_vec());
    assert_eq!(
        solo2::provisioner::certificate_destination(AttestationKind::P256, false),
        Err(Status::IncorrectDataParameter)
    );
}
