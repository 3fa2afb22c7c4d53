use solo2::trussed_types::{UniqueId, format_hex, KeyKind, Letters, Error, StorageAttributes, StorageLocation, KeyAttributes};

#[test]
fn unique_id_hex_round_trip() {
    let id = UniqueId([0x00, 0x01, 0x7f, 0x80, 0xab, 0xcd, 0xef, 0x10, 0x20, 0x30, 0x40, 0x50, 0x60, 0x70, 0x80, 0xff]);
    let hex = id.hex();
    assert_eq!(&hex[..], &b"00017f80abcdef1020304050607080ff"[..]);
    assert_eq!(UniqueId::try_from_hex(&hex), Ok(id));
    assert_eq!(UniqueId::try_from_hex(b"0a0b"), Ok(UniqueId([0x0a, 0x0b, 0, 0, 0, 0, 0, 0, 0, 0, 0, 0, 0, 0, 0, 0])));
    assert_eq!(UniqueId::try_from_hex(b"0a0"), Err(()));
    assert_eq!(UniqueId::from_special(7).0[0], 7);
}

#[test]
fn hex_into_a_larger_buffer() {
    let mut buffer = [b'.'; 6];
    format_hex(&[0xde, 0xad], &mut buffer);
    assert_eq!(&buffer, b"dead..");
}

#[test]
fn key_kinds_and_letters() {
    assert!(matches!(KeyKind::try_from(1), Ok(KeyKind::Ed25519)));
    // every stored code reads back as the kind it was stored for
    assert!(matches!(KeyKind::try_from(5), Ok(KeyKind::SymmetricKey16)));
    assert!(matches!(KeyKind::try_from(6), Ok(KeyKind::SymmetricKey32)));
    assert!(matches!(KeyKind::try_from(7), Ok(KeyKind::Symmetric32Nonce12)));
    assert!(matches!(KeyKind::try_from(9), Ok(KeyKind::Symmetric20)));
    assert!(matches!(KeyKind::try_from(10), Err(Error::CborError)));
    assert_eq!(KeyKind::Ed25519.code(), 1);
    assert_eq!(KeyKind::try_from(0xff).err(), Some(Error::CborError));
    assert!(Letters::try_from(b"abc".to_vec()).is_ok());
    assert_eq!(Letters::try_from(b"aBc".to_vec()).err(), Some(Error::NotJustLetters));
    let a = StorageAttributes::new().set_persistence(StorageLocation::Internal);
    assert_eq!(a.persistence, StorageLocation::Internal);
    let _k = KeyAttributes::new();
}
