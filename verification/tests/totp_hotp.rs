use solo2::totp::{dynamic_truncation, hotp_raw, totp_sign, check_totp_secret, TotpError};

#[test]
fn test_hotp() {
    assert_eq!(hotp_raw(b"\xff", 23, 6), 330795);

    // test values from RFC 4226
    assert_eq!(hotp_raw(b"12345678901234567890", 0, 6), 755224);
    assert_eq!(hotp_raw(b"12345678901234567890", 1, 6), 287082);
    assert_ne!(hotp_raw(b"12345678901234567890", 1, 6), 287081);
}

#[test]
fn hotp_rfc4226_appendix_d_values() {
    let key = b"12345678901234567890";
    let expected = [755224u64, 287082, 359152, 969429, 338314, 254676, 287922, 162583, 399871, 520489];
    for (counter, value) in expected.iter().enumerate() {
        assert_eq!(hotp_raw(key, counter as u64, 6), *value);
    }
}

#[test]
fn dynamic_truncation_rfc4226_example() {
    // RFC 4226, section 5.4
    let hs = [
        0x1f, 0x86, 0x98, 0x69, 0x0e, 0x02, 0xca, 0x16, 0x61, 0x85, 0x50, 0xef, 0x7f, 0x19, 0xda, 0x8e,
        0x94, 0x5b, 0x55, 0x5a,
    ];
    assert_eq!(dynamic_truncation(&hs), 0x50ef7f19);
    assert_eq!(dynamic_truncation(&hs) % 1_000_000, 872921);
}

#[test]
fn totp_sign_little_endian() {
    let key = b"12345678901234567890";
    let sig = totp_sign(key, &1u64.to_le_bytes()).unwrap();
    assert_eq!(u64::from_le_bytes(sig), 287082);
    assert_eq!(totp_sign(key, &[0u8; 7]), Err(TotpError::InternalError));
    assert_eq!(totp_sign(&key[..19], &[0u8; 8]), Err(TotpError::InternalError));
    assert_eq!(check_totp_secret(&key[..]), Ok(()));
    assert_eq!(check_totp_secret(&key[..10]), Err(TotpError::WrongMessageLength));
}
