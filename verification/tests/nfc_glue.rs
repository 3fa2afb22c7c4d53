use solo2::nfc_platform::{nfcid1_default_bytes, setup_result, TransferBuffer, EINVAL, E2BIG, NFC_IRQ_PRIORITY};

#[test]
fn default_nfcid1() {
    let a = 0x1122_3344u32;
    let b = 0x5566_7788u32;
    assert_eq!(nfcid1_default_bytes(4, a, b), Ok(vec![0x04, 0x11, 0x22, 0x33]));
    assert_eq!(nfcid1_default_bytes(7, a, b), Ok(vec![0x04, 0x11, 0x22, 0x33, 0x55, 0x66, 0x77]));
    assert_eq!(
        nfcid1_default_bytes(10, a, b),
        Ok(vec![0x04, 0x11, 0x22, 0x33, 0x55, 0x66, 0x77, 0x88, 0x44, 0x22 ^ 0x66])
    );
    assert_eq!(nfcid1_default_bytes(5, a, b), Err(E2BIG));
}

#[test]
fn setup_and_buffer() {
    assert_eq!(setup_result(true, true), (0, Some(NFC_IRQ_PRIORITY)));
    assert_eq!(setup_result(false, true), (EINVAL, None));
    let mut buf = TransferBuffer::new();
    assert!(!buf.lend(519));
    assert!(buf.lend(518));
    assert!(!buf.lend(1));
    buf.give_back(false);
    assert!(!buf.lend(1));
    buf.give_back(true);
    assert!(buf.lend(1));
}
