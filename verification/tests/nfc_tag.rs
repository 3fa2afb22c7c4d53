use solo2::ndef_applet::{NdefApplet, NdefError, INS_SELECT, INS_READ_BINARY};
use solo2::ndef_gate::{ndef_suppressed, gate_select};
use solo2::status::Status;

#[test]
fn reads_the_url_record() {
    let mut a = NdefApplet::new();
    let mut buf = vec![0u8; 64];
    assert_eq!(a.send_recv(INS_READ_BINARY, 0, 0, 2, &[], &mut buf), Ok(2));
    assert_eq!(&buf[..2], &[0x00, 0x12]);
    assert_eq!(a.send_recv(INS_READ_BINARY, 0, 2, 100, &[], &mut buf), Ok(18));
    assert_eq!(&buf[..5], &[0xd1, 0x01, 0x0e, 0x55, 0x04]);
    assert_eq!(&buf[5..18], b"solokeys.com/");
}

#[test]
fn selects_the_capability_container() {
    let mut a = NdefApplet::new();
    let mut buf = vec![0u8; 15];
    assert_eq!(a.send_recv(INS_SELECT, 0, 0, 0, &[0xe1, 0x03], &mut buf), Ok(0));
    assert_eq!(a.send_recv(INS_READ_BINARY, 0, 0, 15, &[], &mut buf), Ok(15));
    assert_eq!(&buf[..3], &[0x00, 0x0f, 0x20]);
    assert_eq!(a.send_recv(INS_SELECT, 0, 0, 0, &[0xe1, 0x05], &mut buf), Err(NdefError::SwFileNotFound));
    assert_eq!(a.send_recv(0xd6, 0, 0, 0, &[], &mut buf), Err(NdefError::SwCondUseNotSatisfied));
    assert_eq!(a.aid()[..7], [0xD2, 0x76, 0x00, 0x00, 0x85, 0x01, 0x01]);
    assert_eq!(a.select(), Ok(0));
    assert_eq!(a.deselect(), Ok(()));
}

#[test]
fn tag_quiet_during_fido() {
    // just after a FIDO request the tag is refused
    assert!(ndef_suppressed(1000, 1000, 7));
    assert_eq!(gate_select(1003, 1000, 7), Err(Status::NotFound));
    // once the window passed it is answered again
    assert!(!ndef_suppressed(1007, 1000, 7));
    assert_eq!(gate_select(1010, 1000, 7), Ok(()));
    // the counter wraps around
    assert!(ndef_suppressed(2, u32::MAX - 2, 7));
    assert!(!ndef_suppressed(10, u32::MAX - 2, 7));
}
