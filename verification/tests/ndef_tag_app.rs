use solo2::ndef::{App, OverrideSlot, set_override_url, clear_override, has_override, build_url_ndef_file, INS_SELECT, INS_READ_BINARY, INS_UPDATE_BINARY};
use solo2::status::Status;

const DEFAULT: [u8; 20] = [
    0x00, 0x12, 0xd1, 0x01, 0x0e, 0x55, 0x04, 0x73, 0x6f, 0x6c, 0x6f, 0x6b, 0x65, 0x79, 0x73, 0x2e, 0x63, 0x6f, 0x6d, 0x2f,
];

#[test]
fn serves_capability_container_and_default_file() {
    let slot = OverrideSlot::new();
    let mut app = App::new();
    let out = app.call(INS_SELECT, 0, 0, 0, &[0xe1, 0x03], &slot, None);
    assert_eq!(out.result, Ok(vec![]));
    let out = app.call(INS_READ_BINARY, 0, 0, 15, &[], &slot, None);
    assert_eq!(out.result.unwrap(), vec![0x00, 0x0f, 0x20, 0x00, 0xff, 0x00, 0x40, 0x04, 0x06, 0xe1, 0x04, 0x04, 0x00, 0x00, 0x00]);
    assert!(app.needs_load(INS_SELECT, &[0xe1, 0x04], &slot));
    let out = app.call(INS_SELECT, 0, 0, 0, &[0xe1, 0x04], &slot, None);
    assert_eq!(out.result, Ok(vec![]));
    let out = app.call(INS_READ_BINARY, 0, 0, 255, &[], &slot, None);
    assert_eq!(out.result.unwrap(), DEFAULT.to_vec());
    // past the end: nothing, never a panic
    let out = app.call(INS_READ_BINARY, 0x01, 0, 255, &[], &slot, None);
    assert_eq!(out.result.unwrap(), Vec::<u8>::new());
    assert_eq!(app.call(INS_SELECT, 0, 0, 0, &[0xe1, 0x05], &slot, None).result, Err(Status::NotFound));
    assert_eq!(app.call(0x2a, 0, 0, 0, &[], &slot, None).result, Err(Status::ConditionsOfUseNotSatisfied));
}

#[test]
fn reader_writes_a_new_file() {
    let slot = OverrideSlot::new();
    let mut app = App::new();
    assert_eq!(app.call(INS_UPDATE_BINARY, 0, 0, 0, &[0, 0], &slot, None).result, Err(Status::ConditionsOfUseNotSatisfied));
    app.call(INS_SELECT, 0, 0, 0, &[0xe1, 0x04], &slot, None);
    let out = app.call(INS_UPDATE_BINARY, 0, 0, 0, &[0, 0], &slot, None);
    assert!(out.persist.is_none());
    let out = app.call(INS_UPDATE_BINARY, 0, 2, 0, &[0xd1, 0x01, 0x00], &slot, None);
    assert!(out.persist.is_none());
    let out = app.call(INS_UPDATE_BINARY, 0, 0, 0, &[0, 3], &slot, None);
    assert_eq!(out.persist, Some(vec![0, 3, 0xd1, 0x01, 0x00]));
    assert_eq!(app.call(INS_UPDATE_BINARY, 0x04, 0, 0, &[1, 2], &slot, None).result, Err(Status::WrongLength));
    // the next selection serves the written file
    app.call(INS_SELECT, 0, 0, 0, &[0xe1, 0x04], &slot, None);
    assert_eq!(app.call(INS_READ_BINARY, 0, 0, 255, &[], &slot, None).result.unwrap(), vec![0, 3, 0xd1, 0x01, 0x00]);
}

#[test]
fn override_url_is_served_first() {
    let mut slot = OverrideSlot::new();
    assert!(!has_override(&slot));
    assert!(set_override_url(&mut slot, "https://example.com/x"));
    assert!(has_override(&slot));
    let mut buffer = vec![0u8; 1024];
    let n = build_url_ndef_file("https://example.com/x", &mut buffer).unwrap();
    let expected = buffer[..n].to_vec();
    let mut app = App::new();
    app.call(INS_SELECT, 0, 0, 0, &[0xe1, 0x04], &slot, None);
    assert_eq!(app.call(INS_READ_BINARY, 0, 0, 255, &[], &slot, None).result.unwrap(), expected);
    clear_override(&mut slot);
    assert!(!has_override(&slot));
}

#[test]
fn url_record_layout() {
    let mut out = vec![0u8; 1024];
    let n = build_url_ndef_file("https://solokeys.com/", &mut out).unwrap();
    assert_eq!(n, 20);
    assert_eq!(&out[..n], &DEFAULT[..]);
    assert_eq!(build_url_ndef_file("http://solokeys.com/", &mut out), None);
}
