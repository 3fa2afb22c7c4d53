use solo2::bounded::BoundedBuf;
use solo2::oath::{
    base32_encode, percent_encode, write_u32, write_otpauth_line, secret_from_key_blob, parse_command, count_files,
    collect_window, Credential, Kind, Algorithm, OathCommand, OathExport, PageBuilder, INS_COUNT, INS_EXPORT, INS_DELETE,
};
use solo2::status::Status;

#[test]
fn base32_of_rfc_secret() {
    let mut out = BoundedBuf::new(256);
    base32_encode(b"12345678901234567890", &mut out);
    assert_eq!(out.as_slice(), b"GEZDGNBVGY3TQOJQGEZDGNBVGY3TQOJQ");
    let mut out = BoundedBuf::new(256);
    base32_encode(b"f", &mut out);
    assert_eq!(out.as_slice(), b"MY");
}

#[test]
fn labels_are_percent_encoded() {
    let mut out = BoundedBuf::new(64);
    percent_encode(b"Ex am&ple\n~-._", &mut out).unwrap();
    assert_eq!(out.as_slice(), b"Ex%20am%26ple%0A~-._");
    let mut small = BoundedBuf::new(2);
    assert_eq!(percent_encode(b"\n", &mut small), Err(Status::NotEnoughMemory));
}

#[test]
fn decimal_numbers() {
    let mut out = BoundedBuf::new(16);
    write_u32(0, &mut out).unwrap();
    write_u32(4294967295, &mut out).unwrap();
    assert_eq!(out.as_slice(), b"04294967295");
}

#[test]
fn one_otpauth_line() {
    let cred = Credential {
        label: b"Ex am&ple\n".to_vec(),
        kind: Kind::Totp,
        algorithm: Algorithm::Sha1,
        digits: 6,
        touch_required: true,
        counter: None,
    };
    let mut out = BoundedBuf::new(1280);
    write_otpauth_line(&cred, b"12345678901234567890", &mut out).unwrap();
    assert_eq!(
        out.as_slice(),
        &b"otpauth://totp/Ex%20am%26ple%0A?secret=GEZDGNBVGY3TQOJQGEZDGNBVGY3TQOJQ&algorithm=SHA1&digits=6&period=30&touch=true\n"[..]
    );
    let hotp = Credential {
        label: b"a".to_vec(),
        kind: Kind::Hotp,
        algorithm: Algorithm::Sha512,
        digits: 8,
        touch_required: false,
        counter: Some(42),
    };
    let mut out = BoundedBuf::new(1280);
    write_otpauth_line(&hotp, b"f", &mut out).unwrap();
    assert_eq!(out.as_slice(), &b"otpauth://hotp/a?secret=MY&algorithm=SHA512&digits=8&counter=42\n"[..]);
    let mut tiny = BoundedBuf::new(10);
    assert_eq!(write_otpauth_line(&hotp, b"f", &mut tiny), Err(Status::NotEnoughMemory));
}

#[test]
fn secrets_and_commands() {
    assert_eq!(secret_from_key_blob(&[1, 2, 3, 4, 9, 9]), Ok(vec![9, 9]));
    assert_eq!(secret_from_key_blob(&[1, 2, 3, 4]), Err(Status::NotFound));
    assert!(matches!(parse_command(INS_COUNT, &[]), Ok(OathCommand::Count)));
    assert!(matches!(parse_command(INS_EXPORT, &[]), Ok(OathCommand::Export(0))));
    assert!(matches!(parse_command(INS_EXPORT, &[0x01, 0x02]), Ok(OathCommand::Export(0x0102))));
    assert!(matches!(parse_command(INS_EXPORT, &[1]), Err(Status::IncorrectDataParameter)));
    assert!(matches!(parse_command(INS_DELETE, &[]), Ok(OathCommand::Delete)));
    assert!(matches!(parse_command(0x01, &[]), Err(Status::InstructionNotSupportedOrInvalid)));
}

#[test]
fn windows_of_files() {
    let is_file = [true, false, true, true, false, true];
    assert_eq!(count_files(&is_file), 4);
    assert_eq!(collect_window(0, &is_file), vec![0, 2, 3, 5]);
    assert_eq!(collect_window(2, &is_file), vec![3, 5]);
    assert_eq!(collect_window(9, &is_file), Vec::<usize>::new());
}

#[test]
fn export_authorization() {
    let mut e = OathExport::new();
    assert_eq!(e.authorize_export(1, false), Err(Status::SecurityStatusNotSatisfied));
    assert_eq!(e.authorize_export(0, false), Err(Status::SecurityStatusNotSatisfied));
    assert_eq!(e.authorize_export(0, true), Ok(()));
    assert_eq!(e.authorize_export(1, false), Ok(()));
    e.select();
    assert_eq!(e.authorize_export(1, false), Err(Status::SecurityStatusNotSatisfied));
    assert_eq!(OathExport::authorize_delete(false), Err(Status::SecurityStatusNotSatisfied));
    assert_eq!(OathExport::authorize_delete(true), Ok(()));
}

#[test]
fn pages_always_progress() {
    let mut page = PageBuilder::new();
    let line = vec![b'x'; 1500];
    assert_eq!(page.add(&line), Ok(true));
    assert_eq!(page.add(&line), Ok(true));
    // the third line would pass the budget and waits for the next page
    assert_eq!(page.add(&line), Ok(false));
    let reply = page.finish(7);
    assert_eq!(&reply[..2], &[0, 9]);
    assert_eq!(reply.len(), 2 + 3000);
    // a first line longer than a page cannot be sent at all
    let mut page = PageBuilder::new();
    assert_eq!(page.add(&vec![0u8; 3001]), Err(Status::NotEnoughMemory));
}

#[test]
fn paging_resumes_where_it_stopped() {
    // 30 files with a directory entry between every third
    let mut is_file = Vec::new();
    for i in 0..40 {
        is_file.push(i % 4 != 3);
    }
    let first = collect_window(0, &is_file);
    assert_eq!(first.len(), 24);
    // after taking 10 of them, the next window starts at the eleventh
    let next = collect_window(10, &is_file);
    assert_eq!(next[0], first[10]);
    assert_eq!(&next[..14], &first[10..]);
    let rest = collect_window(24, &is_file);
    assert_eq!(rest.len(), 6);
}
