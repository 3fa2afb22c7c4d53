use solo2::piv_app::{
    route, Route, YubicoPivExtension, yubico_piv_extension, YubicoAction, PutDataTarget,
    DataObject, verify, change_reference_data, parse_general_authenticate, AuthenticateStep, request_for_witness,
    request_for_challenge, begin_management_authentication, check_generate_asymmetric, public_key_response,
    signature_response, chuid_response, certificate_response, chain_step, ChainedCommand, Authenticator,
    authentication_key,
};
use solo2::piv_state::{Persistent, Runtime, Pin, CommandCache};
use solo2::trussed_types::{ObjectHandle, UniqueId};
use solo2::status::Status;
use solo2::piv_app;

fn handle(n: u8) -> ObjectHandle {
    ObjectHandle { object_id: UniqueId([n; 16]) }
}

fn fresh() -> (Persistent, Runtime) {
    (Persistent::initialize(handle(1)), Runtime::new())
}

const DEFAULT_PIN: [u8; 8] = [0x32, 0x30, 0x32, 0x30, 0x32, 0x30, 0xff, 0xff];
const OTHER_PIN: [u8; 8] = [0x31, 0x32, 0x33, 0x34, 0x35, 0x36, 0x37, 0x38];

#[test]
fn get_data() {
    // ykGetSerial
    let r = route(0x00, 0xf8).unwrap();
    assert_eq!(r, Route::Yubico(YubicoPivExtension::GetSerial));
    let (mut p, mut rt) = fresh();
    match yubico_piv_extension(YubicoPivExtension::GetSerial, 0, 0, &[], &mut p, &mut rt.app_security_status).unwrap() {
        YubicoAction::Respond(v) => assert_eq!(v, vec![0x00, 0x52, 0xf7, 0x43]),
        _ => panic!("serial expected"),
    }
    // ykGetVersion
    let r = route(0x00, 0xfd).unwrap();
    assert_eq!(r, Route::Yubico(YubicoPivExtension::GetVersion));
    match yubico_piv_extension(YubicoPivExtension::GetVersion, 0, 0, &[], &mut p, &mut rt.app_security_status).unwrap() {
        YubicoAction::Respond(v) => assert_eq!(v, vec![0x06, 0x06, 0x06]),
        _ => panic!("version expected"),
    }
}

#[test]
fn put_data() {
    let data = [
        0x5C, 0x03, 0x5F, 0xC1, 0x09, 0x53, 0x1C, 0x88, 0x1A, 0x89, 0x18, 0xAA, 0x81, 0xD5, 0x48, 0xA5, 0xEC, 0x26,
        0x01, 0x60, 0xBA, 0x06, 0xF6, 0xEC, 0x3B, 0xB6, 0x05, 0x00, 0x2E, 0xB6, 0x3D, 0x4B, 0x28, 0x7F, 0x86,
    ];
    assert_eq!(route(0x00, 0xdb), Ok(Route::PutData));
    let (target, value) = piv_app::put_data(0x3f, 0xff, &data).unwrap();
    assert_eq!(target, PutDataTarget::PrintedInformation);
    assert_eq!(value, &data[7..]);
    assert_eq!(value.len(), 0x1c);
}

#[test]
fn put_data_refusals() {
    assert_eq!(piv_app::put_data(0x3f, 0xfe, &[]), Err(Status::IncorrectP1OrP2Parameter));
    assert_eq!(piv_app::put_data(0x3f, 0xff, &[0x5c, 0x03, 0x5f, 0xc1, 0x09]), Err(Status::IncorrectDataParameter));
    assert_eq!(piv_app::put_data(0x3f, 0xff, &[0x5c, 0x03, 0x5f, 0xc1, 0x01, 0x53, 0x00]), Err(Status::IncorrectDataParameter));
    assert_eq!(piv_app::put_data(0x3f, 0xff, &[0x5c, 0x03, 0x5f, 0xc1, 0x09, 0x53, 0x00, 0x00]), Err(Status::IncorrectDataParameter));
    let mut big = vec![0x5c, 0x03, 0x5f, 0xc1, 0x05, 0x53, 0x82, 0x02, 0x00];
    big.extend_from_slice(&[0u8; 512]);
    assert_eq!(piv_app::put_data(0x3f, 0xff, &big), Err(Status::UnspecifiedCheckingError));
    let ok = [0x5c, 0x03, 0x5f, 0xc1, 0x05, 0x53, 0x01, 0x42];
    assert_eq!(piv_app::put_data(0x3f, 0xff, &ok), Ok((PutDataTarget::AuthenticationKeyCertificate, &ok[7..])));
}

#[test]
fn routing_of_commands() {
    assert_eq!(route(0x00, 0xcb), Ok(Route::GetData));
    assert_eq!(route(0x00, 0x20), Ok(Route::Verify));
    assert_eq!(route(0x00, 0x24), Ok(Route::ChangeReferenceData));
    assert_eq!(route(0x00, 0x87), Ok(Route::GeneralAuthenticate));
    assert_eq!(route(0x00, 0x47), Ok(Route::GenerateAsymmetricKeyPair));
    assert_eq!(route(0x00, 0xa4), Err(Status::FunctionNotSupported));
    assert_eq!(route(0x00, 0x01), Err(Status::FunctionNotSupported));
    assert_eq!(route(0x0c, 0x20), Err(Status::SecureMessagingNotSupported));
    assert_eq!(route(0x01, 0x20), Err(Status::LogicalChannelNotSupported));
    assert_eq!(route(0x80, 0x20), Err(Status::SecureMessagingNotSupported));
}

#[test]
fn verify_counts_retries_and_blocks() {
    let (mut p, mut rt) = fresh();
    let s = &mut rt.app_security_status;
    assert_eq!(verify(0x00, 0x80, &[], &mut p, s), Err(Status::RemainingRetries(3)));
    assert_eq!(verify(0x00, 0x80, &OTHER_PIN, &mut p, s), Err(Status::RemainingRetries(2)));
    assert_eq!(verify(0x00, 0x80, &OTHER_PIN, &mut p, s), Err(Status::RemainingRetries(1)));
    assert_eq!(verify(0x00, 0x80, &DEFAULT_PIN, &mut p, s), Ok(()));
    assert!(s.pin_verified);
    assert_eq!(p.remaining_pin_retries(), 3);
    assert_eq!(verify(0x00, 0x80, &[], &mut p, s), Ok(()));
    assert_eq!(verify(0xff, 0x80, &[], &mut p, s), Ok(()));
    assert!(!s.pin_verified);
    for left in [2u8, 1, 0] {
        assert_eq!(verify(0x00, 0x80, &OTHER_PIN, &mut p, s), Err(Status::RemainingRetries(left)));
    }
    // blocked: even the right PIN is refused and nothing changes
    assert_eq!(verify(0x00, 0x80, &DEFAULT_PIN, &mut p, s), Err(Status::OperationBlocked));
    assert!(!s.pin_verified);
    assert_eq!(p.remaining_pin_retries(), 0);
}

#[test]
fn verify_refusals_change_nothing() {
    let (mut p, mut rt) = fresh();
    let s = &mut rt.app_security_status;
    assert_eq!(verify(0x00, 0x00, &OTHER_PIN, &mut p, s), Err(Status::KeyReferenceNotFound));
    assert_eq!(verify(0x01, 0x80, &OTHER_PIN, &mut p, s), Err(Status::IncorrectP1OrP2Parameter));
    assert_eq!(verify(0xff, 0x80, &OTHER_PIN, &mut p, s), Err(Status::IncorrectDataParameter));
    assert_eq!(verify(0x00, 0x80, &[0x31, 0x32, 0x33], &mut p, s), Err(Status::IncorrectDataParameter));
    // five digits are too short
    assert_eq!(verify(0x00, 0x80, &[0x31, 0x32, 0x33, 0x34, 0x35, 0xff, 0xff, 0xff], &mut p, s), Err(Status::IncorrectDataParameter));
    assert_eq!(p.remaining_pin_retries(), 3);
}

#[test]
fn change_pin_then_verify_new_pin() {
    let (mut p, mut rt) = fresh();
    let s = &mut rt.app_security_status;
    let mut data = DEFAULT_PIN.to_vec();
    data.extend_from_slice(&OTHER_PIN);
    assert_eq!(change_reference_data(0x80, &data, &mut p, s), Ok(()));
    assert!(s.pin_verified);
    assert_eq!(verify(0x00, 0x80, &DEFAULT_PIN, &mut p, s), Err(Status::RemainingRetries(2)));
    assert_eq!(verify(0x00, 0x80, &OTHER_PIN, &mut p, s), Ok(()));
    assert_eq!(p.remaining_pin_retries(), 3);
}

#[test]
fn change_reference_data_refusals() {
    let (mut p, mut rt) = fresh();
    let s = &mut rt.app_security_status;
    assert_eq!(change_reference_data(0x81, &[0u8; 16], &mut p, s), Err(Status::IncorrectDataParameter));
    assert_eq!(change_reference_data(0x00, &[0u8; 16], &mut p, s), Err(Status::KeyReferenceNotFound));
    assert_eq!(change_reference_data(0x80, &[0u8; 15], &mut p, s), Err(Status::IncorrectDataParameter));
    let mut bad_new = DEFAULT_PIN.to_vec();
    bad_new.extend_from_slice(&[0x41u8; 8]);
    assert_eq!(change_reference_data(0x80, &bad_new, &mut p, s), Err(Status::IncorrectDataParameter));
    let mut wrong_old = OTHER_PIN.to_vec();
    wrong_old.extend_from_slice(&OTHER_PIN);
    assert_eq!(change_reference_data(0x80, &wrong_old, &mut p, s), Err(Status::RemainingRetries(2)));
    assert!(!s.pin_verified);
}

#[test]
fn pin_validation() {
    assert!(Pin::try_new(&DEFAULT_PIN).is_ok());
    assert!(Pin::try_new(&OTHER_PIN).is_ok());
    assert!(Pin::try_new(&[0x31, 0x32, 0x33, 0x34, 0x35, 0x36, 0xff]).is_err());
    assert!(Pin::try_new(&[0x31, 0x32, 0x33, 0x34, 0x35, 0x41, 0xff, 0xff]).is_err());
    // everything after the digits must be padding
    assert!(Pin::try_new(&[0x31, 0x32, 0x33, 0x34, 0x35, 0x36, 0xff, 0x00]).is_err());
    assert!(Pin::try_new(&[0x31, 0x32, 0x33, 0x34, 0x35, 0x36, 0x37, 0xff]).is_ok());
}

#[test]
fn general_authenticate_steps() {
    let d = [0x7c, 0x02, 0x80, 0x00];
    assert_eq!(parse_general_authenticate(&d), Ok((AuthenticateStep::Witness, &d[4..])));
    let d = [0x7c, 0x14, 0x80, 0x08, 1, 2, 3, 4, 5, 6, 7, 8, 0x81, 0x08, 9, 9, 9, 9, 9, 9, 9, 9];
    assert_eq!(parse_general_authenticate(&d), Ok((AuthenticateStep::Challenge, &d[4..])));
    let mut d = vec![0x7c, 0x81, 0x26, 0x82, 0x00, 0x81, 0x81, 0x20];
    d.extend_from_slice(&[0x55u8; 32]);
    assert_eq!(parse_general_authenticate(&d), Ok((AuthenticateStep::Sign, &d[8..])));
    assert_eq!(parse_general_authenticate(&[0x7c]), Err(Status::IncorrectDataParameter));
    assert_eq!(parse_general_authenticate(&[0x7d, 0x00]), Err(Status::IncorrectDataParameter));
    assert_eq!(parse_general_authenticate(&[0x7c, 0x02, 0x83, 0x00]), Err(Status::IncorrectDataParameter));
    assert_eq!(parse_general_authenticate(&[0x7c, 0x05, 0x82, 0x00, 0x81, 0x81, 0x02, 0x01]), Err(Status::IncorrectDataParameter));
}

#[test]
fn management_key_authentication() {
    assert_eq!(request_for_witness(0x03, 0x9b, &[]), Ok(()));
    assert_eq!(request_for_witness(0x03, 0x9a, &[]), Err(Status::IncorrectP1OrP2Parameter));
    assert_eq!(request_for_witness(0x03, 0x9b, &[1]), Err(Status::IncorrectDataParameter));

    let (_, mut rt) = fresh();
    let mut step2 = vec![1, 2, 3, 4, 5, 6, 7, 8, 0x81, 0x08];
    step2.extend_from_slice(&[9u8; 8]);
    // no challenge was asked for
    assert_eq!(request_for_challenge(0x03, 0x9b, &step2, &mut rt), Err(Status::InstructionNotSupportedOrInvalid));

    begin_management_authentication(&mut rt, [1, 2, 3, 4, 5, 6, 7, 8]);
    assert_eq!(request_for_challenge(0x03, 0x9b, &step2, &mut rt), Ok(&step2[10..]));
    assert!(rt.app_security_status.management_verified);
    assert!(rt.command_cache.is_none());
    // the challenge is used once
    assert_eq!(request_for_challenge(0x03, 0x9b, &step2, &mut rt), Err(Status::InstructionNotSupportedOrInvalid));

    let (_, mut rt) = fresh();
    begin_management_authentication(&mut rt, [8, 7, 6, 5, 4, 3, 2, 1]);
    assert_eq!(request_for_challenge(0x03, 0x9b, &step2, &mut rt), Err(Status::IncorrectDataParameter));
    assert!(!rt.app_security_status.management_verified);
    assert!(rt.command_cache.is_none());
    assert_eq!(request_for_challenge(0x03, 0x9b, &step2[..17], &mut rt), Err(Status::IncorrectDataParameter));
    let mut rt2 = Runtime::new();
    rt2.command_cache = Some(CommandCache::GetData(solo2::piv_state::GetData {}));
    assert_eq!(request_for_challenge(0x03, 0x9b, &step2, &mut rt2), Err(Status::InstructionNotSupportedOrInvalid));
}

#[test]
fn key_generation_checks() {
    let (_, mut rt) = fresh();
    let template = [0xac, 0x09, 0x80, 0x01, 0x22, 0xaa, 0x01, 0x02, 0xab, 0x01, 0x02];
    assert_eq!(check_generate_asymmetric(&rt.app_security_status, 0, 0x9a, &template), Err(Status::SecurityStatusNotSatisfied));
    rt.app_security_status.management_verified = true;
    let s = &rt.app_security_status;
    assert_eq!(check_generate_asymmetric(s, 0, 0x9a, &template), Ok(()));
    assert_eq!(check_generate_asymmetric(s, 1, 0x9a, &template), Err(Status::IncorrectP1OrP2Parameter));
    assert_eq!(check_generate_asymmetric(s, 0, 0x9c, &template), Err(Status::FunctionNotSupported));
    let p256 = [0xac, 0x09, 0x80, 0x01, 0x11, 0xaa, 0x01, 0x02, 0xab, 0x01, 0x02];
    assert_eq!(check_generate_asymmetric(s, 0, 0x9a, &p256), Err(Status::InstructionNotSupportedOrInvalid));
    assert_eq!(check_generate_asymmetric(s, 0, 0x9a, &template[..10]), Err(Status::IncorrectDataParameter));
    let r = public_key_response(&[0x11u8; 32]);
    assert_eq!(&r[..5], &[0x7f, 0x49, 0x22, 0x86, 0x20]);
    assert_eq!(r.len(), 37);
}

#[test]
fn answers() {
    assert_eq!(signature_response(&[1, 2, 3]), vec![0x7c, 0x05, 0x82, 0x03, 1, 2, 3]);
    let chuid = chuid_response(&[0xaa; 16]);
    assert_eq!(&chuid[..6], &[0x53, 0x23, 0x30, 0x02, 0x99, 0x99]);
    assert_eq!(&chuid[24..], &[0x35, 0x08, b'2', b'2', b'2', b'2', b'0', b'1', b'0', b'1', 0x3e, 0x01, b' ']);
    assert_eq!(certificate_response(&[9, 9]), vec![0x53, 0x02, 9, 9]);
}

#[test]
fn data_objects() {
    assert_eq!(piv_app::get_data(0x3f, 0xff, &[0x5c, 0x01, 0x7e]), Ok(DataObject::DiscoveryObject));
    assert_eq!(piv_app::get_data(0x3f, 0xff, &[0x5c, 0x03, 0x5f, 0xc1, 0x02]), Ok(DataObject::CardHolderUniqueIdentifier));
    assert_eq!(piv_app::get_data(0x3f, 0xff, &[0x5c, 0x03, 0x5f, 0xc1, 0x05]), Ok(DataObject::X509CertificateForPivAuthentication));
    assert_eq!(piv_app::get_data(0x3f, 0xff, &[0x5c, 0x03, 0x5f, 0xff, 0x01]), Ok(DataObject::AttestationCertificate));
    assert_eq!(piv_app::get_data(0x3f, 0xff, &[0x5c, 0x02, 0x7f, 0x61]), Err(Status::InstructionNotSupportedOrInvalid));
    assert_eq!(piv_app::get_data(0x3f, 0xff, &[0x5c, 0x03, 0x5f, 0xc1, 0x0b]), Err(Status::NotFound));
    assert_eq!(piv_app::get_data(0x00, 0xff, &[0x5c, 0x01, 0x7e]), Err(Status::IncorrectP1OrP2Parameter));
    assert_eq!(piv_app::get_data(0x3f, 0xff, &[0x5c, 0x02, 0x7e]), Err(Status::IncorrectDataParameter));
    assert_eq!(piv_app::get_data(0x3f, 0xff, &[0x5c, 0x04, 1, 2, 3, 4]), Err(Status::IncorrectDataParameter));
}

#[test]
fn yubico_extensions() {
    let (mut p, mut rt) = fresh();
    let s = &mut rt.app_security_status;
    assert!(matches!(yubico_piv_extension(YubicoPivExtension::Attest, 0x9a, 0, &[], &mut p, s), Ok(YubicoAction::AttestationFor9a)));
    assert!(matches!(yubico_piv_extension(YubicoPivExtension::Attest, 0x9c, 0, &[], &mut p, s), Err(Status::FunctionNotSupported)));
    assert!(matches!(yubico_piv_extension(YubicoPivExtension::Attest, 0x9a, 1, &[], &mut p, s), Err(Status::IncorrectP1OrP2Parameter)));
    let mut key = vec![0x03, 0x9b, 0x18];
    key.extend_from_slice(&[0x42u8; 24]);
    match yubico_piv_extension(YubicoPivExtension::SetManagementKey, 0xff, 0xfe, &key, &mut p, s) {
        Ok(YubicoAction::SetManagementKey(k)) => assert_eq!(k, &[0x42u8; 24][..]),
        _ => panic!("a key expected"),
    }
    assert!(matches!(yubico_piv_extension(YubicoPivExtension::SetManagementKey, 0xff, 0xfd, &key, &mut p, s), Err(Status::IncorrectP1OrP2Parameter)));
    key[0] = 0x04;
    assert!(matches!(yubico_piv_extension(YubicoPivExtension::SetManagementKey, 0xff, 0xff, &key, &mut p, s), Err(Status::IncorrectDataParameter)));
    assert!(matches!(yubico_piv_extension(YubicoPivExtension::GetMetadata, 0, 0, &[], &mut p, s), Err(Status::FunctionNotSupported)));
    // reset: the PIN and the PUK are back to their defaults and nothing
    // counts as verified
    let mut data = DEFAULT_PIN.to_vec();
    data.extend_from_slice(&OTHER_PIN);
    change_reference_data(0x80, &data, &mut p, s).unwrap();
    let mut puk_data = DEFAULT_PUK.to_vec();
    puk_data.extend_from_slice(&OTHER_PIN);
    change_reference_data(0x81, &puk_data, &mut p, s).unwrap();
    s.management_verified = true;
    assert!(matches!(yubico_piv_extension(YubicoPivExtension::Reset, 0, 1, &[], &mut p, s), Err(Status::IncorrectP1OrP2Parameter)));
    assert!(matches!(yubico_piv_extension(YubicoPivExtension::Reset, 0, 0, &[], &mut p, s), Ok(YubicoAction::Reset)));
    assert!(!s.pin_verified && !s.management_verified && !s.puk_verified);
    assert_eq!(verify(0x00, 0x80, &DEFAULT_PIN, &mut p, s), Ok(()));
    assert_eq!(p.current_puk().as_bytes(), DEFAULT_PUK);
}

#[test]
fn command_chaining() {
    let mut pending: Option<ChainedCommand> = None;
    assert!(chain_step(&mut pending, 0x10, 0xdb, 0x3f, 0xff, &[1, 2]).is_none());
    assert!(chain_step(&mut pending, 0x10, 0xdb, 0x00, 0x00, &[3]).is_none());
    let whole = chain_step(&mut pending, 0x00, 0xdb, 0x00, 0x00, &[4]).unwrap();
    assert!(pending.is_none());
    assert_eq!((whole.cla, whole.ins, whole.p1, whole.p2), (0x10, 0xdb, 0x3f, 0xff));
    assert_eq!(whole.data, vec![1, 2, 3, 4]);
    let single = chain_step(&mut pending, 0x00, 0x20, 0x00, 0x80, &[5]).unwrap();
    assert_eq!(single.data, vec![5]);
}

#[test]
fn session() {
    let mut a = Authenticator::new();
    a.deselect();
    assert!(a.chained_command.is_none());
    let answer = a.select(b"Solo", b"u");
    assert_eq!(&answer[..2], &[0x61, answer.len() as u8 - 2]);
    assert_eq!(&answer[2..10], &[0x4f, 0x06, 0x00, 0x00, 0x10, 0x00, 0x01, 0x00]);
    let (mut p, _) = fresh();
    assert_eq!(authentication_key(&p), Err(Status::KeyReferenceNotFound));
    p.set_authentication_key(Some(handle(7)));
    assert_eq!(authentication_key(&p), Ok(handle(7)));
}

#[test]
fn stand_in_piv_over_the_ccid_buffer() {
    let mut select = vec![0x00, 0xa4, 0x04, 0x00, 0x09, 0xa0, 0x00, 0x00, 0x03, 0x08, 0x00, 0x00, 0x10, 0x00, 0x00];
    solo2::ccid::fake_piv(&mut select);
    assert_eq!(&select[..4], &[0x61, 0x1f, 0x4f, 0x06]);
    assert_eq!(&select[select.len() - 2..], &[0x90, 0x00]);
    assert_eq!(select.len(), 2 + 0x1f + 2);
    let mut other = vec![0x00, 0xa4, 0x04, 0x00, 0x02, 0xe1, 0x04, 0x00];
    let before = other.clone();
    solo2::ccid::fake_piv(&mut other);
    assert_eq!(other, before);
    let mut malformed = vec![0x00, 0xa4, 0x04, 0x00, 0x05, 0x01];
    solo2::ccid::fake_piv(&mut malformed);
    assert_eq!(malformed, vec![0x6a, 0x82]);
}

#[test]
fn session_verify_and_change() {
    let mut a = Authenticator::new();
    let (mut p, _) = fresh();
    assert_eq!(a.verify(0x00, 0x80, &DEFAULT_PIN, &mut p), Ok(()));
    assert!(a.runtime.app_security_status.pin_verified);
    let mut data = DEFAULT_PIN.to_vec();
    data.extend_from_slice(&OTHER_PIN);
    assert_eq!(a.change_reference(0x80, &data, &mut p), Ok(()));
    assert_eq!(a.verify(0x00, 0x80, &OTHER_PIN, &mut p), Ok(()));
}

#[test]
fn unhandled_authenticate_templates() {
    // two-byte template lengths, cut-off headers and cut-off sign requests
    assert!(piv_app::authenticate_unhandled(&[0x7c, 0x82, 0x00, 0x10]));
    assert!(piv_app::authenticate_unhandled(&[0x7c, 0x81]));
    assert!(piv_app::authenticate_unhandled(&[0x7c, 0x04, 0x82, 0x00, 0x81, 0x81]));
    // what the parser handles
    assert!(!piv_app::authenticate_unhandled(&[0x7c, 0x02, 0x80, 0x00]));
    assert!(!piv_app::authenticate_unhandled(&[0x7c, 0x06, 0x82, 0x00, 0x81, 0x81, 0x01, 0xaa]));
    assert!(!piv_app::authenticate_unhandled(&[0x7d, 0x82]));
}

const DEFAULT_PUK: [u8; 8] = [0x31, 0x32, 0x33, 0x34, 0x35, 0x36, 0x37, 0x38];
const NEW_PUK: [u8; 8] = [0x38, 0x37, 0x36, 0x35, 0x34, 0x33, 0xff, 0xff];

#[test]
fn change_puk_and_block_it() {
    let (mut p, mut rt) = fresh();
    let s = &mut rt.app_security_status;
    assert_eq!(p.remaining_puk_retries(), 3);
    // the right PUK installs the new one
    let mut data = DEFAULT_PUK.to_vec();
    data.extend_from_slice(&NEW_PUK);
    assert_eq!(change_reference_data(0x81, &data, &mut p, s), Ok(()));
    assert!(s.puk_verified);
    assert_eq!(p.current_puk().as_bytes(), NEW_PUK);
    // the PIN is untouched
    assert_eq!(p.current_pin().as_bytes(), DEFAULT_PIN);
    // a wrong old PUK (as clients send to block it) costs a retry each time
    let mut wrong = DEFAULT_PUK.to_vec();
    wrong.extend_from_slice(&DEFAULT_PUK);
    assert_eq!(change_reference_data(0x81, &wrong, &mut p, s), Err(Status::RemainingRetries(2)));
    assert!(!s.puk_verified);
    assert_eq!(change_reference_data(0x81, &wrong, &mut p, s), Err(Status::RemainingRetries(1)));
    assert_eq!(change_reference_data(0x81, &wrong, &mut p, s), Err(Status::RemainingRetries(0)));
    assert_eq!(change_reference_data(0x81, &wrong, &mut p, s), Err(Status::OperationBlocked));
    assert_eq!(p.remaining_puk_retries(), 0);
    assert_eq!(p.remaining_pin_retries(), 3);
}

#[test]
fn session_change_pin_and_puk() {
    let (mut p, _) = fresh();
    let mut a = solo2::piv_app::Authenticator::new();
    let default_pin = Pin::try_new(&DEFAULT_PIN).unwrap();
    let other = Pin::try_new(&OTHER_PIN).unwrap();
    let puk = Pin::try_new(&DEFAULT_PUK).unwrap();
    assert_eq!(a.change_pin(other, default_pin, &mut p), Err(Status::RemainingRetries(2)));
    assert_eq!(a.change_pin(default_pin, other, &mut p), Ok(()));
    assert_eq!(p.current_pin().as_bytes(), OTHER_PIN);
    let new_puk = Pin::try_new(&NEW_PUK).unwrap();
    assert_eq!(a.change_puk(new_puk, puk, &mut p), Err(Status::RemainingRetries(2)));
    assert_eq!(a.change_puk(puk, new_puk, &mut p), Ok(()));
    assert_eq!(p.current_puk().as_bytes(), NEW_PUK);
    assert!(a.runtime.app_security_status.puk_verified);
}
