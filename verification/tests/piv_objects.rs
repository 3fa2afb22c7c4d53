use solo2::piv_container::{Container, ContainerId, KeyReference, RetiredIndex, Tag, ReadAccessRule};
use solo2::piv_commands::{
    VerifyKeyReference, VerifyParameter1, ChangeReferenceKeyReference, AuthenticateKeyReference,
    GenerateAsymmetricKeyReference, ChangePin, Select, Command,
};
use solo2::status::Status;

#[test]
fn containers_by_tag() {
    assert_eq!(Container::try_from(Tag::new(&[0x7e])), Ok(Container::DiscoveryObject));
    assert_eq!(Container::try_from(Tag::new(&[0x7f, 0x61])), Ok(Container::BiometricInformationTemplatesGroupTemplate));
    assert_eq!(Container::try_from(Tag::new(&[0x5f, 0xc1, 0x02])), Ok(Container::CardHolderUniqueIdentifier));
    assert_eq!(Container::try_from(Tag::new(&[0x5f, 0xc1, 0x09])), Ok(Container::PrintedInformation));
    assert_eq!(Container::try_from(Tag::new(&[0x5f, 0xc1, 0x23])), Ok(Container::PairingCodeReferenceDataContainer));
    let retired = Container::try_from(Tag::new(&[0x5f, 0xc1, 0x0d])).unwrap();
    assert_eq!(retired, Container::RetiredX509Certificate(RetiredIndex::new(1).unwrap()));
    assert_eq!(retired.id().get(), 0x1001);
    let last = Container::try_from(Tag::new(&[0x5f, 0xc1, 0x20])).unwrap();
    assert_eq!(last.id().get(), 0x1014);
    assert_eq!(Container::try_from(Tag::new(&[0x5f, 0xc1, 0x0c])), Err(()));
    assert_eq!(Container::try_from(Tag::new(&[0x5f, 0xc1])), Err(()));
    assert_eq!(Container::try_from(Tag::new(&[])), Err(()));
}

#[test]
fn container_ids() {
    let id: ContainerId = Container::CardCapabilityContainer.id();
    assert_eq!(id.get(), 0xdb00);
    assert_eq!(Container::DiscoveryObject.id().get(), 0x6050);
    assert_eq!(Container::X509CertificateFor9A.id().get(), 0x0101);
    let _rule = ReadAccessRule::PinOrOcc;
}

#[test]
fn key_references() {
    assert_eq!(KeyReference::ApplicationPin.code(), 0x80);
    assert_eq!(KeyReference::PivAuthentication.code(), 0x9a);
    assert_eq!(KeyReference::RetiredKeyManagement(RetiredIndex::new(1).unwrap()).code(), 0x82);
    assert_eq!(KeyReference::RetiredKeyManagement(RetiredIndex::new(20).unwrap()).code(), 0x95);
    assert!(RetiredIndex::new(0).is_none());
    assert!(RetiredIndex::new(21).is_none());
}

#[test]
fn command_parameters() {
    assert_eq!(VerifyKeyReference::try_from(0x80), Ok(VerifyKeyReference::PivPin));
    assert_eq!(VerifyKeyReference::try_from(0x96), Err(Status::FunctionNotSupported));
    assert_eq!(VerifyKeyReference::try_from(0x01), Err(Status::KeyReferenceNotFound));
    assert_eq!(VerifyParameter1::try_from(0xff), Ok(VerifyParameter1::Reset));
    assert_eq!(VerifyParameter1::try_from(0x01), Err(Status::IncorrectP1OrP2Parameter));
    assert_eq!(ChangeReferenceKeyReference::try_from(0x81), Ok(ChangeReferenceKeyReference::Puk));
    assert_eq!(AuthenticateKeyReference::try_from(0x95), Ok(AuthenticateKeyReference::Retired20));
    assert_eq!(AuthenticateKeyReference::try_from(0x9b), Ok(AuthenticateKeyReference::Administration));
    assert_eq!(AuthenticateKeyReference::try_from(0x81), Err(Status::KeyReferenceNotFound));
    assert_eq!(GenerateAsymmetricKeyReference::try_from(0x04), Err(Status::FunctionNotSupported));
    assert_eq!(GenerateAsymmetricKeyReference::try_from(0x9e), Ok(GenerateAsymmetricKeyReference::CardAuthentication));
    assert!(ChangePin::try_from(&[0u8; 16]).is_ok());
    assert_eq!(ChangePin::try_from(&[0u8; 15]).err(), Some(Status::IncorrectDataParameter));
    let aid = [0xa0, 0x00, 0x00, 0x03, 0x08, 0x00, 0x00, 0x10, 0x00, 0x01, 0x00];
    assert!(Select::try_from(&aid).is_ok());
    assert_eq!(Select::try_from(&aid[..9]).err(), Some(Status::NotFound));
}

#[test]
fn piv_command_headers() {
    let aid = [0xa0, 0x00, 0x00, 0x03, 0x08, 0x00, 0x00, 0x10, 0x00, 0x01, 0x00];
    assert!(matches!(Command::try_from(0x00, 0xa4, 0x04, 0x00, &aid), Ok(Command::Select(_))));
    assert!(matches!(Command::try_from(0x00, 0xa4, 0x04, 0x00, &aid[..5]), Err(Status::NotFound)));
    assert!(matches!(Command::try_from(0x00, 0x2c, 0x00, 0x80, &[0u8; 16]), Ok(Command::ChangePin(_))));
    assert!(matches!(Command::try_from(0x00, 0x2c, 0x00, 0x80, &[0u8; 8]), Err(Status::IncorrectDataParameter)));
    assert!(matches!(Command::try_from(0x0c, 0xa4, 0x04, 0x00, &aid), Err(Status::SecureMessagingNotSupported)));
    assert!(matches!(Command::try_from(0x01, 0xa4, 0x04, 0x00, &aid), Err(Status::LogicalChannelNotSupported)));
    assert!(matches!(Command::try_from(0x00, 0x20, 0x01, 0x80, &[]), Err(Status::IncorrectP1OrP2Parameter)));
    assert!(matches!(Command::try_from(0x00, 0x20, 0x00, 0x97, &[]), Err(Status::FunctionNotSupported)));
    assert!(matches!(Command::try_from(0x00, 0x24, 0x00, 0x01, &[]), Err(Status::KeyReferenceNotFound)));
    assert!(matches!(Command::try_from(0x00, 0x87, 0x11, 0x01, &[]), Err(Status::KeyReferenceNotFound)));
    assert!(matches!(Command::try_from(0x00, 0x47, 0x00, 0x04, &[]), Err(Status::FunctionNotSupported)));
}
