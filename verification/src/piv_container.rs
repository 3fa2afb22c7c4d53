//! PIV key references and data objects (SP 800-73-4, Part 1): the names of
//! the containers, their identifiers, and the BER-TLV tags that select them.

use vstd::prelude::*;

verus! {

/// The BER-TLV tag of a data object, as sent in GET DATA and PUT DATA.
pub struct Tag<'a>(&'a [u8]);

impl<'a> Tag<'a> {
    pub closed spec fn bytes(&self) -> Seq<u8> {
        self.0@
    }

    pub fn new(slice: &'a [u8]) -> (r: Tag<'a>)
        ensures
            r.bytes() == slice@,
    {
        Tag(slice)
    }
}

/// Number of a retired key or certificate, from 1 to 20.
#[derive(Clone, Copy, Debug, PartialEq, Eq)]
pub struct RetiredIndex(u8);

impl RetiredIndex {
    #[verifier::type_invariant]
    closed spec fn in_range(self) -> bool {
        1 <= self.0 <= 20
    }

    pub closed spec fn index(self) -> u8 {
        self.0
    }

    pub fn new(i: u8) -> (r: Option<RetiredIndex>)
        ensures
            r is Some <==> 1 <= i <= 20,
            r matches Some(x) ==> x.index() == i,
    {
        if 1 <= i && i <= 20 {
            Some(RetiredIndex(i))
        } else {
            None
        }
    }

    pub fn get(&self) -> (r: u8)
        ensures
            r == self.index(),
            1 <= r <= 20,
    {
        proof {
            use_type_invariant(self);
        }
        self.0
    }
}

/// PIV key references.
#[derive(Clone, Copy, Debug, PartialEq, Eq)]
pub enum KeyReference {
    GlobalPin,
    ApplicationPin,
    PinUnblockingKey,
    PrimaryFinger,
    SecondaryFinger,
    PairingCode,
    PivAuthentication,
    PivCardApplicationAdministration,
    DigitalSignature,
    KeyManagement,
    CardAuthentication,
    RetiredKeyManagement(RetiredIndex),
}

impl KeyReference {
    /// The key reference byte: retired key management keys take `82` to `95`.
    pub open spec fn spec_code(self) -> int {
        match self {
            KeyReference::GlobalPin => 0x00,
            KeyReference::ApplicationPin => 0x80,
            KeyReference::PinUnblockingKey => 0x81,
            KeyReference::PrimaryFinger => 0x96,
            KeyReference::SecondaryFinger => 0x97,
            KeyReference::PairingCode => 0x98,
            KeyReference::PivAuthentication => 0x9A,
            KeyReference::PivCardApplicationAdministration => 0x9B,
            KeyReference::DigitalSignature => 0x9C,
            KeyReference::KeyManagement => 0x9D,
            KeyReference::CardAuthentication => 0x9E,
            KeyReference::RetiredKeyManagement(i) => 0x81 + i.index(),
        }
    }

    pub fn code(self) -> (r: u8)
        ensures
            r == self.spec_code(),
    {
        match self {
            KeyReference::GlobalPin => 0x00,
            KeyReference::ApplicationPin => 0x80,
            KeyReference::PinUnblockingKey => 0x81,
            KeyReference::PrimaryFinger => 0x96,
            KeyReference::SecondaryFinger => 0x97,
            KeyReference::PairingCode => 0x98,
            KeyReference::PivAuthentication => 0x9A,
            KeyReference::PivCardApplicationAdministration => 0x9B,
            KeyReference::DigitalSignature => 0x9C,
            KeyReference::KeyManagement => 0x9D,
            KeyReference::CardAuthentication => 0x9E,
            KeyReference::RetiredKeyManagement(i) => {
                let n = i.get();
                0x81 + n
            },
        }
    }
}

/// The data objects defined by PIV (SP 800-73-4, Part 1).
#[derive(Clone, Copy, Debug, PartialEq, Eq)]
pub enum Container {
    CardCapabilityContainer,
    CardHolderUniqueIdentifier,
    X509CertificateFor9A,
    CardholderFingerprints,
    SecurityObject,
    CardholderFacialImage,
    X509CertificateFor9E,
    X509CertificateFor9C,
    X509CertificateFor9D,
    PrintedInformation,
    DiscoveryObject,
    KeyHistoryObject,
    RetiredX509Certificate(RetiredIndex),
    CardholderIrisImages,
    BiometricInformationTemplatesGroupTemplate,
    SecureMessagingCertificateSigner,
    PairingCodeReferenceDataContainer,
}

/// The container identifier of a data object.
#[derive(Clone, Copy, Debug, PartialEq, Eq)]
pub struct ContainerId(u16);

impl ContainerId {
    pub closed spec fn value(self) -> u16 {
        self.0
    }

    pub fn get(&self) -> (r: u16)
        ensures
            r == self.value(),
    {
        self.0
    }
}

impl Container {
    pub open spec fn spec_id(self) -> int {
        match self {
            Container::CardCapabilityContainer => 0xDB00,
            Container::CardHolderUniqueIdentifier => 0x3000,
            Container::X509CertificateFor9A => 0x0101,
            Container::CardholderFingerprints => 0x6010,
            Container::SecurityObject => 0x9000,
            Container::CardholderFacialImage => 0x6030,
            Container::X509CertificateFor9E => 0x0500,
            Container::X509CertificateFor9C => 0x0100,
            Container::X509CertificateFor9D => 0x0102,
            Container::PrintedInformation => 0x3001,
            Container::DiscoveryObject => 0x6050,
            Container::KeyHistoryObject => 0x6060,
            Container::RetiredX509Certificate(i) => 0x1000 + i.index(),
            Container::CardholderIrisImages => 0x1015,
            Container::BiometricInformationTemplatesGroupTemplate => 0x1016,
            Container::SecureMessagingCertificateSigner => 0x1017,
            Container::PairingCodeReferenceDataContainer => 0x1018,
        }
    }

    /// The container identifier (`ContainerId::from` in the PIV data model).
    pub fn id(self) -> (r: ContainerId)
        ensures
            r.value() == self.spec_id(),
    {
        let v: u16 = match self {
            Container::CardCapabilityContainer => 0xDB00,
            Container::CardHolderUniqueIdentifier => 0x3000,
            Container::X509CertificateFor9A => 0x0101,
            Container::CardholderFingerprints => 0x6010,
            Container::SecurityObject => 0x9000,
            Container::CardholderFacialImage => 0x6030,
            Container::X509CertificateFor9E => 0x0500,
            Container::X509CertificateFor9C => 0x0100,
            Container::X509CertificateFor9D => 0x0102,
            Container::PrintedInformation => 0x3001,
            Container::DiscoveryObject => 0x6050,
            Container::KeyHistoryObject => 0x6060,
            Container::RetiredX509Certificate(i) => {
                let n = i.get();
                0x1000u16 + n as u16
            },
            Container::CardholderIrisImages => 0x1015,
            Container::BiometricInformationTemplatesGroupTemplate => 0x1016,
            Container::SecureMessagingCertificateSigner => 0x1017,
            Container::PairingCodeReferenceDataContainer => 0x1018,
        };
        ContainerId(v)
    }

    /// The container selected by the last byte of a three-byte tag `5F C1 xx`.
    pub closed spec fn spec_from_5fc1(x: u8) -> Option<Container> {
        if x == 0x07 {
            Some(Container::CardCapabilityContainer)
        } else if x == 0x02 {
            Some(Container::CardHolderUniqueIdentifier)
        } else if x == 0x05 {
            Some(Container::X509CertificateFor9A)
        } else if x == 0x03 {
            Some(Container::CardholderFingerprints)
        } else if x == 0x06 {
            Some(Container::SecurityObject)
        } else if x == 0x08 {
            Some(Container::CardholderFacialImage)
        } else if x == 0x01 {
            Some(Container::X509CertificateFor9E)
        } else if x == 0x0A {
            Some(Container::X509CertificateFor9C)
        } else if x == 0x0B {
            Some(Container::X509CertificateFor9D)
        } else if x == 0x09 {
            Some(Container::PrintedInformation)
        } else if 0x0D <= x <= 0x20 {
            Some(Container::RetiredX509Certificate(RetiredIndex((x - 0x0C) as u8)))
        } else if x == 0x21 {
            Some(Container::CardholderIrisImages)
        } else if x == 0x22 {
            Some(Container::SecureMessagingCertificateSigner)
        } else if x == 0x23 {
            Some(Container::PairingCodeReferenceDataContainer)
        } else {
            None
        }
    }

    /// The container a tag selects: `7E` (discovery object), `7F 61`
    /// (biometric information templates) or `5F C1 xx`, where `0D` to `20`
    /// select the retired certificates 1 to 20.
    pub closed spec fn spec_from_tag(t: Seq<u8>) -> Option<Container> {
        if t == seq![0x7Eu8] {
            Some(Container::DiscoveryObject)
        } else if t == seq![0x7Fu8, 0x61u8] {
            Some(Container::BiometricInformationTemplatesGroupTemplate)
        } else if t.len() == 3 && t[0] == 0x5F && t[1] == 0xC1 {
            Container::spec_from_5fc1(t[2])
        } else {
            None
        }
    }

    /// Decode a data object tag; the error is returned for any tag that
    /// names no PIV container.
    pub fn try_from(tag: Tag<'_>) -> (r: Result<Container, ()>)
        ensures
            r == (match Container::spec_from_tag(tag.bytes()) {
                Some(c) => Ok::<Container, ()>(c),
                None => Err::<Container, ()>(()),
            }),
    {
        let t = tag.0;
        if t.len() == 1 && t[0] == 0x7E {
            assert(t@ =~= seq![0x7Eu8]);
            return Ok(Container::DiscoveryObject);
        }
        if t.len() == 2 && t[0] == 0x7F && t[1] == 0x61 {
            assert(t@ =~= seq![0x7Fu8, 0x61u8]);
            return Ok(Container::BiometricInformationTemplatesGroupTemplate);
        }
        if !(t.len() == 3 && t[0] == 0x5F && t[1] == 0xC1) {
            proof {
                if t@ =~= seq![0x7Eu8] {
                    assert(t@[0] == 0x7E);
                }
                if t@ =~= seq![0x7Fu8, 0x61u8] {
                    assert(t@[0] == 0x7F && t@[1] == 0x61);
                }
            }
            return Err(());
        }
        proof {
            if t@ =~= seq![0x7Eu8] {
                assert(t@.len() == 1);
            }
            if t@ =~= seq![0x7Fu8, 0x61u8] {
                assert(t@.len() == 2);
            }
        }
        let x = t[2];
        match x {
            0x07 => Ok(Container::CardCapabilityContainer),
            0x02 => Ok(Container::CardHolderUniqueIdentifier),
            0x05 => Ok(Container::X509CertificateFor9A),
            0x03 => Ok(Container::CardholderFingerprints),
            0x06 => Ok(Container::SecurityObject),
            0x08 => Ok(Container::CardholderFacialImage),
            0x01 => Ok(Container::X509CertificateFor9E),
            0x0A => Ok(Container::X509CertificateFor9C),
            0x0B => Ok(Container::X509CertificateFor9D),
            0x09 => Ok(Container::PrintedInformation),
            0x21 => Ok(Container::CardholderIrisImages),
            0x22 => Ok(Container::SecureMessagingCertificateSigner),
            0x23 => Ok(Container::PairingCodeReferenceDataContainer),
            _ => {
                if 0x0D <= x && x <= 0x20 {
                    match RetiredIndex::new(x - 0x0C) {
                        Some(i) => Ok(Container::RetiredX509Certificate(i)),
                        None => Err(()),
                    }
                } else {
                    Err(())
                }
            },
        }
    }
}

/// Who may read a data object over the contact interface.
#[derive(Clone, Copy, Debug, PartialEq, Eq)]
pub enum ReadAccessRule {
    Always,
    Pin,
    PinOrOcc,
}

/// Card Holder Unique Identifier (tag `5FC102`), by its fields.
#[derive(Clone, Copy, Debug, PartialEq, Eq)]
pub struct CardHolderUniqueIdentifier {
    pub fasc_n: [u8; 25],
    pub duns: [u8; 9],
    pub guid: [u8; 16],
    pub expiration_date: [u8; 8],
    pub issuer_asymmetric_signature: [u8; 1],
    pub error_detection_code: [u8; 0],
}

/// Discovery Object (tag `7E`), by its fields.
#[derive(Clone, Copy, Debug, PartialEq, Eq)]
pub struct DiscoveryObject {
    pub piv_card_application_aid: [u8; 11],
    pub pin_usage_policy: [u8; 2],
}

/// The data object tags of SP 800-73-4: `5F C1 xx` selects the container
/// numbered `xx` (the retired certificates 1 to 20 from `0D` to `20`), `7E`
/// the discovery object and `7F 61` the biometric group template.
pub proof fn lemma_container_tags(x: u8)
    ensures
        Container::spec_from_tag(seq![0x5Fu8, 0xC1u8, x]) == Some(Container::CardCapabilityContainer) <==> x == 0x07,
        Container::spec_from_tag(seq![0x5Fu8, 0xC1u8, x]) == Some(Container::CardHolderUniqueIdentifier) <==> x == 0x02,
        Container::spec_from_tag(seq![0x5Fu8, 0xC1u8, x]) == Some(Container::X509CertificateFor9A) <==> x == 0x05,
        Container::spec_from_tag(seq![0x5Fu8, 0xC1u8, x]) == Some(Container::CardholderFingerprints) <==> x == 0x03,
        Container::spec_from_tag(seq![0x5Fu8, 0xC1u8, x]) == Some(Container::SecurityObject) <==> x == 0x06,
        Container::spec_from_tag(seq![0x5Fu8, 0xC1u8, x]) == Some(Container::CardholderFacialImage) <==> x == 0x08,
        Container::spec_from_tag(seq![0x5Fu8, 0xC1u8, x]) == Some(Container::X509CertificateFor9E) <==> x == 0x01,
        Container::spec_from_tag(seq![0x5Fu8, 0xC1u8, x]) == Some(Container::X509CertificateFor9C) <==> x == 0x0A,
        Container::spec_from_tag(seq![0x5Fu8, 0xC1u8, x]) == Some(Container::X509CertificateFor9D) <==> x == 0x0B,
        Container::spec_from_tag(seq![0x5Fu8, 0xC1u8, x]) == Some(Container::PrintedInformation) <==> x == 0x09,
        Container::spec_from_tag(seq![0x5Fu8, 0xC1u8, x]) == Some(Container::CardholderIrisImages) <==> x == 0x21,
        Container::spec_from_tag(seq![0x5Fu8, 0xC1u8, x]) == Some(Container::SecureMessagingCertificateSigner) <==> x == 0x22,
        Container::spec_from_tag(seq![0x5Fu8, 0xC1u8, x]) == Some(Container::PairingCodeReferenceDataContainer) <==> x == 0x23,
        0x0D <= x <= 0x20 ==> (Container::spec_from_tag(seq![0x5Fu8, 0xC1u8, x]) matches Some(
            Container::RetiredX509Certificate(i),
        ) && i.index() == x - 0x0C),
        Container::spec_from_tag(seq![0x7Eu8]) == Some(Container::DiscoveryObject),
        Container::spec_from_tag(seq![0x7Fu8, 0x61u8]) == Some(Container::BiometricInformationTemplatesGroupTemplate),
{
    if 0x0D <= x <= 0x20 {
        assert(Container::spec_from_tag(seq![0x5Fu8, 0xC1u8, x]) == Container::spec_from_5fc1(x));
    }
}

/// The container identifiers of SP 800-73-4 (the retired certificates take
/// `1001` to `1014`).
pub proof fn lemma_container_ids(c: Container)
    ensures
        c == Container::CardCapabilityContainer ==> c.spec_id() == 0xDB00,
        c == Container::CardHolderUniqueIdentifier ==> c.spec_id() == 0x3000,
        c == Container::X509CertificateFor9A ==> c.spec_id() == 0x0101,
        c == Container::CardholderFingerprints ==> c.spec_id() == 0x6010,
        c == Container::SecurityObject ==> c.spec_id() == 0x9000,
        c == Container::CardholderFacialImage ==> c.spec_id() == 0x6030,
        c == Container::X509CertificateFor9E ==> c.spec_id() == 0x0500,
        c == Container::X509CertificateFor9C ==> c.spec_id() == 0x0100,
        c == Container::X509CertificateFor9D ==> c.spec_id() == 0x0102,
        c == Container::PrintedInformation ==> c.spec_id() == 0x3001,
        c == Container::DiscoveryObject ==> c.spec_id() == 0x6050,
        c == Container::KeyHistoryObject ==> c.spec_id() == 0x6060,
        c == Container::CardholderIrisImages ==> c.spec_id() == 0x1015,
        c == Container::BiometricInformationTemplatesGroupTemplate ==> c.spec_id() == 0x1016,
        c == Container::SecureMessagingCertificateSigner ==> c.spec_id() == 0x1017,
        c == Container::PairingCodeReferenceDataContainer ==> c.spec_id() == 0x1018,
        c matches Container::RetiredX509Certificate(i) ==> c.spec_id() == 0x1000 + i.index(),
{
}

/// The key reference bytes of SP 800-73-4 (the retired key management keys
/// take `82` to `95`).
pub proof fn lemma_key_reference_codes(k: KeyReference)
    ensures
        k == KeyReference::GlobalPin ==> k.spec_code() == 0x00,
        k == KeyReference::ApplicationPin ==> k.spec_code() == 0x80,
        k == KeyReference::PinUnblockingKey ==> k.spec_code() == 0x81,
        k == KeyReference::PrimaryFinger ==> k.spec_code() == 0x96,
        k == KeyReference::SecondaryFinger ==> k.spec_code() == 0x97,
        k == KeyReference::PairingCode ==> k.spec_code() == 0x98,
        k == KeyReference::PivAuthentication ==> k.spec_code() == 0x9A,
        k == KeyReference::PivCardApplicationAdministration ==> k.spec_code() == 0x9B,
        k == KeyReference::DigitalSignature ==> k.spec_code() == 0x9C,
        k == KeyReference::KeyManagement ==> k.spec_code() == 0x9D,
        k == KeyReference::CardAuthentication ==> k.spec_code() == 0x9E,
        k matches KeyReference::RetiredKeyManagement(i) ==> k.spec_code() == 0x81 + i.index(),
{
}

} // verus!
