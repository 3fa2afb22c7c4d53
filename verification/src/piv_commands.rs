//! PIV command parameters: key references, verification modes and the
//! data of CHANGE PIN and SELECT, as NIST SP 800-73-4 defines them.

use vstd::prelude::*;
use crate::status::Status;
use crate::piv_state::piv_aid;
use crate::derp::bytes_eq;
use crate::apdu::{Class, SecureMessaging, spec_secure_messaging, spec_channel};
use crate::piv_app::{Instruction, spec_instruction, decode_instruction};

verus! {

/// Key references accepted by VERIFY.
#[derive(Clone, Copy, Debug, PartialEq, Eq, Structural)]
pub enum VerifyKeyReference {
    GlobalPin,
    PivPin,
    PrimaryFingerOcc,
    SecondaryFingerOcc,
    PairingCode,
}

impl VerifyKeyReference {
    pub open spec fn spec_code(&self) -> u8 {
        match self {
            VerifyKeyReference::GlobalPin => 0x00,
            VerifyKeyReference::PivPin => 0x80,
            VerifyKeyReference::PrimaryFingerOcc => 0x96,
            VerifyKeyReference::SecondaryFingerOcc => 0x97,
            VerifyKeyReference::PairingCode => 0x98,
        }
    }

    /// Global PIN (`00`) and PIV PIN (`80`); the on-card comparison
    /// references (`96`, `97`) and the pairing code (`98`) are not supported.
    pub fn try_from(p2: u8) -> (r: Result<VerifyKeyReference, Status>)
        ensures
            p2 == 0x00 ==> r == Ok::<VerifyKeyReference, Status>(VerifyKeyReference::GlobalPin),
            p2 == 0x80 ==> r == Ok::<VerifyKeyReference, Status>(VerifyKeyReference::PivPin),
            (p2 == 0x96 || p2 == 0x97 || p2 == 0x98) ==> r == Err::<VerifyKeyReference, Status>(Status::FunctionNotSupported),
            !(p2 == 0x00 || p2 == 0x80 || p2 == 0x96 || p2 == 0x97 || p2 == 0x98) ==> r == Err::<VerifyKeyReference, Status>(
                Status::KeyReferenceNotFound,
            ),
            r matches Ok(k) ==> k.spec_code() == p2,
    {
        match p2 {
            0x00 => Ok(VerifyKeyReference::GlobalPin),
            0x80 => Ok(VerifyKeyReference::PivPin),
            0x96 => Err(Status::FunctionNotSupported),
            0x97 => Err(Status::FunctionNotSupported),
            0x98 => Err(Status::FunctionNotSupported),
            _ => Err(Status::KeyReferenceNotFound),
        }
    }
}

/// P1 of VERIFY: check or verify (`00`), or reset the security status (`FF`).
#[derive(Clone, Copy, Debug, PartialEq, Eq, Structural)]
pub enum VerifyParameter1 {
    CheckOrVerify,
    Reset,
}

impl VerifyParameter1 {
    pub fn try_from(p1: u8) -> (r: Result<VerifyParameter1, Status>)
        ensures
            p1 == 0x00 ==> r == Ok::<VerifyParameter1, Status>(VerifyParameter1::CheckOrVerify),
            p1 == 0xff ==> r == Ok::<VerifyParameter1, Status>(VerifyParameter1::Reset),
            p1 != 0x00 && p1 != 0xff ==> r == Err::<VerifyParameter1, Status>(Status::IncorrectP1OrP2Parameter),
    {
        match p1 {
            0x00 => Ok(VerifyParameter1::CheckOrVerify),
            0xFF => Ok(VerifyParameter1::Reset),
            _ => Err(Status::IncorrectP1OrP2Parameter),
        }
    }
}

/// Key references accepted by CHANGE REFERENCE DATA.
#[derive(Clone, Copy, Debug, PartialEq, Eq, Structural)]
pub enum ChangeReferenceKeyReference {
    GlobalPin,
    PivPin,
    Puk,
}

impl ChangeReferenceKeyReference {
    pub fn try_from(p2: u8) -> (r: Result<ChangeReferenceKeyReference, Status>)
        ensures
            p2 == 0x00 ==> r == Ok::<ChangeReferenceKeyReference, Status>(ChangeReferenceKeyReference::GlobalPin),
            p2 == 0x80 ==> r == Ok::<ChangeReferenceKeyReference, Status>(ChangeReferenceKeyReference::PivPin),
            p2 == 0x81 ==> r == Ok::<ChangeReferenceKeyReference, Status>(ChangeReferenceKeyReference::Puk),
            !(p2 == 0x00 || p2 == 0x80 || p2 == 0x81) ==> r == Err::<ChangeReferenceKeyReference, Status>(
                Status::KeyReferenceNotFound,
            ),
    {
        match p2 {
            0x00 => Ok(ChangeReferenceKeyReference::GlobalPin),
            0x80 => Ok(ChangeReferenceKeyReference::PivPin),
            0x81 => Ok(ChangeReferenceKeyReference::Puk),
            _ => Err(Status::KeyReferenceNotFound),
        }
    }
}

/// Key references accepted by GENERAL AUTHENTICATE.
#[derive(Clone, Copy, Debug, PartialEq, Eq, Structural)]
pub enum AuthenticateKeyReference {
    SecureMessaging,
    Authentication,
    Administration,
    Signature,
    Management,
    CardAuthentication,
    Retired01,
    Retired02,
    Retired03,
    Retired04,
    Retired05,
    Retired06,
    Retired07,
    Retired08,
    Retired09,
    Retired10,
    Retired11,
    Retired12,
    Retired13,
    Retired14,
    Retired15,
    Retired16,
    Retired17,
    Retired18,
    Retired19,
    Retired20,
}

impl AuthenticateKeyReference {
    pub open spec fn spec_code(&self) -> u8 {
        match self {
            AuthenticateKeyReference::SecureMessaging => 0x04,
            AuthenticateKeyReference::Authentication => 0x9a,
            AuthenticateKeyReference::Administration => 0x9b,
            AuthenticateKeyReference::Signature => 0x9c,
            AuthenticateKeyReference::Management => 0x9d,
            AuthenticateKeyReference::CardAuthentication => 0x9e,
            AuthenticateKeyReference::Retired01 => 0x82,
            AuthenticateKeyReference::Retired02 => 0x83,
            AuthenticateKeyReference::Retired03 => 0x84,
            AuthenticateKeyReference::Retired04 => 0x85,
            AuthenticateKeyReference::Retired05 => 0x86,
            AuthenticateKeyReference::Retired06 => 0x87,
            AuthenticateKeyReference::Retired07 => 0x88,
            AuthenticateKeyReference::Retired08 => 0x89,
            AuthenticateKeyReference::Retired09 => 0x8a,
            AuthenticateKeyReference::Retired10 => 0x8b,
            AuthenticateKeyReference::Retired11 => 0x8c,
            AuthenticateKeyReference::Retired12 => 0x8d,
            AuthenticateKeyReference::Retired13 => 0x8e,
            AuthenticateKeyReference::Retired14 => 0x8f,
            AuthenticateKeyReference::Retired15 => 0x90,
            AuthenticateKeyReference::Retired16 => 0x91,
            AuthenticateKeyReference::Retired17 => 0x92,
            AuthenticateKeyReference::Retired18 => 0x93,
            AuthenticateKeyReference::Retired19 => 0x94,
            AuthenticateKeyReference::Retired20 => 0x95,
        }
    }

    /// Secure messaging `04`, the slots `9A` to `9E`, the retired key
    /// management keys `82` to `95`.
    pub fn try_from(p2: u8) -> (r: Result<AuthenticateKeyReference, Status>)
        ensures
            r is Ok <==> (p2 == 0x04 || (0x9a <= p2 <= 0x9e) || (0x82 <= p2 <= 0x95)),
            r matches Ok(k) ==> k.spec_code() == p2,
            r is Err ==> r == Err::<AuthenticateKeyReference, Status>(Status::KeyReferenceNotFound),
    {
        match p2 {
            0x04 => Ok(AuthenticateKeyReference::SecureMessaging),
            0x9a => Ok(AuthenticateKeyReference::Authentication),
            0x9b => Ok(AuthenticateKeyReference::Administration),
            0x9c => Ok(AuthenticateKeyReference::Signature),
            0x9d => Ok(AuthenticateKeyReference::Management),
            0x9e => Ok(AuthenticateKeyReference::CardAuthentication),
            0x82 => Ok(AuthenticateKeyReference::Retired01),
            0x83 => Ok(AuthenticateKeyReference::Retired02),
            0x84 => Ok(AuthenticateKeyReference::Retired03),
            0x85 => Ok(AuthenticateKeyReference::Retired04),
            0x86 => Ok(AuthenticateKeyReference::Retired05),
            0x87 => Ok(AuthenticateKeyReference::Retired06),
            0x88 => Ok(AuthenticateKeyReference::Retired07),
            0x89 => Ok(AuthenticateKeyReference::Retired08),
            0x8a => Ok(AuthenticateKeyReference::Retired09),
            0x8b => Ok(AuthenticateKeyReference::Retired10),
            0x8c => Ok(AuthenticateKeyReference::Retired11),
            0x8d => Ok(AuthenticateKeyReference::Retired12),
            0x8e => Ok(AuthenticateKeyReference::Retired13),
            0x8f => Ok(AuthenticateKeyReference::Retired14),
            0x90 => Ok(AuthenticateKeyReference::Retired15),
            0x91 => Ok(AuthenticateKeyReference::Retired16),
            0x92 => Ok(AuthenticateKeyReference::Retired17),
            0x93 => Ok(AuthenticateKeyReference::Retired18),
            0x94 => Ok(AuthenticateKeyReference::Retired19),
            0x95 => Ok(AuthenticateKeyReference::Retired20),
            _ => Err(Status::KeyReferenceNotFound),
        }
    }
}

/// The key references of VERIFY (SP 800-73-4, Table 4).
pub proof fn lemma_verify_key_reference_codes(x: VerifyKeyReference)
    ensures
        (x == VerifyKeyReference::GlobalPin) <==> x.spec_code() == 0x00,
        (x == VerifyKeyReference::PivPin) <==> x.spec_code() == 0x80,
        (x == VerifyKeyReference::PrimaryFingerOcc) <==> x.spec_code() == 0x96,
        (x == VerifyKeyReference::SecondaryFingerOcc) <==> x.spec_code() == 0x97,
        (x == VerifyKeyReference::PairingCode) <==> x.spec_code() == 0x98,
{
}

/// The key references of GENERAL AUTHENTICATE: secure messaging `04`, the
/// slots `9A` to `9E`, the retired key management keys `82` to `95`.
pub proof fn lemma_authenticate_key_reference_codes(x: AuthenticateKeyReference)
    ensures
        (x == AuthenticateKeyReference::SecureMessaging) <==> x.spec_code() == 0x04,
        (x == AuthenticateKeyReference::Authentication) <==> x.spec_code() == 0x9a,
        (x == AuthenticateKeyReference::Administration) <==> x.spec_code() == 0x9b,
        (x == AuthenticateKeyReference::Signature) <==> x.spec_code() == 0x9c,
        (x == AuthenticateKeyReference::Management) <==> x.spec_code() == 0x9d,
        (x == AuthenticateKeyReference::CardAuthentication) <==> x.spec_code() == 0x9e,
        (x == AuthenticateKeyReference::Retired01) <==> x.spec_code() == 0x82,
        (x == AuthenticateKeyReference::Retired02) <==> x.spec_code() == 0x83,
        (x == AuthenticateKeyReference::Retired03) <==> x.spec_code() == 0x84,
        (x == AuthenticateKeyReference::Retired04) <==> x.spec_code() == 0x85,
        (x == AuthenticateKeyReference::Retired05) <==> x.spec_code() == 0x86,
        (x == AuthenticateKeyReference::Retired06) <==> x.spec_code() == 0x87,
        (x == AuthenticateKeyReference::Retired07) <==> x.spec_code() == 0x88,
        (x == AuthenticateKeyReference::Retired08) <==> x.spec_code() == 0x89,
        (x == AuthenticateKeyReference::Retired09) <==> x.spec_code() == 0x8a,
        (x == AuthenticateKeyReference::Retired10) <==> x.spec_code() == 0x8b,
        (x == AuthenticateKeyReference::Retired11) <==> x.spec_code() == 0x8c,
        (x == AuthenticateKeyReference::Retired12) <==> x.spec_code() == 0x8d,
        (x == AuthenticateKeyReference::Retired13) <==> x.spec_code() == 0x8e,
        (x == AuthenticateKeyReference::Retired14) <==> x.spec_code() == 0x8f,
        (x == AuthenticateKeyReference::Retired15) <==> x.spec_code() == 0x90,
        (x == AuthenticateKeyReference::Retired16) <==> x.spec_code() == 0x91,
        (x == AuthenticateKeyReference::Retired17) <==> x.spec_code() == 0x92,
        (x == AuthenticateKeyReference::Retired18) <==> x.spec_code() == 0x93,
        (x == AuthenticateKeyReference::Retired19) <==> x.spec_code() == 0x94,
        (x == AuthenticateKeyReference::Retired20) <==> x.spec_code() == 0x95,
{
}

/// Key references accepted by GENERATE ASYMMETRIC KEY PAIR.
#[derive(Clone, Copy, Debug, PartialEq, Eq, Structural)]
pub enum GenerateAsymmetricKeyReference {
    SecureMessaging,
    Authentication,
    Signature,
    Management,
    CardAuthentication,
}

impl GenerateAsymmetricKeyReference {
    /// The slots `9A`, `9C`, `9D`, `9E`; secure messaging (`04`) is not
    /// supported.
    pub fn try_from(p2: u8) -> (r: Result<GenerateAsymmetricKeyReference, Status>)
        ensures
            p2 == 0x04 ==> r == Err::<GenerateAsymmetricKeyReference, Status>(Status::FunctionNotSupported),
            p2 == 0x9a ==> r == Ok::<GenerateAsymmetricKeyReference, Status>(GenerateAsymmetricKeyReference::Authentication),
            p2 == 0x9c ==> r == Ok::<GenerateAsymmetricKeyReference, Status>(GenerateAsymmetricKeyReference::Signature),
            p2 == 0x9d ==> r == Ok::<GenerateAsymmetricKeyReference, Status>(GenerateAsymmetricKeyReference::Management),
            p2 == 0x9e ==> r == Ok::<GenerateAsymmetricKeyReference, Status>(
                GenerateAsymmetricKeyReference::CardAuthentication,
            ),
            !(p2 == 0x04 || p2 == 0x9a || p2 == 0x9c || p2 == 0x9d || p2 == 0x9e) ==> r == Err::<
                GenerateAsymmetricKeyReference,
                Status,
            >(Status::KeyReferenceNotFound),
    {
        match p2 {
            0x04 => Err(Status::FunctionNotSupported),
            0x9a => Ok(GenerateAsymmetricKeyReference::Authentication),
            0x9c => Ok(GenerateAsymmetricKeyReference::Signature),
            0x9d => Ok(GenerateAsymmetricKeyReference::Management),
            0x9e => Ok(GenerateAsymmetricKeyReference::CardAuthentication),
            _ => Err(Status::KeyReferenceNotFound),
        }
    }
}

/// Data of RESET RETRY COUNTER: the new padded PIN and the PUK.
#[derive(Clone, Copy, Debug, PartialEq, Eq)]
pub struct ChangePin {
    padded_pin: [u8; 8],
    puk: [u8; 8],
}

impl ChangePin {
    pub closed spec fn spec_padded_pin(&self) -> Seq<u8> {
        self.padded_pin@
    }

    pub closed spec fn spec_puk(&self) -> Seq<u8> {
        self.puk@
    }

    /// Exactly 16 bytes: the first eight are the PIN, the last eight the PUK.
    pub fn try_from(data: &[u8]) -> (r: Result<ChangePin, Status>)
        ensures
            r is Ok <==> data@.len() == 16,
            r is Err ==> r == Err::<ChangePin, Status>(Status::IncorrectDataParameter),
            r matches Ok(c) ==> c.spec_padded_pin() == data@.subrange(0, 8) && c.spec_puk() == data@.subrange(8, 16),
    {
        if data.len() != 16 {
            return Err(Status::IncorrectDataParameter);
        }
        let mut padded_pin = [0u8; 8];
        let mut puk = [0u8; 8];
        let mut i: usize = 0;
        while i < 8
            invariant
                i <= 8,
                data@.len() == 16,
                forall|j: int| 0 <= j < i ==> padded_pin@[j] == data@[j] && puk@[j] == data@[j + 8],
            decreases 8 - i,
        {
            padded_pin[i] = data[i];
            puk[i] = data[i + 8];
            i = i + 1;
        }
        assert(padded_pin@ =~= data@.subrange(0, 8));
        assert(puk@ =~= data@.subrange(8, 16));
        Ok(ChangePin { padded_pin, puk })
    }
}

/// SELECT of the PIV application.
#[derive(Clone, Copy)]
pub struct Select<'l> {
    aid: &'l [u8],
}

impl<'l> Select<'l> {
    pub closed spec fn spec_aid(&self) -> Seq<u8> {
        self.aid@
    }

    /// Only the full PIV AID is answered.
    pub fn try_from(data: &'l [u8]) -> (r: Result<Select<'l>, Status>)
        ensures
            r is Ok <==> data@ == piv_aid(),
            r is Err ==> r == Err::<Select<'l>, Status>(Status::NotFound),
            r matches Ok(s) ==> s.spec_aid() == data@,
    {
        let aid = vec![0xa0u8, 0x00, 0x00, 0x03, 0x08, 0x00, 0x00, 0x10, 0x00, 0x01, 0x00];
        assert(aid@ =~= piv_aid());
        if bytes_eq(data, aid.as_slice()) {
            Ok(Select { aid: data })
        } else {
            Err(Status::NotFound)
        }
    }
}

/// A PIV command, decoded from the header and data of a command APDU.
/// Only the commands whose arguments are decoded have a variant.
#[derive(Clone, Copy)]
pub enum Command<'l> {
    Select(Select<'l>),
    ChangePin(ChangePin),
}

/// The commands whose argument decoding is not written yet: GET DATA, PUT
/// DATA, VERIFY, CHANGE REFERENCE DATA, GENERAL AUTHENTICATE and GENERATE
/// ASYMMETRIC KEY PAIR once their parameters are accepted, and every
/// header that is not listed at all.
pub open spec fn command_undecoded(cla: u8, ins: u8, p1: u8, p2: u8) -> bool {
    &&& spec_secure_messaging(cla) == SecureMessaging::NotUsed
    &&& spec_channel(cla) == Some(0u8)
    &&& !(cla == 0x00 && spec_instruction(ins) == Instruction::Select && p1 == 0x04 && p2 == 0x00)
    &&& !(cla == 0x00 && spec_instruction(ins) == Instruction::ResetRetryCounter && p1 == 0x00 && p2 == 0x80)
    &&& !(cla == 0x00 && spec_instruction(ins) == Instruction::Verify && (!(p1 == 0x00 || p1 == 0xff) || !(
    p2 == 0x00 || p2 == 0x80)))
    &&& !(cla == 0x00 && spec_instruction(ins) == Instruction::ChangeReferenceData && p1 == 0x00 && !(p2 == 0x00
        || p2 == 0x80 || p2 == 0x81))
    &&& !(cla == 0x00 && spec_instruction(ins) == Instruction::GeneralAuthenticate && !(p2 == 0x04 || 0x82 <= p2
        <= 0x95 || 0x9a <= p2 <= 0x9e))
    &&& !(cla == 0x00 && spec_instruction(ins) == Instruction::GenerateAsymmetricKeyPair && p1 == 0x00 && !(p2
        == 0x9a || p2 == 0x9c || p2 == 0x9d || p2 == 0x9e))
}

impl<'l> Command<'l> {
    /// Check the class byte and the header as the command syntax of
    /// SP 800-73-4 requires, and decode the arguments: secure messaging and
    /// logical channels other than 0 are refused, SELECT takes the PIV AID,
    /// RESET RETRY COUNTER the PIN and PUK, and the other commands report
    /// their errors on P1 and P2.
    pub fn try_from(cla: u8, ins: u8, p1: u8, p2: u8, data: &'l [u8]) -> (r: Result<Command<'l>, Status>)
        requires
            !command_undecoded(cla, ins, p1, p2),
        ensures
            spec_secure_messaging(cla) != SecureMessaging::NotUsed ==> r is Err && r->Err_0 == Status::SecureMessagingNotSupported,
            spec_secure_messaging(cla) == SecureMessaging::NotUsed && spec_channel(cla) != Some(0u8) ==> r is Err
                && r->Err_0 == Status::LogicalChannelNotSupported,
            spec_secure_messaging(cla) == SecureMessaging::NotUsed && spec_channel(cla) == Some(0u8) ==> {
                let i = spec_instruction(ins);
                if cla == 0x00 && i == Instruction::Select && p1 == 0x04 && p2 == 0x00 {
                    if data@ == piv_aid() {
                        r matches Ok(Command::Select(s)) && s.spec_aid() == data@
                    } else {
                        r is Err && r->Err_0 == Status::NotFound
                    }
                } else if cla == 0x00 && i == Instruction::ResetRetryCounter && p1 == 0x00 && p2 == 0x80 {
                    if data@.len() == 16 {
                        r matches Ok(Command::ChangePin(c)) && c.spec_padded_pin() == data@.subrange(0, 8)
                            && c.spec_puk() == data@.subrange(8, 16)
                    } else {
                        r is Err && r->Err_0 == Status::IncorrectDataParameter
                    }
                } else if i == Instruction::Verify {
                    r is Err && r->Err_0 == (if !(p1 == 0x00 || p1 == 0xff) {
                        Status::IncorrectP1OrP2Parameter
                    } else if p2 == 0x96 || p2 == 0x97 || p2 == 0x98 {
                        Status::FunctionNotSupported
                    } else {
                        Status::KeyReferenceNotFound
                    })
                } else if i == Instruction::GenerateAsymmetricKeyPair && p2 == 0x04 {
                    r is Err && r->Err_0 == Status::FunctionNotSupported
                } else {
                    r is Err && r->Err_0 == Status::KeyReferenceNotFound
                }
            },
    {
        let class = Class::new(cla);
        match class.secure_messaging() {
            SecureMessaging::NotUsed => {},
            _ => return Err(Status::SecureMessagingNotSupported),
        }
        match class.channel() {
            Some(0) => {},
            _ => return Err(Status::LogicalChannelNotSupported),
        }
        let instruction = decode_instruction(ins);
        if cla == 0x00 && instruction == Instruction::Select && p1 == 0x04 && p2 == 0x00 {
            return match Select::try_from(data) {
                Ok(s) => Ok(Command::Select(s)),
                Err(e) => Err(e),
            };
        }
        if cla == 0x00 && instruction == Instruction::ResetRetryCounter && p1 == 0x00 && p2 == 0x80 {
            return match ChangePin::try_from(data) {
                Ok(c) => Ok(Command::ChangePin(c)),
                Err(e) => Err(e),
            };
        }
        if instruction == Instruction::Verify {
            if let Err(e) = VerifyParameter1::try_from(p1) {
                return Err(e);
            }
            return match VerifyKeyReference::try_from(p2) {
                Err(e) => Err(e),
                Ok(_) => Err(Status::KeyReferenceNotFound),
            };
        }
        if instruction == Instruction::ChangeReferenceData {
            return match ChangeReferenceKeyReference::try_from(p2) {
                Err(e) => Err(e),
                Ok(_) => Err(Status::KeyReferenceNotFound),
            };
        }
        if instruction == Instruction::GeneralAuthenticate {
            return match AuthenticateKeyReference::try_from(p2) {
                Err(e) => Err(e),
                Ok(_) => Err(Status::KeyReferenceNotFound),
            };
        }
        match GenerateAsymmetricKeyReference::try_from(p2) {
            Err(e) => Err(e),
            Ok(_) => Err(Status::KeyReferenceNotFound),
        }
    }
}

/// PUT DATA command.
#[derive(Clone, Copy, Debug, PartialEq, Eq)]
pub struct PutData {}

} // verus!
