//! Decisions of the PIV card application: which handler a command goes to,
//! command chaining, PIN verification and change, and the parsing and
//! answers of GENERAL AUTHENTICATE, GET DATA, PUT DATA, GENERATE ASYMMETRIC
//! KEY PAIR and the Yubico extensions. What needs the Trussed service
//! (random bytes, encryption, signatures, files) is done by the caller with
//! the values these functions hand out.

use vstd::prelude::*;
use crate::status::Status;
use crate::apdu::{Class, SecureMessaging, chaining_bit, spec_channel, spec_secure_messaging};
use crate::piv_state::{
    Persistent, AppSecurityStatus, Runtime, Pin, CommandCache, AuthenticateManagement, valid_padded_pin, spec_remaining,
    PIN_RETRIES_DEFAULT, default_puk_bytes,
};
use crate::trussed_types::ObjectHandle;
use crate::der::{tlv, push_tlv};
use crate::derp::{spec_read_tlv, expect_tag_and_get_value, nested, bytes_eq};
use crate::derp::Error as DerError;
use crate::piv_types::{ApplicationPropertyTemplate, Algorithms, application_property_answer};

verus! {

/// The instructions that ISO 7816-4 names, and the others by their byte.
#[derive(Clone, Copy, Debug, PartialEq, Eq, Structural)]
pub enum Instruction {
    Select,
    GetData,
    Verify,
    ChangeReferenceData,
    ResetRetryCounter,
    GeneralAuthenticate,
    PutData,
    GenerateAsymmetricKeyPair,
    GetResponse,
    ReadBinary,
    WriteBinary,
    Unknown(u8),
}

/// The instruction named by an INS byte.
pub open spec fn spec_instruction(ins: u8) -> Instruction {
    if ins == 0x20 {
        Instruction::Verify
    } else if ins == 0x24 {
        Instruction::ChangeReferenceData
    } else if ins == 0x2c {
        Instruction::ResetRetryCounter
    } else if ins == 0x47 {
        Instruction::GenerateAsymmetricKeyPair
    } else if ins == 0x87 {
        Instruction::GeneralAuthenticate
    } else if ins == 0xa4 {
        Instruction::Select
    } else if ins == 0xc0 {
        Instruction::GetResponse
    } else if ins == 0xcb {
        Instruction::GetData
    } else if ins == 0xdb {
        Instruction::PutData
    } else if ins == 0xb0 {
        Instruction::ReadBinary
    } else if ins == 0xd0 {
        Instruction::WriteBinary
    } else {
        Instruction::Unknown(ins)
    }
}

/// The instruction bytes of ISO 7816-4: each named instruction comes from
/// exactly one INS byte, and every other byte is kept as it is.
pub proof fn lemma_instruction_bytes(ins: u8)
    ensures
        (spec_instruction(ins) == Instruction::Verify) <==> ins == 0x20,
        (spec_instruction(ins) == Instruction::ChangeReferenceData) <==> ins == 0x24,
        (spec_instruction(ins) == Instruction::ResetRetryCounter) <==> ins == 0x2c,
        (spec_instruction(ins) == Instruction::GenerateAsymmetricKeyPair) <==> ins == 0x47,
        (spec_instruction(ins) == Instruction::GeneralAuthenticate) <==> ins == 0x87,
        (spec_instruction(ins) == Instruction::Select) <==> ins == 0xa4,
        (spec_instruction(ins) == Instruction::GetResponse) <==> ins == 0xc0,
        (spec_instruction(ins) == Instruction::GetData) <==> ins == 0xcb,
        (spec_instruction(ins) == Instruction::PutData) <==> ins == 0xdb,
        (spec_instruction(ins) == Instruction::ReadBinary) <==> ins == 0xb0,
        (spec_instruction(ins) == Instruction::WriteBinary) <==> ins == 0xd0,
        spec_instruction(ins) is Unknown ==> spec_instruction(ins) == Instruction::Unknown(ins),
{
}

/// `iso7816::Instruction::from`: the instruction of an INS byte, by the
/// table of the `iso7816` crate.
#[verifier::external_body]
pub(crate) fn decode_instruction(ins: u8) -> (r: Instruction)
    ensures
        r == spec_instruction(ins),
{
    match iso7816::Instruction::from(ins) {
        iso7816::Instruction::Select => Instruction::Select,
        iso7816::Instruction::GetData => Instruction::GetData,
        iso7816::Instruction::Verify => Instruction::Verify,
        iso7816::Instruction::ChangeReferenceData => Instruction::ChangeReferenceData,
        iso7816::Instruction::ResetRetryCounter => Instruction::ResetRetryCounter,
        iso7816::Instruction::GeneralAuthenticate => Instruction::GeneralAuthenticate,
        iso7816::Instruction::PutData => Instruction::PutData,
        iso7816::Instruction::GenerateAsymmetricKeyPair => Instruction::GenerateAsymmetricKeyPair,
        iso7816::Instruction::GetResponse => Instruction::GetResponse,
        iso7816::Instruction::ReadBinary => Instruction::ReadBinary,
        iso7816::Instruction::WriteBinary => Instruction::WriteBinary,
        iso7816::Instruction::Unknown(b) => Instruction::Unknown(b),
    }
}

/// Vendor instructions of the Yubico PIV extension.
#[derive(Clone, Copy, Debug, PartialEq, Eq, Structural)]
pub enum YubicoPivExtension {
    SetManagementKey,
    ImportAsymmetricKey,
    GetVersion,
    Reset,
    SetPinRetries,
    Attest,
    GetSerial,
    GetMetadata,
}

impl YubicoPivExtension {
    pub open spec fn spec_from(ins: u8) -> Option<YubicoPivExtension> {
        if ins == 0xff {
            Some(YubicoPivExtension::SetManagementKey)
        } else if ins == 0xfe {
            Some(YubicoPivExtension::ImportAsymmetricKey)
        } else if ins == 0xfd {
            Some(YubicoPivExtension::GetVersion)
        } else if ins == 0xfb {
            Some(YubicoPivExtension::Reset)
        } else if ins == 0xfa {
            Some(YubicoPivExtension::SetPinRetries)
        } else if ins == 0xf9 {
            Some(YubicoPivExtension::Attest)
        } else if ins == 0xf8 {
            Some(YubicoPivExtension::GetSerial)
        } else if ins == 0xf7 {
            Some(YubicoPivExtension::GetMetadata)
        } else {
            None
        }
    }

    pub fn try_from(ins: u8) -> (r: Result<YubicoPivExtension, ()>)
        ensures
            r == (match YubicoPivExtension::spec_from(ins) {
                Some(x) => Ok::<YubicoPivExtension, ()>(x),
                None => Err::<YubicoPivExtension, ()>(()),
            }),
    {
        match ins {
            0xff => Ok(YubicoPivExtension::SetManagementKey),
            0xfe => Ok(YubicoPivExtension::ImportAsymmetricKey),
            0xfd => Ok(YubicoPivExtension::GetVersion),
            0xfb => Ok(YubicoPivExtension::Reset),
            0xfa => Ok(YubicoPivExtension::SetPinRetries),
            0xf9 => Ok(YubicoPivExtension::Attest),
            0xf8 => Ok(YubicoPivExtension::GetSerial),
            0xf7 => Ok(YubicoPivExtension::GetMetadata),
            _ => Err(()),
        }
    }
}

/// The Yubico extension's instruction bytes (as ykpiv sends them): each
/// extension is decoded from exactly one INS byte.
pub proof fn lemma_yubico_codes(ins: u8)
    ensures
        YubicoPivExtension::spec_from(ins) == Some(YubicoPivExtension::SetManagementKey) <==> ins == 0xff,
        YubicoPivExtension::spec_from(ins) == Some(YubicoPivExtension::ImportAsymmetricKey) <==> ins == 0xfe,
        YubicoPivExtension::spec_from(ins) == Some(YubicoPivExtension::GetVersion) <==> ins == 0xfd,
        YubicoPivExtension::spec_from(ins) == Some(YubicoPivExtension::Reset) <==> ins == 0xfb,
        YubicoPivExtension::spec_from(ins) == Some(YubicoPivExtension::SetPinRetries) <==> ins == 0xfa,
        YubicoPivExtension::spec_from(ins) == Some(YubicoPivExtension::Attest) <==> ins == 0xf9,
        YubicoPivExtension::spec_from(ins) == Some(YubicoPivExtension::GetSerial) <==> ins == 0xf8,
        YubicoPivExtension::spec_from(ins) == Some(YubicoPivExtension::GetMetadata) <==> ins == 0xf7,
{
}

/// The handler a command goes to.
#[derive(Clone, Copy, Debug, PartialEq, Eq, Structural)]
pub enum Route {
    GetData,
    PutData,
    Verify,
    ChangeReferenceData,
    GeneralAuthenticate,
    GenerateAsymmetricKeyPair,
    Yubico(YubicoPivExtension),
}

/// Where a complete command goes: secure messaging and logical channels
/// other than 0 are refused, then the instruction decides.
pub open spec fn spec_route(cla: u8, ins: u8) -> Result<Route, Status> {
    if spec_secure_messaging(cla) != SecureMessaging::NotUsed {
        Err(Status::SecureMessagingNotSupported)
    } else if spec_channel(cla) != Some(0u8) {
        Err(Status::LogicalChannelNotSupported)
    } else {
        match spec_instruction(ins) {
            Instruction::GetData => Ok(Route::GetData),
            Instruction::PutData => Ok(Route::PutData),
            Instruction::Verify => Ok(Route::Verify),
            Instruction::ChangeReferenceData => Ok(Route::ChangeReferenceData),
            Instruction::GeneralAuthenticate => Ok(Route::GeneralAuthenticate),
            Instruction::GenerateAsymmetricKeyPair => Ok(Route::GenerateAsymmetricKeyPair),
            Instruction::Unknown(b) => match YubicoPivExtension::spec_from(b) {
                Some(x) => Ok(Route::Yubico(x)),
                None => Err(Status::FunctionNotSupported),
            },
            _ => Err(Status::FunctionNotSupported),
        }
    }
}

/// For every class byte without secure messaging on the basic channel, the
/// Yubico instruction bytes reach their handlers: `FB` resets, `F9`
/// attests, `FF` sets the management key, `FD` the version, `F8` the serial.
pub proof fn lemma_route_yubico(cla: u8)
    requires
        spec_secure_messaging(cla) == SecureMessaging::NotUsed,
        spec_channel(cla) == Some(0u8),
    ensures
        spec_route(cla, 0xfb) == Ok::<Route, Status>(Route::Yubico(YubicoPivExtension::Reset)),
        spec_route(cla, 0xf9) == Ok::<Route, Status>(Route::Yubico(YubicoPivExtension::Attest)),
        spec_route(cla, 0xff) == Ok::<Route, Status>(Route::Yubico(YubicoPivExtension::SetManagementKey)),
        spec_route(cla, 0xfd) == Ok::<Route, Status>(Route::Yubico(YubicoPivExtension::GetVersion)),
        spec_route(cla, 0xf8) == Ok::<Route, Status>(Route::Yubico(YubicoPivExtension::GetSerial)),
{
}

pub fn route(cla: u8, ins: u8) -> (r: Result<Route, Status>)
    ensures
        r == spec_route(cla, ins),
{
    let class = Class::new(cla);
    match class.secure_messaging() {
        SecureMessaging::NotUsed => {},
        _ => return Err(Status::SecureMessagingNotSupported),
    }
    match class.channel() {
        Some(c) => {
            if c != 0 {
                return Err(Status::LogicalChannelNotSupported);
            }
        },
        None => return Err(Status::LogicalChannelNotSupported),
    }
    match decode_instruction(ins) {
        Instruction::GetData => Ok(Route::GetData),
        Instruction::PutData => Ok(Route::PutData),
        Instruction::Verify => Ok(Route::Verify),
        Instruction::ChangeReferenceData => Ok(Route::ChangeReferenceData),
        Instruction::GeneralAuthenticate => Ok(Route::GeneralAuthenticate),
        Instruction::GenerateAsymmetricKeyPair => Ok(Route::GenerateAsymmetricKeyPair),
        Instruction::Unknown(b) => match YubicoPivExtension::try_from(b) {
            Ok(x) => Ok(Route::Yubico(x)),
            Err(_) => Err(Status::FunctionNotSupported),
        },
        _ => Err(Status::FunctionNotSupported),
    }
}

/// Capacity of the data of a command.
pub const COMMAND_DATA_CAPACITY: usize = 3072;

/// A command whose data arrives in several chained pieces.
#[derive(Clone, Debug)]
pub struct ChainedCommand {
    pub cla: u8,
    pub ins: u8,
    pub p1: u8,
    pub p2: u8,
    pub data: Vec<u8>,
}

/// One step of command chaining. A piece with the chaining bit set is kept
/// (or its data appended to the kept command) and nothing is returned yet;
/// the last piece completes the command, which keeps the header of its
/// first piece and all the data in order, and clears what was kept.
pub fn chain_step(pending: &mut Option<ChainedCommand>, cla: u8, ins: u8, p1: u8, p2: u8, data: &[u8]) -> (r: Option<ChainedCommand>)
    requires
        *old(pending) matches Some(c) ==> c.data@.len() + data@.len() <= COMMAND_DATA_CAPACITY,
    ensures
        match *old(pending) {
            Some(c) => if !chaining_bit(cla) {
                &&& *final(pending) is None
                &&& r matches Some(e) && e.cla == c.cla && e.ins == c.ins && e.p1 == c.p1 && e.p2 == c.p2
                    && e.data@ == c.data@ + data@
            } else {
                &&& r is None
                &&& *final(pending) matches Some(e) && e.cla == c.cla && e.ins == c.ins && e.p1 == c.p1
                    && e.p2 == c.p2 && e.data@ == c.data@ + data@
            },
            None => if !chaining_bit(cla) {
                &&& *final(pending) is None
                &&& r matches Some(e) && e.cla == cla && e.ins == ins && e.p1 == p1 && e.p2 == p2
                    && e.data@ == data@
            } else {
                &&& r is None
                &&& *final(pending) matches Some(e) && e.cla == cla && e.ins == ins && e.p1 == p1
                    && e.p2 == p2 && e.data@ == data@
            },
        },
{
    let last_or_only = Class::new(cla).last();
    match pending.take() {
        Some(mut so_far) => {
            so_far.data.extend_from_slice(data);
            if last_or_only {
                Some(so_far)
            } else {
                *pending = Some(so_far);
                None
            }
        },
        None => {
            let mut v: Vec<u8> = Vec::new();
            v.extend_from_slice(data);
            let c = ChainedCommand { cla, ins, p1, p2, data: v };
            if last_or_only {
                Some(c)
            } else {
                *pending = Some(c);
                None
            }
        },
    }
}

/// Result of VERIFY on the PIN state: the answer, the consecutive
/// mismatches afterwards, and whether the PIN counts as verified.
///
/// Only the application PIN (`80`) is known; `P1 = FF` logs out; empty data
/// asks for the status; a malformed PIN changes nothing; a blocked PIN is
/// refused; otherwise a match resets the counter and a mismatch counts.
pub open spec fn verify_outcome(p1: u8, p2: u8, data: Seq<u8>, pin: Seq<u8>, mismatches: u8, verified: bool) -> (Result<(), Status>, u8, bool) {
    if p2 != 0x80 {
        (Err(Status::KeyReferenceNotFound), mismatches, verified)
    } else if p1 != 0x00 && p1 != 0xff {
        (Err(Status::IncorrectP1OrP2Parameter), mismatches, verified)
    } else if p1 == 0xff {
        if data.len() != 0 {
            (Err(Status::IncorrectDataParameter), mismatches, verified)
        } else {
            (Ok(()), mismatches, false)
        }
    } else if data.len() == 0 {
        if verified {
            (Ok(()), mismatches, verified)
        } else {
            (Err(Status::RemainingRetries(spec_remaining(mismatches))), mismatches, verified)
        }
    } else if !valid_padded_pin(data) {
        (Err(Status::IncorrectDataParameter), mismatches, verified)
    } else if spec_remaining(mismatches) == 0 {
        (Err(Status::OperationBlocked), mismatches, verified)
    } else if data == pin {
        (Ok(()), 0, true)
    } else {
        (Err(Status::RemainingRetries(spec_remaining((mismatches + 1) as u8))), (mismatches + 1) as u8, false)
    }
}

/// Only the PIN-related parts of the state may change.
pub open spec fn keeps_all_but_pin(a: Persistent, b: Persistent) -> bool {
    &&& b.spec_keys() == a.spec_keys()
    &&& b.spec_timestamp() == a.spec_timestamp()
    &&& b.puk() == a.puk()
    &&& b.puk_mismatches() == a.puk_mismatches()
}

/// VERIFY (`00 20 P1 P2`).
pub fn verify(p1: u8, p2: u8, data: &[u8], persistent: &mut Persistent, status: &mut AppSecurityStatus) -> (r: Result<(), Status>)
    ensures
        ({
            let (res, m, v) = verify_outcome(p1, p2, data@, old(persistent).pin().bytes(), old(persistent).mismatches(),
                old(status).pin_verified);
            &&& r == res
            &&& final(persistent).mismatches() == m
            &&& final(persistent).pin() == old(persistent).pin()
            &&& keeps_all_but_pin(*old(persistent), *final(persistent))
            &&& final(status).pin_verified == v
            &&& final(status).puk_verified == old(status).puk_verified
            &&& final(status).management_verified == old(status).management_verified
        }),
{
    // only the application PIN, not the global PIN, OCC data or pairing code
    if p2 != 0x80 {
        return Err(Status::KeyReferenceNotFound);
    }
    if p1 != 0x00 && p1 != 0xFF {
        return Err(Status::IncorrectP1OrP2Parameter);
    }
    // none of the failures above changes the security status or the counter
    if p1 == 0xFF {
        if data.len() != 0 {
            return Err(Status::IncorrectDataParameter);
        } else {
            status.pin_verified = false;
            return Ok(());
        }
    }
    if data.len() == 0 {
        if status.pin_verified {
            return Ok(());
        } else {
            let retries = persistent.remaining_pin_retries();
            return Err(Status::RemainingRetries(retries));
        }
    }
    let sent_pin = match Pin::try_new(data) {
        Ok(pin) => pin,
        Err(_) => return Err(Status::IncorrectDataParameter),
    };
    let remaining_retries = persistent.remaining_pin_retries();
    if remaining_retries == 0 {
        return Err(Status::OperationBlocked);
    }
    if persistent.verify_pin(&sent_pin) {
        persistent.reset_consecutive_pin_mismatches();
        status.pin_verified = true;
        Ok(())
    } else {
        let remaining = persistent.increment_consecutive_pin_mismatches();
        status.pin_verified = false;
        Err(Status::RemainingRetries(remaining))
    }
}

/// Replacing a PIN or PUK whose old and new values are already parsed: the
/// answer, the mismatches afterwards, the value afterwards and whether it
/// counts as verified. A blocked value stays as it is; a wrong old value
/// costs one retry; the right one installs the new value with all retries.
pub open spec fn replace_outcome(old_value: Seq<u8>, new_value: Seq<u8>, secret: Seq<u8>, mismatches: u8, verified: bool) -> (
    Result<(), Status>,
    u8,
    Seq<u8>,
    bool,
) {
    if spec_remaining(mismatches) == 0 {
        (Err(Status::OperationBlocked), mismatches, secret, verified)
    } else if old_value != secret {
        (Err(Status::RemainingRetries(spec_remaining((mismatches + 1) as u8))), (mismatches + 1) as u8, secret, false)
    } else {
        (Ok(()), 0, new_value, true)
    }
}

/// Result of CHANGE REFERENCE DATA on the state of one reference (the PIN
/// or the PUK), whose data holds the old and the new value, eight padded
/// bytes each.
pub open spec fn change_outcome(data: Seq<u8>, secret: Seq<u8>, mismatches: u8, verified: bool) -> (
    Result<(), Status>,
    u8,
    Seq<u8>,
    bool,
) {
    if spec_remaining(mismatches) == 0 {
        (Err(Status::OperationBlocked), mismatches, secret, verified)
    } else if data.len() != 16 {
        (Err(Status::IncorrectDataParameter), mismatches, secret, verified)
    } else if !valid_padded_pin(data.subrange(0, 8)) || !valid_padded_pin(data.subrange(8, 16)) {
        (Err(Status::IncorrectDataParameter), mismatches, secret, verified)
    } else {
        replace_outcome(data.subrange(0, 8), data.subrange(8, 16), secret, mismatches, verified)
    }
}

/// Only the PUK-related parts of the state may change.
pub open spec fn keeps_all_but_puk(a: Persistent, b: Persistent) -> bool {
    &&& b.spec_keys() == a.spec_keys()
    &&& b.spec_timestamp() == a.spec_timestamp()
    &&& b.pin() == a.pin()
    &&& b.mismatches() == a.mismatches()
}

/// Replace the PIN, given the old and the new one.
pub fn replace_pin(old_pin: &Pin, new_pin: Pin, persistent: &mut Persistent, status: &mut AppSecurityStatus) -> (r: Result<(), Status>)
    ensures
        ({
            let (res, m, pin, v) = replace_outcome(old_pin.bytes(), new_pin.bytes(), old(persistent).pin().bytes(),
                old(persistent).mismatches(), old(status).pin_verified);
            &&& r == res
            &&& final(persistent).mismatches() == m
            &&& final(persistent).pin().bytes() == pin
            &&& keeps_all_but_pin(*old(persistent), *final(persistent))
            &&& final(status).pin_verified == v
            &&& final(status).puk_verified == old(status).puk_verified
            &&& final(status).management_verified == old(status).management_verified
        }),
{
    if persistent.remaining_pin_retries() == 0 {
        return Err(Status::OperationBlocked);
    }
    if !persistent.verify_pin(old_pin) {
        let remaining = persistent.increment_consecutive_pin_mismatches();
        status.pin_verified = false;
        return Err(Status::RemainingRetries(remaining));
    }
    persistent.reset_consecutive_pin_mismatches();
    persistent.set_pin(new_pin);
    status.pin_verified = true;
    Ok(())
}

/// Replace the PUK, given the old and the new one.
pub fn replace_puk(old_puk: &Pin, new_puk: Pin, persistent: &mut Persistent, status: &mut AppSecurityStatus) -> (r: Result<(), Status>)
    ensures
        ({
            let (res, m, puk, v) = replace_outcome(old_puk.bytes(), new_puk.bytes(), old(persistent).puk().bytes(),
                old(persistent).puk_mismatches(), old(status).puk_verified);
            &&& r == res
            &&& final(persistent).puk_mismatches() == m
            &&& final(persistent).puk().bytes() == puk
            &&& keeps_all_but_puk(*old(persistent), *final(persistent))
            &&& final(status).puk_verified == v
            &&& final(status).pin_verified == old(status).pin_verified
            &&& final(status).management_verified == old(status).management_verified
        }),
{
    if persistent.remaining_puk_retries() == 0 {
        return Err(Status::OperationBlocked);
    }
    if !persistent.verify_puk(old_puk) {
        let remaining = persistent.increment_consecutive_puk_mismatches();
        status.puk_verified = false;
        return Err(Status::RemainingRetries(remaining));
    }
    persistent.reset_consecutive_puk_mismatches();
    persistent.set_puk(new_puk);
    status.puk_verified = true;
    Ok(())
}

/// CHANGE REFERENCE DATA (`00 24 00 P2`) with the old and the new value:
/// `80` the PIN, `81` the PUK.
pub fn change_reference_data(p2: u8, data: &[u8], persistent: &mut Persistent, status: &mut AppSecurityStatus) -> (r: Result<(), Status>)
    ensures
        p2 == 0x80 ==> ({
            let (res, m, pin, v) = change_outcome(data@, old(persistent).pin().bytes(), old(persistent).mismatches(),
                old(status).pin_verified);
            &&& r == res
            &&& final(persistent).mismatches() == m
            &&& final(persistent).pin().bytes() == pin
            &&& keeps_all_but_pin(*old(persistent), *final(persistent))
            &&& final(status).pin_verified == v
            &&& final(status).puk_verified == old(status).puk_verified
            &&& final(status).management_verified == old(status).management_verified
        }),
        p2 == 0x81 ==> ({
            let (res, m, puk, v) = change_outcome(data@, old(persistent).puk().bytes(), old(persistent).puk_mismatches(),
                old(status).puk_verified);
            &&& r == res
            &&& final(persistent).puk_mismatches() == m
            &&& final(persistent).puk().bytes() == puk
            &&& keeps_all_but_puk(*old(persistent), *final(persistent))
            &&& final(status).puk_verified == v
            &&& final(status).pin_verified == old(status).pin_verified
            &&& final(status).management_verified == old(status).management_verified
        }),
        p2 != 0x80 && p2 != 0x81 ==> r == Err::<(), Status>(Status::KeyReferenceNotFound)
            && *final(persistent) == *old(persistent) && *final(status) == *old(status),
{
    if p2 != 0x80 && p2 != 0x81 {
        return Err(Status::KeyReferenceNotFound);
    }
    let remaining_retries = if p2 == 0x80 {
        persistent.remaining_pin_retries()
    } else {
        persistent.remaining_puk_retries()
    };
    if remaining_retries == 0 {
        return Err(Status::OperationBlocked);
    }
    if data.len() != 16 {
        return Err(Status::IncorrectDataParameter);
    }
    let old_bytes = vstd::slice::slice_subrange(data, 0, 8);
    let new_bytes = vstd::slice::slice_subrange(data, 8, 16);
    let old_value = match Pin::try_new(old_bytes) {
        Ok(pin) => pin,
        Err(_) => return Err(Status::IncorrectDataParameter),
    };
    let new_value = match Pin::try_new(new_bytes) {
        Ok(pin) => pin,
        Err(_) => return Err(Status::IncorrectDataParameter),
    };
    if p2 == 0x80 {
        replace_pin(&old_value, new_value, persistent, status)
    } else {
        replace_puk(&old_value, new_value, persistent, status)
    }
}

/// The three steps of GENERAL AUTHENTICATE that are supported.
#[derive(Clone, Copy, Debug, PartialEq, Eq, Structural)]
pub enum AuthenticateStep {
    /// `80 00`: request for a witness (management key authentication, step 1).
    Witness,
    /// `80 08`: decrypted witness and a counter challenge (step 2).
    Challenge,
    /// `82 00 81 81 L`: request to sign the commitment that follows.
    Sign,
}

pub open spec fn starts_with2(s: Seq<u8>, a: u8, b: u8) -> bool {
    s.len() >= 2 && s[0] == a && s[1] == b
}

/// The data after the `7C` template header (whose length is not checked).
pub open spec fn template_body(data: Seq<u8>) -> Seq<u8> {
    if data[1] == 0x81 {
        data.subrange(3, data.len() as int)
    } else {
        data.subrange(2, data.len() as int)
    }
}

/// The inputs on which GENERAL AUTHENTICATE stops: lengths of two bytes or
/// more in the template header, and headers cut off before their last byte.
pub open spec fn authenticate_panics(data: Seq<u8>) -> bool {
    &&& data.len() >= 2
    &&& data[0] == 0x7c
    &&& {
        ||| data[1] > 0x81
        ||| data[1] == 0x81 && data.len() < 3
        ||| {
            let b = template_body(data);
            &&& data[1] <= 0x81 && !(data[1] == 0x81 && data.len() < 3)
            &&& !starts_with2(b, 0x80, 0x00)
            &&& !starts_with2(b, 0x80, 0x08)
            &&& starts_with2(b, 0x82, 0x00)
            &&& starts_with2(b.subrange(2, b.len() as int), 0x81, 0x81)
            &&& b.len() < 5
        }
    }
}

/// What GENERAL AUTHENTICATE asks for, with the data its step works on.
pub open spec fn spec_authenticate(data: Seq<u8>) -> Result<(AuthenticateStep, Seq<u8>), Status> {
    if data.len() < 2 || data[0] != 0x7c {
        Err(Status::IncorrectDataParameter)
    } else {
        let b = template_body(data);
        if starts_with2(b, 0x80, 0x00) {
            Ok((AuthenticateStep::Witness, b.subrange(2, b.len() as int)))
        } else if starts_with2(b, 0x80, 0x08) {
            Ok((AuthenticateStep::Challenge, b.subrange(2, b.len() as int)))
        } else if !starts_with2(b, 0x82, 0x00) {
            Err(Status::IncorrectDataParameter)
        } else {
            let c = b.subrange(2, b.len() as int);
            if !starts_with2(c, 0x81, 0x81) {
                Err(Status::IncorrectDataParameter)
            } else if c.len() - 3 != c[2] as int {
                Err(Status::IncorrectDataParameter)
            } else {
                Ok((AuthenticateStep::Sign, c.subrange(3, c.len() as int)))
            }
        }
    }
}

fn starts2(s: &[u8], a: u8, b: u8) -> (r: bool)
    ensures
        r == starts_with2(s@, a, b),
{
    s.len() >= 2 && s[0] == a && s[1] == b
}

/// Whether GENERAL AUTHENTICATE stops on this data (see
/// `authenticate_panics`): callers test this before parsing.
pub fn authenticate_unhandled(data: &[u8]) -> (r: bool)
    ensures
        r == authenticate_panics(data@),
{
    if data.len() < 2 || data[0] != 0x7c {
        return false;
    }
    if data[1] > 0x81 {
        return true;
    }
    if data[1] == 0x81 && data.len() < 3 {
        return true;
    }
    let body: &[u8];
    if data[1] == 0x81 {
        body = vstd::slice::slice_subrange(data, 3, data.len());
    } else {
        body = vstd::slice::slice_subrange(data, 2, data.len());
    }
    assert(body@ == template_body(data@));
    if starts2(body, 0x80, 0x00) || starts2(body, 0x80, 0x08) || !starts2(body, 0x82, 0x00) {
        return false;
    }
    let c = vstd::slice::slice_subrange(body, 2, body.len());
    assert(c@ == body@.subrange(2, body@.len() as int));
    starts2(c, 0x81, 0x81) && body.len() < 5
}

/// Parse the dynamic authentication template of GENERAL AUTHENTICATE
/// (`00 87 P1 P2`).
pub fn parse_general_authenticate(data: &[u8]) -> (r: Result<(AuthenticateStep, &[u8]), Status>)
    requires
        !authenticate_panics(data@),
    ensures
        match (r, spec_authenticate(data@)) {
            (Ok((k, d)), Ok((sk, sd))) => k == sk && d@ == sd,
            (Err(e), Err(se)) => e == se,
            _ => false,
        },
{
    if data.len() < 2 {
        return Err(Status::IncorrectDataParameter);
    }
    if data[0] != 0x7c {
        return Err(Status::IncorrectDataParameter);
    }
    let body: &[u8];
    if data[1] == 0x81 {
        body = vstd::slice::slice_subrange(data, 3, data.len());
    } else {
        body = vstd::slice::slice_subrange(data, 2, data.len());
    }
    assert(body@ == template_body(data@));
    if starts2(body, 0x80, 0x00) {
        return Ok((AuthenticateStep::Witness, vstd::slice::slice_subrange(body, 2, body.len())));
    }
    if starts2(body, 0x80, 0x08) {
        return Ok((AuthenticateStep::Challenge, vstd::slice::slice_subrange(body, 2, body.len())));
    }
    if !starts2(body, 0x82, 0x00) {
        return Err(Status::IncorrectDataParameter);
    }
    let c = vstd::slice::slice_subrange(body, 2, body.len());
    if !starts2(c, 0x81, 0x81) {
        return Err(Status::IncorrectDataParameter);
    }
    let len = c[2] as usize;
    let commitment = vstd::slice::slice_subrange(c, 3, c.len());
    if commitment.len() != len {
        return Err(Status::IncorrectDataParameter);
    }
    Ok((AuthenticateStep::Sign, commitment))
}

/// A dynamic authentication template `7C` holding one item.
pub open spec fn auth_template(tag: u8, value: Seq<u8>) -> Seq<u8> {
    tlv(seq![0x7cu8], tlv(seq![tag], value))
}

/// The answer `7C { tag value }`, within a buffer of `cap` bytes.
pub fn template_response(tag: u8, value: &[u8], cap: usize) -> (r: Vec<u8>)
    requires
        auth_template(tag, value@).len() <= cap,
    ensures
        r@ == auth_template(tag, value@),
{
    let mut inner: Vec<u8> = Vec::new();
    push_tlv(&mut inner, &[tag], value);
    let mut out: Vec<u8> = Vec::new();
    push_tlv(&mut out, &[0x7c], inner.as_slice());
    assert(inner@ == tlv(seq![tag], value@)) by {
        assert(seq![tag] =~= [tag]@);
    }
    assert(out@ =~= auth_template(tag, value@)) by {
        assert(seq![0x7cu8] =~= [0x7cu8]@);
    }
    out
}

/// Step 1 of management key authentication: only for the management key
/// (`P1 = 03`, `P2 = 9B`) and with nothing after `80 00`.
pub fn request_for_witness(p1: u8, p2: u8, remaining_data: &[u8]) -> (r: Result<(), Status>)
    ensures
        (p1 != 0x03 || p2 != 0x9b) ==> r == Err::<(), Status>(Status::IncorrectP1OrP2Parameter),
        (p1 == 0x03 && p2 == 0x9b && remaining_data@.len() != 0) ==> r == Err::<(), Status>(Status::IncorrectDataParameter),
        (p1 == 0x03 && p2 == 0x9b && remaining_data@.len() == 0) ==> r is Ok,
{
    if p1 != 0x03 || p2 != 0x9b {
        return Err(Status::IncorrectP1OrP2Parameter);
    }
    if remaining_data.len() != 0 {
        return Err(Status::IncorrectDataParameter);
    }
    Ok(())
}

/// Remember the random challenge of a management key authentication; the
/// answer is the witness `7C { 80 E(challenge) }`.
pub fn begin_management_authentication(runtime: &mut Runtime, challenge: [u8; 8])
    ensures
        final(runtime).command_cache == Some(CommandCache::AuthenticateManagement(AuthenticateManagement { challenge })),
        final(runtime).app_security_status == old(runtime).app_security_status,
        final(runtime).currently_selected_application == old(runtime).currently_selected_application,
{
    runtime.command_cache = Some(CommandCache::AuthenticateManagement(AuthenticateManagement { challenge }));
}

/// Step 2 of management key authentication, on the data after `80 08`:
/// the decrypted witness, then `81 08` and a counter challenge. The cached
/// challenge is used once; the management key counts as verified when the
/// witness was decrypted right. Returns the counter challenge to encrypt.
pub fn request_for_challenge<'a>(p1: u8, p2: u8, remaining_data: &'a [u8], runtime: &mut Runtime) -> (r: Result<&'a [u8], Status>)
    ensures
        final(runtime).currently_selected_application == old(runtime).currently_selected_application,
        final(runtime).app_security_status.pin_verified == old(runtime).app_security_status.pin_verified,
        final(runtime).app_security_status.puk_verified == old(runtime).app_security_status.puk_verified,
        (p1 != 0x03 || p2 != 0x9b) ==> r == Err::<&[u8], Status>(Status::IncorrectP1OrP2Parameter) && *final(runtime) == *old(runtime),
        (p1 == 0x03 && p2 == 0x9b && remaining_data@.len() != 18) ==> r == Err::<&[u8], Status>(Status::IncorrectDataParameter)
            && *final(runtime) == *old(runtime),
        (p1 == 0x03 && p2 == 0x9b && remaining_data@.len() == 18) ==> match old(runtime).command_cache {
            Some(CommandCache::AuthenticateManagement(am)) => {
                &&& final(runtime).command_cache is None
                &&& if am.challenge@ != remaining_data@.subrange(0, 8) {
                    &&& r == Err::<&[u8], Status>(Status::IncorrectDataParameter)
                    &&& final(runtime).app_security_status == old(runtime).app_security_status
                } else {
                    &&& final(runtime).app_security_status.management_verified
                    &&& if remaining_data@[8] != 0x81 || remaining_data@[9] != 0x08 {
                        r == Err::<&[u8], Status>(Status::IncorrectDataParameter)
                    } else {
                        r matches Ok(c) && c@ == remaining_data@.subrange(10, 18)
                    }
                }
            },
            _ => r == Err::<&[u8], Status>(Status::InstructionNotSupportedOrInvalid) && *final(runtime) == *old(runtime),
        },
{
    if p1 != 0x03 || p2 != 0x9b {
        return Err(Status::IncorrectP1OrP2Parameter);
    }
    if remaining_data.len() != 8 + 2 + 8 {
        return Err(Status::IncorrectDataParameter);
    }
    let response = vstd::slice::slice_subrange(remaining_data, 0, 8);
    let our_challenge = match runtime.command_cache {
        Some(CommandCache::AuthenticateManagement(am)) => am.challenge,
        _ => {
            return Err(Status::InstructionNotSupportedOrInvalid);
        },
    };
    // no retries
    runtime.command_cache = None;
    if !bytes_eq(our_challenge.as_slice(), response) {
        return Err(Status::IncorrectDataParameter);
    }
    runtime.app_security_status.management_verified = true;
    if remaining_data[8] != 0x81 || remaining_data[9] != 0x08 {
        return Err(Status::IncorrectDataParameter);
    }
    Ok(vstd::slice::slice_subrange(remaining_data, 10, 18))
}

/// The key that signs in GENERAL AUTHENTICATE, if one was generated.
pub fn authentication_key(persistent: &Persistent) -> (r: Result<ObjectHandle, Status>)
    ensures
        match persistent.spec_keys().authentication_key {
            Some(k) => r == Ok::<ObjectHandle, Status>(k),
            None => r == Err::<ObjectHandle, Status>(Status::KeyReferenceNotFound),
        },
{
    match persistent.keys().authentication_key {
        Some(key) => Ok(key),
        None => Err(Status::KeyReferenceNotFound),
    }
}

/// The answer to GENERAL AUTHENTICATE with a signature: `7C { 82 signature }`.
pub fn signature_response(signature: &[u8]) -> (r: Vec<u8>)
    requires
        auth_template(0x82, signature@).len() <= 256,
    ensures
        r@ == auth_template(0x82, signature@),
{
    template_response(0x82, signature, 256)
}

/// The data objects that GET DATA answers.
#[derive(Clone, Copy, Debug, PartialEq, Eq, Structural)]
pub enum DataObject {
    DiscoveryObject,
    CardHolderUniqueIdentifier,
    X509CertificateForPivAuthentication,
    AttestationCertificate,
}

/// GET DATA (`00 CB 3F FF`) with `5C L tag`: which object is asked for.
/// The biometric information template (`7F61`) is refused, and unknown
/// objects are not found.
pub open spec fn spec_get_data(p1: u8, p2: u8, data: Seq<u8>) -> Result<DataObject, Status> {
    if p1 != 0x3f || p2 != 0xff {
        Err(Status::IncorrectP1OrP2Parameter)
    } else if data.len() < 3 || data[0] != 0x5c || data.len() - 2 != data[1] as int || data.len() - 2 > 3 {
        Err(Status::IncorrectDataParameter)
    } else {
        let tag = data.subrange(2, data.len() as int);
        if tag == seq![0x7eu8] {
            Ok(DataObject::DiscoveryObject)
        } else if tag == seq![0x7fu8, 0x61] {
            Err(Status::InstructionNotSupportedOrInvalid)
        } else if tag == seq![0x5fu8, 0xc1, 0x02] {
            Ok(DataObject::CardHolderUniqueIdentifier)
        } else if tag == seq![0x5fu8, 0xc1, 0x05] {
            Ok(DataObject::X509CertificateForPivAuthentication)
        } else if tag == seq![0x5fu8, 0xff, 0x01] {
            Ok(DataObject::AttestationCertificate)
        } else {
            Err(Status::NotFound)
        }
    }
}

pub fn get_data(p1: u8, p2: u8, data: &[u8]) -> (r: Result<DataObject, Status>)
    ensures
        r == spec_get_data(p1, p2, data@),
{
    if p1 != 0x3f || p2 != 0xff {
        return Err(Status::IncorrectP1OrP2Parameter);
    }
    if data.len() < 3 {
        return Err(Status::IncorrectDataParameter);
    }
    if data[0] != 0x5c {
        return Err(Status::IncorrectDataParameter);
    }
    let len = data[1] as usize;
    let tag = vstd::slice::slice_subrange(data, 2, data.len());
    if tag.len() != len {
        return Err(Status::IncorrectDataParameter);
    }
    if tag.len() == 0 || tag.len() > 3 {
        return Err(Status::IncorrectDataParameter);
    }
    if bytes_eq(tag, &[0x7e]) {
        assert([0x7eu8]@ =~= seq![0x7eu8]);
        return Ok(DataObject::DiscoveryObject);
    }
    if bytes_eq(tag, &[0x7f, 0x61]) {
        assert([0x7fu8, 0x61]@ =~= seq![0x7fu8, 0x61]);
        return Err(Status::InstructionNotSupportedOrInvalid);
    }
    if bytes_eq(tag, &[0x5f, 0xc1, 0x02]) {
        assert([0x5fu8, 0xc1, 0x02]@ =~= seq![0x5fu8, 0xc1, 0x02]);
        return Ok(DataObject::CardHolderUniqueIdentifier);
    }
    if bytes_eq(tag, &[0x5f, 0xc1, 0x05]) {
        assert([0x5fu8, 0xc1, 0x05]@ =~= seq![0x5fu8, 0xc1, 0x05]);
        return Ok(DataObject::X509CertificateForPivAuthentication);
    }
    if bytes_eq(tag, &[0x5f, 0xff, 0x01]) {
        assert([0x5fu8, 0xff, 0x01]@ =~= seq![0x5fu8, 0xff, 0x01]);
        return Ok(DataObject::AttestationCertificate);
    }
    proof {
        assert([0x7eu8]@ =~= seq![0x7eu8]);
        assert([0x7fu8, 0x61]@ =~= seq![0x7fu8, 0x61]);
        assert([0x5fu8, 0xc1, 0x02]@ =~= seq![0x5fu8, 0xc1, 0x02]);
        assert([0x5fu8, 0xc1, 0x05]@ =~= seq![0x5fu8, 0xc1, 0x05]);
        assert([0x5fu8, 0xff, 0x01]@ =~= seq![0x5fu8, 0xff, 0x01]);
    }
    Err(Status::NotFound)
}

/// The Card Holder Unique Identifier that the card answers:
/// `53 { 30 9999, 34 guid, 35 "22220101", 3E " " }` (a non-federal
/// FASC-N, no expiry before 2222, a placeholder signature).
pub open spec fn chuid_answer(guid: Seq<u8>) -> Seq<u8> {
    tlv(
        seq![0x53u8],
        tlv(seq![0x30u8], seq![0x99u8, 0x99]) + tlv(seq![0x34u8], guid) + tlv(
            seq![0x35u8],
            seq![0x32u8, 0x32, 0x32, 0x32, 0x30, 0x31, 0x30, 0x31],
        ) + tlv(seq![0x3eu8], seq![0x20u8]),
    )
}

pub fn chuid_response(guid: &[u8; 16]) -> (r: Vec<u8>)
    ensures
        r@ == chuid_answer(guid@),
{
    let mut inner: Vec<u8> = Vec::new();
    push_tlv(&mut inner, &[0x30], &[0x99, 0x99]);
    push_tlv(&mut inner, &[0x34], guid.as_slice());
    push_tlv(&mut inner, &[0x35], &[0x32, 0x32, 0x32, 0x32, 0x30, 0x31, 0x30, 0x31]);
    push_tlv(&mut inner, &[0x3e], &[0x20]);
    let mut out: Vec<u8> = Vec::new();
    push_tlv(&mut out, &[0x53], inner.as_slice());
    proof {
        assert([0x30u8]@ =~= seq![0x30u8]);
        assert([0x99u8, 0x99]@ =~= seq![0x99u8, 0x99]);
        assert([0x34u8]@ =~= seq![0x34u8]);
        assert([0x35u8]@ =~= seq![0x35u8]);
        assert([0x32u8, 0x32, 0x32, 0x32, 0x30, 0x31, 0x30, 0x31]@ =~= seq![0x32u8, 0x32, 0x32, 0x32, 0x30, 0x31, 0x30, 0x31]);
        assert([0x3eu8]@ =~= seq![0x3eu8]);
        assert([0x20u8]@ =~= seq![0x20u8]);
        assert([0x53u8]@ =~= seq![0x53u8]);
        assert(out@ =~= chuid_answer(guid@));
    }
    out
}

/// A stored certificate is answered as `53 { certificate }`, within 1024 bytes.
pub fn certificate_response(certificate: &[u8]) -> (r: Vec<u8>)
    requires
        tlv(seq![0x53u8], certificate@).len() <= 1024,
    ensures
        r@ == tlv(seq![0x53u8], certificate@),
{
    let mut out: Vec<u8> = Vec::new();
    push_tlv(&mut out, &[0x53], certificate);
    assert([0x53u8]@ =~= seq![0x53u8]);
    out
}

/// Where PUT DATA stores an object.
#[derive(Clone, Copy, Debug, PartialEq, Eq, Structural)]
pub enum PutDataTarget {
    /// `5FC109`, the file "printed-information".
    PrintedInformation,
    /// `5FC105`, the file "authentication-key.x5c".
    AuthenticationKeyCertificate,
}

/// Reading an item with the given tag from the front: its value and what
/// follows it.
pub open spec fn spec_take(s: Seq<u8>, tag: u8) -> Result<(Seq<u8>, Seq<u8>), DerError> {
    match spec_read_tlv(s) {
        Err(e) => Err(e),
        Ok((t, h, l)) => if t != tag {
            Err(DerError::WrongTag)
        } else {
            Ok((s.subrange(h as int, (h + l) as int), s.subrange((h + l) as int, s.len() as int)))
        },
    }
}

/// Largest object that PUT DATA stores, exclusive.
pub const PUT_DATA_LIMIT: usize = 512;

/// PUT DATA (`00 DB 3F FF`) with `5C tag 53 data` and nothing after.
pub open spec fn spec_put_data(p1: u8, p2: u8, data: Seq<u8>) -> Result<(PutDataTarget, Seq<u8>), Status> {
    if p1 != 0x3f || p2 != 0xff {
        Err(Status::IncorrectP1OrP2Parameter)
    } else {
        match spec_take(data, 0x5c) {
            Err(_) => Err(Status::IncorrectDataParameter),
            Ok((object, r1)) => match spec_take(r1, 0x53) {
                Err(_) => Err(Status::IncorrectDataParameter),
                Ok((value, r2)) => if r2.len() != 0 {
                    Err(Status::IncorrectDataParameter)
                } else if object == seq![0x5fu8, 0xc1, 0x09] {
                    if value.len() >= PUT_DATA_LIMIT {
                        Err(Status::UnspecifiedCheckingError)
                    } else {
                        Ok((PutDataTarget::PrintedInformation, value))
                    }
                } else if object == seq![0x5fu8, 0xc1, 0x05] {
                    if value.len() >= PUT_DATA_LIMIT {
                        Err(Status::UnspecifiedCheckingError)
                    } else {
                        Ok((PutDataTarget::AuthenticationKeyCertificate, value))
                    }
                } else {
                    Err(Status::IncorrectDataParameter)
                },
            },
        }
    }
}

fn take<'a>(s: &'a [u8], tag: u8) -> (r: Result<(&'a [u8], &'a [u8]), DerError>)
    ensures
        match (r, spec_take(s@, tag)) {
            (Ok((v, rest)), Ok((sv, srest))) => v@ == sv && rest@ == srest,
            (Err(_), Err(_)) => true,
            _ => false,
        },
{
    let (value, consumed) = expect_tag_and_get_value(s, tag)?;
    Ok((value, vstd::slice::slice_subrange(s, consumed, s.len())))
}

pub fn put_data(p1: u8, p2: u8, data: &[u8]) -> (r: Result<(PutDataTarget, &[u8]), Status>)
    ensures
        match (r, spec_put_data(p1, p2, data@)) {
            (Ok((t, v)), Ok((st, sv))) => t == st && v@ == sv,
            (Err(e), Err(se)) => e == se,
            _ => false,
        },
{
    if p1 != 0x3f || p2 != 0xff {
        return Err(Status::IncorrectP1OrP2Parameter);
    }
    let (object, r1) = match take(data, 0x5c) {
        Ok(x) => x,
        Err(_) => return Err(Status::IncorrectDataParameter),
    };
    let (value, r2) = match take(r1, 0x53) {
        Ok(x) => x,
        Err(_) => return Err(Status::IncorrectDataParameter),
    };
    if r2.len() != 0 {
        return Err(Status::IncorrectDataParameter);
    }
    proof {
        assert([0x5fu8, 0xc1, 0x09]@ =~= seq![0x5fu8, 0xc1, 0x09]);
        assert([0x5fu8, 0xc1, 0x05]@ =~= seq![0x5fu8, 0xc1, 0x05]);
    }
    if bytes_eq(object, &[0x5f, 0xc1, 0x09]) {
        if value.len() >= PUT_DATA_LIMIT {
            return Err(Status::UnspecifiedCheckingError);
        }
        return Ok((PutDataTarget::PrintedInformation, value));
    }
    if bytes_eq(object, &[0x5f, 0xc1, 0x05]) {
        if value.len() >= PUT_DATA_LIMIT {
            return Err(Status::UnspecifiedCheckingError);
        }
        return Ok((PutDataTarget::AuthenticationKeyCertificate, value));
    }
    Err(Status::IncorrectDataParameter)
}

/// GENERATE ASYMMETRIC KEY PAIR (`00 47 00 9A`): needs the management key,
/// only the authentication slot, and the template
/// `AC { 80 mechanism, AA pin policy, AB touch policy }` with the Ed25519
/// mechanism `22`.
pub open spec fn spec_generate(management_verified: bool, p1: u8, p2: u8, data: Seq<u8>) -> Result<(), Status> {
    if !management_verified {
        Err(Status::SecurityStatusNotSatisfied)
    } else if p1 != 0x00 {
        Err(Status::IncorrectP1OrP2Parameter)
    } else if p2 != 0x9a {
        Err(Status::FunctionNotSupported)
    } else {
        match spec_take(data, 0xac) {
            Err(_) => Err(Status::IncorrectDataParameter),
            Ok((inner, after)) => if after.len() != 0 {
                Err(Status::IncorrectDataParameter)
            } else {
                match spec_take(inner, 0x80) {
                    Err(_) => Err(Status::IncorrectDataParameter),
                    Ok((mechanism, r1)) => match spec_take(r1, 0xaa) {
                        Err(_) => Err(Status::IncorrectDataParameter),
                        Ok((_, r2)) => match spec_take(r2, 0xab) {
                            Err(_) => Err(Status::IncorrectDataParameter),
                            Ok((_, r3)) => if r3.len() != 0 {
                                Err(Status::IncorrectDataParameter)
                            } else if mechanism != seq![0x22u8] {
                                Err(Status::InstructionNotSupportedOrInvalid)
                            } else {
                                Ok(())
                            },
                        },
                    },
                }
            },
        }
    }
}

pub fn check_generate_asymmetric(status: &AppSecurityStatus, p1: u8, p2: u8, data: &[u8]) -> (r: Result<(), Status>)
    ensures
        r == spec_generate(status.management_verified, p1, p2, data@),
{
    if !status.management_verified {
        return Err(Status::SecurityStatusNotSatisfied);
    }
    if p1 != 0x00 {
        return Err(Status::IncorrectP1OrP2Parameter);
    }
    if p2 != 0x9a {
        return Err(Status::FunctionNotSupported);
    }
    let inner = match nested(data, 0xac) {
        Ok(x) => x,
        Err(_) => {
            return Err(Status::IncorrectDataParameter);
        },
    };
    let (mechanism, r1) = match take(inner, 0x80) {
        Ok(x) => x,
        Err(_) => return Err(Status::IncorrectDataParameter),
    };
    let (_pin_policy, r2) = match take(r1, 0xaa) {
        Ok(x) => x,
        Err(_) => return Err(Status::IncorrectDataParameter),
    };
    let (_touch_policy, r3) = match take(r2, 0xab) {
        Ok(x) => x,
        Err(_) => return Err(Status::IncorrectDataParameter),
    };
    if r3.len() != 0 {
        return Err(Status::IncorrectDataParameter);
    }
    assert([0x22u8]@ =~= seq![0x22u8]);
    if !bytes_eq(mechanism, &[0x22]) {
        return Err(Status::InstructionNotSupportedOrInvalid);
    }
    Ok(())
}

/// Capacity of a response.
pub const RESPONSE_CAPACITY: usize = 3072;

/// The answer to key generation: `7F49 { 86 public key }` with the length
/// of an Ed25519 key written in the header.
pub open spec fn public_key_answer(public_key: Seq<u8>) -> Seq<u8> {
    seq![0x7fu8, 0x49, 34, 0x86, 32] + public_key
}

pub fn public_key_response(public_key: &[u8]) -> (r: Vec<u8>)
    requires
        public_key@.len() + 5 <= RESPONSE_CAPACITY,
    ensures
        r@ == public_key_answer(public_key@),
{
    let l2: u8 = 32;
    let l1: u8 = l2 + 2;
    let mut data: Vec<u8> = vec![0x7f, 0x49, l1, 0x86, l2];
    data.extend_from_slice(public_key);
    assert(data@ =~= public_key_answer(public_key@));
    data
}

/// What a Yubico extension asks of the caller.
#[derive(Clone, Debug)]
pub enum YubicoAction<'a> {
    /// Answer with these bytes.
    Respond(Vec<u8>),
    /// Answer with the attestation certificate of slot 9A.
    AttestationFor9a,
    /// The PIN, the PUK and the status are reset; reset the management key and remove
    /// the stored objects.
    Reset,
    /// Install this 24-byte TDES management key.
    SetManagementKey(&'a [u8]),
}

/// Decisions of the Yubico PIV extensions: a serial number and a version
/// are made up; attestation only for slot 9A; reset only with `00 00`;
/// a new management key only as `03 9B 18` and 24 key bytes.
pub fn yubico_piv_extension<'a>(
    instruction: YubicoPivExtension,
    p1: u8,
    p2: u8,
    data: &'a [u8],
    persistent: &mut Persistent,
    status: &mut AppSecurityStatus,
) -> (r: Result<YubicoAction<'a>, Status>)
    ensures
        instruction == YubicoPivExtension::Reset && p1 == 0 && p2 == 0 ==> {
            &&& r matches Ok(YubicoAction::Reset)
            &&& final(persistent).pin().bytes() == seq![0x32u8, 0x30, 0x32, 0x30, 0x32, 0x30, 0xff, 0xff]
            &&& final(persistent).mismatches() == 0
            &&& final(persistent).puk().bytes() == default_puk_bytes()
            &&& final(persistent).puk_mismatches() == 0
            &&& final(persistent).spec_keys() == old(persistent).spec_keys()
            &&& final(persistent).spec_timestamp() == old(persistent).spec_timestamp()
            &&& *final(status) == (AppSecurityStatus { pin_verified: false, puk_verified: false, management_verified: false })
        },
        !(instruction == YubicoPivExtension::Reset && p1 == 0 && p2 == 0) ==> {
            &&& *final(persistent) == *old(persistent)
            &&& *final(status) == *old(status)
        },
        match instruction {
            YubicoPivExtension::GetSerial => r matches Ok(YubicoAction::Respond(v)) && v@ == seq![0x00u8, 0x52, 0xf7, 0x43],
            YubicoPivExtension::GetVersion => r matches Ok(YubicoAction::Respond(v)) && v@ == seq![0x06u8, 0x06, 0x06],
            YubicoPivExtension::Attest => if p2 != 0 {
                r matches Err(Status::IncorrectP1OrP2Parameter)
            } else if p1 == 0x9a {
                r matches Ok(YubicoAction::AttestationFor9a)
            } else {
                r matches Err(Status::FunctionNotSupported)
            },
            YubicoPivExtension::Reset => (p1 != 0 || p2 != 0) ==> r matches Err(Status::IncorrectP1OrP2Parameter),
            YubicoPivExtension::SetManagementKey => if p1 != 0xff || (p2 != 0xff && p2 != 0xfe) {
                r matches Err(Status::IncorrectP1OrP2Parameter)
            } else if data@.len() != 27 || data@.subrange(0, 3) != seq![0x03u8, 0x9b, 0x18] {
                r matches Err(Status::IncorrectDataParameter)
            } else {
                r matches Ok(YubicoAction::SetManagementKey(k)) && k@ == data@.subrange(3, 27)
            },
            _ => r matches Err(Status::FunctionNotSupported),
        },
{
    match instruction {
        YubicoPivExtension::GetSerial => {
            let v: Vec<u8> = vec![0x00, 0x52, 0xf7, 0x43];
            assert(v@ =~= seq![0x00u8, 0x52, 0xf7, 0x43]);
            Ok(YubicoAction::Respond(v))
        },
        YubicoPivExtension::GetVersion => {
            let v: Vec<u8> = vec![0x06, 0x06, 0x06];
            assert(v@ =~= seq![0x06u8, 0x06, 0x06]);
            Ok(YubicoAction::Respond(v))
        },
        YubicoPivExtension::Attest => {
            if p2 != 0x00 {
                return Err(Status::IncorrectP1OrP2Parameter);
            }
            if p1 == 0x9a {
                return Ok(YubicoAction::AttestationFor9a);
            }
            Err(Status::FunctionNotSupported)
        },
        YubicoPivExtension::Reset => {
            if p1 != 0x00 || p2 != 0x00 {
                return Err(Status::IncorrectP1OrP2Parameter);
            }
            persistent.reset_pin();
            persistent.reset_puk();
            status.pin_verified = false;
            status.puk_verified = false;
            status.management_verified = false;
            Ok(YubicoAction::Reset)
        },
        YubicoPivExtension::SetManagementKey => {
            if p1 != 0xff || (p2 != 0xff && p2 != 0xfe) {
                return Err(Status::IncorrectP1OrP2Parameter);
            }
            if data.len() != 3 + 24 {
                return Err(Status::IncorrectDataParameter);
            }
            let prefix = vstd::slice::slice_subrange(data, 0, 3);
            assert([0x03u8, 0x9b, 0x18]@ =~= seq![0x03u8, 0x9b, 0x18]);
            if !bytes_eq(prefix, &[0x03, 0x9b, 0x18]) {
                return Err(Status::IncorrectDataParameter);
            }
            Ok(YubicoAction::SetManagementKey(vstd::slice::slice_subrange(data, 3, 27)))
        },
        _ => Err(Status::FunctionNotSupported),
    }
}

/// The session of the PIV authenticator: its runtime state and a command
/// whose chained pieces are still arriving. The persistent state is loaded
/// from the Trussed file system by the caller.
pub struct Authenticator {
    pub runtime: Runtime,
    pub chained_command: Option<ChainedCommand>,
}

impl Authenticator {
    /// Nothing verified, nothing cached, no chained command.
    pub fn new() -> (r: Authenticator)
        ensures
            !r.runtime.app_security_status.pin_verified,
            !r.runtime.app_security_status.puk_verified,
            !r.runtime.app_security_status.management_verified,
            r.runtime.command_cache is None,
            r.chained_command is None,
    {
        Authenticator { runtime: Runtime::new(), chained_command: None }
    }

    /// Deselecting keeps the session as it is.
    pub fn deselect(&mut self)
        ensures
            final(self).runtime == old(self).runtime,
            final(self).chained_command == old(self).chained_command,
    {
    }

    /// VERIFY within the session: see `verify`.
    pub fn verify(&mut self, p1: u8, p2: u8, data: &[u8], persistent: &mut Persistent) -> (r: Result<(), Status>)
        ensures
            ({
                let (res, m, v) = verify_outcome(p1, p2, data@, old(persistent).pin().bytes(), old(persistent).mismatches(),
                    old(self).runtime.app_security_status.pin_verified);
                &&& r == res
                &&& final(persistent).mismatches() == m
                &&& final(persistent).pin() == old(persistent).pin()
                &&& keeps_all_but_pin(*old(persistent), *final(persistent))
                &&& final(self).runtime.app_security_status.pin_verified == v
                &&& final(self).runtime.app_security_status.puk_verified == old(self).runtime.app_security_status.puk_verified
                &&& final(self).runtime.app_security_status.management_verified
                    == old(self).runtime.app_security_status.management_verified
                &&& final(self).runtime.command_cache == old(self).runtime.command_cache
                &&& final(self).chained_command == old(self).chained_command
            }),
    {
        verify(p1, p2, data, persistent, &mut self.runtime.app_security_status)
    }

    /// CHANGE REFERENCE DATA within the session: see `change_reference_data`.
    pub fn change_reference(&mut self, p2: u8, data: &[u8], persistent: &mut Persistent) -> (r: Result<(), Status>)
        ensures
            p2 == 0x80 ==> ({
                let (res, m, pin, v) = change_outcome(data@, old(persistent).pin().bytes(), old(persistent).mismatches(),
                    old(self).runtime.app_security_status.pin_verified);
                &&& r == res
                &&& final(persistent).mismatches() == m
                &&& final(persistent).pin().bytes() == pin
                &&& keeps_all_but_pin(*old(persistent), *final(persistent))
                &&& final(self).runtime.app_security_status.pin_verified == v
                &&& final(self).runtime.app_security_status.puk_verified == old(self).runtime.app_security_status.puk_verified
            }),
            p2 == 0x81 ==> ({
                let (res, m, puk, v) = change_outcome(data@, old(persistent).puk().bytes(), old(persistent).puk_mismatches(),
                    old(self).runtime.app_security_status.puk_verified);
                &&& r == res
                &&& final(persistent).puk_mismatches() == m
                &&& final(persistent).puk().bytes() == puk
                &&& keeps_all_but_puk(*old(persistent), *final(persistent))
                &&& final(self).runtime.app_security_status.puk_verified == v
                &&& final(self).runtime.app_security_status.pin_verified == old(self).runtime.app_security_status.pin_verified
            }),
            p2 != 0x80 && p2 != 0x81 ==> r == Err::<(), Status>(Status::KeyReferenceNotFound)
                && *final(persistent) == *old(persistent) && final(self).runtime.app_security_status
                == old(self).runtime.app_security_status,
            final(self).runtime.app_security_status.management_verified
                == old(self).runtime.app_security_status.management_verified,
            final(self).runtime.command_cache == old(self).runtime.command_cache,
            final(self).runtime.currently_selected_application == old(self).runtime.currently_selected_application,
            final(self).chained_command == old(self).chained_command,
    {
        change_reference_data(p2, data, persistent, &mut self.runtime.app_security_status)
    }

    /// Change the PIN, given the old and the new one: see `replace_pin`.
    pub fn change_pin(&mut self, old_pin: Pin, new_pin: Pin, persistent: &mut Persistent) -> (r: Result<(), Status>)
        ensures
            ({
                let (res, m, pin, v) = replace_outcome(old_pin.bytes(), new_pin.bytes(), old(persistent).pin().bytes(),
                    old(persistent).mismatches(), old(self).runtime.app_security_status.pin_verified);
                &&& r == res
                &&& final(persistent).mismatches() == m
                &&& final(persistent).pin().bytes() == pin
                &&& keeps_all_but_pin(*old(persistent), *final(persistent))
                &&& final(self).runtime.app_security_status.pin_verified == v
                &&& final(self).runtime.app_security_status.puk_verified == old(self).runtime.app_security_status.puk_verified
            }),
            final(self).runtime.app_security_status.management_verified
                == old(self).runtime.app_security_status.management_verified,
            final(self).runtime.command_cache == old(self).runtime.command_cache,
            final(self).runtime.currently_selected_application == old(self).runtime.currently_selected_application,
            final(self).chained_command == old(self).chained_command,
    {
        replace_pin(&old_pin, new_pin, persistent, &mut self.runtime.app_security_status)
    }

    /// Change the PUK, given the old and the new one: see `replace_puk`.
    pub fn change_puk(&mut self, old_puk: Pin, new_puk: Pin, persistent: &mut Persistent) -> (r: Result<(), Status>)
        ensures
            ({
                let (res, m, puk, v) = replace_outcome(old_puk.bytes(), new_puk.bytes(), old(persistent).puk().bytes(),
                    old(persistent).puk_mismatches(), old(self).runtime.app_security_status.puk_verified);
                &&& r == res
                &&& final(persistent).puk_mismatches() == m
                &&& final(persistent).puk().bytes() == puk
                &&& keeps_all_but_puk(*old(persistent), *final(persistent))
                &&& final(self).runtime.app_security_status.puk_verified == v
                &&& final(self).runtime.app_security_status.pin_verified == old(self).runtime.app_security_status.pin_verified
            }),
            final(self).runtime.app_security_status.management_verified
                == old(self).runtime.app_security_status.management_verified,
            final(self).runtime.command_cache == old(self).runtime.command_cache,
            final(self).runtime.currently_selected_application == old(self).runtime.currently_selected_application,
            final(self).chained_command == old(self).chained_command,
    {
        replace_puk(&old_puk, new_puk, persistent, &mut self.runtime.app_security_status)
    }

    /// The answer to SELECT: the application property template with the
    /// given label and URL, and AES-256, P-256 and Ed25519 as algorithms.
    pub fn select(&self, application_label: &[u8], application_url: &[u8]) -> (r: Vec<u8>)
        ensures
            r@ == application_property_answer(application_label@, application_url@,
                seq![Algorithms::Aes256, Algorithms::P256, Algorithms::Ed255]),
    {
        let algorithms = [Algorithms::Aes256, Algorithms::P256, Algorithms::Ed255];
        let template = ApplicationPropertyTemplate::default()
            .with_application_label(application_label)
            .with_application_url(application_url)
            .with_supported_cryptographic_algorithms(algorithms.as_slice());
        assert(algorithms@ =~= seq![Algorithms::Aes256, Algorithms::P256, Algorithms::Ed255]);
        template.encode()
    }
}

/// A refused VERIFY that names the wrong key, the wrong P1 or malformed data
/// changes neither the retry counter nor the security status.
pub proof fn lemma_verify_refusals_change_nothing(p1: u8, p2: u8, data: Seq<u8>, pin: Seq<u8>, m: u8, v: bool)
    ensures
        ({
            let (res, m2, v2) = verify_outcome(p1, p2, data, pin, m, v);
            (res == Err::<(), Status>(Status::KeyReferenceNotFound) || res == Err::<(), Status>(Status::IncorrectP1OrP2Parameter)
                || res == Err::<(), Status>(Status::IncorrectDataParameter)) ==> m2 == m && v2 == v
        }),
{
}

/// A blocked PIN stays blocked: VERIFY and CHANGE REFERENCE DATA then
/// neither change the counter nor verify the PIN. The same holds of a
/// blocked PUK under CHANGE REFERENCE DATA, which is stated over the same
/// `change_outcome`.
pub proof fn lemma_blocked_pin_stays_blocked(p1: u8, p2: u8, data: Seq<u8>, pin: Seq<u8>, m: u8, v: bool)
    requires
        spec_remaining(m) == 0,
    ensures
        verify_outcome(p1, p2, data, pin, m, v).1 == m,
        !v ==> !verify_outcome(p1, p2, data, pin, m, v).2,
        change_outcome(data, pin, m, v) == (Err::<(), Status>(Status::OperationBlocked), m, pin, v),
{
}

/// A well-formed wrong PIN costs exactly one retry and says how many are
/// left; the right PIN restores all retries and verifies the PIN.
pub proof fn lemma_verify_counts_retries(data: Seq<u8>, pin: Seq<u8>, m: u8, v: bool)
    requires
        valid_padded_pin(data),
        spec_remaining(m) > 0,
    ensures
        data != pin ==> {
            let (res, m2, v2) = verify_outcome(0x00, 0x80, data, pin, m, v);
            &&& spec_remaining(m2) == spec_remaining(m) - 1
            &&& res == Err::<(), Status>(Status::RemainingRetries(spec_remaining(m2)))
            &&& !v2
        },
        data == pin ==> {
            let (res, m2, v2) = verify_outcome(0x00, 0x80, data, pin, m, v);
            &&& spec_remaining(m2) == PIN_RETRIES_DEFAULT
            &&& res is Ok
            &&& v2
        },
{
}

/// After a successful PIN change the new PIN verifies.
pub proof fn lemma_changed_pin_verifies(data: Seq<u8>, pin: Seq<u8>, m: u8, v: bool, v3: bool)
    requires
        change_outcome(data, pin, m, v).0 is Ok,
    ensures
        ({
            let (_, m2, pin2, _) = change_outcome(data, pin, m, v);
            verify_outcome(0x00, 0x80, data.subrange(8, 16), pin2, m2, v3) == (Ok::<(), Status>(()), 0u8, true)
        }),
{
}

/// After a successful change of a PIN or PUK, the new value is the one
/// that the next change must name: a change from it to any valid value
/// succeeds and installs that value.
pub proof fn lemma_changed_value_is_current(data: Seq<u8>, secret: Seq<u8>, m: u8, v: bool, next: Seq<u8>, v3: bool)
    requires
        change_outcome(data, secret, m, v).0 is Ok,
        valid_padded_pin(next),
    ensures
        ({
            let (_, m2, secret2, _) = change_outcome(data, secret, m, v);
            let data2 = data.subrange(8, 16) + next;
            change_outcome(data2, secret2, m2, v3) == (Ok::<(), Status>(()), 0u8, next, true)
        }),
{
    let data2 = data.subrange(8, 16) + next;
    assert(data2.subrange(0, 8) =~= data.subrange(8, 16));
    assert(data2.subrange(8, 16) =~= next);
}

} // verus!
