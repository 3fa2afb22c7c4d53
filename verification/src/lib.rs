//! Verified core logic of the Solo 2 security key firmware: APDU decoding,
//! DER writing and reading, NDEF files, OATH export encoding, PIV state and
//! command parsing, HOTP, and provisioning decisions.

pub mod apdu;
pub mod der;
pub mod derp;
pub mod status;
pub mod ndef;
pub mod bounded;
pub mod oath;
pub mod totp;
pub mod trussed_types;
pub mod piv_state;
pub mod piv_types;
pub mod piv_commands;
pub mod piv_container;
pub mod piv_app;
pub mod provisioner;
pub mod hal;
pub mod ndef_gate;
pub mod ndef_applet;
pub mod dispatch;
pub mod buttons;
pub mod board;
pub mod ccid;
pub mod nfc_platform;

use vstd::prelude::*;

verus! {

} // verus!
