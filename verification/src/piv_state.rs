//! PIV card state: the PIN and its retry counter, key handles, and the
//! security status of the running session.

use vstd::prelude::*;
use crate::trussed_types::ObjectHandle;

verus! {

/// Length of a padded PIN.
pub const PIN_LENGTH: usize = 8;
/// Padding byte after the digits of a short PIN.
pub const PIN_PAD: u8 = 0xff;

/// Position of the first padding byte of a padded PIN, or its length.
pub open spec fn first_pad(s: Seq<u8>) -> nat
    decreases s.len(),
{
    if s.len() == 0 {
        0
    } else if s[0] == PIN_PAD {
        0
    } else {
        1 + first_pad(s.drop_first())
    }
}

/// A valid padded PIN: 8 bytes, 6 to 8 ASCII digits, then `0xFF` padding
/// up to the end.
pub open spec fn valid_padded_pin(s: Seq<u8>) -> bool {
    &&& s.len() == PIN_LENGTH
    &&& first_pad(s) >= 6
    &&& forall|i: int| 0 <= i < first_pad(s) ==> 0x30 <= #[trigger] s[i] <= 0x39
    &&& forall|i: int| first_pad(s) <= i < s.len() ==> #[trigger] s[i] == PIN_PAD
}

pub proof fn lemma_first_pad(s: Seq<u8>)
    ensures
        first_pad(s) <= s.len(),
        forall|i: int| 0 <= i < first_pad(s) ==> s[i] != PIN_PAD,
        first_pad(s) < s.len() ==> s[first_pad(s) as int] == PIN_PAD,
    decreases s.len(),
{
    if s.len() > 0 && s[0] != PIN_PAD {
        lemma_first_pad(s.drop_first());
        assert forall|i: int| 0 <= i < first_pad(s) implies s[i] != PIN_PAD by {
            if i > 0 {
                assert(s[i] == s.drop_first()[i - 1]);
            }
        }
    }
}

/// A PIN padded to 8 bytes with `0xFF`.
#[derive(Clone, Copy, Debug, PartialEq, Eq)]
pub struct Pin {
    padded_pin: [u8; 8],
}

impl Pin {
    pub closed spec fn bytes(&self) -> Seq<u8> {
        self.padded_pin@
    }

    /// Accept a padded PIN of 6 to 8 digits.
    pub fn try_new(padded_pin: &[u8]) -> (r: Result<Pin, ()>)
        ensures
            r is Ok <==> valid_padded_pin(padded_pin@),
            r matches Ok(p) ==> p.bytes() == padded_pin@,
    {
        if padded_pin.len() != PIN_LENGTH {
            return Err(());
        }
        proof {
            lemma_first_pad(padded_pin@);
        }
        let mut l: usize = 0;
        while l < PIN_LENGTH && padded_pin[l] != PIN_PAD
            invariant
                l <= PIN_LENGTH,
                padded_pin@.len() == PIN_LENGTH,
                l <= first_pad(padded_pin@),
                first_pad(padded_pin@) <= PIN_LENGTH,
                forall|i: int| 0 <= i < first_pad(padded_pin@) ==> padded_pin@[i] != PIN_PAD,
                first_pad(padded_pin@) < PIN_LENGTH ==> padded_pin@[first_pad(padded_pin@) as int] == PIN_PAD,
            decreases PIN_LENGTH - l,
        {
            l = l + 1;
        }
        assert(l == first_pad(padded_pin@));
        if l < 6 {
            return Err(());
        }
        let mut i: usize = 0;
        while i < l
            invariant
                i <= l,
                l == first_pad(padded_pin@),
                l <= padded_pin@.len(),
                forall|j: int| 0 <= j < i ==> 0x30 <= #[trigger] padded_pin@[j] <= 0x39,
            decreases l - i,
        {
            if padded_pin[i] < 0x30 || padded_pin[i] > 0x39 {
                return Err(());
            }
            i = i + 1;
        }
        let mut j: usize = l;
        while j < PIN_LENGTH
            invariant
                l <= j <= PIN_LENGTH,
                l == first_pad(padded_pin@),
                padded_pin@.len() == PIN_LENGTH,
                forall|m: int| 0 <= m < l ==> 0x30 <= #[trigger] padded_pin@[m] <= 0x39,
                forall|m: int| l <= m < j ==> #[trigger] padded_pin@[m] == PIN_PAD,
            decreases PIN_LENGTH - j,
        {
            if padded_pin[j] != PIN_PAD {
                return Err(());
            }
            j = j + 1;
        }
        let mut arr: [u8; 8] = [0u8; 8];
        let mut k: usize = 0;
        while k < PIN_LENGTH
            invariant
                k <= PIN_LENGTH,
                padded_pin@.len() == PIN_LENGTH,
                forall|j: int| 0 <= j < k ==> arr@[j] == padded_pin@[j],
            decreases PIN_LENGTH - k,
        {
            arr[k] = padded_pin[k];
            k = k + 1;
        }
        assert(arr@ =~= padded_pin@);
        Ok(Pin { padded_pin: arr })
    }

    /// The default PIN "202020", padded.
    pub fn default_pin() -> (r: Pin)
        ensures
            r.bytes() == seq![0x32u8, 0x30, 0x32, 0x30, 0x32, 0x30, 0xff, 0xff],
    {
        let p = Pin { padded_pin: [0x32, 0x30, 0x32, 0x30, 0x32, 0x30, 0xff, 0xff] };
        assert(p.padded_pin@ =~= seq![0x32u8, 0x30, 0x32, 0x30, 0x32, 0x30, 0xff, 0xff]);
        p
    }

    /// The default PUK "12345678".
    pub fn default_puk() -> (r: Pin)
        ensures
            r.bytes() == default_puk_bytes(),
    {
        let p = Pin { padded_pin: [0x31, 0x32, 0x33, 0x34, 0x35, 0x36, 0x37, 0x38] };
        assert(p.padded_pin@ =~= default_puk_bytes());
        p
    }

    /// The padded PIN.
    pub fn as_bytes(&self) -> (r: [u8; 8])
        ensures
            r@ == self.bytes(),
    {
        self.padded_pin
    }

    /// Byte-wise equality.
    pub fn equals(&self, other: &Pin) -> (r: bool)
        ensures
            r == (self.bytes() == other.bytes()),
    {
        let mut i: usize = 0;
        while i < PIN_LENGTH
            invariant
                i <= PIN_LENGTH,
                self.padded_pin@.len() == PIN_LENGTH,
                other.padded_pin@.len() == PIN_LENGTH,
                forall|j: int| 0 <= j < i ==> self.padded_pin@[j] == other.padded_pin@[j],
            decreases PIN_LENGTH - i,
        {
            if self.padded_pin[i] != other.padded_pin[i] {
                return false;
            }
            i = i + 1;
        }
        assert(self.padded_pin@ =~= other.padded_pin@);
        true
    }
}

/// Handles of the keys of the PIV slots.
#[derive(Clone, Copy, Debug, PartialEq, Eq)]
pub struct Keys {
    /// 9a "PIV Authentication Key"
    pub authentication_key: Option<ObjectHandle>,
    /// 9b "PIV Card Application Administration Key"
    pub management_key: ObjectHandle,
    /// 9c "Digital Signature Key"
    pub signature_key: Option<ObjectHandle>,
    /// 9d "Key Management Key"
    pub encryption_key: Option<ObjectHandle>,
    /// 9e "Card Authentication Key"
    pub pinless_authentication_key: Option<ObjectHandle>,
}

/// The default PUK, "12345678".
pub open spec fn default_puk_bytes() -> Seq<u8> {
    seq![0x31u8, 0x32, 0x33, 0x34, 0x35, 0x36, 0x37, 0x38]
}

/// Persistent PIV state: keys, the PIN and the PUK with their counts of
/// consecutive mismatches, and a counter.
#[derive(Clone, Copy, Debug, PartialEq, Eq)]
pub struct Persistent {
    pub keys: Keys,
    consecutive_pin_mismatches: u8,
    pin: Pin,
    consecutive_puk_mismatches: u8,
    puk: Pin,
    timestamp: u32,
}

/// Number of wrong PIN entries before the PIN blocks.
pub const PIN_RETRIES_DEFAULT: u8 = 3;

/// Retries left after `m` consecutive mismatches (of the PIN, and likewise
/// of the PUK).
pub open spec fn spec_remaining(m: u8) -> u8 {
    if m >= PIN_RETRIES_DEFAULT {
        0
    } else {
        (PIN_RETRIES_DEFAULT - m) as u8
    }
}

impl Persistent {
    pub closed spec fn spec_keys(&self) -> Keys {
        self.keys
    }

    pub closed spec fn mismatches(&self) -> u8 {
        self.consecutive_pin_mismatches
    }

    pub closed spec fn pin(&self) -> Pin {
        self.pin
    }

    pub closed spec fn spec_timestamp(&self) -> u32 {
        self.timestamp
    }

    pub closed spec fn puk(&self) -> Pin {
        self.puk
    }

    pub closed spec fn puk_mismatches(&self) -> u8 {
        self.consecutive_puk_mismatches
    }

    pub open spec fn retries(&self) -> u8 {
        spec_remaining(self.mismatches())
    }

    pub open spec fn puk_retries(&self) -> u8 {
        spec_remaining(self.puk_mismatches())
    }

    /// Fresh state: the default PIN, no mismatches, the given management key.
    pub fn initialize(management_key: ObjectHandle) -> (r: Persistent)
        ensures
            r.spec_keys().management_key == management_key,
            r.spec_keys().authentication_key is None,
            r.spec_keys().signature_key is None,
            r.spec_keys().encryption_key is None,
            r.spec_keys().pinless_authentication_key is None,
            r.mismatches() == 0,
            r.pin().bytes() == seq![0x32u8, 0x30, 0x32, 0x30, 0x32, 0x30, 0xff, 0xff],
            r.puk_mismatches() == 0,
            r.puk().bytes() == default_puk_bytes(),
            r.spec_timestamp() == 0,
    {
        let keys = Keys {
            authentication_key: None,
            management_key,
            signature_key: None,
            encryption_key: None,
            pinless_authentication_key: None,
        };
        Persistent {
            keys,
            consecutive_pin_mismatches: 0,
            pin: Pin::default_pin(),
            consecutive_puk_mismatches: 0,
            puk: Pin::default_puk(),
            timestamp: 0,
        }
    }

    pub fn remaining_pin_retries(&self) -> (r: u8)
        ensures
            r == self.retries(),
            r <= PIN_RETRIES_DEFAULT,
    {
        if self.consecutive_pin_mismatches >= PIN_RETRIES_DEFAULT {
            0
        } else {
            PIN_RETRIES_DEFAULT - self.consecutive_pin_mismatches
        }
    }

    pub fn verify_pin(&self, other_pin: &Pin) -> (r: bool)
        ensures
            r == (self.pin().bytes() == other_pin.bytes()),
    {
        self.pin.equals(other_pin)
    }

    pub fn set_pin(&mut self, new_pin: Pin)
        ensures
            final(self).pin() == new_pin,
            final(self).mismatches() == old(self).mismatches(),
            final(self).puk() == old(self).puk(),
            final(self).puk_mismatches() == old(self).puk_mismatches(),
            final(self).spec_keys() == old(self).spec_keys(),
            final(self).spec_timestamp() == old(self).spec_timestamp(),
    {
        self.pin = new_pin;
    }

    /// Count a wrong PIN; returns the retries left. Once blocked, nothing changes.
    pub fn increment_consecutive_pin_mismatches(&mut self) -> (r: u8)
        ensures
            old(self).mismatches() >= PIN_RETRIES_DEFAULT ==> r == 0 && *final(self) == *old(self),
            old(self).mismatches() < PIN_RETRIES_DEFAULT ==> {
                &&& final(self).mismatches() == old(self).mismatches() + 1
                &&& r == PIN_RETRIES_DEFAULT - final(self).mismatches()
                &&& final(self).pin() == old(self).pin()
                &&& final(self).spec_keys() == old(self).spec_keys()
                &&& final(self).spec_timestamp() == old(self).spec_timestamp()
                &&& final(self).puk() == old(self).puk()
                &&& final(self).puk_mismatches() == old(self).puk_mismatches()
            },
            r == final(self).retries(),
    {
        if self.consecutive_pin_mismatches >= PIN_RETRIES_DEFAULT {
            return 0;
        }
        self.consecutive_pin_mismatches = self.consecutive_pin_mismatches + 1;
        PIN_RETRIES_DEFAULT - self.consecutive_pin_mismatches
    }

    /// Forget the wrong PIN entries; returns the full retry count.
    pub fn reset_consecutive_pin_mismatches(&mut self) -> (r: u8)
        ensures
            r == PIN_RETRIES_DEFAULT,
            final(self).mismatches() == 0,
            final(self).puk() == old(self).puk(),
            final(self).puk_mismatches() == old(self).puk_mismatches(),
            final(self).pin() == old(self).pin(),
            final(self).spec_keys() == old(self).spec_keys(),
            final(self).spec_timestamp() == old(self).spec_timestamp(),
    {
        if self.consecutive_pin_mismatches != 0 {
            self.consecutive_pin_mismatches = 0;
        }
        PIN_RETRIES_DEFAULT
    }

    /// A state read back from storage.
    pub fn restore(
        keys: Keys,
        consecutive_pin_mismatches: u8,
        pin: Pin,
        consecutive_puk_mismatches: u8,
        puk: Pin,
        timestamp: u32,
    ) -> (r: Persistent)
        ensures
            r.spec_keys() == keys,
            r.mismatches() == consecutive_pin_mismatches,
            r.pin() == pin,
            r.puk_mismatches() == consecutive_puk_mismatches,
            r.puk() == puk,
            r.spec_timestamp() == timestamp,
    {
        Persistent { keys, consecutive_pin_mismatches, pin, consecutive_puk_mismatches, puk, timestamp }
    }

    /// The consecutive wrong PIN entries.
    pub fn consecutive_pin_mismatches(&self) -> (r: u8)
        ensures
            r == self.mismatches(),
    {
        self.consecutive_pin_mismatches
    }

    /// The PIN.
    pub fn current_pin(&self) -> (r: Pin)
        ensures
            r == self.pin(),
    {
        self.pin
    }

    /// The counter, without advancing it.
    pub fn current_timestamp(&self) -> (r: u32)
        ensures
            r == self.spec_timestamp(),
    {
        self.timestamp
    }

    /// The key handles.
    pub fn keys(&self) -> (r: Keys)
        ensures
            r == self.spec_keys(),
    {
        self.keys
    }

    /// Record the key of the PIV authentication slot (9A).
    pub fn set_authentication_key(&mut self, key: Option<ObjectHandle>)
        ensures
            final(self).spec_keys().authentication_key == key,
            final(self).spec_keys().management_key == old(self).spec_keys().management_key,
            final(self).spec_keys().signature_key == old(self).spec_keys().signature_key,
            final(self).spec_keys().encryption_key == old(self).spec_keys().encryption_key,
            final(self).spec_keys().pinless_authentication_key == old(self).spec_keys().pinless_authentication_key,
            final(self).mismatches() == old(self).mismatches(),
            final(self).pin() == old(self).pin(),
            final(self).spec_timestamp() == old(self).spec_timestamp(),
            final(self).puk() == old(self).puk(),
            final(self).puk_mismatches() == old(self).puk_mismatches(),
    {
        self.keys.authentication_key = key;
    }

    /// Back to the default PIN with all retries.
    pub fn reset_pin(&mut self)
        ensures
            final(self).pin().bytes() == seq![0x32u8, 0x30, 0x32, 0x30, 0x32, 0x30, 0xff, 0xff],
            final(self).mismatches() == 0,
            final(self).spec_keys() == old(self).spec_keys(),
            final(self).spec_timestamp() == old(self).spec_timestamp(),
            final(self).puk() == old(self).puk(),
            final(self).puk_mismatches() == old(self).puk_mismatches(),
    {
        self.pin = Pin::default_pin();
        self.consecutive_pin_mismatches = 0;
    }

    pub fn remaining_puk_retries(&self) -> (r: u8)
        ensures
            r == self.puk_retries(),
            r <= PIN_RETRIES_DEFAULT,
    {
        if self.consecutive_puk_mismatches >= PIN_RETRIES_DEFAULT {
            0
        } else {
            PIN_RETRIES_DEFAULT - self.consecutive_puk_mismatches
        }
    }

    pub fn verify_puk(&self, other_puk: &Pin) -> (r: bool)
        ensures
            r == (self.puk().bytes() == other_puk.bytes()),
    {
        self.puk.equals(other_puk)
    }

    pub fn set_puk(&mut self, new_puk: Pin)
        ensures
            final(self).puk() == new_puk,
            final(self).puk_mismatches() == old(self).puk_mismatches(),
            final(self).pin() == old(self).pin(),
            final(self).mismatches() == old(self).mismatches(),
            final(self).spec_keys() == old(self).spec_keys(),
            final(self).spec_timestamp() == old(self).spec_timestamp(),
    {
        self.puk = new_puk;
    }

    /// Count a wrong PUK; returns the retries left. Once blocked, nothing changes.
    pub fn increment_consecutive_puk_mismatches(&mut self) -> (r: u8)
        ensures
            old(self).puk_mismatches() >= PIN_RETRIES_DEFAULT ==> r == 0 && *final(self) == *old(self),
            old(self).puk_mismatches() < PIN_RETRIES_DEFAULT ==> {
                &&& final(self).puk_mismatches() == old(self).puk_mismatches() + 1
                &&& r == PIN_RETRIES_DEFAULT - final(self).puk_mismatches()
                &&& final(self).puk() == old(self).puk()
                &&& final(self).pin() == old(self).pin()
                &&& final(self).mismatches() == old(self).mismatches()
                &&& final(self).spec_keys() == old(self).spec_keys()
                &&& final(self).spec_timestamp() == old(self).spec_timestamp()
            },
            r == final(self).puk_retries(),
    {
        if self.consecutive_puk_mismatches >= PIN_RETRIES_DEFAULT {
            return 0;
        }
        self.consecutive_puk_mismatches = self.consecutive_puk_mismatches + 1;
        PIN_RETRIES_DEFAULT - self.consecutive_puk_mismatches
    }

    /// Forget the wrong PUK entries; returns the full retry count.
    pub fn reset_consecutive_puk_mismatches(&mut self) -> (r: u8)
        ensures
            r == PIN_RETRIES_DEFAULT,
            final(self).puk_mismatches() == 0,
            final(self).puk() == old(self).puk(),
            final(self).pin() == old(self).pin(),
            final(self).mismatches() == old(self).mismatches(),
            final(self).spec_keys() == old(self).spec_keys(),
            final(self).spec_timestamp() == old(self).spec_timestamp(),
    {
        if self.consecutive_puk_mismatches != 0 {
            self.consecutive_puk_mismatches = 0;
        }
        PIN_RETRIES_DEFAULT
    }

    /// Back to the default PUK with all retries.
    pub fn reset_puk(&mut self)
        ensures
            final(self).puk().bytes() == default_puk_bytes(),
            final(self).puk_mismatches() == 0,
            final(self).pin() == old(self).pin(),
            final(self).mismatches() == old(self).mismatches(),
            final(self).spec_keys() == old(self).spec_keys(),
            final(self).spec_timestamp() == old(self).spec_timestamp(),
    {
        self.puk = Pin::default_puk();
        self.consecutive_puk_mismatches = 0;
    }

    /// The consecutive wrong PUK entries.
    pub fn consecutive_puk_mismatches(&self) -> (r: u8)
        ensures
            r == self.puk_mismatches(),
    {
        self.consecutive_puk_mismatches
    }

    /// The PUK.
    pub fn current_puk(&self) -> (r: Pin)
        ensures
            r == self.puk(),
    {
        self.puk
    }

    /// Install a new management key; returns the old one, to be deleted.
    pub fn set_management_key(&mut self, new_management_key: ObjectHandle) -> (old_key: ObjectHandle)
        ensures
            old_key == old(self).spec_keys().management_key,
            final(self).spec_keys().management_key == new_management_key,
            final(self).spec_keys().authentication_key == old(self).spec_keys().authentication_key,
            final(self).spec_keys().signature_key == old(self).spec_keys().signature_key,
            final(self).spec_keys().encryption_key == old(self).spec_keys().encryption_key,
            final(self).spec_keys().pinless_authentication_key == old(self).spec_keys().pinless_authentication_key,
            final(self).mismatches() == old(self).mismatches(),
            final(self).pin() == old(self).pin(),
            final(self).spec_timestamp() == old(self).spec_timestamp(),
            final(self).puk() == old(self).puk(),
            final(self).puk_mismatches() == old(self).puk_mismatches(),
    {
        let old_key = self.keys.management_key;
        self.keys.management_key = new_management_key;
        old_key
    }

    /// Advance the monotonic counter and return it.
    pub fn timestamp(&mut self) -> (r: u32)
        requires
            old(self).spec_timestamp() < u32::MAX,
        ensures
            r == old(self).spec_timestamp() + 1,
            final(self).spec_timestamp() == r,
            final(self).mismatches() == old(self).mismatches(),
            final(self).pin() == old(self).pin(),
            final(self).spec_keys() == old(self).spec_keys(),
            final(self).puk() == old(self).puk(),
            final(self).puk_mismatches() == old(self).puk_mismatches(),
    {
        self.timestamp = self.timestamp + 1;
        self.timestamp
    }
}

/// The applications that can be selected.
#[derive(Clone, Copy, Debug, PartialEq, Eq)]
pub enum SelectableAid {
    Piv(PivAid),
    YubicoOtp(YubicoOtpAid),
}

/// An application identifier and how much of it may be right-truncated.
pub trait Aid {
    /// The AID: a five-byte RID, then the PIX.
    spec fn spec_aid() -> Seq<u8>;

    /// How many bytes a right-truncated SELECT keeps.
    spec fn spec_truncated_length() -> nat;

    /// The full AID.
    fn full() -> (r: Vec<u8>)
        ensures
            r@ == Self::spec_aid(),
            r@.len() >= 5,
            Self::spec_truncated_length() <= r@.len(),
    ;

    /// Length of the right-truncated AID.
    fn right_truncated_length() -> (r: usize)
        ensures
            r == Self::spec_truncated_length(),
    ;

    fn len() -> (r: usize)
        ensures
            r == Self::spec_aid().len(),
    {
        Self::full().len()
    }

    /// The AID cut to its truncated length.
    fn right_truncated() -> (r: Vec<u8>)
        ensures
            r@ == Self::spec_aid().subrange(0, Self::spec_truncated_length() as int),
    {
        let aid = Self::full();
        let n = Self::right_truncated_length();
        vstd::slice::slice_to_vec(vstd::slice::slice_subrange(aid.as_slice(), 0, n))
    }

    /// The proprietary application identifier extension.
    fn pix() -> (r: Vec<u8>)
        ensures
            r@ == Self::spec_aid().subrange(5, Self::spec_aid().len() as int),
    {
        let aid = Self::full();
        vstd::slice::slice_to_vec(vstd::slice::slice_subrange(aid.as_slice(), 5, aid.len()))
    }

    /// The registered application provider identifier.
    fn rid() -> (r: Vec<u8>)
        ensures
            r@ == Self::spec_aid().subrange(0, 5),
    {
        let aid = Self::full();
        vstd::slice::slice_to_vec(vstd::slice::slice_subrange(aid.as_slice(), 0, 5))
    }
}

/// The PIV application.
#[derive(Clone, Copy, Debug, PartialEq, Eq)]
pub struct PivAid {}

/// The Yubico OTP application.
#[derive(Clone, Copy, Debug, PartialEq, Eq)]
pub struct YubicoOtpAid {}

/// AID of the PIV application (NIST RID, PIX 00 00 10 00, version 01 00).
pub open spec fn piv_aid() -> Seq<u8> {
    seq![0xa0u8, 0x00, 0x00, 0x03, 0x08, 0x00, 0x00, 0x10, 0x00, 0x01, 0x00]
}

/// AID of the Yubico OTP application.
pub open spec fn yubico_otp_aid() -> Seq<u8> {
    seq![0xa0u8, 0x00, 0x00, 0x05, 0x27, 0x20, 0x01, 0x01]
}

impl Aid for PivAid {
    open spec fn spec_aid() -> Seq<u8> {
        piv_aid()
    }

    open spec fn spec_truncated_length() -> nat {
        9
    }

    fn full() -> (r: Vec<u8>) {
        let v: Vec<u8> = vec![0xa0u8, 0x00, 0x00, 0x03, 0x08, 0x00, 0x00, 0x10, 0x00, 0x01, 0x00];
        assert(v@ =~= piv_aid());
        assert(<PivAid as Aid>::spec_truncated_length() == 9);
        v
    }

    fn right_truncated_length() -> (r: usize) {
        9
    }
}

impl Aid for YubicoOtpAid {
    open spec fn spec_aid() -> Seq<u8> {
        yubico_otp_aid()
    }

    open spec fn spec_truncated_length() -> nat {
        8
    }

    fn full() -> (r: Vec<u8>) {
        let v: Vec<u8> = vec![0xa0u8, 0x00, 0x00, 0x05, 0x27, 0x20, 0x01, 0x01];
        assert(v@ =~= yubico_otp_aid());
        assert(<YubicoOtpAid as Aid>::spec_truncated_length() == 8);
        v
    }

    fn right_truncated_length() -> (r: usize) {
        8
    }
}

/// Session-wide security status (nothing is tracked yet).
#[derive(Clone, Copy, Debug, PartialEq, Eq)]
pub struct GlobalSecurityStatus {}

/// What the session has proven.
#[derive(Clone, Copy, Debug, PartialEq, Eq)]
pub struct AppSecurityStatus {
    pub pin_verified: bool,
    pub puk_verified: bool,
    pub management_verified: bool,
}

/// Cached state of a GET DATA command.
#[derive(Clone, Copy, Debug, PartialEq, Eq)]
pub struct GetData {}

/// The challenge of a management key authentication in progress.
#[derive(Clone, Copy, Debug, PartialEq, Eq)]
pub struct AuthenticateManagement {
    pub challenge: [u8; 8],
}

/// State carried from one command to the next.
#[derive(Clone, Copy, Debug, PartialEq, Eq)]
pub enum CommandCache {
    GetData(GetData),
    AuthenticateManagement(AuthenticateManagement),
}

/// Volatile state of the running session.
#[derive(Clone, Copy, Debug, PartialEq, Eq)]
pub struct Runtime {
    pub global_security_status: GlobalSecurityStatus,
    pub currently_selected_application: SelectableAid,
    pub app_security_status: AppSecurityStatus,
    pub command_cache: Option<CommandCache>,
}

impl Runtime {
    /// Nothing verified, PIV selected, nothing cached.
    pub fn new() -> (r: Runtime)
        ensures
            !r.app_security_status.pin_verified,
            !r.app_security_status.puk_verified,
            !r.app_security_status.management_verified,
            r.command_cache is None,
            r.currently_selected_application == SelectableAid::Piv(PivAid {}),
    {
        Runtime {
            global_security_status: GlobalSecurityStatus {},
            currently_selected_application: SelectableAid::Piv(PivAid {}),
            app_security_status: AppSecurityStatus { pin_verified: false, puk_verified: false, management_verified: false },
            command_cache: None,
        }
    }
}

} // verus!
