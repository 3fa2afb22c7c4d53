//! Types of the Trussed service interface: object identifiers and their hex
//! form, key and storage attributes, mechanisms and serializations.

use vstd::prelude::*;

verus! {

/// Errors of the Trussed types.
#[derive(Clone, Copy, Debug, PartialEq, Eq, Structural)]
pub enum Error {
    CborError,
    NotJustLetters,
}

/// Lowercase hexadecimal digit of a nibble.
pub open spec fn hex_lower(n: u8) -> u8 {
    if n < 10 {
        (0x30 + n) as u8
    } else {
        (0x57 + n) as u8
    }
}

/// Lowercase hex of `data`, two digits per byte.
pub open spec fn hex_of(data: Seq<u8>) -> Seq<u8> {
    Seq::new(2 * data.len(), |i: int| if i % 2 == 0 { hex_lower(data[i / 2] / 16) } else { hex_lower(data[i / 2] % 16) })
}

/// Value of a hex digit (either case).
pub open spec fn is_hex_digit(c: u8) -> bool {
    (0x30 <= c <= 0x39) || (0x41 <= c <= 0x46) || (0x61 <= c <= 0x66)
}

pub open spec fn digit_value(c: u8) -> u8 {
    if 0x30 <= c <= 0x39 {
        (c - 0x30) as u8
    } else if 0x41 <= c <= 0x46 {
        (c - 0x41 + 10) as u8
    } else {
        (c - 0x61 + 10) as u8
    }
}

/// A two-character chunk that parses as a base-16 `u8`: two hex digits, or
/// a `+` sign and one hex digit.
pub open spec fn valid_pair(a: u8, b: u8) -> bool {
    is_hex_digit(b) && (is_hex_digit(a) || a == 0x2b)
}

pub open spec fn pair_value(a: u8, b: u8) -> u8 {
    if a == 0x2b {
        digit_value(b)
    } else {
        (digit_value(a) * 16 + digit_value(b)) as u8
    }
}

/// Inputs on which parsing hex does not panic: every two-character chunk
/// that is parsed is a valid base-16 byte.
pub open spec fn parsable_hex(hex: Seq<u8>) -> bool {
    hex.len() % 2 == 1 || hex.len() > 32 || forall|i: int| 0 <= i < hex.len() / 2 ==> valid_pair(
        #[trigger] hex[2 * i],
        hex[2 * i + 1],
    )
}

/// Identifier of an object in the store.
#[derive(Clone, Copy, Debug, PartialEq, Eq)]
pub struct UniqueId(pub [u8; 16]);

impl UniqueId {
    pub open spec fn bytes(&self) -> Seq<u8> {
        self.0@
    }

    /// A "special", well-known id: the given byte first, then zeros.
    pub fn from_special(special_id: u8) -> (r: UniqueId)
        ensures
            r.bytes() == seq![special_id].add(Seq::new(15, |i: int| 0u8)),
    {
        let mut unique_id = [0u8; 16];
        unique_id[0] = special_id;
        let r = UniqueId(unique_id);
        assert(r.bytes() =~= seq![special_id].add(Seq::new(15, |i: int| 0u8)));
        r
    }

    /// Lowercase hex of the id.
    pub fn hex(&self) -> (r: [u8; 32])
        ensures
            r@ == hex_of(self.bytes()),
    {
        let mut hex = [0x30u8; 32];
        format_hex(&self.0, &mut hex);
        proof {
            assert(hex@.subrange(0, 32) =~= hex@);
        }
        hex
    }

    /// Parse hex (of an even length up to 32) into an id, zero-filled on
    /// the right.
    pub fn try_from_hex(hex: &[u8]) -> (r: Result<UniqueId, ()>)
        requires
            parsable_hex(hex@),
        ensures
            r is Ok <==> hex@.len() % 2 == 0 && hex@.len() <= 32,
            r matches Ok(id) ==> forall|i: int|
                0 <= i < 16 ==> #[trigger] id.bytes()[i] == if i < hex@.len() / 2 {
                    pair_value(hex@[2 * i], hex@[2 * i + 1])
                } else {
                    0
                },
    {
        if hex.len() % 2 == 1 {
            return Err(());
        }
        if hex.len() > 32 {
            return Err(());
        }
        let mut bytes = [0u8; 16];
        let n = hex.len() / 2;
        let mut i: usize = 0;
        while i < n
            invariant
                n == hex@.len() / 2,
                n <= 16,
                i <= n,
                hex@.len() == 2 * n,
                parsable_hex(hex@),
                forall|j: int| 0 <= j < i ==> #[trigger] bytes@[j] == pair_value(hex@[2 * j], hex@[2 * j + 1]),
                forall|j: int| i <= j < 16 ==> #[trigger] bytes@[j] == 0,
            decreases n - i,
        {
            assert(valid_pair(hex@[2 * (i as int)], hex@[2 * (i as int) + 1]));
            let v = parse_pair(hex[2 * i], hex[2 * i + 1]);
            bytes[i] = v;
            i = i + 1;
        }
        Ok(UniqueId(bytes))
    }
}

fn digit_value_exec(c: u8) -> (r: u8)
    requires
        is_hex_digit(c),
    ensures
        r == digit_value(c),
{
    if 0x30 <= c && c <= 0x39 {
        c - 0x30
    } else if 0x41 <= c && c <= 0x46 {
        c - 0x41 + 10
    } else {
        c - 0x61 + 10
    }
}

fn parse_pair(a: u8, b: u8) -> (r: u8)
    requires
        valid_pair(a, b),
    ensures
        r == pair_value(a, b),
{
    if a == 0x2b {
        digit_value_exec(b)
    } else {
        digit_value_exec(a) * 16 + digit_value_exec(b)
    }
}

fn hex_lower_exec(n: u8) -> (r: u8)
    requires
        n < 16,
    ensures
        r == hex_lower(n),
{
    if n < 10 {
        0x30 + n
    } else {
        0x57 + n
    }
}

/// Write the lowercase hex of `data` to the front of `buffer`.
pub fn format_hex(data: &[u8], buffer: &mut [u8])
    requires
        2 * data@.len() <= old(buffer)@.len(),
    ensures
        final(buffer)@.len() == old(buffer)@.len(),
        final(buffer)@.subrange(0, 2 * data@.len() as int) == hex_of(data@),
        final(buffer)@.subrange(2 * data@.len() as int, final(buffer)@.len() as int) == old(buffer)@.subrange(
            2 * data@.len() as int,
            old(buffer)@.len() as int,
        ),
{
    let ghost orig = buffer@;
    let total = buffer.len();
    let mut i: usize = 0;
    while i < data.len()
        invariant
            i <= data@.len(),
            orig.len() == total,
            2 * data@.len() <= orig.len(),
            buffer@.len() == orig.len(),
            forall|j: int| 0 <= j < 2 * i ==> #[trigger] buffer@[j] == hex_of(data@)[j],
            forall|j: int| 2 * i <= j < orig.len() ==> #[trigger] buffer@[j] == orig[j],
        decreases data@.len() - i,
    {
        let byte = data[i];
        buffer[2 * i] = hex_lower_exec(byte / 16);
        buffer[2 * i + 1] = hex_lower_exec(byte % 16);
        proof {
            assert(hex_of(data@)[2 * i as int] == hex_lower(data@[i as int] / 16));
            assert(hex_of(data@)[2 * i + 1] == hex_lower(data@[i as int] % 16));
        }
        i = i + 1;
    }
    assert(buffer@.subrange(0, 2 * data@.len() as int) =~= hex_of(data@));
    assert(buffer@.subrange(2 * data@.len() as int, buffer@.len() as int) =~= orig.subrange(
        2 * data@.len() as int,
        orig.len() as int,
    ));
}

/// Hex round trip: the hex form of an id parses back to the id.
pub proof fn lemma_hex_roundtrip(id: UniqueId)
    ensures
        parsable_hex(hex_of(id.bytes())),
        hex_of(id.bytes()).len() == 32,
        forall|i: int|
            0 <= i < 16 ==> pair_value(#[trigger] hex_of(id.bytes())[2 * i], hex_of(id.bytes())[2 * i + 1]) == id.bytes()[i],
{
    let h = hex_of(id.bytes());
    assert forall|i: int| 0 <= i < 16 implies valid_pair(#[trigger] h[2 * i], h[2 * i + 1]) && pair_value(
        h[2 * i],
        h[2 * i + 1],
    ) == id.bytes()[i] by {
        let b = id.bytes()[i];
        assert((2 * i) / 2 == i);
        assert((2 * i + 1) / 2 == i);
        assert(h[2 * i] == hex_lower(b / 16));
        assert(h[2 * i + 1] == hex_lower(b % 16));
        assert(b == (b / 16) * 16 + b % 16);
    }
}

/// Opaque key handle.
#[derive(Clone, Copy, Debug, PartialEq, Eq)]
pub struct ObjectHandle {
    pub object_id: UniqueId,
}

/// Where an object is stored.
#[derive(Clone, Copy, Debug, PartialEq, Eq, Structural)]
pub enum StorageLocation {
    Volatile,
    Internal,
    External,
}

/// Key attributes.
#[derive(Clone, Copy, Debug, PartialEq, Eq, Structural)]
pub struct KeyAttributes {
    /// never return naked private key
    sensitive: bool,
    /// do not even return wrapped private key
    extractable: bool,
    /// do not save to disk
    persistent: bool,
}

impl KeyAttributes {
    pub closed spec fn flags(&self) -> (bool, bool, bool) {
        (self.sensitive, self.extractable, self.persistent)
    }

    /// Sensitive, not extractable, not persistent.
    pub fn new() -> (r: KeyAttributes)
        ensures
            r.flags() == (true, false, false),
    {
        KeyAttributes { sensitive: true, extractable: false, persistent: false }
    }
}

/// Attributes of a public key.
#[derive(Clone, Copy, Debug, PartialEq, Eq, Structural)]
pub struct PublicKeyAttributes {
    sensitive: bool,
    extractable: bool,
    persistent: bool,
}

/// Attributes of a private key.
#[derive(Clone, Copy, Debug, PartialEq, Eq, Structural)]
pub struct PrivateKeyAttributes {
    sensitive: bool,
    extractable: bool,
    persistent: bool,
}

/// Storage attributes of an object.
#[derive(Clone, Copy, Debug, PartialEq, Eq, Structural)]
pub struct StorageAttributes {
    pub persistence: StorageLocation,
}

impl StorageAttributes {
    /// Volatile storage.
    pub fn new() -> (r: StorageAttributes)
        ensures
            r.persistence == StorageLocation::Volatile,
    {
        StorageAttributes { persistence: StorageLocation::Volatile }
    }

    pub fn set_persistence(self, persistence: StorageLocation) -> (r: StorageAttributes)
        ensures
            r.persistence == persistence,
    {
        let mut s = self;
        s.persistence = persistence;
        s
    }
}

/// Kinds of stored keys.
#[derive(Clone, Copy, Debug, PartialEq, Eq, Structural)]
pub enum KeyKind {
    Ed25519,
    Entropy32,
    P256,
    SharedSecret32,
    SymmetricKey16,
    SymmetricKey32,
    Symmetric32Nonce12,
    Symmetric24,
    Symmetric20,
}

impl KeyKind {
    /// The storage code of a kind.
    pub open spec fn spec_code(&self) -> u8 {
        match self {
            KeyKind::Ed25519 => 1,
            KeyKind::Entropy32 => 2,
            KeyKind::P256 => 3,
            KeyKind::SharedSecret32 => 4,
            KeyKind::SymmetricKey16 => 5,
            KeyKind::SymmetricKey32 => 6,
            KeyKind::Symmetric32Nonce12 => 7,
            KeyKind::Symmetric24 => 8,
            KeyKind::Symmetric20 => 9,
        }
    }

    pub fn code(&self) -> (r: u8)
        ensures
            r == self.spec_code(),
    {
        match self {
            KeyKind::Ed25519 => 1,
            KeyKind::Entropy32 => 2,
            KeyKind::P256 => 3,
            KeyKind::SharedSecret32 => 4,
            KeyKind::SymmetricKey16 => 5,
            KeyKind::SymmetricKey32 => 6,
            KeyKind::Symmetric32Nonce12 => 7,
            KeyKind::Symmetric24 => 8,
            KeyKind::Symmetric20 => 9,
        }
    }

    /// Decode a stored kind: each code 1 to 9 gives back the kind that
    /// `code` stores under it; anything else is a decoding error.
    pub fn try_from(num: u8) -> (r: Result<KeyKind, Error>)
        ensures
            match r {
                Ok(k) => k.spec_code() == num,
                Err(e) => e == Error::CborError && (num == 0 || num > 9),
            },
            1 <= num <= 9 ==> r is Ok,
    {
        match num {
            1 => Ok(KeyKind::Ed25519),
            2 => Ok(KeyKind::Entropy32),
            3 => Ok(KeyKind::P256),
            4 => Ok(KeyKind::SharedSecret32),
            5 => Ok(KeyKind::SymmetricKey16),
            6 => Ok(KeyKind::SymmetricKey32),
            7 => Ok(KeyKind::Symmetric32Nonce12),
            8 => Ok(KeyKind::Symmetric24),
            9 => Ok(KeyKind::Symmetric20),
            _ => Err(Error::CborError),
        }
    }
}

/// The storage codes of the key kinds.
pub proof fn lemma_key_kind_codes(x: KeyKind)
    ensures
        (x == KeyKind::Ed25519) <==> x.spec_code() == 1,
        (x == KeyKind::Entropy32) <==> x.spec_code() == 2,
        (x == KeyKind::P256) <==> x.spec_code() == 3,
        (x == KeyKind::SharedSecret32) <==> x.spec_code() == 4,
        (x == KeyKind::SymmetricKey16) <==> x.spec_code() == 5,
        (x == KeyKind::SymmetricKey32) <==> x.spec_code() == 6,
        (x == KeyKind::Symmetric32Nonce12) <==> x.spec_code() == 7,
        (x == KeyKind::Symmetric24) <==> x.spec_code() == 8,
        (x == KeyKind::Symmetric20) <==> x.spec_code() == 9,
{
}


/// Public or secret key.
#[derive(Clone, Copy, Debug, PartialEq, Eq, Structural)]
pub enum KeyType {
    Public,
    Secret,
}

/// Kinds of certificates.
#[derive(Clone, Copy, Debug, PartialEq, Eq, Structural)]
pub enum CertificateType {
    PublicKey,
    Attribute,
}

/// Kinds of stored objects.
#[derive(Clone, Copy, Debug, PartialEq, Eq, Structural)]
pub enum ObjectType {
    Certificate(CertificateType),
    Counter,
    Data,
    Key(KeyType),
}

/// Cryptographic mechanisms.
#[derive(Clone, Copy, Debug, PartialEq, Eq, Structural)]
pub enum Mechanism {
    Aes256Cbc,
    Chacha8Poly1305,
    Ed25519,
    HmacSha256,
    P256,
    P256Prehashed,
    Sha256,
    Tdes,
    Totp,
    Trng,
    X25519,
}

/// Key serialization formats.
#[derive(Clone, Copy, Debug, PartialEq, Eq, Structural)]
pub enum KeySerialization {
    Cose,
    EcdhEsHkdf256,
    Raw,
    Sec1,
}

/// Signature serialization formats.
#[derive(Clone, Copy, Debug, PartialEq, Eq, Structural)]
pub enum SignatureSerialization {
    Asn1Der,
    Raw,
}

/// Visual patterns of the user interface.
#[derive(Clone, Copy, Debug, PartialEq, Eq, Structural)]
pub enum VisualPattern {
    BlinkingGreen,
    StaticBlue,
}

/// Consent levels.
#[derive(Clone, Copy, Debug, PartialEq, Eq, Structural)]
pub enum Level {
    /// Normal user presence check
    Normal,
    /// Strong user intent check
    Strong,
}

/// Urgency of a consent request.
#[derive(Clone, Copy, Debug, PartialEq, Eq, Structural)]
pub enum Urgency {
    InterruptOthers,
    FailIfOthers,
}

/// Identifier, nonce and tag of an AEAD-protected object.
#[derive(Clone, Copy, Debug, PartialEq, Eq)]
pub struct AeadUniqueId {
    unique_id: [u8; 16],
    nonce: [u8; 12],
    tag: [u8; 16],
}

/// Short data made of lowercase letters only.
pub struct Letters(pub Vec<u8>);

impl Letters {
    /// Accept the bytes if they are all `a`..`z`.
    pub fn try_from(bytes: Vec<u8>) -> (r: Result<Letters, Error>)
        ensures
            r is Ok <==> forall|i: int| 0 <= i < bytes@.len() ==> 0x61 <= #[trigger] bytes@[i] <= 0x7a,
            r matches Ok(l) ==> l.0@ == bytes@,
            r is Err ==> r == Err::<Letters, Error>(Error::NotJustLetters),
    {
        let mut i: usize = 0;
        while i < bytes.len()
            invariant
                i <= bytes@.len(),
                forall|j: int| 0 <= j < i ==> 0x61 <= #[trigger] bytes@[j] <= 0x7a,
            decreases bytes@.len() - i,
        {
            if bytes[i] < 0x61 || bytes[i] > 0x7a {
                return Err(Error::NotJustLetters);
            }
            i = i + 1;
        }
        Ok(Letters(bytes))
    }
}

} // verus!
