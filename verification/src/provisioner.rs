//! Factory provisioning over APDUs: files are written through two buffers
//! (a file name and its contents), attestation keys are generated from a
//! seed, and certificates and public keys are stored next to them. The
//! caller performs the storage, the random bytes and the device actions
//! that a step names.

use vstd::prelude::*;
use crate::status::Status;
use crate::piv_app::{Instruction, spec_instruction, decode_instruction};
use p256::elliptic_curve::ops::Reduce;
use p256::elliptic_curve::sec1::ToSec1Point;

verus! {

/// Vendor instructions of the provisioner.
#[derive(Clone, Copy, Debug, PartialEq, Eq, Structural)]
pub enum Instructions {
    WriteFile,
    BootToBootrom,
    ReformatFilesystem,
    GetUuid,
    GenerateP256Key,
    GenerateEd255Key,
    GenerateX255Key,
    SaveP256AttestationCertificate,
    SaveEd255AttestationCertificate,
    SaveX255AttestationCertificate,
    SaveT1IntermediatePublicKey,
}

impl Instructions {
    pub open spec fn spec_from(ins: u8) -> Option<Instructions> {
        if ins == 0xbf {
            Some(Instructions::WriteFile)
        } else if ins == 0x51 {
            Some(Instructions::BootToBootrom)
        } else if ins == 0xbd {
            Some(Instructions::ReformatFilesystem)
        } else if ins == 0x62 {
            Some(Instructions::GetUuid)
        } else if ins == 0xbc {
            Some(Instructions::GenerateP256Key)
        } else if ins == 0xbb {
            Some(Instructions::GenerateEd255Key)
        } else if ins == 0xb7 {
            Some(Instructions::GenerateX255Key)
        } else if ins == 0xba {
            Some(Instructions::SaveP256AttestationCertificate)
        } else if ins == 0xb9 {
            Some(Instructions::SaveEd255AttestationCertificate)
        } else if ins == 0xb6 {
            Some(Instructions::SaveX255AttestationCertificate)
        } else if ins == 0xb5 {
            Some(Instructions::SaveT1IntermediatePublicKey)
        } else {
            None
        }
    }

    pub fn try_from(ins: u8) -> (r: Result<Instructions, ()>)
        ensures
            r == (match Instructions::spec_from(ins) {
                Some(i) => Ok::<Instructions, ()>(i),
                None => Err::<Instructions, ()>(()),
            }),
    {
        match ins {
            0xbf => Ok(Instructions::WriteFile),
            0x51 => Ok(Instructions::BootToBootrom),
            0xbd => Ok(Instructions::ReformatFilesystem),
            0x62 => Ok(Instructions::GetUuid),
            0xbc => Ok(Instructions::GenerateP256Key),
            0xbb => Ok(Instructions::GenerateEd255Key),
            0xb7 => Ok(Instructions::GenerateX255Key),
            0xba => Ok(Instructions::SaveP256AttestationCertificate),
            0xb9 => Ok(Instructions::SaveEd255AttestationCertificate),
            0xb6 => Ok(Instructions::SaveX255AttestationCertificate),
            0xb5 => Ok(Instructions::SaveT1IntermediatePublicKey),
            _ => Err(()),
        }
    }
}

/// The provisioner's instruction bytes: each vendor instruction is decoded
/// from exactly one INS byte, and no other byte decodes to it.
pub proof fn lemma_instruction_codes(ins: u8)
    ensures
        Instructions::spec_from(ins) == Some(Instructions::WriteFile) <==> ins == 0xbf,
        Instructions::spec_from(ins) == Some(Instructions::BootToBootrom) <==> ins == 0x51,
        Instructions::spec_from(ins) == Some(Instructions::ReformatFilesystem) <==> ins == 0xbd,
        Instructions::spec_from(ins) == Some(Instructions::GetUuid) <==> ins == 0x62,
        Instructions::spec_from(ins) == Some(Instructions::GenerateP256Key) <==> ins == 0xbc,
        Instructions::spec_from(ins) == Some(Instructions::GenerateEd255Key) <==> ins == 0xbb,
        Instructions::spec_from(ins) == Some(Instructions::GenerateX255Key) <==> ins == 0xb7,
        Instructions::spec_from(ins) == Some(Instructions::SaveP256AttestationCertificate) <==> ins == 0xba,
        Instructions::spec_from(ins) == Some(Instructions::SaveEd255AttestationCertificate) <==> ins == 0xb9,
        Instructions::spec_from(ins) == Some(Instructions::SaveX255AttestationCertificate) <==> ins == 0xb6,
        Instructions::spec_from(ins) == Some(Instructions::SaveT1IntermediatePublicKey) <==> ins == 0xb5,
{
}

/// Flags of a stored secret key: local and sensitive.
pub const KEY_FLAGS_LOCAL_SENSITIVE: u16 = 0x0003;
/// Kind code of an Ed25519 key.
pub const KEY_KIND_ED255: u16 = 4;
/// Kind code of a P-256 key.
pub const KEY_KIND_P256: u16 = 5;
/// Kind code of an X25519 key.
pub const KEY_KIND_X255: u16 = 6;

/// Big-endian bytes of a 16-bit number.
pub open spec fn be16(x: u16) -> Seq<u8> {
    seq![(x / 256) as u8, (x % 256) as u8]
}

fn be16_bytes(x: u16) -> (r: [u8; 2])
    ensures
        r@ == be16(x),
{
    let r = [(x / 256) as u8, (x % 256) as u8];
    assert(r@ =~= be16(x));
    r
}

/// Big-endian bytes of a 32-bit number.
pub open spec fn be32(x: u32) -> Seq<u8> {
    seq![(x / 0x100_0000) as u8, ((x / 0x1_0000) % 256) as u8, ((x / 256) % 256) as u8, (x % 256) as u8]
}

/// The device's identifier as the provisioner reports it: the two
/// device-id words of the chip, each big-endian, then eight zero bytes.
pub open spec fn device_uuid(device_id: Seq<u32>) -> Seq<u8> {
    be32(device_id[0]) + be32(device_id[1]) + Seq::new(8, |i: int| 0u8)
}

/// Builds the 16-byte identifier from the chip's two device-id words.
pub fn uuid(device_id: &[u32; 2]) -> (r: [u8; 16])
    ensures
        r@ == device_uuid(device_id@),
{
    let mut r: [u8; 16] = [0u8; 16];
    let mut w: usize = 0;
    while w < 2
        invariant
            w <= 2,
            forall|k: int| 0 <= k < 4 * w ==> r@[k] == #[trigger] device_uuid(device_id@)[k],
            forall|k: int| 8 <= k < 16 ==> r@[k] == 0u8,
        decreases 2 - w,
    {
        let x: u32 = device_id[w];
        r[4 * w] = (x / 0x100_0000) as u8;
        r[4 * w + 1] = ((x / 0x1_0000) % 256) as u8;
        r[4 * w + 2] = ((x / 256) % 256) as u8;
        r[4 * w + 3] = (x % 256) as u8;
        w = w + 1;
    }
    assert(r@ =~= device_uuid(device_id@));
    r
}

/// A serialized key: flags and kind (big-endian), then the key material.
pub open spec fn key_record(flags: u16, kind: u16, material: Seq<u8>) -> Seq<u8> {
    be16(flags) + be16(kind) + material
}

/// A secret key as the key store keeps it.
pub fn serialize_secret_key(kind_code: u16, material: &[u8; 32]) -> (r: Vec<u8>)
    ensures
        r@ == key_record(KEY_FLAGS_LOCAL_SENSITIVE, kind_code, material@),
        r@.len() == 36,
{
    let mut bytes: Vec<u8> = Vec::new();
    bytes.extend_from_slice(be16_bytes(KEY_FLAGS_LOCAL_SENSITIVE).as_slice());
    bytes.extend_from_slice(be16_bytes(kind_code).as_slice());
    bytes.extend_from_slice(material.as_slice());
    assert(bytes@ =~= key_record(KEY_FLAGS_LOCAL_SENSITIVE, kind_code, material@));
    bytes
}

/// The T1 intermediate public key (Ed25519, not sensitive), which must be
/// 32 bytes.
pub fn serialize_public_key(public_key: &[u8]) -> (r: Result<Vec<u8>, Status>)
    ensures
        public_key@.len() != 32 ==> r == Err::<Vec<u8>, Status>(Status::IncorrectDataParameter),
        public_key@.len() == 32 ==> (r matches Ok(v) && v@ == key_record(0, KEY_KIND_ED255, public_key@)),
{
    if public_key.len() != 32 {
        return Err(Status::IncorrectDataParameter);
    }
    let mut bytes: Vec<u8> = Vec::new();
    bytes.extend_from_slice(be16_bytes(0x0000).as_slice());
    bytes.extend_from_slice(be16_bytes(KEY_KIND_ED255).as_slice());
    bytes.extend_from_slice(public_key);
    assert(bytes@ =~= key_record(0, KEY_KIND_ED255, public_key@));
    Ok(bytes)
}

/// The P-256 public key of the secret scalar that a 32-byte seed reduces
/// to, as its SEC1 uncompressed encoding without the leading tag byte: x and
/// y (64 bytes), or nothing for a seed that reduces to zero (whose point is
/// the identity, encoded as the single byte `00`).
pub uninterp spec fn p256_public_of_seed(seed: Seq<u8>) -> Seq<u8>;

/// The Ed25519 public key of a 32-byte seed.
pub uninterp spec fn ed255_public_of_seed(seed: Seq<u8>) -> Seq<u8>;

/// The X25519 public key of a 32-byte seed.
pub uninterp spec fn x255_public_of_seed(seed: Seq<u8>) -> Seq<u8>;

/// `p256`: the seed taken as a big-endian number reduced modulo the group
/// order, times the generator, as an uncompressed SEC1 point without its
/// tag byte (`04`; the identity's one-byte encoding leaves nothing).
#[verifier::external_body]
fn p256_public_key(seed: &[u8; 32]) -> (r: Vec<u8>)
    ensures
        r@ == p256_public_of_seed(seed@),
{
    let bytes = p256::FieldBytes::from(*seed);
    let scalar = <p256::Scalar as Reduce<p256::FieldBytes>>::reduce(&bytes);
    let affine = (p256::ProjectivePoint::GENERATOR * scalar).to_affine();
    let encoded = affine.to_sec1_point(false);
    encoded.as_bytes()[1..].to_vec()
}

/// `salty::Keypair::from(&seed).public`: the Ed25519 public key of a seed.
#[verifier::external_body]
fn ed255_public_key(seed: &[u8; 32]) -> (r: [u8; 32])
    ensures
        r@ == ed255_public_of_seed(seed@),
{
    let keypair = salty::Keypair::from(seed);
    *keypair.public.as_bytes()
}

/// `salty::agreement::SecretKey::from_seed(&seed).public()`: the X25519
/// public key of a seed.
#[verifier::external_body]
fn x255_public_key(seed: &[u8; 32]) -> (r: [u8; 32])
    ensures
        r@ == x255_public_of_seed(seed@),
{
    let sk = salty::agreement::SecretKey::from_seed(seed);
    sk.public().to_bytes()
}

/// The three kinds of attestation keys.
#[derive(Clone, Copy, Debug, PartialEq, Eq, Structural)]
pub enum AttestationKind {
    P256,
    Ed255,
    X255,
}

impl AttestationKind {
    pub open spec fn kind_code(self) -> u16 {
        match self {
            AttestationKind::P256 => KEY_KIND_P256,
            AttestationKind::Ed255 => KEY_KIND_ED255,
            AttestationKind::X255 => KEY_KIND_X255,
        }
    }

    pub open spec fn public_of_seed(self, seed: Seq<u8>) -> Seq<u8> {
        match self {
            AttestationKind::P256 => p256_public_of_seed(seed),
            AttestationKind::Ed255 => ed255_public_of_seed(seed),
            AttestationKind::X255 => x255_public_of_seed(seed),
        }
    }

    /// The number that ends the names of its files: `01`, `02`, `03`.
    pub open spec fn file_suffix(self) -> Seq<u8> {
        match self {
            AttestationKind::P256 => seq![0x30u8, 0x31],
            AttestationKind::Ed255 => seq![0x30u8, 0x32],
            AttestationKind::X255 => seq![0x30u8, 0x33],
        }
    }

    fn suffix(self) -> (r: [u8; 2])
        ensures
            r@ == self.file_suffix(),
    {
        let r = match self {
            AttestationKind::P256 => [0x30u8, 0x31],
            AttestationKind::Ed255 => [0x30u8, 0x32],
            AttestationKind::X255 => [0x30u8, 0x33],
        };
        assert(r@ =~= self.file_suffix());
        r
    }

    /// "/attn/sec/0N", where the secret key is stored.
    pub open spec fn secret_path(self) -> Seq<u8> {
        seq![0x2fu8, 0x61, 0x74, 0x74, 0x6e, 0x2f, 0x73, 0x65, 0x63, 0x2f] + self.file_suffix()
    }

    /// "/attn/x5c/0N", where the certificate is stored.
    pub open spec fn certificate_path(self) -> Seq<u8> {
        seq![0x2fu8, 0x61, 0x74, 0x74, 0x6e, 0x2f, 0x78, 0x35, 0x63, 0x2f] + self.file_suffix()
    }

    pub fn secret_file(self) -> (r: Vec<u8>)
        ensures
            r@ == self.secret_path(),
    {
        let mut v: Vec<u8> = vec![0x2f, 0x61, 0x74, 0x74, 0x6e, 0x2f, 0x73, 0x65, 0x63, 0x2f];
        v.extend_from_slice(self.suffix().as_slice());
        assert(v@ =~= self.secret_path());
        v
    }

    pub fn certificate_file(self) -> (r: Vec<u8>)
        ensures
            r@ == self.certificate_path(),
    {
        let mut v: Vec<u8> = vec![0x2f, 0x61, 0x74, 0x74, 0x6e, 0x2f, 0x78, 0x35, 0x63, 0x2f];
        v.extend_from_slice(self.suffix().as_slice());
        assert(v@ =~= self.certificate_path());
        v
    }
}

/// "/attn/pub/00", where the T1 intermediate public key is stored.
pub open spec fn t1_public_path() -> Seq<u8> {
    seq![0x2fu8, 0x61, 0x74, 0x74, 0x6e, 0x2f, 0x70, 0x75, 0x62, 0x2f, 0x30, 0x30]
}

pub fn t1_public_file() -> (r: Vec<u8>)
    ensures
        r@ == t1_public_path(),
{
    let v: Vec<u8> = vec![0x2f, 0x61, 0x74, 0x74, 0x6e, 0x2f, 0x70, 0x75, 0x62, 0x2f, 0x30, 0x30];
    assert(v@ =~= t1_public_path());
    v
}

/// An attestation key made from a random seed: the secret key record to
/// store, and the public key to answer with.
pub fn generate_attestation_key(kind: AttestationKind, seed: &[u8; 32]) -> (r: (Vec<u8>, Vec<u8>))
    ensures
        r.0@ == key_record(KEY_FLAGS_LOCAL_SENSITIVE, kind.kind_code(), seed@),
        r.1@ == kind.public_of_seed(seed@),
{
    match kind {
        AttestationKind::P256 => {
            let record = serialize_secret_key(KEY_KIND_P256, seed);
            let public = p256_public_key(seed);
            (record, public)
        },
        AttestationKind::Ed255 => {
            let record = serialize_secret_key(KEY_KIND_ED255, seed);
            let public = ed255_public_key(seed);
            let mut v: Vec<u8> = Vec::new();
            v.extend_from_slice(public.as_slice());
            (record, v)
        },
        AttestationKind::X255 => {
            let record = serialize_secret_key(KEY_KIND_X255, seed);
            let public = x255_public_key(seed);
            let mut v: Vec<u8> = Vec::new();
            v.extend_from_slice(public.as_slice());
            (record, v)
        },
    }
}

/// Largest path of the file system, without its final NUL.
pub const PATH_MAX_SIZE: usize = 255;

/// The byte strings that make a file system path: at most 255 bytes after
/// dropping one final NUL, with no other NUL and only ASCII.
pub open spec fn path_accepts(bytes: Seq<u8>) -> bool {
    let b = if bytes.len() > 0 && bytes[bytes.len() - 1] == 0 {
        bytes.subrange(0, bytes.len() - 1)
    } else {
        bytes
    };
    &&& b.len() <= PATH_MAX_SIZE
    &&& forall|i: int| 0 <= i < b.len() ==> #[trigger] b[i] != 0 && b[i] < 128
}

/// `littlefs2_core::path::PathBuf::try_from(&[u8])`: succeeds exactly on
/// the byte strings that make a path.
#[verifier::external_body]
fn is_path(bytes: &[u8]) -> (r: bool)
    ensures
        r == path_accepts(bytes@),
{
    littlefs2_core::PathBuf::try_from(bytes).is_ok()
}

/// Which buffer WRITE BINARY fills.
#[derive(Clone, Copy, Debug, PartialEq, Eq, Structural)]
pub enum SelectedBuffer {
    Filename,
    File,
}

/// Capacity of the file name buffer.
pub const FILENAME_CAPACITY: usize = 128;
/// Capacity of the file contents buffer.
pub const FILE_CAPACITY: usize = 8192;

/// The provisioner's state.
pub struct Provisioner {
    selected_buffer: SelectedBuffer,
    buffer_filename: Vec<u8>,
    buffer_file_contents: Vec<u8>,
    is_passive: bool,
}

/// What the caller does next.
#[derive(Debug)]
pub enum Step<'a> {
    /// Nothing: answer `90 00`.
    Done,
    /// Format the file system; a failure answers "not enough memory".
    Reformat,
    /// Store `contents` at `path`; a failure answers "not enough memory".
    StoreFile { path: Vec<u8>, contents: Vec<u8> },
    /// Take 32 random bytes as a seed, make the key with
    /// `generate_attestation_key`, store its record at its secret path and
    /// answer with its public key.
    Generate(AttestationKind),
    /// If the secret key of this kind is stored, store the certificate at
    /// its path, else answer "incorrect data parameter".
    SaveCertificate(AttestationKind, &'a [u8]),
    /// Store this key record at the T1 public key path.
    StorePublicKey(Vec<u8>),
    /// Answer with the device's UUID.
    ReplyUuid,
    /// Erase the first flash page and reset into the boot ROM.
    BootToBootrom,
}

/// Where a certificate is saved, once it is known whether the secret key of
/// its kind is stored: at the kind's certificate path, or nowhere, refused
/// as an incorrect data parameter.
pub fn certificate_destination(kind: AttestationKind, secret_stored: bool) -> (r: Result<Vec<u8>, Status>)
    ensures
        secret_stored ==> (r matches Ok(path) && path@ == kind.certificate_path()),
        !secret_stored ==> r == Err::<Vec<u8>, Status>(Status::IncorrectDataParameter),
{
    if secret_stored {
        Ok(kind.certificate_file())
    } else {
        Err(Status::IncorrectDataParameter)
    }
}

/// Shortest certificate that is stored.
pub const MIN_CERTIFICATE_LENGTH: usize = 100;

impl Provisioner {
    pub closed spec fn wf(&self) -> bool {
        &&& self.buffer_filename@.len() <= FILENAME_CAPACITY
        &&& self.buffer_file_contents@.len() <= FILE_CAPACITY
    }

    pub closed spec fn selected(&self) -> SelectedBuffer {
        self.selected_buffer
    }

    pub closed spec fn filename(&self) -> Seq<u8> {
        self.buffer_filename@
    }

    pub closed spec fn contents(&self) -> Seq<u8> {
        self.buffer_file_contents@
    }

    pub closed spec fn passive(&self) -> bool {
        self.is_passive
    }

    pub fn new(is_passive: bool) -> (r: Provisioner)
        ensures
            r.wf(),
            r.selected() == SelectedBuffer::Filename,
            r.filename() == Seq::<u8>::empty(),
            r.contents() == Seq::<u8>::empty(),
            r.passive() == is_passive,
    {
        Provisioner {
            selected_buffer: SelectedBuffer::Filename,
            buffer_filename: Vec::new(),
            buffer_file_contents: Vec::new(),
            is_passive,
        }
    }

    /// Selecting the application empties both buffers; the answer is the UUID.
    pub fn select(&mut self)
        requires
            old(self).wf(),
        ensures
            final(self).wf(),
            final(self).filename() == Seq::<u8>::empty(),
            final(self).contents() == Seq::<u8>::empty(),
            final(self).selected() == old(self).selected(),
            final(self).passive() == old(self).passive(),
    {
        self.buffer_file_contents.clear();
        self.buffer_filename.clear();
    }

    /// SELECT of a buffer: `E1 01` the file name, `E1 02` the contents.
    pub fn do_select(&mut self, data: &[u8]) -> (r: Result<(), Status>)
        requires
            old(self).wf(),
        ensures
            final(self).wf(),
            final(self).filename() == old(self).filename(),
            final(self).contents() == old(self).contents(),
            final(self).passive() == old(self).passive(),
            data@.len() >= 2 && data@[0] == 0xe1 && data@[1] == 0x01 ==> r is Ok && final(self).selected() == SelectedBuffer::Filename,
            data@.len() >= 2 && data@[0] == 0xe1 && data@[1] == 0x02 ==> r is Ok && final(self).selected() == SelectedBuffer::File,
            !(data@.len() >= 2 && data@[0] == 0xe1 && (data@[1] == 0x01 || data@[1] == 0x02)) ==> r == Err::<(), Status>(
                Status::NotFound,
            ) && final(self).selected() == old(self).selected(),
    {
        if data.len() >= 2 && data[0] == 0xe1 && data[1] == 0x01 {
            self.selected_buffer = SelectedBuffer::Filename;
            Ok(())
        } else if data.len() >= 2 && data[0] == 0xe1 && data[1] == 0x02 {
            self.selected_buffer = SelectedBuffer::File;
            Ok(())
        } else {
            Err(Status::NotFound)
        }
    }

    /// Room for `n` more bytes in the selected buffer.
    pub open spec fn fits(&self, n: nat) -> bool {
        match self.selected() {
            SelectedBuffer::Filename => self.filename().len() + n <= FILENAME_CAPACITY,
            SelectedBuffer::File => self.contents().len() + n <= FILE_CAPACITY,
        }
    }

    /// Whether `n` more bytes fit in the selected buffer.
    pub fn can_write(&self, n: usize) -> (r: bool)
        requires
            self.wf(),
        ensures
            r == self.fits(n as nat),
    {
        match self.selected_buffer {
            SelectedBuffer::Filename => n <= FILENAME_CAPACITY - self.buffer_filename.len(),
            SelectedBuffer::File => n <= FILE_CAPACITY - self.buffer_file_contents.len(),
        }
    }

    /// Handle one command of the provisioner.
    pub fn handle<'a>(&mut self, ins: u8, data: &'a [u8]) -> (r: Result<Step<'a>, Status>)
        requires
            old(self).wf(),
            spec_instruction(ins) == Instruction::WriteBinary ==> old(self).fits(data@.len()),
        ensures
            final(self).wf(),
            final(self).passive() == old(self).passive(),
            match spec_instruction(ins) {
                Instruction::Select => final(self).filename() == old(self).filename()
                    && final(self).contents() == old(self).contents()
                    && (r is Ok <==> data@.len() >= 2 && data@[0] == 0xe1 && (data@[1] == 0x01 || data@[1] == 0x02))
                    && (r is Err ==> r == Err::<Step, Status>(Status::NotFound))
                    && (r is Ok ==> r matches Ok(Step::Done))
                    && (data@.len() >= 2 && data@[0] == 0xe1 && data@[1] == 0x01 ==> final(self).selected()
                        == SelectedBuffer::Filename)
                    && (data@.len() >= 2 && data@[0] == 0xe1 && data@[1] == 0x02 ==> final(self).selected()
                        == SelectedBuffer::File)
                    && (r is Err ==> final(self).selected() == old(self).selected()),
                Instruction::WriteBinary => {
                    &&& r matches Ok(Step::Done)
                    &&& final(self).selected() == old(self).selected()
                    &&& match old(self).selected() {
                        SelectedBuffer::Filename => final(self).filename() == old(self).filename() + data@
                            && final(self).contents() == old(self).contents(),
                        SelectedBuffer::File => final(self).contents() == old(self).contents() + data@
                            && final(self).filename() == old(self).filename(),
                    }
                },
                Instruction::Unknown(b) => final(self).selected() == old(self).selected() && match Instructions::spec_from(b) {
                    Some(Instructions::WriteFile) => if old(self).contents().len() == 0 || old(self).filename().len() == 0
                        || !path_accepts(old(self).filename()) {
                        &&& r == Err::<Step, Status>(Status::IncorrectDataParameter)
                        &&& final(self).filename() == old(self).filename()
                        &&& final(self).contents() == old(self).contents()
                    } else {
                        &&& r matches Ok(Step::StoreFile { path, contents }) && path@ == old(self).filename()
                            && contents@ == old(self).contents()
                        &&& final(self).filename() == Seq::<u8>::empty()
                        &&& final(self).contents() == Seq::<u8>::empty()
                    },
                    Some(i) => final(self).filename() == old(self).filename() && final(self).contents() == old(self).contents()
                        && match i {
                        Instructions::ReformatFilesystem => r matches Ok(Step::Reformat),
                        Instructions::GenerateP256Key => r matches Ok(Step::Generate(AttestationKind::P256)),
                        Instructions::GenerateEd255Key => r matches Ok(Step::Generate(AttestationKind::Ed255)),
                        Instructions::GenerateX255Key => r matches Ok(Step::Generate(AttestationKind::X255)),
                        Instructions::SaveP256AttestationCertificate => if data@.len() < MIN_CERTIFICATE_LENGTH {
                            r == Err::<Step, Status>(Status::IncorrectDataParameter)
                        } else {
                            r matches Ok(Step::SaveCertificate(AttestationKind::P256, d)) && d@ == data@
                        },
                        Instructions::SaveEd255AttestationCertificate => if data@.len() < MIN_CERTIFICATE_LENGTH {
                            r == Err::<Step, Status>(Status::IncorrectDataParameter)
                        } else {
                            r matches Ok(Step::SaveCertificate(AttestationKind::Ed255, d)) && d@ == data@
                        },
                        Instructions::SaveX255AttestationCertificate => if data@.len() < MIN_CERTIFICATE_LENGTH {
                            r == Err::<Step, Status>(Status::IncorrectDataParameter)
                        } else {
                            r matches Ok(Step::SaveCertificate(AttestationKind::X255, d)) && d@ == data@
                        },
                        Instructions::SaveT1IntermediatePublicKey => if data@.len() != 32 {
                            r == Err::<Step, Status>(Status::IncorrectDataParameter)
                        } else {
                            r matches Ok(Step::StorePublicKey(v)) && v@ == key_record(0, KEY_KIND_ED255, data@)
                        },
                        Instructions::GetUuid => r matches Ok(Step::ReplyUuid),
                        Instructions::BootToBootrom => r matches Ok(Step::BootToBootrom),
                        Instructions::WriteFile => true,
                    },
                    None => r == Err::<Step, Status>(Status::FunctionNotSupported) && final(self).filename() == old(
                        self,
                    ).filename() && final(self).contents() == old(self).contents(),
                },
                _ => r == Err::<Step, Status>(Status::FunctionNotSupported) && final(self).filename() == old(self).filename()
                    && final(self).contents() == old(self).contents() && final(self).selected() == old(self).selected(),
            },
    {
        match decode_instruction(ins) {
            Instruction::Select => {
                match self.do_select(data) {
                    Ok(()) => Ok(Step::Done),
                    Err(e) => Err(e),
                }
            },
            Instruction::WriteBinary => {
                match self.selected_buffer {
                    SelectedBuffer::Filename => self.buffer_filename.extend_from_slice(data),
                    SelectedBuffer::File => self.buffer_file_contents.extend_from_slice(data),
                }
                Ok(Step::Done)
            },
            Instruction::Unknown(b) => {
                match Instructions::try_from(b) {
                    Ok(instruction) => match instruction {
                        Instructions::ReformatFilesystem => Ok(Step::Reformat),
                        Instructions::WriteFile => {
                            if self.buffer_file_contents.len() == 0 || self.buffer_filename.len() == 0 {
                                return Err(Status::IncorrectDataParameter);
                            }
                            if !is_path(self.buffer_filename.as_slice()) {
                                return Err(Status::IncorrectDataParameter);
                            }
                            let mut path: Vec<u8> = Vec::new();
                            let mut contents: Vec<u8> = Vec::new();
                            std::mem::swap(&mut path, &mut self.buffer_filename);
                            std::mem::swap(&mut contents, &mut self.buffer_file_contents);
                            Ok(Step::StoreFile { path, contents })
                        },
                        Instructions::GenerateP256Key => Ok(Step::Generate(AttestationKind::P256)),
                        Instructions::GenerateEd255Key => Ok(Step::Generate(AttestationKind::Ed255)),
                        Instructions::GenerateX255Key => Ok(Step::Generate(AttestationKind::X255)),
                        Instructions::SaveP256AttestationCertificate => {
                            if data.len() < MIN_CERTIFICATE_LENGTH {
                                return Err(Status::IncorrectDataParameter);
                            }
                            Ok(Step::SaveCertificate(AttestationKind::P256, data))
                        },
                        Instructions::SaveEd255AttestationCertificate => {
                            if data.len() < MIN_CERTIFICATE_LENGTH {
                                return Err(Status::IncorrectDataParameter);
                            }
                            Ok(Step::SaveCertificate(AttestationKind::Ed255, data))
                        },
                        Instructions::SaveX255AttestationCertificate => {
                            if data.len() < MIN_CERTIFICATE_LENGTH {
                                return Err(Status::IncorrectDataParameter);
                            }
                            Ok(Step::SaveCertificate(AttestationKind::X255, data))
                        },
                        Instructions::SaveT1IntermediatePublicKey => {
                            match serialize_public_key(data) {
                                Ok(v) => Ok(Step::StorePublicKey(v)),
                                Err(e) => Err(e),
                            }
                        },
                        Instructions::GetUuid => Ok(Step::ReplyUuid),
                        Instructions::BootToBootrom => Ok(Step::BootToBootrom),
                    },
                    Err(_) => Err(Status::FunctionNotSupported),
                }
            },
            _ => Err(Status::FunctionNotSupported),
        }
    }
}

} // verus!
