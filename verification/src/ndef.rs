//! NFC Forum Type 4 Tag application serving an NDEF URL file: the capability
//! container, a reader-writable NDEF file that persists, and a transient
//! override URL that takes priority while it is published.

use vstd::prelude::*;
use crate::status::Status;
use vstd::string::StringSliceAdditionalSpecFns;
use vstd::string::StrSliceExecFns;

verus! {

/// Maximum size of the assembled NDEF data file (NLEN prefix + record).
pub const NDEF_FILE_MAX: usize = 1024;

/// URI identifier code that abbreviates `https://`.
pub const URI_PREFIX_HTTPS: u8 = 0x04;

/// Instruction bytes served by the tag.
pub const INS_SELECT: u8 = 0xA4;
pub const INS_READ_BINARY: u8 = 0xB0;
pub const INS_UPDATE_BINARY: u8 = 0xD6;

/// `https://` in ASCII.
pub open spec fn https_prefix() -> Seq<u8> {
    seq![0x68u8, 0x74, 0x74, 0x70, 0x73, 0x3a, 0x2f, 0x2f]
}

pub open spec fn be16_bytes(n: nat) -> Seq<u8> {
    seq![((n / 256) % 256) as u8, (n % 256) as u8]
}

pub open spec fn be32_bytes(n: nat) -> Seq<u8> {
    seq![((n / 0x100_0000) % 256) as u8, ((n / 0x1_0000) % 256) as u8, ((n / 256) % 256) as u8, (n % 256) as u8]
}

/// The NDEF file (NLEN + one URI record) for a URL given by its bytes:
/// short-form record (SR=1, one-byte payload length) when the payload fits
/// 255 bytes, long-form (SR=0, four-byte payload length) otherwise. None when
/// the URL does not start with `https://` or the file exceeds the maximum.
pub open spec fn spec_url_ndef_file(url: Seq<u8>) -> Option<Seq<u8>> {
    if url.len() < 8 || url.subrange(0, 8) != https_prefix() {
        None
    } else {
        let body = url.subrange(8, url.len() as int);
        let payload_len = 1 + body.len();
        if payload_len <= 255 {
            let record_len = 5 + body.len();
            if 2 + record_len > NDEF_FILE_MAX {
                None
            } else {
                Some(be16_bytes(record_len) + seq![0xD1u8, 0x01, payload_len as u8, 0x55, URI_PREFIX_HTTPS] + body)
            }
        } else {
            let record_len = 8 + body.len();
            if 2 + record_len > NDEF_FILE_MAX {
                None
            } else {
                Some(be16_bytes(record_len) + seq![0xC1u8, 0x01] + be32_bytes(payload_len) + seq![0x55u8, URI_PREFIX_HTTPS] + body)
            }
        }
    }
}

/// Bounds for serving a `ReadBinary` window: the offset clamped to the file,
/// the length clamped to what is available (all of it when `expected` is 0).
pub open spec fn spec_read_window(file_len: nat, offset: nat, expected: nat) -> (nat, nat) {
    let o = if offset < file_len { offset } else { file_len };
    let avail = (file_len - o) as nat;
    (o, if expected > 0 && expected < avail { expected } else { avail })
}

/// Bounds for serving a `ReadBinary`: clamp `offset` to `file_len` and the
/// length to what's available. A stale or over-large offset never underflows
/// or indexes out of bounds: the window always lies inside the file.
pub fn read_window(file_len: usize, offset: usize, expected: usize) -> (r: (usize, usize))
    ensures
        (r.0 as nat, r.1 as nat) == spec_read_window(file_len as nat, offset as nat, expected as nat),
        r.0 + r.1 <= file_len,
{
    let offset = if offset < file_len { offset } else { file_len };
    let avail = file_len - offset;
    let len = if expected > 0 && expected < avail { expected } else { avail };
    (offset, len)
}

/// A ReadBinary never serves more than Le asks for: the window starts at
/// the offset (or at the end of the file when the offset lies past it),
/// stays inside the file, and holds exactly Le bytes when that many are
/// left, else the rest of the file; Le = 0 asks for the whole rest.
pub proof fn lemma_read_window_honours_le(file_len: nat, offset: nat, expected: nat)
    ensures
        ({
            let (o, l) = spec_read_window(file_len, offset, expected);
            &&& (offset <= file_len ==> o == offset)
            &&& (offset > file_len ==> o == file_len)
            &&& o + l <= file_len
            &&& (expected == 0 ==> o + l == file_len)
            &&& (expected > 0 ==> l <= expected)
            &&& (expected > 0 && o + expected <= file_len ==> l == expected)
            &&& (expected > 0 && o + expected > file_len ==> o + l == file_len)
        }),
{
}

/// Copy `src` into `out` at position `at`.
fn write_at(out: &mut Vec<u8>, at: usize, src: &[u8])
    requires
        at + src@.len() <= old(out)@.len(),
    ensures
        final(out)@ == old(out)@.subrange(0, at as int) + src@ + old(out)@.subrange(
            at + src@.len(),
            old(out)@.len() as int,
        ),
{
    let ghost orig = out@;
    let total = out.len();
    let mut i: usize = 0;
    while i < src.len()
        invariant
            0 <= i <= src@.len(),
            at + src@.len() <= orig.len(),
            orig.len() == total,
            out@.len() == orig.len(),
            forall|j: int| 0 <= j < at ==> out@[j] == orig[j],
            forall|j: int| 0 <= j < i ==> out@[at + j] == src@[j],
            forall|j: int| at + i <= j < orig.len() ==> out@[j] == orig[j],
        decreases src@.len() - i,
    {
        out.set(at + i, src[i]);
        i = i + 1;
    }
    assert(out@ =~= orig.subrange(0, at as int) + src@ + orig.subrange(at + src@.len(), orig.len() as int));
}

/// Build a URI NDEF file (NLEN + record) into the front of `out`. Returns the
/// number of bytes written, or `None` (writing nothing) when the URL does not
/// start with `https://` or the assembled file exceeds the buffer.
pub fn build_url_ndef_file(url: &str, out: &mut Vec<u8>) -> (r: Option<usize>)
    requires
        old(out)@.len() == NDEF_FILE_MAX,
    ensures
        match spec_url_ndef_file(url.spec_bytes()) {
            Some(f) => {
                &&& r == Some(f.len() as usize)
                &&& final(out)@ == f + old(out)@.subrange(f.len() as int, NDEF_FILE_MAX as int)
            },
            None => r is None && final(out)@ == old(out)@,
        },
{
    let bytes = url.as_bytes_vec();
    let ghost ub = url.spec_bytes();
    if bytes.len() < 8 {
        return None;
    }
    let prefix: [u8; 8] = [0x68, 0x74, 0x74, 0x70, 0x73, 0x3a, 0x2f, 0x2f];
    assert(prefix@ =~= https_prefix());
    let mut k: usize = 0;
    while k < 8
        invariant
            0 <= k <= 8,
            bytes@ == ub,
            ub == url.spec_bytes(),
            bytes@.len() >= 8,
            prefix@ == https_prefix(),
            forall|j: int| 0 <= j < k ==> bytes@[j] == https_prefix()[j],
        decreases 8 - k,
    {
        if bytes[k] != prefix[k] {
            assert(ub.subrange(0, 8)[k as int] != https_prefix()[k as int]);
            assert(ub.subrange(0, 8) != https_prefix());
            return None;
        }
        k = k + 1;
    }
    assert(ub.subrange(0, 8) =~= https_prefix());
    let blen = bytes.len() - 8;
    let body = vstd::slice::slice_subrange(bytes.as_slice(), 8, bytes.len());
    let payload_len = 1 + blen;

    let mut file: Vec<u8> = Vec::new();
    if payload_len <= 255 {
        // Short-form: 1 hdr + 1 typelen + 1 plen + 1 type + payload
        if blen > NDEF_FILE_MAX - 7 {
            return None;
        }
        let record_len = 5 + blen;
        file.push((record_len / 256) as u8);
        file.push((record_len % 256) as u8);
        file.push(0xD1); // MB=1 ME=1 SR=1 TNF=Well-known
        file.push(0x01);
        file.push(payload_len as u8);
        file.push(0x55); // 'U'
        file.push(URI_PREFIX_HTTPS);
        file.extend_from_slice(body);
        assert(file@ =~= be16_bytes(record_len as nat) + seq![0xD1u8, 0x01, payload_len as u8, 0x55, URI_PREFIX_HTTPS]
            + ub.subrange(8, ub.len() as int));
    } else {
        // Long-form: 1 hdr + 1 typelen + 4 plen + 1 type + payload
        if blen > NDEF_FILE_MAX - 10 {
            return None;
        }
        let record_len = 8 + blen;
        file.push((record_len / 256) as u8);
        file.push((record_len % 256) as u8);
        file.push(0xC1); // MB=1 ME=1 SR=0 TNF=Well-known
        file.push(0x01);
        file.push(((payload_len / 0x100_0000) % 256) as u8);
        file.push(((payload_len / 0x1_0000) % 256) as u8);
        file.push(((payload_len / 256) % 256) as u8);
        file.push((payload_len % 256) as u8);
        file.push(0x55); // 'U'
        file.push(URI_PREFIX_HTTPS);
        file.extend_from_slice(body);
        assert(file@ =~= be16_bytes(record_len as nat) + seq![0xC1u8, 0x01] + be32_bytes(payload_len as nat)
            + seq![0x55u8, URI_PREFIX_HTTPS] + ub.subrange(8, ub.len() as int));
    }
    let n = file.len();
    write_at(out, 0, file.as_slice());
    assert(old(out)@.subrange(0, 0) + file@ =~= file@);
    Some(n)
}

/// Single-slot override mailbox: a URL that the NDEF reader serves instead
/// of the persisted or default file until it is cleared. Its length is zero
/// while nothing is published, so a half-written file is never visible.
pub struct OverrideSlot {
    buf: Vec<u8>,
    len: usize,
}

impl OverrideSlot {
    pub closed spec fn wf(&self) -> bool {
        &&& self.buf@.len() == NDEF_FILE_MAX
        &&& self.len <= NDEF_FILE_MAX
    }

    /// The published NDEF file, if any.
    pub closed spec fn published(&self) -> Option<Seq<u8>> {
        if self.len > 0 {
            Some(self.buf@.subrange(0, self.len as int))
        } else {
            None
        }
    }

    /// An empty mailbox.
    pub fn new() -> (r: OverrideSlot)
        ensures
            r.wf(),
            r.published() is None,
    {
        OverrideSlot { buf: vec![0u8; NDEF_FILE_MAX], len: 0 }
    }

    /// The published file, copied out.
    pub fn published_file(&self) -> (r: Option<Vec<u8>>)
        requires
            self.wf(),
        ensures
            match self.published() {
                Some(f) => r matches Some(v) && v@ == f,
                None => r is None,
            },
    {
        if self.len > 0 {
            Some(vstd::slice::slice_to_vec(vstd::slice::slice_subrange(self.buf.as_slice(), 0, self.len)))
        } else {
            None
        }
    }
}

/// Publish an override URL. Returns `false` (and publishes nothing) if the
/// URL does not start with `https://` or the assembled NDEF file would not
/// fit the override buffer.
pub fn set_override_url(slot: &mut OverrideSlot, url: &str) -> (r: bool)
    requires
        old(slot).wf(),
    ensures
        final(slot).wf(),
        match spec_url_ndef_file(url.spec_bytes()) {
            Some(f) => r && final(slot).published() == Some(f),
            None => !r && final(slot).published() is None,
        },
{
    // hide while writing
    slot.len = 0;
    match build_url_ndef_file(url, &mut slot.buf) {
        Some(n) => {
            slot.len = n;
            proof {
                let f = spec_url_ndef_file(url.spec_bytes())->Some_0;
                assert(f.len() >= 7);
                assert(slot.buf@.subrange(0, n as int) =~= f);
            }
            true
        },
        None => false,
    }
}

/// Drop any pending override URL; the reader falls back to the persisted
/// file (or the static default).
pub fn clear_override(slot: &mut OverrideSlot)
    requires
        old(slot).wf(),
    ensures
        final(slot).wf(),
        final(slot).published() is None,
{
    slot.len = 0;
}

/// `true` while an override URL is currently published.
pub fn has_override(slot: &OverrideSlot) -> (r: bool)
    ensures
        r == slot.published() is Some,
{
    slot.len > 0
}

/// Which file a reader has selected.
#[derive(Clone, Copy, Debug, PartialEq, Eq, Structural)]
pub enum SelectedFile {
    Nothing,
    Cc,
    Ndef,
}

/// Capability container of the tag: T4T v2.0, MLe 255, MLc 64, and the NDEF
/// file control TLV (file E104, maximum size 1024, open read and write).
pub open spec fn capability_container() -> Seq<u8> {
    seq![0x00u8, 0x0f, 0x20, 0x00, 0xff, 0x00, 0x40, 0x04, 0x06, 0xe1, 0x04, 0x04, 0x00, 0x00, 0x00]
}

/// Default NDEF file: the URL "https://solokeys.com/".
pub open spec fn default_ndef() -> Seq<u8> {
    seq![
        0x00u8, 0x12, 0xd1, 0x01, 0x0e, 0x55, 0x04, 0x73, 0x6f, 0x6c, 0x6f, 0x6b, 0x65, 0x79, 0x73,
        0x2e, 0x63, 0x6f, 0x6d, 0x2f,
    ]
}

fn capability_container_bytes() -> (r: Vec<u8>)
    ensures
        r@ == capability_container(),
{
    let r = vec![0x00u8, 0x0f, 0x20, 0x00, 0xff, 0x00, 0x40, 0x04, 0x06, 0xe1, 0x04, 0x04, 0x00, 0x00, 0x00];
    assert(r@ =~= capability_container());
    r
}

fn default_ndef_bytes() -> (r: Vec<u8>)
    ensures
        r@ == default_ndef(),
{
    let r = vec![
        0x00u8, 0x12, 0xd1, 0x01, 0x0e, 0x55, 0x04, 0x73, 0x6f, 0x6c, 0x6f, 0x6b, 0x65, 0x79, 0x73,
        0x2e, 0x63, 0x6f, 0x6d, 0x2f,
    ];
    assert(r@ =~= default_ndef());
    r
}

/// Whether `data` starts with the two bytes `a b`.
pub open spec fn starts_with2(data: Seq<u8>, a: u8, b: u8) -> bool {
    data.len() >= 2 && data[0] == a && data[1] == b
}

fn starts_with2_exec(data: &[u8], a: u8, b: u8) -> (r: bool)
    ensures
        r == starts_with2(data@, a, b),
{
    data.len() >= 2 && data[0] == a && data[1] == b
}

/// The persisted file and its length after the lazy load: nothing changes
/// once loaded; otherwise a non-empty stored file of at most the maximum size
/// replaces the front of the persisted buffer.
pub open spec fn spec_after_load(persisted: Seq<u8>, plen: nat, loaded: bool, stored: Option<Seq<u8>>) -> (Seq<u8>, nat) {
    if loaded {
        (persisted, plen)
    } else {
        match stored {
            Some(d) => if d.len() > 0 && d.len() <= NDEF_FILE_MAX {
                (d + persisted.subrange(d.len() as int, persisted.len() as int), d.len())
            } else {
                (persisted, plen)
            },
            None => (persisted, plen),
        }
    }
}

/// Offset of a `ReadBinary` from P1 (bit 5 ignored) and P2.
pub open spec fn read_offset(p1: u8, p2: u8) -> nat {
    ((p1 as nat % 256) - (if (p1 / 16) % 2 == 1 { 16nat } else { 0 })) as nat * 256 + p2 as nat
}

/// Offset of an `UpdateBinary` from P1 (bit 8 ignored) and P2.
pub open spec fn update_offset(p1: u8, p2: u8) -> nat {
    (p1 as nat % 128) * 256 + p2 as nat
}

/// What a call returns: the reply data or an error status, and the file to
/// persist, if the call completed one.
pub struct CallOutcome {
    pub result: Result<Vec<u8>, Status>,
    pub persist: Option<Vec<u8>>,
}

/// The NDEF tag application.
pub struct App {
    /// The currently-served file (CC or assembled NDEF), built on SELECT.
    file: Vec<u8>,
    /// The reader-written NDEF file, loaded lazily and rewritten by UPDATE BINARY.
    persisted: Vec<u8>,
    persisted_len: usize,
    /// Lazy-load guard.
    loaded: bool,
    selected: SelectedFile,
}

impl App {
    pub closed spec fn wf(&self) -> bool {
        &&& self.persisted@.len() == NDEF_FILE_MAX
        &&& self.persisted_len <= NDEF_FILE_MAX
        &&& self.file@.len() <= NDEF_FILE_MAX
    }

    pub closed spec fn served(&self) -> Seq<u8> {
        self.file@
    }

    pub closed spec fn persisted_buf(&self) -> Seq<u8> {
        self.persisted@
    }

    pub closed spec fn persisted_len(&self) -> nat {
        self.persisted_len as nat
    }

    pub closed spec fn is_loaded(&self) -> bool {
        self.loaded
    }

    pub closed spec fn selected(&self) -> SelectedFile {
        self.selected
    }

    /// The persisted NDEF file, if a complete one was written.
    pub open spec fn persisted_file(&self) -> Seq<u8> {
        self.persisted_buf().subrange(0, self.persisted_len() as int)
    }

    /// Fresh application: nothing selected, nothing loaded.
    pub fn new() -> (r: App)
        ensures
            r.wf(),
            r.served() == Seq::<u8>::empty(),
            r.persisted_len() == 0,
            !r.is_loaded(),
            r.selected() == SelectedFile::Nothing,
    {
        App {
            file: Vec::new(),
            persisted: vec![0u8; NDEF_FILE_MAX],
            persisted_len: 0,
            loaded: false,
            selected: SelectedFile::Nothing,
        }
    }

    /// Whether the call would read the persisted file from flash first: a
    /// SELECT of the NDEF file while no override is published, or an UPDATE
    /// BINARY while the NDEF file is selected, as long as nothing was loaded.
    pub open spec fn spec_needs_load(&self, ins: u8, data: Seq<u8>, override_published: bool) -> bool {
        &&& !self.is_loaded()
        &&& ((ins == INS_SELECT && !starts_with2(data, 0xE1, 0x03) && starts_with2(data, 0xE1, 0x04)
            && !override_published) || (ins == INS_UPDATE_BINARY && self.selected() == SelectedFile::Ndef))
    }

    pub fn needs_load(&self, ins: u8, data: &[u8], slot: &OverrideSlot) -> (r: bool)
        ensures
            r == self.spec_needs_load(ins, data@, slot.published() is Some),
    {
        if self.loaded {
            return false;
        }
        if ins == INS_SELECT {
            !starts_with2_exec(data, 0xE1, 0x03) && starts_with2_exec(data, 0xE1, 0x04) && !has_override(slot)
        } else {
            ins == INS_UPDATE_BINARY && self.selected == SelectedFile::Ndef
        }
    }

    /// Load the persisted file once, from what the store held (`None` when
    /// the read failed).
    fn ensure_loaded(&mut self, stored: Option<&[u8]>)
        requires
            old(self).wf(),
        ensures
            final(self).wf(),
            final(self).is_loaded(),
            final(self).served() == old(self).served(),
            final(self).selected() == old(self).selected(),
            (final(self).persisted_buf(), final(self).persisted_len()) == spec_after_load(
                old(self).persisted_buf(),
                old(self).persisted_len(),
                old(self).is_loaded(),
                match stored { Some(d) => Some(d@), None => None },
            ),
    {
        if self.loaded {
            return;
        }
        self.loaded = true;
        if let Some(data) = stored {
            if data.len() > 0 && data.len() <= NDEF_FILE_MAX {
                write_at(&mut self.persisted, 0, data);
                self.persisted_len = data.len();
                assert(self.persisted@.subrange(0, 0) + data@ =~= data@);
            }
        }
    }

    /// The persisted file, copied out for storing.
    fn persisted_copy(&self) -> (r: Vec<u8>)
        requires
            self.wf(),
        ensures
            r@ == self.persisted_file(),
    {
        vstd::slice::slice_to_vec(vstd::slice::slice_subrange(self.persisted.as_slice(), 0, self.persisted_len))
    }

    /// Handle one command: SELECT of the capability container (E103) or of
    /// the NDEF file (E104), READ BINARY of the served file, UPDATE BINARY of
    /// the persisted NDEF file. The NDEF file served on SELECT is the
    /// published override if any, else the persisted file if one is
    /// complete, else the default.
    pub fn call(
        &mut self,
        ins: u8,
        p1: u8,
        p2: u8,
        expected: usize,
        payload: &[u8],
        slot: &OverrideSlot,
        stored: Option<&[u8]>,
    ) -> (out: CallOutcome)
        requires
            old(self).wf(),
            slot.wf(),
        ensures
            final(self).wf(),
            ({
                let loaded = spec_after_load(
                    old(self).persisted_buf(),
                    old(self).persisted_len(),
                    old(self).is_loaded(),
                    match stored { Some(d) => Some(d@), None => None },
                );
                if ins == INS_SELECT {
                    if starts_with2(payload@, 0xE1, 0x03) {
                        &&& out.result matches Ok(r) && r@.len() == 0
                        &&& out.persist is None
                        &&& final(self).selected() == SelectedFile::Cc
                        &&& final(self).served() == capability_container()
                        &&& final(self).persisted_buf() == old(self).persisted_buf()
                        &&& final(self).persisted_len() == old(self).persisted_len()
                        &&& final(self).is_loaded() == old(self).is_loaded()
                    } else if starts_with2(payload@, 0xE1, 0x04) {
                        &&& out.result matches Ok(r) && r@.len() == 0
                        &&& out.persist is None
                        &&& final(self).selected() == SelectedFile::Ndef
                        &&& match slot.published() {
                            Some(f) => {
                                &&& final(self).served() == f
                                &&& final(self).persisted_buf() == old(self).persisted_buf()
                                &&& final(self).persisted_len() == old(self).persisted_len()
                                &&& final(self).is_loaded() == old(self).is_loaded()
                            },
                            None => {
                                &&& final(self).is_loaded()
                                &&& (final(self).persisted_buf(), final(self).persisted_len()) == loaded
                                &&& final(self).served() == if loaded.1 > 0 {
                                    loaded.0.subrange(0, loaded.1 as int)
                                } else {
                                    default_ndef()
                                }
                            },
                        }
                    } else {
                        &&& out.result == Err::<Vec<u8>, Status>(Status::NotFound)
                        &&& out.persist is None
                        &&& *final(self) == *old(self)
                    }
                } else if ins == INS_READ_BINARY {
                    let (o, l) = spec_read_window(old(self).served().len(), read_offset(p1, p2), expected as nat);
                    &&& out.result matches Ok(r) && r@ == old(self).served().subrange(o as int, (o + l) as int)
                    &&& out.persist is None
                    &&& *final(self) == *old(self)
                } else if ins == INS_UPDATE_BINARY {
                    if old(self).selected() != SelectedFile::Ndef {
                        &&& out.result == Err::<Vec<u8>, Status>(Status::ConditionsOfUseNotSatisfied)
                        &&& out.persist is None
                        &&& *final(self) == *old(self)
                    } else {
                        let offset = update_offset(p1, p2);
                        let end = offset + payload@.len();
                        &&& final(self).is_loaded()
                        &&& final(self).served() == old(self).served()
                        &&& final(self).selected() == old(self).selected()
                        &&& if end > NDEF_FILE_MAX {
                            &&& out.result == Err::<Vec<u8>, Status>(Status::WrongLength)
                            &&& out.persist is None
                            &&& (final(self).persisted_buf(), final(self).persisted_len()) == loaded
                        } else {
                            let written = loaded.0.subrange(0, offset as int) + payload@ + loaded.0.subrange(
                                end as int,
                                NDEF_FILE_MAX as int,
                            );
                            &&& out.result matches Ok(r) && r@.len() == 0
                            &&& final(self).persisted_buf() == written
                            &&& if offset == 0 && payload@.len() >= 2 {
                                let nlen = payload@[0] as nat * 256 + payload@[1] as nat;
                                if nlen == 0 || 2 + nlen > NDEF_FILE_MAX {
                                    final(self).persisted_len() == 0 && out.persist is None
                                } else {
                                    &&& final(self).persisted_len() == 2 + nlen
                                    &&& out.persist matches Some(p) && p@ == written.subrange(0, 2 + nlen as int)
                                }
                            } else {
                                final(self).persisted_len() == loaded.1 && out.persist is None
                            }
                        }
                    }
                } else {
                    &&& out.result == Err::<Vec<u8>, Status>(Status::ConditionsOfUseNotSatisfied)
                    &&& out.persist is None
                    &&& *final(self) == *old(self)
                }
            }),
    {
        if ins == INS_SELECT {
            if starts_with2_exec(payload, 0xE1, 0x03) {
                self.selected = SelectedFile::Cc;
                self.file = capability_container_bytes();
                CallOutcome { result: Ok(Vec::new()), persist: None }
            } else if starts_with2_exec(payload, 0xE1, 0x04) {
                self.selected = SelectedFile::Ndef;
                // Priority: transient override > persisted file > static default.
                // The override needs no flash, so it is checked before loading.
                match slot.published_file() {
                    Some(f) => {
                        self.file = f;
                    },
                    None => {
                        self.ensure_loaded(stored);
                        if self.persisted_len > 0 {
                            self.file = self.persisted_copy();
                        } else {
                            self.file = default_ndef_bytes();
                        }
                    },
                }
                CallOutcome { result: Ok(Vec::new()), persist: None }
            } else {
                CallOutcome { result: Err(Status::NotFound), persist: None }
            }
        } else if ins == INS_READ_BINARY {
            assert((p1 & 0xef) as nat == (p1 as nat % 256) - (if (p1 / 16) % 2 == 1 { 16nat } else { 0 }))
                by (bit_vector);
            let raw_offset = ((p1 & 0xef) as usize) * 256 + p2 as usize;
            let (offset, len) = read_window(self.file.len(), raw_offset, expected);
            let reply = vstd::slice::slice_to_vec(
                vstd::slice::slice_subrange(self.file.as_slice(), offset, offset + len),
            );
            CallOutcome { result: Ok(reply), persist: None }
        } else if ins == INS_UPDATE_BINARY {
            // UPDATE BINARY: the reader writes NLEN = 0, then the record at
            // offset 2.., then the final NLEN at offset 0; the file is
            // persisted once that final NLEN > 0 lands.
            if self.selected != SelectedFile::Ndef {
                return CallOutcome { result: Err(Status::ConditionsOfUseNotSatisfied), persist: None };
            }
            self.ensure_loaded(stored);
            assert((p1 & 0x7f) as nat == p1 as nat % 128) by (bit_vector);
            let offset = ((p1 & 0x7F) as usize) * 256 + p2 as usize;
            if payload.len() > NDEF_FILE_MAX || offset > NDEF_FILE_MAX - payload.len() {
                return CallOutcome { result: Err(Status::WrongLength), persist: None };
            }
            write_at(&mut self.persisted, offset, payload);
            let mut persist: Option<Vec<u8>> = None;
            if offset == 0 && payload.len() >= 2 {
                let nlen = (payload[0] as usize) * 256 + payload[1] as usize;
                if nlen == 0 || 2 + nlen > NDEF_FILE_MAX {
                    self.persisted_len = 0;
                } else {
                    self.persisted_len = 2 + nlen;
                    persist = Some(self.persisted_copy());
                }
            }
            CallOutcome { result: Ok(Vec::new()), persist }
        } else {
            CallOutcome { result: Err(Status::ConditionsOfUseNotSatisfied), persist: None }
        }
    }
}

} // verus!
