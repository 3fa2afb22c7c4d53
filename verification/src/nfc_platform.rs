//! Decisions of the NFC type 4 tag platform glue: the default NFCID1 made
//! from the device address, the single transfer buffer handed to the NFC
//! library, and the answer to its setup call. The caller reads the device
//! address registers and owns the buffer memory.

use vstd::prelude::*;

verus! {

/// Error codes returned to the NFC library.
pub const EINVAL: i32 = -22;
pub const E2BIG: i32 = -7;

/// Interrupt priority given to the NFC library.
pub const NFC_IRQ_PRIORITY: u8 = 6;

/// Size of the transfer buffer: two frames of 259 bytes.
pub const T4T_TOTAL_BUF: usize = 518;

/// The byte of a 32-bit word that starts at bit `shift`.
pub open spec fn byte_of(w: u32, shift: u32) -> u8 {
    (w >> shift) as u8
}

/// The default NFCID1 of the given length (4, 7 or 10 bytes) from the two
/// device address words `a` and `b`: the manufacturer byte `04`, the high
/// bytes of `a`, then of `b`, then the low bytes and a mixed byte.
pub open spec fn nfcid1(len: u32, a: u32, b: u32) -> Seq<u8> {
    let head = seq![0x04u8, byte_of(a, 24), byte_of(a, 16), byte_of(a, 8)];
    if len == 4 {
        head
    } else if len == 7 {
        head + seq![byte_of(b, 24), byte_of(b, 16), byte_of(b, 8)]
    } else {
        head + seq![
            byte_of(b, 24),
            byte_of(b, 16),
            byte_of(b, 8),
            byte_of(b, 0),
            byte_of(a, 0),
            byte_of(a, 16) ^ byte_of(b, 16),
        ]
    }
}

fn byte(w: u32, shift: u32) -> (r: u8)
    requires
        shift < 32,
    ensures
        r == byte_of(w, shift),
{
    (w >> shift) as u8
}

/// The default NFCID1 bytes for a buffer of `buf_len` bytes, or `E2BIG`
/// for a length that is not 4, 7 or 10.
pub fn nfcid1_default_bytes(buf_len: u32, a: u32, b: u32) -> (r: Result<Vec<u8>, i32>)
    ensures
        (buf_len == 4 || buf_len == 7 || buf_len == 10) ==> (r matches Ok(v) && v@ == nfcid1(buf_len, a, b)),
        !(buf_len == 4 || buf_len == 7 || buf_len == 10) ==> r == Err::<Vec<u8>, i32>(E2BIG),
{
    if buf_len != 4 && buf_len != 7 && buf_len != 10 {
        return Err(E2BIG);
    }
    let mut v: Vec<u8> = Vec::new();
    v.push(0x04);
    v.push(byte(a, 24));
    v.push(byte(a, 16));
    v.push(byte(a, 8));
    if buf_len >= 7 {
        v.push(byte(b, 24));
        v.push(byte(b, 16));
        v.push(byte(b, 8));
        if buf_len == 10 {
            v.push(byte(b, 0));
            v.push(byte(a, 0));
            let x = ((a >> 16) ^ (b >> 16)) as u8;
            assert(((a >> 16u32) ^ (b >> 16u32)) as u8 == ((a >> 16u32) as u8) ^ ((b >> 16u32) as u8)) by (bit_vector);
            let xa = byte(a, 16);
            let xb = byte(b, 16);
            assert(x == xa ^ xb);
            v.push(x);
        }
    }
    assert(v@ =~= nfcid1(buf_len, a, b));
    Ok(v)
}

/// The answer to the library's setup call: invalid arguments without a
/// resolve callback or a place for the priority, success otherwise.
pub fn setup_result(has_resolve_callback: bool, has_priority_out: bool) -> (r: (i32, Option<u8>))
    ensures
        !(has_resolve_callback && has_priority_out) ==> r == (EINVAL, None::<u8>),
        has_resolve_callback && has_priority_out ==> r == (0i32, Some(NFC_IRQ_PRIORITY)),
{
    if !has_resolve_callback || !has_priority_out {
        return (EINVAL, None);
    }
    (0, Some(NFC_IRQ_PRIORITY))
}

/// The one transfer buffer and whether it is lent out.
pub struct TransferBuffer {
    in_use: bool,
}

impl TransferBuffer {
    pub closed spec fn lent(&self) -> bool {
        self.in_use
    }

    pub fn new() -> (r: TransferBuffer)
        ensures
            !r.lent(),
    {
        TransferBuffer { in_use: false }
    }

    /// Lend the buffer for `size` bytes: refused while it is lent or when it
    /// is too small.
    pub fn lend(&mut self, size: usize) -> (granted: bool)
        ensures
            granted == (!old(self).lent() && size <= T4T_TOTAL_BUF),
            final(self).lent() == (old(self).lent() || granted),
    {
        if self.in_use || size > T4T_TOTAL_BUF {
            return false;
        }
        self.in_use = true;
        true
    }

    /// Take the buffer back, if the pointer returned is ours.
    pub fn give_back(&mut self, is_ours: bool)
        ensures
            final(self).lent() == (old(self).lent() && !is_ours),
    {
        if is_ours {
            self.in_use = false;
        }
    }
}

} // verus!
