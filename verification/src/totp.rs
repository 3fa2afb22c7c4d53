//! HOTP (RFC 4226) and the TOTP signing mechanism built on it.

use vstd::prelude::*;
use hmac::{KeyInit, Mac};

verus! {

/// Number of digits of the TOTP mechanism.
pub const DIGITS: u32 = 6;

/// Length of the HMAC-SHA1 output.
pub const HMAC_SHA1_LEN: usize = 20;

/// The HMAC-SHA1 code of `message` under `key` (RFC 2104 with SHA-1).
pub uninterp spec fn spec_hmac_sha1(key: Seq<u8>, message: Seq<u8>) -> Seq<u8>;

/// HMAC-SHA1 of `message` under `key`, computed by the `hmac` crate over the
/// `sha1` crate's SHA-1.
///
/// Trusted: the 20-byte result is what `Hmac::<Sha1>` computes for these
/// arguments (`new_from_slice` accepts keys of any length, so it cannot fail).
#[verifier::external_body]
fn hmac_sha1(key: &[u8], message: &[u8]) -> (r: [u8; 20])
    ensures
        r@ == spec_hmac_sha1(key@, message@),
{
    let mut mac = <hmac::Hmac<sha1::Sha1> as KeyInit>::new_from_slice(key).expect("HMAC accepts keys of any length");
    mac.update(message);
    mac.finalize().into_bytes().into()
}

pub open spec fn pow10(k: nat) -> nat
    decreases k,
{
    if k == 0 {
        1
    } else {
        10 * pow10((k - 1) as nat)
    }
}

/// Big-endian bytes of a `u64`.
pub open spec fn be64(v: u64) -> Seq<u8> {
    seq![((v as nat / 0x100_0000_0000_0000) % 256) as u8, ((v as nat / 0x1_0000_0000_0000) % 256) as u8, ((v as nat / 0x100_0000_0000) % 256) as u8, ((v as nat / 0x1_0000_0000) % 256) as u8, ((v as nat / 0x100_0000) % 256) as u8, ((v as nat / 0x1_0000) % 256) as u8, ((v as nat / 0x100) % 256) as u8, ((v as nat / 1) % 256) as u8]
}

/// Dynamic truncation of RFC 4226: the low nibble of the last byte selects
/// four bytes, read big-endian with the top bit cleared.
pub open spec fn spec_dynamic_truncation(hs: Seq<u8>) -> nat {
    let o = (hs.last() % 16) as int;
    ((hs[o] % 128) as nat) * 0x100_0000 + (hs[o + 1] as nat) * 0x1_0000 + (hs[o + 2] as nat) * 0x100 + (hs[o + 3] as nat)
}

/// The HOTP value of `key` at `counter` with `digits` digits.
pub open spec fn spec_hotp(key: Seq<u8>, counter: u64, digits: nat) -> nat {
    spec_dynamic_truncation(spec_hmac_sha1(key, be64(counter))) % pow10(digits)
}

/// Dynamic truncation of an HMAC code (RFC 4226, 5.3).
pub fn dynamic_truncation(hs: &[u8]) -> (r: u64)
    requires
        hs@.len() >= 1,
        (hs@.last() % 16) as int + 4 <= hs@.len(),
    ensures
        r == spec_dynamic_truncation(hs@),
{
    // low-order bits of the last byte of the code
    let last = hs[hs.len() - 1];
    let o = (last & 0xf) as usize;
    assert(last & 0xf == last % 16) by (bit_vector);
    let b0 = hs[o];
    assert(b0 & 0x7f == b0 % 128) by (bit_vector);
    // zero highest bit, avoids signed/unsigned "ambiguity"
    ((b0 & 0x7f) as u64) * 0x100_0000 + (hs[o + 1] as u64) * 0x1_0000 + (hs[o + 2] as u64) * 0x100 + (hs[o + 3] as u64)
}

fn pow10_u64(digits: u32) -> (r: u64)
    requires
        digits <= 19,
    ensures
        r == pow10(digits as nat),
{
    proof {
        reveal_with_fuel(pow10, 20);
        assert(pow10(19) == 10_000_000_000_000_000_000);
    }
    let mut r: u64 = 1;
    let mut i: u32 = 0;
    while i < digits
        invariant
            i <= digits <= 19,
            r == pow10(i as nat),
            pow10(19) == 10_000_000_000_000_000_000,
        decreases digits - i,
    {
        proof {
            lemma_pow10_mono((i + 1) as nat, 19);
        }
        r = r * 10;
        i = i + 1;
    }
    r
}

proof fn lemma_pow10_mono(a: nat, b: nat)
    requires
        a <= b,
    ensures
        pow10(a) <= pow10(b),
    decreases b,
{
    if a < b {
        lemma_pow10_mono(a, (b - 1) as nat);
        lemma_pow10_pos((b - 1) as nat);
    }
}

proof fn lemma_pow10_pos(k: nat)
    ensures
        pow10(k) >= 1,
    decreases k,
{
    if k > 0 {
        lemma_pow10_pos((k - 1) as nat);
    }
}

/// Big-endian bytes of `v`.
fn be64_bytes(v: u64) -> (r: [u8; 8])
    ensures
        r@ == be64(v),
{
    let r: [u8; 8] = [
        (v >> 56) as u8,
        ((v >> 48) & 0xff) as u8,
        ((v >> 40) & 0xff) as u8,
        ((v >> 32) & 0xff) as u8,
        ((v >> 24) & 0xff) as u8,
        ((v >> 16) & 0xff) as u8,
        ((v >> 8) & 0xff) as u8,
        (v & 0xff) as u8,
    ];
    proof {
        assert((v >> 56) as u8 == (v / 0x100_0000_0000_0000) % 256) by (bit_vector);
        assert(((v >> 48) & 0xff) as u8 == (v / 0x1_0000_0000_0000) % 256) by (bit_vector);
        assert(((v >> 40) & 0xff) as u8 == (v / 0x100_0000_0000) % 256) by (bit_vector);
        assert(((v >> 32) & 0xff) as u8 == (v / 0x1_0000_0000) % 256) by (bit_vector);
        assert(((v >> 24) & 0xff) as u8 == (v / 0x100_0000) % 256) by (bit_vector);
        assert(((v >> 16) & 0xff) as u8 == (v / 0x1_0000) % 256) by (bit_vector);
        assert(((v >> 8) & 0xff) as u8 == (v / 0x100) % 256) by (bit_vector);
        assert((v & 0xff) as u8 == (v / 1) % 256) by (bit_vector);
        assert(r@ =~= be64(v));
    }
    r
}

/// HMAC-SHA1 of `message` under `key`, dynamically truncated to `digits`
/// decimal digits.
pub fn hmac_and_truncate(key: &[u8], message: &[u8], digits: u32) -> (r: u64)
    requires
        digits <= 19,
    ensures
        r == spec_dynamic_truncation(spec_hmac_sha1(key@, message@)) % pow10(digits as nat),
{
    let hs = hmac_sha1(key, message);
    proof {
        assert((hs@.last() % 16) as int + 4 <= 20);
    }
    truncate_code(&hs, digits)
}

/// The last step of HOTP on a given HMAC-SHA1 code: dynamic truncation
/// reduced to `digits` decimal digits.
pub fn truncate_code(hs: &[u8; 20], digits: u32) -> (r: u64)
    requires
        digits <= 19,
    ensures
        r == spec_dynamic_truncation(hs@) % pow10(digits as nat),
{
    let t = dynamic_truncation(hs);
    proof {
        lemma_pow10_pos(digits as nat);
    }
    t % pow10_u64(digits)
}

/// HOTP value of `key` at `counter` (RFC 4226, 5.3).
pub fn hotp_raw(key: &[u8], counter: u64, digits: u32) -> (r: u64)
    requires
        digits <= 19,
    ensures
        r == spec_hotp(key@, counter, digits as nat),
{
    let bytes = be64_bytes(counter);
    hmac_and_truncate(key, &bytes, digits)
}

/// Little-endian bytes of a `u64`.
pub open spec fn le64(v: u64) -> Seq<u8> {
    seq![((v as nat / 1) % 256) as u8, ((v as nat / 0x100) % 256) as u8, ((v as nat / 0x1_0000) % 256) as u8, ((v as nat / 0x100_0000) % 256) as u8, ((v as nat / 0x1_0000_0000) % 256) as u8, ((v as nat / 0x100_0000_0000) % 256) as u8, ((v as nat / 0x1_0000_0000_0000) % 256) as u8, ((v as nat / 0x100_0000_0000_0000) % 256) as u8]
}

/// Errors of the TOTP mechanism.
#[derive(Clone, Copy, Debug, PartialEq, Eq, Structural)]
pub enum TotpError {
    /// The secret to inject is not 20 bytes.
    WrongMessageLength,
    /// The stored secret is not 20 bytes, or the timestamp is not 8 bytes.
    InternalError,
}

/// Check a TOTP secret before it is stored: it must be the 20 raw bytes.
pub fn check_totp_secret(raw_key: &[u8]) -> (r: Result<(), TotpError>)
    ensures
        r is Ok <==> raw_key@.len() == 20,
        r is Err ==> r == Err::<(), TotpError>(TotpError::WrongMessageLength),
{
    if raw_key.len() != 20 {
        return Err(TotpError::WrongMessageLength);
    }
    Ok(())
}

/// TOTP signature: the message is the time counter as 8 little-endian
/// bytes, the result the 6-digit HOTP value as 8 little-endian bytes.
pub fn totp_sign(secret: &[u8], message: &[u8]) -> (r: Result<[u8; 8], TotpError>)
    ensures
        r is Ok <==> secret@.len() == 20 && message@.len() == 8,
        r is Err ==> r == Err::<[u8; 8], TotpError>(TotpError::InternalError),
        r matches Ok(sig) ==> exists|t: u64| {
            &&& le64(t) == message@
            &&& sig@ == le64(spec_hotp(secret@, t, DIGITS as nat) as u64)
        },
{
    if secret.len() != 20 {
        return Err(TotpError::InternalError);
    }
    if message.len() != 8 {
        return Err(TotpError::InternalError);
    }
    let t = le64_value(message);
    let value = hotp_raw(secret, t, DIGITS);
    Ok(le64_bytes(value))
}

fn le64_value(m: &[u8]) -> (t: u64)
    requires
        m@.len() == 8,
    ensures
        le64(t) == m@,
{
    let t = (m[0] as u64) | ((m[1] as u64) << 8) | ((m[2] as u64) << 16) | ((m[3] as u64) << 24) | ((m[4] as u64)
        << 32) | ((m[5] as u64) << 40) | ((m[6] as u64) << 48) | ((m[7] as u64) << 56);
    let b = le64_bytes(t);
    proof {
        let (m0, m1, m2, m3, m4, m5, m6, m7) = (m[0], m[1], m[2], m[3], m[4], m[5], m[6], m[7]);
        assert((t & 0xff) as u8 == m0 && ((t >> 8) & 0xff) as u8 == m1 && ((t >> 16) & 0xff) as u8 == m2 && ((t >> 24)
            & 0xff) as u8 == m3 && ((t >> 32) & 0xff) as u8 == m4 && ((t >> 40) & 0xff) as u8 == m5 && ((t >> 48)
            & 0xff) as u8 == m6 && (t >> 56) as u8 == m7) by (bit_vector)
            requires
                t == (m0 as u64) | ((m1 as u64) << 8) | ((m2 as u64) << 16) | ((m3 as u64) << 24) | ((m4 as u64) << 32)
                    | ((m5 as u64) << 40) | ((m6 as u64) << 48) | ((m7 as u64) << 56),
        ;
        assert(b@ =~= m@);
    }
    t
}

fn le64_bytes(v: u64) -> (r: [u8; 8])
    ensures
        r@ == le64(v),
        r@[0] == (v & 0xff) as u8,
        r@[1] == ((v >> 8) & 0xff) as u8,
        r@[2] == ((v >> 16) & 0xff) as u8,
        r@[3] == ((v >> 24) & 0xff) as u8,
        r@[4] == ((v >> 32) & 0xff) as u8,
        r@[5] == ((v >> 40) & 0xff) as u8,
        r@[6] == ((v >> 48) & 0xff) as u8,
        r@[7] == (v >> 56) as u8,
{
    let r: [u8; 8] = [
        (v & 0xff) as u8,
        ((v >> 8) & 0xff) as u8,
        ((v >> 16) & 0xff) as u8,
        ((v >> 24) & 0xff) as u8,
        ((v >> 32) & 0xff) as u8,
        ((v >> 40) & 0xff) as u8,
        ((v >> 48) & 0xff) as u8,
        (v >> 56) as u8,
    ];
    proof {
        assert((v >> 56) as u8 == (v / 0x100_0000_0000_0000) % 256) by (bit_vector);
        assert(((v >> 48) & 0xff) as u8 == (v / 0x1_0000_0000_0000) % 256) by (bit_vector);
        assert(((v >> 40) & 0xff) as u8 == (v / 0x100_0000_0000) % 256) by (bit_vector);
        assert(((v >> 32) & 0xff) as u8 == (v / 0x1_0000_0000) % 256) by (bit_vector);
        assert(((v >> 24) & 0xff) as u8 == (v / 0x100_0000) % 256) by (bit_vector);
        assert(((v >> 16) & 0xff) as u8 == (v / 0x1_0000) % 256) by (bit_vector);
        assert(((v >> 8) & 0xff) as u8 == (v / 0x100) % 256) by (bit_vector);
        assert((v & 0xff) as u8 == (v / 1) % 256) by (bit_vector);
        assert(r@ =~= le64(v));
    }
    r
}

} // verus!
