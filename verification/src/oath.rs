//! Export of legacy OATH credentials as `otpauth://` lines: the encoders
//! (base32, percent-encoding, decimal), the line format, paging and the
//! command decisions of the export application.

use vstd::prelude::*;
use crate::bounded::{BoundedBuf, flatten, lemma_prefix_step, lemma_flatten_append};
use crate::der::{write_pieces, lemma_write_pieces_append};
use crate::status::Status;

verus! {

/// RFC 4648 base32 alphabet: `A`..`Z` then `2`..`7`.
pub open spec fn b32_char(i: u64) -> u8 {
    if i < 26 {
        (65 + i) as u8
    } else {
        (50 + (i - 26)) as u8
    }
}

/// Byte `i` of a chunk, zero past its end.
pub open spec fn chunk_byte(c: Seq<u8>, i: int) -> u64 {
    if i < c.len() {
        c[i] as u64
    } else {
        0
    }
}

/// The 40-bit big-endian value of a chunk of at most five bytes, padded
/// with zero bytes.
pub open spec fn chunk_value(c: Seq<u8>) -> u64 {
    (chunk_byte(c, 0) << 32u64) | (chunk_byte(c, 1) << 24u64) | (chunk_byte(c, 2) << 16u64) | (chunk_byte(c, 3) << 8u64)
        | chunk_byte(c, 4)
}

/// Number of base32 characters for `n` bytes, without padding.
pub open spec fn b32_count(n: nat) -> nat {
    (8 * n + 4) / 5
}

/// Base32 of one chunk of one to five bytes: its bits, five at a time from
/// the most significant, the last group padded with zero bits.
pub open spec fn b32_chunk(c: Seq<u8>) -> Seq<u8> {
    Seq::new(b32_count(c.len()), |k: int| b32_char((chunk_value(c) >> ((35 - 5 * k) as u64)) & 31))
}

/// RFC 4648 base32 (uppercase, no padding).
pub open spec fn base32(input: Seq<u8>) -> Seq<u8>
    decreases input.len(),
{
    if input.len() == 0 {
        Seq::empty()
    } else if input.len() <= 5 {
        b32_chunk(input)
    } else {
        b32_chunk(input.subrange(0, 5)) + base32(input.subrange(5, input.len() as int))
    }
}

pub proof fn lemma_base32_append(a: Seq<u8>, b: Seq<u8>)
    requires
        a.len() % 5 == 0,
    ensures
        base32(a + b) == base32(a) + base32(b),
    decreases a.len(),
{
    if a.len() == 0 {
        assert(a + b =~= b);
        assert(base32(a) + base32(b) =~= base32(b));
    } else {
        let ab = a + b;
        assert(ab.subrange(0, 5) =~= a.subrange(0, 5));
        assert(ab.subrange(5, ab.len() as int) =~= a.subrange(5, a.len() as int) + b);
        lemma_base32_append(a.subrange(5, a.len() as int), b);
        if b.len() == 0 {
            assert(ab =~= a);
            assert(base32(a) + base32(b) =~= base32(a));
        } else if a.len() == 5 {
            assert(a.subrange(5, a.len() as int) =~= Seq::<u8>::empty());
            assert(a.subrange(0, 5) =~= a);
            assert(base32(Seq::<u8>::empty()) =~= Seq::<u8>::empty());
            assert(Seq::<u8>::empty() + b =~= b);
        } else {
            assert(base32(ab) =~= base32(a) + base32(b));
        }
    }
}

/// Keep at most `cap` bytes.
pub open spec fn truncate(s: Seq<u8>, cap: nat) -> Seq<u8> {
    if s.len() <= cap {
        s
    } else {
        s.subrange(0, cap as int)
    }
}

fn b32_char_exec(i: u64) -> (r: u8)
    requires
        i < 32,
    ensures
        r == b32_char(i),
{
    if i < 26 {
        (65 + i) as u8
    } else {
        (50 + (i - 26)) as u8
    }
}

/// Push a byte, ignoring a full buffer.
fn push_or_drop(out: &mut BoundedBuf, b: u8)
    requires
        old(out).wf(),
    ensures
        final(out).wf(),
        final(out).capacity() == old(out).capacity(),
        final(out).contents() == truncate(old(out).contents().push(b), old(out).capacity()),
{
    proof {
        reveal_with_fuel(write_pieces, 2);
        old(out).lemma_bounded();
    }
    let _ = out.push(b);
    proof {
        assert(seq![seq![b]].drop_first() =~= Seq::<Seq<u8>>::empty());
        if old(out).contents().len() < old(out).capacity() {
            assert(old(out).contents() + seq![b] =~= old(out).contents().push(b));
        } else {
            assert(old(out).contents().push(b).subrange(0, old(out).capacity() as int) =~= old(out).contents());
        }
    }
}

/// RFC 4648 base32 (uppercase, no padding), the form of `otpauth` secrets.
/// Characters beyond the capacity of `out` are dropped.
pub fn base32_encode(input: &[u8], out: &mut BoundedBuf)
    requires
        old(out).wf(),
    ensures
        final(out).wf(),
        final(out).capacity() == old(out).capacity(),
        final(out).contents() == truncate(old(out).contents() + base32(input@), old(out).capacity()),
{
    let ghost start = out.contents();
    let ghost cap = out.capacity();
    proof {
        out.lemma_bounded();
    }
    let n = input.len();
    let mut i: usize = 0;
    assert(input@.subrange(0, 0) =~= Seq::<u8>::empty());
    assert(start + Seq::<u8>::empty() =~= start);
    while i < n
        invariant
            n == input@.len(),
            i <= n,
            i % 5 == 0 || i == n,
            out.wf(),
            out.capacity() == cap,
            cap == old(out).capacity(),
            start == old(out).contents(),
            start.len() <= cap,
            out.contents() == truncate(start + base32(input@.subrange(0, i as int)), cap),
        decreases n - i,
    {
        let take: usize = if n - i >= 5 { 5 } else { n - i };
        let ghost chunk = input@.subrange(i as int, i + take);
        let b0: u64 = input[i] as u64;
        let b1: u64 = if take > 1 { input[i + 1] as u64 } else { 0 };
        let b2: u64 = if take > 2 { input[i + 2] as u64 } else { 0 };
        let b3: u64 = if take > 3 { input[i + 3] as u64 } else { 0 };
        let b4: u64 = if take > 4 { input[i + 4] as u64 } else { 0 };
        assert(b0 == chunk_byte(chunk, 0) && b1 == chunk_byte(chunk, 1) && b2 == chunk_byte(chunk, 2)
            && b3 == chunk_byte(chunk, 3) && b4 == chunk_byte(chunk, 4));
        let v: u64 = (b0 << 32u64) | (b1 << 24u64) | (b2 << 16u64) | (b3 << 8u64) | b4;
        assert(v == chunk_value(chunk));
        let count = (8 * take + 4) / 5;
        let ghost before = out.contents();
        let ghost pre = start + base32(input@.subrange(0, i as int));
        let mut k: usize = 0;
        while k < count
            invariant
                count == b32_count(chunk.len()),
                count <= 8,
                k <= count,
                v == chunk_value(chunk),
                out.wf(),
                out.capacity() == cap,
                before == truncate(pre, cap),
                start.len() <= cap,
                pre.len() >= start.len(),
                out.contents() == truncate(pre + b32_chunk(chunk).subrange(0, k as int), cap),
            decreases count - k,
        {
            let shift: u64 = 35 - 5 * (k as u64);
            assert((v >> shift) & 31 < 32) by (bit_vector);
            let c = b32_char_exec((v >> shift) & 31);
            assert(c == b32_chunk(chunk)[k as int]);
            let ghost s_old = pre + b32_chunk(chunk).subrange(0, k as int);
            push_or_drop(out, c);
            proof {
                assert(s_old.push(c) =~= pre + b32_chunk(chunk).subrange(0, k + 1));
                if s_old.len() > cap {
                    assert(truncate(s_old, cap).push(c).len() > cap);
                    assert(truncate(truncate(s_old, cap).push(c), cap) =~= truncate(s_old.push(c), cap));
                } else {
                    assert(truncate(s_old, cap) == s_old);
                }
            }
            k = k + 1;
        }
        proof {
            assert(b32_chunk(chunk).subrange(0, count as int) =~= b32_chunk(chunk));
            let done = input@.subrange(0, i as int);
            let rest = input@.subrange(i as int, n as int);
            assert(input@.subrange(0, i + take) =~= done + chunk);
            lemma_base32_append(done, chunk);
            if take == 5 {
                assert(base32(chunk) =~= b32_chunk(chunk));
            } else {
                assert(base32(chunk) == b32_chunk(chunk));
            }
            assert(pre + b32_chunk(chunk) =~= start + base32(input@.subrange(0, i + take)));
        }
        i = i + take;
    }
    assert(input@.subrange(0, n as int) =~= input@);
}

/// RFC 3986 unreserved bytes: ALPHA / DIGIT / `-` `.` `_` `~`.
pub open spec fn unreserved(b: u8) -> bool {
    (0x41 <= b <= 0x5a) || (0x61 <= b <= 0x7a) || (0x30 <= b <= 0x39) || b == 0x2d || b == 0x2e || b == 0x5f
        || b == 0x7e
}

/// Uppercase hexadecimal digit.
pub open spec fn hex_upper(n: u8) -> u8 {
    if n < 10 {
        (48 + n) as u8
    } else {
        (55 + n) as u8
    }
}

/// The bytes written for one input byte, one push each: the byte itself if
/// unreserved, else `%` and two uppercase hex digits.
pub open spec fn byte_pieces(b: u8) -> Seq<Seq<u8>> {
    if unreserved(b) {
        seq![seq![b]]
    } else {
        seq![seq![0x25u8], seq![hex_upper(b / 16)], seq![hex_upper(b % 16)]]
    }
}

pub open spec fn pct_pieces(input: Seq<u8>) -> Seq<Seq<u8>>
    decreases input.len(),
{
    if input.len() == 0 {
        Seq::empty()
    } else {
        pct_pieces(input.drop_last()) + byte_pieces(input.last())
    }
}

pub proof fn lemma_pct_pieces_append(a: Seq<u8>, b: Seq<u8>)
    ensures
        pct_pieces(a + b) == pct_pieces(a) + pct_pieces(b),
    decreases b.len(),
{
    if b.len() == 0 {
        assert(a + b =~= a);
        assert(pct_pieces(a) + pct_pieces(b) =~= pct_pieces(a));
    } else {
        assert((a + b).drop_last() =~= a + b.drop_last());
        lemma_pct_pieces_append(a, b.drop_last());
        assert(pct_pieces(a + b) =~= pct_pieces(a) + pct_pieces(b));
    }
}

/// RFC 3986 percent-encoding of `input`.
pub open spec fn percent_encoded(input: Seq<u8>) -> Seq<u8> {
    flatten(pct_pieces(input))
}

/// Percent-encoding leaves only unreserved bytes and `%`: an encoded label
/// holds no line feed, `&`, `?`, `#`, `/` or space, so it cannot break the
/// URI or the one-line-per-credential output.
pub proof fn lemma_percent_encoded_is_safe(input: Seq<u8>)
    ensures
        forall|i: int|
            0 <= i < percent_encoded(input).len() ==> unreserved(#[trigger] percent_encoded(input)[i])
                || percent_encoded(input)[i] == 0x25,
    decreases input.len(),
{
    if input.len() > 0 {
        let a = input.drop_last();
        let b = input.last();
        lemma_percent_encoded_is_safe(a);
        assert(pct_pieces(input) == pct_pieces(a) + byte_pieces(b));
        lemma_flatten_append(pct_pieces(a), byte_pieces(b));
        let tail = flatten(byte_pieces(b));
        reveal_with_fuel(flatten, 4);
        if unreserved(b) {
            assert(tail =~= seq![b]);
        } else {
            assert(tail =~= seq![0x25u8, hex_upper(b / 16), hex_upper(b % 16)]);
        }
        assert forall|i: int| 0 <= i < tail.len() implies unreserved(#[trigger] tail[i]) || tail[i] == 0x25 by {
        }
        let whole = percent_encoded(input);
        let head = percent_encoded(a);
        assert(whole == head + tail);
        assert forall|i: int| 0 <= i < whole.len() implies unreserved(#[trigger] whole[i]) || whole[i] == 0x25 by {
            if i < head.len() {
                assert(whole[i] == head[i]);
            } else {
                assert(whole[i] == tail[i - head.len()]);
            }
        }
    }
}

fn hex_upper_exec(n: u8) -> (r: u8)
    requires
        n < 16,
    ensures
        r == hex_upper(n),
{
    if n < 10 {
        48 + n
    } else {
        55 + n
    }
}

fn encode_byte(b: u8, out: &mut BoundedBuf) -> (r: Result<(), Status>)
    requires
        old(out).wf(),
    ensures
        final(out).wf(),
        final(out).capacity() == old(out).capacity(),
        (final(out).contents(), r is Ok) == write_pieces(old(out).contents(), old(out).capacity(), byte_pieces(b)),
        r is Err ==> r == Err::<(), Status>(Status::NotEnoughMemory),
{
    let unres = (0x41 <= b && b <= 0x5a) || (0x61 <= b && b <= 0x7a) || (0x30 <= b && b <= 0x39) || b == 0x2d
        || b == 0x2e || b == 0x5f || b == 0x7e;
    if unres {
        return match out.push(b) {
            Ok(()) => Ok(()),
            Err(()) => Err(Status::NotEnoughMemory),
        };
    }
    let ghost s0 = out.contents();
    let ghost cap = out.capacity();
    let ghost p0 = seq![0x25u8];
    let ghost p1 = seq![hex_upper(b / 16)];
    let ghost p2 = seq![hex_upper(b % 16)];
    proof {
        let ps = byte_pieces(b);
        assert(ps =~= seq![p0] + (seq![p1] + seq![p2]));
        lemma_write_pieces_append(s0, cap, seq![p0], seq![p1] + seq![p2]);
    }
    if out.push(0x25).is_err() {
        return Err(Status::NotEnoughMemory);
    }
    let ghost s1 = out.contents();
    proof {
        lemma_write_pieces_append(s1, cap, seq![p1], seq![p2]);
    }
    if out.push(hex_upper_exec(b / 16)).is_err() {
        return Err(Status::NotEnoughMemory);
    }
    if out.push(hex_upper_exec(b % 16)).is_err() {
        return Err(Status::NotEnoughMemory);
    }
    Ok(())
}

/// RFC 3986 percent-encoding: unreserved bytes pass through, everything else
/// becomes `%XX` (uppercase hex), so that arbitrary labels cannot malform the
/// URI or inject lines. Fails with `NotEnoughMemory` at the first byte that
/// does not fit, keeping what was written.
pub fn percent_encode(input: &[u8], out: &mut BoundedBuf) -> (r: Result<(), Status>)
    requires
        old(out).wf(),
    ensures
        final(out).wf(),
        final(out).capacity() == old(out).capacity(),
        (final(out).contents(), r is Ok) == write_pieces(old(out).contents(), old(out).capacity(), pct_pieces(input@)),
        r is Err ==> r == Err::<(), Status>(Status::NotEnoughMemory),
{
    let ghost start = out.contents();
    let ghost cap = out.capacity();
    let n = input.len();
    let mut i: usize = 0;
    proof {
        assert(input@.subrange(0, 0) =~= Seq::<u8>::empty());
        assert(pct_pieces(Seq::<u8>::empty()) =~= Seq::<Seq<u8>>::empty());
    }
    while i < n
        invariant
            n == input@.len(),
            i <= n,
            out.wf(),
            out.capacity() == cap,
            cap == old(out).capacity(),
            start == old(out).contents(),
            (out.contents(), true) == write_pieces(start, cap, pct_pieces(input@.subrange(0, i as int))),
        decreases n - i,
    {
        let b = input[i];
        let ghost done = pct_pieces(input@.subrange(0, i as int));
        let ghost mid = out.contents();
        proof {
            assert(input@.subrange(0, i + 1).drop_last() =~= input@.subrange(0, i as int));
            assert(pct_pieces(input@.subrange(0, i + 1)) == done + byte_pieces(b));
            lemma_write_pieces_append(start, cap, done, byte_pieces(b));
        }
        let r = encode_byte(b, out);
        if r.is_err() {
            proof {
                let a = input@.subrange(0, i + 1);
                let rest = input@.subrange(i + 1, n as int);
                assert(input@ =~= a + rest);
                lemma_pct_pieces_append(a, rest);
                lemma_write_pieces_append(start, cap, pct_pieces(a), pct_pieces(rest));
            }
            return r;
        }
        i = i + 1;
    }
    assert(input@.subrange(0, n as int) =~= input@);
    Ok(())
}

/// Decimal digits of `v`, without leading zeros.
pub open spec fn decimal(v: nat) -> Seq<u8>
    decreases v,
{
    if v < 10 {
        seq![(48 + v) as u8]
    } else {
        decimal(v / 10).push((48 + v % 10) as u8)
    }
}

/// Write `v` in decimal; fails with `NotEnoughMemory`, writing nothing, if
/// the digits do not fit.
pub fn write_u32(v: u32, out: &mut BoundedBuf) -> (r: Result<(), Status>)
    requires
        old(out).wf(),
    ensures
        final(out).wf(),
        final(out).capacity() == old(out).capacity(),
        (final(out).contents(), r is Ok) == write_pieces(old(out).contents(), old(out).capacity(), seq![decimal(v as nat)]),
        r is Err ==> r == Err::<(), Status>(Status::NotEnoughMemory),
{
    if v == 0 {
        assert(decimal(0) =~= seq![0x30u8]);
        return match out.push(0x30) {
            Ok(()) => Ok(()),
            Err(()) => Err(Status::NotEnoughMemory),
        };
    }
    let mut digits: Vec<u8> = Vec::new();
    let mut w = v;
    while w > 0
        invariant
            decimal(v as nat) == (if w == 0 { Seq::<u8>::empty() } else { decimal(w as nat) }) + digits@,
        decreases w,
    {
        let ghost old_digits = digits@;
        digits.insert(0, (48 + w % 10) as u8);
        proof {
            assert(digits@ =~= seq![(48 + w % 10) as u8] + old_digits);
            if w >= 10 {
                assert(decimal(w as nat) == decimal((w / 10) as nat).push((48 + w % 10) as u8));
                assert(decimal((w / 10) as nat).push((48 + w % 10) as u8) + old_digits =~= decimal((w / 10) as nat)
                    + digits@);
            } else {
                assert(decimal(w as nat) == seq![(48 + w) as u8]);
                assert(seq![(48 + w) as u8] + old_digits =~= Seq::<u8>::empty() + digits@);
            }
        }
        w = w / 10;
    }
    assert(Seq::<u8>::empty() + digits@ =~= digits@);
    match out.extend_from_slice(digits.as_slice()) {
        Ok(()) => Ok(()),
        Err(()) => Err(Status::NotEnoughMemory),
    }
}

/// `otpauth://` in ASCII.
pub open spec fn otpauth_scheme() -> Seq<u8> {
    seq![0x6fu8, 0x74, 0x70, 0x61, 0x75, 0x74, 0x68, 0x3a, 0x2f, 0x2f]
}

fn otpauth_scheme_bytes() -> (r: Vec<u8>)
    ensures
        r@ == otpauth_scheme(),
{
    let r = vec![0x6fu8, 0x74, 0x70, 0x61, 0x75, 0x74, 0x68, 0x3a, 0x2f, 0x2f];
    assert(r@ =~= otpauth_scheme());
    r
}

/// `hotp` in ASCII.
pub open spec fn hotp_text() -> Seq<u8> {
    seq![0x68u8, 0x6f, 0x74, 0x70]
}

fn hotp_text_bytes() -> (r: Vec<u8>)
    ensures
        r@ == hotp_text(),
{
    let r = vec![0x68u8, 0x6f, 0x74, 0x70];
    assert(r@ =~= hotp_text());
    r
}

/// `totp` in ASCII.
pub open spec fn totp_text() -> Seq<u8> {
    seq![0x74u8, 0x6f, 0x74, 0x70]
}

fn totp_text_bytes() -> (r: Vec<u8>)
    ensures
        r@ == totp_text(),
{
    let r = vec![0x74u8, 0x6f, 0x74, 0x70];
    assert(r@ =~= totp_text());
    r
}

/// `/` in ASCII.
pub open spec fn slash_text() -> Seq<u8> {
    seq![0x2fu8]
}

fn slash_text_bytes() -> (r: Vec<u8>)
    ensures
        r@ == slash_text(),
{
    let r = vec![0x2fu8];
    assert(r@ =~= slash_text());
    r
}

/// `?secret=` in ASCII.
pub open spec fn secret_param() -> Seq<u8> {
    seq![0x3fu8, 0x73, 0x65, 0x63, 0x72, 0x65, 0x74, 0x3d]
}

fn secret_param_bytes() -> (r: Vec<u8>)
    ensures
        r@ == secret_param(),
{
    let r = vec![0x3fu8, 0x73, 0x65, 0x63, 0x72, 0x65, 0x74, 0x3d];
    assert(r@ =~= secret_param());
    r
}

/// `&algorithm=` in ASCII.
pub open spec fn algorithm_param() -> Seq<u8> {
    seq![0x26u8, 0x61, 0x6c, 0x67, 0x6f, 0x72, 0x69, 0x74, 0x68, 0x6d, 0x3d]
}

fn algorithm_param_bytes() -> (r: Vec<u8>)
    ensures
        r@ == algorithm_param(),
{
    let r = vec![0x26u8, 0x61, 0x6c, 0x67, 0x6f, 0x72, 0x69, 0x74, 0x68, 0x6d, 0x3d];
    assert(r@ =~= algorithm_param());
    r
}

/// `SHA1` in ASCII.
pub open spec fn sha1_text() -> Seq<u8> {
    seq![0x53u8, 0x48, 0x41, 0x31]
}

fn sha1_text_bytes() -> (r: Vec<u8>)
    ensures
        r@ == sha1_text(),
{
    let r = vec![0x53u8, 0x48, 0x41, 0x31];
    assert(r@ =~= sha1_text());
    r
}

/// `SHA256` in ASCII.
pub open spec fn sha256_text() -> Seq<u8> {
    seq![0x53u8, 0x48, 0x41, 0x32, 0x35, 0x36]
}

fn sha256_text_bytes() -> (r: Vec<u8>)
    ensures
        r@ == sha256_text(),
{
    let r = vec![0x53u8, 0x48, 0x41, 0x32, 0x35, 0x36];
    assert(r@ =~= sha256_text());
    r
}

/// `SHA512` in ASCII.
pub open spec fn sha512_text() -> Seq<u8> {
    seq![0x53u8, 0x48, 0x41, 0x35, 0x31, 0x32]
}

fn sha512_text_bytes() -> (r: Vec<u8>)
    ensures
        r@ == sha512_text(),
{
    let r = vec![0x53u8, 0x48, 0x41, 0x35, 0x31, 0x32];
    assert(r@ =~= sha512_text());
    r
}

/// `&digits=` in ASCII.
pub open spec fn digits_param() -> Seq<u8> {
    seq![0x26u8, 0x64, 0x69, 0x67, 0x69, 0x74, 0x73, 0x3d]
}

fn digits_param_bytes() -> (r: Vec<u8>)
    ensures
        r@ == digits_param(),
{
    let r = vec![0x26u8, 0x64, 0x69, 0x67, 0x69, 0x74, 0x73, 0x3d];
    assert(r@ =~= digits_param());
    r
}

/// `&counter=` in ASCII.
pub open spec fn counter_param() -> Seq<u8> {
    seq![0x26u8, 0x63, 0x6f, 0x75, 0x6e, 0x74, 0x65, 0x72, 0x3d]
}

fn counter_param_bytes() -> (r: Vec<u8>)
    ensures
        r@ == counter_param(),
{
    let r = vec![0x26u8, 0x63, 0x6f, 0x75, 0x6e, 0x74, 0x65, 0x72, 0x3d];
    assert(r@ =~= counter_param());
    r
}

/// `&period=30` in ASCII.
pub open spec fn period_param() -> Seq<u8> {
    seq![0x26u8, 0x70, 0x65, 0x72, 0x69, 0x6f, 0x64, 0x3d, 0x33, 0x30]
}

fn period_param_bytes() -> (r: Vec<u8>)
    ensures
        r@ == period_param(),
{
    let r = vec![0x26u8, 0x70, 0x65, 0x72, 0x69, 0x6f, 0x64, 0x3d, 0x33, 0x30];
    assert(r@ =~= period_param());
    r
}

/// `&touch=true` in ASCII.
pub open spec fn touch_param() -> Seq<u8> {
    seq![0x26u8, 0x74, 0x6f, 0x75, 0x63, 0x68, 0x3d, 0x74, 0x72, 0x75, 0x65]
}

fn touch_param_bytes() -> (r: Vec<u8>)
    ensures
        r@ == touch_param(),
{
    let r = vec![0x26u8, 0x74, 0x6f, 0x75, 0x63, 0x68, 0x3d, 0x74, 0x72, 0x75, 0x65];
    assert(r@ =~= touch_param());
    r
}

/// a line feed in ASCII.
pub open spec fn newline_text() -> Seq<u8> {
    seq![0x0au8]
}

fn newline_text_bytes() -> (r: Vec<u8>)
    ensures
        r@ == newline_text(),
{
    let r = vec![0x0au8];
    assert(r@ =~= newline_text());
    r
}

pub proof fn lemma_base32_len(input: Seq<u8>)
    ensures
        base32(input).len() == b32_count(input.len()),
    decreases input.len(),
{
    if input.len() > 5 {
        lemma_base32_len(input.subrange(5, input.len() as int));
        assert(b32_count(input.len()) == 8 + b32_count((input.len() - 5) as nat));
    }
}

/// Maximum stored secret.
pub const MAX_SECRET: usize = 128;
/// Maximum bytes of one `otpauth://` line.
pub const MAX_LINE: usize = 1280;
/// Credential files collected per EXPORT call.
pub const WINDOW: usize = 24;
/// Maximum otpauth bytes returned per page.
pub const PAGE_BUDGET: usize = 3000;
/// Serialized key header (flags, kind) in front of the key material.
pub const KEY_HEADER_LEN: usize = 4;
/// Capacity of the base32 scratch buffer.
pub const B32_CAPACITY: usize = 256;

/// Custom instruction bytes.
pub const INS_COUNT: u8 = 0xE1;
pub const INS_EXPORT: u8 = 0xE2;
pub const INS_DELETE: u8 = 0xE4;

/// Credential kinds of the legacy on-disk format.
#[derive(Clone, Copy, Debug, PartialEq, Eq, Structural)]
pub enum Kind {
    Hotp,
    Totp,
}

/// Hash algorithms of the legacy on-disk format.
#[derive(Clone, Copy, Debug, PartialEq, Eq, Structural)]
pub enum Algorithm {
    Sha1,
    Sha256,
    Sha512,
}

/// A legacy credential as stored (its secret is kept in a separate key file).
pub struct Credential {
    pub label: Vec<u8>,
    pub kind: Kind,
    pub algorithm: Algorithm,
    pub digits: u8,
    pub touch_required: bool,
    pub counter: Option<u32>,
}

pub open spec fn kind_text(kind: Kind) -> Seq<u8> {
    match kind {
        Kind::Hotp => hotp_text(),
        Kind::Totp => totp_text(),
    }
}

pub open spec fn algorithm_text(alg: Algorithm) -> Seq<u8> {
    match alg {
        Algorithm::Sha1 => sha1_text(),
        Algorithm::Sha256 => sha256_text(),
        Algorithm::Sha512 => sha512_text(),
    }
}

/// The credential kinds of the `otpauth://` format: "hotp" and "totp".
pub proof fn lemma_kind_names(k: Kind)
    ensures
        k == Kind::Hotp ==> kind_text(k) == seq![0x68u8, 0x6f, 0x74, 0x70],
        k == Kind::Totp ==> kind_text(k) == seq![0x74u8, 0x6f, 0x74, 0x70],
{
}

/// The algorithm names of the `otpauth://` format: "SHA1", "SHA256" and
/// "SHA512" in ASCII, so different algorithms are never written alike.
pub proof fn lemma_algorithm_names(a: Algorithm, b: Algorithm)
    ensures
        a == Algorithm::Sha1 ==> algorithm_text(a) == seq![0x53u8, 0x48, 0x41, 0x31],
        a == Algorithm::Sha256 ==> algorithm_text(a) == seq![0x53u8, 0x48, 0x41, 0x32, 0x35, 0x36],
        a == Algorithm::Sha512 ==> algorithm_text(a) == seq![0x53u8, 0x48, 0x41, 0x35, 0x31, 0x32],
        algorithm_text(a) == algorithm_text(b) ==> a == b,
{
    if algorithm_text(a) == algorithm_text(b) && a != b {
        assert(algorithm_text(a).len() != algorithm_text(b).len() || algorithm_text(a)[3] != algorithm_text(b)[3]
            || algorithm_text(a)[4] != algorithm_text(b)[4]);
    }
}

/// The pieces of an `otpauth://` line, in the order they are written:
/// `otpauth://<kind>/<label>?secret=<base32>&algorithm=<alg>&digits=<d>`,
/// then `&counter=<c>` for an HOTP credential with a counter or
/// `&period=30` otherwise, then `&touch=true` if touch is required, and a
/// line feed. The label is percent-encoded.
pub open spec fn line_pieces(
    label: Seq<u8>,
    kind: Kind,
    alg: Algorithm,
    digits: u8,
    touch: bool,
    counter: Option<u32>,
    secret: Seq<u8>,
) -> Seq<Seq<u8>> {
    seq![otpauth_scheme(), kind_text(kind), slash_text()] + pct_pieces(label) + seq![
        secret_param(),
        base32(secret),
        algorithm_param(),
        algorithm_text(alg),
        digits_param(),
        decimal(digits as nat),
    ] + (match (kind, counter) {
        (Kind::Hotp, Some(c)) => seq![counter_param(), decimal(c as nat)],
        _ => seq![period_param()],
    }) + (if touch { seq![touch_param()] } else { Seq::empty() }) + seq![newline_text()]
}

pub open spec fn cred_line_pieces(cred: Credential, secret: Seq<u8>) -> Seq<Seq<u8>> {
    line_pieces(cred.label@, cred.kind, cred.algorithm, cred.digits, cred.touch_required, cred.counter, secret)
}

/// The `otpauth://` line of a credential.
pub open spec fn otpauth_line(cred: Credential, secret: Seq<u8>) -> Seq<u8> {
    flatten(cred_line_pieces(cred, secret))
}

/// Write piece `k` of `all`, given that the pieces before it were written.
fn put_piece(
    out: &mut BoundedBuf,
    data: &[u8],
    Ghost(s0): Ghost<Seq<u8>>,
    Ghost(all): Ghost<Seq<Seq<u8>>>,
    Ghost(k): Ghost<int>,
) -> (r: Result<(), Status>)
    requires
        old(out).wf(),
        0 <= k < all.len(),
        all[k] == data@,
        (old(out).contents(), true) == write_pieces(s0, old(out).capacity(), all.subrange(0, k)),
    ensures
        final(out).wf(),
        final(out).capacity() == old(out).capacity(),
        r is Ok ==> (final(out).contents(), true) == write_pieces(s0, old(out).capacity(), all.subrange(0, k + 1)),
        r is Err ==> r == Err::<(), Status>(Status::NotEnoughMemory) && (final(out).contents(), false) == write_pieces(
            s0,
            old(out).capacity(),
            all,
        ),
{
    proof {
        lemma_prefix_step(s0, old(out).capacity(), all, k, 1);
        assert(all.subrange(k, k + 1) =~= seq![data@]);
    }
    match out.extend_from_slice(data) {
        Ok(()) => Ok(()),
        Err(()) => Err(Status::NotEnoughMemory),
    }
}

/// Build one `otpauth://...` line for `cred` with its secret into `out`.
/// Fails with `NotEnoughMemory` exactly when the line does not fit.
pub fn write_otpauth_line(cred: &Credential, secret: &[u8], out: &mut BoundedBuf) -> (r: Result<(), Status>)
    requires
        old(out).wf(),
        secret@.len() <= MAX_SECRET,
    ensures
        final(out).wf(),
        final(out).capacity() == old(out).capacity(),
        (final(out).contents(), r is Ok) == write_pieces(old(out).contents(), old(out).capacity(), cred_line_pieces(*cred, secret@)),
        r is Err ==> r == Err::<(), Status>(Status::NotEnoughMemory),
{
    let ghost s0 = out.contents();
    let ghost cap = out.capacity();
    let ghost all = cred_line_pieces(*cred, secret@);
    let ghost m = pct_pieces(cred.label@).len();
    proof {
        reveal_with_fuel(write_pieces, 1);
        assert(all.subrange(0, 0) =~= Seq::<Seq<u8>>::empty());
        assert(all.subrange(3, 3 + m as int) =~= pct_pieces(cred.label@));
    }
    let kind = match cred.kind {
        Kind::Hotp => hotp_text_bytes(),
        Kind::Totp => totp_text_bytes(),
    };
    let alg = match cred.algorithm {
        Algorithm::Sha1 => sha1_text_bytes(),
        Algorithm::Sha256 => sha256_text_bytes(),
        Algorithm::Sha512 => sha512_text_bytes(),
    };
    put_piece(out, otpauth_scheme_bytes().as_slice(), Ghost(s0), Ghost(all), Ghost(0))?;
    put_piece(out, kind.as_slice(), Ghost(s0), Ghost(all), Ghost(1))?;
    put_piece(out, slash_text_bytes().as_slice(), Ghost(s0), Ghost(all), Ghost(2))?;
    // the label is an arbitrary stored string: percent-encode it so it can
    // neither corrupt the URI nor inject a line
    let ghost mid = out.contents();
    proof {
        lemma_prefix_step(s0, cap, all, 3, m as int);
    }
    percent_encode(cred.label.as_slice(), out)?;
    let mut b32 = BoundedBuf::new(B32_CAPACITY);
    base32_encode(secret, &mut b32);
    proof {
        lemma_base32_len(secret@);
        assert(b32.contents() == base32(secret@));
    }
    let k0: Ghost<int> = Ghost(3 + m as int);
    put_piece(out, secret_param_bytes().as_slice(), Ghost(s0), Ghost(all), Ghost(k0@))?;
    put_piece(out, b32.as_slice(), Ghost(s0), Ghost(all), Ghost(k0@ + 1))?;
    put_piece(out, algorithm_param_bytes().as_slice(), Ghost(s0), Ghost(all), Ghost(k0@ + 2))?;
    put_piece(out, alg.as_slice(), Ghost(s0), Ghost(all), Ghost(k0@ + 3))?;
    put_piece(out, digits_param_bytes().as_slice(), Ghost(s0), Ghost(all), Ghost(k0@ + 4))?;
    // digits are stored unvalidated: written as a real number
    let mut dec = BoundedBuf::new(16);
    let _ = write_u32(cred.digits as u32, &mut dec);
    proof {
        reveal_with_fuel(write_pieces, 2);
        lemma_decimal_len(cred.digits as nat);
        assert(seq![decimal(cred.digits as nat)].drop_first() =~= Seq::<Seq<u8>>::empty());
        assert(dec.contents() =~= decimal(cred.digits as nat));
    }
    put_piece(out, dec.as_slice(), Ghost(s0), Ghost(all), Ghost(k0@ + 5))?;
    let ghost k1 = k0@ + 6;
    let mut k2: Ghost<int> = Ghost(k1);
    match (cred.kind, cred.counter) {
        (Kind::Hotp, Some(c)) => {
            put_piece(out, counter_param_bytes().as_slice(), Ghost(s0), Ghost(all), Ghost(k1))?;
            let mut cdec = BoundedBuf::new(16);
            let _ = write_u32(c, &mut cdec);
            proof {
                reveal_with_fuel(write_pieces, 2);
                lemma_decimal_len(c as nat);
                assert(seq![decimal(c as nat)].drop_first() =~= Seq::<Seq<u8>>::empty());
                assert(cdec.contents() =~= decimal(c as nat));
            }
            put_piece(out, cdec.as_slice(), Ghost(s0), Ghost(all), Ghost(k1 + 1))?;
            k2 = Ghost(k1 + 2);
        },
        // Yubico OATH is 30s-only by protocol (no period stored)
        _ => {
            put_piece(out, period_param_bytes().as_slice(), Ghost(s0), Ghost(all), Ghost(k1))?;
            k2 = Ghost(k1 + 1);
        },
    }
    if cred.touch_required {
        put_piece(out, touch_param_bytes().as_slice(), Ghost(s0), Ghost(all), Ghost(k2@))?;
        k2 = Ghost(k2@ + 1);
    }
    put_piece(out, newline_text_bytes().as_slice(), Ghost(s0), Ghost(all), Ghost(k2@))?;
    proof {
        assert(k2@ + 1 == all.len());
        assert(all.subrange(0, all.len() as int) =~= all);
    }
    Ok(())
}

pub proof fn lemma_decimal_len(v: nat)
    requires
        v < 0x1_0000_0000,
    ensures
        decimal(v).len() <= 10,
{
    reveal_with_fuel(pow10, 11);
    assert(pow10(10) == 10_000_000_000);
    lemma_decimal_len_pow(v, 10);
}

proof fn lemma_decimal_len_pow(v: nat, k: nat)
    requires
        1 <= k,
        v < pow10(k),
    ensures
        decimal(v).len() <= k,
    decreases v,
{
    if v >= 10 {
        assert(k >= 2) by {
            if k == 1 {
                assert(pow10(1) == 10 * pow10(0));
            }
        }
        assert(pow10(k) == 10 * pow10((k - 1) as nat));
        assert(v / 10 < pow10((k - 1) as nat));
        lemma_decimal_len_pow(v / 10, (k - 1) as nat);
    }
}

pub open spec fn pow10(k: nat) -> nat
    decreases k,
{
    if k == 0 {
        1
    } else {
        10 * pow10((k - 1) as nat)
    }
}

/// The raw OATH secret inside a serialized key: the bytes after the 4-byte
/// header. `NotFound` when there is nothing after the header,
/// `NotEnoughMemory` when the secret exceeds the maximum.
pub fn secret_from_key_blob(blob: &[u8]) -> (r: Result<Vec<u8>, Status>)
    ensures
        blob@.len() <= KEY_HEADER_LEN ==> r == Err::<Vec<u8>, Status>(Status::NotFound),
        KEY_HEADER_LEN < blob@.len() <= KEY_HEADER_LEN + MAX_SECRET ==> (r matches Ok(v) && v@ == blob@.subrange(
            KEY_HEADER_LEN as int,
            blob@.len() as int,
        )),
        blob@.len() > KEY_HEADER_LEN + MAX_SECRET ==> r == Err::<Vec<u8>, Status>(Status::NotEnoughMemory),
{
    if blob.len() <= KEY_HEADER_LEN {
        return Err(Status::NotFound);
    }
    if blob.len() - KEY_HEADER_LEN > MAX_SECRET {
        return Err(Status::NotEnoughMemory);
    }
    Ok(vstd::slice::slice_to_vec(vstd::slice::slice_subrange(blob, KEY_HEADER_LEN, blob.len())))
}

/// The commands of the export application.
#[derive(Clone, Copy, Debug, PartialEq, Eq, Structural)]
pub enum OathCommand {
    /// Report how many credentials are stored.
    Count,
    /// Export one page, starting at the given credential index.
    Export(u16),
    /// Remove the legacy data.
    Delete,
}

/// Decode a command: COUNT, EXPORT with an empty or two-byte big-endian
/// start index, DELETE.
pub fn parse_command(ins: u8, data: &[u8]) -> (r: Result<OathCommand, Status>)
    ensures
        ins == INS_COUNT ==> r == Ok::<OathCommand, Status>(OathCommand::Count),
        ins == INS_EXPORT ==> (if data@.len() == 0 {
            r == Ok::<OathCommand, Status>(OathCommand::Export(0))
        } else if data@.len() == 2 {
            r == Ok::<OathCommand, Status>(OathCommand::Export((data@[0] as nat * 256 + data@[1] as nat) as u16))
        } else {
            r == Err::<OathCommand, Status>(Status::IncorrectDataParameter)
        }),
        ins == INS_DELETE ==> r == Ok::<OathCommand, Status>(OathCommand::Delete),
        ins != INS_COUNT && ins != INS_EXPORT && ins != INS_DELETE ==> r == Err::<OathCommand, Status>(
            Status::InstructionNotSupportedOrInvalid,
        ),
{
    if ins == INS_COUNT {
        Ok(OathCommand::Count)
    } else if ins == INS_EXPORT {
        if data.len() == 0 {
            Ok(OathCommand::Export(0))
        } else if data.len() == 2 {
            Ok(OathCommand::Export((data[0] as u16) * 256 + data[1] as u16))
        } else {
            Err(Status::IncorrectDataParameter)
        }
    } else if ins == INS_DELETE {
        Ok(OathCommand::Delete)
    } else {
        Err(Status::InstructionNotSupportedOrInvalid)
    }
}

/// Number of regular files among directory entries (saturating).
pub open spec fn count_true(flags: Seq<bool>) -> nat
    decreases flags.len(),
{
    if flags.len() == 0 {
        0
    } else {
        count_true(flags.drop_last()) + if flags.last() { 1nat } else { 0 }
    }
}

/// Count the credential files among the entries of the credential
/// directory (`true` marks a regular file), saturating at `u16::MAX`.
pub fn count_files(is_file: &[bool]) -> (n: u16)
    ensures
        n == if count_true(is_file@) <= u16::MAX { count_true(is_file@) } else { u16::MAX as nat },
{
    let mut n: u16 = 0;
    let mut i: usize = 0;
    while i < is_file.len()
        invariant
            i <= is_file@.len(),
            n == if count_true(is_file@.subrange(0, i as int)) <= u16::MAX {
                count_true(is_file@.subrange(0, i as int))
            } else {
                u16::MAX as nat
            },
        decreases is_file@.len() - i,
    {
        assert(is_file@.subrange(0, i + 1).drop_last() =~= is_file@.subrange(0, i as int));
        if is_file[i] {
            n = n.saturating_add(1);
        }
        i = i + 1;
    }
    assert(is_file@.subrange(0, is_file@.len() as int) =~= is_file@);
    n
}

/// Entry `p` of the directory is a credential file whose file index (the
/// number of files before it) is `start` or more.
pub open spec fn in_window_from(start: nat, is_file: Seq<bool>, p: int) -> bool {
    is_file[p] && count_true(is_file.subrange(0, p)) >= start
}

/// Positions below `n` of the entries `in_window_from(start, ..)`, in
/// directory order.
pub open spec fn qualifying_before(start: nat, is_file: Seq<bool>, n: nat) -> Seq<int>
    decreases n,
{
    if n == 0 {
        Seq::empty()
    } else {
        let rest = qualifying_before(start, is_file, (n - 1) as nat);
        if in_window_from(start, is_file, n - 1) {
            rest.push(n - 1)
        } else {
            rest
        }
    }
}

/// The first `k` elements of `s`, or all of them where there are fewer.
pub open spec fn first_at_most(s: Seq<int>, k: nat) -> Seq<int> {
    if s.len() <= k {
        s
    } else {
        s.take(k as int)
    }
}

/// Positions, among directory entries, of the credential files with file
/// index `start` and after: the first `WINDOW` of them, in directory order.
pub open spec fn window_positions(start: nat, is_file: Seq<bool>) -> Seq<int> {
    first_at_most(qualifying_before(start, is_file, is_file.len()), WINDOW as nat)
}

proof fn lemma_count_step(f: Seq<bool>, p: int)
    requires
        0 <= p < f.len(),
    ensures
        count_true(f.subrange(0, p + 1)) == count_true(f.subrange(0, p)) + if f[p] { 1nat } else { 0nat },
{
    assert(f.subrange(0, p + 1).drop_last() =~= f.subrange(0, p));
}

proof fn lemma_count_grows(f: Seq<bool>, p: int, q: int)
    requires
        0 <= p < q <= f.len(),
        f[p],
    ensures
        count_true(f.subrange(0, p)) < count_true(f.subrange(0, q)),
    decreases q - p,
{
    lemma_count_step(f, q - 1);
    if q - 1 > p {
        lemma_count_grows(f, p, q - 1);
    }
}

proof fn lemma_qualifying(start: nat, f: Seq<bool>, n: nat)
    requires
        n <= f.len(),
    ensures
        ({
            let q = qualifying_before(start, f, n);
            let c = count_true(f.subrange(0, n as int));
            &&& q.len() == if c >= start { (c - start) as nat } else { 0nat }
            &&& forall|j: int| 0 <= j < q.len() ==> 0 <= #[trigger] q[j] < n && f[q[j]]
                && count_true(f.subrange(0, q[j])) == start + j
        }),
    decreases n,
{
    if n > 0 {
        lemma_qualifying(start, f, (n - 1) as nat);
        lemma_count_step(f, n - 1);
    } else {
        assert(f.subrange(0, 0) =~= Seq::<bool>::empty());
    }
}

/// Paging through the export loses nothing: after the first `k` entries of
/// the window at file index `start` are taken, the window at `start + k`
/// begins with the next one.
pub proof fn lemma_window_resumes(start: nat, k: nat, is_file: Seq<bool>)
    requires
        k < window_positions(start, is_file).len(),
    ensures
        window_positions(start + k, is_file).len() > 0,
        window_positions(start + k, is_file)[0] == window_positions(start, is_file)[k as int],
{
    let n = is_file.len();
    let q1 = qualifying_before(start, is_file, n);
    let q2 = qualifying_before(start + k, is_file, n);
    lemma_qualifying(start, is_file, n);
    lemma_qualifying(start + k, is_file, n);
    assert(window_positions(start, is_file)[k as int] == q1[k as int]);
    assert(q2.len() > 0);
    assert(window_positions(start + k, is_file)[0] == q2[0]);
    let a = q1[k as int];
    let b = q2[0];
    if a < b {
        lemma_count_grows(is_file, a, b);
    } else if b < a {
        lemma_count_grows(is_file, b, a);
    }
}

/// Collect the positions of the first `WINDOW` credential files at file
/// index `start` and after (the caller then reads and packs them).
pub fn collect_window(start: u16, is_file: &[bool]) -> (r: Vec<usize>)
    ensures
        r@.map_values(|x: usize| x as int) == window_positions(start as nat, is_file@),
{
    let mut names: Vec<usize> = Vec::new();
    let mut index: u16 = 0;
    let mut i: usize = 0;
    while i < is_file.len()
        invariant
            i <= is_file@.len(),
            index == if count_true(is_file@.subrange(0, i as int)) <= u16::MAX {
                count_true(is_file@.subrange(0, i as int))
            } else {
                u16::MAX as nat
            },
            names@.map_values(|x: usize| x as int) == first_at_most(
                qualifying_before(start as nat, is_file@, i as nat),
                WINDOW as nat,
            ),
        decreases is_file@.len() - i,
    {
        assert(is_file@.subrange(0, i + 1).drop_last() =~= is_file@.subrange(0, i as int));
        let ghost q = qualifying_before(start as nat, is_file@, i as nat);
        let ghost old_names = names@;
        assert(old_names.len() == first_at_most(q, WINDOW as nat).len());
        if is_file[i] {
            if index >= start && names.len() < WINDOW {
                names.push(i);
                assert(first_at_most(q.push(i as int), WINDOW as nat) =~= q.push(i as int));
                assert(names@.map_values(|x: usize| x as int) =~= old_names.map_values(|x: usize| x as int).push(
                    i as int,
                ));
            } else if index >= start {
                assert(first_at_most(q.push(i as int), WINDOW as nat) =~= first_at_most(q, WINDOW as nat));
            }
            index = index.saturating_add(1);
        }
        assert(names@.map_values(|x: usize| x as int) =~= first_at_most(
            qualifying_before(start as nat, is_file@, (i + 1) as nat),
            WINDOW as nat,
        ));
        i = i + 1;
    }
    assert(is_file@.subrange(0, is_file@.len() as int) =~= is_file@);
    names
}

/// The export application's state: one touch at the start of an export
/// authorizes its later pages; a (re)selection revokes it.
pub struct OathExport {
    authorized: bool,
}

impl OathExport {
    pub closed spec fn is_authorized(&self) -> bool {
        self.authorized
    }

    pub fn new() -> (r: OathExport)
        ensures
            !r.is_authorized(),
    {
        OathExport { authorized: false }
    }

    /// SELECT: a fresh selection requires a new touch.
    pub fn select(&mut self)
        ensures
            !final(self).is_authorized(),
    {
        self.authorized = false;
    }

    pub fn deselect(&mut self)
        ensures
            !final(self).is_authorized(),
    {
        self.authorized = false;
    }

    /// Whether exporting from `start` asks for a touch first (page 0 only).
    pub fn export_needs_touch(start: u16) -> (r: bool)
        ensures
            r == (start == 0),
    {
        start == 0
    }

    /// Authorize exporting the page at `start`: page 0 requires the touch
    /// to have been confirmed and then authorizes the later pages; a later
    /// page requires an earlier authorization.
    pub fn authorize_export(&mut self, start: u16, touch_confirmed: bool) -> (r: Result<(), Status>)
        ensures
            start == 0 ==> (if touch_confirmed {
                r is Ok && final(self).is_authorized()
            } else {
                r == Err::<(), Status>(Status::SecurityStatusNotSatisfied) && final(self).is_authorized() == old(
                    self,
                ).is_authorized()
            }),
            start != 0 ==> final(self).is_authorized() == old(self).is_authorized() && (r is Ok <==> old(
                self,
            ).is_authorized()) && (r is Err ==> r == Err::<(), Status>(Status::SecurityStatusNotSatisfied)),
    {
        if start == 0 {
            if !touch_confirmed {
                return Err(Status::SecurityStatusNotSatisfied);
            }
            self.authorized = true;
        } else if !self.authorized {
            return Err(Status::SecurityStatusNotSatisfied);
        }
        Ok(())
    }

    /// DELETE is destructive: it requires a confirmed touch.
    pub fn authorize_delete(touch_confirmed: bool) -> (r: Result<(), Status>)
        ensures
            r is Ok <==> touch_confirmed,
            r is Err ==> r == Err::<(), Status>(Status::SecurityStatusNotSatisfied),
    {
        if touch_confirmed {
            Ok(())
        } else {
            Err(Status::SecurityStatusNotSatisfied)
        }
    }
}

/// The body of one export page, filled with whole lines.
pub struct PageBuilder {
    body: BoundedBuf,
    packed: u16,
}

impl PageBuilder {
    pub closed spec fn wf(&self) -> bool {
        &&& self.body.wf()
        &&& self.body.capacity() == PAGE_BUDGET
    }

    pub closed spec fn body(&self) -> Seq<u8> {
        self.body.contents()
    }

    pub closed spec fn packed(&self) -> u16 {
        self.packed
    }

    pub fn new() -> (r: PageBuilder)
        ensures
            r.wf(),
            r.body() == Seq::<u8>::empty(),
            r.packed() == 0,
    {
        PageBuilder { body: BoundedBuf::new(PAGE_BUDGET), packed: 0 }
    }

    /// Add the next line if it fits the page; a line always goes onto an
    /// empty page. Returns `false` (changing nothing) when the page is full,
    /// which ends the page at a whole-line boundary.
    pub fn add(&mut self, line: &[u8]) -> (r: Result<bool, Status>)
        requires
            old(self).wf(),
        ensures
            final(self).wf(),
            old(self).body().len() > 0 && old(self).body().len() + line@.len() > PAGE_BUDGET ==> r == Ok::<bool, Status>(
                false,
            ) && *final(self) == *old(self),
            old(self).body().len() == 0 && line@.len() > PAGE_BUDGET ==> r == Err::<bool, Status>(Status::NotEnoughMemory),
            old(self).body().len() + line@.len() <= PAGE_BUDGET ==> {
                &&& r == Ok::<bool, Status>(true)
                &&& final(self).body() == old(self).body() + line@
                &&& final(self).packed() == if old(self).packed() < u16::MAX {
                    (old(self).packed() + 1) as u16
                } else {
                    u16::MAX
                }
            },
    {
        proof {
            self.body.lemma_bounded();
        }
        if !self.body.is_empty() && line.len() > PAGE_BUDGET - self.body.len() {
            return Ok(false);
        }
        proof {
            reveal_with_fuel(write_pieces, 2);
            assert(seq![line@].drop_first() =~= Seq::<Seq<u8>>::empty());
        }
        if self.body.extend_from_slice(line).is_err() {
            return Err(Status::NotEnoughMemory);
        }
        self.packed = self.packed.saturating_add(1);
        Ok(true)
    }

    /// The page: the index of the next credential (`start` plus the lines
    /// packed, saturating) as two big-endian bytes, then the lines.
    pub fn finish(self, start: u16) -> (r: Vec<u8>)
        requires
            self.wf(),
        ensures
            ({
                let next: nat = if start + self.packed() <= u16::MAX { (start + self.packed()) as nat } else { u16::MAX as nat };
                r@ == seq![(next / 256) as u8, (next % 256) as u8] + self.body()
            }),
    {
        let next = start.saturating_add(self.packed);
        let mut page: Vec<u8> = Vec::new();
        page.push((next / 256) as u8);
        page.push((next % 256) as u8);
        page.extend_from_slice(self.body.as_slice());
        page
    }
}

/// Paging makes progress: a line of at most `MAX_LINE` bytes always goes
/// onto an empty page, so every non-final page advances the start index.
pub proof fn lemma_page_progress(line_len: nat)
    requires
        line_len <= MAX_LINE,
    ensures
        0 + line_len <= PAGE_BUDGET,
{
}

} // verus!
