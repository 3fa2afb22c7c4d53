//! A DER reader for tag-length-value items with one-byte tags and lengths
//! of at most two octets.

use vstd::prelude::*;
use crate::der::{length_octets, length_head, length_tail, minimal_be, tlv, lemma_minimal_be_small};

verus! {

/// Reading errors.
#[derive(Clone, Copy, Debug, PartialEq, Eq, Structural)]
pub enum Error {
    HighTagNumberForm,
    LongLengthNotSupported,
    NonCanonical,
    Read,
    UnexpectedEnd,
    WrongTag,
    WrongValue,
}

/// Result of reading the header of an item: its tag, the number of header
/// bytes, and the announced value length.
pub open spec fn spec_header(s: Seq<u8>) -> Result<(u8, nat, nat), Error> {
    if s.len() < 1 {
        Err(Error::UnexpectedEnd)
    } else if s[0] % 32 == 31 {
        Err(Error::HighTagNumberForm)
    } else if s.len() < 2 {
        Err(Error::UnexpectedEnd)
    } else if s[1] < 128 {
        Ok((s[0], 2, s[1] as nat))
    } else if s[1] == 0x81 {
        if s.len() < 3 {
            Err(Error::UnexpectedEnd)
        } else if s[2] < 128 {
            Err(Error::NonCanonical)
        } else {
            Ok((s[0], 3, s[2] as nat))
        }
    } else if s[1] == 0x82 {
        if s.len() < 4 {
            Err(Error::UnexpectedEnd)
        } else if (s[2] as nat) * 256 + (s[3] as nat) < 256 {
            Err(Error::NonCanonical)
        } else {
            Ok((s[0], 4, (s[2] as nat) * 256 + (s[3] as nat)))
        }
    } else {
        Err(Error::LongLengthNotSupported)
    }
}

/// Reading one item from the front of `s`: its tag, where its value starts
/// and how long the value is.
pub open spec fn spec_read_tlv(s: Seq<u8>) -> Result<(u8, nat, nat), Error> {
    match spec_header(s) {
        Err(e) => Err(e),
        Ok((tag, hdr, len)) => if hdr + len > s.len() {
            Err(Error::UnexpectedEnd)
        } else {
            Ok((tag, hdr, len))
        },
    }
}

/// Read the next tag, and return it, its value and the number of bytes
/// consumed.
pub fn read_tag_and_get_value(input: &[u8]) -> (res: Result<(u8, &[u8], usize), Error>)
    ensures
        match (res, spec_read_tlv(input@)) {
            (Ok((tag, value, consumed)), Ok((stag, hdr, len))) => {
                &&& tag == stag
                &&& consumed == hdr + len
                &&& value@ == input@.subrange(hdr as int, (hdr + len) as int)
            },
            (Err(e), Err(se)) => e == se,
            _ => false,
        },
{
    if input.len() < 1 {
        return Err(Error::UnexpectedEnd);
    }
    let tag = input[0];
    assert((tag & 0x1f == 0x1f) == (tag % 32 == 31)) by (bit_vector);
    if (tag & 0x1F) == 0x1F {
        return Err(Error::HighTagNumberForm);
    }
    if input.len() < 2 {
        return Err(Error::UnexpectedEnd);
    }
    // If the high order bit of the first byte is set to zero then the length
    // is encoded in the seven remaining bits of that byte. Otherwise, those
    // seven bits represent the number of bytes used to encode the length.
    let n = input[1];
    let hdr: usize;
    let length: usize;
    if n < 128 {
        hdr = 2;
        length = n as usize;
    } else if n == 0x81 {
        if input.len() < 3 {
            return Err(Error::UnexpectedEnd);
        }
        let second_byte = input[2];
        if second_byte < 128 {
            return Err(Error::NonCanonical);
        }
        hdr = 3;
        length = second_byte as usize;
    } else if n == 0x82 {
        if input.len() < 4 {
            return Err(Error::UnexpectedEnd);
        }
        let combined = (input[2] as usize) * 256 + (input[3] as usize);
        if combined < 256 {
            return Err(Error::NonCanonical);
        }
        hdr = 4;
        length = combined;
    } else {
        return Err(Error::LongLengthNotSupported);
    }
    if length > input.len() - hdr {
        return Err(Error::UnexpectedEnd);
    }
    let value = vstd::slice::slice_subrange(input, hdr, hdr + length);
    Ok((tag, value, hdr + length))
}

/// Read a tag and return its value and the bytes consumed. Errors when the
/// expected and actual tag do not match.
pub fn expect_tag_and_get_value(input: &[u8], tag: u8) -> (res: Result<(&[u8], usize), Error>)
    ensures
        match (res, spec_read_tlv(input@)) {
            (Ok((value, consumed)), Ok((stag, hdr, len))) => {
                &&& stag == tag
                &&& consumed == hdr + len
                &&& value@ == input@.subrange(hdr as int, (hdr + len) as int)
            },
            (Err(e), Ok((stag, _, _))) => stag != tag && e == Error::WrongTag,
            (Err(e), Err(se)) => e == se,
            _ => false,
        },
{
    let (actual_tag, inner, consumed) = read_tag_and_get_value(input)?;
    if tag != actual_tag {
        return Err(Error::WrongTag);
    }
    Ok((inner, consumed))
}

/// Read a tag and its value, and return the bytes consumed. Errors when
/// the expected and actual tag and values do not match.
pub fn expect_tag_and_value(input: &[u8], tag: u8, value: &[u8]) -> (res: Result<usize, Error>)
    ensures
        match (res, spec_read_tlv(input@)) {
            (Ok(consumed), Ok((stag, hdr, len))) => {
                &&& stag == tag
                &&& consumed == hdr + len
                &&& value@ == input@.subrange(hdr as int, (hdr + len) as int)
            },
            (Err(e), Ok((stag, hdr, len))) => if stag != tag {
                e == Error::WrongTag
            } else {
                value@ != input@.subrange(hdr as int, (hdr + len) as int) && e == Error::WrongValue
            },
            (Err(e), Err(se)) => e == se,
            _ => false,
        },
{
    let (actual_tag, inner, consumed) = read_tag_and_get_value(input)?;
    if tag != actual_tag {
        return Err(Error::WrongTag);
    }
    if !bytes_eq(value, inner) {
        return Err(Error::WrongValue);
    }
    Ok(consumed)
}

/// Return the value of an item with the given tag that must span the whole
/// input (the value is then decoded by the caller). Errors with `Read` when
/// bytes are left over after the item.
pub fn nested(input: &[u8], tag: u8) -> (res: Result<&[u8], Error>)
    ensures
        match (res, spec_read_tlv(input@)) {
            (Ok(value), Ok((stag, hdr, len))) => {
                &&& stag == tag
                &&& hdr + len == input@.len()
                &&& value@ == input@.subrange(hdr as int, (hdr + len) as int)
            },
            (Err(e), Ok((stag, hdr, len))) => if stag != tag {
                e == Error::WrongTag
            } else {
                hdr + len != input@.len() && e == Error::Read
            },
            (Err(e), Err(se)) => e == se,
            _ => false,
        },
{
    let (inner, consumed) = expect_tag_and_get_value(input, tag)?;
    if consumed != input.len() {
        return Err(Error::Read);
    }
    Ok(inner)
}

/// Byte-wise equality of two slices.
pub fn bytes_eq(a: &[u8], b: &[u8]) -> (r: bool)
    ensures
        r == (a@ == b@),
{
    if a.len() != b.len() {
        return false;
    }
    let mut i: usize = 0;
    while i < a.len()
        invariant
            a@.len() == b@.len(),
            0 <= i <= a@.len(),
            forall|j: int| 0 <= j < i ==> a@[j] == b@[j],
        decreases a@.len() - i,
    {
        if a[i] != b[i] {
            return false;
        }
        i = i + 1;
    }
    assert(a@ =~= b@);
    true
}

/// What the writer writes, the reader reads back: an item with a one-byte
/// low tag number and a value shorter than `2^16` bytes, followed by any
/// bytes, reads as that tag and that value, consuming exactly the item.
pub proof fn lemma_read_written_tlv(tag: u8, value: Seq<u8>, rest: Seq<u8>)
    requires
        tag % 32 != 31,
        value.len() < 65536,
    ensures
        spec_read_tlv(tlv(seq![tag], value) + rest) == Ok::<(u8, nat, nat), Error>((
            tag,
            1 + length_octets(value.len()).len(),
            value.len(),
        )),
        (tlv(seq![tag], value) + rest).subrange(
            1 + length_octets(value.len()).len() as int,
            1 + length_octets(value.len()).len() + value.len() as int,
        ) == value,
{
    let n = value.len();
    let s = tlv(seq![tag], value) + rest;
    let lo = length_octets(n);
    assert(s =~= seq![tag] + lo + value + rest);
    if n < 128 {
        assert(lo =~= seq![n as u8]);
        assert(s[1] == n as u8);
    } else {
        lemma_minimal_be_small(n);
        if n < 256 {
            assert(lo =~= seq![0x81u8, n as u8]);
            assert(s[1] == 0x81u8);
            assert(s[2] == n as u8);
        } else {
            assert(lo =~= seq![0x82u8, (n / 256) as u8, (n % 256) as u8]);
            assert(s[1] == 0x82u8);
            assert(s[2] == (n / 256) as u8);
            assert(s[3] == (n % 256) as u8);
        }
    }
    assert(s.subrange(1 + lo.len() as int, 1 + lo.len() + n as int) =~= value);
}

} // verus!
