//! A bounded DER writer: tag-length-value items with minimal length octets,
//! written into a buffer of fixed capacity.

use vstd::prelude::*;

verus! {

/// ASN.1 tags used by the writer.
#[derive(Clone, Copy, Debug, PartialEq, Eq, Structural)]
pub enum Tag {
    Integer,
    Sequence,
}

impl Tag {
    pub open spec fn spec_code(&self) -> u8 {
        match self {
            Tag::Integer => 0x02,
            Tag::Sequence => 0x30,
        }
    }

    /// The tag byte: `INTEGER` is `0x02`, `SEQUENCE` is constructed `0x10`.
    pub fn code(&self) -> (r: u8)
        ensures
            r == self.spec_code(),
    {
        match self {
            Tag::Integer => 0x02,
            Tag::Sequence => 0x30,
        }
    }
}

/// The universal ASN.1 tags: `INTEGER` is `02`, `SEQUENCE` (constructed) `30`.
pub proof fn lemma_tag_codes(x: Tag)
    ensures
        (x == Tag::Integer) <==> x.spec_code() == 0x02,
        (x == Tag::Sequence) <==> x.spec_code() == 0x30,
{
}

/// Big-endian bytes of `n` without leading zeros (empty for zero).
pub open spec fn minimal_be(n: nat) -> Seq<u8>
    decreases n,
{
    if n == 0 {
        Seq::empty()
    } else {
        minimal_be(n / 256).push((n % 256) as u8)
    }
}

/// `256^k`
pub open spec fn pow256(k: nat) -> nat
    decreases k,
{
    if k == 0 {
        1
    } else {
        256 * pow256((k - 1) as nat)
    }
}

/// The first length octet: the length itself below 128, otherwise `0x80`
/// plus the number of big-endian bytes that follow.
pub open spec fn length_head(n: nat) -> Seq<u8> {
    if n < 128 {
        seq![n as u8]
    } else {
        seq![(0x80 + minimal_be(n).len()) as u8]
    }
}

/// The length octets after the first one.
pub open spec fn length_tail(n: nat) -> Seq<u8> {
    if n < 128 {
        Seq::empty()
    } else {
        minimal_be(n)
    }
}

/// DER length octets of `n`.
pub open spec fn length_octets(n: nat) -> Seq<u8> {
    length_head(n) + length_tail(n)
}

/// A complete tag-length-value item.
pub open spec fn tlv(tag: Seq<u8>, value: Seq<u8>) -> Seq<u8> {
    tag + length_octets(value.len()) + value
}

/// Appending pieces one after the other to a buffer of capacity `cap`:
/// each piece goes in whole if it fits, and the first that does not fit
/// stops the writing with an error, keeping what was written before it.
pub open spec fn write_pieces(buf: Seq<u8>, cap: nat, pieces: Seq<Seq<u8>>) -> (Seq<u8>, bool)
    decreases pieces.len(),
{
    if pieces.len() == 0 {
        (buf, true)
    } else if buf.len() + pieces[0].len() > cap {
        (buf, false)
    } else {
        write_pieces(buf + pieces[0], cap, pieces.drop_first())
    }
}

pub proof fn lemma_minimal_be_len(n: nat, k: nat)
    requires
        n < pow256(k),
    ensures
        minimal_be(n).len() <= k,
    decreases n,
{
    if n > 0 {
        if k == 0 {
        } else {
            assert(n / 256 < pow256((k - 1) as nat));
            lemma_minimal_be_len(n / 256, (k - 1) as nat);
        }
    }
}

/// Minimal big-endian bytes of a length below `2^16` are at most two.
pub proof fn lemma_minimal_be_small(n: nat)
    requires
        128 <= n < 65536,
    ensures
        n < 256 ==> minimal_be(n) == seq![n as u8],
        n >= 256 ==> minimal_be(n) == seq![(n / 256) as u8, (n % 256) as u8],
{
    if n < 256 {
        assert(minimal_be(n / 256) == Seq::<u8>::empty());
    } else {
        let h = n / 256;
        assert(0 < h < 256);
        assert(minimal_be(h / 256) == Seq::<u8>::empty());
        assert(minimal_be(h) == seq![(h % 256) as u8]);
    }
}

/// When a whole item fits, writing its four pieces appends the item.
pub proof fn lemma_write_tlv_fits(buf: Seq<u8>, cap: nat, tag: Seq<u8>, value: Seq<u8>)
    requires
        buf.len() + tlv(tag, value).len() <= cap,
    ensures
        write_pieces(buf, cap, seq![tag, length_head(value.len()), length_tail(value.len()), value])
            == (buf + tlv(tag, value), true),
{
    reveal_with_fuel(write_pieces, 5);
    let pieces = seq![tag, length_head(value.len()), length_tail(value.len()), value];
    assert(pieces.drop_first() =~= seq![length_head(value.len()), length_tail(value.len()), value]);
    assert(pieces.drop_first().drop_first() =~= seq![length_tail(value.len()), value]);
    assert(pieces.drop_first().drop_first().drop_first() =~= seq![value]);
    assert(pieces.drop_first().drop_first().drop_first().drop_first() =~= Seq::<Seq<u8>>::empty());
    assert(tlv(tag, value) =~= tag + length_head(value.len()) + length_tail(value.len()) + value);
    assert(buf + tag + length_head(value.len()) + length_tail(value.len()) + value =~= buf + tlv(tag, value));
}

/// DER writer into a buffer of fixed capacity.
#[derive(Debug)]
pub struct Der {
    buf: Vec<u8>,
    cap: usize,
}

impl Der {
    /// The capacity bounds the contents.
    pub closed spec fn wf(&self) -> bool {
        self.buf@.len() <= self.cap
    }

    pub closed spec fn contents(&self) -> Seq<u8> {
        self.buf@
    }

    pub closed spec fn capacity(&self) -> nat {
        self.cap as nat
    }

    /// Create an empty writer of the given capacity.
    pub fn new(cap: usize) -> (r: Der)
        ensures
            r.wf(),
            r.contents() == Seq::<u8>::empty(),
            r.capacity() == cap,
    {
        Der { buf: Vec::new(), cap }
    }

    /// Return underlying buffer
    pub fn into_inner(self) -> (r: Vec<u8>)
        ensures
            r@ == self.contents(),
    {
        self.buf
    }

    /// Number of bytes written.
    pub fn len(&self) -> (r: usize)
        ensures
            r == self.contents().len(),
    {
        self.buf.len()
    }

    /// The bytes written.
    pub fn as_slice(&self) -> (r: &[u8])
        ensures
            r@ == self.contents(),
    {
        self.buf.as_slice()
    }

    /// Append all of `data` if it fits; otherwise fail and leave the buffer as it is.
    pub fn extend_from_slice(&mut self, data: &[u8]) -> (r: Result<(), ()>)
        requires
            old(self).wf(),
        ensures
            final(self).wf(),
            final(self).capacity() == old(self).capacity(),
            (final(self).contents(), r is Ok) == write_pieces(old(self).contents(), old(self).capacity(), seq![data@]),
    {
        proof {
            reveal_with_fuel(write_pieces, 2);
        }
        if data.len() > self.cap - self.buf.len() {
            return Err(());
        }
        self.buf.extend_from_slice(data);
        assert(seq![data@].drop_first() =~= Seq::<Seq<u8>>::empty());
        Ok(())
    }

    /// Minimal big-endian bytes of a length.
    pub fn minimal_be_bytes(length: usize) -> (r: Vec<u8>)
        ensures
            r@ == minimal_be(length as nat),
            r@.len() <= 8,
    {
        let mut repr: Vec<u8> = Vec::new();
        let mut v = length;
        while v > 0
            invariant
                minimal_be(length as nat) == minimal_be(v as nat) + repr@,
            decreases v,
        {
            let ghost old_repr = repr@;
            repr.insert(0, (v % 256) as u8);
            assert(repr@ =~= seq![(v % 256) as u8] + old_repr);
            assert(minimal_be(v as nat) == minimal_be((v / 256) as nat).push((v % 256) as u8));
            assert(minimal_be((v / 256) as nat).push((v % 256) as u8) + old_repr =~= minimal_be(
                (v / 256) as nat,
            ) + repr@);
            v = v / 256;
        }
        assert(minimal_be(0) + repr@ =~= repr@);
        proof {
            reveal_with_fuel(pow256, 9);
            assert(pow256(8) == 0x1_0000_0000_0000_0000);
            lemma_minimal_be_len(length as nat, 8);
        }
        repr
    }

    /// Write the DER length octets of `length`.
    pub fn write_length_field(&mut self, length: usize) -> (r: Result<(), ()>)
        requires
            old(self).wf(),
        ensures
            final(self).wf(),
            final(self).capacity() == old(self).capacity(),
            (final(self).contents(), r is Ok) == write_pieces(
                old(self).contents(),
                old(self).capacity(),
                seq![length_head(length as nat), length_tail(length as nat)],
            ),
    {
        proof {
            reveal_with_fuel(write_pieces, 3);
        }
        if length < 0x80 {
            // values under 128: write length directly as u8
            let r = self.extend_from_slice(&[length as u8]);
            proof {
                assert(seq![length_head(length as nat), length_tail(length as nat)].drop_first().drop_first()
                    =~= Seq::<Seq<u8>>::empty());
                assert(self.contents() + Seq::<u8>::empty() =~= self.contents());
            }
            r
        } else {
            // at least 128: number of bytes with bit 7 set, then the
            // minimal big-endian representation
            let repr = Self::minimal_be_bytes(length);
            let head = 0x80u8 + repr.len() as u8;
            let ghost before = self.contents();
            let r1 = self.extend_from_slice(&[head]);
            if r1.is_err() {
                return r1;
            }
            let r = self.extend_from_slice(repr.as_slice());
            proof {
                let pieces = seq![length_head(length as nat), length_tail(length as nat)];
                assert(pieces[0] == seq![head]);
                assert(pieces.drop_first()[0] == repr@);
                assert(pieces.drop_first().drop_first() =~= Seq::<Seq<u8>>::empty());
            }
            r
        }
    }

    /// Write an arbitrary tag-length-value
    pub fn raw_tlv(&mut self, tag: u8, value: &[u8]) -> (r: Result<(), ()>)
        requires
            old(self).wf(),
        ensures
            final(self).wf(),
            final(self).capacity() == old(self).capacity(),
            (final(self).contents(), r is Ok) == write_pieces(
                old(self).contents(),
                old(self).capacity(),
                seq![seq![tag], length_head(value@.len()), length_tail(value@.len()), value@],
            ),
    {
        let mut t: Vec<u8> = Vec::new();
        t.push(tag);
        assert(t@ =~= seq![tag]);
        self.write_tlv(t.as_slice(), value)
    }

    /// Write an arbitrary tag-length-value with 2-byte tag
    /// NB: everything in ISO 7816 is big-endian
    pub fn raw_tlv2(&mut self, tag: u16, value: &[u8]) -> (r: Result<(), ()>)
        requires
            old(self).wf(),
        ensures
            final(self).wf(),
            final(self).capacity() == old(self).capacity(),
            (final(self).contents(), r is Ok) == write_pieces(
                old(self).contents(),
                old(self).capacity(),
                seq![seq![(tag / 256) as u8, (tag % 256) as u8], length_head(value@.len()), length_tail(value@.len()), value@],
            ),
    {
        let hi = (tag / 256) as u8;
        let lo = (tag % 256) as u8;
        let mut t: Vec<u8> = Vec::new();
        t.push(hi);
        t.push(lo);
        assert(t@ =~= seq![hi, lo]);
        self.write_tlv(t.as_slice(), value)
    }

    fn write_tlv(&mut self, tag: &[u8], value: &[u8]) -> (r: Result<(), ()>)
        requires
            old(self).wf(),
        ensures
            final(self).wf(),
            final(self).capacity() == old(self).capacity(),
            (final(self).contents(), r is Ok) == write_pieces(
                old(self).contents(),
                old(self).capacity(),
                seq![tag@, length_head(value@.len()), length_tail(value@.len()), value@],
            ),
    {
        let ghost pieces = seq![tag@, length_head(value@.len()), length_tail(value@.len()), value@];
        proof {
            reveal_with_fuel(write_pieces, 2);
            assert(pieces.drop_first() =~= seq![length_head(value@.len()), length_tail(value@.len()), value@]);
            assert(pieces.drop_first().drop_first() =~= seq![length_tail(value@.len()), value@]);
            assert(pieces.drop_first().drop_first().drop_first() =~= seq![value@]);
        }
        let r1 = self.extend_from_slice(tag);
        if r1.is_err() {
            return r1;
        }
        let ghost mid = self.contents();
        let r2 = self.write_length_field(value.len());
        proof {
            lemma_write_pieces_append(mid, self.capacity(), seq![length_head(value@.len()), length_tail(value@.len())], seq![value@]);
            assert(seq![length_head(value@.len()), length_tail(value@.len())] + seq![value@] =~= pieces.drop_first());
        }
        if r2.is_err() {
            return r2;
        }
        self.extend_from_slice(value)
    }

    /// Write a nested structure: the serialized intermediate structure
    /// `content`, preceded by `tag` and the length of `content`.
    ///
    /// The content is written first; if the tag-length prefix then does not
    /// fit, the content stays and an error is returned.
    pub fn nested(&mut self, tag: u8, content: &[u8]) -> (r: Result<(), ()>)
        requires
            old(self).wf(),
        ensures
            final(self).wf(),
            final(self).capacity() == old(self).capacity(),
            old(self).contents().len() + content@.len() > old(self).capacity() ==> {
                &&& r is Err
                &&& final(self).contents() == old(self).contents()
            },
            old(self).contents().len() + content@.len() <= old(self).capacity() ==> {
                let prefix = seq![tag] + length_octets(content@.len());
                if old(self).contents().len() + prefix.len() + content@.len() <= old(self).capacity() {
                    &&& r is Ok
                    &&& final(self).contents() == old(self).contents() + tlv(seq![tag], content@)
                } else {
                    &&& r is Err
                    &&& final(self).contents() == old(self).contents() + content@
                }
            },
    {
        let before = self.buf.len();
        if content.len() > self.cap - before {
            return Err(());
        }
        self.buf.extend_from_slice(content);
        let written = content.len();

        // generate prefix consisting of "tag" and length of nested structure
        let mut prefix = Der::new(12);
        let _ = prefix.extend_from_slice(&[tag]);
        let _ = prefix.write_length_field(written);
        proof {
            reveal_with_fuel(write_pieces, 3);
            assert(seq![tag].len() == 1);
            lemma_length_octets_len(written as nat);
            let pieces = seq![length_head(written as nat), length_tail(written as nat)];
            assert(pieces.drop_first().drop_first() =~= Seq::<Seq<u8>>::empty());
            assert(seq![seq![tag]].drop_first() =~= Seq::<Seq<u8>>::empty());
            assert(prefix.contents() =~= seq![tag] + length_octets(written as nat));
        }
        if prefix.len() > self.cap - self.buf.len() {
            return Err(());
        }
        let mut i: usize = 0;
        let ghost old_buf = self.buf@;
        let ghost cap0 = self.cap;
        let plen = prefix.len();
        while i < plen
            invariant
                0 <= i <= plen,
                plen == prefix.contents().len(),
                before <= old_buf.len(),
                old_buf.len() + plen <= cap0,
                self.cap == cap0,
                self.buf@ =~= old_buf.subrange(0, before as int) + prefix.contents().subrange(0, i as int)
                    + old_buf.subrange(before as int, old_buf.len() as int),
            decreases plen - i,
        {
            let b = prefix.as_slice()[i];
            self.buf.insert(before + i, b);
            i = i + 1;
        }
        proof {
            assert(prefix.contents().subrange(0, plen as int) =~= prefix.contents());
            assert(old_buf.subrange(0, before as int) =~= old(self).contents());
            assert(old_buf.subrange(before as int, old_buf.len() as int) =~= content@);
            assert(self.buf@ =~= old(self).contents() + tlv(seq![tag], content@));
        }
        Ok(())
    }

    /// Write a `SEQUENCE` around the serialized content.
    pub fn sequence(&mut self, content: &[u8]) -> (r: Result<(), ()>)
        requires
            old(self).wf(),
        ensures
            final(self).wf(),
            final(self).capacity() == old(self).capacity(),
            old(self).contents().len() + content@.len() + 1 + length_octets(content@.len()).len() <= old(self).capacity()
                ==> r is Ok && final(self).contents() == old(self).contents() + tlv(seq![0x30u8], content@),
            r is Err ==> final(self).contents() == old(self).contents()
                || final(self).contents() == old(self).contents() + content@,
    {
        self.nested(Tag::Sequence.code(), content)
    }
}

/// Length octets are one byte below 128 and at most nine bytes.
pub proof fn lemma_length_octets_len(n: nat)
    requires
        n < 0x1_0000_0000_0000_0000,
    ensures
        n < 128 ==> length_octets(n).len() == 1,
        n >= 128 ==> length_octets(n).len() == 1 + minimal_be(n).len(),
        length_octets(n).len() <= 9,
{
    reveal_with_fuel(pow256, 9);
            assert(pow256(8) == 0x1_0000_0000_0000_0000);
    lemma_minimal_be_len(n, 8);
}

/// Writing `a` then `b` is writing `a + b`, when the first part succeeded.
pub proof fn lemma_write_pieces_append(buf: Seq<u8>, cap: nat, a: Seq<Seq<u8>>, b: Seq<Seq<u8>>)
    ensures
        write_pieces(buf, cap, a).1 ==> write_pieces(buf, cap, a + b) == write_pieces(
            write_pieces(buf, cap, a).0,
            cap,
            b,
        ),
        !write_pieces(buf, cap, a).1 ==> write_pieces(buf, cap, a + b) == write_pieces(buf, cap, a),
    decreases a.len(),
{
    if a.len() == 0 {
        assert(a + b =~= b);
    } else {
        assert((a + b)[0] == a[0]);
        assert((a + b).drop_first() =~= a.drop_first() + b);
        if buf.len() + a[0].len() <= cap {
            lemma_write_pieces_append(buf + a[0], cap, a.drop_first(), b);
        }
    }
}

/// DER length octets of `n`.
pub fn length_octets_bytes(n: usize) -> (r: Vec<u8>)
    ensures
        r@ == length_octets(n as nat),
{
    if n < 0x80 {
        let mut r: Vec<u8> = Vec::new();
        r.push(n as u8);
        assert(r@ =~= length_octets(n as nat));
        r
    } else {
        let repr = Der::minimal_be_bytes(n);
        let mut r: Vec<u8> = Vec::new();
        r.push(0x80u8 + repr.len() as u8);
        r.extend_from_slice(repr.as_slice());
        assert(r@ =~= length_octets(n as nat));
        r
    }
}

/// Append a complete tag-length-value item.
pub fn push_tlv(out: &mut Vec<u8>, tag: &[u8], value: &[u8])
    ensures
        final(out)@ == old(out)@ + tlv(tag@, value@),
{
    out.extend_from_slice(tag);
    let len = length_octets_bytes(value.len());
    out.extend_from_slice(len.as_slice());
    out.extend_from_slice(value);
    assert(final(out)@ =~= old(out)@ + tlv(tag@, value@));
}

} // verus!
