//! Byte buffers of fixed capacity: writes that do not fit fail and leave
//! the buffer unchanged.

use vstd::prelude::*;
use crate::der::{write_pieces, lemma_write_pieces_append};

verus! {

/// Concatenation of pieces.
pub open spec fn flatten(ps: Seq<Seq<u8>>) -> Seq<u8>
    decreases ps.len(),
{
    if ps.len() == 0 {
        Seq::empty()
    } else {
        ps[0] + flatten(ps.drop_first())
    }
}

pub proof fn lemma_flatten_append(a: Seq<Seq<u8>>, b: Seq<Seq<u8>>)
    ensures
        flatten(a + b) == flatten(a) + flatten(b),
    decreases a.len(),
{
    if a.len() == 0 {
        assert(a + b =~= b);
        assert(flatten(a) + flatten(b) =~= flatten(b));
    } else {
        assert((a + b).drop_first() =~= a.drop_first() + b);
        lemma_flatten_append(a.drop_first(), b);
        assert(flatten(a + b) =~= flatten(a) + flatten(b));
    }
}

/// Writing pieces one by one succeeds exactly when their concatenation fits,
/// and then appends it.
pub proof fn lemma_write_pieces_flatten(buf: Seq<u8>, cap: nat, ps: Seq<Seq<u8>>)
    requires
        buf.len() <= cap,
    ensures
        write_pieces(buf, cap, ps).1 <==> buf.len() + flatten(ps).len() <= cap,
        write_pieces(buf, cap, ps).1 ==> write_pieces(buf, cap, ps).0 == buf + flatten(ps),
        write_pieces(buf, cap, ps).0.len() <= cap,
    decreases ps.len(),
{
    if ps.len() > 0 {
        if buf.len() + ps[0].len() <= cap {
            lemma_write_pieces_flatten(buf + ps[0], cap, ps.drop_first());
        }
        assert(flatten(ps).len() == ps[0].len() + flatten(ps.drop_first()).len());
        if buf.len() + ps[0].len() > cap {
            assert(!write_pieces(buf, cap, ps).1);
        } else {
            assert(write_pieces(buf, cap, ps) == write_pieces(buf + ps[0], cap, ps.drop_first()));
        }
        assert(buf + ps[0] + flatten(ps.drop_first()) =~= buf + flatten(ps));
    } else {
        assert(buf + flatten(ps) =~= buf);
    }
}

/// Writing a prefix of a list of pieces and then the next `m` pieces is
/// writing the longer prefix; and once a prefix fails, the whole list fails
/// the same way.
pub proof fn lemma_prefix_step(s0: Seq<u8>, cap: nat, all: Seq<Seq<u8>>, k: int, m: int)
    requires
        0 <= k <= k + m <= all.len(),
    ensures
        write_pieces(s0, cap, all.subrange(0, k)).1 ==> write_pieces(s0, cap, all.subrange(0, k + m))
            == write_pieces(write_pieces(s0, cap, all.subrange(0, k)).0, cap, all.subrange(k, k + m)),
        !write_pieces(s0, cap, all.subrange(0, k + m)).1 ==> write_pieces(s0, cap, all) == write_pieces(
            s0,
            cap,
            all.subrange(0, k + m),
        ),
{
    assert(all.subrange(0, k + m) =~= all.subrange(0, k) + all.subrange(k, k + m));
    lemma_write_pieces_append(s0, cap, all.subrange(0, k), all.subrange(k, k + m));
    assert(all =~= all.subrange(0, k + m) + all.subrange(k + m, all.len() as int));
    lemma_write_pieces_append(s0, cap, all.subrange(0, k + m), all.subrange(k + m, all.len() as int));
}

/// A byte buffer of fixed capacity.
pub struct BoundedBuf {
    data: Vec<u8>,
    cap: usize,
}

impl BoundedBuf {
    pub closed spec fn wf(&self) -> bool {
        self.data@.len() <= self.cap
    }

    pub closed spec fn contents(&self) -> Seq<u8> {
        self.data@
    }

    pub closed spec fn capacity(&self) -> nat {
        self.cap as nat
    }

    /// The contents never exceed the capacity.
    pub proof fn lemma_bounded(&self)
        requires
            self.wf(),
        ensures
            self.contents().len() <= self.capacity(),
    {
    }

    /// An empty buffer of the given capacity.
    pub fn new(cap: usize) -> (r: BoundedBuf)
        ensures
            r.wf(),
            r.contents() == Seq::<u8>::empty(),
            r.capacity() == cap,
    {
        BoundedBuf { data: Vec::new(), cap }
    }

    pub fn len(&self) -> (r: usize)
        ensures
            r == self.contents().len(),
    {
        self.data.len()
    }

    pub fn is_empty(&self) -> (r: bool)
        ensures
            r == (self.contents().len() == 0),
    {
        self.data.len() == 0
    }

    pub fn as_slice(&self) -> (r: &[u8])
        ensures
            r@ == self.contents(),
    {
        self.data.as_slice()
    }

    pub fn into_vec(self) -> (r: Vec<u8>)
        ensures
            r@ == self.contents(),
    {
        self.data
    }

    /// Append one byte if there is room.
    pub fn push(&mut self, b: u8) -> (r: Result<(), ()>)
        requires
            old(self).wf(),
        ensures
            final(self).wf(),
            final(self).capacity() == old(self).capacity(),
            (final(self).contents(), r is Ok) == write_pieces(old(self).contents(), old(self).capacity(), seq![seq![b]]),
    {
        proof {
            reveal_with_fuel(write_pieces, 2);
            assert(seq![seq![b]].drop_first() =~= Seq::<Seq<u8>>::empty());
        }
        if self.data.len() >= self.cap {
            return Err(());
        }
        self.data.push(b);
        assert(old(self).contents() + seq![b] =~= self.data@);
        Ok(())
    }

    /// Append all of `data` if it fits.
    pub fn extend_from_slice(&mut self, data: &[u8]) -> (r: Result<(), ()>)
        requires
            old(self).wf(),
        ensures
            final(self).wf(),
            final(self).capacity() == old(self).capacity(),
            (final(self).contents(), r is Ok) == write_pieces(old(self).contents(), old(self).capacity(), seq![data@]),
    {
        proof {
            reveal_with_fuel(write_pieces, 2);
            assert(seq![data@].drop_first() =~= Seq::<Seq<u8>>::empty());
        }
        if data.len() > self.cap - self.data.len() {
            return Err(());
        }
        self.data.extend_from_slice(data);
        Ok(())
    }
}

} // verus!
