//! A value together with an alignment marker.

use vstd::prelude::*;

verus! {

/// An alignment.
pub trait Alignment {}

/// Four-byte alignment.
pub struct A4;

impl Alignment for A4 {}

/// A value of type `T` tagged with the alignment `A`.
pub struct Aligned<A, T> {
    pub _alignment: [A; 0],
    pub value: T,
}

/// Wrap a value.
#[allow(non_snake_case)]
pub fn Aligned<A, T>(value: T) -> (r: Aligned<A, T>)
    ensures
        r.value == value,
{
    Aligned { _alignment: [], value }
}

impl<A: Alignment, T> core::ops::Deref for Aligned<A, T> {
    type Target = T;

    fn deref(&self) -> (r: &T)
        ensures
            *r == self.value,
    {
        &self.value
    }
}

impl<A: Alignment, T> core::ops::DerefMut for Aligned<A, T> {
    fn deref_mut(&mut self) -> (r: &mut T)
        ensures
            *r == old(self).value,
            final(self).value == *final(r),
    {
        &mut self.value
    }
}

} // verus!
