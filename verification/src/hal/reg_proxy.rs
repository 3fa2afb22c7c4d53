//! Proxies that stand for a register or a cluster of registers of a
//! peripheral, without holding it.

use vstd::prelude::*;
use std::marker::PhantomData;

verus! {

/// Stands for the register `T`.
pub struct RegProxy<T> {
    _marker: PhantomData<T>,
}

impl<T> RegProxy<T> {
    pub fn new() -> (r: RegProxy<T>) {
        RegProxy { _marker: PhantomData }
    }
}

/// Stands for the cluster of registers `T`.
pub struct RegClusterProxy<T> {
    _marker: PhantomData<T>,
}

impl<T> RegClusterProxy<T> {
    pub fn new() -> (r: RegClusterProxy<T>) {
        RegClusterProxy { _marker: PhantomData }
    }
}

} // verus!
