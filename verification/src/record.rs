use vstd::prelude::*;
use crate::cell::WriteOnceCell;

verus! {

/// The nested record: a 64-bit float held as its raw bits (the adapter
/// never computes on it) and a 128-bit identifier held as its integer
/// value (its wire form is the canonical text encoding).
#[derive(Debug, Clone, Copy, PartialEq, Eq, Structural)]
pub struct Inner {
    pub f_bits: u64,
    pub u: u128,
}

/// The outer container: exactly one write-once slot for the nested
/// record, constructed fresh by each decode and immutable afterwards.
#[derive(Debug, Clone, PartialEq, Eq)]
pub struct Outer {
    pub inner: WriteOnceCell<Inner>,
}

} // verus!
