//! Identifiers of 256 bits.

use vstd::prelude::*;

use crate::table::TableKey;

verus! {

/// An unsigned number of 256 bits, as its high and low halves.
#[derive(Clone, Copy, Debug, PartialEq, Eq, Hash, Structural)]
pub struct U256 {
    pub hi: u128,
    pub lo: u128,
}

impl View for U256 {
    type V = U256;

    open spec fn view(&self) -> U256 {
        *self
    }
}

impl U256 {
    /// The number as a mathematical integer.
    pub open spec fn value(self) -> nat {
        (self.hi * 0x1_0000_0000_0000_0000_0000_0000_0000_0000 + self.lo) as nat
    }

    /// The number `n`.
    pub fn from_u32(n: u32) -> (number: U256)
        ensures
            number == (U256 { hi: 0, lo: n as u128 }),
            number.value() == n,
    {
        U256 { hi: 0, lo: n as u128 }
    }

    /// The number `n`.
    pub fn from_u128(n: u128) -> (number: U256)
        ensures
            number == (U256 { hi: 0, lo: n }),
            number.value() == n,
    {
        U256 { hi: 0, lo: n }
    }
}

impl TableKey for U256 {
    fn same_as(&self, other: &Self) -> (same: bool) {
        self.hi == other.hi && self.lo == other.lo
    }
}

} // verus!
