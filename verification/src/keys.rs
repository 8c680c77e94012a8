//! Account addresses.
//!
//! An on-chain address is 32 bytes. The model stores it as four 64-bit
//! little-endian words so that addresses are plain `Copy` data with
//! structural equality.

use vstd::prelude::*;

verus! {

/// A 32-byte account address, stored as four little-endian 64-bit words.
#[derive(Clone, Copy, PartialEq, Eq, Structural, Debug, Hash)]
pub struct Address {
    pub w0: u64,
    pub w1: u64,
    pub w2: u64,
    pub w3: u64,
}

impl Address {
    /// The four words of the address, in order.
    pub open spec fn spec_words(self) -> (u64, u64, u64, u64) {
        (self.w0, self.w1, self.w2, self.w3)
    }

    /// Rebuild an address from its four words.
    pub open spec fn spec_from_words(w: (u64, u64, u64, u64)) -> Address {
        Address { w0: w.0, w1: w.1, w2: w.2, w3: w.3 }
    }

    pub fn from_words(w0: u64, w1: u64, w2: u64, w3: u64) -> (r: Address)
        ensures
            r == (Address { w0, w1, w2, w3 }),
    {
        Address { w0, w1, w2, w3 }
    }

    /// The all-zero address, used as the "absent" sentinel.
    pub fn zero() -> (r: Address)
        ensures
            r == Address::spec_zero(),
    {
        Address { w0: 0, w1: 0, w2: 0, w3: 0 }
    }

    pub open spec fn spec_zero() -> Address {
        Address { w0: 0, w1: 0, w2: 0, w3: 0 }
    }

    pub open spec fn spec_is_zero(self) -> bool {
        self == Address::spec_zero()
    }

    pub fn is_zero(&self) -> (r: bool)
        ensures
            r == self.spec_is_zero(),
    {
        self.w0 == 0 && self.w1 == 0 && self.w2 == 0 && self.w3 == 0
    }
}

} // verus!
