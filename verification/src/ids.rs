use vstd::prelude::*;

verus! {

/// A 32-byte word, stored as four little-endian 64-bit limbs.
///
/// The ledger identifies every participant and record by a fixed 32-byte
/// identifier; client commitments are 32-byte hashes of the same shape.  The
/// engine never interprets these words, it only compares and stores them.
#[derive(Clone, Copy, PartialEq, Eq, Structural, Debug)]
pub struct Id32 {
    pub w0: u64,
    pub w1: u64,
    pub w2: u64,
    pub w3: u64,
}

impl Id32 {
    /// The all-zero word, used by the ledger as the "unset" sentinel.
    pub open spec fn spec_zero() -> Id32 {
        Id32 { w0: 0, w1: 0, w2: 0, w3: 0 }
    }

    pub open spec fn is_zero(self) -> bool {
        self == Id32::spec_zero()
    }

    pub fn zero() -> (r: Id32)
        ensures
            r == Id32::spec_zero(),
    {
        Id32 { w0: 0, w1: 0, w2: 0, w3: 0 }
    }
}

} // verus!
