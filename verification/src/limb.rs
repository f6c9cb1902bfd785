//! A single machine word of a multi-limb integer.
use vstd::prelude::*;

verus! {

/// One 64-bit word of a multi-limb integer.
#[derive(Clone, Copy, Debug, PartialEq, Eq, Hash)]
pub struct Limb(pub u64);

impl Limb {
    /// The limb with no bit set.
    pub fn zero() -> (r: Limb)
        ensures
            r.0 == 0,
    {
        Limb(0)
    }

    /// The limb whose value is one.
    pub fn one() -> (r: Limb)
        ensures
            r.0 == 1,
    {
        Limb(1)
    }

    /// The limb with every bit set.
    pub fn max() -> (r: Limb)
        ensures
            r.0 == u64::MAX,
    {
        Limb(u64::MAX)
    }

    /// Bitwise AND of two limbs.
    pub fn bitand(self, rhs: Limb) -> (r: Limb)
        ensures
            r.0 == self.0 & rhs.0,
    {
        Limb(self.0 & rhs.0)
    }
}

} // verus!
