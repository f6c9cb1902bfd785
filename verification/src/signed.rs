//! Signed integers made of a fixed number of limbs.
use crate::limb::Limb;
use crate::uint::{limbs_repeat, Uint};
use crate::value::{
    lemma_all_ones_to_nat, lemma_limbs_to_nat_bound, lemma_one_to_nat, lemma_signed_max_to_nat,
    lemma_zeros_to_nat, limbs_to_nat,
};
use vstd::arithmetic::power2::{lemma2_to64, lemma2_to64_rest, lemma_pow2_adds, pow2};
use vstd::prelude::*;

pub mod bit_and;

verus! {

/// A signed integer of exactly `LIMBS` limbs, held as the two's-complement
/// bit pattern in a [`Uint`].
#[derive(Clone, Copy, Debug, PartialEq, Eq, Hash)]
pub struct Int<const LIMBS: usize>(pub Uint<LIMBS>);

/// A signed integer of 64 bits.
pub type I64 = Int<1>;

/// A signed integer of 128 bits.
pub type I128 = Int<2>;

/// A signed integer of 256 bits.
pub type I256 = Int<4>;

/// The word with every bit set but the highest.
pub const HIGH_LIMB_OF_MAX: u64 = 0x7fff_ffff_ffff_ffff;

impl<const LIMBS: usize> View for Int<LIMBS> {
    type V = Seq<u64>;

    /// The words of the bit pattern, least significant first.
    open spec fn view(&self) -> Seq<u64> {
        self.0@
    }
}

impl<const LIMBS: usize> Int<LIMBS> {
    /// The integer with the given bit pattern.
    pub fn from_bits(bits: Uint<LIMBS>) -> (r: Self)
        ensures
            r.0 == bits,
    {
        Int(bits)
    }

    /// The bit pattern.
    pub fn as_uint(&self) -> (r: &Uint<LIMBS>)
        ensures
            *r == self.0,
    {
        &self.0
    }

    /// Whether the sign bit is set: the highest bit of the last limb.
    pub open spec fn is_negative_spec(self) -> bool {
        LIMBS >= 1 && self@[LIMBS - 1] >= 0x8000_0000_0000_0000
    }

    /// The signed number that the bit pattern stands for in two's
    /// complement.
    pub open spec fn value(self) -> int {
        if self.is_negative_spec() {
            limbs_to_nat(self@) - pow2(64 * (LIMBS as nat))
        } else {
            limbs_to_nat(self@) as int
        }
    }

    /// Every value lies between `-2^(bits - 1)` and `2^(bits - 1) - 1`, and
    /// the upper end is the value of [`Self::max_spec`].
    pub proof fn lemma_value_range(x: Self)
        requires
            LIMBS >= 1,
        ensures
            -pow2((64 * LIMBS - 1) as nat) <= x.value() <= Self::max_spec().value(),
            Self::max_spec().value() == pow2((64 * LIMBS - 1) as nat) - 1,
    {
        lemma2_to64();
        lemma2_to64_rest();
        let n = LIMBS as nat;
        let m = (n - 1) as nat;
        let p = pow2(64 * m);
        let top = x@[LIMBS - 1] as nat;
        let max = limbs_repeat(u64::MAX, n).update(n - 1, HIGH_LIMB_OF_MAX);
        Uint::<LIMBS>::lemma_of_limbs(max);
        lemma_signed_max_to_nat(n);
        lemma_limbs_to_nat_bound(x@.drop_last());
        lemma_pow2_adds(64 * m, 63);
        lemma_pow2_adds(64 * m, 64);
        assert(64 * m + 63 == 64 * n - 1);
        assert(64 * m + 64 == 64 * n);
        assert(x@.last() == x@[LIMBS - 1]);
        if top >= 0x8000_0000_0000_0000 {
            assert(top * p >= 0x8000_0000_0000_0000 * p) by (nonlinear_arith)
                requires
                    top >= 0x8000_0000_0000_0000,
            ;
            assert(top * p + p <= 0x1_0000_0000_0000_0000 * p) by (nonlinear_arith)
                requires
                    top <= 0xffff_ffff_ffff_ffff,
            ;
            assert(0x1_0000_0000_0000_0000 * p - 0x8000_0000_0000_0000 * p
                == 0x8000_0000_0000_0000 * p) by (nonlinear_arith);
            assert(p * 0x8000_0000_0000_0000 == 0x8000_0000_0000_0000 * p) by (nonlinear_arith);
            assert(p * 0x1_0000_0000_0000_0000 == 0x1_0000_0000_0000_0000 * p)
                by (nonlinear_arith);
        } else {
            assert(top * p + p <= 0x8000_0000_0000_0000 * p) by (nonlinear_arith)
                requires
                    top <= 0x7fff_ffff_ffff_ffff,
            ;
            assert(p * 0x8000_0000_0000_0000 == 0x8000_0000_0000_0000 * p) by (nonlinear_arith);
        }
    }

    /// Zero as a value: no bit is set.
    pub open spec fn zero_spec() -> Self {
        Int(Uint::repeat_spec(Limb(0)))
    }

    /// The integer with every bit of the representation set, as a value.
    pub open spec fn all_ones_spec() -> Self {
        Int(Uint::repeat_spec(Limb(u64::MAX)))
    }

    /// One as a value: the lowest bit is set and no other.
    pub open spec fn one_spec() -> Self {
        Int(Uint::of_limbs(limbs_repeat(0, LIMBS as nat).update(0, 1)))
    }

    /// The largest value: every bit is set but the sign bit, which is the
    /// highest bit of the last limb.
    pub open spec fn max_spec() -> Self {
        Int(
            Uint::of_limbs(
                limbs_repeat(u64::MAX, LIMBS as nat).update(LIMBS - 1, HIGH_LIMB_OF_MAX),
            ),
        )
    }

    /// The integer whose every limb is `limb`, as a value.
    pub open spec fn repeat_spec(limb: Limb) -> Self {
        Int(Uint::repeat_spec(limb))
    }

    /// The integer whose every limb is `limb`.
    pub fn repeat(limb: Limb) -> (r: Self)
        ensures
            r@ == limbs_repeat(limb.0, LIMBS as nat),
            r == Self::repeat_spec(limb),
    {
        Int(Uint::repeat(limb))
    }

    /// Zero: no bit is set.
    pub fn zero() -> (r: Self)
        ensures
            r@ == limbs_repeat(0, LIMBS as nat),
            r == Self::zero_spec(),
            r.value() == 0,
    {
        proof {
            lemma_zeros_to_nat(LIMBS as nat);
        }
        Int(Uint::zero())
    }

    /// One: the lowest bit is set and no other.
    pub fn one() -> (r: Self)
        requires
            LIMBS >= 1,
        ensures
            r@ == limbs_repeat(0, LIMBS as nat).update(0, 1),
            r == Self::one_spec(),
            r.value() == 1,
    {
        let r = Int(Uint::one());
        proof {
            Uint::lemma_of_limbs_view(r.0);
            lemma_one_to_nat(LIMBS as nat);
        }
        r
    }

    /// Minus one: every bit of the representation is set.
    pub fn minus_one() -> (r: Self)
        ensures
            r@ == limbs_repeat(u64::MAX, LIMBS as nat),
            r == Self::all_ones_spec(),
            LIMBS >= 1 ==> r.value() == -1,
    {
        proof {
            lemma_all_ones_to_nat(LIMBS as nat);
        }
        Int(Uint::max())
    }

    /// The largest value: every bit is set but the sign bit, which is the
    /// highest bit of the last limb.
    pub fn max() -> (r: Self)
        requires
            LIMBS >= 1,
        ensures
            r@ == limbs_repeat(u64::MAX, LIMBS as nat).update(LIMBS - 1, HIGH_LIMB_OF_MAX),
            r == Self::max_spec(),
            r.value() == pow2((64 * LIMBS - 1) as nat) - 1,
    {
        let r = Int(Uint::max().with_limb(LIMBS - 1, Limb(HIGH_LIMB_OF_MAX)));
        proof {
            Uint::lemma_of_limbs_view(r.0);
            lemma_signed_max_to_nat(LIMBS as nat);
        }
        r
    }

    /// The integer whose limbs are the given words, least significant first.
    pub fn from_words(words: [u64; LIMBS]) -> (r: Self)
        ensures
            r@ == words@,
    {
        Int(Uint::from_words(words))
    }

    /// The words of the bit pattern, least significant first.
    pub fn to_words(&self) -> (words: [u64; LIMBS])
        ensures
            words@ == self@,
    {
        self.0.to_words()
    }
}

} // verus!
