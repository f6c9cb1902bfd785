//! Bitwise AND on [`Int`].
use crate::ct_option::ConstCtOption;
use crate::limb::Limb;
use crate::signed::{Int, HIGH_LIMB_OF_MAX};
use crate::uint::{
    lemma_limbs_and_all_ones, lemma_limbs_and_associative, lemma_limbs_and_commutative,
    lemma_limbs_and_idempotent, lemma_limbs_and_limb_is_and_repeat, lemma_limbs_and_zero,
    limbs_and, limbs_and_limb, limbs_repeat, Uint,
};
use crate::wrapping::Wrapping;
use core::ops::{BitAnd, BitAndAssign};
use vstd::prelude::*;
use vstd::std_specs::ops::BitAndSpecImpl;

verus! {

impl<const LIMBS: usize> Int<LIMBS> {
    /// The bitwise AND of `self` and `rhs` as a value: the integer whose
    /// limbs are `limbs_and` of theirs.
    pub open spec fn and_spec(self, rhs: Self) -> Self {
        Int(self.0.and_spec(rhs.0))
    }

    /// The AND of every limb of `self` with `rhs`, as a value.
    pub open spec fn and_limb_spec(self, rhs: Limb) -> Self {
        Int(self.0.and_limb_spec(rhs))
    }

    /// The limbs of the AND of two values are the AND of their limbs.
    pub proof fn lemma_and_spec(x: Self, y: Self)
        ensures
            x.and_spec(y)@ == limbs_and(x@, y@),
    {
        Uint::<LIMBS>::lemma_of_limbs(limbs_and(x@, y@));
    }

    /// The limbs of a value ANDed with one limb are its limbs ANDed with it.
    pub proof fn lemma_and_limb_spec(x: Self, m: Limb)
        ensures
            x.and_limb_spec(m)@ == limbs_and_limb(x@, m.0),
    {
        Uint::<LIMBS>::lemma_of_limbs(limbs_and_limb(x@, m.0));
    }

    /// `x & x == x`.
    pub proof fn lemma_and_idempotent(x: Self)
        ensures
            x.and_spec(x) == x,
    {
        lemma_limbs_and_idempotent(x@);
        Uint::lemma_of_limbs_view(x.0);
    }

    /// `x & 0 == 0`.
    pub proof fn lemma_and_zero(x: Self)
        ensures
            x.and_spec(Self::zero_spec()) == Self::zero_spec(),
    {
        let n = LIMBS as nat;
        Uint::<LIMBS>::lemma_of_limbs(limbs_repeat(0, n));
        lemma_limbs_and_zero(x@);
    }

    /// `x & all_ones == x`, where `all_ones` has every bit set.
    pub proof fn lemma_and_all_ones(x: Self)
        ensures
            x.and_spec(Self::all_ones_spec()) == x,
    {
        let n = LIMBS as nat;
        Uint::<LIMBS>::lemma_of_limbs(limbs_repeat(u64::MAX, n));
        lemma_limbs_and_all_ones(x@);
        Uint::lemma_of_limbs_view(x.0);
    }

    /// `x & y == y & x`.
    pub proof fn lemma_and_commutative(x: Self, y: Self)
        ensures
            x.and_spec(y) == y.and_spec(x),
    {
        lemma_limbs_and_commutative(x@, y@);
    }

    /// `(x & y) & z == x & (y & z)`.
    pub proof fn lemma_and_associative(x: Self, y: Self, z: Self)
        ensures
            x.and_spec(y).and_spec(z) == x.and_spec(y.and_spec(z)),
    {
        Self::lemma_and_spec(x, y);
        Self::lemma_and_spec(y, z);
        lemma_limbs_and_associative(x@, y@, z@);
    }

    /// ANDing every limb of `x` with `m` is ANDing `x` with the integer
    /// whose every limb is `m`.
    pub proof fn lemma_and_limb_is_and_repeat(x: Self, m: Limb)
        ensures
            x.and_limb_spec(m) == x.and_spec(Self::repeat_spec(m)),
    {
        Uint::<LIMBS>::lemma_of_limbs(limbs_repeat(m.0, LIMBS as nat));
        lemma_limbs_and_limb_is_and_repeat(x@, m.0);
    }

    /// With one as the second operand: `0 & 1 == 0`, `1 & 1 == 1` and
    /// `MAX & 1 == 1`, at every width.
    pub proof fn lemma_and_one()
        requires
            LIMBS >= 1,
        ensures
            Self::zero_spec().and_spec(Self::one_spec()) == Self::zero_spec(),
            Self::one_spec().and_spec(Self::one_spec()) == Self::one_spec(),
            Self::max_spec().and_spec(Self::one_spec()) == Self::one_spec(),
    {
        let n = LIMBS as nat;
        let one = limbs_repeat(0, n).update(0, 1);
        let max = limbs_repeat(u64::MAX, n).update(n - 1, HIGH_LIMB_OF_MAX);
        Uint::<LIMBS>::lemma_of_limbs(one);
        Uint::<LIMBS>::lemma_of_limbs(max);
        Self::lemma_and_commutative(Self::zero_spec(), Self::one_spec());
        Self::lemma_and_zero(Self::one_spec());
        Self::lemma_and_idempotent(Self::one_spec());
        assert forall|i: int| 0 <= i < n implies #[trigger] limbs_and(max, one)[i] == one[i] by {
            let a = max[i];
            let b = one[i];
            assert((a == 0xffff_ffff_ffff_ffff || a == 0x7fff_ffff_ffff_ffff) && (b == 0 || b == 1)
                ==> a & b == b) by (bit_vector);
        }
        assert(limbs_and(max, one) =~= one);
    }

    /// Computes bitwise `a & b`.
    pub fn bitand(&self, rhs: &Self) -> (r: Self)
        ensures
            r@ == limbs_and(self@, rhs@),
            r == self.and_spec(*rhs),
    {
        Int(Uint::bitand(&self.0, &rhs.0))
    }

    /// Bitwise AND of every limb of `self` with the one limb `rhs`.
    pub fn bitand_limb(&self, rhs: Limb) -> (r: Self)
        ensures
            r@ == limbs_and_limb(self@, rhs.0),
            r == self.and_limb_spec(rhs),
    {
        Int(Uint::bitand_limb(&self.0, rhs))
    }

    /// Wrapping bitwise AND. AND cannot wrap, so this is [`Self::bitand`].
    pub fn wrapping_and(&self, rhs: &Self) -> (r: Self)
        ensures
            r@ == limbs_and(self@, rhs@),
            r == self.and_spec(*rhs),
    {
        self.bitand(rhs)
    }

    /// Checked bitwise AND. AND cannot fail, so the result is always present
    /// and holds what [`Self::bitand`] returns.
    pub fn checked_and(&self, rhs: &Self) -> (r: ConstCtOption<Self>)
        ensures
            r@ == Some(self.and_spec(*rhs)),
    {
        ConstCtOption::some(self.bitand(rhs))
    }
}

/// What `&` returns on integers: [`Int::and_spec`] of the operands.
impl<const LIMBS: usize> BitAndSpecImpl for Int<LIMBS> {
    open spec fn obeys_bitand_spec() -> bool {
        true
    }

    open spec fn bitand_req(self, rhs: Self) -> bool {
        true
    }

    open spec fn bitand_spec(self, rhs: Self) -> Int<LIMBS> {
        self.and_spec(rhs)
    }
}

/// `&` is [`Int::bitand`]; the result is this impl's `bitand_spec`.
impl<const LIMBS: usize> BitAnd for Int<LIMBS> {
    type Output = Int<LIMBS>;

    fn bitand(self, rhs: Self) -> (r: Int<LIMBS>) {
        Int::bitand(&self, &rhs)
    }
}

/// What `&` returns on integers: [`Int::and_spec`] of the operands.
impl<'a, const LIMBS: usize> BitAndSpecImpl<&'a Int<LIMBS>> for Int<LIMBS> {
    open spec fn obeys_bitand_spec() -> bool {
        true
    }

    open spec fn bitand_req(self, rhs: &'a Int<LIMBS>) -> bool {
        true
    }

    open spec fn bitand_spec(self, rhs: &'a Int<LIMBS>) -> Int<LIMBS> {
        self.and_spec(*rhs)
    }
}

/// `&` is [`Int::bitand`]; the result is this impl's `bitand_spec`.
impl<'a, const LIMBS: usize> BitAnd<&'a Int<LIMBS>> for Int<LIMBS> {
    type Output = Int<LIMBS>;

    fn bitand(self, rhs: &'a Int<LIMBS>) -> (r: Int<LIMBS>) {
        Int::bitand(&self, rhs)
    }
}

/// What `&` returns on integers: [`Int::and_spec`] of the operands.
impl<'a, const LIMBS: usize> BitAndSpecImpl<Int<LIMBS>> for &'a Int<LIMBS> {
    open spec fn obeys_bitand_spec() -> bool {
        true
    }

    open spec fn bitand_req(self, rhs: Int<LIMBS>) -> bool {
        true
    }

    open spec fn bitand_spec(self, rhs: Int<LIMBS>) -> Int<LIMBS> {
        (*self).and_spec(rhs)
    }
}

/// `&` is [`Int::bitand`]; the result is this impl's `bitand_spec`.
impl<'a, const LIMBS: usize> BitAnd<Int<LIMBS>> for &'a Int<LIMBS> {
    type Output = Int<LIMBS>;

    fn bitand(self, rhs: Int<LIMBS>) -> (r: Int<LIMBS>) {
        Int::bitand(self, &rhs)
    }
}

/// What `&` returns on integers: [`Int::and_spec`] of the operands.
impl<'a, 'b, const LIMBS: usize> BitAndSpecImpl<&'b Int<LIMBS>> for &'a Int<LIMBS> {
    open spec fn obeys_bitand_spec() -> bool {
        true
    }

    open spec fn bitand_req(self, rhs: &'b Int<LIMBS>) -> bool {
        true
    }

    open spec fn bitand_spec(self, rhs: &'b Int<LIMBS>) -> Int<LIMBS> {
        (*self).and_spec(*rhs)
    }
}

/// `&` is [`Int::bitand`]; the result is this impl's `bitand_spec`.
impl<'a, 'b, const LIMBS: usize> BitAnd<&'b Int<LIMBS>> for &'a Int<LIMBS> {
    type Output = Int<LIMBS>;

    fn bitand(self, rhs: &'b Int<LIMBS>) -> (r: Int<LIMBS>) {
        Int::bitand(self, rhs)
    }
}

/// `&=` replaces the receiver with the AND of its old value and `other`.
impl<const LIMBS: usize> BitAndAssign for Int<LIMBS> {
    fn bitand_assign(&mut self, other: Self)
        ensures
            *final(self) == old(self).and_spec(other),
            final(self)@ == limbs_and(old(self)@, other@),
    {
        *self = *self & other;
        proof {
            Int::lemma_and_spec(*old(self), other);
        }
    }
}

/// `&=` replaces the receiver with the AND of its old value and `other`.
impl<'a, const LIMBS: usize> BitAndAssign<&'a Int<LIMBS>> for Int<LIMBS> {
    fn bitand_assign(&mut self, other: &'a Int<LIMBS>)
        ensures
            *final(self) == old(self).and_spec(*other),
            final(self)@ == limbs_and(old(self)@, other@),
    {
        *self = *self & other;
        proof {
            Int::lemma_and_spec(*old(self), *other);
        }
    }
}

/// What `&` returns on wrapped integers: the wrapped AND of what the
/// operands hold.
impl<const LIMBS: usize> BitAndSpecImpl for Wrapping<Int<LIMBS>> {
    open spec fn obeys_bitand_spec() -> bool {
        true
    }

    open spec fn bitand_req(self, rhs: Self) -> bool {
        true
    }

    open spec fn bitand_spec(self, rhs: Self) -> Wrapping<Int<LIMBS>> {
        Wrapping(self.0.and_spec(rhs.0))
    }
}

/// `&` unwraps both operands, ANDs them as [`Int::bitand`] does and wraps
/// the result, which is this impl's `bitand_spec`.
impl<const LIMBS: usize> BitAnd for Wrapping<Int<LIMBS>> {
    type Output = Wrapping<Int<LIMBS>>;

    fn bitand(self, rhs: Self) -> (r: Wrapping<Int<LIMBS>>) {
        Wrapping(self.0.bitand(&rhs.0))
    }
}

/// What `&` returns on wrapped integers: the wrapped AND of what the
/// operands hold.
impl<'a, const LIMBS: usize> BitAndSpecImpl<&'a Wrapping<Int<LIMBS>>> for Wrapping<Int<LIMBS>> {
    open spec fn obeys_bitand_spec() -> bool {
        true
    }

    open spec fn bitand_req(self, rhs: &'a Wrapping<Int<LIMBS>>) -> bool {
        true
    }

    open spec fn bitand_spec(self, rhs: &'a Wrapping<Int<LIMBS>>) -> Wrapping<Int<LIMBS>> {
        Wrapping(self.0.and_spec(rhs.0))
    }
}

/// `&` unwraps both operands, ANDs them as [`Int::bitand`] does and wraps
/// the result, which is this impl's `bitand_spec`.
impl<'a, const LIMBS: usize> BitAnd<&'a Wrapping<Int<LIMBS>>> for Wrapping<Int<LIMBS>> {
    type Output = Wrapping<Int<LIMBS>>;

    fn bitand(self, rhs: &'a Wrapping<Int<LIMBS>>) -> (r: Wrapping<Int<LIMBS>>) {
        Wrapping(self.0.bitand(&rhs.0))
    }
}

/// What `&` returns on wrapped integers: the wrapped AND of what the
/// operands hold.
impl<'a, const LIMBS: usize> BitAndSpecImpl<Wrapping<Int<LIMBS>>> for &'a Wrapping<Int<LIMBS>> {
    open spec fn obeys_bitand_spec() -> bool {
        true
    }

    open spec fn bitand_req(self, rhs: Wrapping<Int<LIMBS>>) -> bool {
        true
    }

    open spec fn bitand_spec(self, rhs: Wrapping<Int<LIMBS>>) -> Wrapping<Int<LIMBS>> {
        Wrapping(self.0.and_spec(rhs.0))
    }
}

/// `&` unwraps both operands, ANDs them as [`Int::bitand`] does and wraps
/// the result, which is this impl's `bitand_spec`.
impl<'a, const LIMBS: usize> BitAnd<Wrapping<Int<LIMBS>>> for &'a Wrapping<Int<LIMBS>> {
    type Output = Wrapping<Int<LIMBS>>;

    fn bitand(self, rhs: Wrapping<Int<LIMBS>>) -> (r: Wrapping<Int<LIMBS>>) {
        Wrapping(self.0.bitand(&rhs.0))
    }
}

/// What `&` returns on wrapped integers: the wrapped AND of what the
/// operands hold.
impl<'a, 'b, const LIMBS: usize> BitAndSpecImpl<&'b Wrapping<Int<LIMBS>>>
    for &'a Wrapping<Int<LIMBS>> {
    open spec fn obeys_bitand_spec() -> bool {
        true
    }

    open spec fn bitand_req(self, rhs: &'b Wrapping<Int<LIMBS>>) -> bool {
        true
    }

    open spec fn bitand_spec(self, rhs: &'b Wrapping<Int<LIMBS>>) -> Wrapping<Int<LIMBS>> {
        Wrapping(self.0.and_spec(rhs.0))
    }
}

/// `&` unwraps both operands, ANDs them as [`Int::bitand`] does and wraps
/// the result, which is this impl's `bitand_spec`.
impl<'a, 'b, const LIMBS: usize> BitAnd<&'b Wrapping<Int<LIMBS>>> for &'a Wrapping<Int<LIMBS>> {
    type Output = Wrapping<Int<LIMBS>>;

    fn bitand(self, rhs: &'b Wrapping<Int<LIMBS>>) -> (r: Wrapping<Int<LIMBS>>) {
        Wrapping(self.0.bitand(&rhs.0))
    }
}

/// `&=` on a wrapped integer replaces what it holds with the AND of that
/// and what `other` holds.
impl<const LIMBS: usize> BitAndAssign for Wrapping<Int<LIMBS>> {
    fn bitand_assign(&mut self, other: Self)
        ensures
            final(self).0 == old(self).0.and_spec(other.0),
            final(self).0@ == limbs_and(old(self).0@, other.0@),
    {
        *self = *self & other;
        proof {
            Int::lemma_and_spec(old(self).0, other.0);
        }
    }
}

/// `&=` on a wrapped integer replaces what it holds with the AND of that
/// and what `other` holds.
impl<'a, const LIMBS: usize> BitAndAssign<&'a Wrapping<Int<LIMBS>>> for Wrapping<Int<LIMBS>> {
    fn bitand_assign(&mut self, other: &'a Wrapping<Int<LIMBS>>)
        ensures
            final(self).0 == old(self).0.and_spec(other.0),
            final(self).0@ == limbs_and(old(self).0@, other.0@),
    {
        *self = *self & other;
        proof {
            Int::lemma_and_spec(old(self).0, other.0);
        }
    }
}

} // verus!
