//! Unsigned integers made of a fixed number of limbs.
use crate::limb::Limb;
use crate::value::{lemma_all_ones_to_nat, lemma_one_to_nat, lemma_zeros_to_nat, limbs_to_nat};
use vstd::arithmetic::power2::pow2;
use vstd::prelude::*;

verus! {

/// Limb-wise AND of two limb sequences: limb `i` of the result is
/// `a[i] & b[i]`. The length is that of `a`.
pub open spec fn limbs_and(a: Seq<u64>, b: Seq<u64>) -> Seq<u64> {
    Seq::new(a.len(), |i: int| a[i] & b[i])
}

/// AND of every limb of `a` with the one word `m`.
pub open spec fn limbs_and_limb(a: Seq<u64>, m: u64) -> Seq<u64> {
    Seq::new(a.len(), |i: int| a[i] & m)
}

/// The sequence of `n` limbs that all equal `m`.
pub open spec fn limbs_repeat(m: u64, n: nat) -> Seq<u64> {
    Seq::new(n, |i: int| m)
}

/// ANDing a limb sequence with itself gives it back.
pub proof fn lemma_limbs_and_idempotent(a: Seq<u64>)
    ensures
        limbs_and(a, a) == a,
{
    assert forall|i: int| 0 <= i < a.len() implies #[trigger] limbs_and(a, a)[i] == a[i] by {
        let x = a[i];
        assert(x & x == x) by (bit_vector);
    }
    assert(limbs_and(a, a) =~= a);
}

/// ANDing with the all-zero sequence gives the all-zero sequence.
pub proof fn lemma_limbs_and_zero(a: Seq<u64>)
    ensures
        limbs_and(a, limbs_repeat(0, a.len())) == limbs_repeat(0, a.len()),
{
    let z = limbs_repeat(0, a.len());
    assert forall|i: int| 0 <= i < a.len() implies #[trigger] limbs_and(a, z)[i] == 0 by {
        let x = a[i];
        assert(x & 0 == 0) by (bit_vector);
    }
    assert(limbs_and(a, z) =~= z);
}

/// ANDing with the sequence that has every bit set gives the other operand.
pub proof fn lemma_limbs_and_all_ones(a: Seq<u64>)
    ensures
        limbs_and(a, limbs_repeat(u64::MAX, a.len())) == a,
{
    let m = limbs_repeat(u64::MAX, a.len());
    assert forall|i: int| 0 <= i < a.len() implies #[trigger] limbs_and(a, m)[i] == a[i] by {
        let x = a[i];
        assert(x & 0xffff_ffff_ffff_ffff == x) by (bit_vector);
    }
    assert(limbs_and(a, m) =~= a);
}

/// The order of the operands of an AND does not matter.
pub proof fn lemma_limbs_and_commutative(a: Seq<u64>, b: Seq<u64>)
    requires
        a.len() == b.len(),
    ensures
        limbs_and(a, b) == limbs_and(b, a),
{
    assert forall|i: int| 0 <= i < a.len() implies #[trigger] limbs_and(a, b)[i] == limbs_and(
        b,
        a,
    )[i] by {
        let x = a[i];
        let y = b[i];
        assert(x & y == y & x) by (bit_vector);
    }
    assert(limbs_and(a, b) =~= limbs_and(b, a));
}

/// The grouping of the operands of two ANDs does not matter.
pub proof fn lemma_limbs_and_associative(a: Seq<u64>, b: Seq<u64>, c: Seq<u64>)
    requires
        a.len() == b.len(),
        b.len() == c.len(),
    ensures
        limbs_and(limbs_and(a, b), c) == limbs_and(a, limbs_and(b, c)),
{
    let l = limbs_and(limbs_and(a, b), c);
    let r = limbs_and(a, limbs_and(b, c));
    assert forall|i: int| 0 <= i < a.len() implies #[trigger] l[i] == r[i] by {
        let x = a[i];
        let y = b[i];
        let z = c[i];
        assert((x & y) & z == x & (y & z)) by (bit_vector);
    }
    assert(l =~= r);
}

/// ANDing every limb with one word is ANDing with that word repeated.
pub proof fn lemma_limbs_and_limb_is_and_repeat(a: Seq<u64>, m: u64)
    ensures
        limbs_and_limb(a, m) == limbs_and(a, limbs_repeat(m, a.len())),
{
    assert(limbs_and_limb(a, m) =~= limbs_and(a, limbs_repeat(m, a.len())));
}

/// An unsigned integer of exactly `LIMBS` limbs, least significant first.
#[derive(Clone, Copy, Debug, PartialEq, Eq, Hash)]
pub struct Uint<const LIMBS: usize> {
    pub limbs: [Limb; LIMBS],
}

impl<const LIMBS: usize> View for Uint<LIMBS> {
    type V = Seq<u64>;

    /// The words of the limbs, least significant first.
    open spec fn view(&self) -> Seq<u64> {
        Seq::new(LIMBS as nat, |i: int| self.limbs[i].0)
    }
}

impl<const LIMBS: usize> Uint<LIMBS> {
    /// The array whose first `n` limbs are those of `s`, the others zero.
    spec fn limbs_upto(s: Seq<u64>, n: nat) -> [Limb; LIMBS]
        decreases n,
    {
        if n == 0 {
            vstd::array::spec_array_fill_for_copy_type::<Limb, LIMBS>(Limb(0))
        } else {
            vstd::array::spec_array_update(
                Self::limbs_upto(s, (n - 1) as nat),
                n - 1,
                Limb(s[n - 1]),
            )
        }
    }

    /// The integer whose limbs are the words of `s`, least significant first.
    /// It is meant for an `s` of `LIMBS` words: see [`Self::lemma_of_limbs`].
    pub closed spec fn of_limbs(s: Seq<u64>) -> Self {
        Uint { limbs: Self::limbs_upto(s, LIMBS as nat) }
    }

    /// The bitwise AND of `self` and `rhs` as a value.
    pub open spec fn and_spec(self, rhs: Self) -> Self {
        Self::of_limbs(limbs_and(self@, rhs@))
    }

    /// The AND of every limb of `self` with `rhs`, as a value.
    pub open spec fn and_limb_spec(self, rhs: Limb) -> Self {
        Self::of_limbs(limbs_and_limb(self@, rhs.0))
    }

    /// The number that the limbs stand for.
    pub open spec fn value(self) -> nat {
        limbs_to_nat(self@)
    }

    /// The integer whose every limb is `limb`.
    pub open spec fn repeat_spec(limb: Limb) -> Self {
        Self::of_limbs(limbs_repeat(limb.0, LIMBS as nat))
    }

    proof fn lemma_limbs_upto(s: Seq<u64>, n: nat)
        requires
            n <= LIMBS,
            s.len() == LIMBS,
        ensures
            forall|j: int| 0 <= j < n ==> (#[trigger] Self::limbs_upto(s, n)@[j]).0 == s[j],
        decreases n,
    {
        if n > 0 {
            let prev = Self::limbs_upto(s, (n - 1) as nat);
            Self::lemma_limbs_upto(s, (n - 1) as nat);
            assert(Self::limbs_upto(s, n)@ == prev@.update(n - 1, Limb(s[n - 1])));
        }
    }

    /// A sequence of `LIMBS` words is the view of the integer made of it.
    pub proof fn lemma_of_limbs(s: Seq<u64>)
        requires
            s.len() == LIMBS,
        ensures
            Self::of_limbs(s)@ == s,
    {
        Self::lemma_limbs_upto(s, LIMBS as nat);
        assert(Self::of_limbs(s)@ =~= s);
    }

    /// Two integers with the same limbs are the same integer.
    pub proof fn lemma_view_injective(a: Self, b: Self)
        requires
            a@ == b@,
        ensures
            a == b,
    {
        assert forall|j: int| 0 <= j < LIMBS implies a.limbs[j] == b.limbs[j] by {
            assert(a@[j] == a.limbs[j].0);
            assert(b@[j] == b.limbs[j].0);
        }
        assert(a.limbs =~= b.limbs);
    }

    /// The integer made of the view of an integer is that integer.
    pub proof fn lemma_of_limbs_view(a: Self)
        ensures
            Self::of_limbs(a@) == a,
    {
        Self::lemma_of_limbs(a@);
        Self::lemma_view_injective(Self::of_limbs(a@), a);
    }

    /// The integer whose limbs are the given words, least significant first.
    pub fn from_words(words: [u64; LIMBS]) -> (r: Self)
        ensures
            r@ == words@,
    {
        let mut limbs = [Limb(0); LIMBS];
        let mut i: usize = 0;
        while i < LIMBS
            invariant
                i <= LIMBS,
                forall|j: int| 0 <= j < i ==> limbs[j].0 == words[j],
            decreases LIMBS - i,
        {
            limbs[i] = Limb(words[i]);
            i += 1;
        }
        let r = Uint { limbs };
        assert(r@ =~= words@);
        r
    }

    /// The integer whose every limb is `limb`.
    pub fn repeat(limb: Limb) -> (r: Self)
        ensures
            r@ == limbs_repeat(limb.0, LIMBS as nat),
            r == Self::repeat_spec(limb),
    {
        let r = Uint { limbs: [limb; LIMBS] };
        assert(r@ =~= limbs_repeat(limb.0, LIMBS as nat));
        proof {
            Self::lemma_of_limbs_view(r);
        }
        r
    }

    /// The integer whose limbs are those of `self`, but for limb `i`, which
    /// is `limb`.
    pub fn with_limb(&self, i: usize, limb: Limb) -> (r: Self)
        requires
            i < LIMBS,
        ensures
            r@ == self@.update(i as int, limb.0),
    {
        let mut limbs = self.limbs;
        limbs[i] = limb;
        let r = Uint { limbs };
        assert(r@ =~= self@.update(i as int, limb.0));
        r
    }

    /// Zero: no bit is set.
    pub fn zero() -> (r: Self)
        ensures
            r@ == limbs_repeat(0, LIMBS as nat),
            r == Self::repeat_spec(Limb(0)),
            r.value() == 0,
    {
        proof {
            lemma_zeros_to_nat(LIMBS as nat);
        }
        Self::repeat(Limb::zero())
    }

    /// One: the lowest bit is set and no other.
    pub fn one() -> (r: Self)
        requires
            LIMBS >= 1,
        ensures
            r@ == limbs_repeat(0, LIMBS as nat).update(0, 1),
            r.value() == 1,
    {
        proof {
            lemma_one_to_nat(LIMBS as nat);
        }
        Self::zero().with_limb(0, Limb::one())
    }

    /// The largest value: every bit is set.
    pub fn max() -> (r: Self)
        ensures
            r@ == limbs_repeat(u64::MAX, LIMBS as nat),
            r == Self::repeat_spec(Limb(u64::MAX)),
            r.value() == pow2(64 * (LIMBS as nat)) - 1,
    {
        proof {
            lemma_all_ones_to_nat(LIMBS as nat);
        }
        Self::repeat(Limb::max())
    }

    /// The words of the limbs, least significant first.
    pub fn to_words(&self) -> (words: [u64; LIMBS])
        ensures
            words@ == self@,
    {
        let mut words = [0u64; LIMBS];
        let mut i: usize = 0;
        while i < LIMBS
            invariant
                i <= LIMBS,
                forall|j: int| 0 <= j < i ==> words[j] == self.limbs[j].0,
            decreases LIMBS - i,
        {
            words[i] = self.limbs[i].0;
            i += 1;
        }
        assert(words@ =~= self@);
        words
    }

    /// Bitwise AND, limb by limb.
    pub fn bitand(&self, rhs: &Self) -> (r: Self)
        ensures
            r@ == limbs_and(self@, rhs@),
            r == self.and_spec(*rhs),
    {
        let mut limbs = [Limb(0); LIMBS];
        let mut i: usize = 0;
        while i < LIMBS
            invariant
                i <= LIMBS,
                forall|j: int| 0 <= j < i ==> limbs[j].0 == self.limbs[j].0 & rhs.limbs[j].0,
            decreases LIMBS - i,
        {
            limbs[i] = self.limbs[i].bitand(rhs.limbs[i]);
            i += 1;
        }
        let r = Uint { limbs };
        assert(r@ =~= limbs_and(self@, rhs@));
        proof {
            Self::lemma_of_limbs(limbs_and(self@, rhs@));
            Self::lemma_view_injective(r, self.and_spec(*rhs));
        }
        r
    }

    /// Bitwise AND of every limb with the one limb `rhs`.
    pub fn bitand_limb(&self, rhs: Limb) -> (r: Self)
        ensures
            r@ == limbs_and_limb(self@, rhs.0),
            r == self.and_limb_spec(rhs),
    {
        let mut limbs = [Limb(0); LIMBS];
        let mut i: usize = 0;
        while i < LIMBS
            invariant
                i <= LIMBS,
                forall|j: int| 0 <= j < i ==> limbs[j].0 == self.limbs[j].0 & rhs.0,
            decreases LIMBS - i,
        {
            limbs[i] = self.limbs[i].bitand(rhs);
            i += 1;
        }
        let r = Uint { limbs };
        assert(r@ =~= limbs_and_limb(self@, rhs.0));
        proof {
            Self::lemma_of_limbs(limbs_and_limb(self@, rhs.0));
            Self::lemma_view_injective(r, self.and_limb_spec(rhs));
        }
        r
    }
}

} // verus!
