//! The numbers that limb sequences stand for.
use crate::uint::limbs_repeat;
use vstd::arithmetic::power2::{lemma2_to64, lemma2_to64_rest, lemma_pow2_adds, pow2};
use vstd::prelude::*;

verus! {

/// The number that a limb sequence stands for: limb `i` counts `2^(64 i)`
/// times its word.
pub open spec fn limbs_to_nat(s: Seq<u64>) -> nat
    decreases s.len(),
{
    if s.len() == 0 {
        0
    } else {
        limbs_to_nat(s.drop_last()) + s.last() as nat * pow2((64 * (s.len() - 1)) as nat)
    }
}

/// A sequence of `n` limbs stands for a number below `2^(64 n)`.
pub proof fn lemma_limbs_to_nat_bound(s: Seq<u64>)
    ensures
        limbs_to_nat(s) < pow2(64 * s.len()),
    decreases s.len(),
{
    lemma2_to64();
    if s.len() > 0 {
        let n = (s.len() - 1) as nat;
        let p = pow2(64 * n);
        let l = s.last() as nat;
        lemma_limbs_to_nat_bound(s.drop_last());
        lemma_pow2_adds(64 * n, 64);
        assert(64 * n + 64 == 64 * s.len());
        assert(l * p + p <= 0x1_0000_0000_0000_0000 * p) by (nonlinear_arith)
            requires
                l <= 0xffff_ffff_ffff_ffff,
        ;
        assert(p * 0x1_0000_0000_0000_0000 == 0x1_0000_0000_0000_0000 * p) by (nonlinear_arith);
    }
}

/// The all-zero sequence stands for zero.
pub proof fn lemma_zeros_to_nat(n: nat)
    ensures
        limbs_to_nat(limbs_repeat(0, n)) == 0,
    decreases n,
{
    if n > 0 {
        lemma_zeros_to_nat((n - 1) as nat);
        assert(limbs_repeat(0, n).drop_last() =~= limbs_repeat(0, (n - 1) as nat));
        assert(0 * pow2((64 * (n - 1)) as nat) == 0) by (nonlinear_arith);
    }
}

/// The sequence of `n` limbs with every bit set stands for `2^(64 n) - 1`.
pub proof fn lemma_all_ones_to_nat(n: nat)
    ensures
        limbs_to_nat(limbs_repeat(u64::MAX, n)) == pow2(64 * n) - 1,
    decreases n,
{
    lemma2_to64();
    if n > 0 {
        let m = (n - 1) as nat;
        let p = pow2(64 * m);
        lemma_all_ones_to_nat(m);
        assert(limbs_repeat(u64::MAX, n).drop_last() =~= limbs_repeat(u64::MAX, m));
        lemma_pow2_adds(64 * m, 64);
        assert(64 * m + 64 == 64 * n);
        assert(p - 1 + 0xffff_ffff_ffff_ffff * p == p * 0x1_0000_0000_0000_0000 - 1)
            by (nonlinear_arith);
    }
}

/// The sequence whose lowest limb is one and whose others are zero stands
/// for one.
pub proof fn lemma_one_to_nat(n: nat)
    requires
        n >= 1,
    ensures
        limbs_to_nat(limbs_repeat(0, n).update(0, 1)) == 1,
    decreases n,
{
    lemma2_to64();
    let s = limbs_repeat(0, n).update(0, 1);
    if n == 1 {
        assert(s.drop_last().len() == 0);
        assert(limbs_to_nat(s.drop_last()) == 0);
        assert(1 * pow2(0) == 1);
    } else {
        let m = (n - 1) as nat;
        lemma_one_to_nat(m);
        assert(s.drop_last() =~= limbs_repeat(0, m).update(0, 1));
        assert(0 * pow2((64 * m) as nat) == 0) by (nonlinear_arith);
    }
}

/// The sequence with every bit set but the highest of the last limb stands
/// for `2^(64 n - 1) - 1`.
pub proof fn lemma_signed_max_to_nat(n: nat)
    requires
        n >= 1,
    ensures
        limbs_to_nat(limbs_repeat(u64::MAX, n).update(n - 1, 0x7fff_ffff_ffff_ffff)) == pow2(
            (64 * n - 1) as nat,
        ) - 1,
{
    lemma2_to64();
    lemma2_to64_rest();
    let m = (n - 1) as nat;
    let p = pow2(64 * m);
    let s = limbs_repeat(u64::MAX, n).update(n - 1, 0x7fff_ffff_ffff_ffff);
    lemma_all_ones_to_nat(m);
    assert(s.drop_last() =~= limbs_repeat(u64::MAX, m));
    lemma_pow2_adds(64 * m, 63);
    assert(64 * m + 63 == 64 * n - 1);
    assert(p - 1 + 0x7fff_ffff_ffff_ffff * p == p * 0x8000_0000_0000_0000 - 1)
        by (nonlinear_arith);
}

} // verus!
