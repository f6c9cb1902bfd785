use fixed_int::{ConstCtOption, Int, Limb, Uint, Wrapping, I128, I256, I64};

const A: [u64; 2] = [0xdead_beef_0123_4567, 0x8000_0000_ffff_0000];
const B: [u64; 2] = [0x0f0f_0f0f_f0f0_f0f0, 0xc000_0001_00ff_ff00];
const C: [u64; 2] = [0xffff_0000_ffff_0000, 0x1234_5678_9abc_def0];

fn a() -> I128 {
    I128::from_words(A)
}

fn b() -> I128 {
    I128::from_words(B)
}

fn c() -> I128 {
    I128::from_words(C)
}

#[test]
fn checked_and_ok() {
    assert_eq!(I128::zero().checked_and(&I128::one()).unwrap(), I128::zero());
    assert_eq!(I128::one().checked_and(&I128::one()).unwrap(), I128::one());
    assert_eq!(I128::max().checked_and(&I128::one()).unwrap(), I128::one());
}

#[test]
fn wrapping_and_ok() {
    assert_eq!(I128::zero().wrapping_and(&I128::one()), I128::zero());
    assert_eq!(I128::one().wrapping_and(&I128::one()), I128::one());
    assert_eq!(I128::max().wrapping_and(&I128::one()), I128::one());
}

#[test]
fn bitand_ok() {
    assert_eq!(I128::zero().bitand(&I128::one()), I128::zero());
    assert_eq!(I128::one().bitand(&I128::one()), I128::one());
    assert_eq!(I128::max().bitand(&I128::one()), I128::one());
}

#[test]
fn and_with_one_at_other_widths() {
    assert_eq!(I64::zero().bitand(&I64::one()), I64::zero());
    assert_eq!(I64::one().bitand(&I64::one()), I64::one());
    assert_eq!(I64::max().bitand(&I64::one()), I64::one());
    assert_eq!(I256::zero().bitand(&I256::one()), I256::zero());
    assert_eq!(I256::one().bitand(&I256::one()), I256::one());
    assert_eq!(I256::max().bitand(&I256::one()), I256::one());
    assert_eq!(I256::max().to_words(), [u64::MAX, u64::MAX, u64::MAX, 0x7fff_ffff_ffff_ffff]);
}

#[test]
fn bitand_is_limb_wise() {
    let r = a().bitand(&b());
    assert_eq!(r.to_words(), [A[0] & B[0], A[1] & B[1]]);
    assert_eq!(r.to_words(), [0x0e0d_0e0f_0020_4060, 0x8000_0000_00ff_0000]);
}

#[test]
fn bitand_differs_from_both_operands() {
    let r = a().bitand(&b());
    assert_ne!(r, a());
    assert_ne!(r, b());
}

#[test]
fn bitand_on_other_widths() {
    let x = I64::from_words([0xff00]);
    let y = I64::from_words([0x0ff0]);
    assert_eq!(x.bitand(&y).to_words(), [0x0f00]);
    let p = I256::from_words([1, 2, 3, 4]);
    let q = I256::from_words([3, 3, 1, 12]);
    assert_eq!(p.bitand(&q).to_words(), [1, 2, 1, 4]);
    let e = Int::<0>::from_words([]);
    assert_eq!(e.bitand(&e), e);
}

#[test]
fn and_is_idempotent() {
    assert_eq!(a().bitand(&a()), a());
    assert_eq!(I128::max().bitand(&I128::max()), I128::max());
}

#[test]
fn and_with_zero_is_zero() {
    assert_eq!(a().bitand(&I128::zero()), I128::zero());
    assert_eq!(I128::minus_one().bitand(&I128::zero()), I128::zero());
}

#[test]
fn and_with_all_ones_is_identity() {
    assert_eq!(a().bitand(&I128::minus_one()), a());
    assert_eq!(I128::minus_one().to_words(), [u64::MAX, u64::MAX]);
}

#[test]
fn and_is_commutative() {
    assert_eq!(a().bitand(&b()), b().bitand(&a()));
}

#[test]
fn and_is_associative() {
    assert_eq!(a().bitand(&b()).bitand(&c()), a().bitand(&b().bitand(&c())));
}

#[test]
fn bitand_limb_masks_every_limb() {
    let m = Limb(0x0000_ffff_0000_ffff);
    let r = a().bitand_limb(m);
    assert_eq!(r.to_words(), [0x0000_beef_0000_4567, 0x0000_0000_0000_0000]);
    let r = I128::minus_one().bitand_limb(m);
    assert_eq!(r.to_words(), [0x0000_ffff_0000_ffff, 0x0000_ffff_0000_ffff]);
}

#[test]
fn bitand_limb_is_bitand_with_repeated_limb() {
    let m = Limb(0x00ff_00ff_8000_0001);
    let y = I128::from_words([m.0, m.0]);
    assert_eq!(I128::repeat(m), y);
    assert_eq!(a().bitand_limb(m), a().bitand(&y));
    assert_eq!(b().bitand_limb(m), b().bitand(&I128::repeat(m)));
}

#[test]
fn bitand_limb_with_extreme_limbs() {
    assert_eq!(a().bitand_limb(Limb::max()), a());
    assert_eq!(a().bitand_limb(Limb::zero()), I128::zero());
    assert_eq!(I128::minus_one().bitand_limb(Limb::one()).to_words(), [1, 1]);
}

#[test]
fn wrapping_and_equals_bitand() {
    assert_eq!(a().wrapping_and(&b()), a().bitand(&b()));
    assert_eq!(c().wrapping_and(&a()), c().bitand(&a()));
}

#[test]
fn checked_and_is_always_present() {
    let r = a().checked_and(&b());
    assert!(r.is_some());
    assert!(!r.is_none());
    assert_eq!(r.unwrap(), a().bitand(&b()));
    let z = I128::zero().checked_and(&I128::zero());
    assert!(z.is_some());
    assert_eq!(z.unwrap(), I128::zero());
}

#[test]
fn operator_equals_method() {
    let expected = a().bitand(&b());
    assert_eq!(a() & b(), expected);
    assert_eq!(a() & &b(), expected);
    assert_eq!(&a() & b(), expected);
    assert_eq!(&a() & &b(), expected);
}

#[test]
fn compound_assignment_replaces_receiver() {
    let expected = a().bitand(&b());
    let mut x = a();
    x &= b();
    assert_eq!(x, expected);
    let mut y = a();
    y &= &b();
    assert_eq!(y, expected);
}

#[test]
fn wrapping_wrapper_is_transparent() {
    let expected = a().bitand(&b());
    assert_eq!((Wrapping(a()) & Wrapping(b())).0, expected);
    assert_eq!((Wrapping(a()) & &Wrapping(b())).0, expected);
    assert_eq!((&Wrapping(a()) & Wrapping(b())).0, expected);
    assert_eq!((&Wrapping(a()) & &Wrapping(b())).0, expected);
    assert_eq!(Wrapping(a()) & Wrapping(b()), Wrapping(expected));
}

#[test]
fn wrapping_wrapper_compound_assignment() {
    let expected = Wrapping(a().bitand(&b()));
    let mut x = Wrapping(a());
    x &= Wrapping(b());
    assert_eq!(x, expected);
    let mut y = Wrapping(a());
    y &= &Wrapping(b());
    assert_eq!(y, expected);
}

#[test]
fn constants_have_their_bit_patterns() {
    assert_eq!(I128::zero().to_words(), [0, 0]);
    assert_eq!(I128::one().to_words(), [1, 0]);
    assert_eq!(I128::minus_one().to_words(), [u64::MAX, u64::MAX]);
    assert_eq!(I128::max().to_words(), [u64::MAX, 0x7fff_ffff_ffff_ffff]);
    assert_eq!(I64::max().to_words(), [0x7fff_ffff_ffff_ffff]);
    assert_eq!(I64::one().to_words(), [1]);
    assert_eq!(I128::max().to_words(), i128::MAX.to_le_bytes_words());
}

trait Words {
    fn to_le_bytes_words(self) -> [u64; 2];
}

impl Words for i128 {
    fn to_le_bytes_words(self) -> [u64; 2] {
        [self as u64, (self >> 64) as u64]
    }
}

#[test]
fn agrees_with_native_i128() {
    let xs: [i128; 6] = [0, 1, -1, i128::MAX, i128::MIN, -0x1234_5678_9abc_def0_1122_3344];
    for x in xs {
        for y in xs {
            let l = I128::from_words(x.to_le_bytes_words());
            let r = I128::from_words(y.to_le_bytes_words());
            assert_eq!(l.bitand(&r).to_words(), (x & y).to_le_bytes_words());
        }
    }
}

#[test]
fn uint_bitand_and_bitand_limb() {
    let x = Uint::<2>::from_words(A);
    let y = Uint::<2>::from_words(B);
    assert_eq!(x.bitand(&y).to_words(), [A[0] & B[0], A[1] & B[1]]);
    assert_eq!(x.bitand_limb(Limb(0xff)).to_words(), [0x67, 0x00]);
    assert_eq!(Uint::<2>::one().to_words(), [1, 0]);
    assert_eq!(Uint::<2>::max().to_words(), [u64::MAX, u64::MAX]);
    assert_eq!(Uint::<2>::zero().to_words(), [0, 0]);
    assert_eq!(Uint::<3>::repeat(Limb(7)).to_words(), [7, 7, 7]);
    assert_eq!(x.with_limb(1, Limb(5)).to_words(), [A[0], 5]);
}

#[test]
fn limb_bitand() {
    assert_eq!(Limb(0b1100).bitand(Limb(0b1010)), Limb(0b1000));
    assert_eq!(Limb::max().bitand(Limb::one()), Limb::one());
    assert_eq!(Limb::zero().0, 0);
    assert_eq!(Limb::max().0, u64::MAX);
}

#[test]
fn words_round_trip() {
    assert_eq!(I128::from_words(A).to_words(), A);
    assert_eq!(I128::from_bits(Uint::from_words(B)).to_words(), B);
    assert_eq!(I128::from_words(C).as_uint().to_words(), C);
}

#[test]
fn ct_option_flags() {
    let s = ConstCtOption::some(7u32);
    assert!(s.is_some());
    assert!(!s.is_none());
    assert_eq!(s.unwrap(), 7);
    let n = ConstCtOption::none(0u32);
    assert!(n.is_none());
    assert!(!n.is_some());
}
