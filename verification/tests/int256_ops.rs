use evm_core::common::Address;
use evm_core::int256::Int256;

fn w(l3: u64, l2: u64, l1: u64, l0: u64) -> Int256 {
    Int256 { l0, l1, l2, l3 }
}

fn n(v: u64) -> Int256 {
    Int256::from_u64(v)
}

fn minus(v: u64) -> Int256 {
    n(v).neg()
}

fn min_signed() -> Int256 {
    w(0x8000_0000_0000_0000, 0, 0, 0)
}

#[test]
fn add_wraps_at_two_to_the_256() {
    assert_eq!(Int256::max_value().add(&n(1)), Int256::zero());
    assert_eq!(Int256::max_value().add(&n(5)), n(4));
    assert_eq!(w(0, 0, 0, u64::MAX).add(&n(1)), w(0, 0, 1, 0));
    assert_eq!(Int256::max_value().overflowing_add(&n(1)), (Int256::zero(), true));
    assert_eq!(n(2).overflowing_add(&n(3)), (n(5), false));
}

#[test]
fn sub_wraps_below_zero() {
    assert_eq!(n(0).sub(&n(1)), Int256::max_value());
    assert_eq!(w(0, 0, 1, 0).sub(&n(1)), w(0, 0, 0, u64::MAX));
    assert_eq!(n(3).overflowing_sub(&n(5)), (minus(2), true));
    assert_eq!(n(7).sub(&n(5)), n(2));
}

#[test]
fn mul_keeps_the_low_256_bits() {
    assert_eq!(n(6).mul(&n(7)), n(42));
    assert_eq!(w(0, 0, 0, u64::MAX).mul(&w(0, 0, 0, u64::MAX)), w(0, 0, u64::MAX - 1, 1));
    assert_eq!(Int256::max_value().mul(&Int256::max_value()), n(1));
    assert_eq!(w(0, 1, 0, 0).mul(&w(0, 1, 0, 0)), Int256::zero());
    assert_eq!(w(0, 0, 1, 0).mul(&w(0, 1, 0, 0)), w(1, 0, 0, 0));
}

#[test]
fn div_and_mod_by_zero_are_zero() {
    assert_eq!(n(1).div(&n(0)), n(0));
    assert_eq!(n(1).modulo(&n(0)), n(0));
    assert_eq!(n(1).signed_div(&n(0)), n(0));
    assert_eq!(n(1).signed_modulo(&n(0)), n(0));
    assert_eq!(n(1).add_mod(&n(2), &n(0)), n(0));
    assert_eq!(n(3).mul_mod(&n(2), &n(0)), n(0));
}

#[test]
fn div_and_mod_of_large_numbers() {
    assert_eq!(n(100).div(&n(7)), n(14));
    assert_eq!(n(100).modulo(&n(7)), n(2));
    assert_eq!(Int256::max_value().div(&w(0, 0, 1, 0)), w(0, u64::MAX, u64::MAX, u64::MAX));
    assert_eq!(Int256::max_value().modulo(&w(0, 0, 1, 0)), w(0, 0, 0, u64::MAX));
    assert_eq!(Int256::max_value().div(&Int256::max_value()), n(1));
    assert_eq!(n(5).div(&Int256::max_value()), n(0));
    assert_eq!(n(5).div_rem(&n(5)), (n(1), n(0)));
}

#[test]
fn signed_division_rounds_toward_zero() {
    assert_eq!(minus(7).signed_div(&n(2)), minus(3));
    assert_eq!(n(7).signed_div(&minus(2)), minus(3));
    assert_eq!(minus(7).signed_div(&minus(2)), n(3));
    assert_eq!(min_signed().signed_div(&minus(1)), min_signed());
    assert_eq!(minus(7).signed_modulo(&n(2)), minus(1));
    assert_eq!(n(7).signed_modulo(&minus(2)), n(1));
    assert_eq!(minus(8).signed_modulo(&minus(3)), minus(2));
}

#[test]
fn add_mod_and_mul_mod_work_on_the_true_result() {
    let max = Int256::max_value();
    // (2^256 - 1 + 2^256 - 1) mod 7 == 2 * (2^256 - 1 mod 7) mod 7; 2^256 mod 7 == 2, so 2 * 1 mod 7.
    assert_eq!(max.add_mod(&max, &n(7)), n(2));
    assert_eq!(max.mul_mod(&max, &n(7)), n(1));
    assert_eq!(n(10).add_mod(&n(10), &n(8)), n(4));
    assert_eq!(n(10).mul_mod(&n(10), &n(8)), n(4));
    // (2^256 - 1) * (2^256 - 1) mod 2^255 == 1
    assert_eq!(max.mul_mod(&max, &min_signed()), n(1));
    // (2^256 - 1) + 2 mod (2^256 - 1) == 2
    assert_eq!(max.add_mod(&n(2), &max), n(2));
}

#[test]
fn exp_is_a_power_modulo_two_to_the_256() {
    assert_eq!(n(2).exp(&n(10)), n(1024));
    assert_eq!(n(2).exp(&n(255)), min_signed());
    assert_eq!(n(2).exp(&n(256)), n(0));
    assert_eq!(n(3).exp(&n(0)), n(1));
    assert_eq!(n(0).exp(&n(0)), n(1));
    assert_eq!(n(0).exp(&n(5)), n(0));
    assert_eq!(n(7).exp(&n(3)), n(343));
}

#[test]
fn comparisons_signed_and_unsigned() {
    assert!(n(1).lt(&n(2)));
    assert!(!n(2).lt(&n(2)));
    assert!(w(1, 0, 0, 0).gt(&w(0, u64::MAX, u64::MAX, u64::MAX)));
    assert!(minus(1).gt(&n(1)));
    assert!(minus(1).slt(&n(1)));
    assert!(n(1).sgt(&minus(1)));
    assert!(minus(2).slt(&minus(1)));
    assert!(min_signed().slt(&minus(1)));
    assert!(n(5).equals(&n(5)));
    assert!(n(0).is_zero());
    assert!(!w(0, 1, 0, 0).is_zero());
}

#[test]
fn bitwise_operations() {
    let a = w(0xff00, 0x0f0f, 0xaaaa, 0x1234);
    let b = w(0x0ff0, 0x00ff, 0x5555, 0x00ff);
    assert_eq!(a.and(&b), w(0x0f00, 0x000f, 0, 0x0034));
    assert_eq!(a.or(&b), w(0xfff0, 0x0fff, 0xffff, 0x12ff));
    assert_eq!(a.xor(&b), w(0xf0f0, 0x0ff0, 0xffff, 0x12cb));
    assert_eq!(n(0).not(), Int256::max_value());
    assert_eq!(a.not().not(), a);
}

#[test]
fn shifts() {
    assert_eq!(n(1).shl(&n(255)), min_signed());
    assert_eq!(n(1).shl(&n(256)), n(0));
    assert_eq!(n(1).shl(&w(1, 0, 0, 0)), n(0));
    assert_eq!(n(3).shl(&n(64)), w(0, 0, 3, 0));
    assert_eq!(n(3).shl(&n(1)), n(6));
    assert_eq!(min_signed().shr(&n(255)), n(1));
    assert_eq!(min_signed().shr(&n(256)), n(0));
    assert_eq!(w(0, 0, 3, 0).shr(&n(64)), n(3));
    assert_eq!(n(0xff).shr(&n(4)), n(0xf));
    assert_eq!(Int256::max_value().lsh(4), w(u64::MAX, u64::MAX, u64::MAX, u64::MAX - 15));
    assert_eq!(Int256::max_value().rsh(252), n(0xf));
}

#[test]
fn arithmetic_shift_of_256_or_more_is_zero_exactly_for_a_clear_top_bit() {
    let all_ones = Int256::max_value();
    assert_eq!(n(5).sar(&n(256)), n(0));
    assert_eq!(n(5).sar(&n(1000)), n(0));
    assert_eq!(w(0x7fff_ffff_ffff_ffff, 1, 2, 3).sar(&w(1, 0, 0, 0)), n(0));
    assert_eq!(minus(5).sar(&n(256)), all_ones);
    assert_eq!(min_signed().sar(&n(257)), all_ones);
    assert_eq!(min_signed().sar(&w(0, 0, 1, 0)), all_ones);
    assert_eq!(minus(8).sar(&n(1)), minus(4));
    assert_eq!(minus(7).sar(&n(1)), minus(4));
    assert_eq!(n(8).sar(&n(2)), n(2));
    assert_eq!(min_signed().sar(&n(255)), all_ones);
}

#[test]
fn byte_counts_from_the_most_significant_byte() {
    let x = w(0x0102_0304_0506_0708, 0, 0, 0x0000_0000_0000_00ff);
    assert_eq!(x.byte(&n(0)), n(1));
    assert_eq!(x.byte(&n(7)), n(8));
    assert_eq!(x.byte(&n(31)), n(0xff));
    assert_eq!(x.byte(&n(30)), n(0));
    assert_eq!(x.byte(&n(32)), n(0));
    assert_eq!(x.byte(&w(1, 0, 0, 0)), n(0));
}

#[test]
fn sign_extend_copies_the_sign_of_a_byte() {
    assert_eq!(n(0xff).sign_extend(&n(0)), Int256::max_value());
    assert_eq!(n(0x7f).sign_extend(&n(0)), n(0x7f));
    assert_eq!(n(0x1234_80).sign_extend(&n(0)), minus(0x80));
    assert_eq!(n(0x8000).sign_extend(&n(1)), minus(0x8000));
    assert_eq!(n(0x8000).sign_extend(&n(2)), n(0x8000));
    assert_eq!(minus(3).sign_extend(&n(31)), minus(3));
    assert_eq!(n(0xff).sign_extend(&n(31)), n(0xff));
    assert_eq!(n(0xff).sign_extend(&w(1, 0, 0, 0)), n(0xff));
}

#[test]
fn bytes_round_trip() {
    let x = w(0x0102_0304_0506_0708, 0x1112_1314_1516_1718, 0x2122_2324_2526_2728, 0x3132_3334_3536_3738);
    let bytes = x.to_be_bytes();
    assert_eq!(bytes.len(), 32);
    assert_eq!(bytes[0], 0x01);
    assert_eq!(bytes[8], 0x11);
    assert_eq!(bytes[31], 0x38);
    assert_eq!(Int256::from_be_bytes(&bytes), x);
    for v in [Int256::zero(), Int256::one(), Int256::max_value(), min_signed()] {
        assert_eq!(Int256::from_be_bytes(&v.to_be_bytes()), v);
    }
}

#[test]
fn from_be_bytes_pads_short_input_and_keeps_the_last_32_bytes_of_long_input() {
    assert_eq!(Int256::from_be_bytes(&[]), n(0));
    assert_eq!(Int256::from_be_bytes(&[0x01, 0x02]), n(0x0102));
    let mut long = vec![0xaa; 8];
    long.extend_from_slice(&n(7).to_be_bytes());
    assert_eq!(Int256::from_be_bytes(&long), n(7));
}

#[test]
fn truncation_to_64_bits_reports_overflow() {
    assert_eq!(n(9).uint64_with_overflow(), (9, false));
    assert_eq!(w(0, 0, 1, 9).uint64_with_overflow(), (9, true));
    assert!(n(9).is_u64());
    assert!(!w(1, 0, 0, 0).is_u64());
    assert_eq!(w(1, 2, 3, 4).low_u64(), 4);
    assert_eq!(n(0).byte_len(), 0);
    assert_eq!(n(255).byte_len(), 1);
    assert_eq!(n(256).byte_len(), 2);
    assert_eq!(Int256::max_value().byte_len(), 32);
}

#[test]
fn address_is_the_low_twenty_bytes() {
    let x = w(0xdead_beef_0000_0000, 0x1111_1111_2222_2222, 3, 4);
    let a = Address::from_word(&x);
    assert_eq!(a, Address { hi: 0x2222_2222, mid: 3, lo: 4 });
    assert_eq!(a.to_word(), w(0, 0x2222_2222, 3, 4));
    let bytes = a.to_be_bytes();
    assert_eq!(bytes.len(), 20);
    assert_eq!(&bytes[..4], &[0x22, 0x22, 0x22, 0x22]);
    assert_eq!(bytes[19], 4);
    assert_eq!(Address::zero().to_word(), n(0));
}
