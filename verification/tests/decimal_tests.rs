use hyperliquid_trading_bot::decimal::Decimal;

fn dec(mantissa: i64, scale: u32) -> Decimal {
    Decimal::new(mantissa, scale)
}

fn outside(d: &Decimal) -> rust_decimal::Decimal {
    rust_decimal::Decimal::from_i128_with_scale(d.mantissa(), d.scale())
}

fn same(d: &Decimal, expected: rust_decimal::Decimal) -> bool {
    let o = outside(d);
    o == expected && o.scale() == expected.scale()
}

#[test]
fn new_keeps_mantissa_and_scale() {
    let d = dec(-12345, 3);
    assert_eq!(d.mantissa(), -12345);
    assert_eq!(d.scale(), 3);
}

#[test]
fn from_parts_accepts_the_whole_range() {
    let max: i128 = 0xFFFF_FFFF_FFFF_FFFF_FFFF_FFFF;
    assert!(Decimal::from_parts(max, 28).is_some());
    assert!(Decimal::from_parts(-max, 0).is_some());
    assert!(Decimal::from_parts(max + 1, 0).is_none());
    assert!(Decimal::from_parts(-max - 1, 0).is_none());
    assert!(Decimal::from_parts(1, 29).is_none());
    let d = Decimal::from_parts(42, 7).unwrap();
    assert_eq!(d.mantissa(), 42);
    assert_eq!(d.scale(), 7);
}

#[test]
fn whole_numbers_have_scale_zero() {
    let d = Decimal::from_u64(u64::MAX);
    assert_eq!(d.mantissa(), u64::MAX as i128);
    assert_eq!(d.scale(), 0);
    let e = Decimal::from_usize(17);
    assert_eq!(e.mantissa(), 17);
    assert_eq!(e.scale(), 0);
    assert!(Decimal::zero().is_zero());
    assert_eq!(Decimal::zero().scale(), 0);
}

#[test]
fn comparison_is_by_value() {
    let a = dec(10, 1);
    let b = dec(1, 0);
    assert!(a.equals(&b));
    assert!(!a.lt(&b));
    assert!(!b.lt(&a));
    assert!(a.le(&b));
    assert!(a.ge(&b));
    assert!(dec(95, 2).lt(&b));
    assert!(!b.lt(&dec(95, 2)));
    assert!(b.gt(&dec(-3, 0)));
    assert!(dec(-5, 1).lt(&dec(-1, 2)));
    assert!(dec(0, 5).equals(&Decimal::zero()));
}

#[test]
fn comparison_across_far_scales() {
    let big = Decimal::from_parts(0xFFFF_FFFF_FFFF_FFFF_FFFF_FFFF, 0).unwrap();
    let small = Decimal::from_parts(1, 28).unwrap();
    assert!(small.lt(&big));
    assert!(!big.lt(&small));
    assert!(big.neg().lt(&small));
    assert!(big.neg().lt(&small.neg()));
}

#[test]
fn sign_queries() {
    assert!(dec(1, 28).is_positive());
    assert!(!dec(0, 3).is_positive());
    assert!(!dec(-1, 0).is_positive());
    assert!(dec(0, 3).is_zero());
    assert!(!dec(1, 3).is_zero());
}

#[test]
fn neg_and_abs() {
    let d = dec(-250, 2);
    assert_eq!(d.neg().mantissa(), 250);
    assert_eq!(d.neg().scale(), 2);
    assert_eq!(d.abs().mantissa(), 250);
    assert_eq!(dec(250, 2).abs().mantissa(), 250);
    assert_eq!(dec(0, 2).neg().mantissa(), 0);
}

#[test]
fn addition_is_the_outside_addition() {
    let r = dec(15, 1).checked_add(&dec(225, 2)).unwrap();
    assert_eq!(r.mantissa(), 375);
    assert_eq!(r.scale(), 2);
    assert!(same(&r, rust_decimal::Decimal::new(15, 1) + rust_decimal::Decimal::new(225, 2)));
}

#[test]
fn adding_zero_hands_the_other_operand_back() {
    let x = dec(500, 2);
    let left = Decimal::zero().checked_add(&x).unwrap();
    assert_eq!(left.mantissa(), 500);
    assert_eq!(left.scale(), 2);
    let right = x.checked_add(&dec(0, 5)).unwrap();
    assert_eq!(right.mantissa(), 500);
    assert_eq!(right.scale(), 2);
    let zeros = dec(0, 0).checked_add(&dec(0, 0)).unwrap();
    assert_eq!(zeros.mantissa(), 0);
    assert_eq!(zeros.scale(), 0);
    let scaled = dec(0, 3).checked_add(&dec(0, 1)).unwrap();
    assert_eq!(scaled.mantissa(), 0);
    assert_eq!(scaled.scale(), 1);
}

#[test]
fn addition_overflow_is_none() {
    let max = Decimal::from_parts(0xFFFF_FFFF_FFFF_FFFF_FFFF_FFFF, 0).unwrap();
    assert!(max.checked_add(&max).is_none());
    assert!(max.checked_add(&dec(1, 0)).is_none());
}

#[test]
fn subtraction_is_the_outside_subtraction() {
    let r = dec(10, 0).checked_sub(&dec(25, 1)).unwrap();
    assert_eq!(r.mantissa(), 75);
    assert_eq!(r.scale(), 1);
    let n = dec(1, 0).checked_sub(&dec(3, 0)).unwrap();
    assert_eq!(n.mantissa(), -2);
    let max = Decimal::from_parts(0xFFFF_FFFF_FFFF_FFFF_FFFF_FFFF, 0).unwrap();
    assert!(max.neg().checked_sub(&max).is_none());
}

#[test]
fn multiplication_is_the_outside_multiplication() {
    let r = dec(15, 1).checked_mul(&dec(-4, 0)).unwrap();
    assert_eq!(r.mantissa(), -60);
    assert_eq!(r.scale(), 1);
    let max = Decimal::from_parts(0xFFFF_FFFF_FFFF_FFFF_FFFF_FFFF, 0).unwrap();
    assert!(max.checked_mul(&dec(2, 0)).is_none());
}

#[test]
fn division_is_the_outside_division() {
    let r = dec(1, 0).checked_div(&dec(4, 0)).unwrap();
    assert!(r.equals(&dec(25, 2)));
    assert!(same(&r, rust_decimal::Decimal::ONE / rust_decimal::Decimal::new(4, 0)));
    let third = dec(1, 0).checked_div(&dec(3, 0)).unwrap();
    assert!(same(&third, rust_decimal::Decimal::ONE / rust_decimal::Decimal::new(3, 0)));
    assert!(third.gt(&dec(333, 3)));
    assert!(third.lt(&dec(334, 3)));
}

#[test]
fn division_by_zero_is_none() {
    assert!(dec(1, 0).checked_div(&Decimal::zero()).is_none());
    assert!(dec(0, 0).checked_div(&dec(0, 4)).is_none());
}

#[test]
fn zero_divided_is_zero_with_scale_zero() {
    let r = dec(0, 5).checked_div(&dec(7, 2)).unwrap();
    assert_eq!(r.mantissa(), 0);
    assert_eq!(r.scale(), 0);
}

#[test]
fn square_is_the_outside_power() {
    let r = dec(-15, 1).checked_square().unwrap();
    assert!(r.equals(&dec(225, 2)));
    let max = Decimal::from_parts(0xFFFF_FFFF_FFFF_FFFF_FFFF_FFFF, 0).unwrap();
    assert!(max.checked_square().is_none());
    assert!(Decimal::zero().checked_square().unwrap().is_zero());
}

#[test]
fn parse_reads_decimals() {
    let d = Decimal::parse("123.450").unwrap();
    assert_eq!(d.mantissa(), 123450);
    assert_eq!(d.scale(), 3);
    let n = Decimal::parse("-0.5").unwrap();
    assert_eq!(n.mantissa(), -5);
    assert_eq!(n.scale(), 1);
    assert!(Decimal::parse("abc").is_none());
    assert!(Decimal::parse("").is_none());
    assert!(Decimal::parse("1.2.3").is_none());
}

#[test]
fn to_text_prints_decimals() {
    assert_eq!(dec(123450, 3).to_text(), "123.450");
    assert_eq!(dec(-5, 1).to_text(), "-0.5");
    assert_eq!(dec(100, 0).to_text(), "100");
    assert_eq!(Decimal::zero().to_text(), "0");
}

#[test]
fn to_text_fixed_sets_the_digits() {
    assert_eq!(dec(123456, 5).to_text_fixed(2), "1.23");
    assert_eq!(dec(125, 1).to_text_fixed(2), "12.50");
    assert_eq!(dec(7, 0).to_text_fixed(0), "7");
    assert_eq!(dec(-5, 1).to_text_fixed(3), "-0.500");
}

#[test]
fn whole_digits_are_counted() {
    assert_eq!(Decimal::zero().whole_digits(), 0);
    assert_eq!(dec(5, 1).whole_digits(), 0);
    assert_eq!(dec(-999, 3).whole_digits(), 0);
    assert_eq!(dec(1, 0).whole_digits(), 1);
    assert_eq!(dec(-10, 1).whole_digits(), 1);
    assert_eq!(dec(123456, 2).whole_digits(), 4);
    assert_eq!(dec(i64::MAX, 0).whole_digits(), 19);
    let max = Decimal::from_parts(0xFFFF_FFFF_FFFF_FFFF_FFFF_FFFF, 0).unwrap();
    assert_eq!(max.whole_digits(), 29);
    assert_eq!(max.neg().whole_digits(), 29);
    let small = Decimal::from_parts(0xFFFF_FFFF_FFFF_FFFF_FFFF_FFFF, 28).unwrap();
    assert_eq!(small.whole_digits(), 1);
}

#[test]
fn to_text_fixed_at_the_edge_of_the_room() {
    // three whole digits, the point and 28 digits fill the room exactly
    let expected = format!("100.{}", "0".repeat(28));
    assert_eq!(dec(100, 0).to_text_fixed(28), expected);
    assert_eq!(dec(-100, 0).to_text_fixed(28), format!("-{}", expected));
    // digits beyond 28 are zeros behind the text
    assert_eq!(dec(100, 0).to_text_fixed(30), format!("100.{}", "0".repeat(30)));
    // 25 whole digits and 6 digits fit as well
    let big = Decimal::from_parts(10i128.pow(24), 0).unwrap();
    assert_eq!(big.to_text_fixed(6), format!("1{}.000000", "0".repeat(24)));
    let max = Decimal::from_parts(0xFFFF_FFFF_FFFF_FFFF_FFFF_FFFF, 0).unwrap();
    assert_eq!(max.to_text_fixed(2), "79228162514264337593543950335.00");
    assert_eq!(max.to_text_fixed(0), "79228162514264337593543950335");
}

#[test]
fn to_text_fixed_falls_back_where_the_text_has_no_room() {
    assert_eq!(dec(1000, 0).to_text_fixed(28), "1000");
    assert_eq!(dec(12345, 1).to_text_fixed(40), "1234.5");
    let big = Decimal::from_parts(10i128.pow(25), 0).unwrap();
    assert_eq!(big.to_text_fixed(6), format!("1{}", "0".repeat(25)));
    let max = Decimal::from_parts(0xFFFF_FFFF_FFFF_FFFF_FFFF_FFFF, 0).unwrap();
    assert_eq!(max.to_text_fixed(3), "79228162514264337593543950335");
    assert_eq!(max.neg().to_text_fixed(28), "-79228162514264337593543950335");
}
