use std::cmp::Ordering;
use std::convert::TryFrom;

use yolol_devices::value::ValueTrait;
use yolol_devices::value::YololInt;
use yolol_devices::value::YololString;
use yolol_devices::value::YololValue;

fn raw(v: i64) -> YololInt {
    YololInt::new_raw(v)
}

fn number(v: i64) -> YololValue {
    YololValue::Int(YololInt::new_raw(v))
}

fn text(s: &str) -> YololValue {
    YololValue::from(s)
}

#[test]
fn concat_test_1() {
    let a: i64 = 1;
    let b: i64 = 1;
    assert_eq!(
        YololValue::from(a + b),
        YololValue::from(a) + YololValue::from(b)
    )
}

#[test]
fn concat_test_2() {
    let a = "Hello";
    let b: i64 = 1;
    assert_eq!(
        YololValue::from("Hello1"),
        YololValue::from(a) + YololValue::from(b)
    )
}

#[test]
fn concat_test() {
    let a = "Hello";
    let b = " world";
    assert_eq!(
        YololString::from("Hello world"),
        YololString::from(a) + YololString::from(b)
    )
}

#[test]
fn remove_test_1() {
    let a = "Hello";
    let b = " world";
    assert_eq!(
        YololString::from("Hello"),
        (YololString::from(a) - YololString::from(b)).unwrap()
    )
}

#[test]
fn remove_test_2() {
    let a = "Hello world";
    let b = " world";
    assert_eq!(
        YololString::from("Hello"),
        (YololString::from(a) - YololString::from(b)).unwrap()
    )
}

#[test]
fn remove_test_3() {
    let b = "Hello world";
    let a = " world";
    assert_eq!(
        YololString::from(" world"),
        (YololString::from(a) - YololString::from(b)).unwrap()
    )
}

#[test]
fn remove_test_4() {
    let a = "Hello world Hello world";
    let b = " world";
    assert_eq!(
        YololString::from("Hello world Hello"),
        (YololString::from(a) - YololString::from(b)).unwrap()
    )
}

#[test]
fn remove_only_at_the_end() {
    assert_eq!(
        YololString::from("world Hello"),
        (YololString::from("world Hello") - YololString::from("world")).unwrap()
    );
    assert_eq!(
        YololString::from(""),
        (YololString::from("same") - YololString::from("same")).unwrap()
    );
    assert_eq!(
        YololString::from("same"),
        (YololString::from("same") - YololString::from("")).unwrap()
    );
}

#[test]
fn remove_works_on_characters() {
    assert_eq!(
        YololString::from("h\u{e9}"),
        (YololString::from("h\u{e9}llo") - YololString::from("llo")).unwrap()
    );
    assert_eq!(
        YololString::from("a"),
        (YololString::from("a\u{20ac}") - YololString::from("\u{20ac}")).unwrap()
    );
}

#[test]
fn fixed_point_sums_are_exact() {
    assert_eq!(raw(3750), &raw(1500) + &raw(2250));
    assert_eq!(raw(-750), &raw(1500) - &raw(2250));
    assert_eq!(raw(0), &raw(1) - &raw(1));
}

#[test]
fn fixed_point_products_and_quotients_are_exact() {
    assert_eq!(raw(3000), &raw(1500) * &raw(2000));
    assert_eq!(raw(-3000), &raw(-1500) * &raw(2000));
    assert_eq!(Some(raw(1500)), &raw(3000) / &raw(2000));
    assert_eq!(Some(raw(-1500)), &raw(3000) / &raw(-2000));
    assert_eq!(Some(raw(1500)), &raw(7500) % &raw(2000));
}

#[test]
fn sums_saturate() {
    assert_eq!(raw(i64::MAX), &raw(i64::MAX) + &raw(1));
    assert_eq!(raw(i64::MIN), &raw(i64::MIN) + &raw(-1));
    assert_eq!(raw(i64::MAX), &raw(i64::MAX) - &raw(-1));
    assert_eq!(raw(i64::MIN), &raw(i64::MIN) - &raw(1));
    assert_eq!(raw(i64::MAX), &raw(0) - &raw(i64::MIN));
}

#[test]
fn products_wrap_before_they_are_rescaled() {
    assert_eq!(
        raw(-4833260864108756),
        &raw(4_000_000_000_000) * &raw(4_000_000_000_000)
    );
    assert_eq!(raw(0), &raw(4611686018427387904) * &raw(3000));
}

#[test]
fn products_are_cut_toward_zero() {
    assert_eq!(raw(0), &raw(1) * &raw(999));
    assert_eq!(raw(0), &raw(-1) * &raw(999));
    assert_eq!(raw(-1), &raw(-1) * &raw(1999));
}

#[test]
fn division_by_zero_fails() {
    assert_eq!(None, &raw(1000) / &raw(0));
    assert_eq!(None, &raw(0) / &raw(0));
    assert_eq!(None, &raw(i64::MIN) / &raw(0));
    assert!((number(1000) / number(0)).is_none());
}

#[test]
fn remainder_by_zero_fails() {
    assert_eq!(None, &raw(1000) % &raw(0));
    assert_eq!(None, &raw(0) % &raw(0));
    assert!((number(1000) % number(0)).is_none());
}

#[test]
fn quotients_round_to_the_nearest_thousandth() {
    assert_eq!(Some(raw(333)), &raw(1000) / &raw(3000));
    assert_eq!(Some(raw(667)), &raw(2000) / &raw(3000));
    assert_eq!(Some(raw(-667)), &raw(-2000) / &raw(3000));
    assert_eq!(Some(raw(1)), &raw(1) / &raw(2000));
    assert_eq!(Some(raw(-1)), &raw(-1) / &raw(2000));
    assert_eq!(Some(raw(0)), &raw(1) / &raw(2001));
}

#[test]
fn quotients_saturate() {
    assert_eq!(Some(raw(i64::MAX)), &raw(i64::MAX) / &raw(1));
    assert_eq!(Some(raw(i64::MIN)), &raw(i64::MAX) / &raw(-1));
    assert_eq!(Some(raw(i64::MAX)), &raw(i64::MIN) / &raw(-1000));
    assert_eq!(Some(raw(i64::MIN)), &raw(i64::MIN) / &raw(1000));
}

#[test]
fn remainders_take_the_sign_of_the_dividend() {
    assert_eq!(Some(raw(-1500)), &raw(-7500) % &raw(2000));
    assert_eq!(Some(raw(1500)), &raw(7500) % &raw(-2000));
    assert_eq!(Some(raw(0)), &raw(i64::MIN) % &raw(-1));
    assert_eq!(Some(raw(-808)), &raw(i64::MIN) % &raw(1000));
}

#[test]
fn value_remainder_is_the_remainder() {
    assert_eq!(Some(number(1500)), number(7500) % number(2000));
    assert_eq!(Some(number(6000)), number(2000) * number(3000));
    assert_eq!(Some(number(667)), number(2000) / number(3000));
}

#[test]
fn arithmetic_on_text_has_no_value() {
    assert!((text("a") * number(1000)).is_none());
    assert!((number(1000) * text("a")).is_none());
    assert!((text("a") / number(1000)).is_none());
    assert!((number(1000) % text("a")).is_none());
}

#[test]
fn not_turns_zero_into_one() {
    assert_eq!(raw(1000), !&raw(0));
    assert_eq!(raw(0), !&raw(1));
    assert_eq!(raw(0), !&raw(-1000));
}

#[test]
fn constructors() {
    assert_eq!(raw(0), YololInt::from(false));
    assert_eq!(raw(1000), YololInt::from(true));
    assert_eq!(raw(-3000), YololInt::from(-3i64));
    assert_eq!(raw(i64::MAX), YololInt::from(i64::MAX));
    assert_eq!(raw(i64::MIN), YololInt::from(i64::MIN));
    assert_eq!(raw(0), YololInt::default());
    assert_eq!(number(1000), YololValue::from(true));
    assert_eq!(number(0), YololValue::default());
    assert_eq!(number(5), YololValue::from(raw(5)));
    assert_eq!(text("x"), YololValue::from(YololString::from("x")));
    assert_eq!(7, raw(7).raw());
}

#[test]
fn conversions_out_of_a_number() {
    assert!(bool::from(&raw(1)));
    assert!(bool::from(&raw(-1)));
    assert!(!bool::from(&raw(0)));
    assert_eq!(3, i64::from(&raw(3999)));
    assert_eq!(-3, i64::from(&raw(-3999)));
    assert_eq!(0, i64::from(&raw(-999)));
}

#[test]
fn truthiness() {
    assert!(bool::from(&number(1)));
    assert!(!bool::from(&number(0)));
    assert!(!bool::from(&text("true")));
    assert!(!bool::from(&YololString::from("1")));
    assert!(number(-5).is_truthy());
    assert!(!text("").is_truthy());
}

#[test]
fn logical_operators() {
    assert_eq!(number(1000), number(0).or(&number(2)));
    assert_eq!(number(0), number(0).or(&number(0)));
    assert_eq!(number(0), text("a").or(&text("b")));
    assert_eq!(number(1000), text("a").or(&number(1)));
    assert_eq!(number(1000), number(3).and(&number(-4)));
    assert_eq!(number(0), number(3).and(&number(0)));
    assert_eq!(number(0), number(3).and(&text("a")));
}

#[test]
fn numbers_are_written_in_decimal() {
    assert_eq!("0", raw(0).to_string());
    assert_eq!("1", raw(1000).to_string());
    assert_eq!("1.5", raw(1500).to_string());
    assert_eq!("1.05", raw(1050).to_string());
    assert_eq!("1.005", raw(1005).to_string());
    assert_eq!("0.001", raw(1).to_string());
    assert_eq!("0.01", raw(10).to_string());
    assert_eq!("0.1", raw(100).to_string());
    assert_eq!("-0.5", raw(-500).to_string());
    assert_eq!("-12.34", raw(-12340).to_string());
    assert_eq!("1234567", raw(1234567000).to_string());
    assert_eq!("9223372036854775.807", raw(i64::MAX).to_string());
    assert_eq!("-9223372036854775.808", raw(i64::MIN).to_string());
}

#[test]
fn values_are_written_as_text() {
    assert_eq!("abc", text("abc").to_string());
    assert_eq!("2.5", number(2500).to_string());
    assert_eq!(YololString::from("2.5"), YololString::from(&raw(2500)));
    assert_eq!(YololString::from("2.5"), number(2500).into_text());
}

#[test]
fn text_and_number_join_as_text() {
    assert_eq!(text("1.5x"), number(1500) + text("x"));
    assert_eq!(text("x-2"), text("x") + number(-2000));
    assert_eq!(text("ab"), text("a") + text("b"));
    assert_eq!(number(3500), number(1500) + number(2000));
}

#[test]
fn text_and_number_subtract_as_text() {
    assert_eq!(Some(text("level")), text("level1.5") - number(1500));
    assert_eq!(Some(text("1")), number(1500) - text(".5"));
    assert_eq!(Some(text("1.5")), number(1500) - text("1"));
    assert_eq!(Some(text("Hello")), text("Hello world") - text(" world"));
    assert_eq!(Some(text("world")), text("world") - text("Hello world"));
    assert_eq!(Some(number(-500)), number(1500) - number(2000));
}

#[test]
fn equality_is_by_kind() {
    assert!(number(1000) == number(1000));
    assert!(number(1000) != number(1001));
    assert!(text("1") == text("1"));
    assert!(text("1") != number(1000));
    assert!(number(1000) != text("1"));
    assert!(raw(4) == raw(4));
    assert!(YololString::from("a") != YololString::from("b"));
}

#[test]
fn order_is_by_kind() {
    assert_eq!(Some(Ordering::Less), number(1).partial_cmp(&number(2)));
    assert_eq!(Some(Ordering::Equal), number(2).partial_cmp(&number(2)));
    assert_eq!(Some(Ordering::Greater), number(3).partial_cmp(&number(-2)));
    assert_eq!(Some(Ordering::Less), text("abc").partial_cmp(&text("abd")));
    assert_eq!(Some(Ordering::Less), text("ab").partial_cmp(&text("abc")));
    assert_eq!(Some(Ordering::Greater), text("b").partial_cmp(&text("abc")));
    assert_eq!(Some(Ordering::Equal), text("").partial_cmp(&text("")));
    assert_eq!(Some(Ordering::Less), text("Z").partial_cmp(&text("a")));
    assert_eq!(Some(Ordering::Less), text("z").partial_cmp(&text("\u{e9}")));
    assert_eq!(None, text("1").partial_cmp(&number(1000)));
    assert_eq!(None, number(1000).partial_cmp(&text("1")));
    assert!(raw(1) < raw(2));
    assert!(YololString::from("a") < YololString::from("b"));
    assert!(!(text("a") < number(1)));
    assert!(!(text("a") > number(1)));
}

#[test]
fn taking_a_value_apart() {
    assert_eq!(Ok(raw(5)), YololInt::try_from(&number(5)));
    assert_eq!(Err(()), YololInt::try_from(&text("5")));
    assert_eq!(Ok(YololString::from("5")), YololString::try_from(&text("5")));
    assert_eq!(Err(()), YololString::try_from(&number(5)));
    assert!(text("5").is_string());
    assert!(!number(5).is_string());
}

#[test]
fn incrementing_a_number() {
    let mut a = raw(1500);
    assert_eq!(number(1500), a.post_inc());
    assert_eq!(raw(2500), a);
    assert_eq!(number(3500), a.pre_inc());
    assert_eq!(raw(3500), a);
    let mut top = raw(i64::MAX - 1);
    assert_eq!(number(i64::MAX), top.pre_inc());
}

#[test]
fn decrementing_a_number() {
    let mut a = raw(1500);
    assert_eq!(Some(number(1500)), a.post_dec());
    assert_eq!(raw(500), a);
    assert_eq!(Some(number(-500)), a.pre_dec());
    assert_eq!(raw(-500), a);
    let mut bottom = raw(i64::MIN + 1);
    assert_eq!(Some(number(i64::MIN)), bottom.pre_dec());
}

#[test]
fn incrementing_a_text() {
    let mut a = YololString::from("ab");
    assert_eq!(text("ab"), a.post_inc());
    assert_eq!(YololString::from("ab "), a);
    assert_eq!(text("ab  "), a.pre_inc());
    assert_eq!(YololString::from("ab  "), a);
}

#[test]
fn decrementing_a_text() {
    let mut a = YololString::from("ab\u{e9}");
    assert_eq!(Some(text("ab\u{e9}")), a.post_dec());
    assert_eq!(YololString::from("ab"), a);
    assert_eq!(Some(text("a")), a.pre_dec());
    assert_eq!(YololString::from("a"), a);
    assert_eq!(Some(text("")), a.pre_dec());
    assert_eq!(None, a.pre_dec());
    assert_eq!(None, a.post_dec());
    assert_eq!(YololString::from(""), a);
}

#[test]
fn incrementing_a_value() {
    let mut a = number(0);
    assert_eq!(number(0), a.post_inc());
    assert_eq!(number(1000), a);
    let mut b = text("");
    assert_eq!(None, b.post_dec());
    assert_eq!(text(" "), b.pre_inc());
}

#[test]
fn factorial() {
    assert_eq!(Some(number(1000)), raw(0).fac());
    assert_eq!(Some(number(1000)), raw(1000).fac());
    assert_eq!(Some(number(120_000)), raw(5000).fac());
    assert_eq!(Some(number(120_000)), raw(5999).fac());
    assert_eq!(Some(number(1000)), raw(-999).fac());
    assert_eq!(Some(number(6402373705728000000)), raw(18_000).fac());
}

#[test]
fn factorial_out_of_range_is_the_sentinel() {
    assert_eq!(Some(number(i64::MIN)), raw(-1000).fac());
    assert_eq!(Some(number(i64::MIN)), raw(19_000).fac());
    assert_eq!(Some(number(i64::MIN)), raw(i64::MAX).fac());
    assert_eq!(Some(number(i64::MIN)), raw(i64::MIN).fac());
    assert_eq!(None, YololString::from("5").fac());
    assert_eq!(None, text("5").fac());
}

#[test]
fn absolute_value() {
    assert_eq!(Some(number(1500)), raw(-1500).abs());
    assert_eq!(Some(number(1500)), raw(1500).abs());
    assert_eq!(Some(number(i64::MAX)), raw(i64::MIN + 1).abs());
    assert_eq!(Some(number(i64::MIN)), raw(i64::MIN).abs());
    assert_eq!(None, text("x").abs());
}

#[test]
fn square_root_outside_its_domain_is_the_sentinel() {
    assert_eq!(Some(number(i64::MIN)), raw(-1).sqrt(raw(0)));
    assert_eq!(Some(number(i64::MIN)), raw(i64::MIN).sqrt(raw(0)));
    assert_eq!(Some(number(i64::MIN)), raw(9223372036854775000).sqrt(raw(7)));
    assert_eq!(Some(number(2000)), raw(4000).sqrt(raw(2000)));
    assert_eq!(Some(number(0)), raw(0).sqrt(raw(0)));
    assert_eq!(Some(number(7)), raw(9223372036854774999).sqrt(raw(7)));
    assert_eq!(None, text("4").sqrt(raw(2000)));
}

#[test]
fn arc_functions_outside_their_domain_are_the_sentinel() {
    assert_eq!(Some(number(i64::MIN)), raw(1001).asin(raw(0)));
    assert_eq!(Some(number(i64::MIN)), raw(-1001).asin(raw(0)));
    assert_eq!(Some(number(i64::MIN)), raw(1001).acos(raw(0)));
    assert_eq!(Some(number(i64::MIN)), raw(-1001).acos(raw(0)));
    assert_eq!(Some(number(90_000)), raw(1000).asin(raw(90_000)));
    assert_eq!(Some(number(-90_000)), raw(-1000).asin(raw(-90_000)));
    assert_eq!(Some(number(0)), raw(1000).acos(raw(0)));
    assert_eq!(Some(number(180_000)), raw(-1000).acos(raw(180_000)));
    assert_eq!(None, text("1").asin(raw(0)));
    assert_eq!(None, text("1").acos(raw(0)));
}

#[test]
fn host_evaluations_pass_through() {
    assert_eq!(Some(number(500)), raw(30_000).sin(raw(500)));
    assert_eq!(Some(number(866)), raw(30_000).cos(raw(866)));
    assert_eq!(Some(number(45_000)), raw(1000).atan(raw(45_000)));
    assert_eq!(None, text("x").sin(raw(500)));
    assert_eq!(None, text("x").cos(raw(866)));
    assert_eq!(None, text("x").atan(raw(45_000)));
    assert_eq!(Some(number(500)), number(30_000).sin(raw(500)));
}

#[test]
fn tangent() {
    assert_eq!(Some(number(577)), raw(30_000).tan(raw(500), raw(866)));
    assert_eq!(Some(number(i64::MIN)), raw(90_000).tan(raw(1000), raw(0)));
    assert_eq!(None, text("x").tan(raw(500), raw(866)));
}

#[test]
fn power() {
    assert_eq!(Some(number(8000)), raw(2000).pow(&number(3000), Some(raw(8000))));
    assert_eq!(Some(number(i64::MIN)), raw(0).pow(&number(3000), None));
    assert_eq!(None, raw(2000).pow(&text("3"), Some(raw(8000))));
    assert_eq!(None, text("2").pow(&number(3000), Some(raw(8000))));
}

#[test]
fn a_text_value_clones() {
    let a = text("abc");
    let b = a.clone();
    assert_eq!(a, b);
    let c = YololString::from("x");
    assert_eq!(c, c.clone());
}
