use discrakt::rating::{Rating, MAX_TENTHS};
use discrakt::text::{decimal_string, push_decimal, push_two_digit};

#[test]
fn decimal_of_zero_is_one_digit() {
    assert_eq!(decimal_string(0), "0");
}

#[test]
fn decimal_has_no_leading_zeros() {
    assert_eq!(decimal_string(7), "7");
    assert_eq!(decimal_string(10), "10");
    assert_eq!(decimal_string(2010), "2010");
    assert_eq!(decimal_string(65535), "65535");
    assert_eq!(decimal_string(u32::MAX), "4294967295");
}

#[test]
fn decimal_agrees_with_the_standard_rendering() {
    for n in 0..=1000u32 {
        assert_eq!(decimal_string(n), format!("{}", n));
    }
}

#[test]
fn push_decimal_appends_to_what_is_there() {
    let mut out = String::from("year ");
    push_decimal(&mut out, 1999);
    assert_eq!(out, "year 1999");
}

#[test]
fn two_digit_pads_below_ten() {
    for n in 0..10u32 {
        let mut out = String::new();
        push_two_digit(&mut out, n);
        assert_eq!(out, format!("0{}", n));
        assert_eq!(out.len(), 2);
    }
}

#[test]
fn two_digit_leaves_ten_and_more_alone() {
    for n in [10u32, 11, 42, 99, 100, 255] {
        let mut out = String::new();
        push_two_digit(&mut out, n);
        assert_eq!(out, format!("{}", n));
    }
}

#[test]
fn rating_takes_tenths_up_to_ten_points() {
    assert_eq!(Rating::from_tenths(0).unwrap().tenths(), 0);
    assert_eq!(Rating::from_tenths(88).unwrap().tenths(), 88);
    assert_eq!(Rating::from_tenths(MAX_TENTHS).unwrap().tenths(), 100);
}

#[test]
fn rating_refuses_more_than_ten_points() {
    assert!(Rating::from_tenths(101).is_none());
    assert!(Rating::from_tenths(255).is_none());
}

#[test]
fn fallback_rating_is_zero() {
    assert_eq!(Rating::fallback().tenths(), 0);
    assert_eq!(Rating::fallback().text(), "\u{2b50}\u{fe0f} 0.0/10");
}

#[test]
fn rating_text_has_one_decimal_place() {
    assert_eq!(Rating::from_tenths(88).unwrap().text(), "⭐️ 8.8/10");
    assert_eq!(Rating::from_tenths(70).unwrap().text(), "⭐️ 7.0/10");
    assert_eq!(Rating::from_tenths(5).unwrap().text(), "⭐️ 0.5/10");
    assert_eq!(Rating::from_tenths(100).unwrap().text(), "⭐️ 10.0/10");
}

#[test]
fn rating_text_agrees_with_one_decimal_formatting() {
    for tenths in 0..=100u8 {
        let expected = format!("⭐️ {:.1}/10", f64::from(tenths) / 10.0);
        assert_eq!(Rating::from_tenths(tenths).unwrap().text(), expected);
    }
}
