use are_we_sdd_yet::ratio::Ratio;
use are_we_sdd_yet::text::{decimal_string, digit_str};

fn seconds(nanos: u64) -> String {
    let mut s = String::new();
    are_we_sdd_yet::text::push_seconds(&mut s, nanos);
    s
}

#[test]
fn decimal_text() {
    assert_eq!(decimal_string(0), "0");
    assert_eq!(decimal_string(7), "7");
    assert_eq!(decimal_string(10), "10");
    assert_eq!(decimal_string(1234567890), "1234567890");
    assert_eq!(decimal_string(u128::MAX), u128::MAX.to_string());
    assert_eq!(digit_str(0), "0");
    assert_eq!(digit_str(9), "9");
}

#[test]
fn seconds_have_six_places() {
    assert_eq!(seconds(0), "0.000000");
    assert_eq!(seconds(2_000_000_000), "2.000000");
    assert_eq!(seconds(1_500_000_000), "1.500000");
    assert_eq!(seconds(1_234), "0.000001");
    assert_eq!(seconds(1_500), "0.000002");
    assert_eq!(seconds(1_499), "0.000001");
    assert_eq!(seconds(999_999_500), "1.000000");
    assert_eq!(seconds(12_345_678_901), "12.345679");
    assert_eq!(seconds(u64::MAX), "18446744073.709552");
}

#[test]
fn ratio_text_has_two_places() {
    assert_eq!(Ratio::new(2, 1).render(), "2.00");
    assert_eq!(Ratio::new(1, 2).render(), "0.50");
    assert_eq!(Ratio::new(1, 3).render(), "0.33");
    assert_eq!(Ratio::new(2, 3).render(), "0.67");
    assert_eq!(Ratio::new(1, 8).render(), "0.13");
    assert_eq!(Ratio::new(0, 5).render(), "0.00");
    assert_eq!(Ratio::new(1005, 1000).render(), "1.01");
    assert_eq!(Ratio::new(u64::MAX, 1).render(), format!("{}.00", u64::MAX));
    assert_eq!(Ratio::new(u64::MAX, u64::MAX).render(), "1.00");
}

#[test]
fn hundredths_are_rounded_to_nearest() {
    assert_eq!(Ratio::new(2, 1).hundredths(), Some(200));
    assert_eq!(Ratio::new(1, 3).hundredths(), Some(33));
    assert_eq!(Ratio::new(2, 3).hundredths(), Some(67));
    assert_eq!(Ratio::new(1, 200).hundredths(), Some(1));
    assert_eq!(Ratio::new(1, 201).hundredths(), Some(0));
    assert_eq!(Ratio::new(3, 0).hundredths(), None);
}

#[test]
fn zero_denominator_has_its_own_marker() {
    assert_eq!(Ratio::new(1_500_000_000, 0).render(), "inf");
    assert_eq!(Ratio::new(0, 0).render(), "NaN");
}

#[test]
fn swapped_ratio_is_the_reciprocal() {
    for (a, b) in [(1u64, 2u64), (3, 7), (250, 1000), (u64::MAX, 3)] {
        let r = Ratio::new(a, b);
        let s = r.swapped();
        assert_eq!((s.numerator, s.denominator), (b, a));
        let product_n = (r.numerator as u128) * (s.numerator as u128);
        let product_d = (r.denominator as u128) * (s.denominator as u128);
        assert_eq!(product_n, product_d);
    }
    assert_eq!(Ratio::new(4, 1).render(), "4.00");
    assert_eq!(Ratio::new(4, 1).swapped().render(), "0.25");
}
