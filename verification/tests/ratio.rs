use resize_split::ratio::Ratio;

#[test]
fn from_percent_is_a_whole_number() {
    let r = Ratio::from_percent(50);
    assert_eq!(r, Ratio { num: 50, den: 1 });
}

#[test]
fn equal_values_with_different_denominators() {
    let a = Ratio { num: 55000, den: 1000 };
    let b = Ratio { num: 55, den: 1 };
    assert!(a.equals_value(&b));
    assert!(b.equals_value(&a));
}

#[test]
fn different_values_are_told_apart() {
    let a = Ratio { num: 55000, den: 1000 };
    let b = Ratio { num: 54, den: 1 };
    assert!(!a.equals_value(&b));
}

#[test]
fn degenerate_ratios_never_compare_equal() {
    let bad = Ratio { num: 100, den: 0 };
    let good = Ratio { num: 100, den: 1 };
    assert!(!bad.equals_value(&good));
    assert!(!good.equals_value(&bad));
    assert!(!bad.equals_value(&bad));
}

#[test]
fn equals_value_handles_extreme_magnitudes() {
    let a = Ratio { num: i64::MAX, den: i64::MAX };
    let b = Ratio { num: i64::MIN, den: i64::MIN };
    assert!(a.equals_value(&b));
}

#[test]
fn negative_denominators_compare_by_value() {
    let a = Ratio { num: -50, den: -1 };
    let b = Ratio { num: 50, den: 1 };
    assert!(a.equals_value(&b));
}
