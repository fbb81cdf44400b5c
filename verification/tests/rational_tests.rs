use dexprice::rational::Rational;

#[test]
fn equal_values_in_different_representations() {
    // 5 / 10 == 1 / 2
    let a = Rational::new(5, 1, 0, 1);
    let b = Rational::new(1, 2, 0, 0);
    assert!(a.same_value_as(&b));
    assert!(b.same_value_as(&a));
}

#[test]
fn unequal_values_are_told_apart() {
    let third = Rational::new(1, 3, 0, 0);
    let half = Rational::new(1, 2, 0, 0);
    assert!(!third.same_value_as(&half));
    assert!(!half.same_value_as(&third));
}

#[test]
fn powers_of_ten_balance_across_parts() {
    // 10^38 == 10 * 10^37
    let a = Rational::new(1, 1, 38, 0);
    let b = Rational::new(10, 1, 37, 0);
    assert!(a.same_value_as(&b));
    // 10^38 != 10^37
    let c = Rational::new(1, 1, 37, 0);
    assert!(!a.same_value_as(&c));
}

#[test]
fn widely_scaled_values_differ() {
    let huge = Rational::new(u64::MAX, 1, 30, 0);
    let tiny = Rational::new(1, u64::MAX, 0, 30);
    assert!(!huge.same_value_as(&tiny));
    assert!(huge.same_value_as(&huge));
}

#[test]
fn zero_equals_zero_at_any_scale() {
    let a = Rational::new(0, 1, 12, 0);
    let b = Rational::new(0, 7, 0, 25);
    assert!(a.same_value_as(&b));
    let one = Rational::new(1, 1, 0, 0);
    assert!(!a.same_value_as(&one));
    assert!(!one.same_value_as(&a));
}
