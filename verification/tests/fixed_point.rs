use rayball::fixed::{from_int, sat_add, sat_div, sat_mul, sat_neg, sat_sub, ONE};

#[test]
fn whole_numbers_scale_by_one() {
    assert_eq!(from_int(3), 3 * ONE);
    assert_eq!(from_int(-2), -2 * ONE);
}

#[test]
fn sums_and_differences_pin_at_the_limits() {
    assert_eq!(sat_add(i32::MAX, 1), i32::MAX);
    assert_eq!(sat_sub(i32::MIN, 1), i32::MIN);
    assert_eq!(sat_add(5, 7), 12);
    assert_eq!(sat_sub(5, 7), -2);
    assert_eq!(sat_neg(i32::MIN), i32::MAX);
    assert_eq!(sat_neg(9), -9);
}

#[test]
fn products_and_quotients_round_down() {
    assert_eq!(sat_mul(3 * ONE, ONE / 2), 3 * ONE / 2);
    assert_eq!(sat_mul(-1, 1), -1);
    assert_eq!(sat_mul(1, 1), 0);
    assert_eq!(sat_div(1, 120), 546);
    assert_eq!(sat_div(-1, 120), -547);
    assert_eq!(sat_div(1, -120), -547);
    assert_eq!(sat_div(7, 0), i32::MAX);
    assert_eq!(sat_div(-7, 0), i32::MIN);
    assert_eq!(sat_div(0, 0), 0);
}
