use primer::arith::{add, divide, DIVISION_BY_ZERO};

#[test]
fn add_small_numbers() {
    assert_eq!(add(2, 3), 5);
    assert_eq!(add(10, 20), 30);
    assert_eq!(add(0, 0), 0);
}

#[test]
fn add_mixed_signs() {
    assert_eq!(add(-7, 3), -4);
    assert_eq!(add(7, -3), 4);
    assert_eq!(add(-7, -3), -10);
}

#[test]
fn add_at_the_limits() {
    assert_eq!(add(i32::MAX, 0), i32::MAX);
    assert_eq!(add(i32::MIN, 0), i32::MIN);
    assert_eq!(add(i32::MAX, i32::MIN), -1);
    assert_eq!(add(i32::MAX - 1, 1), i32::MAX);
}

#[test]
fn divide_by_zero_is_an_error_for_every_dividend() {
    for a in [0, 1, -1, 7, -7, 1000, i32::MAX, i32::MIN] {
        assert!(divide(a, 0).is_err(), "dividend {}", a);
    }
}

#[test]
fn divide_by_zero_carries_the_message() {
    assert_eq!(divide(10, 0), Err(String::from("Zero se divide nahi kar sakte")));
    assert_eq!(divide(10, 0).unwrap_err(), DIVISION_BY_ZERO);
}

#[test]
fn divide_exact() {
    assert_eq!(divide(10, 2), Ok(5));
    assert_eq!(divide(10, 5), Ok(2));
    assert_eq!(divide(-12, 4), Ok(-3));
    assert_eq!(divide(12, -4), Ok(-3));
    assert_eq!(divide(-12, -4), Ok(3));
}

#[test]
fn divide_rounds_toward_zero() {
    assert_eq!(divide(7, 2), Ok(3));
    assert_eq!(divide(-7, 2), Ok(-3));
    assert_eq!(divide(7, -2), Ok(-3));
    assert_eq!(divide(-7, -2), Ok(3));
    assert_eq!(divide(1, 2), Ok(0));
    assert_eq!(divide(-1, 2), Ok(0));
}

#[test]
fn divide_zero_dividend() {
    assert_eq!(divide(0, 5), Ok(0));
    assert_eq!(divide(0, -5), Ok(0));
}

#[test]
fn divide_at_the_limits() {
    assert_eq!(divide(i32::MIN, 1), Ok(i32::MIN));
    assert_eq!(divide(i32::MAX, -1), Ok(-i32::MAX));
    assert_eq!(divide(i32::MAX, 1), Ok(i32::MAX));
    assert_eq!(divide(i32::MIN, 2), Ok(-1_073_741_824));
    assert_eq!(divide(i32::MIN, i32::MIN), Ok(1));
    assert_eq!(divide(i32::MAX, i32::MIN), Ok(0));
    assert_eq!(divide(i32::MIN, i32::MAX), Ok(-1));
}

#[test]
fn divide_agrees_with_the_remainder_law() {
    for a in [-9, -8, -1, 0, 1, 8, 9, 100] {
        for b in [-5, -3, -1, 1, 3, 5] {
            let q = divide(a, b).unwrap();
            let r = a - q * b;
            assert!(r.abs() < b.abs(), "{} / {}", a, b);
            assert!(r == 0 || (r < 0) == (a < 0), "{} / {}", a, b);
        }
    }
}
