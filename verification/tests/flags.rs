use cboundary::flags::{is_clear, is_set};
use cboundary::{is_false, is_true};

#[test]
fn one_is_true_and_not_false() {
    assert!(is_true(1));
    assert!(!is_false(1));
}

#[test]
fn zero_is_false_and_not_true() {
    assert!(is_false(0));
    assert!(!is_true(0));
}

#[test]
fn other_values_are_neither() {
    let others: Vec<i32> = vec![-1, 2, 3, 255, 256, -256, i32::MAX, i32::MIN];
    for n in others {
        assert!(!is_true(n), "{} read as true", n);
        assert!(!is_false(n), "{} read as false", n);
    }
}

#[test]
fn no_value_is_both() {
    let mut n: i32 = -300;
    while n <= 300 {
        assert!(!(is_true(n) && is_false(n)));
        assert_eq!(is_true(n), n == 1);
        assert_eq!(is_false(n), n == 0);
        n += 1;
    }
}

#[test]
fn narrower_integers_convert_first() {
    assert!(is_true(1i8));
    assert!(is_true(1i16));
    assert!(is_true(1u8));
    assert!(is_true(1u16));
    assert!(is_false(0i8));
    assert!(is_false(0i16));
    assert!(is_false(0u8));
    assert!(is_false(0u16));
    assert!(!is_true(-1i8));
    assert!(!is_false(-1i8));
    assert!(!is_true(255u8));
    assert!(!is_false(255u8));
    assert!(!is_true(u16::MAX));
    assert!(!is_false(i16::MIN));
}

#[test]
fn bool_converts_to_its_flag() {
    assert!(is_true(true));
    assert!(!is_false(true));
    assert!(is_false(false));
    assert!(!is_true(false));
}

#[test]
fn set_and_clear_on_plain_integers() {
    assert!(is_set(1));
    assert!(!is_set(0));
    assert!(!is_set(2));
    assert!(!is_set(-1));
    assert!(is_clear(0));
    assert!(!is_clear(1));
    assert!(!is_clear(-1));
    assert!(!is_clear(i32::MIN));
}

#[test]
fn generic_and_plain_forms_agree() {
    let values: Vec<i32> = vec![-2, -1, 0, 1, 2, 1000];
    for n in values {
        assert_eq!(is_true(n), is_set(n));
        assert_eq!(is_false(n), is_clear(n));
    }
}
