use nonzero::traits::Uint;
use nonzero::NonZero;

fn nz(value: u32) -> NonZero<u32> {
    NonZero::new(value).unwrap()
}

#[test]
fn new_is_present_exactly_for_nonzero_values() {
    assert!(NonZero::new(0u8).is_none());
    assert!(NonZero::new(0u16).is_none());
    assert!(NonZero::new(0u32).is_none());
    assert!(NonZero::new(0u64).is_none());
    assert!(NonZero::new(0u128).is_none());
    assert!(NonZero::new(0usize).is_none());
    for value in 1u8..=255 {
        let made = NonZero::new(value);
        assert!(made.is_some());
        assert_eq!(*made.unwrap().get(), value);
    }
}

#[test]
fn new_keeps_the_value_at_the_limits() {
    assert_eq!(*NonZero::new(u8::MAX).unwrap().get(), u8::MAX);
    assert_eq!(*NonZero::new(u16::MAX).unwrap().get(), u16::MAX);
    assert_eq!(*NonZero::new(u32::MAX).unwrap().get(), u32::MAX);
    assert_eq!(*NonZero::new(u64::MAX).unwrap().get(), u64::MAX);
    assert_eq!(*NonZero::new(u128::MAX).unwrap().get(), u128::MAX);
    assert_eq!(*NonZero::new(usize::MAX).unwrap().get(), usize::MAX);
    assert_eq!(*NonZero::new(1u64).unwrap().get(), 1);
}

#[test]
fn new_unchecked_wraps_the_value() {
    let made = NonZero::new_unchecked(17u16);
    assert_eq!(*made.get(), 17);
}

#[test]
fn set_takes_a_nonzero_value() {
    let mut value = nz(3);
    assert!(value.set(9));
    assert_eq!(*value.get(), 9);
}

#[test]
fn set_refuses_zero_and_changes_nothing() {
    let mut value = nz(3);
    assert!(!value.set(0));
    assert_eq!(*value.get(), 3);
}

#[test]
fn set_unchecked_takes_the_value() {
    let mut value = nz(3);
    value.set_unchecked(12);
    assert_eq!(*value.get(), 12);
}

#[test]
fn replace_hands_back_the_old_value() {
    let mut value = nz(3);
    assert_eq!(value.replace(8), Some(3));
    assert_eq!(*value.get(), 8);
}

#[test]
fn replace_refuses_zero_and_changes_nothing() {
    let mut value = nz(3);
    assert_eq!(value.replace(0), None);
    assert_eq!(*value.get(), 3);
}

#[test]
fn swap_exchanges_the_values() {
    let mut left = nz(1);
    let mut right = nz(2);
    left.swap(&mut right);
    assert_eq!(*left.get(), 2);
    assert_eq!(*right.get(), 1);
}

#[test]
fn map_keeps_a_nonzero_result() {
    let mapped = nz(21).map(|value| value * 2);
    assert_eq!(*mapped.unwrap().get(), 42);
}

#[test]
fn map_drops_a_zero_result() {
    assert!(nz(21).map(|value| value - 21).is_none());
    assert!(nz(1).map(|value| value / 2).is_none());
}

#[test]
fn map_unchecked_wraps_the_result() {
    let mapped = nz(20).map_unchecked(|value| value + 1);
    assert_eq!(*mapped.get(), 21);
}

#[test]
fn addition_adds_the_values() {
    assert_eq!(*(nz(5) + nz(7)).get(), 12);
    assert_eq!(*(nz(1) + nz(u32::MAX - 1)).get(), u32::MAX);
    let left = NonZero::new(200u8).unwrap();
    let right = NonZero::new(55u8).unwrap();
    assert_eq!(*(left + right).get(), 255);
}

#[test]
fn multiplication_multiplies_the_values() {
    assert_eq!(*(nz(6) * nz(7)).get(), 42);
    assert_eq!(*(nz(65535) * nz(65537)).get(), u32::MAX);
    assert_eq!(*(nz(1) * nz(1)).get(), 1);
}

#[test]
fn subtraction_of_a_smaller_value_is_exact_and_nonzero() {
    assert_eq!(*(nz(12) - nz(5)).get(), 7);
    assert_eq!(*(nz(2) - nz(1)).get(), 1);
    assert_eq!(*(nz(u32::MAX) - nz(1)).get(), u32::MAX - 1);
    for left in 2u32..40 {
        for right in 1..left {
            let difference = nz(left) - nz(right);
            assert_eq!(*difference.get(), left - right);
            assert!(!difference.get().is_zero());
        }
    }
}

#[test]
fn division_rounds_down() {
    assert_eq!(*(nz(42) / nz(5)).get(), 8);
    assert_eq!(*(nz(42) / nz(42)).get(), 1);
    assert_eq!(*(nz(42) / nz(1)).get(), 42);
    assert_eq!(*(nz(u32::MAX) / nz(2)).get(), 2147483647);
}

#[test]
fn assigning_operators_change_the_left_value() {
    let mut value = nz(10);
    value += nz(5);
    assert_eq!(*value.get(), 15);
    value -= nz(3);
    assert_eq!(*value.get(), 12);
    value *= nz(4);
    assert_eq!(*value.get(), 48);
    value /= nz(5);
    assert_eq!(*value.get(), 9);
}

#[test]
fn order_is_that_of_the_values() {
    assert!(nz(1) < nz(2));
    assert!(nz(2) > nz(1));
    assert!(nz(2) <= nz(2));
    assert!(nz(2) >= nz(2));
    assert!(!(nz(3) < nz(2)));
    assert!(!(nz(2) < nz(2)));
    assert_eq!(nz(7).partial_cmp(&nz(9)), Some(std::cmp::Ordering::Less));
    assert_eq!(nz(9).partial_cmp(&nz(9)), Some(std::cmp::Ordering::Equal));
    assert_eq!(nz(9).partial_cmp(&nz(7)), Some(std::cmp::Ordering::Greater));
    assert_eq!(nz(9).cmp(&nz(7)), std::cmp::Ordering::Greater);
    assert_eq!(nz(7).max(nz(9)), nz(9));
}

#[test]
fn equality_is_that_of_the_values() {
    assert!(nz(4) == nz(4));
    assert!(nz(4) != nz(5));
    assert_eq!(nz(4), nz(4));
    assert_ne!(nz(4), nz(5));
}

#[test]
fn clone_and_copy_keep_the_value() {
    let value = nz(77);
    let cloned = value.clone();
    let copied = value;
    assert_eq!(*cloned.get(), 77);
    assert_eq!(*copied.get(), 77);
    assert_eq!(*value.get(), 77);
}

#[test]
fn is_even_and_is_odd_tell_the_parity() {
    assert!(nz(2).is_even());
    assert!(!nz(2).is_odd());
    assert!(nz(7).is_odd());
    assert!(!nz(7).is_even());
    assert!(nz(u32::MAX).is_odd());
}

#[test]
fn to_string_prints_the_plain_decimal_value() {
    assert_eq!(NonZero::new(42u32).unwrap().to_string(), "42");
    assert_eq!(NonZero::new(7u8).unwrap().to_string(), "7");
    assert_eq!(NonZero::new(10u8).unwrap().to_string(), "10");
    assert_eq!(NonZero::new(1000u16).unwrap().to_string(), "1000");
    assert_eq!(NonZero::new(u64::MAX).unwrap().to_string(), "18446744073709551615");
    assert_eq!(
        NonZero::new(u128::MAX).unwrap().to_string(),
        "340282366920938463463374607431768211455"
    );
    assert_eq!(NonZero::new(usize::MAX).unwrap().to_string(), format!("{}", usize::MAX));
}

#[test]
fn debug_shows_the_value() {
    assert!(format!("{:?}", nz(42)).contains("42"));
}

#[test]
fn the_order_tells_where_subtraction_and_division_are_defined() {
    for left in 1u32..30 {
        for right in 1u32..30 {
            let (a, b) = (nz(left), nz(right));
            // subtraction is defined exactly where the left value is the larger
            assert_eq!(a > b, left > right);
            if a > b {
                assert_eq!(*(a - b).get(), left - right);
            }
            // division is defined exactly where the left value is not the smaller
            assert_eq!(a >= b, left >= right);
            if a >= b {
                let quotient = a / b;
                assert_eq!(*quotient.get(), left / right);
                assert!(*quotient.get() >= 1);
            }
        }
    }
}
