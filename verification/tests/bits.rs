use nonzero::bits::{bit_length_u128, shift_right_u128, trailing_ones_u128, trailing_zeros_u128};
use nonzero::decimal::decimal_u128;
use nonzero::traits::{
    FixedWidth, LeadingOnes, LeadingZeros, TrailingOnes, TrailingZeros, Uint, WithoutTrailingZeros,
};
use nonzero::NonZero;

#[test]
fn without_trailing_zeros_gives_the_odd_part() {
    assert_eq!(*NonZero::new(166u8).unwrap().without_trailing_zeros().get(), 83);
    assert_eq!(*NonZero::new(128u8).unwrap().without_trailing_zeros().get(), 1);
    assert_eq!(*NonZero::new(83u32).unwrap().without_trailing_zeros().get(), 83);
    assert_eq!(*NonZero::new(1u64 << 63).unwrap().without_trailing_zeros().get(), 1);
    assert_eq!(*NonZero::new(48u128).unwrap().without_trailing_zeros().get(), 3);
}

#[test]
fn without_trailing_zeros_unchecked_gives_the_same() {
    assert_eq!(*NonZero::new(166u8).unwrap().without_trailing_zeros_unchecked().get(), 83);
    assert_eq!(*NonZero::new(128u8).unwrap().without_trailing_zeros_unchecked().get(), 1);
    for value in 1u16..2000 {
        let wrapped = NonZero::new(value).unwrap();
        assert_eq!(
            wrapped.without_trailing_zeros().get(),
            wrapped.without_trailing_zeros_unchecked().get()
        );
    }
}

#[test]
fn the_odd_part_times_the_stripped_power_of_two_is_the_value() {
    for value in 1u32..5000 {
        let wrapped = NonZero::new(value).unwrap();
        let odd = *wrapped.without_trailing_zeros().get();
        assert_eq!(odd % 2, 1);
        assert_eq!(odd << wrapped.trailing_zeros(), value);
    }
}

#[test]
fn bit_counts_agree_with_the_processor() {
    for value in 1u8..=255 {
        let wrapped = NonZero::new(value).unwrap();
        assert_eq!(wrapped.trailing_zeros(), u64::from(value.trailing_zeros()));
        assert_eq!(wrapped.leading_zeros(), u64::from(value.leading_zeros()));
        assert_eq!(wrapped.trailing_ones(), u64::from(value.trailing_ones()));
        assert_eq!(wrapped.leading_ones(), u64::from(value.leading_ones()));
    }
    for value in [1u64, 2, 3, 1 << 40, u64::MAX, u64::MAX - 1, 1 << 63, (1 << 63) + 1] {
        let wrapped = NonZero::new(value).unwrap();
        assert_eq!(wrapped.trailing_zeros(), u64::from(value.trailing_zeros()));
        assert_eq!(wrapped.leading_zeros(), u64::from(value.leading_zeros()));
        assert_eq!(wrapped.trailing_ones(), u64::from(value.trailing_ones()));
        assert_eq!(wrapped.leading_ones(), u64::from(value.leading_ones()));
    }
}

#[test]
fn bit_counts_of_chosen_values() {
    let value = NonZero::new(166u8).unwrap();
    assert_eq!(value.trailing_zeros(), 1);
    assert_eq!(value.leading_zeros(), 0);
    assert_eq!(value.trailing_ones(), 0);
    assert_eq!(value.leading_ones(), 1);
    let value = NonZero::new(0b0000_0111u8).unwrap();
    assert_eq!(value.trailing_zeros(), 0);
    assert_eq!(value.leading_zeros(), 5);
    assert_eq!(value.trailing_ones(), 3);
    assert_eq!(value.leading_ones(), 0);
    let value = NonZero::new(u8::MAX).unwrap();
    assert_eq!(value.trailing_ones(), 8);
    assert_eq!(value.leading_ones(), 8);
    let value = NonZero::new(1u128 << 127).unwrap();
    assert_eq!(value.trailing_zeros(), 127);
    assert_eq!(value.leading_zeros(), 0);
    assert_eq!(value.leading_ones(), 1);
    let value = NonZero::new(u128::MAX).unwrap();
    assert_eq!(value.trailing_ones(), 128);
    assert_eq!(value.leading_ones(), 128);
    let value = NonZero::new(1usize).unwrap();
    assert_eq!(value.leading_zeros(), u64::from(usize::BITS) - 1);
    let value = NonZero::new(0x00f0u16).unwrap();
    assert_eq!(value.trailing_zeros(), 4);
    assert_eq!(value.leading_zeros(), 8);
    let value = NonZero::new(0xff00_0000u32).unwrap();
    assert_eq!(value.leading_ones(), 8);
    assert_eq!(value.trailing_zeros(), 24);
}

#[test]
fn counting_on_the_widest_integer() {
    assert_eq!(trailing_zeros_u128(1), 0);
    assert_eq!(trailing_zeros_u128(166), 1);
    assert_eq!(trailing_zeros_u128(1 << 127), 127);
    assert_eq!(trailing_ones_u128(0), 0);
    assert_eq!(trailing_ones_u128(0b1011), 2);
    assert_eq!(trailing_ones_u128(u128::MAX), 128);
    assert_eq!(bit_length_u128(0), 0);
    assert_eq!(bit_length_u128(1), 1);
    assert_eq!(bit_length_u128(255), 8);
    assert_eq!(bit_length_u128(256), 9);
    assert_eq!(bit_length_u128(u128::MAX), 128);
}

#[test]
fn shifting_on_the_widest_integer() {
    assert_eq!(shift_right_u128(166, 1), 83);
    assert_eq!(shift_right_u128(166, 0), 166);
    assert_eq!(shift_right_u128(u128::MAX, 127), 1);
    assert_eq!(shift_right_u128(u128::MAX, 128), 0);
    assert_eq!(shift_right_u128(u128::MAX, u64::MAX), 0);
}

#[test]
fn decimal_of_the_widest_integer() {
    assert_eq!(decimal_u128(0), "0");
    assert_eq!(decimal_u128(9), "9");
    assert_eq!(decimal_u128(10), "10");
    assert_eq!(decimal_u128(42), "42");
    assert_eq!(decimal_u128(1234567890), "1234567890");
    assert_eq!(decimal_u128(u128::MAX), format!("{}", u128::MAX));
}

#[test]
fn fixed_width_domains_know_their_width() {
    assert_eq!(<u8 as FixedWidth>::width(), 8);
    assert_eq!(<u16 as FixedWidth>::width(), 16);
    assert_eq!(<u32 as FixedWidth>::width(), 32);
    assert_eq!(<u64 as FixedWidth>::width(), 64);
    assert_eq!(<u128 as FixedWidth>::width(), 128);
    assert_eq!(<usize as FixedWidth>::width(), u64::from(usize::BITS));
    assert_eq!(FixedWidth::bit_length(&5u8), 3);
    assert_eq!(FixedWidth::bit_length(&0u32), 0);
    assert_eq!(FixedWidth::bit_length(&u64::MAX), 64);
    assert_eq!(FixedWidth::complement(&0u8), 255);
    assert_eq!(FixedWidth::complement(&166u8), 89);
    assert_eq!(FixedWidth::complement(&1u16), 0xfffe);
    assert_eq!(FixedWidth::complement(&u128::MAX), 0);
    assert_eq!(FixedWidth::complement(&5usize), !5usize);
}

#[test]
fn fixed_width_domains_compute_as_the_language_does() {
    assert!(Uint::is_zero(&0u8));
    assert!(!Uint::is_zero(&1u8));
    assert_eq!(<u32 as Uint>::one(), 1);
    assert_eq!(<u128 as Uint>::one(), 1);
    assert_eq!(Uint::duplicate(&9u16), 9);
    assert!(Uint::equals(&9u16, &9));
    assert!(!Uint::equals(&9u16, &8));
    assert!(Uint::less_than(&8u64, &9));
    assert!(!Uint::less_than(&9u64, &9));
    assert_eq!(Uint::sum(&250u8, &5), 255);
    assert_eq!(Uint::difference(&250u8, &250), 0);
    assert_eq!(Uint::product(&15u8, &17), 255);
    assert_eq!(Uint::quotient(&255u8, &16), 15);
    assert_eq!(Uint::quotient(&3usize, &4), 0);
    assert!(Uint::is_even(&0u32));
    assert!(!Uint::is_even(&3u32));
    assert_eq!(Uint::count_trailing_zeros(&8u32), 3);
    assert_eq!(Uint::count_trailing_ones(&7u32), 3);
    assert_eq!(Uint::count_trailing_ones(&0u32), 0);
    assert_eq!(Uint::shift_right(&255u8, 4), 15);
    assert_eq!(Uint::shift_right(&255u8, 8), 0);
    assert_eq!(Uint::shift_right(&255u8, 200), 0);
    assert_eq!(Uint::shift_right(&u64::MAX, 63), 1);
    assert_eq!(Uint::to_decimal(&0u8), "0");
    assert_eq!(Uint::to_decimal(&65535u16), "65535");
}
