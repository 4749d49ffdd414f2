//! The fixed-width domains: the unsigned integers of the language.

use vstd::arithmetic::div_mod::lemma_div_nonincreasing;
use vstd::arithmetic::power2::{lemma2_to64, lemma_pow2_pos, pow2};
use vstd::prelude::*;

use crate::bits::{
    bit_length_u128, lemma_pow2_128, shift_right_u128, trailing_ones_u128, trailing_zeros_u128,
};
use crate::decimal::decimal_u128;
use crate::traits::{FixedWidth, Uint};

verus! {

impl Uint for u8 {
    open spec fn as_nat(&self) -> nat {
        *self as nat
    }

    open spec fn limit() -> Option<nat> {
        Some(u8::MAX as nat)
    }

    proof fn lemma_within_limit(&self) {
    }

    fn is_zero(&self) -> (zero: bool) {
        *self == 0
    }

    fn one() -> (one: Self) {
        1
    }

    fn duplicate(&self) -> (copy: Self) {
        *self
    }

    fn equals(&self, other: &Self) -> (same: bool) {
        *self == *other
    }

    fn less_than(&self, other: &Self) -> (less: bool) {
        *self < *other
    }

    fn sum(&self, other: &Self) -> (sum: Self) {
        *self + *other
    }

    fn difference(&self, other: &Self) -> (difference: Self) {
        *self - *other
    }

    fn product(&self, other: &Self) -> (product: Self) {
        *self * *other
    }

    fn quotient(&self, other: &Self) -> (quotient: Self) {
        *self / *other
    }

    fn is_even(&self) -> (even: bool) {
        *self % 2 == 0
    }

    fn count_trailing_zeros(&self) -> (count: u64) {
        trailing_zeros_u128(*self as u128)
    }

    fn count_trailing_ones(&self) -> (count: u64) {
        trailing_ones_u128(*self as u128)
    }

    fn shift_right(&self, count: u64) -> (shifted: Self) {
        let shifted: u128 = shift_right_u128(*self as u128, count);
        proof {
            lemma_pow2_pos(count as nat);
            lemma_div_nonincreasing(*self as int, pow2(count as nat) as int);
        }
        shifted as u8
    }

    fn to_decimal(&self) -> (text: String) {
        decimal_u128(*self as u128)
    }
}

impl FixedWidth for u8 {
    open spec fn bits() -> nat {
        8
    }

    proof fn lemma_limit() {
        lemma2_to64();
    }

    fn width() -> (width: u64) {
        8
    }

    fn bit_length(&self) -> (count: u64) {
        bit_length_u128(*self as u128)
    }

    fn complement(&self) -> (flipped: Self) {
        proof {
            Self::lemma_limit();
        }
        u8::MAX - *self
    }
}

impl Uint for u16 {
    open spec fn as_nat(&self) -> nat {
        *self as nat
    }

    open spec fn limit() -> Option<nat> {
        Some(u16::MAX as nat)
    }

    proof fn lemma_within_limit(&self) {
    }

    fn is_zero(&self) -> (zero: bool) {
        *self == 0
    }

    fn one() -> (one: Self) {
        1
    }

    fn duplicate(&self) -> (copy: Self) {
        *self
    }

    fn equals(&self, other: &Self) -> (same: bool) {
        *self == *other
    }

    fn less_than(&self, other: &Self) -> (less: bool) {
        *self < *other
    }

    fn sum(&self, other: &Self) -> (sum: Self) {
        *self + *other
    }

    fn difference(&self, other: &Self) -> (difference: Self) {
        *self - *other
    }

    fn product(&self, other: &Self) -> (product: Self) {
        *self * *other
    }

    fn quotient(&self, other: &Self) -> (quotient: Self) {
        *self / *other
    }

    fn is_even(&self) -> (even: bool) {
        *self % 2 == 0
    }

    fn count_trailing_zeros(&self) -> (count: u64) {
        trailing_zeros_u128(*self as u128)
    }

    fn count_trailing_ones(&self) -> (count: u64) {
        trailing_ones_u128(*self as u128)
    }

    fn shift_right(&self, count: u64) -> (shifted: Self) {
        let shifted: u128 = shift_right_u128(*self as u128, count);
        proof {
            lemma_pow2_pos(count as nat);
            lemma_div_nonincreasing(*self as int, pow2(count as nat) as int);
        }
        shifted as u16
    }

    fn to_decimal(&self) -> (text: String) {
        decimal_u128(*self as u128)
    }
}

impl FixedWidth for u16 {
    open spec fn bits() -> nat {
        16
    }

    proof fn lemma_limit() {
        lemma2_to64();
    }

    fn width() -> (width: u64) {
        16
    }

    fn bit_length(&self) -> (count: u64) {
        bit_length_u128(*self as u128)
    }

    fn complement(&self) -> (flipped: Self) {
        proof {
            Self::lemma_limit();
        }
        u16::MAX - *self
    }
}

impl Uint for u32 {
    open spec fn as_nat(&self) -> nat {
        *self as nat
    }

    open spec fn limit() -> Option<nat> {
        Some(u32::MAX as nat)
    }

    proof fn lemma_within_limit(&self) {
    }

    fn is_zero(&self) -> (zero: bool) {
        *self == 0
    }

    fn one() -> (one: Self) {
        1
    }

    fn duplicate(&self) -> (copy: Self) {
        *self
    }

    fn equals(&self, other: &Self) -> (same: bool) {
        *self == *other
    }

    fn less_than(&self, other: &Self) -> (less: bool) {
        *self < *other
    }

    fn sum(&self, other: &Self) -> (sum: Self) {
        *self + *other
    }

    fn difference(&self, other: &Self) -> (difference: Self) {
        *self - *other
    }

    fn product(&self, other: &Self) -> (product: Self) {
        *self * *other
    }

    fn quotient(&self, other: &Self) -> (quotient: Self) {
        *self / *other
    }

    fn is_even(&self) -> (even: bool) {
        *self % 2 == 0
    }

    fn count_trailing_zeros(&self) -> (count: u64) {
        trailing_zeros_u128(*self as u128)
    }

    fn count_trailing_ones(&self) -> (count: u64) {
        trailing_ones_u128(*self as u128)
    }

    fn shift_right(&self, count: u64) -> (shifted: Self) {
        let shifted: u128 = shift_right_u128(*self as u128, count);
        proof {
            lemma_pow2_pos(count as nat);
            lemma_div_nonincreasing(*self as int, pow2(count as nat) as int);
        }
        shifted as u32
    }

    fn to_decimal(&self) -> (text: String) {
        decimal_u128(*self as u128)
    }
}

impl FixedWidth for u32 {
    open spec fn bits() -> nat {
        32
    }

    proof fn lemma_limit() {
        lemma2_to64();
    }

    fn width() -> (width: u64) {
        32
    }

    fn bit_length(&self) -> (count: u64) {
        bit_length_u128(*self as u128)
    }

    fn complement(&self) -> (flipped: Self) {
        proof {
            Self::lemma_limit();
        }
        u32::MAX - *self
    }
}

impl Uint for u64 {
    open spec fn as_nat(&self) -> nat {
        *self as nat
    }

    open spec fn limit() -> Option<nat> {
        Some(u64::MAX as nat)
    }

    proof fn lemma_within_limit(&self) {
    }

    fn is_zero(&self) -> (zero: bool) {
        *self == 0
    }

    fn one() -> (one: Self) {
        1
    }

    fn duplicate(&self) -> (copy: Self) {
        *self
    }

    fn equals(&self, other: &Self) -> (same: bool) {
        *self == *other
    }

    fn less_than(&self, other: &Self) -> (less: bool) {
        *self < *other
    }

    fn sum(&self, other: &Self) -> (sum: Self) {
        *self + *other
    }

    fn difference(&self, other: &Self) -> (difference: Self) {
        *self - *other
    }

    fn product(&self, other: &Self) -> (product: Self) {
        *self * *other
    }

    fn quotient(&self, other: &Self) -> (quotient: Self) {
        *self / *other
    }

    fn is_even(&self) -> (even: bool) {
        *self % 2 == 0
    }

    fn count_trailing_zeros(&self) -> (count: u64) {
        trailing_zeros_u128(*self as u128)
    }

    fn count_trailing_ones(&self) -> (count: u64) {
        trailing_ones_u128(*self as u128)
    }

    fn shift_right(&self, count: u64) -> (shifted: Self) {
        let shifted: u128 = shift_right_u128(*self as u128, count);
        proof {
            lemma_pow2_pos(count as nat);
            lemma_div_nonincreasing(*self as int, pow2(count as nat) as int);
        }
        shifted as u64
    }

    fn to_decimal(&self) -> (text: String) {
        decimal_u128(*self as u128)
    }
}

impl FixedWidth for u64 {
    open spec fn bits() -> nat {
        64
    }

    proof fn lemma_limit() {
        lemma2_to64();
    }

    fn width() -> (width: u64) {
        64
    }

    fn bit_length(&self) -> (count: u64) {
        bit_length_u128(*self as u128)
    }

    fn complement(&self) -> (flipped: Self) {
        proof {
            Self::lemma_limit();
        }
        u64::MAX - *self
    }
}

impl Uint for u128 {
    open spec fn as_nat(&self) -> nat {
        *self as nat
    }

    open spec fn limit() -> Option<nat> {
        Some(u128::MAX as nat)
    }

    proof fn lemma_within_limit(&self) {
    }

    fn is_zero(&self) -> (zero: bool) {
        *self == 0
    }

    fn one() -> (one: Self) {
        1
    }

    fn duplicate(&self) -> (copy: Self) {
        *self
    }

    fn equals(&self, other: &Self) -> (same: bool) {
        *self == *other
    }

    fn less_than(&self, other: &Self) -> (less: bool) {
        *self < *other
    }

    fn sum(&self, other: &Self) -> (sum: Self) {
        *self + *other
    }

    fn difference(&self, other: &Self) -> (difference: Self) {
        *self - *other
    }

    fn product(&self, other: &Self) -> (product: Self) {
        *self * *other
    }

    fn quotient(&self, other: &Self) -> (quotient: Self) {
        *self / *other
    }

    fn is_even(&self) -> (even: bool) {
        *self % 2 == 0
    }

    fn count_trailing_zeros(&self) -> (count: u64) {
        trailing_zeros_u128(*self)
    }

    fn count_trailing_ones(&self) -> (count: u64) {
        trailing_ones_u128(*self)
    }

    fn shift_right(&self, count: u64) -> (shifted: Self) {
        let shifted: u128 = shift_right_u128(*self, count);
        proof {
            lemma_pow2_pos(count as nat);
            lemma_div_nonincreasing(*self as int, pow2(count as nat) as int);
        }
        shifted
    }

    fn to_decimal(&self) -> (text: String) {
        decimal_u128(*self)
    }
}

impl FixedWidth for u128 {
    open spec fn bits() -> nat {
        128
    }

    proof fn lemma_limit() {
        lemma_pow2_128();
    }

    fn width() -> (width: u64) {
        128
    }

    fn bit_length(&self) -> (count: u64) {
        bit_length_u128(*self)
    }

    fn complement(&self) -> (flipped: Self) {
        proof {
            Self::lemma_limit();
        }
        u128::MAX - *self
    }
}

impl Uint for usize {
    open spec fn as_nat(&self) -> nat {
        *self as nat
    }

    open spec fn limit() -> Option<nat> {
        Some(usize::MAX as nat)
    }

    proof fn lemma_within_limit(&self) {
    }

    fn is_zero(&self) -> (zero: bool) {
        *self == 0
    }

    fn one() -> (one: Self) {
        1
    }

    fn duplicate(&self) -> (copy: Self) {
        *self
    }

    fn equals(&self, other: &Self) -> (same: bool) {
        *self == *other
    }

    fn less_than(&self, other: &Self) -> (less: bool) {
        *self < *other
    }

    fn sum(&self, other: &Self) -> (sum: Self) {
        *self + *other
    }

    fn difference(&self, other: &Self) -> (difference: Self) {
        *self - *other
    }

    fn product(&self, other: &Self) -> (product: Self) {
        *self * *other
    }

    fn quotient(&self, other: &Self) -> (quotient: Self) {
        *self / *other
    }

    fn is_even(&self) -> (even: bool) {
        *self % 2 == 0
    }

    fn count_trailing_zeros(&self) -> (count: u64) {
        trailing_zeros_u128(*self as u128)
    }

    fn count_trailing_ones(&self) -> (count: u64) {
        trailing_ones_u128(*self as u128)
    }

    fn shift_right(&self, count: u64) -> (shifted: Self) {
        let shifted: u128 = shift_right_u128(*self as u128, count);
        proof {
            lemma_pow2_pos(count as nat);
            lemma_div_nonincreasing(*self as int, pow2(count as nat) as int);
        }
        shifted as usize
    }

    fn to_decimal(&self) -> (text: String) {
        decimal_u128(*self as u128)
    }
}

impl FixedWidth for usize {
    open spec fn bits() -> nat {
        usize::BITS as nat
    }

    proof fn lemma_limit() {
        lemma2_to64();
    }

    fn width() -> (width: u64) {
        usize::BITS as u64
    }

    fn bit_length(&self) -> (count: u64) {
        bit_length_u128(*self as u128)
    }

    fn complement(&self) -> (flipped: Self) {
        proof {
            Self::lemma_limit();
        }
        usize::MAX - *self
    }
}

} // verus!
