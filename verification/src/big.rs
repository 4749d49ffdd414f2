//! The domain without a limit: `num`'s arbitrary-precision unsigned integer.
//!
//! Verus does not look inside a `BigUint`. What such a value holds is named by
//! [`big_digits`], its number is [`big_nat`], and each operation of `num` that
//! this library calls is stated here over that number and believed, not proved.

use num::BigUint;
use vstd::arithmetic::power2::pow2;
use vstd::prelude::*;

use crate::bits;
use crate::decimal::decimal;
use crate::traits::Uint;

verus! {

#[verifier::external_type_specification]
#[verifier::external_body]
pub struct ExBigUint(num::BigUint);

/// The base 2<sup>32</sup> digits that a `BigUint` holds, least significant
/// first: what `BigUint::to_u32_digits` gives for it.
pub uninterp spec fn big_digits(number: BigUint) -> Seq<u32>;

/// The number that base 2<sup>32</sup> digits stand for, least significant
/// digit first.
pub open spec fn digits_value(digits: Seq<u32>) -> nat
    decreases digits.len(),
{
    if digits.len() == 0 {
        0
    } else {
        digits[0] as nat + 0x1_0000_0000 * digits_value(digits.skip(1))
    }
}

/// The number that a `BigUint` stands for.
pub open spec fn big_nat(number: BigUint) -> nat {
    digits_value(big_digits(number))
}

/// `num_traits::Zero::is_zero` on a `BigUint`: whether no digit is held,
/// which is so for the number zero and for no other.
#[verifier::external_body]
fn big_is_zero(number: &BigUint) -> (zero: bool)
    ensures
        zero == (digits_value(big_digits(*number)) == 0),
{
    num_traits::Zero::is_zero(number)
}

/// `num::One::one` for `BigUint`: the number one.
#[verifier::external_body]
fn big_one() -> (one: BigUint)
    ensures
        digits_value(big_digits(one)) == 1,
{
    num::One::one()
}

/// `Clone::clone` of a `BigUint`: a value with the same digits.
#[verifier::external_body]
fn big_clone(number: &BigUint) -> (copy: BigUint)
    ensures
        big_digits(copy) == big_digits(*number),
{
    number.clone()
}

/// `==` on two `BigUint`: whether they stand for the same number.
#[verifier::external_body]
fn big_eq(left: &BigUint, right: &BigUint) -> (same: bool)
    ensures
        same == (digits_value(big_digits(*left)) == digits_value(big_digits(*right))),
{
    left == right
}

/// `<` on two `BigUint`: the order of the numbers.
#[verifier::external_body]
fn big_lt(left: &BigUint, right: &BigUint) -> (less: bool)
    ensures
        less == (digits_value(big_digits(*left)) < digits_value(big_digits(*right))),
{
    left < right
}

/// `+` on two `&BigUint`: the sum, which never overflows.
#[verifier::external_body]
fn big_add(left: &BigUint, right: &BigUint) -> (sum: BigUint)
    ensures
        digits_value(big_digits(sum)) == digits_value(big_digits(*left)) + digits_value(
            big_digits(*right),
        ),
{
    left + right
}

/// `-` on two `&BigUint`: the difference. `num` panics where the right
/// number is the larger one, so that is excluded.
#[verifier::external_body]
fn big_sub(left: &BigUint, right: &BigUint) -> (difference: BigUint)
    requires
        digits_value(big_digits(*right)) <= digits_value(big_digits(*left)),
    ensures
        digits_value(big_digits(difference)) == digits_value(big_digits(*left)) - digits_value(
            big_digits(*right),
        ),
{
    left - right
}

/// `*` on two `&BigUint`: the product, which never overflows.
#[verifier::external_body]
fn big_mul(left: &BigUint, right: &BigUint) -> (product: BigUint)
    ensures
        digits_value(big_digits(product)) == digits_value(big_digits(*left)) * digits_value(
            big_digits(*right),
        ),
{
    left * right
}

/// `/` on two `&BigUint`: the quotient, rounded down. `num` panics on a
/// divisor of zero, so that is excluded.
#[verifier::external_body]
fn big_div(left: &BigUint, right: &BigUint) -> (quotient: BigUint)
    requires
        digits_value(big_digits(*right)) != 0,
    ensures
        digits_value(big_digits(quotient)) == digits_value(big_digits(*left)) / digits_value(
            big_digits(*right),
        ),
{
    left / right
}

/// `BigUint::trailing_zeros`: the number of least-significant bits that are
/// zero, or `None` for the number zero.
#[verifier::external_body]
fn big_trailing_zeros(number: &BigUint) -> (count: Option<u64>)
    ensures
        count is None <==> digits_value(big_digits(*number)) == 0,
        count matches Some(zeros) ==> zeros == bits::trailing_zeros(
            digits_value(big_digits(*number)),
        ),
{
    number.trailing_zeros()
}

/// `BigUint::trailing_ones`: the number of least-significant bits that are
/// ones.
#[verifier::external_body]
fn big_trailing_ones(number: &BigUint) -> (count: u64)
    ensures
        count == bits::trailing_ones(digits_value(big_digits(*number))),
{
    number.trailing_ones()
}

/// `>>` of a `&BigUint` by a `u64`: the number divided by two to the power of
/// the count, rounded down; any count is accepted.
#[verifier::external_body]
fn big_shr(number: &BigUint, count: u64) -> (shifted: BigUint)
    ensures
        digits_value(big_digits(shifted)) == digits_value(big_digits(*number)) / pow2(
            count as nat,
        ),
{
    number >> count
}

/// `to_string` of a `BigUint`, which goes through its `Display`: the number
/// in decimal, with no sign and no padding.
#[verifier::external_body]
fn big_to_string(number: &BigUint) -> (text: String)
    ensures
        text@ == decimal(digits_value(big_digits(*number))),
{
    number.to_string()
}

impl Uint for BigUint {
    open spec fn as_nat(&self) -> nat {
        big_nat(*self)
    }

    open spec fn limit() -> Option<nat> {
        None
    }

    proof fn lemma_within_limit(&self) {
    }

    fn is_zero(&self) -> (zero: bool) {
        big_is_zero(self)
    }

    fn one() -> (one: Self) {
        big_one()
    }

    fn duplicate(&self) -> (copy: Self) {
        big_clone(self)
    }

    fn equals(&self, other: &Self) -> (same: bool) {
        big_eq(self, other)
    }

    fn less_than(&self, other: &Self) -> (less: bool) {
        big_lt(self, other)
    }

    fn sum(&self, other: &Self) -> (sum: Self) {
        big_add(self, other)
    }

    fn difference(&self, other: &Self) -> (difference: Self) {
        big_sub(self, other)
    }

    fn product(&self, other: &Self) -> (product: Self) {
        big_mul(self, other)
    }

    fn quotient(&self, other: &Self) -> (quotient: Self) {
        big_div(self, other)
    }

    fn is_even(&self) -> (even: bool) {
        match big_trailing_zeros(self) {
            Some(zeros) => zeros != 0,
            None => true,
        }
    }

    fn count_trailing_zeros(&self) -> (count: u64) {
        match big_trailing_zeros(self) {
            Some(zeros) => zeros,
            None => 0,
        }
    }

    fn count_trailing_ones(&self) -> (count: u64) {
        big_trailing_ones(self)
    }

    fn shift_right(&self, count: u64) -> (shifted: Self) {
        big_shr(self, count)
    }

    fn to_decimal(&self) -> (text: String) {
        big_to_string(self)
    }
}

} // verus!
