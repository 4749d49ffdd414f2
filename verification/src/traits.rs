//! The numeric domains that a nonzero value can be taken from, and the
//! bit-inspection capabilities built on them.

use vstd::arithmetic::power2::pow2;
use vstd::prelude::*;

use crate::bits;
use crate::decimal::decimal;

verus! {

/// An unsigned integer domain: fixed-width, or without a limit.
///
/// Every value stands for one natural number, [`Uint::as_nat`], and every
/// executable operation is stated over the arithmetic of those numbers.
/// An operation whose result would leave the domain, or would not be a
/// natural number at all, is excluded by its precondition.
pub trait Uint: Sized {
    /// The natural number that this value stands for.
    spec fn as_nat(&self) -> nat;

    /// The largest number of the domain, or `None` if the domain has no limit.
    spec fn limit() -> Option<nat>;

    /// No value lies above the domain's limit.
    proof fn lemma_within_limit(&self)
        ensures
            Self::limit() matches Some(max) ==> self.as_nat() <= max,
    ;

    /// Whether the value is the number zero.
    fn is_zero(&self) -> (zero: bool)
        ensures
            zero == (self.as_nat() == 0),
    ;

    /// The number one.
    fn one() -> (one: Self)
        ensures
            one.as_nat() == 1,
    ;

    /// A second value that stands for the same number.
    fn duplicate(&self) -> (copy: Self)
        ensures
            copy.as_nat() == self.as_nat(),
    ;

    /// Whether both values stand for the same number.
    fn equals(&self, other: &Self) -> (same: bool)
        ensures
            same == (self.as_nat() == other.as_nat()),
    ;

    /// Whether this number is the smaller one.
    fn less_than(&self, other: &Self) -> (less: bool)
        ensures
            less == (self.as_nat() < other.as_nat()),
    ;

    /// The sum of two numbers, where the domain holds it.
    fn sum(&self, other: &Self) -> (sum: Self)
        requires
            Self::limit() matches Some(max) ==> self.as_nat() + other.as_nat() <= max,
        ensures
            sum.as_nat() == self.as_nat() + other.as_nat(),
    ;

    /// The difference of two numbers, where it is a natural number.
    fn difference(&self, other: &Self) -> (difference: Self)
        requires
            other.as_nat() <= self.as_nat(),
        ensures
            difference.as_nat() == self.as_nat() - other.as_nat(),
    ;

    /// The product of two numbers, where the domain holds it.
    fn product(&self, other: &Self) -> (product: Self)
        requires
            Self::limit() matches Some(max) ==> self.as_nat() * other.as_nat() <= max,
        ensures
            product.as_nat() == self.as_nat() * other.as_nat(),
    ;

    /// The quotient of two numbers, rounded down; the divisor is not zero.
    fn quotient(&self, other: &Self) -> (quotient: Self)
        requires
            other.as_nat() != 0,
        ensures
            quotient.as_nat() == self.as_nat() / other.as_nat(),
    ;

    /// Whether the number is divisible by two.
    fn is_even(&self) -> (even: bool)
        ensures
            even == (self.as_nat() % 2 == 0),
    ;

    /// The number of trailing zero bits of a number that is not zero.
    fn count_trailing_zeros(&self) -> (count: u64)
        requires
            self.as_nat() != 0,
        ensures
            count == bits::trailing_zeros(self.as_nat()),
    ;

    /// The number of trailing one bits.
    fn count_trailing_ones(&self) -> (count: u64)
        ensures
            count == bits::trailing_ones(self.as_nat()),
    ;

    /// The number shifted to the right by `count` bits.
    fn shift_right(&self, count: u64) -> (shifted: Self)
        ensures
            shifted.as_nat() == self.as_nat() / pow2(count as nat),
    ;

    /// The number in decimal, with no decoration.
    fn to_decimal(&self) -> (text: String)
        ensures
            text@ == decimal(self.as_nat()),
    ;
}

/// Whether the domain `T` holds the number `n`.
pub open spec fn holds<T: Uint>(n: nat) -> bool {
    T::limit() matches Some(max) ==> n <= max
}

/// A domain of fixed width: the numbers that `bits()` binary digits express.
pub trait FixedWidth: Uint {
    /// The number of bits of every value.
    spec fn bits() -> nat;

    /// The domain ends just below two to the power of its width.
    proof fn lemma_limit()
        ensures
            Self::limit() matches Some(max) && max + 1 == pow2(Self::bits()),
    ;

    /// The number of bits of every value.
    fn width() -> (width: u64)
        ensures
            width == Self::bits(),
    ;

    /// The fewest bits that can express the number.
    fn bit_length(&self) -> (count: u64)
        ensures
            count == bits::bit_length(self.as_nat()),
    ;

    /// The number with every bit flipped.
    fn complement(&self) -> (flipped: Self)
        ensures
            flipped.as_nat() == bits::complement(Self::bits(), self.as_nat()),
    ;
}

/// Counting the trailing zero bits of a value.
pub trait TrailingZeros {
    /// The number of trailing zero bits of the value.
    spec fn trailing_zeros_spec(&self) -> nat;

    /// Returns the number of trailing zeros in the binary representation of the nonzero integer
    fn trailing_zeros(&self) -> (count: u64)
        ensures
            count == self.trailing_zeros_spec(),
    ;
}

/// Counting the leading zero bits of a value of fixed width.
pub trait LeadingZeros {
    /// The number of leading zero bits of the value.
    spec fn leading_zeros_spec(&self) -> nat;

    /// Returns the number of leading zeros in the binary representation of the nonzero integer
    fn leading_zeros(&self) -> (count: u64)
        ensures
            count == self.leading_zeros_spec(),
    ;
}

/// Counting the trailing one bits of a value.
pub trait TrailingOnes {
    /// The number of trailing one bits of the value.
    spec fn trailing_ones_spec(&self) -> nat;

    /// Returns the number of trailing ones in the binary representation of the nonzero integer
    fn trailing_ones(&self) -> (count: u64)
        ensures
            count == self.trailing_ones_spec(),
    ;
}

/// Counting the leading one bits of a value of fixed width.
pub trait LeadingOnes {
    /// The number of leading one bits of the value.
    spec fn leading_ones_spec(&self) -> nat;

    /// Returns the number of leading ones in the binary representation of the nonzero integer
    fn leading_ones(&self) -> (count: u64)
        ensures
            count == self.leading_ones_spec(),
    ;
}

/// Stripping the trailing zero bits of a value.
pub trait WithoutTrailingZeros: TrailingZeros + Sized {
    /// Whether `stripped` is this value without its trailing zero bits.
    spec fn strips_to(&self, stripped: &Self) -> bool;

    /// Returns the number with its trailing zeros removed
    fn without_trailing_zeros(&self) -> (stripped: Self)
        ensures
            self.strips_to(&stripped),
    ;

    /// Returns the number with its trailing zeros removed, and does not test
    /// the result again, which is known not to be zero.
    fn without_trailing_zeros_unchecked(&self) -> (stripped: Self)
        ensures
            self.strips_to(&stripped),
    ;
}

} // verus!
