//! The arithmetic operators on nonzero values.
//!
//! Each operator takes two nonzero values of one domain and gives a nonzero
//! value of that domain. Where the result would be zero, would not be a
//! natural number, or would leave the domain, the operator is not defined:
//! its precondition excludes those operands.
//!
//! The operators are stated over the numbers that the values stand for. Two
//! values of a domain may stand for one number, so `obeys_*_spec` is false and
//! the `*_spec` functions only say which number the result stands for.

use core::ops::{Add, AddAssign, Div, DivAssign, Mul, MulAssign, Sub, SubAssign};
use vstd::arithmetic::div_mod::lemma_div_non_zero;
use vstd::arithmetic::mul::lemma_mul_strictly_positive;
use vstd::prelude::*;
use vstd::std_specs::ops::{AddSpecImpl, DivSpecImpl, MulSpecImpl, SubSpecImpl};

use crate::traits::{holds, Uint};
use crate::NonZero;

verus! {

impl<T: Uint> AddSpecImpl for NonZero<T> {
    open spec fn obeys_add_spec() -> bool {
        false
    }

    open spec fn add_req(self, rhs: Self) -> bool {
        holds::<T>(self@.as_nat() + rhs@.as_nat())
    }

    open spec fn add_spec(self, rhs: Self) -> Self {
        choose|sum: Self| sum@.as_nat() == self@.as_nat() + rhs@.as_nat()
    }
}

impl<T: Uint> Add for NonZero<T> {
    type Output = Self;

    /// The sum of two nonzero values, where the domain holds it.
    fn add(self, rhs: Self) -> (sum: Self)
        ensures
            sum@.as_nat() == self@.as_nat() + rhs@.as_nat(),
            sum@.as_nat() != 0,
    {
        proof {
            use_type_invariant(&self);
            use_type_invariant(&rhs);
        }
        NonZero { value: self.value.sum(&rhs.value) }
    }
}

impl<T: Uint> AddAssign for NonZero<T> {
    /// The assigning form of the operator, under the same condition.
    fn add_assign(&mut self, rhs: Self)
        requires
            holds::<T>(old(self)@.as_nat() + rhs@.as_nat()),
        ensures
            final(self)@.as_nat() == old(self)@.as_nat() + rhs@.as_nat(),
            final(self)@.as_nat() != 0,
    {
        proof {
            use_type_invariant(&*self);
            use_type_invariant(&rhs);
        }
        let sum = self.value.sum(&rhs.value);
        self.value = sum;
    }
}

impl<T: Uint> SubSpecImpl for NonZero<T> {
    open spec fn obeys_sub_spec() -> bool {
        false
    }

    open spec fn sub_req(self, rhs: Self) -> bool {
        rhs@.as_nat() < self@.as_nat()
    }

    open spec fn sub_spec(self, rhs: Self) -> Self {
        choose|difference: Self| difference@.as_nat() == self@.as_nat() - rhs@.as_nat()
    }
}

impl<T: Uint> Sub for NonZero<T> {
    type Output = Self;

    /// The difference of two nonzero values, where the left one is the larger:
    /// the difference of equal values would be zero.
    fn sub(self, rhs: Self) -> (difference: Self)
        ensures
            difference@.as_nat() == self@.as_nat() - rhs@.as_nat(),
            difference@.as_nat() != 0,
    {
        proof {
            use_type_invariant(&self);
            use_type_invariant(&rhs);
        }
        NonZero { value: self.value.difference(&rhs.value) }
    }
}

impl<T: Uint> SubAssign for NonZero<T> {
    /// The assigning form of the operator, under the same condition.
    fn sub_assign(&mut self, rhs: Self)
        requires
            rhs@.as_nat() < old(self)@.as_nat(),
        ensures
            final(self)@.as_nat() == old(self)@.as_nat() - rhs@.as_nat(),
            final(self)@.as_nat() != 0,
    {
        proof {
            use_type_invariant(&*self);
            use_type_invariant(&rhs);
        }
        let difference = self.value.difference(&rhs.value);
        self.value = difference;
    }
}

impl<T: Uint> MulSpecImpl for NonZero<T> {
    open spec fn obeys_mul_spec() -> bool {
        false
    }

    open spec fn mul_req(self, rhs: Self) -> bool {
        holds::<T>(self@.as_nat() * rhs@.as_nat())
    }

    open spec fn mul_spec(self, rhs: Self) -> Self {
        choose|product: Self| product@.as_nat() == self@.as_nat() * rhs@.as_nat()
    }
}

impl<T: Uint> Mul for NonZero<T> {
    type Output = Self;

    /// The product of two nonzero values, where the domain holds it.
    fn mul(self, rhs: Self) -> (product: Self)
        ensures
            product@.as_nat() == self@.as_nat() * rhs@.as_nat(),
            product@.as_nat() != 0,
    {
        proof {
            use_type_invariant(&self);
            use_type_invariant(&rhs);
            lemma_mul_strictly_positive(self@.as_nat() as int, rhs@.as_nat() as int);
        }
        NonZero { value: self.value.product(&rhs.value) }
    }
}

impl<T: Uint> MulAssign for NonZero<T> {
    /// The assigning form of the operator, under the same condition.
    fn mul_assign(&mut self, rhs: Self)
        requires
            holds::<T>(old(self)@.as_nat() * rhs@.as_nat()),
        ensures
            final(self)@.as_nat() == old(self)@.as_nat() * rhs@.as_nat(),
            final(self)@.as_nat() != 0,
    {
        proof {
            use_type_invariant(&*self);
            use_type_invariant(&rhs);
            lemma_mul_strictly_positive(old(self)@.as_nat() as int, rhs@.as_nat() as int);
        }
        let product = self.value.product(&rhs.value);
        self.value = product;
    }
}

impl<T: Uint> DivSpecImpl for NonZero<T> {
    open spec fn obeys_div_spec() -> bool {
        false
    }

    open spec fn div_req(self, rhs: Self) -> bool {
        rhs@.as_nat() <= self@.as_nat()
    }

    open spec fn div_spec(self, rhs: Self) -> Self {
        choose|quotient: Self| quotient@.as_nat() == self@.as_nat() / rhs@.as_nat()
    }
}

impl<T: Uint> Div for NonZero<T> {
    type Output = Self;

    /// The quotient of two nonzero values, rounded down, where the left one is
    /// not the smaller: the quotient would be zero otherwise.
    fn div(self, rhs: Self) -> (quotient: Self)
        ensures
            quotient@.as_nat() == self@.as_nat() / rhs@.as_nat(),
            quotient@.as_nat() != 0,
    {
        proof {
            use_type_invariant(&self);
            use_type_invariant(&rhs);
            lemma_div_non_zero(self@.as_nat() as int, rhs@.as_nat() as int);
        }
        NonZero { value: self.value.quotient(&rhs.value) }
    }
}

impl<T: Uint> DivAssign for NonZero<T> {
    /// The assigning form of the operator, under the same condition.
    fn div_assign(&mut self, rhs: Self)
        requires
            rhs@.as_nat() <= old(self)@.as_nat(),
        ensures
            final(self)@.as_nat() == old(self)@.as_nat() / rhs@.as_nat(),
            final(self)@.as_nat() != 0,
    {
        proof {
            use_type_invariant(&*self);
            use_type_invariant(&rhs);
            lemma_div_non_zero(old(self)@.as_nat() as int, rhs@.as_nat() as int);
        }
        let quotient = self.value.quotient(&rhs.value);
        self.value = quotient;
    }
}

} // verus!
