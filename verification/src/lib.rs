//! Integers that are known to differ from zero, over any unsigned domain.
//!
//! [`NonZero`] wraps a value of a domain ([`traits::Uint`]) and keeps it
//! different from zero for as long as it lives: it is made by a checked
//! constructor, changed by checked setters, and combined by operators that
//! are defined only where their result is a nonzero value of the domain.
//! [`ranges::RangeNonZero`] hands out an ascending sequence of such values.
//!
//! The domains are the unsigned integers of the language ([`primitives`]) and
//! the arbitrary-precision unsigned integer of `num` ([`big`]). Every
//! contract is stated over the natural number that a value stands for.

use vstd::prelude::*;

pub mod big;
pub mod bits;
pub mod decimal;
pub mod inspect;
pub mod ops;
pub mod order;
pub mod primitives;
pub mod ranges;
pub mod traits;

use crate::decimal::decimal;
use crate::traits::Uint;

verus! {

/// An integer that is known to not equal zero.
#[derive(Debug, Eq, Ord)]
pub struct NonZero<T: Uint> {
    value: T,
}

impl<T: Uint> Clone for NonZero<T> {
    fn clone(&self) -> (copy: Self)
        ensures
            copy@.as_nat() == self@.as_nat(),
    {
        proof {
            use_type_invariant(self);
        }
        Self { value: self.value.duplicate() }
    }
}

impl<T: Uint + Copy> Copy for NonZero<T> {
}

impl<T: Uint> View for NonZero<T> {
    type V = T;

    closed spec fn view(&self) -> T {
        self.value
    }
}

impl<T: Uint> NonZero<T> {
    #[verifier::type_invariant]
    spec fn nonzero(self) -> bool {
        self.value.as_nat() != 0
    }

    /// Returns a new `NonZero<T>` if `value` is nonzero
    pub fn new(value: T) -> (made: Option<Self>)
        ensures
            made is Some <==> value.as_nat() != 0,
            made is Some ==> made->0@ == value,
    {
        if value.is_zero() {
            None
        } else {
            Some(Self { value })
        }
    }

    /// Returns a new `NonZero` without checking that the provided value is nonzero.
    ///
    /// `value` must be known to be nonzero: that is the caller's to prove.
    pub fn new_unchecked(value: T) -> (made: Self)
        requires
            value.as_nat() != 0,
        ensures
            made@ == value,
    {
        Self { value }
    }

    /// Tries replacing the nonzero value with a new one.
    /// If the new value is nonzero this returns the old value,
    /// otherwise this returns None and changes nothing.
    pub fn replace(&mut self, new_value: T) -> (previous: Option<T>)
        ensures
            new_value.as_nat() != 0 ==> previous == Some(old(self)@) && final(self)@ == new_value,
            new_value.as_nat() == 0 ==> previous is None && *final(self) == *old(self),
    {
        match Self::new(new_value) {
            Some(mut other) => {
                self.swap(&mut other);
                Some(other.value)
            },
            None => None,
        }
    }

    /// Sets the nonzero value using the provided value.
    /// Only succeeds if the value provided was nonzero.
    /// Returns whether the operation succeeded.
    pub fn set(&mut self, value: T) -> (succeeded: bool)
        ensures
            succeeded == (value.as_nat() != 0),
            succeeded ==> final(self)@ == value,
            !succeeded ==> *final(self) == *old(self),
    {
        let nonzero = !value.is_zero();
        if nonzero {
            self.set_unchecked(value);
        }
        nonzero
    }

    /// Sets the internal value of the nonzero integer.
    ///
    /// `value` must be known to be nonzero: that is the caller's to prove.
    pub fn set_unchecked(&mut self, value: T)
        requires
            value.as_nat() != 0,
        ensures
            final(self)@ == value,
    {
        self.value = value;
    }

    /// Applies a function to the inner value and returns a `NonZero` if the result was nonzero.
    pub fn map(self, f: impl Fn(T) -> T) -> (mapped: Option<Self>)
        requires
            call_requires(f, (self@,)),
        ensures
            mapped matches Some(made) ==> call_ensures(f, (self@,), made@) && made@.as_nat() != 0,
            mapped is None ==> exists|result: T|
                call_ensures(f, (self@,), result) && result.as_nat() == 0,
    {
        Self::new(f(self.value))
    }

    /// Applies a function to the inner value and returns a `NonZero` of the result.
    ///
    /// `f` must return a nonzero integer: that is the caller's to prove.
    #[must_use]
    pub fn map_unchecked(self, f: impl Fn(T) -> T) -> (mapped: Self)
        requires
            call_requires(f, (self@,)),
            forall|result: T| call_ensures(f, (self@,), result) ==> result.as_nat() != 0,
        ensures
            call_ensures(f, (self@,), mapped@),
    {
        Self::new_unchecked(f(self.value))
    }

    /// A reference to the nonzero value
    pub fn get(&self) -> (value: &T)
        ensures
            *value == self@,
            value.as_nat() != 0,
    {
        proof {
            use_type_invariant(self);
        }
        &self.value
    }

    /// Swap the nonzero value of two `NonZero`s
    pub fn swap(&mut self, other: &mut Self)
        ensures
            *final(self) == *old(other),
            *final(other) == *old(self),
    {
        core::mem::swap(self, other);
    }

    /// Whether the value is divisible by two.
    pub fn is_even(&self) -> (even: bool)
        ensures
            even == (self@.as_nat() % 2 == 0),
    {
        self.value.is_even()
    }

    /// Whether the value is not divisible by two.
    pub fn is_odd(&self) -> (odd: bool)
        ensures
            odd == (self@.as_nat() % 2 == 1),
    {
        !self.value.is_even()
    }

    /// The value in decimal, with no sign, no padding and nothing around it.
    pub fn to_string(&self) -> (text: String)
        ensures
            text@ == decimal(self@.as_nat()),
    {
        self.value.to_decimal()
    }
}

} // verus!
