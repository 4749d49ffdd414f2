//! Bit inspection of nonzero values.

use vstd::prelude::*;

use crate::bits;
use crate::traits::{
    FixedWidth, LeadingOnes, LeadingZeros, TrailingOnes, TrailingZeros, Uint, WithoutTrailingZeros,
};
use crate::NonZero;

verus! {

impl<T: Uint> TrailingZeros for NonZero<T> {
    open spec fn trailing_zeros_spec(&self) -> nat {
        bits::trailing_zeros(self@.as_nat())
    }

    fn trailing_zeros(&self) -> (count: u64) {
        self.get().count_trailing_zeros()
    }
}

impl<T: Uint> TrailingOnes for NonZero<T> {
    open spec fn trailing_ones_spec(&self) -> nat {
        bits::trailing_ones(self@.as_nat())
    }

    fn trailing_ones(&self) -> (count: u64) {
        self.get().count_trailing_ones()
    }
}

impl<T: FixedWidth> LeadingZeros for NonZero<T> {
    open spec fn leading_zeros_spec(&self) -> nat {
        bits::leading_zeros(T::bits(), self@.as_nat())
    }

    fn leading_zeros(&self) -> (count: u64) {
        let value = self.get();
        proof {
            value.lemma_within_limit();
            T::lemma_limit();
            bits::lemma_bit_length_bound(value.as_nat(), T::bits());
        }
        T::width() - value.bit_length()
    }
}

impl<T: FixedWidth> LeadingOnes for NonZero<T> {
    open spec fn leading_ones_spec(&self) -> nat {
        bits::leading_ones(T::bits(), self@.as_nat())
    }

    fn leading_ones(&self) -> (count: u64) {
        let flipped = self.get().complement();
        proof {
            flipped.lemma_within_limit();
            T::lemma_limit();
            bits::lemma_bit_length_bound(flipped.as_nat(), T::bits());
        }
        T::width() - flipped.bit_length()
    }
}

impl<T: Uint> WithoutTrailingZeros for NonZero<T> {
    open spec fn strips_to(&self, stripped: &Self) -> bool {
        stripped@.as_nat() == bits::odd_part(self@.as_nat())
    }

    fn without_trailing_zeros(&self) -> (stripped: Self) {
        let value = self.get();
        let shifted = value.shift_right(value.count_trailing_zeros());
        proof {
            bits::lemma_odd_part(value.as_nat());
        }
        NonZero::new(shifted).unwrap()
    }

    fn without_trailing_zeros_unchecked(&self) -> (stripped: Self) {
        let value = self.get();
        let shifted = value.shift_right(value.count_trailing_zeros());
        proof {
            bits::lemma_odd_part(value.as_nat());
        }
        NonZero::new_unchecked(shifted)
    }
}

} // verus!
