//! Equality and order of nonzero values: those of the numbers they stand for.

use core::cmp::Ordering;
use vstd::prelude::*;
use vstd::std_specs::cmp::{PartialEqSpec, PartialEqSpecImpl, PartialOrdSpec, PartialOrdSpecImpl};

use crate::traits::Uint;
use crate::NonZero;

verus! {

impl<T: Uint> PartialEqSpecImpl for NonZero<T> {
    open spec fn obeys_eq_spec() -> bool {
        true
    }

    open spec fn eq_spec(&self, other: &Self) -> bool {
        self@.as_nat() == other@.as_nat()
    }
}

impl<T: Uint> PartialEq for NonZero<T> {
    /// Whether both values stand for the same number.
    fn eq(&self, other: &Self) -> (same: bool) {
        self.value.equals(&other.value)
    }
}

impl<T: Uint> PartialOrdSpecImpl for NonZero<T> {
    open spec fn obeys_partial_cmp_spec() -> bool {
        true
    }

    open spec fn partial_cmp_spec(&self, other: &Self) -> Option<Ordering> {
        if self@.as_nat() < other@.as_nat() {
            Some(Ordering::Less)
        } else if self@.as_nat() == other@.as_nat() {
            Some(Ordering::Equal)
        } else {
            Some(Ordering::Greater)
        }
    }
}

impl<T: Uint> PartialOrd for NonZero<T> {
    /// The order of the numbers that the values stand for: it is total.
    fn partial_cmp(&self, other: &Self) -> (order: Option<Ordering>) {
        if self.value.less_than(&other.value) {
            Some(Ordering::Less)
        } else if self.value.equals(&other.value) {
            Some(Ordering::Equal)
        } else {
            Some(Ordering::Greater)
        }
    }
}

/// The order of nonzero values is total and agrees with their equality: of
/// two values one is the smaller, or they are equal, and never both.
pub proof fn lemma_order_is_total<T: Uint>(left: NonZero<T>, right: NonZero<T>)
    ensures
        PartialOrdSpec::partial_cmp_spec(&left, &right) is Some,
        PartialEqSpec::eq_spec(&left, &right) <==> PartialOrdSpec::partial_cmp_spec(&left, &right)
            == Some(Ordering::Equal),
        PartialOrdSpec::partial_cmp_spec(&left, &right) == Some(Ordering::Less)
            <==> PartialOrdSpec::partial_cmp_spec(&right, &left) == Some(Ordering::Greater),
        PartialEqSpec::eq_spec(&left, &right) <==> PartialEqSpec::eq_spec(&right, &left),
{
}

} // verus!
