//! Range related types

use vstd::prelude::*;

use crate::traits::Uint;
use crate::NonZero;

verus! {

/// A lazy ascending sequence of nonzero values between two bounds.
///
/// The sequence is entered behind `start`: the first value that is handed
/// out is `start + 1`, the last one is `stop`, and `start` itself is never
/// handed out. Where `stop` is not above `start` the sequence is empty.
#[derive(Debug)]
pub struct RangeNonZero<T: Uint> {
    pub start: NonZero<T>,
    pub stop: NonZero<T>,
    // Keeps track of the current value
    value: NonZero<T>,
}

impl<T: Uint> Clone for RangeNonZero<T> {
    fn clone(&self) -> (copy: Self)
        ensures
            copy.spec_start()@.as_nat() == self.spec_start()@.as_nat(),
            copy.spec_stop()@.as_nat() == self.spec_stop()@.as_nat(),
            copy.cursor() == self.cursor(),
    {
        Self { start: self.start.clone(), stop: self.stop.clone(), value: self.value.clone() }
    }
}

impl<T: Uint> View for RangeNonZero<T> {
    type V = Seq<nat>;

    /// The numbers that are still to be handed out, in their order.
    open spec fn view(&self) -> Seq<nat> {
        Seq::new(
            if self.cursor() < self.spec_stop()@.as_nat() {
                (self.spec_stop()@.as_nat() - self.cursor()) as nat
            } else {
                0
            },
            |i: int| (self.cursor() + 1 + i) as nat,
        )
    }
}

impl<T: Uint> RangeNonZero<T> {
    /// The bound that the sequence is entered behind.
    pub closed spec fn spec_start(&self) -> NonZero<T> {
        self.start
    }

    /// The bound that the sequence ends with.
    pub closed spec fn spec_stop(&self) -> NonZero<T> {
        self.stop
    }

    /// The number that was handed out last, or that of `start` where none was.
    pub closed spec fn cursor(&self) -> nat {
        self.value@.as_nat()
    }

    /// Whether nothing is left to hand out.
    pub open spec fn exhausted(&self) -> bool {
        self.cursor() >= self.spec_stop()@.as_nat()
    }

    /// What a range still hands out: the numbers above its cursor up to
    /// `stop`, each one above the one before it, and nothing once the cursor
    /// has reached `stop`.
    pub proof fn lemma_sequence(self)
        ensures
            self.exhausted() <==> self@.len() == 0,
            !self.exhausted() ==> {
                &&& self@.len() == self.spec_stop()@.as_nat() - self.cursor()
                &&& self@.first() == self.cursor() + 1
                &&& self@.last() == self.spec_stop()@.as_nat()
            },
            forall|i: int| 0 <= i < self@.len() ==> #[trigger] self@[i] == self.cursor() + 1 + i,
    {
    }

    /// A range behind `start` and up to `stop`. The bounds are taken as they
    /// come: an inverted range is an empty one.
    pub fn new(start: NonZero<T>, stop: NonZero<T>) -> (range: Self)
        ensures
            range.spec_start()@.as_nat() == start@.as_nat(),
            range.spec_stop() == stop,
            range.cursor() == start@.as_nat(),
    {
        Self { start: start.clone(), stop, value: start }
    }

    /// A range between two plain values, if neither of them is zero.
    pub fn from_primitives(start: T, stop: T) -> (range: Option<Self>)
        ensures
            range is Some <==> start.as_nat() != 0 && stop.as_nat() != 0,
            range matches Some(made) ==> {
                &&& made.spec_start()@.as_nat() == start.as_nat()
                &&& made.spec_stop()@ == stop
                &&& made.cursor() == start.as_nat()
            },
    {
        match NonZero::new(start) {
            Some(start) => match NonZero::new(stop) {
                Some(stop) => Some(Self::new(start, stop)),
                None => None,
            },
            None => None,
        }
    }

    /// Hands out the next value of the sequence: the cursor moves up by one
    /// and its new value is given, as long as the cursor is below `stop`.
    ///
    /// An exhausted range gives `None` and is left as it was, so it stays
    /// exhausted: every later call gives `None` again.
    pub fn next(&mut self) -> (item: Option<NonZero<T>>)
        ensures
            final(self).spec_start() == old(self).spec_start(),
            final(self).spec_stop() == old(self).spec_stop(),
            item is None <==> old(self).exhausted(),
            item is None ==> final(self).exhausted() && *final(self) == *old(self),
            item matches Some(given) ==> {
                &&& given@.as_nat() == old(self).cursor() + 1
                &&& given@.as_nat() == old(self)@[0]
                &&& final(self).cursor() == old(self).cursor() + 1
                &&& final(self)@ == old(self)@.skip(1)
            },
    {
        if self.value.get().less_than(self.stop.get()) {
            proof {
                self.stop@.lemma_within_limit();
            }
            let one = T::one();
            let moved = NonZero::new_unchecked(self.value.get().sum(&one));
            let given = moved.clone();
            self.value = moved;
            assert(self@ =~= old(self)@.skip(1));
            Some(given)
        } else {
            None
        }
    }
}

} // verus!
