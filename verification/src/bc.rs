//! The borrow counter `Bc<T>` and its view.

use std::ops::Deref;
use std::ops::DerefMut;
use vstd::prelude::*;

verus! {

/// The borrow counter struct for type `T`.
pub struct Bc<T> {
    counter: usize,
    val: T,
}

/// What a `Bc<T>` is to its users: the number of mutable borrows counted so
/// far, and the value held.
pub struct BcView<T> {
    /// The mutable borrows since the wrapper was made or last reset, as
    /// far as a `usize` can count them.
    pub count: usize,
    /// The value held.
    pub value: T,
}

impl<T> BcView<T> {
    /// The wrapper after a reset: the count is zero, the value is the same.
    pub open spec fn reset(self) -> BcView<T> {
        BcView { count: 0, value: self.value }
    }

    /// The wrapper after a mutable borrow that has left `value` in it. The
    /// count is one higher, or zero where it was already the largest
    /// `usize`, whatever `value` is.
    pub open spec fn borrow_mut(self, value: T) -> BcView<T> {
        BcView {
            count: if self.count == usize::MAX {
                0
            } else {
                (self.count + 1) as usize
            },
            value,
        }
    }
}

impl<T> View for Bc<T> {
    type V = BcView<T>;

    closed spec fn view(&self) -> BcView<T> {
        BcView { count: self.counter, value: self.val }
    }
}

impl<T> Bc<T> {
    /// Create a new `Bc<T>` containing the value `val`. Its count is zero.
    pub fn new(val: T) -> (bc: Bc<T>)
        ensures
            bc@.count == 0,
            bc@.value == val,
    {
        Bc { val: val, counter: 0 }
    }

    /// Create a new `Bc<T>` containing the value `val`, whose count starts
    /// at `count` instead of zero: for a value that has a history already,
    /// or to see the counter wrap around.
    pub fn with_count(val: T, count: usize) -> (bc: Bc<T>)
        ensures
            bc@.count == count,
            bc@.value == val,
    {
        Bc { val: val, counter: count }
    }

    /// Reset the borrow counter to zero. The value is left alone.
    pub fn reset(&mut self)
        ensures
            final(self)@ == old(self)@.reset(),
    {
        self.counter = 0;
    }

    /// Get the number of times this structure has been mutably borrowed.
    pub fn count(&self) -> (count: usize)
        ensures
            count == self@.count,
    {
        self.counter
    }
}

impl<T> Deref for Bc<T> {
    type Target = T;

    /// Borrow the value held. This is not counted: behind `&self` the
    /// wrapper stays as it is, count and value.
    fn deref(&self) -> (value: &T)
        ensures
            *value == self@.value,
    {
        &self.val
    }
}

impl<T> DerefMut for Bc<T> {
    /// Borrow the value held mutably, and count the borrow.
    ///
    /// The count moves here, once: it takes no part in what is done through
    /// the reference afterwards. The value that the wrapper holds in the
    /// end is the one that the reference is left with.
    fn deref_mut(&mut self) -> (value: &mut T)
        ensures
            *value == old(self)@.value,
            final(self)@ == old(self)@.borrow_mut(*final(value)),
    {
        self.counter = self.counter.wrapping_add(1);
        &mut self.val
    }
}

} // verus!
