//! Counting the mutable borrows of a value.
//!
//! [`Bc<T>`] is a small wrapper around a value of type `T`. It hands the
//! value out like a reference does, and keeps count of how many times it has
//! handed it out for writing since it was made or last reset.
//!
//! # Why?
//!
//! A cache of an expensive result has to know whether the inputs of the
//! computation have changed. Hashing them answers that, but asks for values
//! that can be hashed and for a hash that is cheaper than the computation.
//! With the inputs held in a `Bc<T>`, the cache remembers the count
//! instead: as long as the count is the same, nobody has had write access to
//! the value.
//!
//! # Limitations
//!
//! The count says that the value was borrowed mutably, not that it was
//! changed: it can move while the value stays the same.
//!
//! After more than `usize::MAX` mutable borrows the counter has wrapped
//! around to zero. This is silent: no borrow ever panics.
//!
//! Only the borrow taken from the wrapper counts. A function that gets
//! `&mut T` and hands it on to others, or writes through it many times, has
//! been counted once. And what changes behind a shared reference, as the
//! inside of a `Cell` or a `RefCell` does, is never counted.
//!
//! # What is proved
//!
//! Every method of [`Bc<T>`] is verified against a contract over the
//! wrapper's view, [`BcView<T>`]: the count and the value held. The module
//! [`history`] holds the laws that follow for whole sequences of borrows and
//! resets.

pub mod bc;
pub mod history;

pub use bc::Bc;
pub use bc::BcView;
