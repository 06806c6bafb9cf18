//! What a wrapper has counted after a whole sequence of borrows and resets.
//!
//! Each method of `Bc<T>` takes the wrapper's view one step further. Here
//! the steps are put in a row, and the laws say where the count stands at
//! the end of it.

use crate::bc::BcView;
use vstd::arithmetic::div_mod::lemma_add_mod_noop;
use vstd::arithmetic::div_mod::lemma_mod_self_0;
use vstd::arithmetic::div_mod::lemma_small_mod;
use vstd::prelude::*;

verus! {

/// One step in the life of a wrapper.
pub enum Step<T> {
    /// The value is borrowed through `deref`.
    Borrow,
    /// The value is borrowed through `deref_mut`, and this value is in the
    /// wrapper when the borrow ends.
    BorrowMut(T),
    /// The counter is reset.
    Reset,
}

impl<T> BcView<T> {
    /// The wrapper after `step`.
    pub open spec fn after(self, step: Step<T>) -> BcView<T> {
        match step {
            Step::Borrow => self,
            Step::BorrowMut(value) => self.borrow_mut(value),
            Step::Reset => self.reset(),
        }
    }

    /// The wrapper after all of `steps`, taken first to last.
    pub open spec fn after_all(self, steps: Seq<Step<T>>) -> BcView<T>
        decreases steps.len(),
    {
        if steps.len() == 0 {
            self
        } else {
            self.after_all(steps.drop_last()).after(steps.last())
        }
    }
}

/// The number of values a counter can take.
pub open spec fn modulus() -> int {
    usize::MAX + 1
}

/// How many of `steps` are mutable borrows.
pub open spec fn mutable_borrows<T>(steps: Seq<Step<T>>) -> nat
    decreases steps.len(),
{
    if steps.len() == 0 {
        0
    } else if steps.last() is BorrowMut {
        mutable_borrows(steps.drop_last()) + 1
    } else {
        mutable_borrows(steps.drop_last())
    }
}

/// Every one of `steps` is a shared borrow.
pub open spec fn all_shared<T>(steps: Seq<Step<T>>) -> bool {
    forall|i: int| 0 <= i < steps.len() ==> #[trigger] steps[i] is Borrow
}

/// Every one of `steps` is a mutable borrow.
pub open spec fn all_mutable<T>(steps: Seq<Step<T>>) -> bool {
    forall|i: int| 0 <= i < steps.len() ==> #[trigger] steps[i] is BorrowMut
}

/// None of `steps` is a reset.
pub open spec fn no_reset<T>(steps: Seq<Step<T>>) -> bool {
    forall|i: int| 0 <= i < steps.len() ==> !(#[trigger] steps[i] is Reset)
}

/// A mutable borrow adds exactly one to the counter, modulo the number of
/// values a `usize` has. What is done through the reference plays no part
/// in it: the count is the same for every `value` that the borrow may leave
/// behind.
pub proof fn lemma_borrow_mut_adds_one<T>(view: BcView<T>, value: T)
    ensures
        view.borrow_mut(value).count == (view.count + 1) % modulus(),
{
    if view.count == usize::MAX {
        lemma_mod_self_0(modulus());
    } else {
        lemma_small_mod((view.count + 1) as nat, modulus() as nat);
    }
}

/// Steps taken one sequence after another are the steps of the two
/// sequences joined.
pub proof fn lemma_after_all_joined<T>(view: BcView<T>, first: Seq<Step<T>>, second: Seq<Step<T>>)
    ensures
        view.after_all(first + second) == view.after_all(first).after_all(second),
    decreases second.len(),
{
    if second.len() == 0 {
        assert(first + second =~= first);
    } else {
        lemma_after_all_joined(view, first, second.drop_last());
        assert((first + second).drop_last() =~= first + second.drop_last());
    }
}

/// As long as it is not reset, the counter holds the number of mutable
/// borrows made, added to where it started, modulo the number of values a
/// `usize` has. Shared borrows do not count.
pub proof fn lemma_count_tallies_mutable_borrows<T>(view: BcView<T>, steps: Seq<Step<T>>)
    requires
        no_reset(steps),
    ensures
        view.after_all(steps).count == (view.count + mutable_borrows(steps)) % modulus(),
    decreases steps.len(),
{
    if steps.len() == 0 {
        lemma_small_mod(view.count as nat, modulus() as nat);
    } else {
        let init = steps.drop_last();
        lemma_count_tallies_mutable_borrows(view, init);
        if let Step::BorrowMut(value) = steps.last() {
            lemma_borrow_mut_adds_one(view.after_all(init), value);
            lemma_add_mod_noop(view.count + mutable_borrows(init), 1, modulus());
        }
    }
}

/// Where every step is a mutable borrow, there are as many mutable borrows
/// as steps.
proof fn lemma_all_mutable<T>(steps: Seq<Step<T>>)
    requires
        all_mutable(steps),
    ensures
        no_reset(steps),
        mutable_borrows(steps) == steps.len(),
    decreases steps.len(),
{
    if steps.len() > 0 {
        lemma_all_mutable(steps.drop_last());
    }
}

/// A wrapper whose counter is at zero, as it is when the wrapper is new, and
/// that is borrowed mutably any number of times and never reset, has
/// counted just that number, as long as a `usize` can hold it.
pub proof fn lemma_mutable_borrows_from_zero<T>(view: BcView<T>, steps: Seq<Step<T>>)
    requires
        view.count == 0,
        all_mutable(steps),
        steps.len() <= usize::MAX,
    ensures
        view.after_all(steps).count == steps.len(),
{
    lemma_all_mutable(steps);
    lemma_count_tallies_mutable_borrows(view, steps);
    lemma_small_mod(steps.len(), modulus() as nat);
}

/// Shared borrows never change the wrapper, however many there are: the
/// count and the value stay what they were.
pub proof fn lemma_shared_borrows_change_nothing<T>(view: BcView<T>, steps: Seq<Step<T>>)
    requires
        all_shared(steps),
    ensures
        view.after_all(steps) == view,
    decreases steps.len(),
{
    if steps.len() > 0 {
        lemma_shared_borrows_change_nothing(view, steps.drop_last());
    }
}

/// A reset brings the counter to zero whatever came before, and the mutable
/// borrows after it are counted from zero again.
pub proof fn lemma_reset_restarts_count<T>(
    view: BcView<T>,
    before: Seq<Step<T>>,
    after: Seq<Step<T>>,
)
    requires
        all_mutable(after),
        after.len() <= usize::MAX,
    ensures
        view.after_all(before.push(Step::Reset)).count == 0,
        view.after_all(before.push(Step::Reset) + after).count == after.len(),
{
    lemma_after_all_joined(view, before.push(Step::Reset), after);
    lemma_mutable_borrows_from_zero(view.after_all(before.push(Step::Reset)), after);
}

/// Wraparound: a mutable borrow of a wrapper whose counter stands at the
/// largest `usize` brings the counter to zero.
pub proof fn lemma_count_wraps_to_zero<T>(view: BcView<T>, value: T)
    requires
        view.count == usize::MAX,
    ensures
        view.borrow_mut(value).count == 0,
{
}

} // verus!
