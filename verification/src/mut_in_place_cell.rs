//! A value that is changed in place by a function.

use vstd::prelude::*;

verus! {

/// Whether a value is being changed. Changing it again from inside the change
/// would give two ways to write to it.
#[derive(Debug)]
pub struct RecursionCheck(bool);

/// A change that is going on.
#[derive(Debug)]
pub struct RecursionCheckGuard {
    entered: bool,
}

impl RecursionCheck {
    /// Whether a change is going on.
    pub closed spec fn entered(self) -> bool {
        self.0
    }

    /// No change is going on.
    pub fn new() -> (check: RecursionCheck)
        ensures
            !check.entered(),
    {
        RecursionCheck(false)
    }

    /// Whether a change is going on.
    pub fn is_entered(&self) -> (entered: bool)
        ensures
            entered == self.entered(),
    {
        self.0
    }

    /// Begins a change, outside of any other.
    pub fn enter(&mut self) -> (guard: RecursionCheckGuard)
        requires
            !old(self).entered(),
        ensures
            final(self).entered(),
    {
        self.0 = true;
        RecursionCheckGuard { entered: true }
    }

    /// Ends a change, whichever way it went.
    pub fn leave(&mut self, _guard: RecursionCheckGuard)
        ensures
            !final(self).entered(),
    {
        self.0 = false;
    }
}

/// A value that can only be changed by handing a function to the cell.
pub struct MutInPlaceCell<T> {
    value: T,
    recursion_check: RecursionCheck,
}

impl<T> View for MutInPlaceCell<T> {
    type V = T;

    /// The value.
    closed spec fn view(&self) -> T {
        self.value
    }
}

impl<T: Default> Default for MutInPlaceCell<T> {
    fn default() -> (cell: MutInPlaceCell<T>)
        ensures
            T::default.ensures((), cell@),
            !cell.in_use(),
    {
        MutInPlaceCell::new(T::default())
    }
}

impl<T> MutInPlaceCell<T> {
    /// Whether a function is changing the value.
    pub closed spec fn in_use(&self) -> bool {
        self.recursion_check.entered()
    }

    /// A cell with a value.
    pub fn new(value: T) -> (cell: MutInPlaceCell<T>)
        ensures
            cell@ == value,
            !cell.in_use(),
    {
        MutInPlaceCell { value, recursion_check: RecursionCheck::new() }
    }

    /// Has a function change the value, and returns what the function returns.
    pub fn use_mut<U, F: FnOnce(&mut T) -> U>(&mut self, f: F) -> (result: U)
        requires
            !old(self).in_use(),
            forall|value: &mut T| #![trigger f.requires((value,))] *value == old(self)@ ==> f.requires((value,)),
        ensures
            !final(self).in_use(),
            exists|value: &mut T| #![trigger f.ensures((value,), result)] *value == old(self)@ && *final(value) == final(self)@ && f.ensures(
                (value,),
                result,
            ),
    {
        let guard = self.recursion_check.enter();
        let result = f(&mut self.value);
        self.recursion_check.leave(guard);
        result
    }
}

/// A check is entered from when a change begins until it ends.
pub proof fn checks_are_entered_during_a_change(
    made: RecursionCheck,
    entered: &mut RecursionCheck,
    left: &mut RecursionCheck,
    guard: RecursionCheckGuard,
    read: (bool, bool, bool),
)
    requires
        call_ensures(RecursionCheck::new, (), made),
        call_ensures(RecursionCheck::is_entered, (&made,), read.0),
        *old(entered) == made,
        call_ensures(RecursionCheck::enter, (entered,), guard),
        call_ensures(RecursionCheck::is_entered, (final(entered),), read.1),
        *old(left) == *final(entered),
        call_ensures(RecursionCheck::leave, (left, guard), ()),
        call_ensures(RecursionCheck::is_entered, (final(left),), read.2),
    ensures
        !read.0 && read.1 && !read.2,
{
}

/// A cell holds the value that it was made with, and hands exactly that to the
/// function that changes it; what the function leaves is what the cell holds.
pub proof fn cells_hold_what_was_left<T, U, F: FnOnce(&mut T) -> U>(
    value: T,
    made: MutInPlaceCell<T>,
    cell: &mut MutInPlaceCell<T>,
    change: F,
    after: T,
    returned: U,
    result: U,
)
    requires
        call_ensures(MutInPlaceCell::<T>::new, (value,), made),
        *old(cell) == made,
        forall|place: &mut T, output: U|
            #![trigger change.ensures((place,), output)]
            change.ensures((place,), output) && *place == value ==> *final(place) == after
                && output == returned,
        call_ensures(MutInPlaceCell::<T>::use_mut::<U, F>, (cell, change), result),
    ensures
        made@ == value,
        final(cell)@ == after && result == returned,
        !made.in_use() && !final(cell).in_use(),
{
}

} // verus!
