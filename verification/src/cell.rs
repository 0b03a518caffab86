use vstd::prelude::*;

use crate::unsafe_cell::UnsafeCell;

verus! {

/// A single slot whose value is read and replaced whole.
///
/// Every operation is constant time and none can fail. The view of a cell
/// is the value it holds.
pub struct Cell<T> {
    value: UnsafeCell<T>,
}

impl<T> View for Cell<T> {
    type V = T;

    closed spec fn view(&self) -> T {
        self.value@
    }
}

impl<T> Cell<T> {
    /// A cell that holds `value`.
    pub fn new(value: T) -> (cell: Self)
        ensures
            cell@ == value,
    {
        Self { value: UnsafeCell::new(value) }
    }

    /// Overwrites the value held, whatever it was.
    pub fn set(&mut self, value: T)
        ensures
            final(self)@ == value,
        no_unwind
    {
        let slot = self.value.get_mut();
        *slot = value;
    }

    /// A copy of the value held.
    pub fn get(&self) -> (value: T) where T: Copy
        ensures
            value == self@,
    {
        *self.value.get()
    }

    /// Takes the value out and leaves the type's default in its place.
    pub fn take(&mut self) -> (value: T) where T: Default
        ensures
            value == old(self)@,
            call_ensures(T::default, (), final(self)@),
    {
        self.replace(T::default())
    }

    /// Puts `val` into the cell and gives back what was there before.
    pub fn replace(&mut self, val: T) -> (previous: T)
        ensures
            previous == old(self)@,
            final(self)@ == val,
    {
        let mut held = val;
        core::mem::swap(self.value.get_mut(), &mut held);
        held
    }

    /// An exclusive view of the value. Whatever the caller leaves behind the
    /// returned reference is what the cell holds afterwards.
    pub fn get_mut(&mut self) -> (value: &mut T)
        ensures
            *value == old(self)@,
            final(self)@ == *final(value),
        no_unwind
    {
        self.value.get_mut()
    }

    /// Unwraps the cell, giving back the value it holds.
    pub fn into_inner(self) -> (value: T)
        ensures
            value == self@,
    {
        self.value.into_inner()
    }
}

} // verus!
