use vstd::prelude::*;

verus! {

/// The innermost slot: owns one value and hands out views of it.
///
/// The slot enforces no discipline of its own. Whoever holds it decides
/// when a view may be taken; the borrow tracker built on top is what keeps
/// readers and writers apart.
pub struct UnsafeCell<T> {
    value: T,
}

impl<T> View for UnsafeCell<T> {
    type V = T;

    closed spec fn view(&self) -> T {
        self.value
    }
}

impl<T> UnsafeCell<T> {
    /// Wraps `value`.
    pub fn new(value: T) -> (cell: Self)
        ensures
            cell@ == value,
    {
        Self { value }
    }

    /// Unwraps the slot, giving back the value it holds.
    pub fn into_inner(self) -> (value: T)
        ensures
            value == self@,
    {
        self.value
    }

    /// A read-only view of the value.
    pub fn get(&self) -> (value: &T)
        ensures
            *value == self@,
    {
        &self.value
    }

    /// An exclusive view of the value. Whatever the caller leaves behind the
    /// returned reference is what the slot holds afterwards.
    pub fn get_mut(&mut self) -> (value: &mut T)
        ensures
            *value == old(self)@,
            final(self)@ == *final(value),
        no_unwind
    {
        &mut self.value
    }
}

} // verus!
