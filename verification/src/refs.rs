use vstd::prelude::*;

use crate::ref_cell::RefCell;

verus! {

/// What a tracker has lent out.
#[derive(Clone, Copy, Debug, PartialEq, Eq, Structural)]
pub enum State {
    /// No claim is outstanding.
    Unused,
    /// That many read claims are outstanding, at least one.
    HasReaders(usize),
    /// The one write claim is outstanding.
    HasWriter,
}

impl State {
    /// A reader count, where there is one, is never zero.
    pub open spec fn wf(self) -> bool {
        self matches State::HasReaders(n) ==> n >= 1
    }

    /// The number of read claims the state stands for.
    pub open spec fn readers(self) -> nat {
        match self {
            State::HasReaders(n) => n as nat,
            _ => 0,
        }
    }

    /// The number of write claims the state stands for.
    pub open spec fn writers(self) -> nat {
        match self {
            State::HasWriter => 1,
            _ => 0,
        }
    }

    /// What `admits_reader` computes.
    pub open spec fn spec_admits_reader(self) -> bool {
        self !is HasWriter
    }

    /// What `admits_writer` computes.
    pub open spec fn spec_admits_writer(self) -> bool {
        self is Unused
    }

    /// What `add_reader` computes: the first reader makes the count, every
    /// further one adds to it.
    pub open spec fn spec_add_reader(self) -> State {
        match self {
            State::Unused => State::HasReaders(1),
            State::HasReaders(n) => State::HasReaders((n + 1) as usize),
            State::HasWriter => State::HasWriter,
        }
    }

    /// What `remove_reader` computes: the last reader to go leaves the
    /// tracker `Unused`, every other one takes one off the count.
    pub open spec fn spec_remove_reader(self) -> State {
        match self {
            State::HasReaders(n) => if n == 1 {
                State::Unused
            } else {
                State::HasReaders((n - 1) as usize)
            },
            _ => self,
        }
    }

    /// What `add_writer` computes: `Unused` becomes `HasWriter`.
    pub open spec fn spec_add_writer(self) -> State {
        match self {
            State::Unused => State::HasWriter,
            _ => self,
        }
    }

    /// What `remove_writer` computes: `HasWriter` becomes `Unused`.
    pub open spec fn spec_remove_writer(self) -> State {
        match self {
            State::HasWriter => State::Unused,
            _ => self,
        }
    }

    /// Whether one more read claim can be granted: always, unless the
    /// write claim is out.
    #[verifier::when_used_as_spec(spec_admits_reader)]
    pub fn admits_reader(self) -> (yes: bool)
        ensures
            yes == self.spec_admits_reader(),
    {
        match self {
            State::HasWriter => false,
            _ => true,
        }
    }

    /// Whether the write claim can be granted: only when nothing is out.
    #[verifier::when_used_as_spec(spec_admits_writer)]
    pub fn admits_writer(self) -> (yes: bool)
        ensures
            yes == self.spec_admits_writer(),
    {
        match self {
            State::Unused => true,
            _ => false,
        }
    }

    /// The state after one more read claim is granted.
    #[verifier::when_used_as_spec(spec_add_reader)]
    pub fn add_reader(self) -> (next: State)
        requires
            self.admits_reader(),
            self.readers() < usize::MAX,
        ensures
            next == self.spec_add_reader(),
    {
        match self {
            State::HasReaders(n) => State::HasReaders(n + 1),
            _ => State::HasReaders(1),
        }
    }

    /// The state after one read claim is given back.
    #[verifier::when_used_as_spec(spec_remove_reader)]
    pub fn remove_reader(self) -> (next: State)
        requires
            self.readers() >= 1,
        ensures
            next == self.spec_remove_reader(),
    {
        match self {
            State::HasReaders(n) => if n == 1 {
                State::Unused
            } else {
                State::HasReaders(n - 1)
            },
            _ => self,
        }
    }

    /// The state after the write claim is granted.
    #[verifier::when_used_as_spec(spec_add_writer)]
    pub fn add_writer(self) -> (next: State)
        requires
            self.admits_writer(),
        ensures
            next == self.spec_add_writer(),
    {
        State::HasWriter
    }

    /// The state after the write claim is given back.
    #[verifier::when_used_as_spec(spec_remove_writer)]
    pub fn remove_writer(self) -> (next: State)
        requires
            self is HasWriter,
        ensures
            next == self.spec_remove_writer(),
    {
        State::Unused
    }
}

/// A read claim on a tracker's payload.
///
/// Making one books a reader on the tracker; `release` gives the booking
/// back. A guard is neither copied nor cloned, so each booking is given
/// back at most once, and it remembers which tracker issued it.
pub struct Ref {
    issuer: Ghost<int>,
}

impl Ref {
    /// The identity of the tracker that the claim is on.
    pub closed spec fn issuer(&self) -> int {
        self.issuer@
    }

    /// Books one more reader on `cell`.
    pub fn new<T>(cell: &mut RefCell<T>) -> (guard: Ref)
        requires
            old(cell).state().admits_reader(),
            old(cell).state().readers() < usize::MAX,
        ensures
            guard.issuer() == old(cell).id(),
            final(cell).state() == old(cell).state().add_reader(),
            final(cell)@ == old(cell)@,
            final(cell).id() == old(cell).id(),
    {
        let next = cell.state().add_reader();
        cell.set_state(next);
        Ref { issuer: Ghost(cell.id()) }
    }

    /// Read access to the payload of the tracker that issued the claim.
    pub fn deref<'a, T>(&self, cell: &'a RefCell<T>) -> (value: &'a T)
        requires
            self.issuer() == cell.id(),
        ensures
            *value == cell@,
    {
        cell.payload()
    }

    /// Gives the claim back to the tracker that issued it: one reader
    /// fewer, and `Unused` once the last one has gone.
    pub fn release<T>(self, cell: &mut RefCell<T>)
        requires
            self.issuer() == old(cell).id(),
            old(cell).state().readers() >= 1,
        ensures
            final(cell).state() == old(cell).state().remove_reader(),
            final(cell)@ == old(cell)@,
            final(cell).id() == old(cell).id(),
    {
        let next = cell.state().remove_reader();
        cell.set_state(next);
    }
}

/// The write claim on a tracker's payload.
///
/// Making one books the writer on the tracker; `release` gives the booking
/// back. A guard is neither copied nor cloned, so each booking is given
/// back at most once, and it remembers which tracker issued it.
pub struct RefMut {
    issuer: Ghost<int>,
}

impl RefMut {
    /// The identity of the tracker that the claim is on.
    pub closed spec fn issuer(&self) -> int {
        self.issuer@
    }

    /// Books the writer on `cell`.
    pub fn new<T>(cell: &mut RefCell<T>) -> (guard: RefMut)
        requires
            old(cell).state().admits_writer(),
        ensures
            guard.issuer() == old(cell).id(),
            final(cell).state() == old(cell).state().add_writer(),
            final(cell)@ == old(cell)@,
            final(cell).id() == old(cell).id(),
    {
        let next = cell.state().add_writer();
        cell.set_state(next);
        RefMut { issuer: Ghost(cell.id()) }
    }

    /// Read access to the payload of the tracker that issued the claim.
    pub fn deref<'a, T>(&self, cell: &'a RefCell<T>) -> (value: &'a T)
        requires
            self.issuer() == cell.id(),
        ensures
            *value == cell@,
    {
        cell.payload()
    }

    /// Write access to the payload of the tracker that issued the claim.
    /// Whatever the caller leaves behind the returned reference is the
    /// payload afterwards; the claim itself stands.
    pub fn deref_mut<'a, T>(&mut self, cell: &'a mut RefCell<T>) -> (value: &'a mut T)
        requires
            old(self).issuer() == old(cell).id(),
        ensures
            *value == old(cell)@,
            final(cell)@ == *final(value),
            final(cell).state() == old(cell).state(),
            final(cell).id() == old(cell).id(),
            final(self).issuer() == old(self).issuer(),
    {
        cell.payload_mut()
    }

    /// Gives the claim back to the tracker that issued it, which is
    /// `Unused` again.
    pub fn release<T>(self, cell: &mut RefCell<T>)
        requires
            self.issuer() == old(cell).id(),
            old(cell).state() is HasWriter,
        ensures
            final(cell).state() == old(cell).state().remove_writer(),
            final(cell)@ == old(cell)@,
            final(cell).id() == old(cell).id(),
    {
        let next = cell.state().remove_writer();
        cell.set_state(next);
    }
}

} // verus!
