use std::fmt::Debug;
use vstd::prelude::*;

use crate::cell::Cell;
use crate::refs::{Ref, RefMut, State};
use crate::unsafe_cell::UnsafeCell;

verus! {

/// Why a read claim was refused: the write claim is out.
#[derive(Debug)]
pub struct BorrowError {}

impl BorrowError {
    /// The message that goes with the refusal.
    pub fn to_string(&self) -> (message: String)
        ensures
            message@ == "Already mutably borrowed"@,
    {
        String::from_str("Already mutably borrowed")
    }
}

/// Why the write claim was refused: some claim, read or write, is out.
#[derive(Debug)]
pub struct BorrowMutError {}

impl BorrowMutError {
    /// The message that goes with the refusal.
    pub fn to_string(&self) -> (message: String)
        ensures
            message@ == "Already borrowed"@,
    {
        String::from_str("Already borrowed")
    }
}

/// What a tracker in `state` shows of itself when its payload renders as
/// `rendered`: the payload inside a read claim, or a placeholder in its
/// stead while the write claim is out.
pub open spec fn description(state: State, rendered: Seq<char>) -> Seq<char> {
    if state is HasWriter {
        "RefCell { value: <borrowed> }"@
    } else {
        "RefCell { value: Ref { value: "@ + rendered + " } }"@
    }
}

/// Writes out `description(state, rendered)`.
pub fn describe(state: State, rendered: &str) -> (text: String)
    ensures
        text@ == description(state, rendered@),
{
    match state {
        State::HasWriter => String::from_str("RefCell { value: <borrowed> }"),
        _ => {
            let mut text = String::from_str("RefCell { value: Ref { value: ");
            text.append(rendered);
            text.append(" } }");
            text
        },
    }
}

/// Calls `format!` with `{:?}` on `value`. Nothing is claimed of the text
/// that comes back: it is whatever the `Debug` implementation of `T` writes.
#[verifier::external_body]
fn debug_text<T: Debug>(value: &T) -> (text: String) {
    format!("{:?}", value)
}

/// The checked container: a payload together with the count of the claims
/// that are out on it.
///
/// The view of a tracker is its payload; `state` is its bookkeeping and
/// `id` tells it from every other tracker.
pub struct RefCell<T> {
    value: UnsafeCell<T>,
    state: Cell<State>,
    id: Ghost<int>,
}

impl<T> View for RefCell<T> {
    type V = T;

    closed spec fn view(&self) -> T {
        self.value@
    }
}

impl<T> RefCell<T> {
    /// The bookkeeping never shows a reader count of zero.
    #[verifier::type_invariant]
    spec fn inv(&self) -> bool {
        self.state@.wf()
    }

    /// What `state` reads: the tracker's bookkeeping.
    pub closed spec fn spec_state(&self) -> State {
        self.state@
    }

    /// The identity that the tracker's guards carry. Nothing is known of
    /// it but that the tracker keeps it for life, so a guard can be shown
    /// to belong only to the tracker that issued it.
    pub closed spec fn id(&self) -> int {
        self.id@
    }

    /// A tracker that holds `value`, with nothing lent out.
    pub fn new(value: T) -> (cell: Self)
        ensures
            cell@ == value,
            cell.state() == State::Unused,
    {
        Self {
            value: UnsafeCell::new(value),
            state: Cell::new(State::Unused),
            id: Ghost(arbitrary()),
        }
    }

    /// Unwraps the tracker, giving back its payload. This is for a tracker
    /// with nothing lent out: a claim that is still live would be left
    /// without the tracker it is on.
    pub fn into_inner(self) -> (value: T)
        requires
            self.state() is Unused,
        ensures
            value == self@,
    {
        self.value.into_inner()
    }

    /// What is lent out at the moment. A reader count, where there is
    /// one, is never zero.
    #[verifier::when_used_as_spec(spec_state)]
    pub fn state(&self) -> (state: State)
        ensures
            state == self.spec_state(),
            state.wf(),
    {
        proof {
            use_type_invariant(self);
        }
        self.state.get()
    }

    /// A read claim on the payload, or the reason there is none.
    pub fn try_borrow(&mut self) -> (result: Result<Ref, BorrowError>)
        requires
            old(self).state().readers() < usize::MAX,
        ensures
            final(self)@ == old(self)@,
            final(self).id() == old(self).id(),
            old(self).state().admits_reader() ==> {
                &&& result is Ok
                &&& result->Ok_0.issuer() == old(self).id()
                &&& final(self).state() == old(self).state().add_reader()
            },
            !old(self).state().admits_reader() ==> {
                &&& result is Err
                &&& final(self).state() == old(self).state()
            },
    {
        if self.state.get().admits_reader() {
            Ok(Ref::new(self))
        } else {
            Err(BorrowError {  })
        }
    }

    /// A read claim on the payload, for callers who know that the write
    /// claim is not out.
    pub fn borrow(&mut self) -> (guard: Ref)
        requires
            old(self).state().admits_reader(),
            old(self).state().readers() < usize::MAX,
        ensures
            guard.issuer() == old(self).id(),
            final(self).state() == old(self).state().add_reader(),
            final(self)@ == old(self)@,
            final(self).id() == old(self).id(),
    {
        self.try_borrow().expect("Value borrowed mutably, can't borrow.")
    }

    /// The write claim on the payload, or the reason there is none.
    pub fn try_borrow_mut(&mut self) -> (result: Result<RefMut, BorrowMutError>)
        ensures
            final(self)@ == old(self)@,
            final(self).id() == old(self).id(),
            old(self).state().admits_writer() ==> {
                &&& result is Ok
                &&& result->Ok_0.issuer() == old(self).id()
                &&& final(self).state() == old(self).state().add_writer()
            },
            !old(self).state().admits_writer() ==> {
                &&& result is Err
                &&& final(self).state() == old(self).state()
            },
    {
        if self.state.get().admits_writer() {
            Ok(RefMut::new(self))
        } else {
            Err(BorrowMutError {  })
        }
    }

    /// The write claim on the payload, for callers who know that nothing
    /// is lent out.
    pub fn borrow_mut(&mut self) -> (guard: RefMut)
        requires
            old(self).state().admits_writer(),
        ensures
            guard.issuer() == old(self).id(),
            final(self).state() == old(self).state().add_writer(),
            final(self)@ == old(self)@,
            final(self).id() == old(self).id(),
    {
        self.try_borrow_mut().expect("Value already borrowed")
    }

    /// The tracker as text, for diagnostics. While the write claim is out
    /// the payload is not looked at and a placeholder stands in its place;
    /// otherwise the payload is rendered by its `Debug` implementation.
    pub fn fmt(&self) -> (text: String) where T: Debug
        ensures
            self.state() is HasWriter ==> text@ == "RefCell { value: <borrowed> }"@,
            exists|rendered: Seq<char>| text@ == description(self.state(), rendered),
    {
        let state = self.state.get();
        match state {
            State::HasWriter => describe(state, ""),
            _ => {
                let rendered = debug_text(self.value.get());
                describe(state, rendered.as_str())
            },
        }
    }

    /// Replaces the bookkeeping; for the guards, which book and unbook
    /// themselves.
    pub(crate) fn set_state(&mut self, next: State)
        requires
            next.wf(),
        ensures
            final(self).state() == next,
            final(self)@ == old(self)@,
            final(self).id() == old(self).id(),
    {
        self.state.set(next);
    }

    /// The payload, for the guards to hand on.
    pub(crate) fn payload(&self) -> (value: &T)
        ensures
            *value == self@,
    {
        self.value.get()
    }

    /// The payload, for the write guard to hand on.
    pub(crate) fn payload_mut(&mut self) -> (value: &mut T)
        ensures
            *value == old(self)@,
            final(self)@ == *final(value),
            final(self).state() == old(self).state(),
            final(self).id() == old(self).id(),
    {
        proof {
            use_type_invariant(&*self);
        }
        self.value.get_mut()
    }
}

} // verus!
