//! What holds of a tracker over its whole life: whatever is asked of it,
//! and in whatever order, its state is the exact count of the claims that
//! are live.
//!
//! A life is a sequence of events. Each event changes the state by the
//! same functions of `State` that the contracts of `RefCell`, `Ref` and
//! `RefMut` are written in, so what is proved here of histories holds of
//! every sequence of calls to them.

use vstd::prelude::*;

use crate::refs::State;

verus! {

/// One thing that can be asked of a tracker.
pub enum Event {
    /// A read claim is asked for, as by `RefCell::try_borrow`.
    Borrow,
    /// The write claim is asked for, as by `RefCell::try_borrow_mut`.
    BorrowMut,
    /// A read claim that is live is given back, as by `Ref::release`.
    ReleaseRef,
    /// The write claim, which is live, is given back, as by
    /// `RefMut::release`.
    ReleaseRefMut,
}

/// The claims that are live: granted and not yet given back.
pub struct Live {
    pub readers: nat,
    pub writers: nat,
}

/// Whether `event` can happen to a tracker in `state` with the claims in
/// `live` outstanding. A claim can be given back only while it is live, and
/// a reader count has to fit its integer.
pub open spec fn enabled(state: State, live: Live, event: Event) -> bool {
    match event {
        Event::Borrow => state.readers() < usize::MAX,
        Event::BorrowMut => true,
        Event::ReleaseRef => live.readers >= 1,
        Event::ReleaseRefMut => live.writers >= 1,
    }
}

/// The tracker's state and the live claims after `event`. A request that
/// the tracker refuses changes neither.
pub open spec fn step(state: State, live: Live, event: Event) -> (State, Live) {
    match event {
        Event::Borrow => if state.admits_reader() {
            (state.add_reader(), Live { readers: live.readers + 1, writers: live.writers })
        } else {
            (state, live)
        },
        Event::BorrowMut => if state.admits_writer() {
            (state.add_writer(), Live { readers: live.readers, writers: live.writers + 1 })
        } else {
            (state, live)
        },
        Event::ReleaseRef => (
            state.remove_reader(),
            Live { readers: (live.readers - 1) as nat, writers: live.writers },
        ),
        Event::ReleaseRefMut => (
            state.remove_writer(),
            Live { readers: live.readers, writers: (live.writers - 1) as nat },
        ),
    }
}

/// Where a fresh tracker stands after `events`, in order.
pub open spec fn run(events: Seq<Event>) -> (State, Live)
    decreases events.len(),
{
    if events.len() == 0 {
        (State::Unused, Live { readers: 0, writers: 0 })
    } else {
        let before = run(events.drop_last());
        step(before.0, before.1, events.last())
    }
}

/// Whether `events` can happen in that order to a fresh tracker.
pub open spec fn possible(events: Seq<Event>) -> bool
    decreases events.len(),
{
    events.len() == 0 || {
        let before = run(events.drop_last());
        possible(events.drop_last()) && enabled(before.0, before.1, events.last())
    }
}

/// Whether `state` is the exact account of the claims in `live`.
pub open spec fn accounts_for(state: State, live: Live) -> bool {
    &&& forall|n: usize| state == State::HasReaders(n) <==> live.readers == n && n >= 1
    &&& state is HasWriter <==> live.writers == 1
    &&& state is Unused <==> live.readers == 0 && live.writers == 0
}

/// A step that can happen keeps the account exact, and keeps readers and
/// the writer apart.
pub proof fn lemma_step_keeps_account(state: State, live: Live, event: Event)
    requires
        accounts_for(state, live),
        live.readers == 0 || live.writers == 0,
        live.writers <= 1,
        enabled(state, live, event),
    ensures
        accounts_for(step(state, live, event).0, step(state, live, event).1),
        step(state, live, event).1.readers == 0 || step(state, live, event).1.writers == 0,
        step(state, live, event).1.writers <= 1,
{
    assert(state is HasReaders ==> state == State::HasReaders(state->HasReaders_0));
}

/// After every history that can happen, the state is `HasReaders(n)` if and
/// only if exactly `n` read claims are live, `HasWriter` if and only if
/// exactly one write claim is live, and `Unused` if and only if no claim
/// is live. Read claims and the write claim are never live together, and
/// at most one write claim is live.
pub proof fn lemma_state_counts_live_claims(events: Seq<Event>)
    requires
        possible(events),
    ensures
        accounts_for(run(events).0, run(events).1),
        run(events).0.wf(),
        run(events).0.readers() == run(events).1.readers,
        run(events).0.writers() == run(events).1.writers,
        run(events).1.readers == 0 || run(events).1.writers == 0,
        run(events).1.writers <= 1,
    decreases events.len(),
{
    if events.len() > 0 {
        lemma_state_counts_live_claims(events.drop_last());
        let before = run(events.drop_last());
        lemma_step_keeps_account(before.0, before.1, events.last());
    }
}

/// Giving a read claim back undoes the granting of it.
pub proof fn lemma_release_undoes_borrow(state: State)
    requires
        state.wf(),
        state.admits_reader(),
        state.readers() < usize::MAX,
    ensures
        state.add_reader().remove_reader() == state,
{
}

/// Giving the write claim back undoes the granting of it.
pub proof fn lemma_release_undoes_borrow_mut(state: State)
    requires
        state.admits_writer(),
    ensures
        state.add_writer().remove_writer() == state,
{
}

} // verus!
