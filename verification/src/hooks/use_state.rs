//! Component state with a re-render trigger.
//!
//! A [`UseState`] pairs a persisted slot with the capability to ask the host
//! framework for another reconciliation pass. [`UseState::update`] applies a
//! mutator to the current value immediately — in call order, never deferred
//! — and then only queues a re-render request; the host coalesces and serves
//! those requests at its own pace, which is why the queue records how many
//! are pending instead of performing anything.

use vstd::prelude::*;

use super::use_ref::RefContainer;
use super::use_ref::SlotArena;
use super::use_ref::SlotEvent;
use super::use_ref::slot_fresh;
use super::use_ref::slot_step;
use super::use_ref::use_ref;

verus! {

/// The re-render requests a component has queued with the host framework
/// and the host has not served yet.
pub struct RerenderQueue {
    pending: u64,
}

impl RerenderQueue {
    /// A queue with nothing pending.
    pub fn new() -> (q: RerenderQueue)
        ensures
            q.pending() == 0,
    {
        RerenderQueue { pending: 0 }
    }

    /// How many re-render requests are pending.
    pub closed spec fn pending(&self) -> int {
        self.pending as int
    }

    /// How many re-render requests are pending, for the host's driver.
    pub fn pending_count(&self) -> (n: u64)
        ensures
            n == self.pending(),
    {
        self.pending
    }

    /// Queues one more re-render request; nothing is performed
    /// synchronously.
    pub fn schedule(&mut self)
        requires
            old(self).pending() < u64::MAX,
        ensures
            final(self).pending() == old(self).pending() + 1,
    {
        self.pending = self.pending + 1;
    }

    /// The host framework takes every pending request in one reconciliation
    /// pass.
    pub fn drain(&mut self) -> (served: u64)
        ensures
            final(self).pending() == 0,
            served == old(self).pending(),
    {
        let served = self.pending;
        self.pending = 0;
        served
    }
}

/// A handle to state persisted across renders, whose updates request a
/// re-render from the host framework.
pub struct UseState<T> {
    handle: RefContainer<T>,
}

impl<T> Clone for UseState<T> {
    /// The copy addresses the same state slot.
    fn clone(&self) -> (r: Self)
        ensures
            r.id() == self.id(),
    {
        UseState { handle: self.handle.clone() }
    }
}

impl<T> UseState<T> {
    /// The index of the slot holding the state.
    pub closed spec fn id(&self) -> int {
        self.handle.id()
    }

    /// Whether this handle addresses a slot of the arena.
    pub open spec fn valid_for(&self, arena: &SlotArena<T>) -> bool {
        0 <= self.id() < arena.len()
    }

    /// The persisted-slot handle behind this state; the host's render driver
    /// uses it to deliver the instance's unmount notification to the slot.
    pub fn handle(&self) -> (r: RefContainer<T>)
        ensures
            r.id() == self.id(),
    {
        self.handle.clone()
    }

    /// Returns a reference to the current state value.
    pub fn current<'a>(&self, arena: &'a SlotArena<T>) -> (r: &'a T)
        requires
            arena.wf(),
            self.valid_for(arena),
            arena.model_at(self.id()).live(),
        ensures
            *r == arena.model_at(self.id()).value->0,
    {
        self.handle.current(arena)
    }

    /// Applies `mutator` to the current value immediately, then queues one
    /// re-render request. The new value is what the mutator returned for the
    /// old one — updates within one render take effect at once and in call
    /// order, with nothing batched at this layer — and the destruction count
    /// and every other slot stay untouched.
    pub fn update<F: FnOnce(T) -> T>(
        &self,
        arena: &mut SlotArena<T>,
        queue: &mut RerenderQueue,
        mutator: F,
    )
        requires
            old(arena).wf(),
            self.valid_for(old(arena)),
            old(arena).model_at(self.id()).live(),
            call_requires(mutator, (old(arena).model_at(self.id()).value->0,)),
            old(queue).pending() < u64::MAX,
        ensures
            final(arena).wf(),
            final(arena).len() == old(arena).len(),
            final(arena).model_at(self.id()).live(),
            call_ensures(
                mutator,
                (old(arena).model_at(self.id()).value->0,),
                final(arena).model_at(self.id()).value->0,
            ),
            final(arena).model_at(self.id()) == slot_step(
                old(arena).model_at(self.id()),
                SlotEvent::SetCurrent(final(arena).model_at(self.id()).value->0),
            ),
            forall|j: int|
                0 <= j < old(arena).len() && j != self.id() ==> final(arena).model_at(j) == old(
                    arena,
                ).model_at(j),
            final(queue).pending() == old(queue).pending() + 1,
    {
        self.handle.apply(arena, mutator);
        queue.schedule();
    }
}

/// Persists component state through the lifetime of a component instance.
///
/// On the first render — when the instance has no handle yet — the state is
/// initialized from `init`; on every later render the same slot comes back
/// untouched and `init` is not invoked.
pub fn use_state<T, F: FnOnce() -> T>(
    arena: &mut SlotArena<T>,
    existing: Option<UseState<T>>,
    init: F,
) -> (r: UseState<T>)
    requires
        old(arena).wf(),
        match existing {
            Some(h) => h.valid_for(old(arena)) && old(arena).model_at(h.id()).live(),
            None => call_requires(init, ()),
        },
    ensures
        final(arena).wf(),
        r.valid_for(final(arena)),
        final(arena).model_at(r.id()).live(),
        match existing {
            Some(h) => {
                &&& r.id() == h.id()
                &&& *final(arena) == *old(arena)
            },
            None => {
                &&& r.id() == old(arena).len()
                &&& final(arena).len() == old(arena).len() + 1
                &&& call_ensures(init, (), final(arena).model_at(r.id()).value->0)
                &&& final(arena).model_at(r.id()) == slot_fresh(
                    final(arena).model_at(r.id()).value->0,
                )
                &&& forall|j: int|
                    0 <= j < old(arena).len() ==> final(arena).model_at(j) == old(arena).model_at(
                        j,
                    )
            },
        },
{
    match existing {
        Some(h) => h,
        None => {
            let value = init();
            UseState { handle: use_ref(arena, None, value) }
        },
    }
}

/// The value visible after a sequence of updates: the left-to-right fold of
/// the mutators over the starting value.
pub open spec fn fold_updates<T>(v0: T, mutators: Seq<spec_fn(T) -> T>) -> T
    decreases mutators.len(),
{
    if mutators.len() == 0 {
        v0
    } else {
        fold_updates(mutators[0](v0), mutators.drop_first())
    }
}

/// Updates apply immediately and in call order: one more update sees exactly
/// the value left by the updates before it, so the visible value after a
/// render is the left-to-right fold of its mutators over the initial value.
pub proof fn lemma_updates_apply_in_order<T>(
    v0: T,
    mutators: Seq<spec_fn(T) -> T>,
    next: spec_fn(T) -> T,
)
    ensures
        fold_updates(v0, mutators.push(next)) == next(fold_updates(v0, mutators)),
    decreases mutators.len(),
{
    let pushed = mutators.push(next);
    if mutators.len() == 0 {
        assert(pushed[0] == next);
        assert(pushed.drop_first() =~= Seq::<spec_fn(T) -> T>::empty());
        assert(fold_updates(v0, pushed) == fold_updates(next(v0), pushed.drop_first()));
        assert(fold_updates(next(v0), pushed.drop_first()) == next(v0));
        assert(fold_updates(v0, mutators) == v0);
    } else {
        assert(pushed[0] == mutators[0]);
        assert(pushed.drop_first() =~= mutators.drop_first().push(next));
        lemma_updates_apply_in_order(mutators[0](v0), mutators.drop_first(), next);
        assert(fold_updates(v0, pushed) == fold_updates(mutators[0](v0), pushed.drop_first()));
        assert(fold_updates(v0, mutators) == fold_updates(mutators[0](v0), mutators.drop_first()));
    }
}

/// The two-update instance of the ordering law, spelled out: after updating
/// with `first` and then `second`, the visible value is `second` applied to
/// what `first` made of the initial value — not the other way around, and
/// not either mutator alone.
pub proof fn lemma_two_updates_compose<T>(v0: T, first: spec_fn(T) -> T, second: spec_fn(T) -> T)
    ensures
        fold_updates(v0, seq![first, second]) == second(first(v0)),
{
    let one = seq![first];
    assert(one.push(second) =~= seq![first, second]);
    lemma_updates_apply_in_order(v0, one, second);
    lemma_updates_apply_in_order(v0, Seq::empty(), first);
    assert(Seq::<spec_fn(T) -> T>::empty().push(first) =~= one);
}

} // verus!
