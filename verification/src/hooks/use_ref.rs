//! Persisted slots: component-local payloads that survive re-renders.
//!
//! The host framework owns component instances and decides when one is
//! mounted, re-rendered and unmounted; it only reports those moments to this
//! layer. The binding layer's own obligation is the bookkeeping in between:
//! a payload is created on the instance's first render, the same payload is
//! handed back on every later render, and it is destroyed exactly once, when
//! the unmount notification arrives — never before, never twice.
//!
//! The payloads of all instances live in one [`SlotArena`], and a
//! [`RefContainer`] is the stable handle a component keeps across renders.
//! The whole lifecycle is also stated as a small state machine
//! ([`slot_step`]) over which [`lemma_destructor_exactly_once`] proves the
//! destruction discipline for every well-formed trace of events.

use core::marker::PhantomData;
use vstd::prelude::*;

use crate::boundary::BoundaryValue;

verus! {

/// The abstract state of one persisted slot: the live payload, if any, and
/// how many times the payload has been destroyed.
pub ghost struct SlotModel<T> {
    /// The payload, `Some` while it is live.
    pub value: Option<T>,
    /// How many times the payload's destructor has run.
    pub drops: nat,
}

impl<T> SlotModel<T> {
    /// Whether the payload is still live.
    pub open spec fn live(self) -> bool {
        self.value is Some
    }
}

/// The state of a freshly initialized slot.
pub open spec fn slot_fresh<T>(init: T) -> SlotModel<T> {
    SlotModel { value: Some(init), drops: 0 }
}

/// One lifecycle moment of a component instance, as it affects the
/// instance's persisted slot.
pub enum SlotEvent<T> {
    /// The host re-ran the instance's render function.
    Render,
    /// The component replaced the payload with a new value.
    SetCurrent(T),
    /// The host removed the instance from the tree.
    Unmount,
}

/// How one event changes a slot: renders keep the payload untouched,
/// `SetCurrent` replaces it, and `Unmount` destroys it — the one and only
/// transition that runs the destructor.
pub open spec fn slot_step<T>(s: SlotModel<T>, e: SlotEvent<T>) -> SlotModel<T> {
    match e {
        SlotEvent::Render => s,
        SlotEvent::SetCurrent(v) => SlotModel { value: Some(v), drops: s.drops },
        SlotEvent::Unmount => SlotModel { value: None, drops: s.drops + 1 },
    }
}

/// The host framework's side of the contract: it renders and mutates only
/// mounted instances and delivers the unmount notification while the
/// instance is still mounted (hence at most once).
pub open spec fn slot_event_allowed<T>(s: SlotModel<T>, e: SlotEvent<T>) -> bool {
    s.live()
}

/// Whether every event of `es` is allowed at the state it meets, starting
/// from `s`.
pub open spec fn slot_trace_valid<T>(s: SlotModel<T>, es: Seq<SlotEvent<T>>) -> bool
    decreases es.len(),
{
    es.len() == 0 || (slot_event_allowed(s, es[0]) && slot_trace_valid(
        slot_step(s, es[0]),
        es.drop_first(),
    ))
}

/// The state after running a whole trace of events.
pub open spec fn slot_run<T>(s: SlotModel<T>, es: Seq<SlotEvent<T>>) -> SlotModel<T>
    decreases es.len(),
{
    if es.len() == 0 {
        s
    } else {
        slot_run(slot_step(s, es[0]), es.drop_first())
    }
}

/// Whether the trace contains an unmount notification.
pub open spec fn trace_has_unmount<T>(es: Seq<SlotEvent<T>>) -> bool {
    exists|i: int| 0 <= i < es.len() && es[i] is Unmount
}

/// A persisted slot's destructor runs exactly once, and only after the
/// instance is unmounted: along every trace of renders, payload updates and
/// unmount notifications that respects the host framework's contract, the
/// destructor has run exactly once if the trace contains an unmount and not
/// at all otherwise — and the payload is live exactly as long as no unmount
/// has arrived.
pub proof fn lemma_destructor_exactly_once<T>(init: T, es: Seq<SlotEvent<T>>)
    requires
        slot_trace_valid(slot_fresh(init), es),
    ensures
        slot_run(slot_fresh(init), es).drops == if trace_has_unmount(es) { 1nat } else { 0nat },
        slot_run(slot_fresh(init), es).live() <==> !trace_has_unmount(es),
{
    lemma_slot_run_drops(slot_fresh(init), es);
}

/// The inductive core of [`lemma_destructor_exactly_once`], stated for any
/// live starting state with no destruction yet.
proof fn lemma_slot_run_drops<T>(s: SlotModel<T>, es: Seq<SlotEvent<T>>)
    requires
        slot_trace_valid(s, es),
        s.live(),
        s.drops == 0,
    ensures
        slot_run(s, es).drops == if trace_has_unmount(es) { 1nat } else { 0nat },
        slot_run(s, es).live() <==> !trace_has_unmount(es),
    decreases es.len(),
{
    if es.len() > 0 {
        let s1 = slot_step(s, es[0]);
        match es[0] {
            SlotEvent::Unmount => {
                lemma_dead_slot_stays_dead(s1, es.drop_first());
                assert(trace_has_unmount(es));
            },
            _ => {
                lemma_slot_run_drops(s1, es.drop_first());
                assert(trace_has_unmount(es.drop_first()) ==> trace_has_unmount(es)) by {
                    if trace_has_unmount(es.drop_first()) {
                        let i = choose|i: int|
                            0 <= i < es.drop_first().len() && es.drop_first()[i] is Unmount;
                        assert(es[i + 1] is Unmount);
                    }
                }
                assert(trace_has_unmount(es) ==> trace_has_unmount(es.drop_first())) by {
                    if trace_has_unmount(es) {
                        let i = choose|i: int| 0 <= i < es.len() && es[i] is Unmount;
                        assert(i != 0);
                        assert(es.drop_first()[i - 1] is Unmount);
                    }
                }
            },
        }
    }
}

/// Once the payload is destroyed, no valid trace can follow: a dead slot
/// accepts no further event, so its state — one destruction, no payload —
/// is final.
proof fn lemma_dead_slot_stays_dead<T>(s: SlotModel<T>, es: Seq<SlotEvent<T>>)
    requires
        slot_trace_valid(s, es),
        !s.live(),
    ensures
        es.len() == 0,
        slot_run(s, es) == s,
{
}

/// One persisted slot of the arena.
struct Slot<T> {
    value: Option<T>,
    drop_count: u64,
}

impl<T> Slot<T> {
    /// The abstract state of this slot.
    spec fn model(&self) -> SlotModel<T> {
        SlotModel { value: self.value, drops: self.drop_count as nat }
    }

    /// A slot never records more than one destruction, and records one
    /// exactly when its payload is gone.
    spec fn wf(&self) -> bool {
        &&& self.drop_count <= 1
        &&& (self.value is Some <==> self.drop_count == 0)
    }
}

/// The arena holding every component instance's persisted payload of type
/// `T`, keyed by a stable index that never moves for the life of the
/// instance.
pub struct SlotArena<T> {
    slots: Vec<Slot<T>>,
}

/// The stable handle to one persisted slot. A component receives it on its
/// first render and presents it again on every later render; the index it
/// carries never changes.
pub struct RefContainer<T> {
    slot: usize,
    marker: PhantomData<T>,
}

impl<T> Clone for RefContainer<T> {
    /// The copy addresses the same slot.
    fn clone(&self) -> (r: Self)
        ensures
            r == *self,
    {
        RefContainer { slot: self.slot, marker: PhantomData }
    }
}

impl<T> RefContainer<T> {
    /// The index of the slot this handle addresses.
    pub closed spec fn id(&self) -> int {
        self.slot as int
    }

    /// Whether this handle addresses a slot of the arena.
    pub open spec fn valid_for(&self, arena: &SlotArena<T>) -> bool {
        0 <= self.id() < arena.len()
    }

    /// Returns a reference to the underlying payload.
    pub fn current<'a>(&self, arena: &'a SlotArena<T>) -> (r: &'a T)
        requires
            arena.wf(),
            self.valid_for(arena),
            arena.model_at(self.id()).live(),
        ensures
            *r == arena.model_at(self.id()).value->0,
    {
        arena.slots[self.slot].value.as_ref().unwrap()
    }

    /// Sets the underlying payload to the given value. The payload stays
    /// live; nothing is destroyed and no other slot is touched.
    pub fn set_current(&self, arena: &mut SlotArena<T>, value: T)
        requires
            old(arena).wf(),
            self.valid_for(old(arena)),
            old(arena).model_at(self.id()).live(),
        ensures
            final(arena).wf(),
            final(arena).len() == old(arena).len(),
            final(arena).model_at(self.id()) == slot_step(
                old(arena).model_at(self.id()),
                SlotEvent::SetCurrent(value),
            ),
            forall|j: int|
                0 <= j < old(arena).len() && j != self.id() ==> final(arena).model_at(j) == old(
                    arena,
                ).model_at(j),
    {
        let slot = &mut arena.slots[self.slot];
        slot.value = Some(value);
    }

    /// Replaces the payload with what `mutator` makes of it, in place: the
    /// new payload is the mutator's result for the old one. The payload
    /// stays live; nothing is destroyed and no other slot is touched.
    pub fn apply<F: FnOnce(T) -> T>(&self, arena: &mut SlotArena<T>, mutator: F)
        requires
            old(arena).wf(),
            self.valid_for(old(arena)),
            old(arena).model_at(self.id()).live(),
            call_requires(mutator, (old(arena).model_at(self.id()).value->0,)),
        ensures
            final(arena).wf(),
            final(arena).len() == old(arena).len(),
            final(arena).model_at(self.id()).live(),
            call_ensures(
                mutator,
                (old(arena).model_at(self.id()).value->0,),
                final(arena).model_at(self.id()).value->0,
            ),
            final(arena).model_at(self.id()) == slot_step(
                old(arena).model_at(self.id()),
                SlotEvent::SetCurrent(final(arena).model_at(self.id()).value->0),
            ),
            forall|j: int|
                0 <= j < old(arena).len() && j != self.id() ==> final(arena).model_at(j) == old(
                    arena,
                ).model_at(j),
    {
        let slot = &mut arena.slots[self.slot];
        let old_value = slot.value.take().unwrap();
        slot.value = Some(mutator(old_value));
    }
}

impl<T> SlotArena<T> {
    /// An arena with no slots yet.
    pub fn new() -> (arena: SlotArena<T>)
        ensures
            arena.wf(),
            arena.len() == 0,
    {
        SlotArena { slots: Vec::new() }
    }

    /// The number of slots ever created (destroyed slots keep their place,
    /// so indices stay stable).
    pub closed spec fn len(&self) -> int {
        self.slots.len() as int
    }

    /// The abstract state of the slot at `i`.
    pub closed spec fn model_at(&self, i: int) -> SlotModel<T> {
        self.slots[i].model()
    }

    /// Every slot of the arena obeys the destruction discipline.
    pub closed spec fn wf(&self) -> bool {
        forall|i: int| 0 <= i < self.slots.len() ==> (#[trigger] self.slots[i]).wf()
    }

    /// The number of slots, for callers driving the arena.
    pub fn slot_count(&self) -> (n: usize)
        ensures
            n == self.len(),
    {
        self.slots.len()
    }

    /// Whether the payload of the slot behind `handle` is still live.
    pub fn is_live(&self, handle: &RefContainer<T>) -> (r: bool)
        requires
            handle.valid_for(self),
        ensures
            r == self.model_at(handle.id()).live(),
    {
        self.slots[handle.slot].value.is_some()
    }

    /// How many times the payload of the slot behind `handle` has been
    /// destroyed.
    pub fn drop_count(&self, handle: &RefContainer<T>) -> (n: u64)
        requires
            handle.valid_for(self),
        ensures
            n as nat == self.model_at(handle.id()).drops,
    {
        self.slots[handle.slot].drop_count
    }

    /// Destroys the payload of the slot behind `handle`, handing it to the
    /// caller so a registered unmount handler can receive exclusive access
    /// immediately before it is dropped. The host framework promises to
    /// call this exactly once per instance, when the instance leaves the
    /// tree; a second call for the same slot would break the precondition,
    /// as the model requires.
    pub fn unmount(&mut self, handle: &RefContainer<T>) -> (payload: T)
        requires
            old(self).wf(),
            handle.valid_for(old(self)),
            old(self).model_at(handle.id()).live(),
        ensures
            final(self).wf(),
            final(self).len() == old(self).len(),
            payload == old(self).model_at(handle.id()).value->0,
            final(self).model_at(handle.id()) == slot_step(
                old(self).model_at(handle.id()),
                SlotEvent::Unmount::<T>,
            ),
            final(self).model_at(handle.id()).drops == 1,
            forall|j: int|
                0 <= j < old(self).len() && j != handle.id() ==> final(self).model_at(j) == old(
                    self,
                ).model_at(j),
    {
        let slot = &mut self.slots[handle.slot];
        let payload = slot.value.take().unwrap();
        slot.drop_count = slot.drop_count + 1;
        payload
    }
}

/// Persists `init` through the entire lifetime of a component instance.
///
/// On the instance's first render — when it has no handle yet — a new slot
/// is created, initialized with `init`. On every later render the instance
/// presents the handle it got back then, and the same slot is returned with
/// its payload untouched: `init` is discarded, exactly as the host
/// framework's own ref mechanism hands back the previously allocated
/// location.
pub fn use_ref<T>(arena: &mut SlotArena<T>, existing: Option<RefContainer<T>>, init: T) -> (r:
    RefContainer<T>)
    requires
        old(arena).wf(),
        match existing {
            Some(h) => h.valid_for(old(arena)) && old(arena).model_at(h.id()).live(),
            None => true,
        },
    ensures
        final(arena).wf(),
        r.valid_for(final(arena)),
        final(arena).model_at(r.id()).live(),
        match existing {
            Some(h) => {
                &&& r == h
                &&& *final(arena) == *old(arena)
            },
            None => {
                &&& r.id() == old(arena).len()
                &&& final(arena).len() == old(arena).len() + 1
                &&& final(arena).model_at(r.id()) == slot_fresh(init)
                &&& forall|j: int|
                    0 <= j < old(arena).len() ==> final(arena).model_at(j) == old(arena).model_at(
                        j,
                    )
            },
        },
{
    match existing {
        Some(handle) => handle,
        None => {
            let slot = arena.slots.len();
            arena.slots.push(Slot { value: Some(init), drop_count: 0 });
            RefContainer { slot, marker: PhantomData }
        },
    }
}

/// Delivers the unmount notification to a slot with a registered handler:
/// the handler receives exclusive access to the payload immediately before
/// the allocation is freed, and the slot is freed unconditionally — even a
/// handler that does nothing with the payload leaves the slot destroyed
/// exactly once.
pub fn unmount_with<T, F: FnOnce(T) -> ()>(
    arena: &mut SlotArena<T>,
    handle: &RefContainer<T>,
    handler: F,
)
    requires
        old(arena).wf(),
        handle.valid_for(old(arena)),
        old(arena).model_at(handle.id()).live(),
        call_requires(handler, (old(arena).model_at(handle.id()).value->0,)),
    ensures
        final(arena).wf(),
        final(arena).len() == old(arena).len(),
        final(arena).model_at(handle.id()) == slot_step(
            old(arena).model_at(handle.id()),
            SlotEvent::Unmount::<T>,
        ),
        final(arena).model_at(handle.id()).drops == 1,
        call_ensures(handler, (old(arena).model_at(handle.id()).value->0,), ()),
        forall|j: int|
            0 <= j < old(arena).len() && j != handle.id() ==> final(arena).model_at(j) == old(
                arena,
            ).model_at(j),
{
    let payload = arena.unmount(handle);
    handler(payload);
}

/// The slot behind a host-owned element reference: it holds the boundary
/// value the host runtime put there, or nothing before the host first sets
/// it.
pub struct JsRefContainer {
    handle: RefContainer<Option<BoundaryValue>>,
}

impl JsRefContainer {
    /// The underlying persisted-slot handle.
    pub closed spec fn id(&self) -> int {
        self.handle.id()
    }

    /// Whether this handle addresses a slot of the arena.
    pub open spec fn valid_for(&self, arena: &SlotArena<Option<BoundaryValue>>) -> bool {
        0 <= self.id() < arena.len()
    }

    /// Returns the host-runtime value currently referenced, or `None` while
    /// the host has not attached one.
    pub fn current<'a>(&self, arena: &'a SlotArena<Option<BoundaryValue>>) -> (r: &'a Option<
        BoundaryValue,
    >)
        requires
            arena.wf(),
            self.valid_for(arena),
            arena.model_at(self.id()).live(),
        ensures
            *r == arena.model_at(self.id()).value->0,
    {
        self.handle.current(arena)
    }

    /// Sets the referenced host-runtime value; `None` detaches it.
    pub fn set_current(&self, arena: &mut SlotArena<Option<BoundaryValue>>, value: Option<
        BoundaryValue,
    >)
        requires
            old(arena).wf(),
            self.valid_for(old(arena)),
            old(arena).model_at(self.id()).live(),
        ensures
            final(arena).wf(),
            final(arena).len() == old(arena).len(),
            final(arena).model_at(self.id()) == slot_step(
                old(arena).model_at(self.id()),
                SlotEvent::SetCurrent(value),
            ),
            forall|j: int|
                0 <= j < old(arena).len() && j != self.id() ==> final(arena).model_at(j) == old(
                    arena,
                ).model_at(j),
    {
        self.handle.set_current(arena, value)
    }
}

/// Persists a host-owned element reference through the lifetime of a
/// component instance, starting out as `init` on the first render.
pub fn use_js_ref(
    arena: &mut SlotArena<Option<BoundaryValue>>,
    existing: Option<JsRefContainer>,
    init: Option<BoundaryValue>,
) -> (r: JsRefContainer)
    requires
        old(arena).wf(),
        match existing {
            Some(h) => h.valid_for(old(arena)) && old(arena).model_at(h.id()).live(),
            None => true,
        },
    ensures
        final(arena).wf(),
        r.valid_for(final(arena)),
        final(arena).model_at(r.id()).live(),
        match existing {
            Some(h) => {
                &&& r.id() == h.id()
                &&& *final(arena) == *old(arena)
            },
            None => {
                &&& r.id() == old(arena).len()
                &&& final(arena).len() == old(arena).len() + 1
                &&& final(arena).model_at(r.id()) == slot_fresh(init)
                &&& forall|j: int|
                    0 <= j < old(arena).len() ==> final(arena).model_at(j) == old(arena).model_at(
                        j,
                    )
            },
        },
{
    match existing {
        Some(h) => h,
        None => JsRefContainer { handle: use_ref(arena, None, init) },
    }
}

} // verus!
