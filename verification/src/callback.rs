//! Marshalled closures: function values the host runtime may invoke.
//!
//! A [`Callback`] owns a closure and hands the host runtime the right to
//! call it — repeatedly for a callback made with [`Callback::new`], exactly
//! once for one made with [`Callback::once`]. The host's side of the
//! arrangement is a table of registered callables; [`ClosureRegistry`]
//! models that table, and the closure's owner unregisters it there when the
//! callback is dropped, so a dropped callback is permanently uncallable
//! rather than merely dormant. The closure's captured payload is disposed of
//! exactly once: at the single invocation for the call-once variant, at drop
//! time otherwise — [`lemma_closure_disposed_exactly_once`] proves both.

use vstd::prelude::*;

verus! {

/// A stand-in argument for a callback that takes no input of interest.
#[derive(Debug, Default, PartialEq, Eq, Structural, Clone, Copy)]
pub struct Void;

/// A trait for callable values with one input argument and a result.
pub trait Callable<T, U> {
    /// When the value may be called with `arg`.
    spec fn callable(&self, arg: T) -> bool;

    /// What holds of the result of calling the value on `arg`.
    spec fn call_post(&self, arg: T, r: U) -> bool;

    /// Calls the value with the given input argument.
    fn call(&self, arg: T) -> (r: U)
        requires
            self.callable(arg),
        ensures
            self.call_post(arg, r),
    ;
}

impl<T, U, F: Fn(T) -> U> Callable<T, U> for F {
    open spec fn callable(&self, arg: T) -> bool {
        call_requires(*self, (arg,))
    }

    open spec fn call_post(&self, arg: T, r: U) -> bool {
        call_ensures(*self, (arg,), r)
    }

    fn call(&self, arg: T) -> (r: U) {
        self(arg)
    }
}

impl<T, U: Default, F: Callable<T, U>> Callable<T, U> for Option<F> {
    open spec fn callable(&self, arg: T) -> bool {
        match self {
            Some(f) => f.callable(arg),
            None => true,
        }
    }

    open spec fn call_post(&self, arg: T, r: U) -> bool {
        match self {
            Some(f) => f.call_post(arg, r),
            None => true,
        }
    }

    /// An absent callback is handled gracefully: calling it is a no-op
    /// yielding the default value.
    fn call(&self, arg: T) -> (r: U) {
        match self {
            Some(f) => f.call(arg),
            None => U::default(),
        }
    }
}

/// Whether a marshalled closure may be invoked any number of times or
/// exactly once.
#[derive(Debug, PartialEq, Eq, Structural, Clone, Copy)]
pub enum ClosureKind {
    /// The host runtime may invoke it an unbounded number of times.
    Repeatable,
    /// The host runtime promises to invoke it exactly one time.
    CallOnce,
}

/// The abstract state of one closure in the host runtime's callable table.
pub ghost struct ClosureModel {
    /// Which invocation discipline the closure was registered with.
    pub kind: ClosureKind,
    /// Whether a call-once closure has had its one invocation.
    pub consumed: bool,
    /// Whether the owning side has dropped the closure.
    pub dropped: bool,
    /// How many times the closure's captured payload has been disposed of.
    pub disposals: nat,
}

/// The state of a freshly registered closure.
pub open spec fn closure_fresh(kind: ClosureKind) -> ClosureModel {
    ClosureModel { kind, consumed: false, dropped: false, disposals: 0 }
}

/// Whether the host runtime can still invoke the closure: not after its
/// owner dropped it, and not after a call-once closure's single invocation.
pub open spec fn closure_can_invoke(m: ClosureModel) -> bool {
    !m.dropped && !(m.kind is CallOnce && m.consumed)
}

/// One moment in a registered closure's life.
pub enum ClosureEvent {
    /// The host runtime invoked the closure.
    Invoke,
    /// The owning side dropped its callback, unregistering the closure.
    Drop,
}

/// How one event changes a closure's state. A call-once invocation consumes
/// the closure and disposes of its payload; dropping unregisters the
/// closure and disposes of the payload unless the single invocation already
/// did.
pub open spec fn closure_step(m: ClosureModel, e: ClosureEvent) -> ClosureModel {
    match e {
        ClosureEvent::Invoke => if m.kind is CallOnce {
            ClosureModel { consumed: true, disposals: m.disposals + 1, ..m }
        } else {
            m
        },
        ClosureEvent::Drop => ClosureModel {
            dropped: true,
            disposals: if m.kind is CallOnce && m.consumed {
                m.disposals
            } else {
                m.disposals + 1
            },
            ..m
        },
    }
}

/// Which events each side may produce: the host invokes only closures that
/// are still callable, and the owner drops a callback only once.
pub open spec fn closure_event_allowed(m: ClosureModel, e: ClosureEvent) -> bool {
    match e {
        ClosureEvent::Invoke => closure_can_invoke(m),
        ClosureEvent::Drop => !m.dropped,
    }
}

/// Whether every event of `es` is allowed at the state it meets, starting
/// from `m`.
pub open spec fn closure_trace_valid(m: ClosureModel, es: Seq<ClosureEvent>) -> bool
    decreases es.len(),
{
    es.len() == 0 || (closure_event_allowed(m, es[0]) && closure_trace_valid(
        closure_step(m, es[0]),
        es.drop_first(),
    ))
}

/// The state after running a whole trace of events.
pub open spec fn closure_run(m: ClosureModel, es: Seq<ClosureEvent>) -> ClosureModel
    decreases es.len(),
{
    if es.len() == 0 {
        m
    } else {
        closure_run(closure_step(m, es[0]), es.drop_first())
    }
}

/// Whether the trace contains the owner's drop.
pub open spec fn trace_has_drop(es: Seq<ClosureEvent>) -> bool {
    exists|i: int| 0 <= i < es.len() && es[i] is Drop
}

/// A closure's captured payload is disposed of exactly once, and a dropped
/// closure is permanently uncallable: along every valid trace of
/// invocations and at most one drop, the payload has been disposed of
/// exactly once as soon as the closure was either consumed (call-once) or
/// dropped, never more than once — in particular, a call-once callback that
/// is invoked once and one that is dropped uninvoked both end with one
/// disposal, not zero and not two — and once the drop has happened nothing
/// can be invoked any more.
pub proof fn lemma_closure_disposed_exactly_once(kind: ClosureKind, es: Seq<ClosureEvent>)
    requires
        closure_trace_valid(closure_fresh(kind), es),
    ensures
        closure_run(closure_fresh(kind), es).disposals <= 1,
        trace_has_drop(es) ==> closure_run(closure_fresh(kind), es).disposals == 1,
        trace_has_drop(es) ==> !closure_can_invoke(closure_run(closure_fresh(kind), es)),
        closure_run(closure_fresh(kind), es).dropped == trace_has_drop(es),
{
    lemma_closure_run_shape(closure_fresh(kind), es);
}

/// Each closure state reached from fresh keeps its books straight: the
/// disposal count is one exactly when the payload is gone — consumed by the
/// single call or unregistered by the drop — and zero before.
pub open spec fn closure_wf(m: ClosureModel) -> bool {
    &&& m.disposals == if (m.kind is CallOnce && m.consumed) || m.dropped {
        1nat
    } else {
        0nat
    }
    &&& (m.consumed ==> m.kind is CallOnce)
}

struct ClosureEntry {
    kind: ClosureKind,
    consumed: bool,
    dropped: bool,
    disposals: u64,
}

/// The key of one closure in the host runtime's callable table.
#[derive(Debug, PartialEq, Eq, Structural, Clone, Copy)]
pub struct CallbackId {
    idx: usize,
}

impl CallbackId {
    /// The index of the table entry this key addresses.
    pub closed spec fn id(&self) -> int {
        self.idx as int
    }

    /// Whether this key addresses an entry of the registry.
    pub open spec fn valid_for(&self, reg: &ClosureRegistry) -> bool {
        0 <= self.id() < reg.len()
    }
}

/// The host runtime's table of callables, as the binding layer keeps its
/// books on it: which closures are registered, which may still be invoked,
/// and whose captured payload has been disposed of. Entries are never
/// removed, so a dropped closure stays on record as permanently uncallable.
pub struct ClosureRegistry {
    entries: Vec<ClosureEntry>,
}

impl ClosureRegistry {
    /// A table with no closures registered.
    pub fn new() -> (reg: ClosureRegistry)
        ensures
            reg.len() == 0,
            reg.wf(),
    {
        ClosureRegistry { entries: Vec::new() }
    }

    /// The number of closures ever registered.
    pub closed spec fn len(&self) -> int {
        self.entries.len() as int
    }

    /// The abstract state of the closure at `i`.
    pub closed spec fn model_at(&self, i: int) -> ClosureModel {
        ClosureModel {
            kind: self.entries[i].kind,
            consumed: self.entries[i].consumed,
            dropped: self.entries[i].dropped,
            disposals: self.entries[i].disposals as nat,
        }
    }

    /// Every entry keeps its books straight.
    pub closed spec fn wf(&self) -> bool {
        forall|i: int| 0 <= i < self.len() ==> closure_wf(#[trigger] self.model_at(i))
    }

    /// Registers a new closure under the given invocation discipline.
    pub fn register(&mut self, kind: ClosureKind) -> (id: CallbackId)
        requires
            old(self).wf(),
        ensures
            final(self).wf(),
            final(self).len() == old(self).len() + 1,
            id.id() == old(self).len(),
            final(self).model_at(id.id()) == closure_fresh(kind),
            forall|j: int|
                0 <= j < old(self).len() ==> final(self).model_at(j) == old(self).model_at(j),
    {
        let idx = self.entries.len();
        self.entries.push(
            ClosureEntry { kind, consumed: false, dropped: false, disposals: 0 },
        );
        proof {
            assert forall|i: int| 0 <= i < self.len() implies closure_wf(
                #[trigger] self.model_at(i),
            ) by {
                if i < old(self).len() {
                    assert(self.model_at(i) == old(self).model_at(i));
                } else {
                    assert(self.model_at(i) == closure_fresh(kind));
                }
            }
        }
        CallbackId { idx }
    }

    /// Whether the host runtime can still invoke the closure.
    pub fn can_invoke(&self, id: CallbackId) -> (r: bool)
        requires
            id.valid_for(self),
        ensures
            r == closure_can_invoke(self.model_at(id.id())),
    {
        let entry = &self.entries[id.idx];
        !entry.dropped && !(matches!(entry.kind, ClosureKind::CallOnce) && entry.consumed)
    }

    /// Records one invocation by the host runtime: a call-once closure is
    /// consumed — its payload disposed of by the call itself — while a
    /// repeatable one is unchanged.
    pub fn invoke(&mut self, id: CallbackId)
        requires
            old(self).wf(),
            id.valid_for(old(self)),
            closure_can_invoke(old(self).model_at(id.id())),
        ensures
            final(self).wf(),
            final(self).len() == old(self).len(),
            final(self).model_at(id.id()) == closure_step(
                old(self).model_at(id.id()),
                ClosureEvent::Invoke,
            ),
            forall|j: int|
                0 <= j < old(self).len() && j != id.id() ==> final(self).model_at(j) == old(
                    self,
                ).model_at(j),
    {
        let entry = &mut self.entries[id.idx];
        if matches!(entry.kind, ClosureKind::CallOnce) {
            entry.consumed = true;
            entry.disposals = entry.disposals + 1;
        }
        proof {
            assert forall|i: int| 0 <= i < self.len() implies closure_wf(
                #[trigger] self.model_at(i),
            ) by {
                if i != id.id() {
                    assert(self.model_at(i) == old(self).model_at(i));
                }
            }
        }
    }

    /// Records that the owning side dropped its callback: the closure is
    /// unregistered — permanently uncallable from the host runtime — and its
    /// payload is disposed of now unless the one permitted invocation
    /// already disposed of it.
    pub fn unregister(&mut self, id: CallbackId)
        requires
            old(self).wf(),
            id.valid_for(old(self)),
            !old(self).model_at(id.id()).dropped,
        ensures
            final(self).wf(),
            final(self).len() == old(self).len(),
            final(self).model_at(id.id()) == closure_step(
                old(self).model_at(id.id()),
                ClosureEvent::Drop,
            ),
            !closure_can_invoke(final(self).model_at(id.id())),
            final(self).model_at(id.id()).disposals == 1,
            forall|j: int|
                0 <= j < old(self).len() && j != id.id() ==> final(self).model_at(j) == old(
                    self,
                ).model_at(j),
    {
        let entry = &mut self.entries[id.idx];
        entry.dropped = true;
        if !(matches!(entry.kind, ClosureKind::CallOnce) && entry.consumed) {
            entry.disposals = entry.disposals + 1;
        }
        proof {
            assert forall|i: int| 0 <= i < self.len() implies closure_wf(
                #[trigger] self.model_at(i),
            ) by {
                if i != id.id() {
                    assert(self.model_at(i) == old(self).model_at(i));
                }
            }
        }
    }

    /// How many times the closure's captured payload has been disposed of.
    pub fn disposal_count(&self, id: CallbackId) -> (n: u64)
        requires
            id.valid_for(self),
        ensures
            n as nat == self.model_at(id.id()).disposals,
    {
        self.entries[id.idx].disposals
    }
}

/// A closure marshalled for the host runtime: the wrapper owns the closure
/// and is registered in the host's callable table under `id`. Whenever the
/// owning side drops the wrapper, it unregisters the closure
/// ([`Callback::dispose`]), after which the host cannot call it any more.
pub struct Callback<F> {
    f: F,
    id: CallbackId,
}

impl<F> Callback<F> {
    /// The wrapped closure, for contracts.
    pub closed spec fn func(&self) -> F {
        self.f
    }

    /// The key of this callback in the host runtime's callable table.
    pub closed spec fn cb_id(&self) -> CallbackId {
        self.id
    }

    /// The key of this callback in the host runtime's callable table, for
    /// the host's driver.
    pub fn table_key(&self) -> (r: CallbackId)
        ensures
            r == self.cb_id(),
    {
        self.id
    }

    /// Constructs a repeatable callback: the host runtime may invoke it any
    /// number of times until the callback is dropped.
    pub fn new<T, U>(reg: &mut ClosureRegistry, f: F) -> (r: Callback<F>) where F: Fn(T) -> U
        requires
            old(reg).wf(),
        ensures
            final(reg).wf(),
            final(reg).len() == old(reg).len() + 1,
            r.func() == f,
            r.cb_id().id() == old(reg).len(),
            final(reg).model_at(r.cb_id().id()) == closure_fresh(ClosureKind::Repeatable),
            forall|j: int|
                0 <= j < old(reg).len() ==> final(reg).model_at(j) == old(reg).model_at(j),
    {
        let id = reg.register(ClosureKind::Repeatable);
        Callback { f, id }
    }

    /// Constructs a call-once callback: the host runtime promises to invoke
    /// it exactly one time, and the invocation consumes the closure.
    pub fn once<T, U>(reg: &mut ClosureRegistry, f: F) -> (r: Callback<F>) where F: FnOnce(T) -> U
        requires
            old(reg).wf(),
        ensures
            final(reg).wf(),
            final(reg).len() == old(reg).len() + 1,
            r.func() == f,
            r.cb_id().id() == old(reg).len(),
            final(reg).model_at(r.cb_id().id()) == closure_fresh(ClosureKind::CallOnce),
            forall|j: int|
                0 <= j < old(reg).len() ==> final(reg).model_at(j) == old(reg).model_at(j),
    {
        let id = reg.register(ClosureKind::CallOnce);
        Callback { f, id }
    }

    /// An invocation of a repeatable callback from a host call site: runs
    /// the closure on the argument and returns the closure's result. The
    /// callback stays callable.
    pub fn call<T, U>(&self, reg: &mut ClosureRegistry, arg: T) -> (r: U) where F: Fn(T) -> U
        requires
            old(reg).wf(),
            self.cb_id().valid_for(old(reg)),
            closure_can_invoke(old(reg).model_at(self.cb_id().id())),
            old(reg).model_at(self.cb_id().id()).kind is Repeatable,
            call_requires(self.func(), (arg,)),
        ensures
            final(reg).wf(),
            final(reg).len() == old(reg).len(),
            final(reg).model_at(self.cb_id().id()) == old(reg).model_at(self.cb_id().id()),
            forall|j: int|
                0 <= j < old(reg).len() && j != self.cb_id().id() ==> final(reg).model_at(j)
                    == old(reg).model_at(j),
            call_ensures(self.func(), (arg,), r),
    {
        reg.invoke(self.id);
        (self.f)(arg)
    }

    /// The single invocation of a call-once callback: runs the closure on
    /// the argument, returns the closure's result, and consumes both the
    /// closure and the wrapper — a second invocation cannot be written.
    pub fn call_once<T, U>(self, reg: &mut ClosureRegistry, arg: T) -> (r: U) where
        F: FnOnce(T) -> U,

        requires
            old(reg).wf(),
            self.cb_id().valid_for(old(reg)),
            closure_can_invoke(old(reg).model_at(self.cb_id().id())),
            call_requires(self.func(), (arg,)),
        ensures
            final(reg).wf(),
            final(reg).len() == old(reg).len(),
            final(reg).model_at(self.cb_id().id()) == closure_step(
                old(reg).model_at(self.cb_id().id()),
                ClosureEvent::Invoke,
            ),
            forall|j: int|
                0 <= j < old(reg).len() && j != self.cb_id().id() ==> final(reg).model_at(j)
                    == old(reg).model_at(j),
            call_ensures(self.func(), (arg,), r),
    {
        reg.invoke(self.id);
        (self.f)(arg)
    }

    /// Drops the callback: the closure is unregistered from the host
    /// runtime's table — permanently uncallable — and its captured payload
    /// is disposed of now unless the single permitted invocation already
    /// consumed it.
    pub fn dispose(self, reg: &mut ClosureRegistry)
        requires
            old(reg).wf(),
            self.cb_id().valid_for(old(reg)),
            !old(reg).model_at(self.cb_id().id()).dropped,
        ensures
            final(reg).wf(),
            final(reg).len() == old(reg).len(),
            final(reg).model_at(self.cb_id().id()) == closure_step(
                old(reg).model_at(self.cb_id().id()),
                ClosureEvent::Drop,
            ),
            !closure_can_invoke(final(reg).model_at(self.cb_id().id())),
            final(reg).model_at(self.cb_id().id()).disposals == 1,
            forall|j: int|
                0 <= j < old(reg).len() && j != self.cb_id().id() ==> final(reg).model_at(j)
                    == old(reg).model_at(j),
    {
        reg.unregister(self.id);
    }
}

/// The inductive core of [`lemma_closure_disposed_exactly_once`].
proof fn lemma_closure_run_shape(m: ClosureModel, es: Seq<ClosureEvent>)
    requires
        closure_trace_valid(m, es),
        closure_wf(m),
    ensures
        closure_wf(closure_run(m, es)),
        closure_run(m, es).dropped == (m.dropped || trace_has_drop(es)),
    decreases es.len(),
{
    if es.len() > 0 {
        let m1 = closure_step(m, es[0]);
        lemma_closure_run_shape(m1, es.drop_first());
        assert(trace_has_drop(es.drop_first()) ==> trace_has_drop(es)) by {
            if trace_has_drop(es.drop_first()) {
                let i = choose|i: int|
                    0 <= i < es.drop_first().len() && es.drop_first()[i] is Drop;
                assert(es[i + 1] is Drop);
            }
        }
        assert(trace_has_drop(es) && !(es[0] is Drop) ==> trace_has_drop(es.drop_first())) by {
            if trace_has_drop(es) && !(es[0] is Drop) {
                let i = choose|i: int| 0 <= i < es.len() && es[i] is Drop;
                assert(es.drop_first()[i - 1] is Drop);
            }
        }
    }
}

} // verus!
