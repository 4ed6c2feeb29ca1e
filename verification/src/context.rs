//! Context cells: typed state shared by reference across a component
//! subtree.
//!
//! A cell is created once with an initial value. While the host framework
//! renders a subtree, each provider component that carries a value pushes it
//! for the duration of its subtree and removes it afterwards, so the values
//! in force at any moment form a stack: the top is the nearest enclosing
//! provider. A reader sees that top value, or the creation-time initial
//! value when no provider encloses it.
//!
//! Payloads are shared by reference counting: a cell stores them as `Rc`
//! values, and every reader lookup hands out one more owner of the same
//! payload, so the provider's value outlives every reader of the same render
//! pass.

use core::marker::PhantomData;
use std::rc::Rc;
use vstd::prelude::*;

use crate::vnode::VNode;
use crate::vnode::VNodeList;

verus! {

/// The abstract state of one context cell: the creation-time initial value
/// and the values of the providers currently enclosing the render position,
/// nearest last.
pub ghost struct CellModel<T> {
    /// The value given when the cell was created.
    pub initial: T,
    /// The values pushed by the providers in force, outermost first.
    pub providers: Seq<T>,
}

/// The value a reader sees: the nearest enclosing provider's value, or the
/// initial value when no provider is in force.
pub open spec fn current_value<T>(m: CellModel<T>) -> T {
    if m.providers.len() > 0 {
        m.providers.last()
    } else {
        m.initial
    }
}

/// A reader nested under two providers sees the nearer one's value, and a
/// reader with no enclosing provider sees the creation-time initial value.
pub proof fn lemma_reader_sees_nearest_provider<T>(m: CellModel<T>, outer: T, inner: T)
    ensures
        current_value(
            CellModel { providers: m.providers.push(outer).push(inner), ..m },
        ) == inner,
        current_value(CellModel { providers: Seq::<T>::empty(), ..m }) == m.initial,
{
}

/// A provider's override is scoped to its own subtree: once the inner
/// provider's value is removed, the next reader — a sibling outside the
/// inner subtree — observes the outer provider's value again.
pub proof fn lemma_provider_override_is_scoped<T>(m: CellModel<T>, outer: T, inner: T)
    ensures
        current_value(
            CellModel { providers: m.providers.push(outer).push(inner).drop_last(), ..m },
        ) == outer,
{
    assert(m.providers.push(outer).push(inner).drop_last() =~= m.providers.push(outer));
}

/// Relies on Rc::clone: the result is one more owner of the same
/// allocation, so it carries the same value as the original; the reference
/// count is incremented, nothing is moved or copied.
#[verifier::external_body]
pub(crate) fn rc_clone<T>(rc: &Rc<T>) -> (r: Rc<T>)
    ensures
        r == *rc,
{
    Rc::clone(rc)
}

struct ContextCell<T> {
    initial: Rc<T>,
    providers: Vec<Rc<T>>,
}

/// The binding layer's registry of context cells holding payloads of type
/// `T`. One registry serves every cell of its payload type; a cell is never
/// removed, so a [`Context`] handle stays valid for the life of the
/// registry.
pub struct ContextRegistry<T> {
    cells: Vec<ContextCell<T>>,
}

/// A handle to one context cell, created by [`create_context`] and carried
/// by providers and readers alike. One handle belongs to one payload type;
/// it is never reinterpreted at another type.
pub struct Context<T> {
    id: usize,
    marker: PhantomData<T>,
}

impl<T> Clone for Context<T> {
    /// The copy addresses the same cell.
    fn clone(&self) -> (r: Self)
        ensures
            r == *self,
    {
        Context { id: self.id, marker: PhantomData }
    }
}

impl<T> Context<T> {
    /// The index of the cell this handle addresses.
    pub closed spec fn id(&self) -> int {
        self.id as int
    }

    /// Whether this handle addresses a cell of the registry.
    pub open spec fn valid_for(&self, reg: &ContextRegistry<T>) -> bool {
        0 <= self.id() < reg.len()
    }
}

impl<T> ContextRegistry<T> {
    /// A registry with no cells yet.
    pub fn new() -> (reg: ContextRegistry<T>)
        ensures
            reg.len() == 0,
    {
        ContextRegistry { cells: Vec::new() }
    }

    /// The number of cells created so far.
    pub closed spec fn len(&self) -> int {
        self.cells.len() as int
    }

    /// The abstract state of the cell at `i`. Payloads are shared handles;
    /// in specifications a handle stands for the value it carries.
    pub closed spec fn model_at(&self, i: int) -> CellModel<Rc<T>> {
        CellModel { initial: self.cells[i].initial, providers: self.cells[i].providers@ }
    }

    /// How many providers are in force for the cell behind `ctx`.
    pub fn provider_depth(&self, ctx: &Context<T>) -> (n: usize)
        requires
            ctx.valid_for(self),
        ensures
            n == self.model_at(ctx.id()).providers.len(),
    {
        self.cells[ctx.id].providers.len()
    }

    /// The shared value a reader at the current render position sees: the
    /// nearest enclosing provider's value, or the creation-time initial
    /// value when no provider is in force. The reader becomes one more owner
    /// of the payload, so it stays alive as long as the reader holds on.
    pub fn current(&self, ctx: &Context<T>) -> (r: Rc<T>)
        requires
            ctx.valid_for(self),
        ensures
            r == current_value(self.model_at(ctx.id())),
    {
        let cell = &self.cells[ctx.id];
        let depth = cell.providers.len();
        if depth > 0 {
            rc_clone(&cell.providers[depth - 1])
        } else {
            rc_clone(&cell.initial)
        }
    }

    /// A provider carrying a value enters its subtree: the value becomes the
    /// nearest one for every reader below, until the provider leaves. A
    /// provider carrying no value of its own changes nothing: readers below
    /// it keep seeing the nearest enclosing value.
    pub fn provider_enter(&mut self, ctx: &Context<T>, value: Option<Rc<T>>) -> (pushed: bool)
        requires
            ctx.valid_for(old(self)),
        ensures
            final(self).len() == old(self).len(),
            pushed == (value is Some),
            final(self).model_at(ctx.id()) == match value {
                Some(v) => CellModel {
                    initial: old(self).model_at(ctx.id()).initial,
                    providers: old(self).model_at(ctx.id()).providers.push(v),
                },
                None => old(self).model_at(ctx.id()),
            },
            forall|j: int|
                0 <= j < old(self).len() && j != ctx.id() ==> final(self).model_at(j) == old(
                    self,
                ).model_at(j),
    {
        match value {
            Some(v) => {
                let cell = &mut self.cells[ctx.id];
                cell.providers.push(v);
                true
            },
            None => false,
        }
    }

    /// The provider leaves its subtree: if it pushed a value on entry, the
    /// value is removed — the reference count it held is given up — and the
    /// previously nearest value is in force again.
    pub fn provider_exit(&mut self, ctx: &Context<T>, pushed: bool)
        requires
            ctx.valid_for(old(self)),
            pushed ==> old(self).model_at(ctx.id()).providers.len() > 0,
        ensures
            final(self).len() == old(self).len(),
            final(self).model_at(ctx.id()) == if pushed {
                CellModel {
                    initial: old(self).model_at(ctx.id()).initial,
                    providers: old(self).model_at(ctx.id()).providers.drop_last(),
                }
            } else {
                old(self).model_at(ctx.id())
            },
            forall|j: int|
                0 <= j < old(self).len() && j != ctx.id() ==> final(self).model_at(j) == old(
                    self,
                ).model_at(j),
    {
        if pushed {
            let cell = &mut self.cells[ctx.id];
            cell.providers.pop();
        }
    }
}

/// Creates a new context cell that can hold a shared state of type `T`,
/// visible to every reader of a subtree. The cell starts with no provider in
/// force, so readers see `init` until a provider overrides it.
pub fn create_context<T>(reg: &mut ContextRegistry<T>, init: Rc<T>) -> (ctx: Context<T>)
    ensures
        final(reg).len() == old(reg).len() + 1,
        ctx.id() == old(reg).len(),
        ctx.valid_for(final(reg)),
        final(reg).model_at(ctx.id()) == (CellModel::<Rc<T>> {
            initial: init,
            providers: Seq::empty(),
        }),
        forall|j: int|
            0 <= j < old(reg).len() ==> final(reg).model_at(j) == old(reg).model_at(j),
{
    let id = reg.cells.len();
    reg.cells.push(ContextCell { initial: init, providers: Vec::new() });
    Context { id, marker: PhantomData }
}

/// A component that makes the given context carry a value for its subtree.
///
/// Building one yields the virtual node handed to the host framework; when
/// the host renders that node, the render driver calls
/// [`ContextRegistry::provider_enter`] with the value recorded here before
/// the children render, and [`ContextRegistry::provider_exit`] after.
pub struct ContextProvider<T> {
    context: Context<T>,
    value: Option<Rc<T>>,
    children: VNodeList,
}

impl<T> ContextProvider<T> {
    /// Creates a new provider for the given context, carrying no value of
    /// its own and no children yet.
    pub fn from(context: &Context<T>) -> (r: ContextProvider<T>)
        ensures
            r.context_id() == context.id(),
            r.value_model() is None,
            r.children_model() == Seq::<VNode>::empty(),
    {
        ContextProvider { context: context.clone(), value: None, children: VNodeList::new() }
    }

    /// The cell this provider feeds.
    pub closed spec fn context_id(&self) -> int {
        self.context.id()
    }

    /// The value this provider will push for its subtree, if any. A shared
    /// handle stands for the value it carries.
    pub closed spec fn value_model(&self) -> Option<Rc<T>> {
        self.value
    }

    /// The children the provider's node will carry.
    pub closed spec fn children_model(&self) -> Seq<VNode> {
        self.children@
    }

    /// Sets the value of the context to be passed down: `Some` overrides
    /// what the subtree sees, `None` lets the nearest enclosing value keep
    /// showing through.
    pub fn value(self, value: Option<Rc<T>>) -> (r: ContextProvider<T>)
        ensures
            r.context_id() == self.context_id(),
            r.children_model() == self.children_model(),
            r.value_model() == value,
    {
        ContextProvider { value, ..self }
    }

    /// Sets the children of the component.
    pub fn children(self, children: VNodeList) -> (r: ContextProvider<T>)
        ensures
            r.context_id() == self.context_id(),
            r.value_model() == self.value_model(),
            r.children_model() == children@,
    {
        ContextProvider { children, ..self }
    }

    /// Returns the virtual node for this provider with the given children,
    /// to be included in a render function's output.
    pub fn build(self, children: VNodeList) -> (r: (ContextProvider<T>, VNode))
        ensures
            r.0.context_id() == self.context_id(),
            r.0.value_model() == self.value_model(),
            r.0.children_model() == children@,
            r.1 matches VNode::Component { name, props } && name@ == "ContextProvider"@ && props@
                == Seq::<(String, crate::boundary::BoundaryValue)>::empty(),
    {
        let provider = self.children(children);
        let node = VNode::Component {
            name: provider_node_name(),
            props: crate::vnode::Props::new(),
        };
        (provider, node)
    }

    /// Pushes this provider's value for its subtree, if it carries one;
    /// returns what [`ContextRegistry::provider_exit`] must be told when the
    /// subtree is done.
    pub fn enter(&self, reg: &mut ContextRegistry<T>) -> (pushed: bool)
        requires
            0 <= self.context_id() < old(reg).len(),
        ensures
            final(reg).len() == old(reg).len(),
            pushed == (self.value_model() is Some),
            final(reg).model_at(self.context_id()) == match self.value_model() {
                Some(v) => CellModel {
                    initial: old(reg).model_at(self.context_id()).initial,
                    providers: old(reg).model_at(self.context_id()).providers.push(v),
                },
                None => old(reg).model_at(self.context_id()),
            },
            forall|j: int|
                0 <= j < old(reg).len() && j != self.context_id() ==> final(reg).model_at(j) == old(
                    reg,
                ).model_at(j),
    {
        match &self.value {
            Some(v) => reg.provider_enter(&self.context, Some(rc_clone(v))),
            None => reg.provider_enter(&self.context, None),
        }
    }
}

/// The stable name under which the host framework keys every provider node.
fn provider_node_name() -> (r: String)
    ensures
        r@ == "ContextProvider"@,
{
    "ContextProvider".to_owned()
}

} // verus!
