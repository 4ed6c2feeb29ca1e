//! A worked component pair showing the binding layer end to end: an `App`
//! component holding counter state, and the `Counter` child it renders.
//!
//! The host framework drives these through the adapter entry point
//! [`export_app`]: it hands construction-time properties as plain values,
//! gets the virtual tree back, and later invokes the increment and decrement
//! callbacks and finally the unmount notification. Every state change goes
//! through the persisted slot, so the lifecycle guarantees proved in
//! [`crate::hooks`] apply to this component as to any other.

use vstd::prelude::*;

use crate::boundary::BoundaryVal;
use crate::boundary::BoundaryValue;
use crate::boundary::dec_text;
use crate::hooks::RerenderQueue;
use crate::hooks::SlotArena;
use crate::hooks::UseState;
use crate::hooks::use_state;
use crate::vnode::Props;
use crate::vnode::VNode;
use crate::vnode::VNodeList;
use crate::vnode::props_lookup;

verus! {

/// Why converting construction-time properties into a component failed.
/// Conversion failures are recoverable: the adapter surfaces them to the
/// host framework as an error result instead of crashing.
#[derive(Debug, PartialEq, Eq, Structural, Clone, Copy)]
pub enum AdapterError {
    /// The property the component needs is not present.
    MissingProperty,
    /// The property is present but does not hold a number.
    MismatchedShape,
}

/// The state the `App` component persists across renders.
#[derive(Debug)]
pub struct AppState {
    /// The counter shown to the user.
    pub counter: i32,
    /// The lines logged so far.
    pub logs: Vec<String>,
}

/// A component with counter state; its construction-time property is the
/// step its callbacks add or subtract.
#[derive(Debug, PartialEq, Eq, Structural, Clone, Copy)]
pub struct App {
    /// The step the increment and decrement callbacks apply.
    pub diff: i32,
}

impl App {
    /// The stable name under which the host framework keys this component.
    pub fn name() -> (r: String)
        ensures
            r@ == "App"@,
    {
        "App".to_owned()
    }

    /// Converts construction-time properties into the component: the "diff"
    /// property must be present and hold a number that fits the counter.
    /// Anything else is reported, not crashed on.
    pub fn try_from(props: &Props) -> (r: Result<App, AdapterError>)
        ensures
            match r {
                Ok(app) => props_lookup(props@, "diff"@) matches Some(v) && v@ == BoundaryVal::Int(
                    app.diff as int,
                ),
                Err(AdapterError::MissingProperty) => props_lookup(props@, "diff"@) is None,
                Err(AdapterError::MismatchedShape) => props_lookup(props@, "diff"@) matches Some(v)
                    && (forall|n: i32| v@ != BoundaryVal::Int(n as int)),
            },
    {
        let key: String = "diff".to_owned();
        match props.get(&key) {
            None => Err(AdapterError::MissingProperty),
            Some(value) => match value.as_int() {
                Some(n) => {
                    if n >= i32::MIN as i64 && n <= i32::MAX as i64 {
                        Ok(App { diff: n as i32 })
                    } else {
                        Err(AdapterError::MismatchedShape)
                    }
                },
                None => Err(AdapterError::MismatchedShape),
            },
        }
    }

    /// Renders the component. On the instance's first render the counter
    /// state starts at 11 with no logs; on later renders the persisted state
    /// shows through unchanged. The returned tree is a `div` showing the
    /// counter as text and mounting a `Counter` child keyed by the current
    /// counter value.
    pub fn render(&self, arena: &mut SlotArena<AppState>, existing: Option<UseState<AppState>>)
        -> (r: (UseState<AppState>, VNode))
        requires
            old(arena).wf(),
            match existing {
                Some(h) => h.valid_for(old(arena)) && old(arena).model_at(h.id()).live(),
                None => true,
            },
        ensures
            final(arena).wf(),
            r.0.valid_for(final(arena)),
            final(arena).model_at(r.0.id()).live(),
            match existing {
                Some(h) => r.0.id() == h.id() && *final(arena) == *old(arena),
                None => {
                    &&& r.0.id() == old(arena).len()
                    &&& final(arena).len() == old(arena).len() + 1
                    &&& final(arena).model_at(r.0.id()).value->0.counter == 11
                    &&& final(arena).model_at(r.0.id()).value->0.logs@ == Seq::<String>::empty()
                    &&& final(arena).model_at(r.0.id()).drops == 0
                    &&& forall|j: int|
                        0 <= j < old(arena).len() ==> final(arena).model_at(j) == old(
                            arena,
                        ).model_at(j)
                },
            },
            app_node_shape(r.1, final(arena).model_at(r.0.id()).value->0),
    {
        let init = || -> (s: AppState)
            ensures
                s.counter == 11 && s.logs@ == Seq::<String>::empty(),
            {
                AppState { counter: 11, logs: Vec::new() }
            };
        let state = use_state(arena, existing, init);
        let counter = state.current(arena).counter;

        let mut heading_children = VNodeList::new();
        heading_children.push(VNode::text("Counter: ".to_owned()));
        heading_children.push(VNode::from_int(counter as i64));
        let heading = crate::create_element("h2".to_owned(), Props::new(), heading_children);

        let counter_child = VNode::Component {
            name: Counter::name(),
            props: Props::new().insert("counter".to_owned(), BoundaryValue::from_int(
                counter as i64,
            )),
        };

        let mut children = VNodeList::new();
        children.push(heading);
        children.push(counter_child);
        let props = Props::new().insert("data-counter".to_owned(), BoundaryValue::from_int(
            counter as i64,
        ));
        let node = crate::create_element("div".to_owned(), props, children);
        (state, node)
    }

    /// The effect of the increment callback the component hands the host:
    /// adds the step to the counter immediately — the logs stay as they are
    /// — and queues one re-render request.
    pub fn increment(
        &self,
        state: &UseState<AppState>,
        arena: &mut SlotArena<AppState>,
        queue: &mut RerenderQueue,
    )
        requires
            old(arena).wf(),
            state.valid_for(old(arena)),
            old(arena).model_at(state.id()).live(),
            i32::MIN <= old(arena).model_at(state.id()).value->0.counter + self.diff <= i32::MAX,
            old(queue).pending() < u64::MAX,
        ensures
            final(arena).wf(),
            final(arena).len() == old(arena).len(),
            final(arena).model_at(state.id()).live(),
            final(arena).model_at(state.id()).value->0.counter == old(arena).model_at(
                state.id(),
            ).value->0.counter + self.diff,
            final(arena).model_at(state.id()).value->0.logs == old(arena).model_at(
                state.id(),
            ).value->0.logs,
            final(arena).model_at(state.id()).drops == old(arena).model_at(state.id()).drops,
            forall|j: int|
                0 <= j < old(arena).len() && j != state.id() ==> final(arena).model_at(j) == old(
                    arena,
                ).model_at(j),
            final(queue).pending() == old(queue).pending() + 1,
    {
        let diff = self.diff;
        let mutator = move |s: AppState| -> (r: AppState)
            requires
                i32::MIN <= s.counter + diff <= i32::MAX,
            ensures
                r.counter == s.counter + diff && r.logs == s.logs,
            {
                AppState { counter: s.counter + diff, logs: s.logs }
            };
        state.update(arena, queue, mutator);
    }

    /// The effect of the decrement callback: subtracts the step from the
    /// counter immediately and queues one re-render request.
    pub fn decrement(
        &self,
        state: &UseState<AppState>,
        arena: &mut SlotArena<AppState>,
        queue: &mut RerenderQueue,
    )
        requires
            old(arena).wf(),
            state.valid_for(old(arena)),
            old(arena).model_at(state.id()).live(),
            i32::MIN <= old(arena).model_at(state.id()).value->0.counter - self.diff <= i32::MAX,
            old(queue).pending() < u64::MAX,
        ensures
            final(arena).wf(),
            final(arena).len() == old(arena).len(),
            final(arena).model_at(state.id()).live(),
            final(arena).model_at(state.id()).value->0.counter == old(arena).model_at(
                state.id(),
            ).value->0.counter - self.diff,
            final(arena).model_at(state.id()).value->0.logs == old(arena).model_at(
                state.id(),
            ).value->0.logs,
            final(arena).model_at(state.id()).drops == old(arena).model_at(state.id()).drops,
            forall|j: int|
                0 <= j < old(arena).len() && j != state.id() ==> final(arena).model_at(j) == old(
                    arena,
                ).model_at(j),
            final(queue).pending() == old(queue).pending() + 1,
    {
        let diff = self.diff;
        let mutator = move |s: AppState| -> (r: AppState)
            requires
                i32::MIN <= s.counter - diff <= i32::MAX,
            ensures
                r.counter == s.counter - diff && r.logs == s.logs,
            {
                AppState { counter: s.counter - diff, logs: s.logs }
            };
        state.update(arena, queue, mutator);
    }
}

/// The shape `App::render` promises of its output: a `div` carrying the
/// counter in its "data-counter" property, a heading that spells the counter
/// out in text, and a `Counter` child handed the counter as its property.
pub open spec fn app_node_shape(node: VNode, state: AppState) -> bool {
    &&& node matches VNode::Element { element_type, props, children } && {
        &&& element_type@ == "div"@
        &&& props_lookup(props@, "data-counter"@) matches Some(v) && v@ == BoundaryVal::Int(
            state.counter as int,
        )
        &&& children@.len() == 2
        &&& heading_shape(children@[0], state.counter as int)
        &&& (children@[1] matches VNode::Component { name, props } && name@ == "Counter"@ && (
        props_lookup(props@, "counter"@) matches Some(v) && v@ == BoundaryVal::Int(
            state.counter as int,
        )))
    }
}

/// An `h2` element spelling out the counter: the literal label text followed
/// by the counter's decimal rendering.
pub open spec fn heading_shape(node: VNode, counter: int) -> bool {
    &&& node matches VNode::Element { element_type, props, children } && {
        &&& element_type@ == "h2"@
        &&& children@.len() == 2
        &&& (children@[0] matches VNode::Text(t) && t@ == "Counter: "@)
        &&& (children@[1] matches VNode::Text(t) && t@ == dec_text(counter))
    }
}

/// The child component showing the counter and offering the increment and
/// decrement buttons.
#[derive(Debug, PartialEq, Eq, Structural, Clone, Copy)]
pub struct Counter {
    /// The counter value handed down by the parent.
    pub counter: i32,
}

impl Counter {
    /// The stable name under which the host framework keys this component.
    pub fn name() -> (r: String)
        ensures
            r@ == "Counter"@,
    {
        "Counter".to_owned()
    }

    /// Converts construction-time properties into the component: the
    /// "counter" property must be present and hold a number that fits.
    pub fn try_from(props: &Props) -> (r: Result<Counter, AdapterError>)
        ensures
            match r {
                Ok(c) => props_lookup(props@, "counter"@) matches Some(v) && v@
                    == BoundaryVal::Int(c.counter as int),
                Err(AdapterError::MissingProperty) => props_lookup(props@, "counter"@) is None,
                Err(AdapterError::MismatchedShape) => props_lookup(props@, "counter"@) matches Some(
                    v,
                ) && (forall|n: i32| v@ != BoundaryVal::Int(n as int)),
            },
    {
        let key: String = "counter".to_owned();
        match props.get(&key) {
            None => Err(AdapterError::MissingProperty),
            Some(value) => match value.as_int() {
                Some(n) => {
                    if n >= i32::MIN as i64 && n <= i32::MAX as i64 {
                        Ok(Counter { counter: n as i32 })
                    } else {
                        Err(AdapterError::MismatchedShape)
                    }
                },
                None => Err(AdapterError::MismatchedShape),
            },
        }
    }

    /// Renders the component: a `div` holding the decrement and increment
    /// buttons around the counter's decimal text.
    pub fn render(&self) -> (r: VNode)
        ensures
            counter_node_shape(r, self.counter as int),
    {
        let mut decrement_children = VNodeList::new();
        decrement_children.push(VNode::text("Decrement".to_owned()));
        let decrement = crate::create_element(
            "button".to_owned(),
            Props::new(),
            decrement_children,
        );

        let mut increment_children = VNodeList::new();
        increment_children.push(VNode::text("Increment".to_owned()));
        let increment = crate::create_element(
            "button".to_owned(),
            Props::new(),
            increment_children,
        );

        let mut children = VNodeList::new();
        children.push(decrement);
        children.push(VNode::from_int(self.counter as i64));
        children.push(increment);
        crate::create_element("div".to_owned(), Props::new(), children)
    }
}

/// The shape `Counter::render` promises: a `div` with the decrement button,
/// the counter's decimal text, and the increment button, in that order.
pub open spec fn counter_node_shape(node: VNode, counter: int) -> bool {
    &&& node matches VNode::Element { element_type, props, children } && {
        &&& element_type@ == "div"@
        &&& children@.len() == 3
        &&& button_shape(children@[0], "Decrement"@)
        &&& (children@[1] matches VNode::Text(t) && t@ == dec_text(counter))
        &&& button_shape(children@[2], "Increment"@)
    }
}

/// A `button` element holding one text label.
pub open spec fn button_shape(node: VNode, label: Seq<char>) -> bool {
    &&& node matches VNode::Element { element_type, props, children } && {
        &&& element_type@ == "button"@
        &&& children@.len() == 1
        &&& (children@[0] matches VNode::Text(t) && t@ == label)
    }
}

/// The adapter entry point the host framework calls to render an exported
/// `App`: construction-time properties come in as plain values, conversion
/// failure is surfaced as an error result — rendering happens only for a
/// component the conversion accepted.
pub fn export_app(
    props: &Props,
    arena: &mut SlotArena<AppState>,
    existing: Option<UseState<AppState>>,
) -> (r: Result<(UseState<AppState>, VNode), AdapterError>)
    requires
        old(arena).wf(),
        match existing {
            Some(h) => h.valid_for(old(arena)) && old(arena).model_at(h.id()).live(),
            None => true,
        },
    ensures
        final(arena).wf(),
        match r {
            Ok((state, node)) => {
                &&& props_lookup(props@, "diff"@) matches Some(v) && (v@ matches
                BoundaryVal::Int(d) && i32::MIN <= d <= i32::MAX)
                &&& state.valid_for(final(arena))
                &&& final(arena).model_at(state.id()).live()
                &&& app_node_shape(node, final(arena).model_at(state.id()).value->0)
                &&& (existing matches Some(h) ==> state.id() == h.id() && *final(arena) == *old(
                    arena,
                ))
                &&& (existing is None ==> final(arena).model_at(state.id()).value->0.counter == 11
                    && final(arena).model_at(state.id()).drops == 0)
            },
            Err(e) => {
                &&& *final(arena) == *old(arena)
                &&& match e {
                    AdapterError::MissingProperty => props_lookup(props@, "diff"@) is None,
                    AdapterError::MismatchedShape => props_lookup(props@, "diff"@) matches Some(v)
                        && (forall|n: i32| v@ != BoundaryVal::Int(n as int)),
                }
            },
        },
{
    match App::try_from(props) {
        Ok(app) => {
            let (state, node) = app.render(arena, existing);
            Ok((state, node))
        },
        Err(e) => Err(e),
    }
}

} // verus!
