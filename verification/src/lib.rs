//! A verified model of a binding layer between ownership-typed component code
//! and a host UI framework that owns rendering, reconciliation and the event
//! loop.
//!
//! The host framework is an external runtime: it mounts component instances,
//! re-invokes their render functions, fires registered callbacks and delivers
//! a single unmount notification per instance. Everything the host does is
//! outside this crate; what this crate verifies is the bookkeeping that the
//! binding layer itself must get right:
//!
//! * persisted slots whose payload lives across renders and is destroyed
//!   exactly once, on unmount (`hooks`);
//! * immediate, in-order state updates paired with a re-render request
//!   (`hooks`);
//! * marshalled closures in repeatable and call-once variants, permanently
//!   uncallable once dropped (`callback`);
//! * context cells whose readers see the nearest enclosing provider's value
//!   (`context`);
//! * plain boundary values exchanged with the host runtime (`boundary`);
//! * virtual-node trees handed back to the host for reconciliation (`vnode`).

use vstd::prelude::*;

mod boundary;
pub mod callback;
mod context;
mod demo;
pub mod hooks;
mod vnode;

pub use boundary::BoundaryValue;
pub use callback::Callable;
pub use callback::Callback;
pub use callback::CallbackId;
pub use callback::ClosureEvent;
pub use callback::ClosureKind;
pub use callback::ClosureModel;
pub use callback::ClosureRegistry;
pub use callback::Void;
pub use callback::closure_can_invoke;
pub use callback::closure_fresh;
pub use callback::closure_run;
pub use callback::closure_step;
pub use callback::closure_trace_valid;
pub use callback::closure_wf;
pub use callback::lemma_closure_disposed_exactly_once;
pub use callback::trace_has_drop;
pub use context::CellModel;
pub use context::Context;
pub use context::ContextProvider;
pub use context::ContextRegistry;
pub use context::create_context;
pub use demo::AdapterError;
pub use demo::App;
pub use demo::AppState;
pub use demo::Counter;
pub use demo::app_node_shape;
pub use demo::button_shape;
pub use demo::counter_node_shape;
pub use demo::export_app;
pub use demo::heading_shape;
pub use context::current_value;
pub use context::lemma_provider_override_is_scoped;
pub use context::lemma_reader_sees_nearest_provider;
pub use vnode::Props;
pub use vnode::VNode;
pub use vnode::VNodeList;

verus! {

/// Constructs one output node for the host framework: an element of the
/// given type with the given properties and children. This layer never
/// interprets the type or the properties; it passes them through unchanged.
pub fn create_element(element_type: String, props: Props, children: VNodeList) -> (r: VNode)
    ensures
        r matches VNode::Element { element_type: t, props: p, children: c } && t@
            == element_type@ && p@ == props@ && c@ == children@,
{
    VNode::Element { element_type, props, children }
}

} // verus!

