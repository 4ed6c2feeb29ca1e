//! Hook-style operations a component's render function may call.
//!
//! Each hook works against bookkeeping owned by the binding layer — a
//! [`SlotArena`](use_ref::SlotArena) of persisted payloads, a
//! [`RerenderQueue`](use_state::RerenderQueue) of pending re-render
//! requests, and a [`ContextRegistry`](crate::context::ContextRegistry) of
//! shared values — which the host framework's render driver threads through
//! every render call.

mod use_context;
mod use_ref;
mod use_state;

pub use use_context::use_context;
pub use use_ref::JsRefContainer;
pub use use_ref::RefContainer;
pub use use_ref::SlotArena;
pub use use_ref::SlotEvent;
pub use use_ref::SlotModel;
pub use use_ref::lemma_destructor_exactly_once;
pub use use_ref::slot_fresh;
pub use use_ref::slot_run;
pub use use_ref::slot_step;
pub use use_ref::slot_trace_valid;
pub use use_ref::trace_has_unmount;
pub use use_ref::use_js_ref;
pub use use_ref::use_ref;
pub use use_ref::unmount_with;
pub use use_state::RerenderQueue;
pub use use_state::UseState;
pub use use_state::use_state;
pub use use_state::fold_updates;
pub use use_state::lemma_updates_apply_in_order;
pub use use_state::lemma_two_updates_compose;
