//! Reading the current context value from inside a render function.

use std::rc::Rc;
use vstd::prelude::*;

use crate::context::Context;
use crate::context::ContextRegistry;
use crate::context::current_value;

verus! {

/// Gives a render function access to the current value of the given
/// context: the nearest enclosing provider's value, or the creation-time
/// initial value when no provider encloses the reading component. The
/// reader shares ownership of the payload, so the value it got stays alive
/// however the providers above it change afterwards.
pub fn use_context<T>(reg: &ContextRegistry<T>, context: &Context<T>) -> (r: Rc<T>)
    requires
        context.valid_for(reg),
    ensures
        r == current_value(reg.model_at(context.id())),
{
    reg.current(context)
}

} // verus!
