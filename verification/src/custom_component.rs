//! Reference component-type handlers, exercised by the test suite.

use vstd::prelude::*;

use crate::dmgameobject::ComponentType;

verus! {

/// Type-create hook of the reference component type: installs the factory
/// function on the host's component-type object and reports success.
pub fn create_type(ctx: u64, component: &mut ComponentType) -> (code: i32)
    ensures
        final(component).create_fn_set,
        final(component).raw == old(component).raw,
        code == 0,
{
    component.set_create_fn();
    0
}

/// Type-destroy hook of the reference component type: nothing to tear down,
/// reports success.
pub fn destroy_type(ctx: u64, component: &mut ComponentType) -> (code: i32)
    ensures
        *final(component) == *old(component),
        code == 0,
{
    0
}

} // verus!
