//! Resolving "which Java does this instance need, and is it here already?".
//! The detected major is remembered in the instance (`java_major`).

use vstd::prelude::*;
use crate::instance::Instance;
use crate::runtime::{ManagedRuntime, RequiredJava, RuntimeResolution};

verus! {

/// The resolution for an instance, and the instance with the required
/// major recorded. The flag tells whether the record changed (and must be
/// saved again).
pub fn resolve_runtime_for(
    inst: Instance,
    required: RequiredJava,
    managed: Option<ManagedRuntime>,
) -> (r: (Instance, bool, RuntimeResolution))
    ensures
        r.1 == (inst.java_major != Some(required.major)),
        r.0 == (Instance { java_major: Some(required.major), ..inst }),
        r.2.required == required,
        r.2.ready == managed is Some,
        r.2.managed == managed,
{
    let mut inst = inst;
    let changed = inst.java_major != Some(required.major);
    if changed {
        inst.java_major = Some(required.major);
    }
    let ready = managed.is_some();
    (inst, changed, RuntimeResolution { required, managed, ready })
}

} // verus!
