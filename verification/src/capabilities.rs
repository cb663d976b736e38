//! Platform capability flags, probed from the USB stack.

use crate::backend;
use vstd::prelude::*;

verus! {

/// The fixed mapping of named platform capability flags.
#[derive(Clone, Copy, Debug, PartialEq, Eq, Structural)]
pub struct Capabilities {
    pub has_capability: bool,
    pub has_hid_access: bool,
    pub has_hotplug: bool,
    pub supports_detach_kernel_driver: bool,
}

/// Builds the capability record from the four probe answers: each field
/// equals exactly the answer of its own probe.
pub fn assemble_capabilities(
    has_capability: bool,
    has_hid_access: bool,
    has_hotplug: bool,
    supports_detach_kernel_driver: bool,
) -> (r: Capabilities)
    ensures
        r.has_capability == has_capability,
        r.has_hid_access == has_hid_access,
        r.has_hotplug == has_hotplug,
        r.supports_detach_kernel_driver == supports_detach_kernel_driver,
{
    Capabilities { has_capability, has_hid_access, has_hotplug, supports_detach_kernel_driver }
}

/// Probes the stack's four capability flags and reports them as one record,
/// each field assembled from its own probe through `assemble_capabilities`.
/// On a host whose stack cannot even create a context, every flag reads
/// false; that fallback is decided here, in verified code. The probes
/// reflect the running stack: without a device state change the stack
/// answers them identically on every call, though that stability lives
/// outside this crate.
pub fn capabilities() -> Capabilities {
    match backend::new_context() {
        Ok(context) => assemble_capabilities(
            backend::probe_has_capability(&context),
            backend::probe_has_hid_access(&context),
            backend::probe_has_hotplug(&context),
            backend::probe_supports_detach_kernel_driver(&context),
        ),
        Err(_) => assemble_capabilities(false, false, false, false),
    }
}

} // verus!
