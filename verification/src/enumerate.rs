//! Enumeration: the ordered list of currently attached devices, each as its
//! summary. Fail-fast: a hard descriptor-read failure aborts the whole
//! enumeration and no partial list is returned.

use crate::backend;
use crate::descriptor::spec_summary_of;
use crate::descriptor::summary_of;
use crate::descriptor::DeviceLocation;
use crate::descriptor::DeviceSummary;
use crate::descriptor::RawDeviceDescriptor;
use crate::errors::step_outcome;
use crate::errors::UsbError;
use vstd::prelude::*;

verus! {

/// Lists the currently attached devices, in the stack's enumeration order,
/// with no filtering and no deduplication. On a host with zero attached
/// devices the list is empty, not an error. Every hard failure surfaces as
/// an error: creating the context as `OpenFailed`, any descriptor or
/// topology read as `DescriptorReadFailed`. One summary is built per
/// enumerated device, each through the contracted `summary_of` mapping of
/// the record pair read for exactly that device, in order.
pub fn list_devices() -> (r: Result<Vec<DeviceSummary>, UsbError>)
    ensures
        r matches Err(e) ==> (e == UsbError::OpenFailed || e == UsbError::DescriptorReadFailed),
{
    let context = match step_outcome(backend::new_context(), UsbError::OpenFailed) {
        Ok(c) => c,
        Err(e) => return Err(e),
    };
    let devices = match step_outcome(
        backend::context_devices(&context),
        UsbError::DescriptorReadFailed,
    ) {
        Ok(d) => d,
        Err(e) => return Err(e),
    };
    let mut summaries: Vec<DeviceSummary> = Vec::new();
    let ghost mut raws: Seq<RawDeviceDescriptor> = Seq::empty();
    let ghost mut locations: Seq<DeviceLocation> = Seq::empty();
    let n = devices.len();
    for i in 0..n
        invariant
            n == devices@.len(),
            summaries@.len() == i,
            raws.len() == i,
            locations.len() == i,
            forall|j: int|
                0 <= j < i ==> summaries@[j] == spec_summary_of(raws[j], locations[j]),
    {
        let raw = match step_outcome(
            backend::read_raw_descriptor(&devices[i]),
            UsbError::DescriptorReadFailed,
        ) {
            Ok(raw) => raw,
            Err(e) => return Err(e),
        };
        let location = match step_outcome(
            backend::read_location(&devices[i]),
            UsbError::DescriptorReadFailed,
        ) {
            Ok(l) => l,
            Err(e) => return Err(e),
        };
        proof {
            raws = raws.push(raw);
            locations = locations.push(location);
        }
        summaries.push(summary_of(&raw, location));
    }
    Ok(summaries)
}

} // verus!
