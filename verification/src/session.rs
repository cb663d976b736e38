//! The device-session lifecycle: locating a device by vendor/product pair,
//! resolving its bulk endpoints, opening and claiming it, and the bulk
//! read/write surface bound to the resulting exclusively owned session.

use crate::backend;
use crate::backend::UsbHandle;
use crate::descriptor::DeviceDescriptor;
use crate::endpoints::resolve_endpoints;
use crate::errors::is_open_error;
use crate::errors::step_outcome;
use crate::errors::is_transfer_error;
use crate::errors::transfer_error;
use crate::errors::UsbError;
use vstd::prelude::*;

verus! {

/// The one interface this library drives: negotiation and transfers all go
/// through the first interface of the device.
pub const INTERFACE_NUMBER: u8 = 0;

/// How many bytes a read receives at most when the caller does not pick a
/// buffer length.
pub const DEFAULT_READ_BUFFER_LEN: usize = 64;

/// An exclusively owned session with one open device: the handle, claimed
/// on its first interface, and the resolved bulk endpoint addresses. The
/// type cannot be copied or cloned, so one session is the handle's sole
/// accessor for its whole lifetime.
pub struct DeviceResource {
    pub device_handle: UsbHandle,
    pub in_endpoint: u8,
    pub out_endpoint: u8,
    pub kernel_driver_was_detached: bool,
}

impl DeviceResource {
    /// Well-formedness: the resolved IN endpoint address carries the IN
    /// direction bit and the OUT address does not. Opening establishes this
    /// and every transfer preserves it.
    pub open spec fn wf(self) -> bool {
        crate::endpoints::spec_is_in(self.in_endpoint) && !crate::endpoints::spec_is_in(
            self.out_endpoint,
        )
    }
}

/// The blocking timeout handed to the stack, in milliseconds. A caller's
/// zero becomes the smallest positive timeout, because the stack reads a
/// zero timeout as "block forever" and a bounded call must time out
/// instead. A value too large for the unit change saturates at the stack's
/// unsigned 32-bit millisecond ceiling, so the stack's narrowing of the
/// duration can never wrap back to that zero.
pub open spec fn spec_timeout_millis(timeout_seconds: u64) -> u64 {
    if timeout_seconds == 0 {
        1u64
    } else if timeout_seconds > (u32::MAX as u64) / 1000 {
        u32::MAX as u64
    } else {
        (timeout_seconds * 1000) as u64
    }
}

/// Turns a caller's timeout in seconds into the milliseconds the stack is
/// given: never the "block forever" zero, never above what the stack's
/// millisecond unit can carry.
pub fn timeout_millis(timeout_seconds: u64) -> (r: u64)
    ensures
        r == spec_timeout_millis(timeout_seconds),
        0 < r <= u32::MAX as u64,
{
    if timeout_seconds == 0 {
        1
    } else if timeout_seconds > (u32::MAX as u64) / 1000 {
        u32::MAX as u64
    } else {
        timeout_seconds * 1000
    }
}

/// Whether one enumerated record answers a request for the pair: a record
/// that could not be read never matches.
pub open spec fn entry_matches(
    entry: Option<DeviceDescriptor>,
    vendor_id: u16,
    product_id: u16,
) -> bool {
    entry matches Some(d) && d.vendor_id == vendor_id && d.product_id == product_id
}

/// Picks the device the open selects: the first enumerated record matching
/// the requested pair, in enumeration order. When no readable record
/// matches — and exactly then — the selection fails, always with
/// `NotFound`, however many other devices are attached.
pub fn select_matching(
    descriptors: &Vec<Option<DeviceDescriptor>>,
    vendor_id: u16,
    product_id: u16,
) -> (r: Result<usize, UsbError>)
    ensures
        r matches Ok(i) ==> i < descriptors@.len() && entry_matches(
            descriptors@[i as int],
            vendor_id,
            product_id,
        ) && (forall|j: int| 0 <= j < i ==> !entry_matches(descriptors@[j], vendor_id, product_id)),
        r is Err <==> (forall|j: int|
            0 <= j < descriptors@.len() ==> !entry_matches(descriptors@[j], vendor_id, product_id)),
        r matches Err(e) ==> e == UsbError::NotFound,
{
    let n = descriptors.len();
    for i in 0..n
        invariant
            n == descriptors@.len(),
            forall|j: int| 0 <= j < i ==> !entry_matches(descriptors@[j], vendor_id, product_id),
    {
        match &descriptors[i] {
            Some(d) => {
                if d.vendor_id == vendor_id && d.product_id == product_id {
                    return Ok(i);
                }
            },
            None => {},
        }
    }
    Err(UsbError::NotFound)
}

/// Best-effort driver query: the open detaches a kernel driver exactly when
/// the stack answered that one is active; a failed query counts as
/// inactive.
pub open spec fn spec_needs_detach(query: Result<bool, rusb::Error>) -> bool {
    query matches Ok(active) && active
}

/// Decides from the stack's answer whether a kernel driver must be detached
/// before the interface can be claimed.
pub fn driver_needs_detach(query: &Result<bool, rusb::Error>) -> (r: bool)
    ensures
        r == spec_needs_detach(*query),
{
    match query {
        Ok(active) => *active,
        Err(_) => false,
    }
}

/// Opens a session for the first attached device matching the pair: reads
/// each device's descriptor (skipping, never failing on, unreadable ones),
/// resolves the bulk endpoint pair of the selected device's active
/// configuration, opens a handle, detaches an active kernel driver if there
/// is one, claims the interface, and hands the session over. Every failure
/// is terminal for the call: no partial session is ever returned, and each
/// step's failure keeps its own error identity.
pub fn open_session(vendor_id: u16, product_id: u16) -> (r: Result<DeviceResource, UsbError>)
    ensures
        r matches Ok(session) ==> session.wf(),
        r matches Err(e) ==> is_open_error(e),
{
    let context = match step_outcome(backend::new_context(), UsbError::OpenFailed) {
        Ok(c) => c,
        Err(e) => return Err(e),
    };
    let devices = match step_outcome(backend::context_devices(&context), UsbError::NotFound) {
        Ok(d) => d,
        Err(e) => return Err(e),
    };
    let mut descriptors: Vec<Option<DeviceDescriptor>> = Vec::new();
    let n = devices.len();
    for i in 0..n
        invariant
            n == devices@.len(),
            descriptors@.len() == i,
    {
        let entry = match backend::read_raw_descriptor(&devices[i]) {
            Ok(raw) => Some(DeviceDescriptor::of_raw(&raw)),
            Err(_) => None,
        };
        descriptors.push(entry);
    }
    let selected = match select_matching(&descriptors, vendor_id, product_id) {
        Ok(i) => i,
        Err(e) => return Err(e),
    };
    let device = &devices[selected];
    let endpoints = match step_outcome(
        backend::read_endpoints(device),
        UsbError::DescriptorReadFailed,
    ) {
        Ok(e) => e,
        Err(e) => return Err(e),
    };
    let pair = match resolve_endpoints(&endpoints) {
        Ok(p) => p,
        Err(e) => return Err(e),
    };
    let handle = match step_outcome(backend::open_device(device), UsbError::OpenFailed) {
        Ok(h) => h,
        Err(e) => return Err(e),
    };
    let query = backend::kernel_driver_active(&handle, INTERFACE_NUMBER);
    let mut detached = false;
    if driver_needs_detach(&query) {
        match step_outcome(
            backend::detach_kernel_driver(&handle, INTERFACE_NUMBER),
            UsbError::DetachFailed,
        ) {
            Ok(_) => {
                detached = true;
            },
            Err(e) => return Err(e),
        }
    }
    match step_outcome(backend::claim_interface(&handle, INTERFACE_NUMBER), UsbError::ClaimFailed) {
        Ok(_) => {},
        Err(e) => return Err(e),
    }
    Ok(
        DeviceResource {
            device_handle: handle,
            in_endpoint: pair.in_endpoint,
            out_endpoint: pair.out_endpoint,
            kernel_driver_was_detached: detached,
        },
    )
}

/// A zeroed receive buffer of the given length.
fn zero_buffer(len: usize) -> (r: Vec<u8>)
    ensures
        r@.len() == len,
        forall|i: int| 0 <= i < len ==> r@[i] == 0,
{
    let mut buffer: Vec<u8> = Vec::new();
    while buffer.len() < len
        invariant
            buffer@.len() <= len,
            forall|i: int| 0 <= i < buffer@.len() ==> buffer@[i] == 0,
        decreases len - buffer@.len(),
    {
        buffer.push(0u8);
    }
    buffer
}

/// Exactly the received prefix of a transfer buffer: the first `received`
/// bytes, in order, and nothing else. Every successful read returns its
/// bytes through this function.
pub fn received_prefix(buffer: &Vec<u8>, received: usize) -> (r: Vec<u8>)
    requires
        received <= buffer@.len(),
    ensures
        r@ == buffer@.take(received as int),
{
    let mut data: Vec<u8> = Vec::new();
    let mut i: usize = 0;
    while i < received
        invariant
            i <= received,
            received <= buffer@.len(),
            data@ == buffer@.take(i as int),
        decreases received - i,
    {
        data.push(buffer[i]);
        proof {
            assert(buffer@.take(i + 1) =~= buffer@.take(i as int).push(buffer@[i as int]));
        }
        i = i + 1;
    }
    data
}

impl DeviceResource {
    /// Blocking bulk write of the payload to the session's OUT endpoint with
    /// the given timeout, in seconds. On success the count is how many bytes
    /// of the payload were written, never more than its length; a failure is
    /// a timeout or a plain transfer failure, and the session itself is left
    /// as it was.
    pub fn write(&mut self, payload: &[u8], timeout_seconds: u64) -> (r: Result<usize, UsbError>)
        requires
            payload@.len() <= 0x7fff_ffff,
        ensures
            final(self).in_endpoint == old(self).in_endpoint,
            final(self).out_endpoint == old(self).out_endpoint,
            final(self).kernel_driver_was_detached == old(self).kernel_driver_was_detached,
            old(self).wf() ==> final(self).wf(),
            r matches Ok(n) ==> n <= payload@.len(),
            r matches Err(e) ==> is_transfer_error(e),
    {
        let millis = timeout_millis(timeout_seconds);
        match backend::write_bulk(&self.device_handle, self.out_endpoint, payload, millis) {
            Ok(n) => Ok(n),
            Err(e) => Err(transfer_error(backend::error_kind(&e))),
        }
    }

    /// Blocking bulk read from the session's IN endpoint into a fresh buffer
    /// of the given length, with the given timeout in seconds. On success
    /// the result holds exactly the bytes the transfer reported received,
    /// never more than the buffer length; a failure is a timeout or a plain
    /// transfer failure, and the session itself is left as it was.
    pub fn read_with_buffer_len(&mut self, buffer_len: usize, timeout_seconds: u64) -> (r: Result<
        Vec<u8>,
        UsbError,
    >)
        requires
            buffer_len <= 0x7fff_ffff,
        ensures
            final(self).in_endpoint == old(self).in_endpoint,
            final(self).out_endpoint == old(self).out_endpoint,
            final(self).kernel_driver_was_detached == old(self).kernel_driver_was_detached,
            old(self).wf() ==> final(self).wf(),
            r matches Ok(data) ==> data@.len() <= buffer_len,
            r matches Err(e) ==> is_transfer_error(e),
    {
        let mut buffer: Vec<u8> = zero_buffer(buffer_len);
        let millis = timeout_millis(timeout_seconds);
        let received = match backend::read_bulk(
            &self.device_handle,
            self.in_endpoint,
            &mut buffer,
            millis,
        ) {
            Ok(n) => n,
            Err(e) => return Err(transfer_error(backend::error_kind(&e))),
        };
        Ok(received_prefix(&buffer, received))
    }

    /// Blocking bulk read with the default receive buffer length.
    pub fn read(&mut self, timeout_seconds: u64) -> (r: Result<Vec<u8>, UsbError>)
        ensures
            final(self).in_endpoint == old(self).in_endpoint,
            final(self).out_endpoint == old(self).out_endpoint,
            final(self).kernel_driver_was_detached == old(self).kernel_driver_was_detached,
            old(self).wf() ==> final(self).wf(),
            r matches Ok(data) ==> data@.len() <= DEFAULT_READ_BUFFER_LEN,
            r matches Err(e) ==> is_transfer_error(e),
    {
        self.read_with_buffer_len(DEFAULT_READ_BUFFER_LEN, timeout_seconds)
    }

    /// Teardown: gives the claimed interface back and, when the open had
    /// detached a kernel driver, asks the kernel to bind it again. Best
    /// effort; reports whether both steps succeeded.
    pub fn close(self) -> bool {
        let released = backend::release_interface(&self.device_handle, INTERFACE_NUMBER).is_ok();
        let reattached = if self.kernel_driver_was_detached {
            backend::attach_kernel_driver(&self.device_handle, INTERFACE_NUMBER).is_ok()
        } else {
            true
        };
        released && reattached
    }
}

/// One-shot variant: opens a session for the pair, performs a single bulk
/// write, and discards the session. Failures keep the identity of the step
/// that raised them.
pub fn write_once(vendor_id: u16, product_id: u16, payload: &[u8], timeout_seconds: u64) -> (r:
    Result<usize, UsbError>)
    requires
        payload@.len() <= 0x7fff_ffff,
    ensures
        r matches Ok(n) ==> n <= payload@.len(),
        r matches Err(e) ==> (is_open_error(e) || is_transfer_error(e)),
{
    let mut session = match open_session(vendor_id, product_id) {
        Ok(s) => s,
        Err(e) => return Err(e),
    };
    session.write(payload, timeout_seconds)
}

} // verus!
