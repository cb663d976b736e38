//! The trusted boundary to the rusb USB stack. Every item here is believed,
//! not proved: each wrapper's body only makes the outside call and converts
//! its arguments and result, and each contract states no more than the rusb
//! source and documentation show.

use crate::descriptor::DeviceLocation;
use crate::descriptor::RawDeviceDescriptor;
use crate::endpoints::EndpointDesc;
use crate::endpoints::TransferKind;
use crate::errors::BackendErrorKind;
use rusb::UsbContext;
use vstd::prelude::*;

verus! {

#[verifier::external_type_specification]
#[verifier::external_body]
pub struct ExContext(rusb::Context);

#[verifier::external_type_specification]
#[verifier::external_body]
pub struct ExError(rusb::Error);

/// An attached device as the stack enumerates it. The held rusb::Device is
/// generic over its context with an outside trait bound, which cannot be
/// declared to the verifier, so the value is kept opaque in a field here; it
/// keeps its enumeration context alive by itself.
#[verifier::external_body]
pub struct UsbDevice {
    inner: rusb::Device<rusb::Context>,
}

/// An open, exclusively owned handle to a device, opaque for the same
/// reason as UsbDevice.
#[verifier::external_body]
pub struct UsbHandle {
    inner: rusb::DeviceHandle<rusb::Context>,
}

/// Relies on rusb::Context::new: a fresh libusb context, or the stack's
/// error.
#[verifier::external_body]
pub(crate) fn new_context() -> (r: Result<rusb::Context, rusb::Error>) {
    rusb::Context::new()
}

/// Relies on rusb::UsbContext::devices and rusb::DeviceList::iter: every
/// currently attached device, in the stack's enumeration order.
#[verifier::external_body]
pub(crate) fn context_devices(context: &rusb::Context) -> (r: Result<Vec<UsbDevice>, rusb::Error>) {
    Ok(context.devices()?.iter().map(|inner| UsbDevice { inner }).collect())
}

/// Relies on rusb::Device::device_descriptor and the rusb::DeviceDescriptor
/// getters: the record's fields handed over one for one, with the three
/// string-table indices still optional and both versions as their
/// (major, minor, sub minor) triples.
#[verifier::external_body]
pub(crate) fn read_raw_descriptor(device: &UsbDevice) -> (r: Result<
    RawDeviceDescriptor,
    rusb::Error,
>) {
    let d = device.inner.device_descriptor()?;
    let (u, v) = (d.usb_version(), d.device_version());
    Ok(RawDeviceDescriptor {
        vendor_id: d.vendor_id(), product_id: d.product_id(),
        class_code: d.class_code(), sub_class_code: d.sub_class_code(),
        protocol_code: d.protocol_code(), max_packet_size: d.max_packet_size(),
        usb_version: (u.major(), u.minor(), u.sub_minor()),
        device_version: (v.major(), v.minor(), v.sub_minor()),
        manufacturer_index: d.manufacturer_string_index(),
        product_index: d.product_string_index(),
        serial_number_index: d.serial_number_string_index(),
        num_configurations: d.num_configurations(),
    })
}

/// Relies on rusb::Device::bus_number, rusb::Device::address and
/// rusb::Device::port_numbers: the device's topology values handed over
/// unchanged.
#[verifier::external_body]
pub(crate) fn read_location(device: &UsbDevice) -> (r: Result<DeviceLocation, rusb::Error>) {
    Ok(DeviceLocation {
        bus_number: device.inner.bus_number(),
        address: device.inner.address(),
        port_numbers: device.inner.port_numbers()?,
    })
}

/// Relies on rusb::Device::active_config_descriptor and the interface and
/// endpoint descriptor iterators: every endpoint of every alternate setting
/// of every interface of the active configuration, in iteration order, each
/// as its address and its transfer type, the type mirrored variant for
/// variant.
#[verifier::external_body]
pub(crate) fn read_endpoints(device: &UsbDevice) -> (r: Result<Vec<EndpointDesc>, rusb::Error>) {
    let config = device.inner.active_config_descriptor()?;
    let mut endpoints: Vec<EndpointDesc> = Vec::new();
    for i in config.interfaces() { for a in i.descriptors() { for e in a.endpoint_descriptors() {
        let transfer = match e.transfer_type() {
            rusb::TransferType::Control => TransferKind::Control,
            rusb::TransferType::Isochronous => TransferKind::Isochronous,
            rusb::TransferType::Bulk => TransferKind::Bulk,
            rusb::TransferType::Interrupt => TransferKind::Interrupt,
        };
        endpoints.push(EndpointDesc { address: e.address(), transfer });
    } } }
    Ok(endpoints)
}

/// Relies on rusb::Device::open: an open handle to the device, or the
/// stack's error.
#[verifier::external_body]
pub(crate) fn open_device(device: &UsbDevice) -> (r: Result<UsbHandle, rusb::Error>) {
    Ok(UsbHandle { inner: device.inner.open()? })
}

/// Relies on rusb::DeviceHandle::kernel_driver_active: whether a kernel
/// driver is bound to the interface, or the stack's error.
#[verifier::external_body]
pub(crate) fn kernel_driver_active(handle: &UsbHandle, interface: u8) -> (r: Result<
    bool,
    rusb::Error,
>) {
    handle.inner.kernel_driver_active(interface)
}

/// Relies on rusb::DeviceHandle::detach_kernel_driver: asks the kernel to
/// release its driver's claim on the interface.
#[verifier::external_body]
pub(crate) fn detach_kernel_driver(handle: &UsbHandle, interface: u8) -> (r: Result<(), rusb::Error>) {
    handle.inner.detach_kernel_driver(interface)
}

/// Relies on rusb::DeviceHandle::attach_kernel_driver: asks the kernel to
/// bind its driver to the interface again.
#[verifier::external_body]
pub(crate) fn attach_kernel_driver(handle: &UsbHandle, interface: u8) -> (r: Result<(), rusb::Error>) {
    handle.inner.attach_kernel_driver(interface)
}

/// Relies on rusb::DeviceHandle::claim_interface: exclusive reservation of
/// the interface for this handle.
#[verifier::external_body]
pub(crate) fn claim_interface(handle: &UsbHandle, interface: u8) -> (r: Result<(), rusb::Error>) {
    handle.inner.claim_interface(interface)
}

/// Relies on rusb::DeviceHandle::release_interface: gives the claimed
/// interface back.
#[verifier::external_body]
pub(crate) fn release_interface(handle: &UsbHandle, interface: u8) -> (r: Result<(), rusb::Error>) {
    handle.inner.release_interface(interface)
}

/// Relies on rusb::DeviceHandle::write_bulk: on success the returned count
/// is how many bytes of the payload were written, never more than its
/// length. The length bound keeps the payload within the C int range the
/// stack casts it to. The timeout is taken in milliseconds; the stack reads
/// zero as "block forever".
#[verifier::external_body]
pub(crate) fn write_bulk(
    handle: &UsbHandle,
    endpoint: u8,
    payload: &[u8],
    timeout_millis: u64,
) -> (r: Result<usize, rusb::Error>)
    requires
        payload@.len() <= 0x7fff_ffff,
    ensures
        r matches Ok(n) ==> n <= payload@.len(),
{
    handle.inner.write_bulk(endpoint, payload, std::time::Duration::from_millis(timeout_millis))
}

/// Relies on rusb::DeviceHandle::read_bulk: on success the returned count is
/// how many bytes were received into the buffer's prefix, never more than
/// the buffer's length, which the call does not change. The length bound
/// keeps the buffer within the C int range the stack casts it to. The
/// timeout is taken in milliseconds; the stack reads zero as "block
/// forever".
#[verifier::external_body]
pub(crate) fn read_bulk(
    handle: &UsbHandle,
    endpoint: u8,
    buffer: &mut Vec<u8>,
    timeout_millis: u64,
) -> (r: Result<usize, rusb::Error>)
    requires
        old(buffer)@.len() <= 0x7fff_ffff,
    ensures
        final(buffer)@.len() == old(buffer)@.len(),
        r matches Ok(n) ==> n <= old(buffer)@.len(),
{
    handle.inner.read_bulk(endpoint, buffer.as_mut_slice(), std::time::Duration::from_millis(timeout_millis))
}

/// Relies on rusb::Error being a fieldless enum: each variant handed over
/// under the same name, one arm for one.
#[verifier::external_body]
pub(crate) fn error_kind(error: &rusb::Error) -> (r: BackendErrorKind) {
    match error {
        rusb::Error::Io => BackendErrorKind::Io, rusb::Error::InvalidParam => BackendErrorKind::InvalidParam,
        rusb::Error::Access => BackendErrorKind::Access, rusb::Error::NoDevice => BackendErrorKind::NoDevice,
        rusb::Error::NotFound => BackendErrorKind::NotFound, rusb::Error::Busy => BackendErrorKind::Busy,
        rusb::Error::Timeout => BackendErrorKind::Timeout, rusb::Error::Overflow => BackendErrorKind::Overflow,
        rusb::Error::Pipe => BackendErrorKind::Pipe, rusb::Error::Interrupted => BackendErrorKind::Interrupted,
        rusb::Error::NoMem => BackendErrorKind::NoMem, rusb::Error::NotSupported => BackendErrorKind::NotSupported,
        rusb::Error::BadDescriptor => BackendErrorKind::BadDescriptor, rusb::Error::Other => BackendErrorKind::Other,
    }
}

/// Relies on rusb::has_capability: whether the running stack supports
/// capability probing. The probe's global-context access panics when the
/// stack cannot initialise at all, so it takes the caller's live context as
/// witness that the stack is up.
#[verifier::external_body]
pub(crate) fn probe_has_capability(_context: &rusb::Context) -> (r: bool) {
    rusb::has_capability()
}

/// Relies on rusb::has_hid_access: whether the running stack can access HID
/// devices directly; the live context stands witness as for
/// probe_has_capability.
#[verifier::external_body]
pub(crate) fn probe_has_hid_access(_context: &rusb::Context) -> (r: bool) {
    rusb::has_hid_access()
}

/// Relies on rusb::has_hotplug: whether the running stack supports hotplug
/// notification; the live context stands witness as for
/// probe_has_capability.
#[verifier::external_body]
pub(crate) fn probe_has_hotplug(_context: &rusb::Context) -> (r: bool) {
    rusb::has_hotplug()
}

/// Relies on rusb::supports_detach_kernel_driver: whether the running stack
/// can detach a kernel driver from an interface; the live context stands
/// witness as for probe_has_capability.
#[verifier::external_body]
pub(crate) fn probe_supports_detach_kernel_driver(_context: &rusb::Context) -> (r: bool) {
    rusb::supports_detach_kernel_driver()
}

} // verus!
