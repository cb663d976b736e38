//! Descriptor mapping: raw device records handed back by the USB stack are
//! turned into the library's device summaries, field for field, with absent
//! optional string-table indices mapped to 0.

use vstd::prelude::*;

verus! {

/// A device descriptor exactly as the stack reports it: the three optional
/// string-table indices are still optional here.
#[derive(Clone, Copy, Debug, PartialEq, Eq)]
pub struct RawDeviceDescriptor {
    pub vendor_id: u16,
    pub product_id: u16,
    pub class_code: u8,
    pub sub_class_code: u8,
    pub protocol_code: u8,
    pub max_packet_size: u8,
    pub usb_version: (u8, u8, u8),
    pub device_version: (u8, u8, u8),
    pub manufacturer_index: Option<u8>,
    pub product_index: Option<u8>,
    pub serial_number_index: Option<u8>,
    pub num_configurations: u8,
}

/// The public device descriptor: an immutable snapshot with no identity
/// beyond its field values. A string-table index of 0 means "absent".
#[derive(Clone, Copy, Debug, PartialEq, Eq)]
pub struct DeviceDescriptor {
    pub vendor_id: u16,
    pub product_id: u16,
    pub class_code: u8,
    pub sub_class_code: u8,
    pub protocol_code: u8,
    pub max_packet_size: u8,
    pub usb_version: (u8, u8, u8),
    pub device_version: (u8, u8, u8),
    pub manufacturer_index: u8,
    pub product_index: u8,
    pub serial_number_index: u8,
    pub num_configurations: u8,
}

/// Where the device sits on the bus: ephemeral topology values.
#[derive(Clone, Debug, PartialEq, Eq)]
pub struct DeviceLocation {
    pub bus_number: u8,
    pub address: u8,
    pub port_numbers: Vec<u8>,
}

/// One enumerated device: its topology and its descriptor. Created fresh per
/// enumeration call and never cached.
#[derive(Clone, Debug, PartialEq, Eq)]
pub struct DeviceSummary {
    pub bus_number: u8,
    pub address: u8,
    pub port_numbers: Vec<u8>,
    pub device_descriptor: DeviceDescriptor,
}

/// An optional string-table index as the public record reports it: the index
/// itself when present, 0 when absent.
pub open spec fn index_or_absent(index: Option<u8>) -> u8 {
    match index {
        Some(i) => i,
        None => 0,
    }
}

impl DeviceDescriptor {
    /// The descriptor a raw record maps to: every field carried over
    /// unchanged, except that absent string-table indices become 0.
    pub open spec fn spec_of_raw(raw: RawDeviceDescriptor) -> DeviceDescriptor {
        DeviceDescriptor {
            vendor_id: raw.vendor_id,
            product_id: raw.product_id,
            class_code: raw.class_code,
            sub_class_code: raw.sub_class_code,
            protocol_code: raw.protocol_code,
            max_packet_size: raw.max_packet_size,
            usb_version: raw.usb_version,
            device_version: raw.device_version,
            manufacturer_index: index_or_absent(raw.manufacturer_index),
            product_index: index_or_absent(raw.product_index),
            serial_number_index: index_or_absent(raw.serial_number_index),
            num_configurations: raw.num_configurations,
        }
    }

    /// Maps a raw record to the public descriptor. Total: a missing optional
    /// index never fails the record.
    pub fn of_raw(raw: &RawDeviceDescriptor) -> (r: DeviceDescriptor)
        ensures
            r == DeviceDescriptor::spec_of_raw(*raw),
    {
        DeviceDescriptor {
            vendor_id: raw.vendor_id,
            product_id: raw.product_id,
            class_code: raw.class_code,
            sub_class_code: raw.sub_class_code,
            protocol_code: raw.protocol_code,
            max_packet_size: raw.max_packet_size,
            usb_version: raw.usb_version,
            device_version: raw.device_version,
            manufacturer_index: option_index_value(&raw.manufacturer_index),
            product_index: option_index_value(&raw.product_index),
            serial_number_index: option_index_value(&raw.serial_number_index),
            num_configurations: raw.num_configurations,
        }
    }
}

/// Executable counterpart of `index_or_absent`.
fn option_index_value(index: &Option<u8>) -> (r: u8)
    ensures
        r == index_or_absent(*index),
{
    match index {
        Some(i) => *i,
        None => 0,
    }
}

/// The summary one enumerated device maps to: its topology values carried
/// over unchanged and its raw descriptor mapped through `spec_of_raw`.
pub open spec fn spec_summary_of(raw: RawDeviceDescriptor, location: DeviceLocation) -> DeviceSummary {
    DeviceSummary {
        bus_number: location.bus_number,
        address: location.address,
        port_numbers: location.port_numbers,
        device_descriptor: DeviceDescriptor::spec_of_raw(raw),
    }
}

/// Assembles one device's summary from the record pair the stack handed
/// back; every enumerated summary is produced through this mapping.
pub fn summary_of(raw: &RawDeviceDescriptor, location: DeviceLocation) -> (r: DeviceSummary)
    ensures
        r == spec_summary_of(*raw, location),
{
    DeviceSummary {
        bus_number: location.bus_number,
        address: location.address,
        port_numbers: location.port_numbers,
        device_descriptor: DeviceDescriptor::of_raw(raw),
    }
}

/// Mapping a raw record never loses a present string-table index and turns
/// every absent one into 0.
pub proof fn lemma_string_indices_total(raw: RawDeviceDescriptor)
    ensures
        raw.manufacturer_index is None ==> DeviceDescriptor::spec_of_raw(raw).manufacturer_index == 0,
        raw.product_index is None ==> DeviceDescriptor::spec_of_raw(raw).product_index == 0,
        raw.serial_number_index is None ==> DeviceDescriptor::spec_of_raw(raw).serial_number_index == 0,
        forall|i: u8|
            raw.manufacturer_index == Some(i) ==> DeviceDescriptor::spec_of_raw(raw).manufacturer_index == i,
        forall|i: u8|
            raw.product_index == Some(i) ==> DeviceDescriptor::spec_of_raw(raw).product_index == i,
        forall|i: u8|
            raw.serial_number_index == Some(i) ==> DeviceDescriptor::spec_of_raw(raw).serial_number_index
                == i,
{
}

} // verus!
