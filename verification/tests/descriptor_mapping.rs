use usb_bulk::descriptor::summary_of;
use usb_bulk::descriptor::DeviceLocation;
use usb_bulk::DeviceDescriptor;
use usb_bulk::RawDeviceDescriptor;

fn raw_record(
    manufacturer_index: Option<u8>,
    product_index: Option<u8>,
    serial_number_index: Option<u8>,
) -> RawDeviceDescriptor {
    RawDeviceDescriptor {
        vendor_id: 0x1234,
        product_id: 0x5678,
        class_code: 0xEF,
        sub_class_code: 0x02,
        protocol_code: 0x01,
        max_packet_size: 64,
        usb_version: (2, 1, 0),
        device_version: (1, 2, 3),
        manufacturer_index,
        product_index,
        serial_number_index,
        num_configurations: 1,
    }
}

#[test]
fn absent_string_indices_map_to_zero() {
    let descriptor = DeviceDescriptor::of_raw(&raw_record(None, None, None));
    assert_eq!(descriptor.manufacturer_index, 0);
    assert_eq!(descriptor.product_index, 0);
    assert_eq!(descriptor.serial_number_index, 0);
}

#[test]
fn present_string_indices_are_kept() {
    let descriptor = DeviceDescriptor::of_raw(&raw_record(Some(1), Some(2), Some(3)));
    assert_eq!(descriptor.manufacturer_index, 1);
    assert_eq!(descriptor.product_index, 2);
    assert_eq!(descriptor.serial_number_index, 3);
}

#[test]
fn mixed_string_indices_map_independently() {
    let descriptor = DeviceDescriptor::of_raw(&raw_record(Some(7), None, Some(9)));
    assert_eq!(descriptor.manufacturer_index, 7);
    assert_eq!(descriptor.product_index, 0);
    assert_eq!(descriptor.serial_number_index, 9);
}

#[test]
fn summary_assembly_keeps_topology_and_descriptor_apart() {
    let location = DeviceLocation { bus_number: 3, address: 9, port_numbers: vec![1, 4, 2] };
    let raw = raw_record(Some(1), None, Some(3));
    let summary = summary_of(&raw, location);
    assert_eq!(summary.bus_number, 3);
    assert_eq!(summary.address, 9);
    assert_eq!(summary.port_numbers, vec![1u8, 4, 2]);
    assert_eq!(summary.device_descriptor, DeviceDescriptor::of_raw(&raw));
}

#[test]
fn every_other_field_is_carried_over_unchanged() {
    let descriptor = DeviceDescriptor::of_raw(&raw_record(None, Some(2), None));
    assert_eq!(descriptor.vendor_id, 0x1234);
    assert_eq!(descriptor.product_id, 0x5678);
    assert_eq!(descriptor.class_code, 0xEF);
    assert_eq!(descriptor.sub_class_code, 0x02);
    assert_eq!(descriptor.protocol_code, 0x01);
    assert_eq!(descriptor.max_packet_size, 64);
    assert_eq!(descriptor.usb_version, (2, 1, 0));
    assert_eq!(descriptor.device_version, (1, 2, 3));
    assert_eq!(descriptor.num_configurations, 1);
}
