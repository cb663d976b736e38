use usb_bulk::session::select_matching;
use usb_bulk::transfer_error;
use usb_bulk::BackendErrorKind;
use usb_bulk::DeviceDescriptor;
use usb_bulk::UsbError;

fn descriptor(vendor_id: u16, product_id: u16) -> DeviceDescriptor {
    DeviceDescriptor {
        vendor_id,
        product_id,
        class_code: 0,
        sub_class_code: 0,
        protocol_code: 0,
        max_packet_size: 8,
        usb_version: (2, 0, 0),
        device_version: (1, 0, 0),
        manufacturer_index: 0,
        product_index: 0,
        serial_number_index: 0,
        num_configurations: 1,
    }
}

#[test]
fn first_matching_record_is_selected() {
    let entries = vec![
        Some(descriptor(0x1111, 0x2222)),
        Some(descriptor(0x1234, 0x5678)),
        Some(descriptor(0x1234, 0x5678)),
    ];
    assert_eq!(select_matching(&entries, 0x1234, 0x5678), Ok(1));
}

#[test]
fn unreadable_records_are_skipped_not_matched() {
    let entries = vec![None, None, Some(descriptor(0x1234, 0x5678))];
    assert_eq!(select_matching(&entries, 0x1234, 0x5678), Ok(2));
}

#[test]
fn absent_pair_yields_not_found_regardless_of_other_devices() {
    let entries = vec![
        None,
        Some(descriptor(0x1111, 0x2222)),
        Some(descriptor(0x1234, 0x0001)),
        Some(descriptor(0x0001, 0x5678)),
    ];
    assert_eq!(select_matching(&entries, 0x1234, 0x5678), Err(UsbError::NotFound));
}

#[test]
fn empty_enumeration_yields_not_found() {
    let entries: Vec<Option<DeviceDescriptor>> = vec![];
    assert_eq!(select_matching(&entries, 0x1234, 0x5678), Err(UsbError::NotFound));
}

#[test]
fn zero_timeout_becomes_the_smallest_positive_timeout() {
    // The stack reads a zero timeout as "block forever"; a caller's zero
    // must still time out.
    assert_eq!(usb_bulk::session::timeout_millis(0), 1);
}

#[test]
fn timeouts_convert_to_milliseconds_and_saturate() {
    assert_eq!(usb_bulk::session::timeout_millis(1), 1000);
    assert_eq!(usb_bulk::session::timeout_millis(30), 30000);
    // The stack carries the timeout as an unsigned 32-bit millisecond
    // count; larger values saturate there instead of wrapping.
    assert_eq!(usb_bulk::session::timeout_millis(4294967), 4294967000);
    assert_eq!(usb_bulk::session::timeout_millis(4294968), u32::MAX as u64);
    assert_eq!(usb_bulk::session::timeout_millis(u64::MAX), u32::MAX as u64);
}

#[test]
fn step_outcome_hands_success_through_unchanged() {
    assert_eq!(
        usb_bulk::errors::step_outcome(Ok(7u8), UsbError::ClaimFailed),
        Ok(7u8)
    );
}

#[test]
fn step_outcome_pins_each_failure_to_its_kind() {
    assert_eq!(
        usb_bulk::errors::step_outcome::<u8>(Err(rusb::Error::Busy), UsbError::ClaimFailed),
        Err(UsbError::ClaimFailed)
    );
    assert_eq!(
        usb_bulk::errors::step_outcome::<u8>(Err(rusb::Error::Access), UsbError::DetachFailed),
        Err(UsbError::DetachFailed)
    );
    assert_eq!(
        usb_bulk::errors::step_outcome::<u8>(Err(rusb::Error::NoDevice), UsbError::OpenFailed),
        Err(UsbError::OpenFailed)
    );
}

#[test]
fn received_prefix_returns_exactly_the_reported_bytes() {
    let buffer = vec![10u8, 20, 30, 40, 50];
    assert_eq!(usb_bulk::session::received_prefix(&buffer, 3), vec![10u8, 20, 30]);
    assert_eq!(usb_bulk::session::received_prefix(&buffer, 0), Vec::<u8>::new());
    assert_eq!(usb_bulk::session::received_prefix(&buffer, 5), buffer);
}

#[test]
fn transfer_timeout_keeps_its_identity() {
    assert_eq!(transfer_error(BackendErrorKind::Timeout), UsbError::Timeout);
}

#[test]
fn other_stack_errors_become_transfer_failures() {
    assert_eq!(transfer_error(BackendErrorKind::Io), UsbError::TransferFailed);
    assert_eq!(transfer_error(BackendErrorKind::Pipe), UsbError::TransferFailed);
    assert_eq!(transfer_error(BackendErrorKind::NoDevice), UsbError::TransferFailed);
    assert_eq!(transfer_error(BackendErrorKind::Overflow), UsbError::TransferFailed);
}
