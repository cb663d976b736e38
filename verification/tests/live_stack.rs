use usb_bulk::capabilities;
use usb_bulk::list_devices;
use usb_bulk::open_session;
use usb_bulk::write_once;
use usb_bulk::UsbError;

#[test]
fn capability_record_fields_follow_their_probes() {
    let caps = usb_bulk::capabilities::assemble_capabilities(true, false, true, false);
    assert!(caps.has_capability);
    assert!(!caps.has_hid_access);
    assert!(caps.has_hotplug);
    assert!(!caps.supports_detach_kernel_driver);

    let inverted = usb_bulk::capabilities::assemble_capabilities(false, true, false, true);
    assert!(!inverted.has_capability);
    assert!(inverted.has_hid_access);
    assert!(!inverted.has_hotplug);
    assert!(inverted.supports_detach_kernel_driver);
}

#[test]
fn capabilities_repeats_identically_without_state_change() {
    let first = capabilities();
    let second = capabilities();
    let third = capabilities();
    assert_eq!(first, second);
    assert_eq!(first, third);
}

#[test]
fn list_devices_returns_a_list_or_a_taxonomy_error() {
    match list_devices() {
        Ok(first) => {
            // A second enumeration without a topology change sees as many
            // devices as the first.
            let second = list_devices().unwrap();
            assert_eq!(first.len(), second.len());
        }
        Err(e) => {
            assert!(e == UsbError::OpenFailed || e == UsbError::DescriptorReadFailed);
        }
    }
}

#[test]
fn open_session_with_absent_pair_never_succeeds() {
    // No device with this pair is attached here. With a working stack the
    // open reports NotFound; on a host whose stack cannot even create a
    // context it reports that first step's failure instead.
    let e = match open_session(0xDEAD, 0xBEEF) {
        Ok(_) => panic!("opened a session for an absent device"),
        Err(e) => e,
    };
    assert!(e == UsbError::NotFound || e == UsbError::OpenFailed);
}

#[test]
fn write_once_with_absent_pair_never_succeeds() {
    let payload = vec![1u8, 2, 3];
    let e = match write_once(0xDEAD, 0xBEEF, &payload, 1) {
        Ok(_) => panic!("wrote to an absent device"),
        Err(e) => e,
    };
    assert!(e == UsbError::NotFound || e == UsbError::OpenFailed);
}
