use usb_bulk::session::driver_needs_detach;

#[test]
fn active_driver_answer_requires_detach() {
    assert!(driver_needs_detach(&Ok(true)));
}

#[test]
fn inactive_driver_answer_skips_detach() {
    assert!(!driver_needs_detach(&Ok(false)));
}

#[test]
fn failed_driver_query_counts_as_inactive() {
    assert!(!driver_needs_detach(&Err(rusb::Error::Access)));
    assert!(!driver_needs_detach(&Err(rusb::Error::NotSupported)));
    assert!(!driver_needs_detach(&Err(rusb::Error::Other)));
}
