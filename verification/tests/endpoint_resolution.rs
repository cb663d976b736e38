use usb_bulk::endpoints::endpoint_is_in;
use usb_bulk::endpoints::resolve_endpoints;
use usb_bulk::endpoints::EndpointDesc;
use usb_bulk::endpoints::EndpointPair;
use usb_bulk::endpoints::TransferKind;
use usb_bulk::UsbError;

fn ep(address: u8, transfer: TransferKind) -> EndpointDesc {
    EndpointDesc { address, transfer }
}

#[test]
fn resolves_bulk_pair_in_81_out_02() {
    let endpoints = vec![ep(0x81, TransferKind::Bulk), ep(0x02, TransferKind::Bulk)];
    let pair = resolve_endpoints(&endpoints).unwrap();
    assert_eq!(pair, EndpointPair { in_endpoint: 0x81, out_endpoint: 0x02 });
}

#[test]
fn zero_bulk_endpoints_yield_no_bulk_endpoint() {
    let endpoints = vec![
        ep(0x81, TransferKind::Interrupt),
        ep(0x02, TransferKind::Control),
        ep(0x83, TransferKind::Isochronous),
    ];
    assert_eq!(resolve_endpoints(&endpoints), Err(UsbError::NoBulkEndpoint));
}

#[test]
fn empty_scan_yields_no_bulk_endpoint() {
    let endpoints: Vec<EndpointDesc> = vec![];
    assert_eq!(resolve_endpoints(&endpoints), Err(UsbError::NoBulkEndpoint));
}

#[test]
fn one_direction_alone_yields_no_bulk_endpoint() {
    let only_in = vec![ep(0x81, TransferKind::Bulk)];
    assert_eq!(resolve_endpoints(&only_in), Err(UsbError::NoBulkEndpoint));

    let only_out = vec![ep(0x02, TransferKind::Bulk)];
    assert_eq!(resolve_endpoints(&only_out), Err(UsbError::NoBulkEndpoint));
}

#[test]
fn last_bulk_endpoint_wins_per_direction() {
    let endpoints = vec![
        ep(0x81, TransferKind::Bulk),
        ep(0x01, TransferKind::Bulk),
        ep(0x83, TransferKind::Bulk),
        ep(0x02, TransferKind::Bulk),
    ];
    let pair = resolve_endpoints(&endpoints).unwrap();
    assert_eq!(pair.in_endpoint, 0x83);
    assert_eq!(pair.out_endpoint, 0x02);
}

#[test]
fn non_bulk_endpoints_are_ignored_by_the_scan() {
    let endpoints = vec![
        ep(0x83, TransferKind::Interrupt),
        ep(0x81, TransferKind::Bulk),
        ep(0x02, TransferKind::Bulk),
        ep(0x04, TransferKind::Isochronous),
    ];
    let pair = resolve_endpoints(&endpoints).unwrap();
    assert_eq!(pair.in_endpoint, 0x81);
    assert_eq!(pair.out_endpoint, 0x02);
}

#[test]
fn address_bit_seven_gives_direction() {
    assert!(endpoint_is_in(0x81));
    assert!(endpoint_is_in(0xFF));
    assert!(!endpoint_is_in(0x02));
    assert!(!endpoint_is_in(0x7F));
}
