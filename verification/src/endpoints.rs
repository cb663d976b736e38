//! Endpoint resolution: the scan over an active configuration's endpoint
//! descriptors that picks the bulk IN and bulk OUT endpoints of a device.
//!
//! The scan keeps the last bulk endpoint seen in each direction. The open
//! fails with `NoBulkEndpoint` unless both directions resolve; a device with
//! only one usable direction never yields a partially populated pair.

use crate::errors::UsbError;
use vstd::prelude::*;

verus! {

/// A USB endpoint's transfer type.
#[derive(Clone, Copy, Debug, PartialEq, Eq, Structural)]
pub enum TransferKind {
    Control,
    Isochronous,
    Bulk,
    Interrupt,
}

/// One endpoint of a configuration: its address and its transfer type. The
/// address encodes the direction in its top bit.
#[derive(Clone, Copy, Debug, PartialEq, Eq, Structural)]
pub struct EndpointDesc {
    pub address: u8,
    pub transfer: TransferKind,
}

/// A resolved pair of bulk endpoint addresses: one IN, one OUT.
#[derive(Clone, Copy, Debug, PartialEq, Eq, Structural)]
pub struct EndpointPair {
    pub in_endpoint: u8,
    pub out_endpoint: u8,
}

/// Bit 7 of an endpoint address gives its direction: set for IN (device to
/// host), clear for OUT (host to device).
pub open spec fn spec_is_in(address: u8) -> bool {
    address & 0x80 == 0x80
}

/// Whether an endpoint is a bulk endpoint in the IN direction.
pub open spec fn is_bulk_in(e: EndpointDesc) -> bool {
    e.transfer == TransferKind::Bulk && spec_is_in(e.address)
}

/// Whether an endpoint is a bulk endpoint in the OUT direction.
pub open spec fn is_bulk_out(e: EndpointDesc) -> bool {
    e.transfer == TransferKind::Bulk && !spec_is_in(e.address)
}

/// The address the scan leaves in the IN slot: that of the last bulk IN
/// endpoint of the sequence, or nothing when there is none.
pub open spec fn last_bulk_in(s: Seq<EndpointDesc>) -> Option<u8>
    decreases s.len(),
{
    if s.len() == 0 {
        None
    } else if is_bulk_in(s.last()) {
        Some(s.last().address)
    } else {
        last_bulk_in(s.drop_last())
    }
}

/// The address the scan leaves in the OUT slot: that of the last bulk OUT
/// endpoint of the sequence, or nothing when there is none.
pub open spec fn last_bulk_out(s: Seq<EndpointDesc>) -> Option<u8>
    decreases s.len(),
{
    if s.len() == 0 {
        None
    } else if is_bulk_out(s.last()) {
        Some(s.last().address)
    } else {
        last_bulk_out(s.drop_last())
    }
}

/// Executable direction test on an endpoint address.
pub fn endpoint_is_in(address: u8) -> (r: bool)
    ensures
        r == spec_is_in(address),
{
    address & 0x80 == 0x80
}

/// An IN slot only ever holds the address of a bulk IN endpoint, so its
/// direction bit is set.
pub proof fn lemma_last_bulk_in_is_in(s: Seq<EndpointDesc>)
    ensures
        last_bulk_in(s) matches Some(address) ==> spec_is_in(address),
    decreases s.len(),
{
    if s.len() > 0 && !is_bulk_in(s.last()) {
        lemma_last_bulk_in_is_in(s.drop_last());
    }
}

/// An OUT slot only ever holds the address of a bulk OUT endpoint, so its
/// direction bit is clear.
pub proof fn lemma_last_bulk_out_is_out(s: Seq<EndpointDesc>)
    ensures
        last_bulk_out(s) matches Some(address) ==> !spec_is_in(address),
    decreases s.len(),
{
    if s.len() > 0 && !is_bulk_out(s.last()) {
        lemma_last_bulk_out_is_out(s.drop_last());
    }
}

/// Walks the endpoints of a device's active configuration, in scan order, and
/// resolves the bulk endpoint pair: last bulk endpoint wins in each
/// direction, and the resolution fails with `NoBulkEndpoint` unless both
/// directions resolve.
pub fn resolve_endpoints(endpoints: &Vec<EndpointDesc>) -> (r: Result<EndpointPair, UsbError>)
    ensures
        r matches Ok(pair) ==> last_bulk_in(endpoints@) == Some(pair.in_endpoint) && last_bulk_out(
            endpoints@,
        ) == Some(pair.out_endpoint),
        r is Err <==> (last_bulk_in(endpoints@) is None || last_bulk_out(endpoints@) is None),
        r matches Err(e) ==> e == UsbError::NoBulkEndpoint,
        r matches Ok(pair) ==> spec_is_in(pair.in_endpoint) && !spec_is_in(pair.out_endpoint),
{
    proof {
        lemma_last_bulk_in_is_in(endpoints@);
        lemma_last_bulk_out_is_out(endpoints@);
    }
    let mut in_slot: Option<u8> = None;
    let mut out_slot: Option<u8> = None;
    let n = endpoints.len();
    for i in 0..n
        invariant
            n == endpoints@.len(),
            in_slot == last_bulk_in(endpoints@.take(i as int)),
            out_slot == last_bulk_out(endpoints@.take(i as int)),
    {
        let e = endpoints[i];
        if e.transfer == TransferKind::Bulk {
            if endpoint_is_in(e.address) {
                in_slot = Some(e.address);
            } else {
                out_slot = Some(e.address);
            }
        }
        proof {
            let s = endpoints@;
            assert(s.take(i + 1).drop_last() =~= s.take(i as int));
            assert(s.take(i + 1).last() == s[i as int]);
        }
    }
    proof {
        assert(endpoints@.take(n as int) =~= endpoints@);
    }
    match (in_slot, out_slot) {
        (Some(in_endpoint), Some(out_endpoint)) => Ok(EndpointPair { in_endpoint, out_endpoint }),
        _ => Err(UsbError::NoBulkEndpoint),
    }
}

/// A scan over endpoints none of which is bulk resolves neither direction:
/// with zero bulk endpoints the resolution can only fail.
pub proof fn lemma_no_bulk_endpoints(s: Seq<EndpointDesc>)
    requires
        forall|i: int| 0 <= i < s.len() ==> s[i].transfer != TransferKind::Bulk,
    ensures
        last_bulk_in(s) is None,
        last_bulk_out(s) is None,
    decreases s.len(),
{
    if s.len() > 0 {
        assert(forall|i: int| 0 <= i < s.drop_last().len() ==> s.drop_last()[i] == s[i]);
        lemma_no_bulk_endpoints(s.drop_last());
    }
}

/// The IN slot resolves exactly when some bulk IN endpoint is in the scan.
pub proof fn lemma_bulk_in_resolves(s: Seq<EndpointDesc>)
    ensures
        (last_bulk_in(s) is Some) <==> exists|i: int| 0 <= i < s.len() && is_bulk_in(s[i]),
    decreases s.len(),
{
    if s.len() > 0 {
        lemma_bulk_in_resolves(s.drop_last());
        if is_bulk_in(s.last()) {
            assert(is_bulk_in(s[s.len() - 1]));
        } else {
            assert(forall|i: int| 0 <= i < s.drop_last().len() ==> s.drop_last()[i] == s[i]);
            if exists|i: int| 0 <= i < s.len() && is_bulk_in(s[i]) {
                let i = choose|i: int| 0 <= i < s.len() && is_bulk_in(s[i]);
                assert(i < s.len() - 1 && s.drop_last()[i] == s[i]);
            }
        }
    }
}

/// The OUT slot resolves exactly when some bulk OUT endpoint is in the scan.
pub proof fn lemma_bulk_out_resolves(s: Seq<EndpointDesc>)
    ensures
        (last_bulk_out(s) is Some) <==> exists|i: int| 0 <= i < s.len() && is_bulk_out(s[i]),
    decreases s.len(),
{
    if s.len() > 0 {
        lemma_bulk_out_resolves(s.drop_last());
        if is_bulk_out(s.last()) {
            assert(is_bulk_out(s[s.len() - 1]));
        } else {
            assert(forall|i: int| 0 <= i < s.drop_last().len() ==> s.drop_last()[i] == s[i]);
            if exists|i: int| 0 <= i < s.len() && is_bulk_out(s[i]) {
                let i = choose|i: int| 0 <= i < s.len() && is_bulk_out(s[i]);
                assert(i < s.len() - 1 && s.drop_last()[i] == s[i]);
            }
        }
    }
}

} // verus!
