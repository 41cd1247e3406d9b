use vstd::prelude::*;
use pnet_base::MacAddr;

verus! {

/// `pnet_base::MacAddr`, the Ethernet address the packet layer works with:
/// a tuple of six public octets, first octet first. Nothing is claimed of it
/// beyond these fields.
#[verifier::external_type_specification]
pub struct ExMacAddr(pnet_base::MacAddr);

/// Whether two Ethernet addresses agree in all six octets.
pub fn same_mac(left: MacAddr, right: MacAddr) -> (same: bool)
    ensures
        same == (left == right),
{
    left.0 == right.0 && left.1 == right.1 && left.2 == right.2 && left.3 == right.3 && left.4
        == right.4 && left.5 == right.5
}

} // verus!
