use vstd::prelude::*;
use pnet_base::MacAddr;
use crate::ipv4::Ipv4Addr;

verus! {

/// The fields of an ARP reply.
#[derive(Clone, Copy, Debug, PartialEq)]
pub struct ArpReply {
    pub sender_mac: MacAddr,
    pub sender_ip: Ipv4Addr,
    pub target_mac: MacAddr,
    pub target_ip: Ipv4Addr,
}

/// The two addresses of an IPv4 datagram.
#[derive(Clone, Copy, Debug, PartialEq)]
pub struct IpPacket {
    pub sender_ip: Ipv4Addr,
    pub target_ip: Ipv4Addr,
}

} // verus!
