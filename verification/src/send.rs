use vstd::prelude::*;
use pnet_base::MacAddr;
use crate::ipv4::Ipv4Addr;
use crate::parameters::Parameters;

verus! {

/// A packet the router asks the embedder to send.
#[derive(Clone, Copy, Debug, PartialEq)]
pub enum SendPacket<'a> {
    /// A VRRP advertisement at the configured priority and interval.
    Advertisement(&'a Parameters),
    /// A VRRP advertisement of priority 0 at the configured interval.
    ShutdownAdvertisement(&'a Parameters),
    /// A broadcast ARP request that binds a virtual address to the virtual
    /// router's Ethernet address.
    GratuitousARP { sender_mac: MacAddr, sender_ip: Ipv4Addr },
    /// The answer to an ARP request for a virtual address.
    ReplyARP { sender_mac: MacAddr, sender_ip: Ipv4Addr, target_mac: MacAddr, target_ip: Ipv4Addr },
}

} // verus!
