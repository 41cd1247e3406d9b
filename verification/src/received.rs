use vstd::prelude::*;
use pnet_base::MacAddr;
use crate::interval::Interval;
use crate::ipv4::Ipv4Addr;

verus! {

/// A packet seen on the interface, parsed by the embedder.
#[derive(Clone, Copy, Debug, PartialEq)]
pub enum ReceivedPacket {
    /// A VRRP advertisement of priority 0: the active router is leaving.
    ShutdownAdvertisement { max_advertise_interval: Interval },
    /// A VRRP advertisement of any other priority. `sender_ip` is the source
    /// address of the IP header; `priority` is never 0.
    Advertisement { sender_ip: Ipv4Addr, priority: u8, max_advertise_interval: Interval },
    /// An ARP request for `target_ip`.
    RequestARP { sender_mac: MacAddr, sender_ip: Ipv4Addr, target_ip: Ipv4Addr },
    /// An IPv4 datagram.
    IP { target_mac: MacAddr, target_ip: Ipv4Addr },
}

impl ReceivedPacket {
    /// An advertisement of priority 0 is a shutdown advertisement and is
    /// delivered as one.
    pub open spec fn wf(self) -> bool {
        match self {
            ReceivedPacket::Advertisement { priority, .. } => priority != 0,
            _ => true,
        }
    }

    /// Whether the packet is one the embedder may deliver.
    pub fn is_valid(&self) -> (valid: bool)
        ensures
            valid == self.wf(),
    {
        match self {
            ReceivedPacket::Advertisement { priority, .. } => *priority != 0,
            _ => true,
        }
    }
}

} // verus!
