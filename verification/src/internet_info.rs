//! The descriptor that travels with a packet between the transport and
//! internet layers.
use vstd::prelude::*;

verus! {

use crate::ip_address::IPAddress;
use crate::protocol_numbers::RESERVED;

/// Protocol number plus source and destination addresses. The RESERVED
/// protocol number, 255, is never carried.
#[derive(Clone, Copy)]
pub struct InternetInfo {
    /// TCP, UDP, IGMP, OSPF, etc.
    pub protocol: u8,
    /// The sender of the packet.
    pub src_addr: IPAddress,
    /// The destination of the packet.
    pub dst_addr: IPAddress,
}

impl InternetInfo {
    pub fn new(protocol: u8, src_addr: IPAddress, dst_addr: IPAddress) -> (r: InternetInfo)
        requires
            protocol != RESERVED,
        ensures
            r.protocol == protocol,
            r.src_addr == src_addr,
            r.dst_addr == dst_addr,
    {
        InternetInfo { protocol, src_addr, dst_addr }
    }
}

} // verus!
