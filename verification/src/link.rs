//! Types shared between the internet and link layers.
use vstd::prelude::*;

verus! {

use crate::ether_type::EtherType;

pub type MacAddress = [u8; 6];

/// What the link layer tells the internet layer about a received frame.
#[derive(Clone, Copy)]
pub struct LinkInfo {
    pub ether_type: EtherType,
    /// The sender of the packet.
    pub src_addr: MacAddress,
    /// The destination of the packet.
    pub dst_addr: MacAddress,
}

impl LinkInfo {
    pub fn new(ether_type: EtherType, src_addr: &MacAddress, dst_addr: &MacAddress) -> (r:
        LinkInfo)
        ensures
            r.ether_type == ether_type,
            r.src_addr@ == src_addr@,
            r.dst_addr@ == dst_addr@,
    {
        LinkInfo { ether_type, src_addr: *src_addr, dst_addr: *dst_addr }
    }
}

} // verus!
