//! Socket options carried from the transport layer down to the internet
//! layer.
use vstd::prelude::*;

verus! {

use crate::ip_address::IPAddress;

/// The four 802.11 EDCA access categories, each with its encoded traffic
/// class byte: the differentiated-services field is its upper six bits.
#[derive(Clone, Copy, Debug, PartialEq, Eq, Structural)]
pub enum QoS {
    /// Lowest priority.
    Background,
    /// Default priority.
    BestEffort,
    /// High priority.
    Video,
    /// Highest priority.
    Voice,
}

pub open spec fn spec_qos_value(q: QoS) -> u8 {
    match q {
        QoS::Background => 32,
        QoS::BestEffort => 0,
        QoS::Video => 128,
        QoS::Voice => 192,
    }
}

impl QoS {
    /// The encoded traffic class byte of this category.
    pub fn as_u8(self) -> (r: u8)
        ensures
            r == spec_qos_value(self),
    {
        match self {
            QoS::Background => 32,
            QoS::BestEffort => 0,
            QoS::Video => 128,
            QoS::Voice => 192,
        }
    }
}

/// Per-packet delivery options handed from a socket to the stack.
#[derive(Clone, Copy)]
pub struct SocketOptions {
    /// Controls packet precedence when the MAC queues back up.
    pub qos: QoS,
    /// Time to live: the maximum number of hops the packet may travel.
    /// Defaults to 255. The Linux convention of 1 for multicast is noted in
    /// the interface but not applied here.
    pub ttl: u8,
    /// If set, a packet too large for a link is dropped instead of
    /// fragmented.
    pub dont_fragment: bool,
}

impl SocketOptions {
    pub fn with_addr(_addr: IPAddress) -> (r: SocketOptions)
        ensures
            r.qos == QoS::BestEffort,
            r.ttl == 255,
            !r.dont_fragment,
    {
        SocketOptions { qos: QoS::BestEffort, ttl: 255, dont_fragment: false }
    }
}

} // verus!
