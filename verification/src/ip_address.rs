//! IP address variants. Addresses are kept in network byte order, so the
//! most significant byte is first.
use vstd::prelude::*;

verus! {

#[derive(Clone, Copy, Debug)]
pub enum IPAddress {
    IPv4([u8; 4]),
    IPv6([u8; 16]),
}

impl IPAddress {
    pub open spec fn is_v4(self) -> bool {
        self is IPv4
    }
}

} // verus!
