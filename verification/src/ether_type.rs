//! The IEEE 802 EtherType registry: the values this stack knows, plus the
//! 802.3 length band below 0x05DD.
use vstd::prelude::*;

verus! {

#[allow(non_camel_case_types)]
#[derive(Clone, Copy, Debug, PartialEq, Eq, Structural)]
pub enum EtherType {
    /// A wired ethernet length field (802.3): values 0 through 0x05DC.
    EthernetLength(u16),
    IPv4,
    ARP,
    RARP,
    SNMP,
    IPv6,
    LocalExperimental0,
    LocalExperimental1,
    Reserved,
}

/// The wire values this registry decodes.
pub open spec fn spec_ether_type_supported(value: u16) -> bool {
    value <= 0x05DC || value == 0x0800 || value == 0x0806 || value == 0x8035 || value == 0x814C
        || value == 0x86DD || value == 0x88B5 || value == 0x88B6 || value == 0xFFFF
}

pub open spec fn spec_ether_type_from(value: u16) -> EtherType {
    if value <= 0x05DC {
        EtherType::EthernetLength(value)
    } else if value == 0x0800 {
        EtherType::IPv4
    } else if value == 0x0806 {
        EtherType::ARP
    } else if value == 0x8035 {
        EtherType::RARP
    } else if value == 0x814C {
        EtherType::SNMP
    } else if value == 0x86DD {
        EtherType::IPv6
    } else if value == 0x88B5 {
        EtherType::LocalExperimental0
    } else if value == 0x88B6 {
        EtherType::LocalExperimental1
    } else {
        EtherType::Reserved
    }
}

pub open spec fn spec_ether_type_value(t: EtherType) -> u16 {
    match t {
        EtherType::EthernetLength(v) => v,
        EtherType::IPv4 => 0x0800,
        EtherType::ARP => 0x0806,
        EtherType::RARP => 0x8035,
        EtherType::SNMP => 0x814C,
        EtherType::IPv6 => 0x86DD,
        EtherType::LocalExperimental0 => 0x88B5,
        EtherType::LocalExperimental1 => 0x88B6,
        EtherType::Reserved => 0xFFFF,
    }
}

pub open spec fn spec_ether_type_is_valid(t: EtherType) -> bool {
    match t {
        EtherType::EthernetLength(v) => v <= 0x05DC,
        EtherType::Reserved => false,
        _ => true,
    }
}

impl EtherType {
    /// Decodes a wire value. Values outside the registry are rejected by the
    /// precondition; a caller that may see them tests
    /// [`is_supported_u16`](Self::is_supported_u16) first.
    pub fn from_u16(value: u16) -> (r: EtherType)
        requires
            spec_ether_type_supported(value),
        ensures
            r == spec_ether_type_from(value),
    {
        if value <= 0x05DC {
            EtherType::EthernetLength(value)
        } else if value == 0x0800 {
            EtherType::IPv4
        } else if value == 0x0806 {
            EtherType::ARP
        } else if value == 0x8035 {
            EtherType::RARP
        } else if value == 0x814C {
            EtherType::SNMP
        } else if value == 0x86DD {
            EtherType::IPv6
        } else if value == 0x88B5 {
            EtherType::LocalExperimental0
        } else {
            if value == 0x88B6 {
                EtherType::LocalExperimental1
            } else {
                EtherType::Reserved
            }
        }
    }

    /// Whether a wire value is one this registry decodes.
    pub fn is_supported_u16(value: u16) -> (r: bool)
        ensures
            r == spec_ether_type_supported(value),
    {
        value <= 0x05DC || value == 0x0800 || value == 0x0806 || value == 0x8035
            || value == 0x814C || value == 0x86DD || value == 0x88B5 || value == 0x88B6
            || value == 0xFFFF
    }

    pub fn as_u16(self) -> (r: u16)
        ensures
            r == spec_ether_type_value(self),
    {
        match self {
            EtherType::EthernetLength(v) => v,
            EtherType::IPv4 => 0x0800,
            EtherType::ARP => 0x0806,
            EtherType::RARP => 0x8035,
            EtherType::SNMP => 0x814C,
            EtherType::IPv6 => 0x86DD,
            EtherType::LocalExperimental0 => 0x88B5,
            EtherType::LocalExperimental1 => 0x88B6,
            EtherType::Reserved => 0xFFFF,
        }
    }

    pub fn is_valid(self) -> (r: bool)
        ensures
            r == spec_ether_type_is_valid(self),
    {
        match self {
            EtherType::EthernetLength(v) => v <= 0x05DC,
            EtherType::Reserved => false,
            _ => true,
        }
    }
}

/// Decoding the wire value of any ether type in the registry gives that
/// ether type back; a length field must carry a length-band value.
pub proof fn lemma_ether_type_round_trip(t: EtherType)
    requires
        t matches EtherType::EthernetLength(v) ==> v <= 0x05DC,
    ensures
        spec_ether_type_from(spec_ether_type_value(t)) == t,
{
}

} // verus!
