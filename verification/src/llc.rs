//! The LLC/SNAP layer: the fixed 8-byte 802.2 header with SNAP extension
//! that carries an EtherType.
use vstd::prelude::*;

verus! {

use vstd::string::StringExecFns;
use crate::ether_type::{
    spec_ether_type_from, spec_ether_type_supported, EtherType,
};
use crate::ipv4::IPv4Header;
use crate::link::{LinkInfo, MacAddress};
use crate::packet::{be16_value, Header, Packet};
use crate::text::{decimal, spec_decimal};

/// In memory representation of a Logical Link Control header (SNAP variant
/// only).
#[derive(Clone, Copy)]
pub struct LlcHeader {
    pub ether_type: u16,
}

/// The 8 wire bytes: DSAP 0xAA, SSAP 0xAA, control 3, OUI zero, then the
/// EtherType.
pub open spec fn llc_wire(ether_type: u16) -> Seq<u8> {
    seq![
        170u8,
        170u8,
        3u8,
        0u8,
        0u8,
        0u8,
        (ether_type / 256) as u8,
        (ether_type % 256) as u8,
    ]
}

/// Every constant byte must hold its expected value.
pub open spec fn llc_parse_ok(b: Seq<u8>) -> bool {
    &&& b[0] == 170
    &&& b[1] == 170
    &&& b[2] == 3
    &&& b[3] == 0
    &&& b[4] == 0
    &&& b[5] == 0
}

pub open spec fn llc_dsap_err() -> Seq<char> {
    "DSAP isn't 170"@
}

pub open spec fn llc_ssap_err() -> Seq<char> {
    "SSAP isn't 170"@
}

pub open spec fn llc_control_err() -> Seq<char> {
    "CONTROL isn't 3"@
}

pub open spec fn llc_oui_err() -> Seq<char> {
    "OUI isn't 0"@
}

/// The error a receiver reports for a rejected header, first failed check
/// first.
pub open spec fn llc_err_text(b: Seq<u8>) -> Seq<char> {
    if b[0] != 170 {
        llc_dsap_err()
    } else if b[1] != 170 {
        llc_ssap_err()
    } else if b[2] != 3 {
        llc_control_err()
    } else {
        llc_oui_err()
    }
}

/// How many bytes a failed parse has consumed off the front.
pub open spec fn llc_err_consumed(b: Seq<u8>) -> int {
    if b[0] != 170 {
        1
    } else if b[1] != 170 {
        2
    } else if b[2] != 3 {
        3
    } else {
        6
    }
}

// See
// https://en.wikipedia.org/wiki/IEEE_802.2
// https://en.wikipedia.org/wiki/Subnetwork_Access_Protocol
// https://tools.ietf.org/html/rfc1042
impl LlcHeader {
    pub fn with_ipv4() -> (r: LlcHeader)
        ensures
            r.ether_type == 0x0800,
    {
        LlcHeader { ether_type: 0x0800 }
    }

    /// Adds an LLC header to the packet.
    pub fn push(&self, packet: &mut Packet)
        requires
            old(packet).wf(),
            old(packet).popped() == 0,
        ensures
            final(packet).wf(),
            final(packet).popped() == 0,
            final(packet)@ == llc_wire(self.ether_type) + old(packet)@,
            final(packet).spec_name() == old(packet).spec_name(),
            final(packet).spec_id() == old(packet).spec_id(),
    {
        let mut header = Header::with_capacity(8);

        // LLC header: SNAP destination, SNAP source, connectionless.
        let dsap: u8 = 170;
        header.push8(dsap);
        let ssap: u8 = 170;
        header.push8(ssap);
        let control: u8 = 3;
        header.push8(control);

        // SNAP extension: a zero OUI says the protocol id is an EtherType.
        let oui: u8 = 0;
        header.push8(oui);
        header.push8(oui);
        header.push8(oui);

        let protocol_id: u16 = self.ether_type;
        header.push16(protocol_id);

        proof {
            assert(header@ =~= llc_wire(self.ether_type));
        }
        packet.push_header(&header);
    }

    /// Removes an LLC header from the packet, validating each constant
    /// byte.
    pub fn pop(packet: &mut Packet) -> (r: Result<LlcHeader, String>)
        requires
            old(packet).wf(),
            old(packet)@.len() >= 8,
        ensures
            final(packet).wf(),
            final(packet).spec_name() == old(packet).spec_name(),
            final(packet).spec_id() == old(packet).spec_id(),
            r is Ok <==> llc_parse_ok(old(packet)@),
            r matches Ok(h) ==> h.ether_type == be16_value(old(packet)@[6], old(packet)@[7])
                && final(packet)@ == old(packet)@.skip(8),
            r matches Err(m) ==> m@ == llc_err_text(old(packet)@) && final(packet)@ == old(
                packet,
            )@.skip(llc_err_consumed(old(packet)@)),
    {
        let dsap = packet.pop8();
        if dsap != 170 {
            return Err("DSAP isn't 170".to_owned());
        }

        let ssap = packet.pop8();
        if ssap != 170 {
            return Err("SSAP isn't 170".to_owned());
        }

        let control = packet.pop8();
        if control != 3 {
            return Err("CONTROL isn't 3".to_owned());
        }

        let oui0 = packet.pop8();
        let oui1 = packet.pop8();
        let oui2 = packet.pop8();
        if oui0 != 0 || oui1 != 0 || oui2 != 0 {
            return Err("OUI isn't 0".to_owned());
        }

        let ether_type = packet.pop16();
        Ok(LlcHeader { ether_type })
    }
}

/// A pushed LLC header parses back to its EtherType with the payload
/// intact: the round trip of the LLC layer.
pub proof fn lemma_llc_round_trip(ether_type: u16, payload: Seq<u8>)
    ensures
        llc_parse_ok(llc_wire(ether_type) + payload),
        be16_value(
            (llc_wire(ether_type) + payload)[6],
            (llc_wire(ether_type) + payload)[7],
        ) == ether_type,
        (llc_wire(ether_type) + payload).skip(8) == payload,
{
    crate::ipv4::lemma_be16_split(ether_type as int);
    assert((llc_wire(ether_type) + payload).skip(8) =~= payload);
}

/// The placeholder MAC address this model derives from an IPv4 address in
/// lieu of an ARP table: the four address bytes, zero-padded on the left.
pub fn mac_from_ipv4(addr: &[u8; 4]) -> (r: MacAddress)
    ensures
        r@ == seq![0u8, 0u8] + addr@,
{
    let r: MacAddress = [0, 0, addr[0], addr[1], addr[2], addr[3]];
    proof {
        assert(r@ =~= seq![0u8, 0u8] + addr@);
    }
    r
}

/// The send-down decision of the LLC component: push the SNAP header for
/// IPv4 and derive placeholder MAC addresses from the IPv4 addresses.
pub fn llc_send_down(ipv4: &IPv4Header, packet: Packet) -> (r: (MacAddress, MacAddress, Packet))
    requires
        packet.wf(),
        packet.popped() == 0,
    ensures
        r.0@ == seq![0u8, 0u8] + ipv4.src_addr@,
        r.1@ == seq![0u8, 0u8] + ipv4.dst_addr@,
        r.2.wf(),
        r.2.popped() == 0,
        r.2@ == llc_wire(0x0800) + packet@,
        r.2.spec_name() == packet.spec_name(),
        r.2.spec_id() == packet.spec_id(),
{
    let mut packet = packet;
    let header = LlcHeader::with_ipv4();
    header.push(&mut packet);

    let src_addr = mac_from_ipv4(&ipv4.src_addr);
    let dst_addr = mac_from_ipv4(&ipv4.dst_addr);
    (src_addr, dst_addr, packet)
}

pub open spec fn llc_unsupported_ether_type_err(value: int) -> Seq<char> {
    spec_decimal(value) + " isn't a supported ether_type"@
}

/// The send-up decision of the LLC component: pop the header and emit the
/// link information with the supplied addresses and the decoded EtherType.
/// A failure, a wire value outside the EtherType registry included, means
/// the component drops the packet.
pub fn llc_send_up(src_addr: &MacAddress, dst_addr: &MacAddress, packet: Packet) -> (r: Result<
    (LinkInfo, Packet),
    String,
>)
    requires
        packet.wf(),
        packet@.len() >= 8,
    ensures
        r is Ok <==> llc_parse_ok(packet@) && spec_ether_type_supported(
            be16_value(packet@[6], packet@[7]) as u16,
        ),
        r matches Ok((info, p)) ==> {
            &&& info.ether_type == spec_ether_type_from(
                be16_value(packet@[6], packet@[7]) as u16,
            )
            &&& info.src_addr@ == src_addr@
            &&& info.dst_addr@ == dst_addr@
            &&& p.wf()
            &&& p@ == packet@.skip(8)
            &&& p.spec_name() == packet.spec_name()
            &&& p.spec_id() == packet.spec_id()
        },
        r matches Err(m) ==> if llc_parse_ok(packet@) {
            m@ == llc_unsupported_ether_type_err(be16_value(packet@[6], packet@[7]))
        } else {
            m@ == llc_err_text(packet@)
        },
{
    let mut packet = packet;
    match LlcHeader::pop(&mut packet) {
        Ok(header) => {
            if EtherType::is_supported_u16(header.ether_type) {
                let ether_type = EtherType::from_u16(header.ether_type);
                let linfo = LinkInfo::new(ether_type, src_addr, dst_addr);
                Ok((linfo, packet))
            } else {
                let mut m = decimal(header.ether_type as u64);
                m.append(" isn't a supported ether_type");
                Err(m)
            }
        },
        Err(mesg) => Err(mesg),
    }
}

} // verus!
