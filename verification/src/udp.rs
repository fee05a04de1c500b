//! The UDP layer: the 8-byte header and the RFC 768 checksum over the IPv4
//! pseudo-header, the header itself and the payload.
use vstd::prelude::*;

verus! {

use vstd::string::StringExecFns;
use crate::checksum::{finished16, sum16};
use crate::internet_info::InternetInfo;
use crate::ip_address::IPAddress;
use crate::packet::{be16_value, Header, Packet};
use crate::socket::SocketOptions;
use crate::text::{decimal, spec_decimal};

/// In-memory version of the UDP header. When serialized to a [`Packet`] it
/// is packed according to RFC 768.
#[derive(Clone, Copy)]
pub struct UDPHeader {
    /// Usually an ephemeral or well-known port.
    pub src_port: u16,
    /// An ephemeral or well-known port.
    pub dst_port: u16,
}

/// The 12 pseudo-header bytes the UDP checksum covers but the wire does not
/// carry: source address, destination address, a zero byte, protocol 17,
/// and the UDP length.
pub open spec fn udp_pseudo_header(src: Seq<u8>, dst: Seq<u8>, udp_len: int) -> Seq<u8> {
    src + dst + seq![0u8, 17u8, (udp_len / 256) as u8, (udp_len % 256) as u8]
}

/// The 8 header bytes with the checksum field still zero.
pub open spec fn udp_wire_zero(h: UDPHeader, udp_len: int) -> Seq<u8> {
    seq![
        (h.src_port / 256) as u8,
        (h.src_port % 256) as u8,
        (h.dst_port / 256) as u8,
        (h.dst_port % 256) as u8,
        (udp_len / 256) as u8,
        (udp_len % 256) as u8,
        0u8,
        0u8,
    ]
}

/// The checksum carried at header offsets 6 and 7: the Internet checksum of
/// pseudo-header, zero-checksum header and payload together.
pub open spec fn udp_checksum(h: UDPHeader, src: Seq<u8>, dst: Seq<u8>, payload: Seq<u8>) -> int {
    finished16(
        sum16(udp_pseudo_header(src, dst, (8 + payload.len()) as int)) + sum16(
            udp_wire_zero(h, (8 + payload.len()) as int),
        ) + sum16(payload),
    )
}

/// The 8 header bytes as sent.
pub open spec fn udp_wire(h: UDPHeader, src: Seq<u8>, dst: Seq<u8>, payload: Seq<u8>) -> Seq<u8> {
    let c = udp_checksum(h, src, dst, payload);
    udp_wire_zero(h, (8 + payload.len()) as int).update(6, (c / 256) as u8).update(7, (c % 256) as u8)
}

/// A received header is accepted exactly when its declared total length
/// matches the packet length. Checksum verification on receive is a
/// documented non-goal of this model.
pub open spec fn udp_parse_ok(b: Seq<u8>) -> bool {
    be16_value(b[4], b[5]) == b.len()
}

pub open spec fn udp_length_err(expected: int, declared: int) -> Seq<char> {
    "UDPHeader.total_length should be "@ + spec_decimal(expected) + " but is "@ + spec_decimal(
        declared,
    )
}

// See https://en.wikipedia.org/wiki/User_Datagram_Protocol#Packet_structure
impl UDPHeader {
    pub fn new(src_port: u16, dst_port: u16) -> (r: UDPHeader)
        ensures
            r.src_port == src_port,
            r.dst_port == dst_port,
    {
        UDPHeader { src_port, dst_port }
    }

    /// Adds a UDP header to the packet, its checksum computed over the IPv4
    /// pseudo-header, the header and the payload.
    pub fn push(&self, packet: &mut Packet, info: &InternetInfo)
        requires
            old(packet).wf(),
            old(packet).popped() == 0,
            info.src_addr is IPv4,
            info.dst_addr is IPv4,
            8 + old(packet)@.len() < 0xFFFF,
        ensures
            final(packet).wf(),
            final(packet).popped() == 0,
            final(packet)@ == udp_wire(
                *self,
                info.src_addr->IPv4_0@,
                info.dst_addr->IPv4_0@,
                old(packet)@,
            ) + old(packet)@,
            final(packet).spec_name() == old(packet).spec_name(),
            final(packet).spec_id() == old(packet).spec_id(),
    {
        let payload_len: usize = packet.len();
        let total_len: usize = 8 + payload_len;

        let mut header = Header::with_capacity(8);
        header.push16(self.src_port);
        header.push16(self.dst_port);
        header.push16(total_len as u16);
        // The checksum is written for real below, once it is known.
        header.push16(0);
        proof {
            assert(header@ =~= udp_wire_zero(*self, total_len as int));
        }

        let ghost srcv = info.src_addr->IPv4_0@;
        let ghost dstv = info.dst_addr->IPv4_0@;
        proof {
            crate::checksum::lemma_sum16_nonneg(udp_pseudo_header(srcv, dstv, total_len as int));
            crate::checksum::lemma_sum16_nonneg(udp_wire_zero(*self, total_len as int));
        }
        let crc1: u32 = UDPHeader::pseudo_header_checksum(packet, info);
        let crc2: u32 = header.start_checksum(crc1);
        let crc: u16 = packet.finish_checksum(payload_len, crc2);
        proof {
            assert(packet@.take(payload_len as int) =~= packet@);
            assert(crc >> 8 == crc / 256 && (crc & 0xFF) == crc % 256) by (bit_vector);
        }
        header.data.set(6, (crc >> 8) as u8);
        header.data.set(7, (crc & 0xFF) as u8);
        proof {
            assert(header@ =~= udp_wire(
                *self,
                info.src_addr->IPv4_0@,
                info.dst_addr->IPv4_0@,
                packet@,
            ));
        }

        packet.push_header(&header);
    }

    /// Removes a UDP header from the packet; a declared length that does
    /// not match the packet is rejected.
    pub fn pop(packet: &mut Packet) -> (r: Result<UDPHeader, String>)
        requires
            old(packet).wf(),
            old(packet)@.len() >= 8,
        ensures
            final(packet).wf(),
            final(packet)@ == old(packet)@.skip(8),
            final(packet).spec_name() == old(packet).spec_name(),
            final(packet).spec_id() == old(packet).spec_id(),
            r is Ok <==> udp_parse_ok(old(packet)@),
            r matches Ok(h) ==> h.src_port == be16_value(old(packet)@[0], old(packet)@[1])
                && h.dst_port == be16_value(old(packet)@[2], old(packet)@[3]),
            r matches Err(m) ==> m@ == udp_length_err(
                old(packet)@.len() as int,
                be16_value(old(packet)@[4], old(packet)@[5]),
            ),
    {
        let in_len: usize = packet.len();

        let src_port: u16 = packet.pop16();
        let dst_port: u16 = packet.pop16();
        let total_length: u16 = packet.pop16();
        let _ = packet.pop16();

        if total_length as usize != in_len {
            let mut m = "UDPHeader.total_length should be ".to_owned();
            let d = decimal(in_len as u64);
            m.append(d.as_str());
            m.append(" but is ");
            let d2 = decimal(total_length as u64);
            m.append(d2.as_str());
            return Err(m);
        }

        Ok(UDPHeader { src_port, dst_port })
    }

    /// The running word sum of the RFC 768 pseudo-header for an IPv4
    /// source/destination pair.
    fn pseudo_header_checksum(packet: &Packet, info: &InternetInfo) -> (r: u32)
        requires
            packet.wf(),
            info.src_addr is IPv4,
            info.dst_addr is IPv4,
            8 + packet@.len() < 0xFFFF,
        ensures
            r == sum16(
                udp_pseudo_header(
                    info.src_addr->IPv4_0@,
                    info.dst_addr->IPv4_0@,
                    (8 + packet@.len()) as int,
                ),
            ),
    {
        match info.dst_addr {
            IPAddress::IPv4(dst_addr) => match info.src_addr {
                IPAddress::IPv4(src_addr) => {
                    let mut header = Header::with_capacity(12);
                    header.push8(src_addr[0]);
                    header.push8(src_addr[1]);
                    header.push8(src_addr[2]);
                    header.push8(src_addr[3]);

                    header.push8(dst_addr[0]);
                    header.push8(dst_addr[1]);
                    header.push8(dst_addr[2]);
                    header.push8(dst_addr[3]);

                    header.push8(0);
                    header.push8(17);

                    let len: u16 = packet.len() as u16;
                    header.push16(8 + len);

                    proof {
                        assert(header@ =~= udp_pseudo_header(
                            src_addr@,
                            dst_addr@,
                            (8 + packet@.len()) as int,
                        ));
                    }
                    header.start_checksum(0)
                },
                IPAddress::IPv6(_) => {
                    proof {
                        assert(false);
                    }
                    0
                },
            },
            IPAddress::IPv6(_) => {
                proof {
                    assert(false);
                }
                0
            },
        }
    }
}

/// The checksum the header carries is exactly the RFC 768 checksum: one
/// Internet checksum over the pseudo-header, the zero-checksum header and
/// the payload laid end to end.
pub proof fn lemma_udp_checksum_is_one_pass(
    h: UDPHeader,
    src: Seq<u8>,
    dst: Seq<u8>,
    payload: Seq<u8>,
)
    requires
        src.len() == 4,
        dst.len() == 4,
    ensures
        udp_checksum(h, src, dst, payload) == crate::checksum::checksum_of(
            udp_pseudo_header(src, dst, (8 + payload.len()) as int) + udp_wire_zero(
                h,
                (8 + payload.len()) as int,
            ) + payload,
        ),
{
    let udp_len = (8 + payload.len()) as int;
    let pseudo = udp_pseudo_header(src, dst, udp_len);
    let zero = udp_wire_zero(h, udp_len);
    crate::checksum::lemma_sum16_concat(pseudo, zero + payload);
    crate::checksum::lemma_sum16_concat(zero, payload);
    assert(pseudo + zero + payload =~= pseudo + (zero + payload));
}

/// A pushed UDP header parses back to its ports with the payload intact:
/// the round trip of the UDP layer.
pub proof fn lemma_udp_round_trip(h: UDPHeader, src: Seq<u8>, dst: Seq<u8>, payload: Seq<u8>)
    requires
        8 + payload.len() < 0xFFFF,
    ensures
        udp_parse_ok(udp_wire(h, src, dst, payload) + payload),
        be16_value(
            (udp_wire(h, src, dst, payload) + payload)[0],
            (udp_wire(h, src, dst, payload) + payload)[1],
        ) == h.src_port,
        be16_value(
            (udp_wire(h, src, dst, payload) + payload)[2],
            (udp_wire(h, src, dst, payload) + payload)[3],
        ) == h.dst_port,
        (udp_wire(h, src, dst, payload) + payload).skip(8) == payload,
{
    let w = udp_wire(h, src, dst, payload);
    let b = w + payload;
    crate::ipv4::lemma_be16_split(h.src_port as int);
    crate::ipv4::lemma_be16_split(h.dst_port as int);
    crate::ipv4::lemma_be16_split((8 + payload.len()) as int);
    assert(b.skip(8) =~= payload);
}

/// The send-down decision of the UDP component: push a header with the
/// well-known ports this model uses and forward descriptor, options and
/// packet to the internet layer.
pub fn udp_send_down(info: InternetInfo, options: SocketOptions, packet: Packet) -> (r: (
    InternetInfo,
    SocketOptions,
    Packet,
))
    requires
        packet.wf(),
        packet.popped() == 0,
        info.src_addr is IPv4,
        info.dst_addr is IPv4,
        8 + packet@.len() < 0xFFFF,
    ensures
        r.0 == info,
        r.1 == options,
        r.2.wf(),
        r.2.popped() == 0,
        r.2@ == udp_wire(
            UDPHeader { src_port: 1, dst_port: 19 },
            info.src_addr->IPv4_0@,
            info.dst_addr->IPv4_0@,
            packet@,
        ) + packet@,
        r.2.spec_name() == packet.spec_name(),
        r.2.spec_id() == packet.spec_id(),
{
    let mut packet = packet;
    let src_port: u16 = 1;
    let header = UDPHeader::new(src_port, 19);
    header.push(&mut packet, &info);
    (info, options, packet)
}

/// The send-up decision of the UDP component: pop the header and forward
/// the packet; a failure means the component logs a warning and drops the
/// packet.
pub fn udp_send_up(packet: Packet) -> (r: Result<(UDPHeader, Packet), String>)
    requires
        packet.wf(),
        packet@.len() >= 8,
    ensures
        r is Ok <==> udp_parse_ok(packet@),
        r matches Ok((h, p)) ==> {
            &&& h.src_port == be16_value(packet@[0], packet@[1])
            &&& h.dst_port == be16_value(packet@[2], packet@[3])
            &&& p.wf()
            &&& p@ == packet@.skip(8)
            &&& p.spec_name() == packet.spec_name()
            &&& p.spec_id() == packet.spec_id()
        },
        r matches Err(m) ==> m@ == udp_length_err(
            packet@.len() as int,
            be16_value(packet@[4], packet@[5]),
        ),
{
    let mut packet = packet;
    match UDPHeader::pop(&mut packet) {
        Ok(header) => Ok((header, packet)),
        Err(mesg) => Err(mesg),
    }
}

} // verus!
