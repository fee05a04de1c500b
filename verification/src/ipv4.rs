//! The IPv4 layer: the in-memory header, its 20-byte RFC 791 wire form with
//! the Internet checksum at offset 10, and the checks a receiver runs before
//! accepting a header.
use vstd::prelude::*;

verus! {

use vstd::string::StringExecFns;
use crate::checksum::checksum_of;
use crate::internet_info::InternetInfo;
use crate::ip_address::IPAddress;
use crate::packet::{be16_value, Header, Packet};
use crate::socket::{spec_qos_value, SocketOptions};
use crate::text::{decimal, spec_decimal};

/// The explicit congestion notification field: the low two bits of the
/// traffic class byte.
#[derive(Clone, Copy, Debug, PartialEq, Eq, Structural)]
pub enum ECN {
    NotCapable,
    Capable0,
    Capable1,
    Congested,
}

pub open spec fn spec_ecn_value(e: ECN) -> int {
    match e {
        ECN::NotCapable => 0,
        ECN::Capable0 => 1,
        ECN::Capable1 => 2,
        ECN::Congested => 3,
    }
}

pub open spec fn spec_ecn_from(v: int) -> ECN {
    if v == 0 {
        ECN::NotCapable
    } else if v == 1 {
        ECN::Capable0
    } else if v == 2 {
        ECN::Capable1
    } else {
        ECN::Congested
    }
}

impl ECN {
    pub fn as_u8(self) -> (r: u8)
        ensures
            r == spec_ecn_value(self),
    {
        match self {
            ECN::NotCapable => 0,
            ECN::Capable0 => 1,
            ECN::Capable1 => 2,
            ECN::Congested => 3,
        }
    }
}

/// In-memory version of the IPv4 header. When serialized to a [`Packet`] it
/// is packed according to RFC 791; options are not supported, so the IHL is
/// always 5.
#[derive(Clone, Copy)]
pub struct IPv4Header {
    /// TCP, UDP, IGMP, OSPF, etc.
    pub protocol: u8,
    /// The sender of the packet.
    pub src_addr: [u8; 4],
    /// The destination of the packet.
    pub dst_addr: [u8; 4],
    /// Differentiated services field (formerly TOS), six bits.
    pub dscp: u8,
    /// Explicit congestion notification field.
    pub ecn: ECN,
    /// Time to live: maximum number of hops the packet may travel.
    pub ttl: u8,
    /// If the packet is too large, drop it instead of fragmenting it.
    pub dont_fragment: bool,
    /// Set for fragmented packets, except for the very last fragment.
    pub more_fragments: bool,
    /// The offset in bytes of the fragment within the original packet,
    /// thirteen bits.
    pub fragment_offset: u16,
    /// Used to re-assemble fragmented packets.
    pub identification: u16,
}

/// The field ranges a header must respect before it can be serialized.
pub open spec fn ipv4_header_wf(h: IPv4Header) -> bool {
    &&& h.protocol != 255
    &&& h.dscp < 64
    &&& h.fragment_offset < 8192
}

/// The flags-and-fragment-offset word: more-fragments in bit 15,
/// don't-fragment in bit 14, the reserved bit 13 clear.
pub open spec fn spec_flags_word(h: IPv4Header) -> int {
    (if h.more_fragments {
        0x8000int
    } else {
        0
    }) + (if h.dont_fragment {
        0x4000int
    } else {
        0
    }) + h.fragment_offset
}

/// The 20 header bytes with the checksum field still zero.
pub open spec fn ipv4_wire_zero(h: IPv4Header, total_len: int) -> Seq<u8> {
    seq![
        0x45u8,
        (h.dscp * 4 + spec_ecn_value(h.ecn)) as u8,
        (total_len / 256) as u8,
        (total_len % 256) as u8,
        (h.identification / 256) as u8,
        (h.identification % 256) as u8,
        (spec_flags_word(h) / 256) as u8,
        (spec_flags_word(h) % 256) as u8,
        h.ttl,
        h.protocol,
        0u8,
        0u8,
        h.src_addr@[0],
        h.src_addr@[1],
        h.src_addr@[2],
        h.src_addr@[3],
        h.dst_addr@[0],
        h.dst_addr@[1],
        h.dst_addr@[2],
        h.dst_addr@[3],
    ]
}

/// The 20 header bytes as sent: the Internet checksum of the zero-checksum
/// header written at offsets 10 and 11.
pub open spec fn ipv4_wire(h: IPv4Header, total_len: int) -> Seq<u8> {
    let z = ipv4_wire_zero(h, total_len);
    let c = checksum_of(z);
    z.update(10, (c / 256) as u8).update(11, (c % 256) as u8)
}

/// What a received 20-byte prefix must satisfy to be accepted: checksum
/// zero, version 4, IHL 5, declared length equal to the packet length, the
/// reserved flag bit clear, and a protocol other than RESERVED.
pub open spec fn ipv4_parse_ok(b: Seq<u8>) -> bool {
    &&& checksum_of(b.take(20)) == 0
    &&& b[0] / 16 == 4
    &&& b[0] % 16 == 5
    &&& be16_value(b[2], b[3]) == b.len()
    &&& (be16_value(b[6], b[7]) / 0x2000) % 2 == 0
    &&& b[9] != 255
}

/// The header a received byte sequence decodes to, field by field.
pub open spec fn ipv4_header_matches(h: IPv4Header, b: Seq<u8>) -> bool {
    &&& h.protocol == b[9]
    &&& h.src_addr@ == b.subrange(12, 16)
    &&& h.dst_addr@ == b.subrange(16, 20)
    &&& h.dscp == b[1] / 4
    &&& h.ecn == spec_ecn_from(b[1] as int % 4)
    &&& h.ttl == b[8]
    &&& h.identification == be16_value(b[4], b[5])
    &&& h.more_fragments == ((be16_value(b[6], b[7]) / 0x8000) % 2 == 1)
    &&& h.dont_fragment == ((be16_value(b[6], b[7]) / 0x4000) % 2 == 1)
    &&& h.fragment_offset == be16_value(b[6], b[7]) % 0x2000
}

pub open spec fn ipv4_checksum_err() -> Seq<char> {
    "IPv4Header checksum error"@
}

pub open spec fn ipv4_version_err(version: int) -> Seq<char> {
    "IPv4Header.version should be 4 not "@ + spec_decimal(version)
}

pub open spec fn ipv4_ihl_err(ihl: int) -> Seq<char> {
    "IPv4Header.IHL should be 5 not "@ + spec_decimal(ihl)
}

pub open spec fn ipv4_length_err(expected: int, declared: int) -> Seq<char> {
    "IPv4Header.total_length should be "@ + spec_decimal(expected) + " but is "@ + spec_decimal(
        declared,
    )
}

pub open spec fn ipv4_flags_err() -> Seq<char> {
    "IPv4Header.flags has bit 0 set"@
}

pub open spec fn ipv4_protocol_err() -> Seq<char> {
    "IPv4Header.protocol is using the RESERVED protocol (use one of the unassigned values instead for a custom protocol)"@
}

/// The error a receiver reports for a rejected byte sequence: the checks run
/// in a fixed order and the first failure wins.
pub open spec fn ipv4_err_text(b: Seq<u8>) -> Seq<char> {
    if checksum_of(b.take(20)) != 0 {
        ipv4_checksum_err()
    } else if b[0] / 16 != 4 {
        ipv4_version_err(b[0] as int / 16)
    } else if b[0] % 16 != 5 {
        ipv4_ihl_err(b[0] as int % 16)
    } else if be16_value(b[2], b[3]) != b.len() {
        ipv4_length_err(b.len() as int, be16_value(b[2], b[3]))
    } else if (be16_value(b[6], b[7]) / 0x2000) % 2 == 1 {
        ipv4_flags_err()
    } else {
        ipv4_protocol_err()
    }
}

/// How many bytes a failed parse has consumed off the front when it gives
/// up.
pub open spec fn ipv4_err_consumed(b: Seq<u8>) -> int {
    if checksum_of(b.take(20)) != 0 {
        0
    } else if b[0] / 16 != 4 || b[0] % 16 != 5 {
        1
    } else if be16_value(b[2], b[3]) != b.len() {
        4
    } else if (be16_value(b[6], b[7]) / 0x2000) % 2 == 1 {
        8
    } else {
        10
    }
}

// See https://en.wikipedia.org/wiki/IPv4#Packet_structure
impl IPv4Header {
    pub fn new(protocol: u8, src_addr: [u8; 4], dst_addr: [u8; 4], options: &SocketOptions) -> (r:
        IPv4Header)
        requires
            protocol != 255,
        ensures
            r.protocol == protocol,
            r.src_addr@ == src_addr@,
            r.dst_addr@ == dst_addr@,
            r.dscp == spec_qos_value(options.qos) / 4,
            r.ecn == ECN::NotCapable,
            r.ttl == options.ttl,
            r.dont_fragment == options.dont_fragment,
            !r.more_fragments,
            r.fragment_offset == 0,
            r.identification == 0,
            ipv4_header_wf(r),
    {
        IPv4Header {
            protocol,
            src_addr,
            dst_addr,
            dscp: options.qos.as_u8() / 4,
            ecn: ECN::NotCapable,
            ttl: options.ttl,
            dont_fragment: options.dont_fragment,
            more_fragments: false,
            fragment_offset: 0,
            identification: 0,
        }
    }

    /// Builds a header from the inter-layer descriptor and the socket
    /// options. Only IPv4 addresses are supported.
    pub fn with_internet(info: &InternetInfo, options: &SocketOptions) -> (r: IPv4Header)
        requires
            info.src_addr is IPv4,
            info.dst_addr is IPv4,
            info.protocol != 255,
        ensures
            r.protocol == info.protocol,
            r.src_addr@ == info.src_addr->IPv4_0@,
            r.dst_addr@ == info.dst_addr->IPv4_0@,
            r.dscp == spec_qos_value(options.qos) / 4,
            r.ecn == ECN::NotCapable,
            r.ttl == options.ttl,
            r.dont_fragment == options.dont_fragment,
            !r.more_fragments,
            r.fragment_offset == 0,
            r.identification == 0,
            ipv4_header_wf(r),
    {
        match info.dst_addr {
            IPAddress::IPv4(dst_addr) => match info.src_addr {
                IPAddress::IPv4(src_addr) => IPv4Header {
                    protocol: info.protocol,
                    src_addr,
                    dst_addr,
                    dscp: options.qos.as_u8() / 4,
                    ecn: ECN::NotCapable,
                    ttl: options.ttl,
                    dont_fragment: options.dont_fragment,
                    more_fragments: false,
                    fragment_offset: 0,
                    identification: 0,
                },
                IPAddress::IPv6(_) => {
                    proof {
                        assert(false);
                    }
                    IPv4Header::new(info.protocol, [0, 0, 0, 0], [0, 0, 0, 0], options)
                },
            },
            IPAddress::IPv6(_) => {
                proof {
                    assert(false);
                }
                IPv4Header::new(info.protocol, [0, 0, 0, 0], [0, 0, 0, 0], options)
            },
        }
    }

    /// Adds an IP header to the packet: 20 bytes, checksum written last.
    pub fn push(&self, packet: &mut Packet)
        requires
            old(packet).wf(),
            old(packet).popped() == 0,
            ipv4_header_wf(*self),
            20 + old(packet)@.len() <= 0xFFFF,
        ensures
            final(packet).wf(),
            final(packet).popped() == 0,
            final(packet)@ == ipv4_wire(*self, (20 + old(packet)@.len()) as int) + old(packet)@,
            final(packet).spec_name() == old(packet).spec_name(),
            final(packet).spec_id() == old(packet).spec_id(),
    {
        let payload_len: usize = packet.len();
        let ghost total_len: int = 20 + payload_len;
        let mut header = Header::with_capacity(20);

        // Version and IHL: options are not supported, so the length is fixed.
        header.push8(0x45);

        // DSCP and ECN share a byte.
        let e: u8 = self.ecn.as_u8();
        let b: u8 = self.dscp << 2 | e;
        proof {
            let d = self.dscp;
            assert(d << 2 | e == d * 4 + e) by (bit_vector)
                requires d < 64 && e < 4;
        }
        header.push8(b);

        // Total length.
        let hw: usize = 20 + payload_len;
        header.push16(hw as u16);

        header.push16(self.identification);

        // Flags and fragment offset.
        let m: u16 = if self.more_fragments { 0x8000 } else { 0 };
        let d: u16 = if self.dont_fragment { 0x4000 } else { 0 };
        let fw: u16 = m | d | self.fragment_offset;
        proof {
            let off = self.fragment_offset;
            assert(m | d | off == m + d + off) by (bit_vector)
                requires (m == 0 || m == 0x8000) && (d == 0 || d == 0x4000) && off < 0x2000;
        }
        header.push16(fw);

        header.push8(self.ttl);
        header.push8(self.protocol);

        // Checksum: set for real after the rest of the header is staged.
        header.push16(0);

        header.push8(self.src_addr[0]);
        header.push8(self.src_addr[1]);
        header.push8(self.src_addr[2]);
        header.push8(self.src_addr[3]);

        header.push8(self.dst_addr[0]);
        header.push8(self.dst_addr[1]);
        header.push8(self.dst_addr[2]);
        header.push8(self.dst_addr[3]);

        proof {
            assert(header@ =~= ipv4_wire_zero(*self, total_len));
        }

        let crc: u16 = header.checksum();
        proof {
            assert(crc >> 8 == crc / 256 && (crc & 0xFF) == crc % 256) by (bit_vector);
            crate::checksum::lemma_checksum_of_bounds(ipv4_wire_zero(*self, total_len));
        }
        header.data.set(10, (crc >> 8) as u8);
        header.data.set(11, (crc & 0xFF) as u8);
        proof {
            assert(header@ =~= ipv4_wire(*self, total_len));
        }

        packet.push_header(&header);
    }

    /// Removes an IP header from the packet, verifying the checksum first
    /// and then each field; a failure is reported as a descriptive error
    /// string and the packet is left partially consumed.
    pub fn pop(packet: &mut Packet) -> (r: Result<IPv4Header, String>)
        requires
            old(packet).wf(),
            old(packet)@.len() >= 20,
        ensures
            final(packet).wf(),
            final(packet).spec_name() == old(packet).spec_name(),
            final(packet).spec_id() == old(packet).spec_id(),
            r is Ok <==> ipv4_parse_ok(old(packet)@),
            r matches Ok(h) ==> ipv4_header_matches(h, old(packet)@) && final(packet)@ == old(
                packet,
            )@.skip(20),
            r matches Err(m) ==> m@ == ipv4_err_text(old(packet)@) && final(packet)@ == old(
                packet,
            )@.skip(ipv4_err_consumed(old(packet)@)),
    {
        let ghost bytes = old(packet)@;
        let in_len: usize = packet.len();
        let crc: u16 = packet.checksum(20);
        if crc != 0 {
            return Err("IPv4Header checksum error".to_owned());
        }

        let b: u8 = packet.pop8();
        let version: u8 = b >> 4;
        let ihl: u8 = b & 0xF;
        proof {
            assert(b >> 4 == b / 16 && (b & 0xF) == b % 16) by (bit_vector);
        }
        if version != 4 {
            // Packets can be corrupted in ways the checksum does not catch,
            // so the header fields are verified as well.
            let mut m = "IPv4Header.version should be 4 not ".to_owned();
            let d = decimal(version as u64);
            m.append(d.as_str());
            return Err(m);
        }
        if ihl != 5 {
            let mut m = "IPv4Header.IHL should be 5 not ".to_owned();
            let d = decimal(ihl as u64);
            m.append(d.as_str());
            return Err(m);
        }

        let b: u8 = packet.pop8();
        let dscp: u8 = b >> 2;
        let e: u8 = b & 0x3;
        proof {
            assert(b >> 2 == b / 4 && (b & 0x3) == b % 4 && b % 4 < 4) by (bit_vector);
        }
        let ecn = if e == 0 {
            ECN::NotCapable
        } else if e == 1 {
            ECN::Capable0
        } else if e == 2 {
            ECN::Capable1
        } else {
            ECN::Congested
        };

        let total_length: u16 = packet.pop16();
        if total_length as usize != in_len {
            let mut m = "IPv4Header.total_length should be ".to_owned();
            let d = decimal(in_len as u64);
            m.append(d.as_str());
            m.append(" but is ");
            let d2 = decimal(total_length as u64);
            m.append(d2.as_str());
            return Err(m);
        }

        let identification: u16 = packet.pop16();

        let hw: u16 = packet.pop16();
        let more_fragments: bool = hw & 0x8000 != 0;
        let dont_fragment: bool = hw & 0x4000 != 0;
        let reserved: bool = hw & 0x2000 != 0;
        let fragment_offset: u16 = hw & 0x1FFF;
        proof {
            assert((hw & 0x8000 != 0 <==> (hw / 0x8000) % 2 == 1) && (hw & 0x4000 != 0 <==> (hw
                / 0x4000) % 2 == 1) && (hw & 0x2000 != 0 <==> (hw / 0x2000) % 2 == 1) && (hw
                & 0x1FFF) == hw % 0x2000) by (bit_vector);
        }
        if reserved {
            return Err("IPv4Header.flags has bit 0 set".to_owned());
        }

        let ttl: u8 = packet.pop8();
        let protocol: u8 = packet.pop8();
        if protocol == 255 {
            return Err(
                "IPv4Header.protocol is using the RESERVED protocol (use one of the unassigned values instead for a custom protocol)".to_owned(),
            );
        }

        // The checksum word was already verified first thing.
        let _ = packet.pop16();

        let s0 = packet.pop8();
        let s1 = packet.pop8();
        let s2 = packet.pop8();
        let s3 = packet.pop8();
        let src_addr: [u8; 4] = [s0, s1, s2, s3];
        let d0 = packet.pop8();
        let d1 = packet.pop8();
        let d2 = packet.pop8();
        let d3 = packet.pop8();
        let dst_addr: [u8; 4] = [d0, d1, d2, d3];

        let header = IPv4Header {
            protocol,
            src_addr,
            dst_addr,
            dscp,
            ecn,
            ttl,
            identification,
            dont_fragment,
            more_fragments,
            fragment_offset,
        };
        proof {
            assert(src_addr@ =~= bytes.subrange(12, 16));
            assert(dst_addr@ =~= bytes.subrange(16, 20));
            assert(final(packet)@ =~= bytes.skip(20));
        }
        Ok(header)
    }
}

/// A pushed header parses back to the header that was pushed, with the
/// payload intact behind it: the round trip of the IPv4 layer.
pub proof fn lemma_ipv4_round_trip(h: IPv4Header, payload: Seq<u8>)
    requires
        ipv4_header_wf(h),
        20 + payload.len() <= 0xFFFF,
    ensures
        ipv4_parse_ok(ipv4_wire(h, (20 + payload.len()) as int) + payload),
        ipv4_header_matches(h, ipv4_wire(h, (20 + payload.len()) as int) + payload),
        (ipv4_wire(h, (20 + payload.len()) as int) + payload).skip(20) == payload,
{
    let total: int = (20 + payload.len()) as int;
    let z = ipv4_wire_zero(h, total as int);
    let w = ipv4_wire(h, total);
    let b = w + payload;
    let c = checksum_of(z);
    crate::checksum::lemma_checksum_of_bounds(z);

    assert(b.take(20) =~= w);
    assert(b.skip(20) =~= payload);

    // The wire bytes with the checksum written in sum to a full fold, so the
    // receiver's checksum of the header is zero.
    assert(checksum_of(w) == 0) by {
        let front = z.take(10);
        let back = z.skip(12);
        assert(z =~= front + (seq![0u8, 0u8] + back));
        assert(w =~= front + (seq![(c / 256) as u8, (c % 256) as u8] + back));
        crate::checksum::lemma_sum16_concat(front, seq![0u8, 0u8] + back);
        crate::checksum::lemma_sum16_concat(seq![0u8, 0u8], back);
        crate::checksum::lemma_sum16_concat(front, seq![(c / 256) as u8, (c % 256) as u8] + back);
        crate::checksum::lemma_sum16_concat(seq![(c / 256) as u8, (c % 256) as u8], back);
        assert(crate::checksum::sum16(seq![(c / 256) as u8, (c % 256) as u8]) == c) by {
            crate::checksum::lemma_sum16_pair((c / 256) as u8, (c % 256) as u8);
            vstd::arithmetic::div_mod::lemma_fundamental_div_mod(c, 256);
            vstd::arithmetic::div_mod::lemma_remainder_upper(c, 256);
            vstd::arithmetic::div_mod::lemma_remainder_lower(c, 256);
            vstd::arithmetic::div_mod::lemma_div_pos_is_pos(c, 256);
        }
        assert(crate::checksum::sum16(seq![0u8, 0u8]) == 0) by {
            crate::checksum::lemma_sum16_pair(0u8, 0u8);
        }
        crate::checksum::lemma_sum16_nonneg(z);
        crate::checksum::lemma_checksum_verifies(crate::checksum::sum16(z));
    }

    // Each field reads back from the bytes it was written to.
    let fw = spec_flags_word(h);
    assert(be16_value(w[6], w[7]) == fw) by {
        lemma_be16_split(fw);
    }
    assert(be16_value(w[2], w[3]) == total) by {
        lemma_be16_split(total);
    }
    assert(be16_value(w[4], w[5]) == h.identification) by {
        lemma_be16_split(h.identification as int);
    }
    assert(b.len() == total);

    let m: u16 = if h.more_fragments { 1 } else { 0 };
    let d: u16 = if h.dont_fragment { 1 } else { 0 };
    let off = h.fragment_offset;
    assert((((m * 0x8000 + d * 0x4000 + off) as int / 0x8000) % 2 == m as int) && (((m * 0x8000 + d
        * 0x4000 + off) as int / 0x4000) % 2 == d as int) && (((m * 0x8000 + d * 0x4000
        + off) as int / 0x2000) % 2 == 0) && ((m * 0x8000 + d * 0x4000 + off) as int % 0x2000
        == off as int)) by (bit_vector)
        requires m <= 1 && d <= 1 && off < 0x2000;

    let dv = h.dscp;
    let e = spec_ecn_value(h.ecn);
    assert(w[1] == (dv * 4 + e) as u8);
    assert((dv * 4 + e) as u8 as int == dv * 4 + e);
    assert((dv * 4 + e) / 4 == dv as int && (dv * 4 + e) % 4 == e) by (nonlinear_arith)
        requires dv < 64 && 0 <= e < 4;
    assert(spec_ecn_from(e) == h.ecn);

    assert(w[0] / 16 == 4 && w[0] % 16 == 5);
    assert(h.src_addr@ =~= b.subrange(12, 16));
    assert(h.dst_addr@ =~= b.subrange(16, 20));
}

/// Carving one aligned word out of a 20-byte header splits its sum into the
/// part before, the word, and the part after.
proof fn lemma_sum16_word_at(t: Seq<u8>, k: int)
    requires
        t.len() == 20,
        0 <= k,
        k + 2 <= 20,
        k % 2 == 0,
    ensures
        crate::checksum::sum16(t) == crate::checksum::sum16(t.take(k)) + ((t[k] as int) * 256 + (
        t[k + 1] as int)) + crate::checksum::sum16(t.skip(k + 2)),
{
    crate::checksum::lemma_sum16_split_even(t, k);
    let rest = t.skip(k);
    assert(crate::checksum::sum16(rest) == (rest[0] as int) * 256 + (rest[1] as int)
        + crate::checksum::sum16(rest.skip(2)));
    assert(rest.skip(2) =~= t.skip(k + 2));
}

/// Flipping any single bit of a correctly checksummed 20-byte header, the
/// checksum's own field included, makes the receiver's checksum verification
/// fail, so the header is rejected with the checksum error.
pub proof fn lemma_ipv4_bit_flip_rejected(b: Seq<u8>, i: int, j: u8)
    requires
        b.len() >= 20,
        0 <= i < 20,
        j < 8,
        checksum_of(b.take(20)) == 0,
    ensures
        checksum_of(b.update(i, b[i] ^ (1u8 << j)).take(20)) != 0,
        !ipv4_parse_ok(b.update(i, b[i] ^ (1u8 << j))),
        ipv4_err_text(b.update(i, b[i] ^ (1u8 << j))) == ipv4_checksum_err(),
{
    let t = b.take(20);
    let x = b[i];
    let mask = 1u8 << j;
    let y = x ^ mask;
    let flipped = b.update(i, y);
    let t2 = flipped.take(20);
    assert(t2 =~= t.update(i, y));

    assert(1 <= mask <= 128 && (x & mask == 0 || x & mask == mask) && (y as int) - (x as int)
        == (mask as int) - 2 * ((x & mask) as int) && (x & mask == mask ==> x >= mask))
        by (bit_vector)
        requires mask == 1u8 << j && j < 8 && y == x ^ mask;
    let dy = (y as int) - (x as int);
    assert(dy == mask || dy == -(mask as int));

    let k = i - i % 2;
    let word = (t[k] as int) * 256 + (t[k + 1] as int);
    lemma_sum16_word_at(t, k);
    lemma_sum16_word_at(t2, k);
    assert(t2.take(k) =~= t.take(k));
    assert(t2.skip(k + 2) =~= t.skip(k + 2));

    let sum = crate::checksum::sum16(t);
    let sum2 = crate::checksum::sum16(t2);
    let scale: int = if i == k { 256 } else { 1 };
    assert(t2[k] as int == if i == k { y as int } else { t[k] as int });
    assert(t2[k + 1] as int == if i == k { t[k + 1] as int } else { y as int });
    let delta = dy * scale;
    assert(sum2 == sum + delta);

    // The flip moves the sum by a power of two below 0xFFFF, so the sum
    // changes modulo 0xFFFF and the fold can no longer be full.
    crate::checksum::lemma_sum16_nonneg(t);
    crate::checksum::lemma_sum16_nonneg(t.take(k));
    crate::checksum::lemma_sum16_nonneg(t.skip(k + 2));
    assert(delta == mask * scale || delta == -(mask as int) * scale) by (nonlinear_arith)
        requires delta == dy * scale && (dy == mask || dy == -(mask as int));
    assert(1 <= mask * scale <= 32768) by (nonlinear_arith)
        requires 1 <= mask <= 128 && (scale == 1 || scale == 256);
    assert(delta < 0 ==> sum >= mask * scale) by {
        if delta < 0 {
            assert(x & mask == mask);
            if i == k {
                assert(word >= (x as int) * 256 >= (mask as int) * 256);
            } else {
                assert(word >= x as int >= mask as int);
            }
        }
    }

    crate::checksum::lemma_fold16_bounds(sum);
    crate::checksum::lemma_fold16_mod(sum);
    assert(crate::checksum::fold16(sum) == 0xFFFF);
    assert(sum % 0xFFFF == 0) by {
        assert(0xFFFFint % 0xFFFF == 0);
    }
    vstd::arithmetic::div_mod::lemma_fundamental_div_mod(sum, 0xFFFF);
    let q = sum / 0xFFFF;
    assert(sum2 == 0xFFFF * q + delta);
    vstd::arithmetic::div_mod::lemma_mod_multiples_vanish(q, delta, 0xFFFF);
    assert(sum2 % 0xFFFF == delta % 0xFFFF);
    assert(delta % 0xFFFF != 0) by {
        if delta > 0 {
            vstd::arithmetic::div_mod::lemma_small_mod(delta as nat, 0xFFFF);
        } else {
            vstd::arithmetic::div_mod::lemma_mod_multiples_vanish(1, delta, 0xFFFF);
            vstd::arithmetic::div_mod::lemma_small_mod((0xFFFF + delta) as nat, 0xFFFF);
        }
    }
    crate::checksum::lemma_fold16_bounds(sum2);
    crate::checksum::lemma_fold16_mod(sum2);
    assert(crate::checksum::fold16(sum2) != 0xFFFF) by {
        assert(0xFFFFint % 0xFFFF == 0);
    }
    assert(checksum_of(t2) != 0);
}

/// Splitting a 16-bit value into its big-endian bytes and reading them back
/// is the identity.
pub proof fn lemma_be16_split(x: int)
    requires
        0 <= x <= 0xFFFF,
    ensures
        be16_value((x / 256) as u8, (x % 256) as u8) == x,
{
    vstd::arithmetic::div_mod::lemma_fundamental_div_mod(x, 256);
    vstd::arithmetic::div_mod::lemma_remainder_upper(x, 256);
    vstd::arithmetic::div_mod::lemma_remainder_lower(x, 256);
    vstd::arithmetic::div_mod::lemma_div_pos_is_pos(x, 256);
}

/// The send-down decision of the IPv4 component: build a header from the
/// descriptor and options, push it, and hand header and packet to the link
/// layer.
pub fn ipv4_send_down(info: &InternetInfo, options: &SocketOptions, packet: Packet) -> (r: (
    IPv4Header,
    Packet,
))
    requires
        info.src_addr is IPv4,
        info.dst_addr is IPv4,
        info.protocol != 255,
        packet.wf(),
        packet.popped() == 0,
        20 + packet@.len() <= 0xFFFF,
    ensures
        r.0.protocol == info.protocol,
        r.0.src_addr@ == info.src_addr->IPv4_0@,
        r.0.dst_addr@ == info.dst_addr->IPv4_0@,
        r.0.ttl == options.ttl,
        r.0.dscp == spec_qos_value(options.qos) / 4,
        r.0.ecn == ECN::NotCapable,
        r.0.dont_fragment == options.dont_fragment,
        !r.0.more_fragments,
        r.0.fragment_offset == 0,
        r.0.identification == 0,
        r.1.wf(),
        r.1@ == ipv4_wire(r.0, (20 + packet@.len()) as int) + packet@,
        r.1.spec_name() == packet.spec_name(),
        r.1.spec_id() == packet.spec_id(),
{
    let mut packet = packet;
    let header = IPv4Header::with_internet(info, options);
    header.push(&mut packet);
    (header, packet)
}

/// The send-up decision of the IPv4 component: pop and verify the header,
/// rebuild the inter-layer descriptor on success; a failure means the
/// component logs a warning and drops the packet.
pub fn ipv4_send_up(packet: Packet) -> (r: Result<(InternetInfo, Packet), String>)
    requires
        packet.wf(),
        packet@.len() >= 20,
    ensures
        r is Ok <==> ipv4_parse_ok(packet@),
        r matches Ok((info, p)) ==> {
            &&& info.protocol == packet@[9]
            &&& info.src_addr matches IPAddress::IPv4(s) && s@ == packet@.subrange(12, 16)
            &&& info.dst_addr matches IPAddress::IPv4(d) && d@ == packet@.subrange(16, 20)
            &&& p.wf()
            &&& p@ == packet@.skip(20)
            &&& p.spec_name() == packet.spec_name()
            &&& p.spec_id() == packet.spec_id()
        },
        r matches Err(m) ==> m@ == ipv4_err_text(packet@),
{
    let mut packet = packet;
    match IPv4Header::pop(&mut packet) {
        Ok(header) => {
            let info = InternetInfo::new(
                header.protocol,
                IPAddress::IPv4(header.src_addr),
                IPAddress::IPv4(header.dst_addr),
            );
            Ok((info, packet))
        },
        Err(mesg) => Err(mesg),
    }
}

} // verus!
