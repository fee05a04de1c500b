//! The 802.11 MAC layer: the 26-byte data-frame header, the CRC-32 frame
//! check sequence appended to the tail, and the per-component 12-bit
//! sequence counter.
//!
//! Unless otherwise indicated all references are to the 2016 version of
//! "Part 11: Wireless LAN Medium Access Control (MAC) and Physical Layer
//! (PHY) Specifications" (i.e. the 802.11 spec).
use vstd::prelude::*;

verus! {

use crate::crc::{crc32, reverse32, spec_crc32, spec_reverse32};
use crate::ether_type::EtherType;
use crate::ipv4::IPv4Header;
use crate::link::{LinkInfo, MacAddress};
use crate::packet::{be16_value, le32_bytes, Header, Packet};

/// In memory representation of a MAC 802.11 data header.
#[derive(Clone, Copy)]
pub struct Mac80211DataFrame  // see 9.3.2
{
    /// Address the frame originated at.
    pub sa: MacAddress,
    /// Address the frame is being sent from. Often the same as sa.
    pub ta: MacAddress,
    /// Address the frame is being forwarded to. Often the same as da.
    pub ra: MacAddress,
    /// Address the frame is being routed to.
    pub da: MacAddress,
    /// AP address.
    pub bssid: MacAddress,
    /// Sequence number set by the TA; twelve bits.
    pub seq_num: u16,
}

/// The 26 header bytes of a data frame: frame control 0x8800, duration
/// zero, address 1 the DA, address 2 the SA, address 3 the BSSID, the
/// sequence number shifted into the high twelve bits of the sequence
/// control word, and the fixed QoS control word 0x6000.
pub open spec fn mac_header_bytes_parts(
    da: Seq<u8>,
    sa: Seq<u8>,
    bssid: Seq<u8>,
    seq_num: u16,
) -> Seq<u8> {
    seq![0x88u8, 0x00u8, 0x00u8, 0x00u8] + da + sa + bssid + seq![
        ((seq_num * 16) / 256) as u8,
        ((seq_num * 16) % 256) as u8,
        0x60u8,
        0x00u8,
    ]
}

pub open spec fn mac_header_bytes(f: Mac80211DataFrame) -> Seq<u8> {
    mac_header_bytes_parts(f.da@, f.sa@, f.bssid@, f.seq_num)
}

/// The whole frame as it leaves the MAC: header, payload, and the CRC-32 of
/// both appended as four little-endian bytes.
pub open spec fn mac_frame_bytes(f: Mac80211DataFrame, payload: Seq<u8>) -> Seq<u8> {
    let m = mac_header_bytes(f) + payload;
    m + le32_bytes(spec_crc32(m))
}

/// A received frame is accepted when recomputing the CRC-32 over the whole
/// frame, its FCS included, yields the well-known residue, and the protocol
/// version bits of the frame control word are zero.
pub open spec fn mac_parse_ok(b: Seq<u8>) -> bool {
    &&& spec_crc32(b) == 0x2144DF1Cu32
    &&& be16_value(b[0], b[1]) % 4 == 0
}

pub open spec fn mac_checksum_err() -> Seq<char> {
    "Checksum error"@
}

pub open spec fn mac_version_err() -> Seq<char> {
    "Version isn't zero"@
}

pub open spec fn mac_err_text(b: Seq<u8>) -> Seq<char> {
    if spec_crc32(b) != 0x2144DF1Cu32 {
        mac_checksum_err()
    } else {
        mac_version_err()
    }
}

pub open spec fn mac_err_consumed(b: Seq<u8>) -> int {
    if spec_crc32(b) != 0x2144DF1Cu32 {
        0
    } else {
        2
    }
}

/// The frame the MAC builds for an IPv4 packet: placeholder addresses
/// derived from the IPv4 addresses, a zero BSSID, and the given sequence
/// number.
pub open spec fn mac_frame_from_ipv4(
    f: Mac80211DataFrame,
    ipv4: IPv4Header,
    seq_num: u16,
) -> bool {
    &&& f.sa@ == seq![0u8, 0u8] + ipv4.src_addr@
    &&& f.ta@ == seq![0u8, 0u8] + ipv4.dst_addr@
    &&& f.ra@ == f.sa@
    &&& f.da@ == f.ta@
    &&& f.bssid@ == seq![0u8, 0u8, 0u8, 0u8, 0u8, 0u8]
    &&& f.seq_num == seq_num
}

impl Mac80211DataFrame {
    pub fn new(ipv4: &IPv4Header, seq_num: u16) -> (r: Mac80211DataFrame)
        ensures
            mac_frame_from_ipv4(r, *ipv4, seq_num),
    {
        let sa: MacAddress = [
            0,
            0,
            ipv4.src_addr[0],
            ipv4.src_addr[1],
            ipv4.src_addr[2],
            ipv4.src_addr[3],
        ];
        let ta: MacAddress = [
            0,
            0,
            ipv4.dst_addr[0],
            ipv4.dst_addr[1],
            ipv4.dst_addr[2],
            ipv4.dst_addr[3],
        ];
        let bssid: MacAddress = [0, 0, 0, 0, 0, 0];

        let r = Mac80211DataFrame { sa, ta, ra: sa, da: ta, bssid, seq_num };
        proof {
            assert(r.sa@ =~= seq![0u8, 0u8] + ipv4.src_addr@);
            assert(r.ta@ =~= seq![0u8, 0u8] + ipv4.dst_addr@);
            assert(r.bssid@ =~= seq![0u8, 0u8, 0u8, 0u8, 0u8, 0u8]);
        }
        r
    }

    /// Adds an 802.11 data header to the packet and appends the CRC-32 of
    /// the composed frame to the tail as the FCS.
    pub fn push(&self, packet: &mut Packet)
        requires
            old(packet).wf(),
            old(packet).popped() == 0,
            self.seq_num < 4096,
        ensures
            final(packet).wf(),
            final(packet).popped() == 0,
            final(packet)@ == mac_frame_bytes(*self, old(packet)@),
            final(packet).spec_name() == old(packet).spec_name(),
            final(packet).spec_id() == old(packet).spec_id(),
    {
        let mut header = Header::with_capacity(26);

        // Frame control, see 9.2.4.1; B0 is the low bit in the first byte.
        header.push16(0b1000_1000_0000_0000);

        // Duration/ID, see 9.2.4.2.
        header.push16(0);

        // Address 1, see 9.3.2.1.
        header.push8(self.da[0]);
        header.push8(self.da[1]);
        header.push8(self.da[2]);
        header.push8(self.da[3]);
        header.push8(self.da[4]);
        header.push8(self.da[5]);

        // Address 2.
        header.push8(self.sa[0]);
        header.push8(self.sa[1]);
        header.push8(self.sa[2]);
        header.push8(self.sa[3]);
        header.push8(self.sa[4]);
        header.push8(self.sa[5]);

        // Address 3.
        header.push8(self.bssid[0]);
        header.push8(self.bssid[1]);
        header.push8(self.bssid[2]);
        header.push8(self.bssid[3]);
        header.push8(self.bssid[4]);
        header.push8(self.bssid[5]);

        // Sequence control, see 9.2.4.4.1.
        let s = self.seq_num;
        proof {
            assert(s << 4 == s * 16) by (bit_vector)
                requires s < 4096;
        }
        header.push16(s << 4);

        // QoS control, see 9.2.4.5.1.
        header.push16(0b0110_0000_0000_0000);

        proof {
            assert(header@ =~= mac_header_bytes(*self));
        }
        packet.push_header(&header);

        // Note that 802.3 has a minimum frame body size but 802.11 does not.
        // The FCS is always little endian.
        let crc: u32 = crc32(packet);
        let fcs: [u8; 4] = [
            (crc & 0xFF) as u8,
            (crc >> 8 & 0xFF) as u8,
            (crc >> 16 & 0xFF) as u8,
            (crc >> 24 & 0xFF) as u8,
        ];
        proof {
            assert((crc & 0xFF) as u8 == (crc % 256) as u8 && (crc >> 8 & 0xFF) as u8 == ((crc
                / 256) % 256) as u8 && (crc >> 16 & 0xFF) as u8 == ((crc / 0x10000) % 256) as u8
                && (crc >> 24 & 0xFF) as u8 == (crc / 0x1000000) as u8) by (bit_vector);
            assert(fcs@ =~= le32_bytes(crc));
        }
        packet.push_back_bytes(&fcs);
        proof {
            assert(final(packet)@ =~= mac_frame_bytes(*self, old(packet)@));
        }
    }

    /// Removes an 802.11 data header and the trailing FCS from the packet.
    /// When sending, the CRC covers everything but the FCS itself; when
    /// receiving, the CRC covers the FCS too, and a valid frame's check
    /// always comes out as the residue 0xC704DD7B.
    pub fn pop(packet: &mut Packet) -> (r: Result<Mac80211DataFrame, String>)
        requires
            old(packet).wf(),
            old(packet)@.len() >= 30,
        ensures
            final(packet).wf(),
            final(packet).spec_name() == old(packet).spec_name(),
            final(packet).spec_id() == old(packet).spec_id(),
            r is Ok <==> mac_parse_ok(old(packet)@),
            r matches Ok(h) ==> {
                &&& h.ra@ == old(packet)@.subrange(4, 10)
                &&& h.da@ == old(packet)@.subrange(4, 10)
                &&& h.sa@ == old(packet)@.subrange(10, 16)
                &&& h.ta@ == old(packet)@.subrange(10, 16)
                &&& h.bssid@ == old(packet)@.subrange(16, 22)
                &&& h.seq_num == be16_value(old(packet)@[22], old(packet)@[23]) / 16
                &&& final(packet)@ == old(packet)@.subrange(26, old(packet)@.len() - 4)
            },
            r matches Err(m) ==> m@ == mac_err_text(old(packet)@) && final(packet)@ == old(
                packet,
            )@.skip(mac_err_consumed(old(packet)@)),
    {
        let c: u32 = crc32(packet);
        let crc: u32 = reverse32(!c);
        proof {
            crate::crc::lemma_crc32_check_forms(c);
            assert(spec_reverse32(!c) == crc);
        }
        if crc != 0xC704DD7B {
            return Err("Checksum error".to_owned());
        }

        let frame_control: u16 = packet.pop16();
        proof {
            assert((frame_control & 0b11) == frame_control % 4) by (bit_vector);
        }
        if frame_control & 0b11 != 0 {
            // 9.2.4.1.2
            return Err("Version isn't zero".to_owned());
        }
        let _duration = packet.pop16();

        let a0 = packet.pop8();
        let a1 = packet.pop8();
        let a2 = packet.pop8();
        let a3 = packet.pop8();
        let a4 = packet.pop8();
        let a5 = packet.pop8();
        let addr1: MacAddress = [a0, a1, a2, a3, a4, a5];

        let b0 = packet.pop8();
        let b1 = packet.pop8();
        let b2 = packet.pop8();
        let b3 = packet.pop8();
        let b4 = packet.pop8();
        let b5 = packet.pop8();
        let addr2: MacAddress = [b0, b1, b2, b3, b4, b5];

        let c0 = packet.pop8();
        let c1 = packet.pop8();
        let c2 = packet.pop8();
        let c3 = packet.pop8();
        let c4 = packet.pop8();
        let c5 = packet.pop8();
        let addr3: MacAddress = [c0, c1, c2, c3, c4, c5];

        let sn: u16 = packet.pop16();
        let _qos = packet.pop16();

        // The FCS was already covered when the CRC was recomputed above.
        let _ = packet.pop_back8();
        let _ = packet.pop_back8();
        let _ = packet.pop_back8();
        let _ = packet.pop_back8();

        proof {
            assert(sn >> 4 == sn / 16) by (bit_vector);
            assert(addr1@ =~= old(packet)@.subrange(4, 10));
            assert(addr2@ =~= old(packet)@.subrange(10, 16));
            assert(addr3@ =~= old(packet)@.subrange(16, 22));
            assert(final(packet)@ =~= old(packet)@.subrange(26, old(packet)@.len() - 4));
        }
        Ok(
            Mac80211DataFrame {
                sa: addr2,
                ta: addr2,
                ra: addr1,
                da: addr1,
                bssid: addr3,
                seq_num: sn >> 4,
            },
        )
    }
}

/// A pushed data frame checks out against the residue and parses back to
/// the wire-carried fields, with the payload restored: the round trip of
/// the MAC layer. The wire carries three addresses, so the receiver reads
/// TA as SA and RA as DA.
pub proof fn lemma_mac80211_round_trip(f: Mac80211DataFrame, payload: Seq<u8>)
    requires
        f.seq_num < 4096,
    ensures
        mac_parse_ok(mac_frame_bytes(f, payload)),
        mac_frame_bytes(f, payload).subrange(4, 10) == f.da@,
        mac_frame_bytes(f, payload).subrange(10, 16) == f.sa@,
        mac_frame_bytes(f, payload).subrange(16, 22) == f.bssid@,
        be16_value(mac_frame_bytes(f, payload)[22], mac_frame_bytes(f, payload)[23]) / 16
            == f.seq_num,
        mac_frame_bytes(f, payload).subrange(26, mac_frame_bytes(f, payload).len() - 4)
            == payload,
{
    let m = mac_header_bytes(f) + payload;
    let b = mac_frame_bytes(f, payload);
    crate::crc::lemma_crc32_of_frame_with_fcs(m);
    assert(b == m + le32_bytes(spec_crc32(m)));

    assert(b[0] == 0x88 && b[1] == 0x00);
    assert(be16_value(0x88u8, 0x00u8) % 4 == 0);

    assert(b.subrange(4, 10) =~= f.da@);
    assert(b.subrange(10, 16) =~= f.sa@);
    assert(b.subrange(16, 22) =~= f.bssid@);
    assert(b.subrange(26, b.len() - 4) =~= payload);

    let sc = f.seq_num * 16;
    assert(b[22] == (sc / 256) as u8 && b[23] == (sc % 256) as u8);
    crate::ipv4::lemma_be16_split(sc as int);
    assert(sc / 16 == f.seq_num as int) by (nonlinear_arith)
        requires sc == f.seq_num * 16;
}

/// The next value of the 12-bit sequence counter.
pub open spec fn mac_next_sn(sn: int) -> int {
    (sn + 1) % 4096
}

/// The counter value before the `n`-th transmission after starting at `k`.
pub open spec fn mac_sn_iter(k: int, n: nat) -> int
    decreases n,
{
    if n == 0 {
        k
    } else {
        mac_next_sn(mac_sn_iter(k, (n - 1) as nat))
    }
}

/// Sequence monotonicity: each transmission emits the current counter and
/// steps it once, so over N transmissions a MAC starting at k emits
/// exactly k, k+1, ..., k+N-1 modulo 4096.
pub proof fn lemma_mac_sequence_monotonic(k: int, n: nat)
    requires
        0 <= k < 4096,
    ensures
        mac_sn_iter(k, n) == (k + n) % 4096,
    decreases n,
{
    if n == 0 {
        vstd::arithmetic::div_mod::lemma_small_mod(k as nat, 4096);
    } else {
        lemma_mac_sequence_monotonic(k, (n - 1) as nat);
        vstd::arithmetic::div_mod::lemma_add_mod_noop(k + n - 1, 1, 4096);
        vstd::arithmetic::div_mod::lemma_small_mod(1, 4096);
        vstd::arithmetic::div_mod::lemma_mod_twice(k + n - 1, 4096);
    }
}

/// The send-down decision of the MAC component: emit a frame carrying the
/// current sequence number and step the 12-bit counter.
pub fn mac_send_down(sn: u16, ipv4: &IPv4Header, packet: Packet) -> (r: (u16, Packet))
    requires
        sn < 4096,
        packet.wf(),
        packet.popped() == 0,
    ensures
        r.0 == mac_next_sn(sn as int),
        exists|f: Mac80211DataFrame|
            mac_frame_from_ipv4(f, *ipv4, sn) && r.1@ == mac_frame_bytes(f, packet@),
        r.1.wf(),
        r.1.spec_name() == packet.spec_name(),
        r.1.spec_id() == packet.spec_id(),
{
    let ghost payload = packet@;
    let mut packet = packet;
    let header = Mac80211DataFrame::new(ipv4, sn);
    header.push(&mut packet);
    let next = (sn + 1) % 4096;
    proof {
        assert(mac_frame_from_ipv4(header, *ipv4, sn) && packet@ == mac_frame_bytes(
            header,
            payload,
        ));
    }
    (next, packet)
}

/// The send-up decision of the MAC component: pop and verify the frame and
/// emit the link information; 802.11 carries no EtherType, so the length
/// value zero stands in. A failure means the component drops the frame.
pub fn mac_send_up(packet: Packet) -> (r: Result<(LinkInfo, Packet), String>)
    requires
        packet.wf(),
        packet@.len() >= 30,
    ensures
        r is Ok <==> mac_parse_ok(packet@),
        r matches Ok((info, p)) ==> {
            &&& info.ether_type == EtherType::EthernetLength(0)
            &&& info.src_addr@ == packet@.subrange(10, 16)
            &&& info.dst_addr@ == packet@.subrange(4, 10)
            &&& p.wf()
            &&& p@ == packet@.subrange(26, packet@.len() - 4)
            &&& p.spec_name() == packet.spec_name()
            &&& p.spec_id() == packet.spec_id()
        },
        r matches Err(m) ==> m@ == mac_err_text(packet@),
{
    let mut packet = packet;
    match Mac80211DataFrame::pop(&mut packet) {
        Ok(header) => {
            let linfo = LinkInfo::new(EtherType::from_u16(0), &header.sa, &header.da);
            Ok((linfo, packet))
        },
        Err(mesg) => Err(mesg),
    }
}

} // verus!
