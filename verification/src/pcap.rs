//! The bytes of the pcap capture format, as read by tools such as
//! Wireshark or tshark. Only the byte layout lives here; writing the bytes
//! to a file is left to the surrounding program.
//!
//! The format has no preferred byte order, it only has to be consistent;
//! little endian is used because that is what most hardware uses nowadays.
//! See https://wiki.wireshark.org/Development/LibpcapFileFormat for more.
use vstd::prelude::*;

verus! {

use crate::packet::{le32_bytes, Packet};

/// The two bytes of `x` in little-endian order.
pub open spec fn le16_bytes(x: u16) -> Seq<u8> {
    seq![(x % 256) as u8, (x / 256) as u8]
}

/// The 24-byte pcap global header: magic number, version 2.4, zero
/// timezone correction (timestamps are GMT), zero timestamp accuracy, the
/// snap length, and link layer type 105 (LINKTYPE_IEEE802_11).
pub open spec fn spec_pcap_global_header(snap_length: u32) -> Seq<u8> {
    le32_bytes(0xa1b2c3d4) + le16_bytes(2) + le16_bytes(4) + le32_bytes(0) + le32_bytes(0)
        + le32_bytes(snap_length) + le32_bytes(105)
}

/// The 16-byte per-frame header: seconds, microseconds, the number of
/// bytes recorded (capped at the snap length), and the frame's actual
/// length.
pub open spec fn spec_pcap_frame_header(
    secs: u32,
    usecs: u32,
    snap_length: u32,
    len: u32,
) -> Seq<u8> {
    le32_bytes(secs) + le32_bytes(usecs) + le32_bytes(
        if len < snap_length {
            len
        } else {
            snap_length
        },
    ) + le32_bytes(len)
}

/// Appends `value` to `out` as two little-endian bytes.
fn write_u16(out: &mut Vec<u8>, value: u16)
    ensures
        final(out)@ == old(out)@ + le16_bytes(value),
{
    proof {
        assert((value & 0xFF) as u8 == (value % 256) as u8 && (value >> 8) as u8 == (value
            / 256) as u8) by (bit_vector);
    }
    out.push((value & 0xFF) as u8);
    out.push((value >> 8) as u8);
    proof {
        assert(final(out)@ =~= old(out)@ + le16_bytes(value));
    }
}

/// Appends `value` to `out` as four little-endian bytes.
fn write_u32(out: &mut Vec<u8>, value: u32)
    ensures
        final(out)@ == old(out)@ + le32_bytes(value),
{
    proof {
        assert((value & 0xFF) as u8 == (value % 256) as u8 && ((value >> 8) & 0xFF) as u8
            == ((value / 256) % 256) as u8 && ((value >> 16) & 0xFF) as u8 == ((value / 0x10000)
            % 256) as u8 && ((value >> 24) & 0xFF) as u8 == (value / 0x1000000) as u8)
            by (bit_vector);
    }
    out.push((value & 0xFF) as u8);
    out.push(((value >> 8) & 0xFF) as u8);
    out.push(((value >> 16) & 0xFF) as u8);
    out.push(((value >> 24) & 0xFF) as u8);
    proof {
        assert(final(out)@ =~= old(out)@ + le32_bytes(value));
    }
}

/// Builds the global header that starts a pcap file.
pub fn pcap_global_header(snap_length: u32) -> (r: Vec<u8>)
    ensures
        r@ == spec_pcap_global_header(snap_length),
{
    let mut out: Vec<u8> = Vec::with_capacity(24);
    write_u32(&mut out, 0xa1b2c3d4);  // magic number
    write_u16(&mut out, 2);  // major version number
    write_u16(&mut out, 4);  // minor version number
    write_u32(&mut out, 0);  // timezone correction
    write_u32(&mut out, 0);  // timestamp accuracy
    write_u32(&mut out, snap_length);  // max bytes recorded per packet
    write_u32(&mut out, 105);  // link layer header type
    proof {
        assert(out@ =~= spec_pcap_global_header(snap_length));
    }
    out
}

/// Builds the header written before each recorded frame.
pub fn pcap_frame_header(secs: u32, usecs: u32, snap_length: u32, len: u32) -> (r: Vec<u8>)
    ensures
        r@ == spec_pcap_frame_header(secs, usecs, snap_length, len),
{
    let mut out: Vec<u8> = Vec::with_capacity(16);
    write_u32(&mut out, secs);
    write_u32(&mut out, usecs);
    if len < snap_length {
        write_u32(&mut out, len);
    } else {
        write_u32(&mut out, snap_length);
    }
    write_u32(&mut out, len);
    proof {
        assert(out@ =~= spec_pcap_frame_header(secs, usecs, snap_length, len));
    }
    out
}

/// The recorded bytes of one frame: the packet's visible bytes, truncated
/// to the snap length.
pub fn pcap_frame_body(packet: &Packet, snap_length: u32) -> (r: Vec<u8>)
    requires
        packet.wf(),
    ensures
        r@ == if packet@.len() <= snap_length {
            packet@
        } else {
            packet@.take(snap_length as int)
        },
{
    let plen: usize = packet.len();
    let len: usize = if plen < snap_length as usize {
        plen
    } else {
        snap_length as usize
    };
    let mut out: Vec<u8> = Vec::with_capacity(len);
    let mut i: usize = 0;
    while i < len
        invariant
            i <= len,
            len <= packet@.len(),
            packet.wf(),
            out@ == packet@.take(i as int),
        decreases len - i,
    {
        out.push(packet.get(i));
        proof {
            assert(out@ =~= packet@.take(i + 1));
        }
        i = i + 1;
    }
    proof {
        if packet@.len() <= snap_length {
            assert(out@ =~= packet@);
        }
    }
    out
}

/// Whether one more frame still fits under the configured frame count, and
/// the frame counter after recording it.
pub fn pcap_frame_update(frame: i64, count: i64) -> (r: (i64, bool))
    requires
        frame < i64::MAX,
    ensures
        r.1 == (frame + 1 <= count),
        r.0 == if frame + 1 <= count {
            frame + 1
        } else {
            frame as int
        },
{
    if frame + 1 <= count {
        (frame + 1, true)
    } else {
        (frame, false)
    }
}

} // verus!
