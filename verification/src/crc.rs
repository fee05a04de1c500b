//! The IEEE CRC-32 used for the 802.11 frame check sequence, in its
//! reflected, table-free form, together with the residue theorem: a frame
//! with its own little-endian CRC appended always checks out to the
//! well-known constant.
use vstd::prelude::*;

verus! {

use crate::packet::Packet;

/// One shift of the reflected CRC-32 register, polynomial 0xEDB88320.
pub open spec fn crc32_step_bit(r: u32) -> u32 {
    if r & 1 == 1 {
        (r >> 1) ^ 0xEDB88320u32
    } else {
        r >> 1
    }
}

/// Feeds one byte into the register: eight shifts after mixing the byte into
/// the low bits.
pub open spec fn crc32_step_byte(r: u32, b: u8) -> u32 {
    crc32_step_bit(
        crc32_step_bit(
            crc32_step_bit(
                crc32_step_bit(
                    crc32_step_bit(
                        crc32_step_bit(crc32_step_bit(crc32_step_bit(r ^ (b as u32)))),
                    ),
                ),
            ),
        ),
    )
}

/// Feeds a byte sequence into the register, front byte first.
pub open spec fn crc32_accum(r: u32, bytes: Seq<u8>) -> u32
    decreases bytes.len(),
{
    if bytes.len() == 0 {
        r
    } else {
        crc32_accum(crc32_step_byte(r, bytes[0]), bytes.skip(1))
    }
}

/// The CRC-32 of a byte sequence: register preset to all ones, complemented
/// at the end.
pub open spec fn spec_crc32(bytes: Seq<u8>) -> u32 {
    !crc32_accum(0xFFFFFFFFu32, bytes)
}

/// The low `n` bits of `x` in reverse order.
pub open spec fn spec_rev_bits(x: u32, n: int) -> u32
    decreases n,
{
    if n <= 0 {
        0u32
    } else {
        (spec_rev_bits(x, n - 1) << 1) | ((x >> ((n - 1) as u32)) & 1)
    }
}

/// `x` with its 32 bits in reverse order.
pub open spec fn spec_reverse32(x: u32) -> u32 {
    spec_rev_bits(x, 32)
}

/// Feeding a concatenation is feeding one part after the other.
pub proof fn lemma_crc32_accum_concat(r: u32, a: Seq<u8>, b: Seq<u8>)
    ensures
        crc32_accum(r, a + b) == crc32_accum(crc32_accum(r, a), b),
    decreases a.len(),
{
    if a.len() == 0 {
        assert(a + b =~= b);
    } else {
        assert((a + b).skip(1) =~= a.skip(1) + b);
        lemma_crc32_accum_concat(crc32_step_byte(r, a[0]), a.skip(1), b);
    }
}

/// Feeding one more byte steps the register once.
pub proof fn lemma_crc32_accum_snoc(r: u32, s: Seq<u8>, b: u8)
    ensures
        crc32_accum(r, s + seq![b]) == crc32_step_byte(crc32_accum(r, s), b),
{
    lemma_crc32_accum_concat(r, s, seq![b]);
    reveal_with_fuel(crc32_accum, 2);
    assert(seq![b].skip(1) =~= Seq::<u8>::empty());
}

/// Feeding the four little-endian bytes of the complemented register drives
/// any register value to the same constant.
pub proof fn lemma_crc32_residue_register(r: u32)
    ensures
        crc32_step_byte(
            crc32_step_byte(
                crc32_step_byte(crc32_step_byte(r, !r as u8), (!r >> 8) as u8),
                (!r >> 16) as u8,
            ),
            (!r >> 24) as u8,
        ) == 0xDEBB20E3u32,
{
    assert(crc32_step_byte(r, !r as u8) == (r >> 8) ^ 0x2D02EF8Du32) by (bit_vector);
    assert(crc32_step_byte((r >> 8) ^ 0x2D02EF8Du32, (!r >> 8) as u8) == (r >> 16)
        ^ 0xBE2612FFu32) by (bit_vector);
    assert(crc32_step_byte((r >> 16) ^ 0xBE2612FFu32, (!r >> 16) as u8) == (r >> 24)
        ^ 0x00BE2612u32) by (bit_vector);
    assert(crc32_step_byte((r >> 24) ^ 0x00BE2612u32, (!r >> 24) as u8) == 0xDEBB20E3u32)
        by (bit_vector);
}

/// The residue theorem: appending the little-endian CRC-32 of a message to
/// that message yields a sequence whose CRC-32 is the fixed value
/// 0x2144DF1C, whatever the message was.
pub proof fn lemma_crc32_of_frame_with_fcs(m: Seq<u8>)
    ensures
        spec_crc32(m + crate::packet::le32_bytes(spec_crc32(m))) == 0x2144DF1Cu32,
{
    let r = crc32_accum(0xFFFFFFFFu32, m);
    let c = spec_crc32(m);
    let fcs = crate::packet::le32_bytes(c);
    assert(fcs[0] == !r as u8 && fcs[1] == (!r >> 8) as u8 && fcs[2] == (!r >> 16) as u8 && fcs[3]
        == (!r >> 24) as u8) by {
        assert((!r % 256) as u8 == !r as u8 && ((!r / 256) % 256) as u8 == (!r >> 8) as u8 && ((!r
            / 0x10000) % 256) as u8 == (!r >> 16) as u8 && (!r / 0x1000000) as u8 == (!r
            >> 24) as u8) by (bit_vector);
    }
    lemma_crc32_accum_concat(0xFFFFFFFFu32, m, fcs);
    assert(crc32_accum(r, fcs) == crc32_step_byte(
        crc32_step_byte(
            crc32_step_byte(crc32_step_byte(r, fcs[0]), fcs[1]),
            fcs[2],
        ),
        fcs[3],
    )) by {
        reveal_with_fuel(crc32_accum, 5);
        assert(fcs.skip(1) =~= seq![fcs[1], fcs[2], fcs[3]]);
        assert(fcs.skip(1).skip(1) =~= seq![fcs[2], fcs[3]]);
        assert(fcs.skip(1).skip(1).skip(1) =~= seq![fcs[3]]);
        assert(fcs.skip(1).skip(1).skip(1).skip(1) =~= Seq::<u8>::empty());
    }
    lemma_crc32_residue_register(r);
    assert(!0xDEBB20E3u32 == 0x2144DF1Cu32) by (bit_vector);
}

/// A reversed complement equals the 802.11 residue exactly when the CRC
/// itself equals 0x2144DF1C.
pub proof fn lemma_crc32_check_forms(c: u32)
    ensures
        (spec_reverse32(!c) == 0xC704DD7Bu32) <==> (c == 0x2144DF1Cu32),
{
    assert((spec_rev_bits(!c, 32) == 0xC704DD7Bu32) <==> (c == 0x2144DF1Cu32)) by (bit_vector);
}

/// Computes the CRC-32 of the packet's visible bytes.
pub fn crc32(packet: &Packet) -> (r: u32)
    requires
        packet.wf(),
    ensures
        r == spec_crc32(packet@),
{
    let len: usize = packet.len();
    let mut reg: u32 = 0xFFFFFFFF;
    let mut i: usize = 0;
    while i < len
        invariant
            i <= len,
            len == packet@.len(),
            packet.wf(),
            reg == crc32_accum(0xFFFFFFFFu32, packet@.take(i as int)),
        decreases len - i,
    {
        let b = packet.get(i);
        reg = crc32_byte(reg, b);
        proof {
            lemma_crc32_accum_snoc(0xFFFFFFFFu32, packet@.take(i as int), b);
            assert(packet@.take(i as int) + seq![b] =~= packet@.take(i + 1));
        }
        i = i + 1;
    }
    proof {
        assert(packet@.take(len as int) =~= packet@);
    }
    !reg
}

/// Feeds one byte into a CRC-32 register.
pub fn crc32_byte(reg: u32, b: u8) -> (r: u32)
    ensures
        r == crc32_step_byte(reg, b),
{
    let mut r: u32 = reg ^ (b as u32);
    r = if r & 1 == 1 { (r >> 1) ^ 0xEDB88320 } else { r >> 1 };
    r = if r & 1 == 1 { (r >> 1) ^ 0xEDB88320 } else { r >> 1 };
    r = if r & 1 == 1 { (r >> 1) ^ 0xEDB88320 } else { r >> 1 };
    r = if r & 1 == 1 { (r >> 1) ^ 0xEDB88320 } else { r >> 1 };
    r = if r & 1 == 1 { (r >> 1) ^ 0xEDB88320 } else { r >> 1 };
    r = if r & 1 == 1 { (r >> 1) ^ 0xEDB88320 } else { r >> 1 };
    r = if r & 1 == 1 { (r >> 1) ^ 0xEDB88320 } else { r >> 1 };
    r = if r & 1 == 1 { (r >> 1) ^ 0xEDB88320 } else { r >> 1 };
    r
}

/// Reverses the bit order of a 32-bit word; the FCS check works on the
/// reversed complement of the received CRC.
pub fn reverse32(value: u32) -> (r: u32)
    ensures
        r == spec_reverse32(value),
{
    let mut res: u32 = 0;
    let mut i: u32 = 0;
    while i < 32
        invariant
            i <= 32,
            res == spec_rev_bits(value, i as int),
        decreases 32 - i,
    {
        res = (res << 1) | ((value >> i) & 1);
        i = i + 1;
    }
    res
}

} // verus!
