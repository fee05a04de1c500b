//! The byte carrier of the stack. A `Packet` grows at the front (headers) and
//! at the tail (payload, trailers) and is consumed from either end; a
//! `Header` is a back-push-only staging buffer whose bytes become the prefix
//! of a `Packet` in one operation.
use vstd::prelude::*;

verus! {

use crate::checksum::{checksum_of, finished16, sum16};

/// The two bytes of `x` in network (big-endian) order.
pub open spec fn be16_bytes(x: u16) -> Seq<u8> {
    seq![(x / 256) as u8, (x % 256) as u8]
}

/// The four bytes of `x` in network (big-endian) order.
pub open spec fn be32_bytes(x: u32) -> Seq<u8> {
    seq![
        (x / 0x1000000) as u8,
        ((x / 0x10000) % 256) as u8,
        ((x / 256) % 256) as u8,
        (x % 256) as u8,
    ]
}

/// The four bytes of `x` in little-endian order.
pub open spec fn le32_bytes(x: u32) -> Seq<u8> {
    seq![
        (x % 256) as u8,
        ((x / 256) % 256) as u8,
        ((x / 0x10000) % 256) as u8,
        (x / 0x1000000) as u8,
    ]
}

/// The 16-bit value carried by two bytes in network order.
pub open spec fn be16_value(b0: u8, b1: u8) -> int {
    (b0 as int) * 256 + (b1 as int)
}

/// The 32-bit value carried by four bytes in network order.
pub open spec fn be32_value(b0: u8, b1: u8, b2: u8, b3: u8) -> int {
    (((b0 as int) * 256 + (b1 as int)) * 256 + (b2 as int)) * 256 + (b3 as int)
}

/// A sequence of bytes sent down the network stack, over a wire or the air,
/// and back up the network stack. Bytes popped from the front are hidden by a
/// cursor rather than removed, so the raw buffer never shifts.
#[derive(Debug)]
pub struct Packet {
    name: String,
    id: String,
    offset: usize,
    buf: Vec<u8>,
}

/// Used to assemble a header to be pushed onto a [`Packet`].
#[derive(Debug)]
pub struct Header {
    pub data: Vec<u8>,
}

impl View for Packet {
    type V = Seq<u8>;

    /// The bytes still visible between the front cursor and the tail.
    closed spec fn view(&self) -> Seq<u8> {
        self.buf@.skip(self.offset as int)
    }
}

impl Packet {
    /// The whole underlying buffer, bytes already popped from the front
    /// included.
    pub closed spec fn raw(&self) -> Seq<u8> {
        self.buf@
    }

    /// How many bytes have been popped off the front.
    pub closed spec fn popped(&self) -> nat {
        self.offset as nat
    }

    pub closed spec fn spec_name(&self) -> Seq<char> {
        self.name@
    }

    pub closed spec fn spec_id(&self) -> Seq<char> {
        self.id@
    }

    /// The front cursor never runs past the tail.
    pub closed spec fn wf(&self) -> bool {
        self.offset <= self.buf@.len()
    }

    pub fn new(name: &str, id: &str) -> (r: Packet)
        requires
            name@.len() > 0,
            id@.len() > 0,
        ensures
            r.wf(),
            r@ == Seq::<u8>::empty(),
            r.raw() == Seq::<u8>::empty(),
            r.popped() == 0,
            r.spec_name() == name@,
            r.spec_id() == id@,
    {
        let r = Packet { name: name.to_owned(), id: id.to_owned(), offset: 0, buf: Vec::new() };
        proof {
            assert(r@ =~= Seq::<u8>::empty());
        }
        r
    }

    /// Arbitrary name of the packet, e.g. "ICMP Ping".
    pub fn name(&self) -> (r: &str)
        ensures
            r@ == self.spec_name(),
    {
        self.name.as_str()
    }

    /// Unique identifier for the packet, e.g. "#>12.56". The first number is
    /// the id of the component that originated the packet, the second a
    /// monotonically increasing value scoped to that component.
    pub fn id(&self) -> (r: &str)
        ensures
            r@ == self.spec_id(),
    {
        self.id.as_str()
    }

    /// Packet data in network endian byte order, bytes already popped from
    /// the front included.
    pub fn payload(&self) -> (r: &Vec<u8>)
        ensures
            r@ == self.raw(),
    {
        &self.buf
    }

    /// Returns true if all of the payload has been popped off.
    pub fn is_empty(&mut self) -> (r: bool)
        requires
            old(self).wf(),
        ensures
            *final(self) == *old(self),
            r == (old(self)@.len() == 0),
    {
        self.offset == self.buf.len()
    }

    /// Whether pushing is still permitted: true until the first pop off the
    /// front. Callers test this before they push.
    pub fn can_push(&self) -> (r: bool)
        ensures
            r == (self.popped() == 0),
    {
        self.offset == 0
    }

    pub fn len(&self) -> (r: usize)
        requires
            self.wf(),
        ensures
            r == self@.len(),
    {
        self.buf.len() - self.offset
    }

    /// Prepends the staged header bytes: the header's first byte becomes the
    /// packet's byte 0. Mixing pushes with pops is not supported, so no pop
    /// may have happened yet.
    pub fn push_header(&mut self, header: &Header)
        requires
            old(self).wf(),
            old(self).popped() == 0,
        ensures
            final(self).wf(),
            final(self).popped() == 0,
            final(self)@ == header@ + old(self)@,
            final(self).spec_name() == old(self).spec_name(),
            final(self).spec_id() == old(self).spec_id(),
    {
        let mut nb: Vec<u8> = Vec::new();
        let hlen: usize = header.data.len();
        let mut i: usize = 0;
        while i < hlen
            invariant
                i <= hlen,
                hlen == header@.len(),
                nb@ == header@.take(i as int),
            decreases hlen - i,
        {
            nb.push(header.data[i]);
            proof {
                assert(nb@ =~= header@.take(i + 1));
            }
            i = i + 1;
        }
        nb.append(&mut self.buf);
        self.buf = nb;
        proof {
            assert(header@.take(hlen as int) =~= header@);
            assert(final(self)@ =~= header@ + old(self)@);
        }
    }

    /// Apps can use this to append payload bytes to a packet's tail.
    pub fn push_bytes(&mut self, data: &[u8])
        requires
            old(self).wf(),
            old(self).popped() == 0,
        ensures
            final(self).wf(),
            final(self).popped() == 0,
            final(self)@ == old(self)@ + data@,
            final(self).spec_name() == old(self).spec_name(),
            final(self).spec_id() == old(self).spec_id(),
    {
        let dlen: usize = data.len();
        let mut i: usize = 0;
        while i < dlen
            invariant
                i <= dlen,
                dlen == data@.len(),
                self.popped() == 0,
                self.raw() == old(self).raw() + data@.take(i as int),
                self.spec_name() == old(self).spec_name(),
                self.spec_id() == old(self).spec_id(),
            decreases dlen - i,
        {
            let b = data[i];
            self.buf.push(b);
            proof {
                assert(self.raw() =~= old(self).raw() + data@.take(i + 1));
            }
            i = i + 1;
        }
        proof {
            assert(self.raw() =~= old(self).raw() + data@);
            assert(final(self)@ =~= final(self).raw());
            assert(old(self)@ =~= old(self).raw());
        }
    }

    /// Appends bytes to the tail; trailers such as a frame check sequence go
    /// here.
    pub fn push_back_bytes(&mut self, data: &[u8])
        requires
            old(self).wf(),
            old(self).popped() == 0,
        ensures
            final(self).wf(),
            final(self).popped() == 0,
            final(self)@ == old(self)@ + data@,
            final(self).spec_name() == old(self).spec_name(),
            final(self).spec_id() == old(self).spec_id(),
    {
        self.push_bytes(data)
    }

    /// Removes one byte from the front of the payload.
    pub fn pop8(&mut self) -> (r: u8)
        requires
            old(self).wf(),
            old(self)@.len() >= 1,
        ensures
            final(self).wf(),
            r == old(self)@[0],
            final(self)@ == old(self)@.skip(1),
            final(self).popped() == old(self).popped() + 1,
            final(self).raw() == old(self).raw(),
            final(self).spec_name() == old(self).spec_name(),
            final(self).spec_id() == old(self).spec_id(),
    {
        // Materializes that the buffer length, and with it the advanced
        // cursor, fits in usize.
        let n: usize = self.buf.len();
        self.offset = self.offset + 1;
        let r = self.buf[self.offset - 1];
        proof {
            assert(final(self)@ =~= old(self)@.skip(1));
        }
        r
    }

    /// Removes two front bytes and returns them as a network-order word.
    pub fn pop16(&mut self) -> (r: u16)
        requires
            old(self).wf(),
            old(self)@.len() >= 2,
        ensures
            final(self).wf(),
            r == be16_value(old(self)@[0], old(self)@[1]),
            final(self)@ == old(self)@.skip(2),
            final(self).popped() == old(self).popped() + 2,
            final(self).raw() == old(self).raw(),
            final(self).spec_name() == old(self).spec_name(),
            final(self).spec_id() == old(self).spec_id(),
    {
        let b0 = self.pop8() as u16;
        let b1 = self.pop8() as u16;
        proof {
            assert(final(self)@ =~= old(self)@.skip(2));
            assert((b0 << 8) | b1 == b0 * 256 + b1) by (bit_vector)
                requires b0 < 256 && b1 < 256;
        }
        (b0 << 8) | b1
    }

    /// Removes four front bytes and returns them as a network-order word.
    pub fn pop32(&mut self) -> (r: u32)
        requires
            old(self).wf(),
            old(self)@.len() >= 4,
        ensures
            final(self).wf(),
            r == be32_value(old(self)@[0], old(self)@[1], old(self)@[2], old(self)@[3]),
            final(self)@ == old(self)@.skip(4),
            final(self).popped() == old(self).popped() + 4,
            final(self).raw() == old(self).raw(),
            final(self).spec_name() == old(self).spec_name(),
            final(self).spec_id() == old(self).spec_id(),
    {
        let b0 = self.pop8() as u32;
        let b1 = self.pop8() as u32;
        let b2 = self.pop8() as u32;
        let b3 = self.pop8() as u32;
        proof {
            assert(final(self)@ =~= old(self)@.skip(4));
            assert((b0 << 24) | (b1 << 16) | (b2 << 8) | b3 == ((b0 * 256 + b1) * 256 + b2) * 256
                + b3) by (bit_vector)
                requires b0 < 256 && b1 < 256 && b2 < 256 && b3 < 256;
        }
        (b0 << 24) | (b1 << 16) | (b2 << 8) | b3
    }

    /// Removes one byte from the tail.
    pub fn pop_back8(&mut self) -> (r: u8)
        requires
            old(self).wf(),
            old(self)@.len() >= 1,
        ensures
            final(self).wf(),
            r == old(self)@.last(),
            final(self)@ == old(self)@.take(old(self)@.len() - 1),
            final(self).popped() == old(self).popped(),
            final(self).spec_name() == old(self).spec_name(),
            final(self).spec_id() == old(self).spec_id(),
    {
        let r = self.buf.pop().unwrap();
        proof {
            assert(final(self)@ =~= old(self)@.take(old(self)@.len() - 1));
        }
        r
    }

    /// Removes the next `len` bytes from the front and returns them.
    pub fn pop_bytes(&mut self, len: usize) -> (r: Vec<u8>)
        requires
            old(self).wf(),
            old(self)@.len() >= len,
        ensures
            final(self).wf(),
            r@ == old(self)@.take(len as int),
            final(self)@ == old(self)@.skip(len as int),
            final(self).popped() == old(self).popped() + len,
            final(self).raw() == old(self).raw(),
            final(self).spec_name() == old(self).spec_name(),
            final(self).spec_id() == old(self).spec_id(),
    {
        let mut result: Vec<u8> = Vec::new();
        let mut i: usize = 0;
        while i < len
            invariant
                i <= len,
                self.wf(),
                old(self)@.len() >= len,
                result@ == old(self)@.take(i as int),
                self@ == old(self)@.skip(i as int),
                self.popped() == old(self).popped() + i,
                self.raw() == old(self).raw(),
                self.spec_name() == old(self).spec_name(),
                self.spec_id() == old(self).spec_id(),
            decreases len - i,
        {
            let b = self.pop8();
            result.push(b);
            proof {
                assert(result@ =~= old(self)@.take(i + 1));
                assert(old(self)@.skip(i as int).skip(1) =~= old(self)@.skip(i + 1));
            }
            i = i + 1;
        }
        result
    }

    /// The visible byte at index `i`, counted from the front cursor.
    pub fn get(&self, i: usize) -> (r: u8)
        requires
            self.wf(),
            i < self@.len(),
        ensures
            r == self@[i as int],
    {
        // Materializes that the index stays within the buffer's usize range.
        let n: usize = self.buf.len();
        self.buf[self.offset + i]
    }

    /// Computes the Internet checksum of the next `len` visible bytes.
    pub fn checksum(&self, len: usize) -> (r: u16)
        requires
            self.wf(),
            len <= self@.len(),
            0xFFFF * (((len + 1) / 2) as int) <= u32::MAX,
        ensures
            r == checksum_of(self@.take(len as int)),
    {
        let r = crate::checksum::checksum(self.buf.as_slice(), self.offset, len);
        proof {
            assert(self.buf@.subrange(self.offset as int, self.offset + len)
                =~= self@.take(len as int));
        }
        r
    }

    /// Folds `initial` together with the words of the next `len` visible
    /// bytes into a finished checksum.
    pub fn finish_checksum(&self, len: usize, initial: u32) -> (r: u16)
        requires
            self.wf(),
            len <= self@.len(),
            initial + 0xFFFF * (((len + 1) / 2) as int) <= u32::MAX,
        ensures
            r == finished16(initial + sum16(self@.take(len as int))),
    {
        let r = crate::checksum::finish_checksum(self.buf.as_slice(), self.offset, len, initial);
        proof {
            assert(self.buf@.subrange(self.offset as int, self.offset + len)
                =~= self@.take(len as int));
        }
        r
    }
}

impl Clone for Packet {
    /// The medium clones a packet once per receiving peer.
    fn clone(&self) -> (r: Self)
        ensures
            r@ == self@,
            r.raw() == self.raw(),
            r.popped() == self.popped(),
            r.spec_name() == self.spec_name(),
            r.spec_id() == self.spec_id(),
            r.wf() == self.wf(),
    {
        Packet {
            name: self.name.clone(),
            id: self.id.clone(),
            offset: self.offset,
            buf: self.buf.clone(),
        }
    }
}

impl Header {
    pub fn new() -> (r: Header)
        ensures
            r@ == Seq::<u8>::empty(),
    {
        Header { data: Vec::new() }
    }

    pub fn with_capacity(capacity: usize) -> (r: Header)
        ensures
            r@ == Seq::<u8>::empty(),
    {
        Header { data: Vec::with_capacity(capacity) }
    }

    /// Adds one byte to the end of the header.
    pub fn push8(&mut self, data: u8)
        ensures
            final(self)@ == old(self)@ + seq![data],
    {
        self.data.push(data);
        proof {
            assert(final(self)@ =~= old(self)@ + seq![data]);
        }
    }

    /// Converts a word to network endian and adds it to the header.
    pub fn push16(&mut self, data: u16)
        ensures
            final(self)@ == old(self)@ + be16_bytes(data),
    {
        proof {
            assert((data >> 8) as u8 == data / 256 && (data & 0xFF) as u8 == data % 256)
                by (bit_vector);
        }
        self.data.push((data >> 8) as u8);
        self.data.push((data & 0xFF) as u8);
        proof {
            assert(final(self)@ =~= old(self)@ + be16_bytes(data));
        }
    }

    /// Converts a 32-bit word to network endian and adds it to the header.
    pub fn push32(&mut self, data: u32)
        ensures
            final(self)@ == old(self)@ + be32_bytes(data),
    {
        proof {
            assert((data >> 24) as u8 == data / 0x1000000 && ((data >> 16) & 0xFF) as u8 == (data
                / 0x10000) % 256 && ((data >> 8) & 0xFF) as u8 == (data / 256) % 256 && (data
                & 0xFF) as u8 == data % 256) by (bit_vector);
        }
        self.data.push((data >> 24) as u8);
        self.data.push(((data >> 16) & 0xFF) as u8);
        self.data.push(((data >> 8) & 0xFF) as u8);
        self.data.push((data & 0xFF) as u8);
        proof {
            assert(final(self)@ =~= old(self)@ + be32_bytes(data));
        }
    }

    /// Adds bytes to the end of the header.
    pub fn push_bytes(&mut self, data: &[u8])
        ensures
            final(self)@ == old(self)@ + data@,
    {
        let dlen: usize = data.len();
        let mut i: usize = 0;
        while i < dlen
            invariant
                i <= dlen,
                dlen == data@.len(),
                self@ == old(self)@ + data@.take(i as int),
            decreases dlen - i,
        {
            self.data.push(data[i]);
            proof {
                assert(self@ =~= old(self)@ + data@.take(i + 1));
            }
            i = i + 1;
        }
        proof {
            assert(old(self)@ + data@.take(dlen as int) =~= old(self)@ + data@);
        }
    }

    /// Computes the Internet checksum of the staged bytes.
    pub fn checksum(&self) -> (r: u16)
        requires
            0xFFFF * (((self@.len() + 1) / 2) as int) <= u32::MAX,
        ensures
            r == checksum_of(self@),
    {
        let r = crate::checksum::checksum(self.data.as_slice(), 0, self.data.len());
        proof {
            assert(self.data@.subrange(0, self.data@.len() as int) =~= self@);
        }
        r
    }

    /// Adds the staged bytes, which must make whole words, into a running
    /// 32-bit checksum accumulator.
    pub fn start_checksum(&self, initial: u32) -> (r: u32)
        requires
            self@.len() % 2 == 0,
            initial + 0xFFFF * ((self@.len() / 2) as int) <= u32::MAX,
        ensures
            r == initial + sum16(self@),
    {
        let r = crate::checksum::start_checksum(self.data.as_slice(), 0, self.data.len(), initial);
        proof {
            assert(self.data@.subrange(0, self.data@.len() as int) =~= self@);
        }
        r
    }
}

impl View for Header {
    type V = Seq<u8>;

    open spec fn view(&self) -> Seq<u8> {
        self.data@
    }
}

} // verus!
