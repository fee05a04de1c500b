//! The Internet checksum of RFC 1071: a one's-complement sum of 16-bit
//! big-endian words, folded to 16 bits and complemented. A streaming form
//! exposes the pre-fold 32-bit accumulator so a checksum can be computed
//! over several buffers (a pseudo-header, a header, a payload).
use vstd::prelude::*;

verus! {

use vstd::arithmetic::div_mod::{
    lemma_fundamental_div_mod, lemma_mod_multiples_vanish, lemma_small_mod,
};

/// Sum of the 16-bit big-endian words of `bytes`; a trailing odd byte counts
/// as the high byte of a final word.
pub open spec fn sum16(bytes: Seq<u8>) -> int
    decreases bytes.len(),
{
    if bytes.len() == 0 {
        0
    } else if bytes.len() == 1 {
        (bytes[0] as int) * 256
    } else {
        (bytes[0] as int) * 256 + (bytes[1] as int) + sum16(bytes.skip(2))
    }
}

/// Folds a sum into 16 bits by repeatedly adding the carries back in.
pub open spec fn fold16(x: int) -> int
    decreases x,
{
    if x < 0x10000 {
        x
    } else {
        fold16(x % 0x10000 + x / 0x10000)
    }
}

/// The finished checksum of a running sum: fold, then complement.
pub open spec fn finished16(sum: int) -> int {
    0xFFFF - fold16(sum)
}

/// The Internet checksum of a byte sequence.
pub open spec fn checksum_of(bytes: Seq<u8>) -> int {
    finished16(sum16(bytes))
}

/// The two big-endian bytes that carry a checksum on the wire.
pub open spec fn checksum_bytes(bytes: Seq<u8>) -> Seq<u8> {
    seq![(checksum_of(bytes) / 256) as u8, (checksum_of(bytes) % 256) as u8]
}

pub proof fn lemma_sum16_nonneg(bytes: Seq<u8>)
    ensures
        0 <= sum16(bytes) <= 0xFFFF * ((bytes.len() + 1) / 2),
    decreases bytes.len(),
{
    if bytes.len() >= 2 {
        lemma_sum16_nonneg(bytes.skip(2));
    }
}

/// Folding never leaves the range of the input and always lands below 2^16.
pub proof fn lemma_fold16_bounds(x: int)
    requires
        x >= 0,
    ensures
        0 <= fold16(x) < 0x10000,
        fold16(x) <= x,
        fold16(x) == 0 <==> x == 0,
    decreases x,
{
    if x >= 0x10000 {
        lemma_fundamental_div_mod(x, 0x10000);
        lemma_fold16_bounds(x % 0x10000 + x / 0x10000);
    }
}

/// Folding preserves the value modulo 0xFFFF.
pub proof fn lemma_fold16_mod(x: int)
    requires
        x >= 0,
    ensures
        fold16(x) % 0xFFFF == x % 0xFFFF,
    decreases x,
{
    if x >= 0x10000 {
        let q = x / 0x10000;
        let r = x % 0x10000;
        lemma_fundamental_div_mod(x, 0x10000);
        assert(x == 0xFFFF * q + (q + r));
        lemma_mod_multiples_vanish(q, q + r, 0xFFFF);
        lemma_fold16_mod(q + r);
    }
}

/// A folded value that is a nonzero multiple of 0xFFFF is 0xFFFF itself.
pub proof fn lemma_fold16_full(x: int)
    requires
        x > 0,
        x % 0xFFFF == 0,
    ensures
        fold16(x) == 0xFFFF,
{
    lemma_fold16_bounds(x);
    lemma_fold16_mod(x);
    let f = fold16(x);
    if f < 0xFFFF {
        lemma_small_mod(f as nat, 0xFFFF);
        assert(f == 0);
    } else {
        assert(f == 0xFFFF) by {
            lemma_small_mod((f - 0xFFFF) as nat, 0xFFFF);
            lemma_mod_multiples_vanish(1, f - 0xFFFF, 0xFFFF);
        }
    }
}

/// The checksum lies in the range of a 16-bit word.
pub proof fn lemma_checksum_of_bounds(bytes: Seq<u8>)
    ensures
        0 <= checksum_of(bytes) <= 0xFFFF,
{
    lemma_sum16_nonneg(bytes);
    lemma_fold16_bounds(sum16(bytes));
}

/// The word sum of a single two-byte sequence is its big-endian value.
pub proof fn lemma_sum16_pair(b0: u8, b1: u8)
    ensures
        sum16(seq![b0, b1]) == (b0 as int) * 256 + (b1 as int),
{
    assert(seq![b0, b1].skip(2) =~= Seq::<u8>::empty());
    assert(sum16(seq![b0, b1]) == (b0 as int) * 256 + (b1 as int) + sum16(
        seq![b0, b1].skip(2),
    ));
    assert(sum16(Seq::<u8>::empty()) == 0);
}

/// Splitting an even-length prefix splits the word sum.
pub proof fn lemma_sum16_concat(a: Seq<u8>, b: Seq<u8>)
    requires
        a.len() % 2 == 0,
    ensures
        sum16(a + b) == sum16(a) + sum16(b),
    decreases a.len(),
{
    if a.len() == 0 {
        assert(a + b =~= b);
    } else {
        assert((a + b).skip(2) =~= a.skip(2) + b);
        lemma_sum16_concat(a.skip(2), b);
    }
}

/// A running sum that already carries `extra` finishes to the complement of
/// the fold of the whole.
pub proof fn lemma_checksum_verifies(sum: int)
    requires
        sum >= 0,
    ensures
        finished16(sum + 0xFFFF - fold16(sum)) == 0,
{
    let c = 0xFFFF - fold16(sum);
    lemma_fold16_bounds(sum);
    lemma_fold16_mod(sum);
    let total = sum + c;
    assert(total % 0xFFFF == 0) by {
        lemma_mod_multiples_vanish(1, sum - fold16(sum), 0xFFFF);
        assert(total == 0xFFFF * 1 + (sum - fold16(sum)));
        assert((sum - fold16(sum)) % 0xFFFF == 0) by {
            lemma_sub_mod_eq_zero(sum, fold16(sum));
        }
    }
    lemma_fold16_full(total);
}

/// Two non-negative values with equal remainders differ by a multiple.
proof fn lemma_sub_mod_eq_zero(a: int, b: int)
    requires
        a >= 0,
        b >= 0,
        a % 0xFFFF == b % 0xFFFF,
        a >= b,
    ensures
        (a - b) % 0xFFFF == 0,
{
    lemma_fundamental_div_mod(a, 0xFFFF);
    lemma_fundamental_div_mod(b, 0xFFFF);
    assert(a - b == 0xFFFF * (a / 0xFFFF - b / 0xFFFF));
    lemma_mod_multiples_vanish(a / 0xFFFF - b / 0xFFFF, 0, 0xFFFF);
}

/// The checksum of a correctly checksummed even-length sequence is zero.
pub proof fn lemma_checksum_round_trip(s: Seq<u8>)
    requires
        s.len() % 2 == 0,
    ensures
        checksum_of(s + checksum_bytes(s)) == 0,
{
    let c = checksum_of(s);
    lemma_checksum_of_bounds(s);
    lemma_sum16_nonneg(s);
    lemma_sum16_concat(s, checksum_bytes(s));
    assert(sum16(checksum_bytes(s)) == c) by {
        lemma_fundamental_div_mod(c, 256);
        vstd::arithmetic::div_mod::lemma_remainder_upper(c, 256);
        vstd::arithmetic::div_mod::lemma_remainder_lower(c, 256);
        vstd::arithmetic::div_mod::lemma_div_pos_is_pos(c, 256);
        assert(0 <= c / 256 < 256);
        assert(0 <= c % 256 < 256);
        let cb = checksum_bytes(s);
        assert(cb.len() == 2);
        assert(cb[0] == (c / 256) as u8);
        assert(cb[1] == (c % 256) as u8);
        assert(sum16(cb) == (cb[0] as int) * 256 + (cb[1] as int) + sum16(cb.skip(2)));
        assert(cb.skip(2) =~= Seq::<u8>::empty());
    }
    lemma_checksum_verifies(sum16(s));
}

/// Computes the Internet checksum of `len` bytes of `bytes` starting at
/// `offset`.
pub fn checksum(bytes: &[u8], offset: usize, len: usize) -> (r: u16)
    requires
        offset + len <= bytes@.len(),
        0xFFFF * (((len + 1) / 2) as int) <= u32::MAX,
    ensures
        r == checksum_of(bytes@.subrange(offset as int, offset + len)),
{
    finish_checksum(bytes, offset, len, 0)
}

/// Adds the 16-bit words of an even-length range into a running 32-bit
/// accumulator, without folding.
pub fn start_checksum(bytes: &[u8], offset: usize, len: usize, initial: u32) -> (r: u32)
    requires
        offset + len <= bytes@.len(),
        len % 2 == 0,
        initial + 0xFFFF * ((len / 2) as int) <= u32::MAX,
    ensures
        r == initial + sum16(bytes@.subrange(offset as int, offset + len)),
{
    // Materializes that offset + len stays within the slice's usize range.
    let n: usize = bytes.len();
    let mut sum: u32 = initial;
    let mut i: usize = offset;
    let end: usize = offset + len;
    proof {
        lemma_sum16_nonneg(bytes@.subrange(offset as int, end as int));
    }
    while i < end
        invariant
            offset <= i <= end,
            (i - offset) % 2 == 0,
            end == offset + len,
            end <= bytes@.len(),
            len % 2 == 0,
            initial + 0xFFFF * ((len / 2) as int) <= u32::MAX,
            sum == initial + sum16(bytes@.subrange(offset as int, i as int)),
            sum <= initial + 0xFFFF * (((i - offset) / 2) as int),
        decreases end - i,
    {
        let word: u32 = ((bytes[i] as u32) << 8) | (bytes[i + 1] as u32);
        proof {
            let b0 = bytes@[i as int];
            let b1 = bytes@[i + 1];
            assert(((b0 as u32) << 8) | (b1 as u32) == (b0 as int) * 256 + (b1 as int))
                by (bit_vector);
            lemma_sum16_snoc_word(bytes@, offset as int, i as int);
        }
        sum = sum + word;
        i = i + 2;
    }
    proof {
        assert(i == end);
        assert(bytes@.subrange(offset as int, i as int)
            =~= bytes@.subrange(offset as int, offset + len));
    }
    sum
}

/// Extending an even range by one word adds that word to the sum.
proof fn lemma_sum16_snoc_word(s: Seq<u8>, offset: int, i: int)
    requires
        0 <= offset <= i,
        i + 2 <= s.len(),
        (i - offset) % 2 == 0,
    ensures
        sum16(s.subrange(offset, i + 2)) == sum16(s.subrange(offset, i)) + (s[i] as int) * 256
            + (s[i + 1] as int),
    decreases i - offset,
{
    if i == offset {
        assert(s.subrange(offset, offset) =~= Seq::<u8>::empty());
        assert(s.subrange(offset, offset + 2).skip(2) =~= Seq::<u8>::empty());
    } else {
        assert(s.subrange(offset, i + 2).skip(2) =~= s.subrange(offset + 2, i + 2));
        assert(s.subrange(offset, i).skip(2) =~= s.subrange(offset + 2, i));
        lemma_sum16_snoc_word(s, offset + 2, i);
    }
}

/// Adds the remaining words of a range into the accumulator, folds the
/// accumulator to 16 bits and returns its complement. A trailing odd byte is
/// treated as if the data were padded with a zero on the right.
pub fn finish_checksum(bytes: &[u8], offset: usize, len: usize, initial: u32) -> (r: u16)
    requires
        offset + len <= bytes@.len(),
        initial + 0xFFFF * (((len + 1) / 2) as int) <= u32::MAX,
    ensures
        r == finished16(initial + sum16(bytes@.subrange(offset as int, offset + len))),
{
    // Materializes that offset + len stays within the slice's usize range.
    let n: usize = bytes.len();
    let even_len: usize = len - len % 2;
    let mut sum: u32 = start_checksum(bytes, offset, even_len, initial);
    proof {
        lemma_sum16_nonneg(bytes@.subrange(offset as int, offset + even_len));
    }
    if even_len < len {
        let word: u32 = (bytes[offset + even_len] as u32) << 8;
        proof {
            let b = bytes@[offset + even_len];
            assert((b as u32) << 8 == (b as int) * 256) by (bit_vector);
            assert(bytes@.subrange(offset as int, offset + len).skip(even_len as int)
                =~= seq![b]) by {
                assert(bytes@.subrange(offset as int, offset + len)[even_len as int] == b);
            }
            lemma_sum16_split_even(
                bytes@.subrange(offset as int, offset + len),
                even_len as int,
            );
            assert(bytes@.subrange(offset as int, offset + len).take(even_len as int)
                =~= bytes@.subrange(offset as int, offset + even_len));
        }
        sum = sum + word;
    } else {
        proof {
            assert(bytes@.subrange(offset as int, offset + even_len)
                =~= bytes@.subrange(offset as int, offset + len));
        }
    }
    fold_and_complement(sum)
}

/// Splitting at an even index splits the word sum.
pub proof fn lemma_sum16_split_even(s: Seq<u8>, k: int)
    requires
        0 <= k <= s.len(),
        k % 2 == 0,
    ensures
        sum16(s) == sum16(s.take(k)) + sum16(s.skip(k)),
{
    lemma_sum16_concat(s.take(k), s.skip(k));
    assert(s.take(k) + s.skip(k) =~= s);
}

/// Folds a 32-bit accumulator and returns its one's complement.
fn fold_and_complement(sum: u32) -> (r: u16)
    ensures
        r == finished16(sum as int),
{
    let mut s: u32 = sum;
    while (s >> 16) != 0
        invariant
            fold16(s as int) == fold16(sum as int),
        decreases s,
    {
        proof {
            assert(s >> 16 == s as int / 0x10000 && (s & 0xFFFF) == s as int % 0x10000
                && ((s & 0xFFFF) as int + (s >> 16) as int <= u32::MAX)) by (bit_vector);
            assert(s as int >= 0x10000) by {
                assert(s >> 16 != 0 ==> s as int / 0x10000 >= 1) by (bit_vector);
            }
        }
        let lo: u32 = s & 0xFFFF;
        let hi: u32 = s >> 16;
        proof {
            assert(s >> 16 >= 1 ==> (s & 0xFFFF) + (s >> 16) < s) by (bit_vector);
        }
        s = lo + hi;
    }
    proof {
        assert(s >> 16 == 0 ==> s <= 0xFFFF) by (bit_vector);
        assert(fold16(s as int) == s as int);
        assert(!(s as u16) == (0xFFFF - s as int) as u16) by (bit_vector)
            requires s <= 0xFFFF;
    }
    !(s as u16)
}

} // verus!
