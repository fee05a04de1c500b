use snet::checksum::{checksum, finish_checksum, start_checksum};
use snet::packet::{Header, Packet};

// The worked example of RFC 1071 section 3: the one's-complement sum of
// [0x0001, 0xf203, 0xf4f5, 0xf6f7] is 0xddf2 with the carries folded back
// in, so the checksum is its complement.
#[test]
fn checksum_rfc1071_example() {
    let bytes = [0x00u8, 0x01, 0xf2, 0x03, 0xf4, 0xf5, 0xf6, 0xf7];
    assert_eq!(!0xddf2u16, checksum(&bytes, 0, 8));
}

#[test]
fn checksum_empty_is_all_ones() {
    let bytes: [u8; 0] = [];
    assert_eq!(0xFFFF, checksum(&bytes, 0, 0));
}

// An odd trailing byte counts as the high byte of a final word.
#[test]
fn checksum_odd_length() {
    let bytes = [0x12u8];
    assert_eq!(!0x1200u16, checksum(&bytes, 0, 1));
}

#[test]
fn checksum_offset_window() {
    let bytes = [0xFFu8, 0x00, 0x01, 0xFF];
    assert_eq!(!0x01FFu16, checksum(&bytes, 2, 2));
}

// Appending the checksum of an even-length buffer makes the whole check
// out to zero.
#[test]
fn checksum_of_checksummed_data_is_zero() {
    let data = [0x45u8, 0x00, 0x00, 0x1f, 0x12, 0x34, 0x56, 0x78, 0x9a, 0xbc];
    let c = checksum(&data, 0, 10);
    let mut whole = data.to_vec();
    whole.push((c >> 8) as u8);
    whole.push((c & 0xFF) as u8);
    assert_eq!(0, checksum(whole.as_slice(), 0, 12));
}

// The streaming form over several buffers agrees with one pass over the
// concatenation.
#[test]
fn checksum_composes_across_buffers() {
    let a = [0x0Au8, 0x0B, 0x0C, 0x0D];
    let b = [0x01u8, 0x02, 0x03];
    let acc = start_checksum(&a, 0, 4, 0);
    let streamed = finish_checksum(&b, 0, 3, acc);

    let whole = [0x0Au8, 0x0B, 0x0C, 0x0D, 0x01, 0x02, 0x03];
    assert_eq!(checksum(&whole, 0, 7), streamed);
}

#[test]
fn header_and_packet_checksums_agree() {
    let mut header = Header::new();
    header.push_bytes(&[0x11, 0x22, 0x33, 0x44]);

    let mut packet = Packet::new("p", "#>1.1");
    packet.push_bytes(&[0x11, 0x22, 0x33, 0x44]);

    assert_eq!(header.checksum(), packet.checksum(4));

    // Consuming the first word and streaming it back in as the initial
    // accumulator gives the same checksum.
    let acc = header.start_checksum(0);
    assert_eq!(acc, start_checksum(&[0x11, 0x22, 0x33, 0x44], 0, 4, 0));
    let _ = packet.pop16();
    assert_eq!(
        header.checksum(),
        packet.finish_checksum(2, start_checksum(&[0x11, 0x22], 0, 2, 0))
    );
}
