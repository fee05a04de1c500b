use snet::crc::{crc32, reverse32};
use snet::ip_address::IPAddress;
use snet::ipv4::IPv4Header;
use snet::mac80211::{mac_send_down, mac_send_up, Mac80211DataFrame};
use snet::packet::Packet;
use snet::socket::SocketOptions;

fn frame_with_seq_5() -> Mac80211DataFrame {
    Mac80211DataFrame {
        sa: [0, 0, 0x0A, 0, 0, 1],
        ta: [0, 0, 0x0A, 0, 0, 1],
        ra: [0, 0, 0x0A, 0, 0, 2],
        da: [0, 0, 0x0A, 0, 0, 2],
        bssid: [0, 0, 0, 0, 0, 0],
        seq_num: 5,
    }
}

// The 802.11 FCS scenario: seq 5, SA 00:00:0A:00:00:01, DA
// 00:00:0A:00:00:02. The last four bytes are the little-endian CRC-32 of
// the preceding bytes; recomputing the CRC over the whole frame yields the
// residue 0xC704DD7B; pop returns seq 5 with those addresses.
#[test]
fn mac80211_frame_fcs() {
    let mut packet = Packet::new("p", "#>1.1");
    let frame = frame_with_seq_5();
    frame.push(&mut packet);

    assert_eq!(30, packet.len());
    let expected_header = [
        0x88u8, 0x00, 0x00, 0x00, // frame control, duration
        0, 0, 0x0A, 0, 0, 2, // address 1: DA
        0, 0, 0x0A, 0, 0, 1, // address 2: SA
        0, 0, 0, 0, 0, 0, // address 3: BSSID
        0x00, 0x50, // sequence control: 5 << 4
        0x60, 0x00, // QoS control
    ];
    for (i, b) in expected_header.iter().enumerate() {
        assert_eq!(*b, packet.get(i), "header byte {}", i);
    }
    // The CRC-32 of those 26 bytes, little endian.
    assert_eq!(0x3C, packet.get(26));
    assert_eq!(0x2B, packet.get(27));
    assert_eq!(0xD1, packet.get(28));
    assert_eq!(0x31, packet.get(29));

    // Recomputing over the whole frame, FCS included, gives the residue.
    assert_eq!(0xC704DD7B, reverse32(!crc32(&packet)));

    match Mac80211DataFrame::pop(&mut packet) {
        Ok(frame2) => {
            assert_eq!(5, frame2.seq_num);
            assert_eq!([0, 0, 0x0A, 0, 0, 1], frame2.sa);
            assert_eq!([0, 0, 0x0A, 0, 0, 2], frame2.da);
            assert_eq!([0, 0, 0, 0, 0, 0], frame2.bssid);
        }
        Err(mesg) => assert!(false, "Mac80211DataFrame::pop failed: {}", mesg),
    }
    assert!(packet.is_empty());
}

#[test]
fn mac80211_round_trip_with_payload() {
    let mut packet = Packet::new("p", "#>1.2");
    packet.push_bytes("hello".as_bytes());
    let frame = frame_with_seq_5();
    frame.push(&mut packet);

    // The FCS is the CRC of everything before it.
    let total = packet.len();
    let mut before = Packet::new("before", "#>1.3");
    for i in 0..total - 4 {
        let b = [packet.get(i)];
        before.push_bytes(&b);
    }
    let crc = crc32(&before);
    assert_eq!((crc & 0xFF) as u8, packet.get(total - 4));
    assert_eq!(((crc >> 8) & 0xFF) as u8, packet.get(total - 3));
    assert_eq!(((crc >> 16) & 0xFF) as u8, packet.get(total - 2));
    assert_eq!(((crc >> 24) & 0xFF) as u8, packet.get(total - 1));

    match Mac80211DataFrame::pop(&mut packet) {
        Ok(frame2) => assert_eq!(5, frame2.seq_num),
        Err(mesg) => assert!(false, "Mac80211DataFrame::pop failed: {}", mesg),
    }
    assert_eq!("hello".as_bytes().to_vec(), packet.pop_bytes(5));
}

#[test]
fn mac80211_corrupt_frame_dropped() {
    let mut packet = Packet::new("p", "#>1.4");
    packet.push_bytes("hello".as_bytes());
    let frame = frame_with_seq_5();
    frame.push(&mut packet);

    let mut bytes = packet.pop_bytes(packet.len());
    bytes[12] ^= 0x01;
    let mut corrupted = Packet::new("corrupted", "#>1.5");
    corrupted.push_bytes(bytes.as_slice());
    match Mac80211DataFrame::pop(&mut corrupted) {
        Ok(_) => assert!(false, "corrupted frame was accepted"),
        Err(mesg) => assert_eq!("Checksum error", mesg),
    }
}

// A frame whose protocol version bits are set, with a consistent FCS, is
// rejected for its version.
#[test]
fn mac80211_bad_version_dropped() {
    let mut body = Packet::new("body", "#>1.6");
    // The protocol version sits in the low bits of the frame control word,
    // which is the second byte on the wire.
    let mut header = vec![0x88u8, 0x03, 0x00, 0x00];
    header.extend_from_slice(&[0, 0, 0x0A, 0, 0, 2]);
    header.extend_from_slice(&[0, 0, 0x0A, 0, 0, 1]);
    header.extend_from_slice(&[0, 0, 0, 0, 0, 0]);
    header.extend_from_slice(&[0x00, 0x50, 0x60, 0x00]);
    body.push_bytes(header.as_slice());
    let crc = crc32(&body);
    let fcs = [
        (crc & 0xFF) as u8,
        ((crc >> 8) & 0xFF) as u8,
        ((crc >> 16) & 0xFF) as u8,
        ((crc >> 24) & 0xFF) as u8,
    ];
    body.push_back_bytes(&fcs);

    match Mac80211DataFrame::pop(&mut body) {
        Ok(_) => assert!(false, "nonzero version bits were accepted"),
        Err(mesg) => assert_eq!("Version isn't zero", mesg),
    }
}

// Sequence monotonicity over several transmissions, with the 12-bit wrap.
#[test]
fn mac80211_sequence_numbers_increment() {
    let options = SocketOptions::with_addr(IPAddress::IPv4([10, 0, 0, 2]));
    let ipv4 = IPv4Header::new(17, [10, 0, 0, 1], [10, 0, 0, 2], &options);

    let mut sn: u16 = 0;
    for expected in 0u16..4 {
        let packet = Packet::new("p", "#>1.7");
        let (next, mut framed) = mac_send_down(sn, &ipv4, packet);
        assert_eq!((expected + 1) % 4096, next);
        // The emitted frame carries the pre-increment number.
        match Mac80211DataFrame::pop(&mut framed) {
            Ok(f) => assert_eq!(expected, f.seq_num),
            Err(mesg) => assert!(false, "pop failed: {}", mesg),
        }
        sn = next;
    }

    let packet = Packet::new("p", "#>1.8");
    let (next, _) = mac_send_down(4095, &ipv4, packet);
    assert_eq!(0, next);
}

#[test]
fn mac80211_component_send_up() {
    let mut packet = Packet::new("p", "#>1.9");
    packet.push_bytes(&[9, 9]);
    let frame = frame_with_seq_5();
    frame.push(&mut packet);

    match mac_send_up(packet) {
        Ok((linfo, mut rest)) => {
            assert_eq!([0, 0, 0x0A, 0, 0, 1], linfo.src_addr);
            assert_eq!([0, 0, 0x0A, 0, 0, 2], linfo.dst_addr);
            assert_eq!(vec![9, 9], rest.pop_bytes(2));
        }
        Err(mesg) => assert!(false, "send_up dropped the frame: {}", mesg),
    }
}
