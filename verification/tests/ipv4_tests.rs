use snet::internet_info::InternetInfo;
use snet::ip_address::IPAddress;
use snet::ipv4::{ipv4_send_down, ipv4_send_up, IPv4Header, ECN};
use snet::packet::Packet;
use snet::protocol_numbers::EXPERIMENTAL1;
use snet::socket::SocketOptions;

#[test]
fn ipv4_header_pushing() {
    let mut packet = Packet::new("test packet", "1");
    let payload = "hello world".to_string();
    packet.push_bytes(payload.as_bytes());

    let src_ip = [127, 0, 0, 1];
    let dst_ip = [10, 0, 0, 255];
    let options = SocketOptions::with_addr(IPAddress::IPv4(dst_ip));
    let header1 = IPv4Header::new(EXPERIMENTAL1, src_ip, dst_ip, &options);
    header1.push(&mut packet);

    match IPv4Header::pop(&mut packet) {
        Ok(header2) => {
            assert_eq!(header1.dscp, header2.dscp);
            assert_eq!(header1.ecn, header2.ecn);
            assert_eq!(header1.identification, header2.identification);
            assert_eq!(header1.dont_fragment, header2.dont_fragment);
            assert_eq!(header1.more_fragments, header2.more_fragments);
            assert_eq!(header1.fragment_offset, header2.fragment_offset);
            assert_eq!(header1.ttl, header2.ttl);
            assert_eq!(header1.protocol, header2.protocol);

            assert_eq!(header1.src_addr[0], header2.src_addr[0]);
            assert_eq!(header1.src_addr[1], header2.src_addr[1]);
            assert_eq!(header1.src_addr[2], header2.src_addr[2]);
            assert_eq!(header1.src_addr[3], header2.src_addr[3]);

            assert_eq!(header1.dst_addr[0], header2.dst_addr[0]);
            assert_eq!(header1.dst_addr[1], header2.dst_addr[1]);
            assert_eq!(header1.dst_addr[2], header2.dst_addr[2]);
            assert_eq!(header1.dst_addr[3], header2.dst_addr[3]);
        }
        Err(mesg) => assert!(false, "{}", "IPv4Header::pop failed: ".to_string() + &mesg),
    }

    let len = packet.len();
    let data = packet.pop_bytes(len);
    match std::str::from_utf8(data.as_slice()) {
        Ok(text) => assert_eq!(payload, text),
        Err(mesg) => assert!(false, "IPv4Header::pop_payload failed: {}", mesg),
    }
}

// The exact wire bytes of the header above: RFC 791 layout with the
// checksum 0x30E2 at offset 10.
#[test]
fn ipv4_wire_bytes_exact() {
    let mut packet = Packet::new("test packet", "1");
    packet.push_bytes("hello world".as_bytes());

    let options = SocketOptions::with_addr(IPAddress::IPv4([10, 0, 0, 255]));
    let header = IPv4Header::new(EXPERIMENTAL1, [127, 0, 0, 1], [10, 0, 0, 255], &options);
    header.push(&mut packet);

    let expected = [
        0x45u8, 0x00, 0x00, 0x1f, 0x00, 0x00, 0x00, 0x00, 0xff, 0xfd, 0x30, 0xe2, 0x7f, 0x00,
        0x00, 0x01, 0x0a, 0x00, 0x00, 0xff,
    ];
    let wire = packet.pop_bytes(20);
    assert_eq!(expected.to_vec(), wire);
    // A receiver's checksum over the sent header comes out as zero.
    let mut check = Packet::new("check", "2");
    check.push_bytes(&expected);
    assert_eq!(0, check.checksum(20));
}

// Corrupting the first byte from 0x45 to 0x44 is caught; the checksum is
// verified before the fields, so the complaint is about the checksum.
#[test]
fn ipv4_corrupt_first_byte() {
    let mut packet = Packet::new("test packet", "1");
    packet.push_bytes("hello world".as_bytes());
    let options = SocketOptions::with_addr(IPAddress::IPv4([10, 0, 0, 255]));
    let header = IPv4Header::new(EXPERIMENTAL1, [127, 0, 0, 1], [10, 0, 0, 255], &options);
    header.push(&mut packet);

    let mut bytes = packet.pop_bytes(packet.len());
    bytes[0] = 0x44;
    let mut corrupted = Packet::new("corrupted", "2");
    corrupted.push_bytes(bytes.as_slice());
    match IPv4Header::pop(&mut corrupted) {
        Ok(_) => assert!(false, "corrupted header was accepted"),
        Err(mesg) => assert_eq!("IPv4Header checksum error", mesg),
    }
}

// The same corruption with the checksum recomputed to compensate is then
// caught by the field checks: the IHL complaint names both values.
#[test]
fn ipv4_corrupt_ihl_with_fixed_checksum() {
    let mut packet = Packet::new("test packet", "1");
    packet.push_bytes("hello world".as_bytes());
    let options = SocketOptions::with_addr(IPAddress::IPv4([10, 0, 0, 255]));
    let header = IPv4Header::new(EXPERIMENTAL1, [127, 0, 0, 1], [10, 0, 0, 255], &options);
    header.push(&mut packet);

    let mut bytes = packet.pop_bytes(packet.len());
    bytes[0] = 0x44;
    bytes[10] = 0;
    bytes[11] = 0;
    let mut zeroed = Packet::new("zeroed", "2");
    zeroed.push_bytes(&bytes[0..20]);
    let crc = zeroed.checksum(20);
    bytes[10] = (crc >> 8) as u8;
    bytes[11] = (crc & 0xFF) as u8;

    let mut corrupted = Packet::new("corrupted", "3");
    corrupted.push_bytes(bytes.as_slice());
    match IPv4Header::pop(&mut corrupted) {
        Ok(_) => assert!(false, "corrupted header was accepted"),
        Err(mesg) => assert_eq!("IPv4Header.IHL should be 5 not 4", mesg),
    }
}

// Any single flipped bit breaks the checksum.
#[test]
fn ipv4_single_bit_flips_rejected() {
    let mut packet = Packet::new("test packet", "1");
    packet.push_bytes("hello world".as_bytes());
    let options = SocketOptions::with_addr(IPAddress::IPv4([10, 0, 0, 2]));
    let header = IPv4Header::new(17, [10, 0, 0, 1], [10, 0, 0, 2], &options);
    header.push(&mut packet);
    let bytes = packet.pop_bytes(packet.len());

    for i in 0..20 {
        for j in 0..8 {
            let mut flipped = bytes.clone();
            flipped[i] ^= 1u8 << j;
            let mut p = Packet::new("flipped", "2");
            p.push_bytes(flipped.as_slice());
            match IPv4Header::pop(&mut p) {
                Ok(_) => assert!(false, "bit {} of byte {} went unnoticed", j, i),
                Err(mesg) => assert_eq!("IPv4Header checksum error", mesg),
            }
        }
    }
}

#[test]
fn ipv4_version_error_text() {
    // A header built by hand: version 6, checksum made consistent.
    let mut bytes = vec![0x65u8, 0, 0, 20, 0, 0, 0, 0, 64, 17, 0, 0, 1, 2, 3, 4, 5, 6, 7, 8];
    let mut zeroed = Packet::new("zeroed", "1");
    zeroed.push_bytes(bytes.as_slice());
    let crc = zeroed.checksum(20);
    bytes[10] = (crc >> 8) as u8;
    bytes[11] = (crc & 0xFF) as u8;

    let mut p = Packet::new("p", "2");
    p.push_bytes(bytes.as_slice());
    match IPv4Header::pop(&mut p) {
        Ok(_) => assert!(false, "bad version was accepted"),
        Err(mesg) => assert_eq!("IPv4Header.version should be 4 not 6", mesg),
    }
}

#[test]
fn ipv4_total_length_error_text() {
    // Declared total length 21 against 20 bytes on the wire.
    let mut bytes = vec![0x45u8, 0, 0, 21, 0, 0, 0, 0, 64, 17, 0, 0, 1, 2, 3, 4, 5, 6, 7, 8];
    let mut zeroed = Packet::new("zeroed", "1");
    zeroed.push_bytes(bytes.as_slice());
    let crc = zeroed.checksum(20);
    bytes[10] = (crc >> 8) as u8;
    bytes[11] = (crc & 0xFF) as u8;

    let mut p = Packet::new("p", "2");
    p.push_bytes(bytes.as_slice());
    match IPv4Header::pop(&mut p) {
        Ok(_) => assert!(false, "bad length was accepted"),
        Err(mesg) => assert_eq!("IPv4Header.total_length should be 20 but is 21", mesg),
    }
}

#[test]
fn ipv4_reserved_flag_error_text() {
    let mut bytes = vec![
        0x45u8, 0, 0, 20, 0, 0, 0x20, 0, 64, 17, 0, 0, 1, 2, 3, 4, 5, 6, 7, 8,
    ];
    let mut zeroed = Packet::new("zeroed", "1");
    zeroed.push_bytes(bytes.as_slice());
    let crc = zeroed.checksum(20);
    bytes[10] = (crc >> 8) as u8;
    bytes[11] = (crc & 0xFF) as u8;

    let mut p = Packet::new("p", "2");
    p.push_bytes(bytes.as_slice());
    match IPv4Header::pop(&mut p) {
        Ok(_) => assert!(false, "reserved flag bit was accepted"),
        Err(mesg) => assert_eq!("IPv4Header.flags has bit 0 set", mesg),
    }
}

#[test]
fn ipv4_reserved_protocol_error_text() {
    let mut bytes = vec![
        0x45u8, 0, 0, 20, 0, 0, 0, 0, 64, 255, 0, 0, 1, 2, 3, 4, 5, 6, 7, 8,
    ];
    let mut zeroed = Packet::new("zeroed", "1");
    zeroed.push_bytes(bytes.as_slice());
    let crc = zeroed.checksum(20);
    bytes[10] = (crc >> 8) as u8;
    bytes[11] = (crc & 0xFF) as u8;

    let mut p = Packet::new("p", "2");
    p.push_bytes(bytes.as_slice());
    match IPv4Header::pop(&mut p) {
        Ok(_) => assert!(false, "RESERVED protocol was accepted"),
        Err(mesg) => assert_eq!(
            "IPv4Header.protocol is using the RESERVED protocol (use one of the unassigned values instead for a custom protocol)",
            mesg
        ),
    }
}

// The component decisions around push and pop.
#[test]
fn ipv4_component_send_down_and_up() {
    let mut packet = Packet::new("p", "#>1.1");
    packet.push_bytes(&[1, 2, 3]);
    let info = InternetInfo::new(17, IPAddress::IPv4([10, 0, 0, 1]), IPAddress::IPv4([10, 0, 0, 2]));
    let options = SocketOptions::with_addr(IPAddress::IPv4([10, 0, 0, 2]));

    let (header, packet) = ipv4_send_down(&info, &options, packet);
    assert_eq!(17, header.protocol);
    assert_eq!(255, header.ttl);
    assert_eq!(ECN::NotCapable, header.ecn);

    match ipv4_send_up(packet) {
        Ok((info2, mut rest)) => {
            assert_eq!(17, info2.protocol);
            match info2.src_addr {
                IPAddress::IPv4(a) => assert_eq!([10, 0, 0, 1], a),
                _ => assert!(false, "address family changed on the way up"),
            }
            assert_eq!(vec![1, 2, 3], rest.pop_bytes(3));
        }
        Err(mesg) => assert!(false, "send_up dropped the packet: {}", mesg),
    }
}
