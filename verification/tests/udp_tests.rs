use snet::internet_info::InternetInfo;
use snet::ip_address::IPAddress;
use snet::packet::{Header, Packet};
use snet::socket::SocketOptions;
use snet::udp::{udp_send_down, udp_send_up, UDPHeader};

// The RFC 768 pseudo-header scenario: src 10.0.0.1, dst 10.0.0.2, payload
// "ping", ports 1 and 19. Recomputing the checksum externally over
// pseudo-header, zero-checksum header and payload gives the value placed
// at offsets 6 and 7; for these inputs that value is 0x0CEF.
#[test]
fn udp_checksum_over_pseudo_header() {
    let mut packet = Packet::new("p", "#>1.1");
    packet.push_bytes("ping".as_bytes());
    let info = InternetInfo::new(17, IPAddress::IPv4([10, 0, 0, 1]), IPAddress::IPv4([10, 0, 0, 2]));

    let header = UDPHeader::new(1, 19);
    header.push(&mut packet, &info);

    let wire = packet.pop_bytes(8);
    assert_eq!(vec![0, 1, 0, 19, 0, 12, 0x0C, 0xEF], wire);

    // The external recomputation, streamed over the three buffers.
    let mut check = Header::new();
    check.push_bytes(&[10, 0, 0, 1, 10, 0, 0, 2, 0, 17, 0, 12]); // pseudo-header
    check.push_bytes(&[0, 1, 0, 19, 0, 12, 0, 0]); // header, checksum zero
    check.push_bytes("ping".as_bytes());
    assert_eq!(0x0CEF, check.checksum());
}

#[test]
fn udp_round_trip() {
    let mut packet = Packet::new("p", "#>1.2");
    packet.push_bytes("payload".as_bytes());
    let info = InternetInfo::new(17, IPAddress::IPv4([10, 0, 0, 1]), IPAddress::IPv4([127, 0, 0, 2]));

    let header = UDPHeader::new(4096, 53);
    header.push(&mut packet, &info);

    match UDPHeader::pop(&mut packet) {
        Ok(header2) => {
            assert_eq!(4096, header2.src_port);
            assert_eq!(53, header2.dst_port);
        }
        Err(mesg) => assert!(false, "UDPHeader::pop failed: {}", mesg),
    }
    let len = packet.len();
    assert_eq!("payload".as_bytes().to_vec(), packet.pop_bytes(len));
}

#[test]
fn udp_length_mismatch_error_text() {
    let mut packet = Packet::new("p", "#>1.3");
    // A hand-built header declaring 13 bytes over 12 on the wire.
    packet.push_bytes(&[0, 1, 0, 19, 0, 13, 0, 0, 1, 2, 3, 4]);
    match UDPHeader::pop(&mut packet) {
        Ok(_) => assert!(false, "bad length was accepted"),
        Err(mesg) => assert_eq!("UDPHeader.total_length should be 12 but is 13", mesg),
    }
}

#[test]
fn udp_component_send_down_and_up() {
    let mut packet = Packet::new("p", "#>1.4");
    packet.push_bytes(&[0xAB]);
    let info = InternetInfo::new(17, IPAddress::IPv4([10, 0, 0, 1]), IPAddress::IPv4([10, 0, 0, 2]));
    let options = SocketOptions::with_addr(IPAddress::IPv4([10, 0, 0, 2]));

    // The model always sends from port 1 to the well-known chargen port.
    let (_, _, packet) = udp_send_down(info, options, packet);
    match udp_send_up(packet) {
        Ok((header, mut rest)) => {
            assert_eq!(1, header.src_port);
            assert_eq!(19, header.dst_port);
            assert_eq!(vec![0xAB], rest.pop_bytes(1));
        }
        Err(mesg) => assert!(false, "send_up dropped the packet: {}", mesg),
    }
}
