//! Boundary sizes: empty payloads and the largest total length an IPv4
//! header can declare.
use snet::ip_address::IPAddress;
use snet::ipv4::IPv4Header;
use snet::packet::Packet;
use snet::socket::SocketOptions;
use snet::udp::UDPHeader;
use snet::internet_info::InternetInfo;

#[test]
fn ipv4_empty_payload_round_trip() {
    let mut packet = Packet::new("p", "#>1.1");
    let options = SocketOptions::with_addr(IPAddress::IPv4([10, 0, 0, 2]));
    let header = IPv4Header::new(17, [10, 0, 0, 1], [10, 0, 0, 2], &options);
    header.push(&mut packet);
    assert_eq!(20, packet.len());

    match IPv4Header::pop(&mut packet) {
        Ok(header2) => assert_eq!(17, header2.protocol),
        Err(mesg) => assert!(false, "IPv4Header::pop failed: {}", mesg),
    }
    assert!(packet.is_empty());
}

#[test]
fn ipv4_largest_payload_round_trip() {
    // The largest payload whose total length still fits the 16-bit field.
    let payload = vec![0xA5u8; 0xFFFF - 20];
    let mut packet = Packet::new("p", "#>1.2");
    packet.push_bytes(payload.as_slice());

    let options = SocketOptions::with_addr(IPAddress::IPv4([10, 0, 0, 2]));
    let header = IPv4Header::new(17, [10, 0, 0, 1], [10, 0, 0, 2], &options);
    header.push(&mut packet);
    assert_eq!(0xFFFF, packet.len());

    match IPv4Header::pop(&mut packet) {
        Ok(_) => {}
        Err(mesg) => assert!(false, "IPv4Header::pop failed: {}", mesg),
    }
    assert_eq!(0xFFFF - 20, packet.len());
}

#[test]
fn udp_empty_payload_round_trip() {
    let mut packet = Packet::new("p", "#>1.3");
    let info = InternetInfo::new(17, IPAddress::IPv4([10, 0, 0, 1]), IPAddress::IPv4([10, 0, 0, 2]));
    let header = UDPHeader::new(5, 6);
    header.push(&mut packet, &info);
    assert_eq!(8, packet.len());

    match UDPHeader::pop(&mut packet) {
        Ok(header2) => {
            assert_eq!(5, header2.src_port);
            assert_eq!(6, header2.dst_port);
        }
        Err(mesg) => assert!(false, "UDPHeader::pop failed: {}", mesg),
    }
    assert!(packet.is_empty());
}
