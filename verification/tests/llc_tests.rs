use snet::ether_type::EtherType;
use snet::ip_address::IPAddress;
use snet::ipv4::IPv4Header;
use snet::llc::{llc_send_down, llc_send_up, LlcHeader};
use snet::packet::Packet;
use snet::socket::SocketOptions;

// The LLC/SNAP scenario: the first 8 bytes after a push for IPv4 are
// AA AA 03 00 00 00 08 00, and popping restores the packet.
#[test]
fn llc_push_and_pop() {
    let mut packet = Packet::new("p", "#>1.1");
    packet.push_bytes(&[0xDE, 0xAD]);

    let header = LlcHeader::with_ipv4();
    header.push(&mut packet);

    assert_eq!(10, packet.len());
    assert_eq!(0xAA, packet.get(0));
    assert_eq!(0xAA, packet.get(1));
    assert_eq!(0x03, packet.get(2));
    assert_eq!(0x00, packet.get(3));
    assert_eq!(0x00, packet.get(4));
    assert_eq!(0x00, packet.get(5));
    assert_eq!(0x08, packet.get(6));
    assert_eq!(0x00, packet.get(7));

    match LlcHeader::pop(&mut packet) {
        Ok(header2) => assert_eq!(0x0800, header2.ether_type),
        Err(mesg) => assert!(false, "LlcHeader::pop failed: {}", mesg),
    }
    assert_eq!(vec![0xDE, 0xAD], packet.pop_bytes(2));
}

#[test]
fn llc_error_texts() {
    let cases: Vec<(Vec<u8>, &str)> = vec![
        (vec![0xAB, 0xAA, 3, 0, 0, 0, 8, 0], "DSAP isn't 170"),
        (vec![0xAA, 0xAB, 3, 0, 0, 0, 8, 0], "SSAP isn't 170"),
        (vec![0xAA, 0xAA, 4, 0, 0, 0, 8, 0], "CONTROL isn't 3"),
        (vec![0xAA, 0xAA, 3, 1, 0, 0, 8, 0], "OUI isn't 0"),
        (vec![0xAA, 0xAA, 3, 0, 1, 0, 8, 0], "OUI isn't 0"),
        (vec![0xAA, 0xAA, 3, 0, 0, 1, 8, 0], "OUI isn't 0"),
    ];
    for (bytes, expected) in cases {
        let mut packet = Packet::new("p", "#>1.2");
        packet.push_bytes(bytes.as_slice());
        match LlcHeader::pop(&mut packet) {
            Ok(_) => assert!(false, "bad header was accepted"),
            Err(mesg) => assert_eq!(expected, mesg),
        }
    }
}

// The descent derives placeholder MAC addresses by zero-padding the IPv4
// addresses on the left, in lieu of an ARP table.
#[test]
fn llc_component_send_down_and_up() {
    let mut packet = Packet::new("p", "#>1.3");
    packet.push_bytes(&[7]);
    let options = SocketOptions::with_addr(IPAddress::IPv4([10, 0, 0, 2]));
    let ipv4 = IPv4Header::new(17, [10, 0, 0, 1], [10, 0, 0, 2], &options);

    let (src_mac, dst_mac, packet) = llc_send_down(&ipv4, packet);
    assert_eq!([0, 0, 10, 0, 0, 1], src_mac);
    assert_eq!([0, 0, 10, 0, 0, 2], dst_mac);

    match llc_send_up(&src_mac, &dst_mac, packet) {
        Ok((linfo, mut rest)) => {
            assert_eq!(EtherType::IPv4, linfo.ether_type);
            assert_eq!(src_mac, linfo.src_addr);
            assert_eq!(dst_mac, linfo.dst_addr);
            assert_eq!(vec![7], rest.pop_bytes(1));
        }
        Err(mesg) => assert!(false, "send_up dropped the packet: {}", mesg),
    }
}

// A wire value outside the EtherType registry is rejected on the way up.
#[test]
fn llc_unsupported_ether_type_dropped() {
    let mut packet = Packet::new("p", "#>1.4");
    packet.push_bytes(&[0xAA, 0xAA, 3, 0, 0, 0, 0x12, 0x34]);
    let src: [u8; 6] = [0; 6];
    let dst: [u8; 6] = [0; 6];
    match llc_send_up(&src, &dst, packet) {
        Ok(_) => assert!(false, "unsupported ether type was accepted"),
        Err(mesg) => assert_eq!("4660 isn't a supported ether_type", mesg),
    }
}
