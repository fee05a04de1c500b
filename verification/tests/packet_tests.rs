use snet::packet::{Header, Packet};

#[test]
fn packet_pushing() {
    let mut packet = Packet::new("test packet", "1");

    let mut header1 = Header::new();
    header1.push8(4);
    header1.push8(5);
    header1.push16(0x0708);
    packet.push_header(&header1);

    let mut header2 = Header::new();
    header2.push8(104);
    packet.push_header(&header2);

    // header2 will have been pushed to the front
    let b = packet.pop8();
    assert_eq!(104, b);

    let b = packet.pop8();
    assert_eq!(4, b);

    let b = packet.pop8();
    assert_eq!(5, b);

    let hw = packet.pop16();
    assert_eq!(0x0708, hw);

    assert!(packet.is_empty())
}

#[test]
fn packet_name_and_id() {
    let packet = Packet::new("ICMP Ping", "#>12.56");
    assert_eq!("ICMP Ping", packet.name());
    assert_eq!("#>12.56", packet.id());
}

#[test]
fn packet_push_and_pop_bytes() {
    let mut packet = Packet::new("p", "#>1.1");
    packet.push_bytes(&[1, 2, 3, 4, 5]);
    assert_eq!(5, packet.len());

    let front = packet.pop_bytes(2);
    assert_eq!(vec![1, 2], front);
    assert_eq!(3, packet.len());

    let rest = packet.pop_bytes(3);
    assert_eq!(vec![3, 4, 5], rest);
    assert!(packet.is_empty());
}

#[test]
fn packet_back_operations() {
    let mut packet = Packet::new("p", "#>1.2");
    packet.push_bytes(&[10, 20]);
    packet.push_back_bytes(&[30, 40]);
    assert_eq!(4, packet.len());

    assert_eq!(40, packet.pop_back8());
    assert_eq!(30, packet.pop_back8());
    assert_eq!(10, packet.pop8());
    assert_eq!(20, packet.pop8());
}

#[test]
fn packet_pop_words() {
    let mut packet = Packet::new("p", "#>1.3");
    packet.push_bytes(&[0x01, 0x02, 0x03, 0x04, 0xAA, 0xBB]);
    assert_eq!(0x01020304, packet.pop32());
    assert_eq!(0xAABB, packet.pop16());
}

#[test]
fn packet_get_and_payload() {
    let mut packet = Packet::new("p", "#>1.4");
    packet.push_bytes(&[7, 8, 9]);
    assert_eq!(7, packet.get(0));
    assert_eq!(9, packet.get(2));
    let _ = packet.pop8();
    // get indexes from the front cursor; the raw payload keeps all bytes.
    assert_eq!(8, packet.get(0));
    assert_eq!(&vec![7u8, 8, 9], packet.payload());
}

#[test]
fn packet_clone_keeps_bytes() {
    let mut packet = Packet::new("p", "#>1.5");
    packet.push_bytes(&[1, 2, 3]);
    let mut copy = packet.clone();
    assert_eq!(packet.pop_bytes(3), copy.pop_bytes(3));
}

#[test]
fn header_with_capacity_and_push32() {
    let mut header = Header::with_capacity(8);
    header.push32(0x0A0B0C0D);
    header.push_bytes(&[0xEE]);
    assert_eq!(vec![0x0A, 0x0B, 0x0C, 0x0D, 0xEE], header.data);
}
