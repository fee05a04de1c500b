use snet::ether_type::EtherType;
use snet::protocol::{Protocol, StandardProtocol};
use snet::protocol_numbers::{EXPERIMENTAL1, RESERVED, TCP, UDP};
use snet::socket::QoS;

#[test]
fn protocol_standard_values() {
    assert_eq!(17, UDP);
    assert_eq!(6, TCP);
    assert_eq!(253, EXPERIMENTAL1);
    assert_eq!(255, RESERVED);
    assert_eq!(17, StandardProtocol::UDP.as_u8());
    assert_eq!(0, StandardProtocol::HOPOPT.as_u8());
    assert_eq!(142, StandardProtocol::ROHC.as_u8());
}

// Every one of the 256 byte values decodes, and decoding then encoding is
// the identity on the byte.
#[test]
fn protocol_from_u8_total_and_inverse() {
    for v in 0u8..=255 {
        let p = Protocol::from_u8(v);
        assert_eq!(v, p.as_u8());
        match p {
            Protocol::Custom(c) => {
                assert!((143..=252).contains(&c));
                assert!(p.is_valid());
            }
            Protocol::Standard(s) => {
                assert!(!(143..=252).contains(&v));
                assert_eq!(v, s.as_u8());
            }
        }
    }
}

#[test]
fn protocol_validity() {
    assert!(Protocol::Standard(StandardProtocol::UDP).is_valid());
    assert!(!Protocol::Standard(StandardProtocol::RESERVED).is_valid());
    assert!(Protocol::Custom(143).is_valid());
    assert!(Protocol::Custom(252).is_valid());
    assert!(!Protocol::Custom(142).is_valid());
    assert!(!Protocol::Custom(253).is_valid());
}

#[test]
fn protocol_round_trip_on_variants() {
    let samples = [
        Protocol::Standard(StandardProtocol::ICMP),
        Protocol::Standard(StandardProtocol::TCP),
        Protocol::Standard(StandardProtocol::EXPERIMENTAL2),
        Protocol::Custom(200),
    ];
    for p in samples {
        assert_eq!(p, Protocol::from_u8(p.as_u8()));
    }
}

#[test]
fn ether_type_values_and_validity() {
    assert_eq!(0x0800, EtherType::IPv4.as_u16());
    assert_eq!(0x0806, EtherType::ARP.as_u16());
    assert_eq!(0x8035, EtherType::RARP.as_u16());
    assert_eq!(0x814C, EtherType::SNMP.as_u16());
    assert_eq!(0x86DD, EtherType::IPv6.as_u16());
    assert_eq!(0x88B5, EtherType::LocalExperimental0.as_u16());
    assert_eq!(0x88B6, EtherType::LocalExperimental1.as_u16());
    assert_eq!(0xFFFF, EtherType::Reserved.as_u16());
    assert_eq!(0x0200, EtherType::EthernetLength(0x0200).as_u16());

    assert!(EtherType::IPv4.is_valid());
    assert!(!EtherType::Reserved.is_valid());
    assert!(EtherType::EthernetLength(0x05DC).is_valid());
    assert!(!EtherType::EthernetLength(0x0700).is_valid());
}

#[test]
fn ether_type_from_u16_round_trip() {
    for v in [0u16, 0x05DC, 0x0800, 0x0806, 0x8035, 0x814C, 0x86DD, 0x88B5, 0x88B6, 0xFFFF] {
        assert!(EtherType::is_supported_u16(v));
        assert_eq!(v, EtherType::from_u16(v).as_u16());
    }
    assert!(!EtherType::is_supported_u16(0x1234));
    assert!(!EtherType::is_supported_u16(0x05DD));
}

#[test]
fn qos_classes_encode_their_band() {
    assert_eq!(0, QoS::BestEffort.as_u8());
    assert_eq!(32, QoS::Background.as_u8());
    assert_eq!(128, QoS::Video.as_u8());
    assert_eq!(192, QoS::Voice.as_u8());
}
