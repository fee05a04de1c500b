use snet::packet::Packet;
use snet::pcap::{pcap_frame_body, pcap_frame_header, pcap_frame_update, pcap_global_header};

#[test]
fn global_header_bytes() {
    let bytes = pcap_global_header(65535);
    let expected = vec![
        0xd4u8, 0xc3, 0xb2, 0xa1, // magic, little endian
        0x02, 0x00, 0x04, 0x00, // version 2.4
        0x00, 0x00, 0x00, 0x00, // timezone correction
        0x00, 0x00, 0x00, 0x00, // timestamp accuracy
        0xff, 0xff, 0x00, 0x00, // snap length
        0x69, 0x00, 0x00, 0x00, // LINKTYPE_IEEE802_11
    ];
    assert_eq!(expected, bytes);
}

#[test]
fn frame_header_caps_recorded_length() {
    let short = pcap_frame_header(1, 2, 100, 40);
    assert_eq!(
        vec![1u8, 0, 0, 0, 2, 0, 0, 0, 40, 0, 0, 0, 40, 0, 0, 0],
        short
    );

    let capped = pcap_frame_header(1, 2, 100, 500);
    assert_eq!(
        vec![1u8, 0, 0, 0, 2, 0, 0, 0, 100, 0, 0, 0, 0xF4, 0x01, 0, 0],
        capped
    );
}

#[test]
fn frame_body_truncates_to_snap_length() {
    let mut packet = Packet::new("p", "#>1.1");
    packet.push_bytes(&[1, 2, 3, 4, 5]);

    assert_eq!(vec![1u8, 2, 3, 4, 5], pcap_frame_body(&packet, 8));
    assert_eq!(vec![1u8, 2, 3], pcap_frame_body(&packet, 3));
}

#[test]
fn frame_update_respects_count() {
    assert_eq!((1, true), pcap_frame_update(0, 100_000));
    assert_eq!((100_000, true), pcap_frame_update(99_999, 100_000));
    assert_eq!((100_000, false), pcap_frame_update(100_000, 100_000));
}
