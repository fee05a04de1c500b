//! The echo scenario run through the layered stack itself: a packet
//! descends the sender's stack, crosses the medium, ascends the receiver's
//! stack, and an echo comes back the same way.
use snet::internet_info::InternetInfo;
use snet::ip_address::IPAddress;
use snet::ipv4::{ipv4_send_down, ipv4_send_up};
use snet::llc::{llc_send_down, llc_send_up};
use snet::mac80211::{mac_send_down, mac_send_up};
use snet::medium::medium_targets;
use snet::packet::Packet;
use snet::socket::SocketOptions;
use snet::udp::{udp_send_down, udp_send_up};

struct Station {
    sn: u16,
    num_recv: i64,
}

/// One full descent: app to the air.
fn descend(station: &mut Station, info: InternetInfo, options: SocketOptions, packet: Packet) -> Packet {
    let (info, options, packet) = udp_send_down(info, options, packet);
    let (header, packet) = ipv4_send_down(&info, &options, packet);
    let (_src_mac, _dst_mac, packet) = llc_send_down(&header, packet);
    let (next_sn, frame) = mac_send_down(station.sn, &header, packet);
    station.sn = next_sn;
    frame
}

/// One full ascent: the air to the app's payload bytes.
fn ascend(station: &mut Station, frame: Packet) -> Vec<u8> {
    let (linfo, packet) = mac_send_up(frame).expect("MAC rejected the frame");
    let (_linfo2, packet) =
        llc_send_up(&linfo.src_addr, &linfo.dst_addr, packet).expect("LLC rejected the header");
    let (_info, packet) = ipv4_send_up(packet).expect("IPv4 rejected the header");
    let (_udp, mut packet) = udp_send_up(packet).expect("UDP rejected the header");
    station.num_recv += 1;
    let len = packet.len();
    packet.pop_bytes(len)
}

#[test]
fn echo_one_packet() {
    let mut sender = Station { sn: 0, num_recv: 0 };
    let mut receiver = Station { sn: 0, num_recv: 0 };

    // The medium knows three port slots; the sender transmits on the first.
    let ports = vec!["upper_in_0".to_string(), "upper_in_1".to_string()];

    // Sender: "hello" down the stack.
    let mut packet = Packet::new("packet", "#>1");
    packet.push_back_bytes("hello".as_bytes());
    let info = InternetInfo::new(
        17,
        IPAddress::IPv4([10, 0, 0, 1]),
        IPAddress::IPv4([127, 0, 0, 2]),
    );
    let options = SocketOptions::with_addr(IPAddress::IPv4([127, 0, 0, 2]));
    let frame = descend(&mut sender, info, options, packet);

    // The medium clones the frame to every peer but the sender.
    let targets = medium_targets(&ports, &"upper_in_0".to_string());
    assert_eq!(vec![1usize], targets);
    let mut delivered: Vec<Packet> = Vec::new();
    for _ in &targets {
        delivered.push(frame.clone());
    }

    // Receiver: up the stack, observe "hello", echo a reply.
    let payload = ascend(&mut receiver, delivered.pop().unwrap());
    assert_eq!("hello".as_bytes().to_vec(), payload);

    let mut reply = Packet::new("packet", "#>2");
    reply.push_back_bytes("echoed hello".as_bytes());
    let info = InternetInfo::new(
        17,
        IPAddress::IPv4([10, 0, 0, 2]),
        IPAddress::IPv4([127, 0, 0, 1]),
    );
    let options = SocketOptions::with_addr(IPAddress::IPv4([127, 0, 0, 1]));
    let reply_frame = descend(&mut receiver, info, options, reply);

    let reply_targets = medium_targets(&ports, &"upper_in_1".to_string());
    assert_eq!(vec![0usize], reply_targets);

    // Sender: the echo comes back up.
    let echoed = ascend(&mut sender, reply_frame);
    assert_eq!("echoed hello".as_bytes().to_vec(), echoed);

    assert_eq!(1, sender.num_recv);
    assert_eq!(1, receiver.num_recv);
    assert_eq!(1, sender.sn);
    assert_eq!(1, receiver.sn);
}
