//! A verified core for a discrete-event network-stack simulator: packets as
//! byte buffers with front-push headers, the Internet checksum, and bit-exact
//! wire codecs for IPv4, UDP, LLC/SNAP and IEEE 802.11 data frames.
pub mod checksum;
pub mod crc;
pub mod ether_type;
pub mod internet_info;
pub mod ip_address;
pub mod ipv4;
pub mod link;
pub mod llc;
pub mod mac80211;
pub mod medium;
pub mod packet;
pub mod pcap;
pub mod protocol;
pub mod protocol_numbers;
pub mod socket;
pub mod text;
pub mod udp;
