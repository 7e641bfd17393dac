//! The IPv4 network stack: wire formats and the manager's decisions.

pub mod arp;
pub mod checksum;
pub mod dhcp;
pub mod eth;
pub mod icmp;
pub mod manager;
pub mod ip;
pub mod tcp;
pub mod udp;
pub mod wire;
