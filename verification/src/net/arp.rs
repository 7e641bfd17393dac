use vstd::prelude::*;
use crate::error::Error;
use crate::net::eth::{EthernetAddr, EthernetHeader, ETHERNET_TYPE_ARP};
use crate::net::ip::{spec_ip_at, IpV4Addr};
use crate::net::wire::{be16, spec_be16, too_short_message};

verus! {

/// Length of an ARP frame for Ethernet and IPv4.
pub const ARP_PACKET_LEN: usize = 42;

/// Offset of the ARP operation in a frame.
pub const ARP_OFFSET_OP: usize = 20;

/// Offset of the sender's hardware address.
pub const ARP_OFFSET_SENDER_ETH: usize = 22;

/// Offset of the sender's protocol address.
pub const ARP_OFFSET_SENDER_IP: usize = 28;

/// Offset of the target's hardware address.
pub const ARP_OFFSET_TARGET_ETH: usize = 32;

/// Offset of the target's protocol address.
pub const ARP_OFFSET_TARGET_IP: usize = 38;

/// ARP operation: request.
pub const ARP_OP_REQUEST: u16 = 1;

/// ARP operation: response.
pub const ARP_OP_RESPONSE: u16 = 2;

/// An ARP message for Ethernet and IPv4.
#[derive(Clone, Copy, Debug, PartialEq, Eq, Structural)]
pub struct ArpPacket {
    pub op: u16,
    pub sender_eth: EthernetAddr,
    pub sender_ip: IpV4Addr,
    pub target_eth: EthernetAddr,
    pub target_ip: IpV4Addr,
}

/// The address in the six bytes of `frame` from `off`.
pub open spec fn spec_eth_at(frame: Seq<u8>, off: int) -> EthernetAddr {
    EthernetAddr {
        b0: frame[off],
        b1: frame[off + 1],
        b2: frame[off + 2],
        b3: frame[off + 3],
        b4: frame[off + 4],
        b5: frame[off + 5],
    }
}

/// The frame that asks, on behalf of the station `src_eth` with address
/// `src_ip`, who has `dst_ip`.
pub open spec fn spec_arp_request(src_eth: EthernetAddr, src_ip: IpV4Addr, dst_ip: IpV4Addr) -> Seq<
    u8,
> {
    (EthernetHeader {
        dst: EthernetAddr { b0: 255, b1: 255, b2: 255, b3: 255, b4: 255, b5: 255 },
        src: src_eth,
        eth_type: ETHERNET_TYPE_ARP,
    })@ + seq![0u8, 1u8, 8u8, 0u8, 6u8, 4u8, 0u8, 1u8] + src_eth@ + src_ip@ + seq![
        0u8,
        0u8,
        0u8,
        0u8,
        0u8,
        0u8,
    ] + dst_ip@
}

impl ArpPacket {
    /// The ARP message in `frame`, where `frame` is long enough.
    pub open spec fn spec_parse(frame: Seq<u8>) -> ArpPacket {
        ArpPacket {
            op: spec_be16(frame, ARP_OFFSET_OP as int) as u16,
            sender_eth: spec_eth_at(frame, ARP_OFFSET_SENDER_ETH as int),
            sender_ip: spec_ip_at(frame, ARP_OFFSET_SENDER_IP as int),
            target_eth: spec_eth_at(frame, ARP_OFFSET_TARGET_ETH as int),
            target_ip: spec_ip_at(frame, ARP_OFFSET_TARGET_IP as int),
        }
    }

    /// Reads the ARP message in `frame`; a frame too short for one is
    /// rejected.
    pub fn from_slice(frame: &[u8]) -> (r: Result<ArpPacket, Error>)
        ensures
            frame@.len() >= ARP_PACKET_LEN <==> r is Ok,
            r matches Ok(p) ==> p == Self::spec_parse(frame@),
            r matches Err(e) ==> (e matches Error::Failed(m) && m@ == too_short_message()),
    {
        if frame.len() < ARP_PACKET_LEN {
            return Err(Error::Failed("data is too short"));
        }
        let sender_eth = EthernetAddr::read(frame, ARP_OFFSET_SENDER_ETH);
        let sender_ip = IpV4Addr::read(frame, ARP_OFFSET_SENDER_IP);
        let target_eth = EthernetAddr::read(frame, ARP_OFFSET_TARGET_ETH);
        let target_ip = IpV4Addr::read(frame, ARP_OFFSET_TARGET_IP);
        proof {
            let a = frame@.subrange(ARP_OFFSET_SENDER_ETH as int, ARP_OFFSET_SENDER_ETH + 6);
            assert(sender_eth@[0] == a[0] && sender_eth@[1] == a[1] && sender_eth@[2] == a[2]
                && sender_eth@[3] == a[3] && sender_eth@[4] == a[4] && sender_eth@[5] == a[5]);
            let b = frame@.subrange(ARP_OFFSET_SENDER_IP as int, ARP_OFFSET_SENDER_IP + 4);
            assert(sender_ip@[0] == b[0] && sender_ip@[1] == b[1] && sender_ip@[2] == b[2]
                && sender_ip@[3] == b[3]);
            let c = frame@.subrange(ARP_OFFSET_TARGET_ETH as int, ARP_OFFSET_TARGET_ETH + 6);
            assert(target_eth@[0] == c[0] && target_eth@[1] == c[1] && target_eth@[2] == c[2]
                && target_eth@[3] == c[3] && target_eth@[4] == c[4] && target_eth@[5] == c[5]);
            let d = frame@.subrange(ARP_OFFSET_TARGET_IP as int, ARP_OFFSET_TARGET_IP + 4);
            assert(target_ip@[0] == d[0] && target_ip@[1] == d[1] && target_ip@[2] == d[2]
                && target_ip@[3] == d[3]);
        }
        Ok(
            ArpPacket {
                op: be16(frame, ARP_OFFSET_OP),
                sender_eth,
                sender_ip,
                target_eth,
                target_ip,
            },
        )
    }

    /// Whether the message answers a request.
    pub fn is_response(&self) -> (r: bool)
        ensures
            r == (self.op == ARP_OP_RESPONSE),
    {
        self.op == ARP_OP_RESPONSE
    }

    /// The hardware address of the sender.
    pub fn sender_eth_addr(&self) -> (r: EthernetAddr)
        ensures
            r == self.sender_eth,
    {
        self.sender_eth
    }

    /// The protocol address of the sender.
    pub fn sender_ip_addr(&self) -> (r: IpV4Addr)
        ensures
            r == self.sender_ip,
    {
        self.sender_ip
    }

    /// Builds the frame that asks, on behalf of the station `src_eth` with
    /// address `src_ip`, who has `dst_ip`.
    pub fn request(src_eth: EthernetAddr, src_ip: IpV4Addr, dst_ip: IpV4Addr) -> (r: Vec<u8>)
        ensures
            r@ == spec_arp_request(src_eth, src_ip, dst_ip),
            r@.len() == ARP_PACKET_LEN,
    {
        let mut out: Vec<u8> = Vec::new();
        let eth = EthernetHeader::new(EthernetAddr::broadcast(), src_eth, ETHERNET_TYPE_ARP);
        assert(eth.dst == (EthernetAddr { b0: 255, b1: 255, b2: 255, b3: 255, b4: 255, b5: 255 }))
            by {
            assert(eth.dst@[0] == 255 && eth.dst@[1] == 255 && eth.dst@[2] == 255 && eth.dst@[3]
                == 255 && eth.dst@[4] == 255 && eth.dst@[5] == 255);
        }
        eth.write(&mut out);
        out.push(0);
        out.push(1);
        out.push(8);
        out.push(0);
        out.push(6);
        out.push(4);
        out.push(0);
        out.push(1);
        src_eth.write(&mut out);
        src_ip.write(&mut out);
        EthernetAddr::zero().write(&mut out);
        dst_ip.write(&mut out);
        assert(out@ =~= spec_arp_request(src_eth, src_ip, dst_ip));
        out
    }
}

} // verus!
