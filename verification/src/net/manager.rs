use vstd::prelude::*;
use vstd::slice::slice_subrange;
use std::collections::BTreeMap;
use std::collections::VecDeque;
use crate::error::Error;
use crate::net::arp::ArpPacket;
use crate::net::checksum::{spec_checksum, InternetChecksum};
use crate::net::dhcp::{
    frame_options, invalid_len_message, is_dhcp_frame, spec_is_boot_reply, spec_options,
    spec_parse_options, spec_yiaddr, DhcpOptions, DhcpPacket,
};
use crate::net::eth::{
    EthernetAddr, EthernetHeader, ETHERNET_HEADER_LEN, ETHERNET_TYPE_ARP, ETHERNET_TYPE_IP_V4,
};
use crate::net::icmp::IcmpPacket;
use crate::net::ip::{
    IpV4Addr, IpV4Packet, IP_V4_PACKET_LEN, IP_V4_PROTOCOL_ICMP, IP_V4_PROTOCOL_TCP,
    IP_V4_PROTOCOL_UDP,
};
use crate::net::tcp::TcpPacket;
use crate::net::udp::{UdpPacket, UDP_PORT_DHCP_CLIENT, UDP_PORT_DHCP_SERVER};
use crate::net::wire::{push_all, push_be16, spec_be16_bytes, too_short_message};

verus! {

/// The message of the error with which an interface answers that does not
/// say how to receive.
pub open spec fn not_implemented_message() -> Seq<char> {
    "Not implemented yet"@
}

/// A network interface, as its driver offers it to the stack.
pub trait NetworkInterface {
    /// The name of the interface.
    fn name(&self) -> &str;

    /// The hardware address of the interface.
    fn ethernet_addr(&self) -> EthernetAddr;

    /// Hands a frame to the interface for transmission.
    fn push_packet(&self, packet: Vec<u8>) -> Result<(), Error>;

    /// Takes one received frame from the interface, if it has one. An
    /// interface that does not say how to receive answers that this is not
    /// implemented yet.
    fn pop_packet(&self) -> (r: Result<Vec<u8>, Error>)
        default_ensures
            r matches Err(Error::Failed(m)) && m@ == not_implemented_message(),
    {
        Err(Error::Failed("Not implemented yet"))
    }
}

/// What the ARP table knows of one IPv4 address.
#[derive(Clone, Copy, Debug, PartialEq, Eq, Structural)]
pub struct ArpEntry {
    /// The hardware address that answers for the IPv4 address.
    pub eth_addr: EthernetAddr,
    /// The interface on which the answer arrived.
    pub iface: usize,
}

/// The state of the network stack.
pub struct Network {
    /// The registered interfaces, in order of registration.
    pub interfaces: Vec<usize>,
    /// Whether an interface was registered since the last probe.
    pub interface_has_added: bool,
    pub netmask: Option<IpV4Addr>,
    pub router: Option<IpV4Addr>,
    pub dns: Option<IpV4Addr>,
    pub self_ip: Option<IpV4Addr>,
    /// IPv4 frames that wait to be routed and sent, oldest first.
    pub ip_tx_queue: VecDeque<Vec<u8>>,
    /// The ARP table, keyed by the IPv4 address as a number.
    pub arp_table: BTreeMap<u32, ArpEntry>,
}

/// The state of the network stack as plain values.
pub struct NetworkView {
    pub interfaces: Seq<usize>,
    pub interface_has_added: bool,
    pub netmask: Option<IpV4Addr>,
    pub router: Option<IpV4Addr>,
    pub dns: Option<IpV4Addr>,
    pub self_ip: Option<IpV4Addr>,
    pub ip_tx_queue: Seq<Seq<u8>>,
    pub arp_table: Map<u32, ArpEntry>,
}

impl View for Network {
    type V = NetworkView;

    open spec fn view(&self) -> NetworkView {
        NetworkView {
            interfaces: self.interfaces@,
            interface_has_added: self.interface_has_added,
            netmask: self.netmask,
            router: self.router,
            dns: self.dns,
            self_ip: self.self_ip,
            ip_tx_queue: self.ip_tx_queue@.map_values(|f: Vec<u8>| f@),
            arp_table: self.arp_table@,
        }
    }
}

impl NetworkView {
    /// The state after a DHCP reply with the given address and options:
    /// the address is taken, and each of mask, router and name server that
    /// the options give replaces the one held.
    pub open spec fn with_lease(self, yiaddr: IpV4Addr, opts: DhcpOptions) -> NetworkView {
        NetworkView {
            self_ip: Some(yiaddr),
            netmask: if opts.netmask is Some {
                opts.netmask
            } else {
                self.netmask
            },
            router: if opts.router is Some {
                opts.router
            } else {
                self.router
            },
            dns: if opts.dns is Some {
                opts.dns
            } else {
                self.dns
            },
            ..self
        }
    }

    /// What the ARP table knows of `ip`.
    pub open spec fn arp_lookup(self, ip: IpV4Addr) -> Option<ArpEntry> {
        if self.arp_table.contains_key(ip.spec_to_u32()) {
            Some(self.arp_table[ip.spec_to_u32()])
        } else {
            None
        }
    }

    /// The station to which a frame for `dst` is handed: `dst` itself where
    /// it lies in this host's subnet, else the router, as far as the ARP
    /// table knows it. Without an address and a subnet mask of this host
    /// there is none.
    pub open spec fn next_hop(self, dst: IpV4Addr) -> Option<ArpEntry> {
        if self.self_ip is Some && self.netmask is Some {
            let src = self.self_ip->0;
            let mask = self.netmask->0;
            if src.spec_network_prefix(mask) == dst.spec_network_prefix(mask) {
                self.arp_lookup(dst)
            } else if self.router is Some {
                self.arp_lookup(self.router->0)
            } else {
                None
            }
        } else {
            None
        }
    }

    /// The next hop of the frame `frame`, where it can be sent: it holds an
    /// IPv4 header and a next hop is known for its destination.
    pub open spec fn tx_route(self, frame: Seq<u8>) -> Option<ArpEntry> {
        if frame.len() >= IP_V4_PACKET_LEN {
            self.next_hop(IpV4Packet::spec_parse(frame).dst)
        } else {
            None
        }
    }

    /// The interface to which the oldest frame of the transmit queue is
    /// handed, where it is handed to one: the queue holds a frame, the
    /// frame can be sent, and the interface of its next hop is among the
    /// `held` that are still there.
    pub open spec fn tx_interface(self, held: nat) -> Option<usize> {
        if self.ip_tx_queue.len() > 0 && self.tx_route(self.ip_tx_queue[0]) is Some
            && self.tx_route(self.ip_tx_queue[0])->0.iface < held {
            Some(self.tx_route(self.ip_tx_queue[0])->0.iface)
        } else {
            None
        }
    }

    /// The state after the probe and the transmit step of a round: the
    /// interfaces count as probed, and the oldest frame has left the
    /// transmit queue.
    pub open spec fn before_rx(self) -> NetworkView {
        NetworkView {
            interface_has_added: false,
            ip_tx_queue: spec_tx_rest(self.ip_tx_queue),
            ..self
        }
    }

    /// Whether the probe of a round hands something to an interface: an
    /// interface was added, and one of those registered is among the `held`
    /// that are still there.
    pub open spec fn probe_sends(self, held: nat) -> bool {
        self.interface_has_added && !none_held(self.interfaces, held)
    }

    /// The state after `eth_addr` was recorded for `ip` on `iface`.
    pub open spec fn with_arp(self, ip: IpV4Addr, eth_addr: EthernetAddr, iface: usize)
        -> NetworkView {
        NetworkView {
            arp_table: self.arp_table.insert(ip.spec_to_u32(), ArpEntry { eth_addr, iface }),
            ..self
        }
    }
}

/// The IPv4 address for which the stack asks at start: the gateway of the
/// emulated network.
pub open spec fn probe_target_ip() -> IpV4Addr {
    IpV4Addr { b0: 10, b1: 0, b2: 2, b3: 2 }
}

/// The IPv4 address that the stack claims in its first ARP request.
pub open spec fn probe_sender_ip() -> IpV4Addr {
    IpV4Addr { b0: 10, b1: 0, b2: 2, b3: 15 }
}

/// The message of the error reported for a frame that is no ARP message.
pub open spec fn invalid_arp_message() -> Seq<char> {
    "handle_rx_arp: Not a valid ARP Packet"@
}

/// The frame `frame` made ready for the wire: addressed to `next_hop` from
/// the interface `iface_mac`, sent from `src_ip`, with the IPv4 header
/// checksum computed anew. The rest of the frame is kept.
pub open spec fn spec_route_frame(
    frame: Seq<u8>,
    src_ip: IpV4Addr,
    next_hop: EthernetAddr,
    iface_mac: EthernetAddr,
) -> Seq<u8> {
    (EthernetHeader { dst: next_hop, src: iface_mac, eth_type: ETHERNET_TYPE_IP_V4 })@
        + frame.subrange(14, 24) + spec_be16_bytes(
        spec_checksum(frame.subrange(14, 24) + seq![0u8, 0u8] + src_ip@ + frame.subrange(30, 34)),
    ) + src_ip@ + frame.subrange(30, frame.len() as int)
}

/// Makes an IPv4 frame ready for the wire: fills in the Ethernet header and
/// the source address, and computes the header checksum.
pub fn route_frame(
    frame: &Vec<u8>,
    src_ip: IpV4Addr,
    next_hop: EthernetAddr,
    iface_mac: EthernetAddr,
) -> (r: Vec<u8>)
    requires
        frame@.len() >= IP_V4_PACKET_LEN,
    ensures
        r@ == spec_route_frame(frame@, src_ip, next_hop, iface_mac),
        r@.len() == frame@.len(),
{
    let bytes = frame.as_slice();
    let mut header: Vec<u8> = Vec::new();
    push_all(&mut header, slice_subrange(bytes, 14, 24));
    header.push(0);
    header.push(0);
    src_ip.write(&mut header);
    push_all(&mut header, slice_subrange(bytes, 30, 34));
    assert(header@ =~= frame@.subrange(14, 24) + seq![0u8, 0u8] + src_ip@ + frame@.subrange(
        30,
        34,
    ));
    let csum = InternetChecksum::calc(header.as_slice());
    let mut out: Vec<u8> = Vec::new();
    let eth = EthernetHeader::new(next_hop, iface_mac, ETHERNET_TYPE_IP_V4);
    eth.write(&mut out);
    push_all(&mut out, slice_subrange(bytes, 14, 24));
    push_be16(&mut out, csum.value);
    src_ip.write(&mut out);
    push_all(&mut out, slice_subrange(bytes, 30, bytes.len()));
    assert(out@ =~= spec_route_frame(frame@, src_ip, next_hop, iface_mac));
    out
}

impl Network {
    /// A stack with no interface, no lease, no queued frame and an empty
    /// ARP table.
    pub fn new() -> (r: Network)
        ensures
            r.interfaces@ == Seq::<usize>::empty(),
            !r.interface_has_added,
            r.netmask is None,
            r.router is None,
            r.dns is None,
            r.self_ip is None,
            r.ip_tx_queue@ == Seq::<Vec<u8>>::empty(),
            r.arp_table@ == Map::<u32, ArpEntry>::empty(),
    {
        Network {
            interfaces: Vec::new(),
            interface_has_added: false,
            netmask: None,
            router: None,
            dns: None,
            self_ip: None,
            ip_tx_queue: VecDeque::new(),
            arp_table: BTreeMap::new(),
        }
    }

    /// Registers the interface `iface` and notes that the interfaces are to
    /// be probed.
    pub fn register_interface(&mut self, iface: usize)
        ensures
            final(self).interfaces@ == old(self).interfaces@.push(iface),
            final(self).interface_has_added,
            *final(self) == (Network {
                interfaces: final(self).interfaces,
                interface_has_added: true,
                ..*old(self)
            }),
    {
        self.interfaces.push(iface);
        self.interface_has_added = true;
    }

    /// The subnet mask of the last lease.
    pub fn netmask(&self) -> (r: Option<IpV4Addr>)
        ensures
            r == self.netmask,
    {
        self.netmask
    }

    /// The router of the last lease.
    pub fn router(&self) -> (r: Option<IpV4Addr>)
        ensures
            r == self.router,
    {
        self.router
    }

    /// The name server of the last lease.
    pub fn dns(&self) -> (r: Option<IpV4Addr>)
        ensures
            r == self.dns,
    {
        self.dns
    }

    /// The address of this host in the last lease.
    pub fn self_ip(&self) -> (r: Option<IpV4Addr>)
        ensures
            r == self.self_ip,
    {
        self.self_ip
    }

    /// Sets the subnet mask.
    pub fn set_netmask(&mut self, value: Option<IpV4Addr>)
        ensures
            *final(self) == (Network { netmask: value, ..*old(self) }),
    {
        self.netmask = value;
    }

    /// Sets the router.
    pub fn set_router(&mut self, value: Option<IpV4Addr>)
        ensures
            *final(self) == (Network { router: value, ..*old(self) }),
    {
        self.router = value;
    }

    /// Sets the name server.
    pub fn set_dns(&mut self, value: Option<IpV4Addr>)
        ensures
            *final(self) == (Network { dns: value, ..*old(self) }),
    {
        self.dns = value;
    }

    /// Sets the address of this host.
    pub fn set_self_ip(&mut self, value: Option<IpV4Addr>)
        ensures
            *final(self) == (Network { self_ip: value, ..*old(self) }),
    {
        self.self_ip = value;
    }

    /// Queues an IPv4 frame for transmission, behind those already queued.
    pub fn send_ip_packet(&mut self, packet: Vec<u8>)
        ensures
            final(self).ip_tx_queue@ == old(self).ip_tx_queue@.push(packet),
            *final(self) == (Network { ip_tx_queue: final(self).ip_tx_queue, ..*old(self) }),
    {
        self.ip_tx_queue.push_back(packet);
    }

    /// A copy of the ARP table.
    pub fn arp_table_cloned(&self) -> (r: BTreeMap<u32, ArpEntry>)
        ensures
            r@ == self.arp_table@,
    {
        self.arp_table.clone()
    }

    /// Records that `eth_addr` answers for `ip_addr` on the interface
    /// `iface`, in place of what was known of `ip_addr` before.
    pub fn arp_table_register(&mut self, ip_addr: IpV4Addr, eth_addr: EthernetAddr, iface: usize)
        ensures
            final(self).arp_table@ == old(self).arp_table@.insert(
                ip_addr.spec_to_u32(),
                ArpEntry { eth_addr, iface },
            ),
            *final(self) == (Network { arp_table: final(self).arp_table, ..*old(self) }),
    {
        broadcast use vstd::laws_cmp::group_laws_cmp;

        self.arp_table.insert(ip_addr.to_u32(), ArpEntry { eth_addr, iface });
    }

    /// What the ARP table knows of `ip`.
    pub open spec fn spec_arp_lookup(&self, ip: IpV4Addr) -> Option<ArpEntry> {
        self@.arp_lookup(ip)
    }

    /// Looks `ip` up in the ARP table.
    pub fn arp_lookup(&self, ip: IpV4Addr) -> (r: Option<ArpEntry>)
        ensures
            r == self.spec_arp_lookup(ip),
    {
        broadcast use vstd::laws_cmp::group_laws_cmp;
        broadcast use vstd::std_specs::btree::group_btree_axioms;

        let key = ip.to_u32();
        match self.arp_table.get(&key) {
            Some(e) => Some(*e),
            None => None,
        }
    }

    /// The station to which a frame for `dst` is handed: `dst` itself where
    /// it lies in this host's subnet, else the router, as far as the ARP
    /// table knows it. Without an address and a subnet mask of this host
    /// there is none.
    pub open spec fn spec_next_hop(&self, dst: IpV4Addr) -> Option<ArpEntry> {
        self@.next_hop(dst)
    }

    /// Finds the station to which a frame for `dst` is handed.
    pub fn next_hop(&self, dst: IpV4Addr) -> (r: Option<ArpEntry>)
        ensures
            r == self.spec_next_hop(dst),
    {
        match (self.self_ip, self.netmask) {
            (Some(src), Some(mask)) => {
                if src.network_prefix(mask) == dst.network_prefix(mask) {
                    self.arp_lookup(dst)
                } else {
                    match self.router {
                        Some(router) => self.arp_lookup(router),
                        None => None,
                    }
                }
            },
            _ => None,
        }
    }

    /// Whether the frame `frame` can be sent: it holds an IPv4 header and
    /// a next hop is known for its destination.
    pub open spec fn spec_tx_route(&self, frame: Seq<u8>) -> Option<ArpEntry> {
        self@.tx_route(frame)
    }

    /// Takes the oldest frame off the transmit queue and finds its next
    /// hop. A frame that cannot be sent is dropped.
    ///
    /// Returns the frame with its next hop, or `None` where the queue was
    /// empty or the frame was dropped.
    pub fn next_tx(&mut self) -> (r: Option<(ArpEntry, Vec<u8>)>)
        ensures
            *final(self) == (Network { ip_tx_queue: final(self).ip_tx_queue, ..*old(self) }),
            old(self).ip_tx_queue@.len() == 0 ==> r is None && final(self).ip_tx_queue@ == old(
                self,
            ).ip_tx_queue@,
            old(self).ip_tx_queue@.len() > 0 ==> {
                &&& final(self).ip_tx_queue@ == old(self).ip_tx_queue@.subrange(
                    1,
                    old(self).ip_tx_queue@.len() as int,
                )
                &&& match old(self).spec_tx_route(old(self).ip_tx_queue@[0]@) {
                    Some(e) => r == Some((e, old(self).ip_tx_queue@[0])),
                    None => r is None,
                }
            },
    {
        match self.ip_tx_queue.pop_front() {
            None => None,
            Some(frame) => {
                match IpV4Packet::from_slice(frame.as_slice()) {
                    Err(_) => None,
                    Ok(ip) => {
                        match self.next_hop(ip.dst()) {
                            Some(e) => Some((e, frame)),
                            None => None,
                        }
                    },
                }
            },
        }
    }

    /// Reports whether the interfaces are to be probed, and notes that they
    /// have been.
    pub fn take_probe(&mut self) -> (r: bool)
        ensures
            r == old(self).interface_has_added,
            *final(self) == (Network { interface_has_added: false, ..*old(self) }),
    {
        let r = self.interface_has_added;
        self.interface_has_added = false;
        r
    }
}

/// Whether the frame carries a DHCP message from server to client.
pub open spec fn is_dhcp_reply(frame: Seq<u8>) -> bool {
    is_dhcp_frame(frame) && spec_is_boot_reply(frame)
}

/// The state after the DHCP message in `frame` was handled: a reply gives
/// this host its address and what its options say; any other frame changes
/// nothing.
pub open spec fn spec_after_dhcp(net: NetworkView, frame: Seq<u8>) -> NetworkView {
    if is_dhcp_reply(frame) {
        net.with_lease(spec_yiaddr(frame), spec_parse_options(spec_options(frame)))
    } else {
        net
    }
}

/// The error with which handling the DHCP message in `frame` ends, if any:
/// the frame is too short for a DHCP message, or an option of a reply
/// claims more data than the frame holds.
pub open spec fn spec_dhcp_error(frame: Seq<u8>) -> Option<Seq<char>> {
    if !is_dhcp_frame(frame) {
        Some(too_short_message())
    } else if spec_is_boot_reply(frame) && !spec_parse_options(spec_options(frame)).complete {
        Some(invalid_len_message())
    } else {
        None
    }
}

/// Whether a result is the given outcome: success for `None`, and for
/// `Some` a failure with that fixed message.
pub open spec fn is_outcome(r: Result<(), Error>, error: Option<Seq<char>>) -> bool {
    match r {
        Ok(_) => error is None,
        Err(e) => e matches Error::Failed(m) && error == Some(m@),
    }
}

/// Handles a DHCP message sent to the client port.
pub fn handle_rx_dhcp_client(network: &mut Network, packet: &[u8]) -> (r: Result<(), Error>)
    ensures
        final(network)@ == spec_after_dhcp(old(network)@, packet@),
        is_outcome(r, spec_dhcp_error(packet@)),
{
    let dhcp = match DhcpPacket::from_slice(packet) {
        Ok(d) => d,
        Err(e) => {
            return Err(e);
        },
    };
    if !dhcp.is_boot_reply() {
        return Ok(());
    }
    network.set_self_ip(Some(dhcp.yiaddr()));
    let opts = frame_options(packet);
    if let Some(netmask) = opts.netmask {
        network.set_netmask(Some(netmask));
    }
    if let Some(router) = opts.router {
        network.set_router(Some(router));
    }
    if let Some(dns) = opts.dns {
        network.set_dns(Some(dns));
    }
    if opts.complete {
        Ok(())
    } else {
        Err(Error::Failed("Invalid op data len"))
    }
}

/// Whether the frame is a UDP datagram from the DHCP server port to the
/// DHCP client port.
pub open spec fn is_dhcp_port_pair(frame: Seq<u8>) -> bool {
    UdpPacket::spec_parse(frame).src_port == UDP_PORT_DHCP_SERVER && UdpPacket::spec_parse(
        frame,
    ).dst_port == UDP_PORT_DHCP_CLIENT
}

/// The state after the UDP datagram in `frame` was handled.
pub open spec fn spec_after_udp(net: NetworkView, frame: Seq<u8>) -> NetworkView {
    if frame.len() >= crate::net::udp::UDP_PACKET_LEN && is_dhcp_port_pair(frame) {
        spec_after_dhcp(net, frame)
    } else {
        net
    }
}

/// The error with which handling the UDP datagram in `frame` ends, if any.
pub open spec fn spec_udp_error(frame: Seq<u8>) -> Option<Seq<char>> {
    if frame.len() < crate::net::udp::UDP_PACKET_LEN {
        Some(too_short_message())
    } else if is_dhcp_port_pair(frame) {
        spec_dhcp_error(frame)
    } else {
        None
    }
}

/// Handles a UDP datagram: one from the DHCP server port to the DHCP client
/// port goes to the DHCP client, any other is passed over.
pub fn handle_rx_udp(network: &mut Network, packet: &[u8]) -> (r: Result<(), Error>)
    ensures
        final(network)@ == spec_after_udp(old(network)@, packet@),
        is_outcome(r, spec_udp_error(packet@)),
{
    let udp = match UdpPacket::from_slice(packet) {
        Ok(u) => u,
        Err(e) => {
            return Err(e);
        },
    };
    if udp.src_port() == UDP_PORT_DHCP_SERVER && udp.dst_port() == UDP_PORT_DHCP_CLIENT {
        handle_rx_dhcp_client(network, packet)
    } else {
        Ok(())
    }
}

/// Reads the header of a TCP segment; the stack does nothing else with it.
pub fn handle_rx_tcp(packet: &[u8]) -> (r: Result<TcpPacket, Error>)
    ensures
        packet@.len() >= crate::net::tcp::TCP_PACKET_LEN <==> r is Ok,
        r matches Ok(p) ==> p == TcpPacket::spec_parse(packet@),
        r matches Err(e) ==> (e matches Error::Failed(m) && m@ == too_short_message()),
{
    TcpPacket::from_slice(packet)
}

/// Reads the header of an ICMP message; the stack does nothing else with
/// it.
pub fn handle_rx_icmp(packet: &[u8]) -> (r: Result<IcmpPacket, Error>)
    ensures
        packet@.len() >= crate::net::icmp::ICMP_PACKET_LEN <==> r is Ok,
        r matches Ok(p) ==> p == IcmpPacket::spec_parse(packet@),
        r matches Err(e) ==> (e matches Error::Failed(m) && m@ == too_short_message()),
{
    IcmpPacket::from_slice(packet)
}

/// The state after the ARP message in `frame`, received on `iface`, was
/// handled: a response records its sender.
pub open spec fn spec_after_arp(net: NetworkView, frame: Seq<u8>, iface: usize) -> NetworkView {
    if frame.len() >= crate::net::arp::ARP_PACKET_LEN && ArpPacket::spec_parse(frame).op
        == crate::net::arp::ARP_OP_RESPONSE {
        net.with_arp(
            ArpPacket::spec_parse(frame).sender_ip,
            ArpPacket::spec_parse(frame).sender_eth,
            iface,
        )
    } else {
        net
    }
}

/// The error with which handling the ARP message in `frame` ends, if any.
pub open spec fn spec_arp_error(frame: Seq<u8>) -> Option<Seq<char>> {
    if frame.len() < crate::net::arp::ARP_PACKET_LEN {
        Some(invalid_arp_message())
    } else {
        None
    }
}

/// Handles an ARP message received on `iface`.
pub fn handle_rx_arp(network: &mut Network, packet: &[u8], iface: usize) -> (r: Result<(), Error>)
    ensures
        final(network)@ == spec_after_arp(old(network)@, packet@, iface),
        is_outcome(r, spec_arp_error(packet@)),
{
    match ArpPacket::from_slice(packet) {
        Ok(arp) => {
            if arp.is_response() {
                network.arp_table_register(arp.sender_ip_addr(), arp.sender_eth_addr(), iface);
            }
            Ok(())
        },
        Err(_) => Err(Error::Failed("handle_rx_arp: Not a valid ARP Packet")),
    }
}

/// The state after `frame`, received on `iface`, was handled.
pub open spec fn spec_after_receive(net: NetworkView, frame: Seq<u8>, iface: usize)
    -> NetworkView {
    if frame.len() < ETHERNET_HEADER_LEN {
        net
    } else if crate::net::eth::spec_eth_type(frame) == ETHERNET_TYPE_IP_V4 {
        if frame.len() >= IP_V4_PACKET_LEN && crate::net::ip::spec_protocol(frame)
            == IP_V4_PROTOCOL_UDP {
            spec_after_udp(net, frame)
        } else {
            net
        }
    } else if crate::net::eth::spec_eth_type(frame) == ETHERNET_TYPE_ARP {
        spec_after_arp(net, frame, iface)
    } else {
        net
    }
}

/// The error with which handling `frame` ends, if any. A frame with an
/// EtherType or an IPv4 protocol that the stack does not know is passed
/// over without error.
pub open spec fn spec_receive_error(frame: Seq<u8>) -> Option<Seq<char>> {
    if frame.len() < ETHERNET_HEADER_LEN {
        Some(too_short_message())
    } else if crate::net::eth::spec_eth_type(frame) == ETHERNET_TYPE_IP_V4 {
        if frame.len() < IP_V4_PACKET_LEN {
            Some(too_short_message())
        } else if crate::net::ip::spec_protocol(frame) == IP_V4_PROTOCOL_UDP {
            spec_udp_error(frame)
        } else if crate::net::ip::spec_protocol(frame) == IP_V4_PROTOCOL_TCP {
            if frame.len() < crate::net::tcp::TCP_PACKET_LEN {
                Some(too_short_message())
            } else {
                None
            }
        } else if crate::net::ip::spec_protocol(frame) == IP_V4_PROTOCOL_ICMP {
            if frame.len() < crate::net::icmp::ICMP_PACKET_LEN {
                Some(too_short_message())
            } else {
                None
            }
        } else {
            None
        }
    } else if crate::net::eth::spec_eth_type(frame) == ETHERNET_TYPE_ARP {
        spec_arp_error(frame)
    } else {
        None
    }
}

/// Handles one frame received on `iface`, by its EtherType and, for IPv4,
/// by its protocol.
pub fn handle_receive(network: &mut Network, packet: &[u8], iface: usize) -> (r: Result<
    (),
    Error,
>)
    ensures
        final(network)@ == spec_after_receive(old(network)@, packet@, iface),
        is_outcome(r, spec_receive_error(packet@)),
{
    let eth = match EthernetHeader::from_slice(packet) {
        Ok(h) => h,
        Err(e) => {
            return Err(e);
        },
    };
    let eth_type = eth.eth_type();
    if eth_type == ETHERNET_TYPE_IP_V4 {
        let ip = match IpV4Packet::from_slice(packet) {
            Ok(p) => p,
            Err(e) => {
                return Err(e);
            },
        };
        let protocol = ip.protocol();
        if protocol == IP_V4_PROTOCOL_UDP {
            handle_rx_udp(network, packet)
        } else if protocol == IP_V4_PROTOCOL_TCP {
            match handle_rx_tcp(packet) {
                Ok(_) => Ok(()),
                Err(e) => Err(e),
            }
        } else if protocol == IP_V4_PROTOCOL_ICMP {
            match handle_rx_icmp(packet) {
                Ok(_) => Ok(()),
                Err(e) => Err(e),
            }
        } else {
            Ok(())
        }
    } else if eth_type == ETHERNET_TYPE_ARP {
        handle_rx_arp(network, packet, iface)
    } else {
        Ok(())
    }
}

/// Builds the two frames with which an interface with hardware address
/// `mac` is probed: an ARP request for the gateway and a DHCP Discover.
pub fn probe_frames(mac: EthernetAddr) -> (r: (Vec<u8>, Vec<u8>))
    ensures
        r.0@ == crate::net::arp::spec_arp_request(mac, probe_sender_ip(), probe_target_ip()),
        r.1@ == crate::net::dhcp::spec_dhcp_discover(mac),
{
    let sender = IpV4Addr { b0: 10, b1: 0, b2: 2, b3: 15 };
    let target = IpV4Addr { b0: 10, b1: 0, b2: 2, b3: 2 };
    (ArpPacket::request(mac, sender, target), crate::net::dhcp::request(mac))
}

/// Probes the interfaces if one was registered since the last probe: each
/// registered interface that `drivers` still holds is handed an ARP request
/// and a DHCP Discover, the frames of `probe_frames`. The first interface
/// that refuses a frame ends the probe with its error; an interface that
/// `drivers` no longer holds is passed over.
///
/// The probe succeeds wherever it hands nothing to an interface: no
/// interface was added, or none of those registered is still held. The
/// driver of the interface registered as `i` is `drivers[i]`.
pub fn probe_interfaces<T: NetworkInterface>(network: &mut Network, drivers: &Vec<T>) -> (r:
    Result<(), Error>)
    ensures
        final(network)@ == (NetworkView { interface_has_added: false, ..old(network)@ }),
        !old(network)@.probe_sends(drivers@.len()) ==> r is Ok,
{
    if !network.take_probe() {
        return Ok(());
    }
    let n: usize = network.interfaces.len();
    let mut i: usize = 0;
    while i < n
        invariant
            i <= n,
            n == network.interfaces@.len(),
            network@ == (NetworkView { interface_has_added: false, ..old(network)@ }),
            old(network).interface_has_added,
        decreases n - i,
    {
        let id: usize = network.interfaces[i];
        if id < drivers.len() {
            let (arp_req, dhcp_req) = probe_frames(drivers[id].ethernet_addr());
            match drivers[id].push_packet(arp_req) {
                Ok(_) => {},
                Err(e) => {
                    return Err(e);
                },
            }
            match drivers[id].push_packet(dhcp_req) {
                Ok(_) => {},
                Err(e) => {
                    return Err(e);
                },
            }
        }
        i = i + 1;
    }
    Ok(())
}

/// The transmit queue without its oldest frame.
pub open spec fn spec_tx_rest(queue: Seq<Seq<u8>>) -> Seq<Seq<u8>> {
    if queue.len() == 0 {
        queue
    } else {
        queue.subrange(1, queue.len() as int)
    }
}

/// Takes the oldest frame off the transmit queue and, where it can be
/// routed and the interface of its next hop is still held by `drivers`,
/// hands it to that interface, made ready by `route_frame`. A frame that
/// cannot be sent is dropped, and so is one whose interface is gone.
///
/// The step fails only where the interface refuses the frame: it succeeds
/// wherever it hands nothing to an interface, that is where the queue is
/// empty, where the frame has no route, and where the interface of its next
/// hop is no longer held.
pub fn process_tx<T: NetworkInterface>(network: &mut Network, drivers: &Vec<T>) -> (r: Result<
    (),
    Error,
>)
    ensures
        final(network)@ == (NetworkView {
            ip_tx_queue: spec_tx_rest(old(network)@.ip_tx_queue),
            ..old(network)@
        }),
        old(network)@.tx_interface(drivers@.len()) is None ==> r is Ok,
        old(network)@.ip_tx_queue.len() == 0 ==> r is Ok,
        old(network)@.ip_tx_queue.len() > 0 && old(network).spec_tx_route(
            old(network).ip_tx_queue@[0]@,
        ) is None ==> r is Ok,
        old(network)@.ip_tx_queue.len() > 0 && (old(network).spec_tx_route(
            old(network).ip_tx_queue@[0]@,
        ) matches Some(e) && e.iface >= drivers@.len()) ==> r is Ok,
{
    let ghost before = network@;
    let job = network.next_tx();
    proof {
        let q = old(network).ip_tx_queue@;
        let q2 = network.ip_tx_queue@;
        if q.len() > 0 {
            assert(q2.map_values(|f: Vec<u8>| f@) =~= spec_tx_rest(before.ip_tx_queue));
            assert(before.ip_tx_queue[0] == q[0]@);
        } else {
            assert(q2.map_values(|f: Vec<u8>| f@) =~= before.ip_tx_queue);
        }
    }
    match job {
        None => Ok(()),
        Some((hop, frame)) => {
            match network.self_ip {
                None => Ok(()),
                Some(src_ip) => {
                    if hop.iface < drivers.len() {
                        let mac = drivers[hop.iface].ethernet_addr();
                        let out = route_frame(&frame, src_ip, hop.eth_addr, mac);
                        drivers[hop.iface].push_packet(out)
                    } else {
                        Ok(())
                    }
                },
            }
        },
    }
}

/// Takes at most one frame from each registered interface that `drivers`
/// still holds, in the order of registration, and handles it as
/// `handle_popped` does. The first frame whose handling fails ends the
/// round with its error; the interfaces behind it are not asked.
///
/// The state afterwards and the error are those of `spec_rx_round` for the
/// frames that the interfaces handed over. Where no registered interface is
/// held by `drivers`, nothing changes and the round succeeds. Neither the
/// interfaces nor the transmit queue change.
pub fn process_rx<T: NetworkInterface>(network: &mut Network, drivers: &Vec<T>) -> (r: Result<
    (),
    Error,
>)
    ensures
        exists|frames: Seq<Option<Seq<u8>>>| #[trigger]
            rx_explains(old(network)@, final(network)@, r, drivers@.len(), frames),
        final(network)@.interfaces == old(network)@.interfaces,
        final(network)@.interface_has_added == old(network)@.interface_has_added,
        final(network)@.ip_tx_queue == old(network)@.ip_tx_queue,
        none_held(old(network)@.interfaces, drivers@.len()) ==> r is Ok && final(network)@ == old(
            network,
        )@,
{
    let n: usize = network.interfaces.len();
    let ghost mut frames: Seq<Option<Seq<u8>>> = Seq::empty();
    let mut i: usize = 0;
    while i < n
        invariant
            i <= n,
            n == network.interfaces@.len(),
            network@.interfaces == old(network)@.interfaces,
            network@.interface_has_added == old(network)@.interface_has_added,
            network@.ip_tx_queue == old(network)@.ip_tx_queue,
            frames.len() == i,
            frames_fit(frames, old(network)@.interfaces, drivers@.len()),
            spec_rx_round(old(network)@, frames, i as int) == (network@, None::<Seq<char>>),
            none_held(old(network)@.interfaces, drivers@.len()) ==> network@ == old(network)@,
        decreases n - i,
    {
        let id: usize = network.interfaces[i];
        let ghost before = frames;
        let ghost net_before = network@;
        if id < drivers.len() {
            let popped = drivers[id].pop_packet();
            proof {
                frames = before.push(popped_frame(popped));
                lemma_rx_round_prefix(old(network)@, before, frames, i as int);
                assert(frames[i as int] == popped_frame(popped));
            }
            match handle_popped(network, popped, id) {
                Ok(_) => {},
                Err(e) => {
                    proof {
                        lemma_rx_round_done(old(network)@, frames, i + 1, n as int);
                        assert(rx_explains(
                            old(network)@,
                            network@,
                            Err::<(), Error>(e),
                            drivers@.len(),
                            frames,
                        ));
                    }
                    return Err(e);
                },
            }
        } else {
            proof {
                frames = before.push(None);
                lemma_rx_round_prefix(old(network)@, before, frames, i as int);
                assert(frames[i as int] is None);
            }
        }
        i = i + 1;
    }
    proof {
        assert(rx_explains(old(network)@, network@, Ok::<(), Error>(()), drivers@.len(), frames));
    }
    Ok(())
}

/// What an interface handed over: its frame, or nothing where it had none.
pub open spec fn popped_frame(popped: Result<Vec<u8>, Error>) -> Option<Seq<u8>> {
    match popped {
        Ok(packet) => Some(packet@),
        Err(_) => None,
    }
}

/// Handles what the interface `iface` handed over when it was asked for a
/// frame: a frame is handled as `handle_receive` does; an interface that
/// has none changes nothing, and that is no error.
pub fn handle_popped(network: &mut Network, popped: Result<Vec<u8>, Error>, iface: usize) -> (r:
    Result<(), Error>)
    ensures
        final(network)@ == spec_rx_one(old(network)@, popped_frame(popped), iface),
        is_outcome(r, spec_rx_one_error(popped_frame(popped))),
{
    match popped {
        Ok(packet) => handle_receive(network, packet.as_slice(), iface),
        Err(_) => Ok(()),
    }
}

/// The state after what the interface `iface` handed over was handled.
pub open spec fn spec_rx_one(net: NetworkView, frame: Option<Seq<u8>>, iface: usize)
    -> NetworkView {
    match frame {
        Some(f) => spec_after_receive(net, f, iface),
        None => net,
    }
}

/// The error with which handling what an interface handed over ends, if
/// any.
pub open spec fn spec_rx_one_error(frame: Option<Seq<u8>>) -> Option<Seq<char>> {
    match frame {
        Some(f) => spec_receive_error(f),
        None => None,
    }
}

/// What the interface registered at place `k` handed over, where `frames`
/// holds what each interface handed over, by its place; nothing for an
/// interface that was not asked.
pub open spec fn frame_at(frames: Seq<Option<Seq<u8>>>, k: int) -> Option<Seq<u8>> {
    if 0 <= k < frames.len() {
        frames[k]
    } else {
        None
    }
}

/// The state after the first `n` registered interfaces had their turn, and
/// the error that ended the round, if one did: each interface in turn has
/// what it handed over handled, until the handling of a frame fails.
pub open spec fn spec_rx_round(net: NetworkView, frames: Seq<Option<Seq<u8>>>, n: int) -> (
    NetworkView,
    Option<Seq<char>>,
)
    decreases n,
{
    if n <= 0 {
        (net, None)
    } else {
        let before = spec_rx_round(net, frames, n - 1);
        if before.1 is Some {
            before
        } else {
            (
                spec_rx_one(before.0, frame_at(frames, n - 1), before.0.interfaces[n - 1]),
                spec_rx_one_error(frame_at(frames, n - 1)),
            )
        }
    }
}

/// Whether `frames` can be what the interfaces handed over: an interface
/// that is not among the `held` that are still there hands nothing over.
pub open spec fn frames_fit(frames: Seq<Option<Seq<u8>>>, interfaces: Seq<usize>, held: nat)
    -> bool {
    forall|k: int|
        0 <= k < frames.len() && k < interfaces.len() && interfaces[k] >= held ==> (
        #[trigger] frames[k]) is None
}

/// Whether none of the registered interfaces is among the `held` that are
/// still there.
pub open spec fn none_held(interfaces: Seq<usize>, held: nat) -> bool {
    forall|k: int| 0 <= k < interfaces.len() ==> #[trigger] interfaces[k] >= held
}

/// Whether a round of receiving that led from `before` to `after` with the
/// result `r` is the round in which the interfaces handed over `frames`.
pub open spec fn rx_explains(
    before: NetworkView,
    after: NetworkView,
    r: Result<(), Error>,
    held: nat,
    frames: Seq<Option<Seq<u8>>>,
) -> bool {
    &&& frames.len() <= before.interfaces.len()
    &&& frames_fit(frames, before.interfaces, held)
    &&& after == spec_rx_round(before, frames, before.interfaces.len() as int).0
    &&& is_outcome(r, spec_rx_round(before, frames, before.interfaces.len() as int).1)
}

/// The first `n` turns of a round depend on what the first `n` interfaces
/// handed over, and on nothing else.
pub proof fn lemma_rx_round_prefix(
    net: NetworkView,
    a: Seq<Option<Seq<u8>>>,
    b: Seq<Option<Seq<u8>>>,
    n: int,
)
    requires
        n <= a.len(),
        n <= b.len(),
        forall|k: int| 0 <= k < n ==> a[k] == b[k],
    ensures
        spec_rx_round(net, a, n) == spec_rx_round(net, b, n),
    decreases n,
{
    if n > 0 {
        lemma_rx_round_prefix(net, a, b, n - 1);
    }
}

/// Once a round has ended with an error, or every interface that was asked
/// has had its turn, the turns that follow change nothing.
pub proof fn lemma_rx_round_done(net: NetworkView, frames: Seq<Option<Seq<u8>>>, k: int, n: int)
    requires
        0 <= k <= n,
        frames.len() <= k,
    ensures
        spec_rx_round(net, frames, n) == spec_rx_round(net, frames, k),
    decreases n - k,
{
    if k < n {
        lemma_rx_round_done(net, frames, k, n - 1);
    }
}

/// One round of the network manager: the interfaces are probed where one
/// was added, as `probe_interfaces` does; the oldest frame is taken off the
/// transmit queue and sent, as `process_tx` does; and one frame is taken
/// from each interface and handled, as `process_rx` does. The first step
/// that fails ends the round with its error.
///
/// The interfaces stay and count as probed. The oldest frame has left the
/// transmit queue, unless the probe failed. Where neither the probe nor
/// the transmit step hands anything to an interface, the round is the
/// receive round on the state that these two steps leave; and where no
/// registered interface is held either, the round succeeds and leaves that
/// state.
pub fn network_manager_round<T: NetworkInterface>(network: &mut Network, drivers: &Vec<T>) -> (r:
    Result<(), Error>)
    ensures
        final(network)@.interfaces == old(network)@.interfaces,
        !final(network)@.interface_has_added,
        final(network)@.ip_tx_queue == old(network)@.ip_tx_queue || final(network)@.ip_tx_queue
            == spec_tx_rest(old(network)@.ip_tx_queue),
        !old(network)@.probe_sends(drivers@.len()) ==> final(network)@.ip_tx_queue
            == spec_tx_rest(old(network)@.ip_tx_queue),
        !old(network).interface_has_added ==> final(network)@.ip_tx_queue == spec_tx_rest(
            old(network)@.ip_tx_queue,
        ),
        r is Ok ==> final(network)@.ip_tx_queue == spec_tx_rest(old(network)@.ip_tx_queue),
        (r is Ok || (!old(network)@.probe_sends(drivers@.len()) && old(network)@.tx_interface(
            drivers@.len(),
        ) is None)) ==> exists|frames: Seq<Option<Seq<u8>>>| #[trigger]
            rx_explains(old(network)@.before_rx(), final(network)@, r, drivers@.len(), frames),
        none_held(old(network)@.interfaces, drivers@.len()) && old(network)@.tx_interface(
            drivers@.len(),
        ) is None ==> r is Ok && final(network)@ == old(network)@.before_rx(),
        drivers@.len() == 0 ==> r is Ok && final(network)@ == old(network)@.before_rx(),
{
    match probe_interfaces(network, drivers) {
        Ok(_) => {},
        Err(e) => {
            return Err(e);
        },
    }
    match process_tx(network, drivers) {
        Ok(_) => {},
        Err(e) => {
            return Err(e);
        },
    }
    assert(network@ == old(network)@.before_rx());
    process_rx(network, drivers)
}

} // verus!
