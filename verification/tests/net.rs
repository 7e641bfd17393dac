use kernel_core::error::Error;
use kernel_core::net::checksum::InternetChecksum;
use kernel_core::net::dhcp::parse_dhcp_options;
use kernel_core::net::eth::EthernetAddr;
use kernel_core::net::ip::IpV4Addr;
use kernel_core::net::manager::{
    handle_popped, handle_receive, handle_rx_dhcp_client, handle_rx_tcp, network_manager_round,
    process_rx, process_tx, probe_interfaces, route_frame, Network, NetworkInterface,
};
use std::cell::RefCell;

fn dhcp_frame(op: u8, yiaddr: [u8; 4], options: &[u8]) -> Vec<u8> {
    let mut f = vec![0u8; 282];
    f[12] = 0x08;
    f[13] = 0x00;
    f[23] = 17;
    f[35] = 67;
    f[37] = 68;
    f[42] = op;
    f[58..62].copy_from_slice(&yiaddr);
    f[278..282].copy_from_slice(&[0x63, 0x82, 0x53, 0x63]);
    f.extend_from_slice(options);
    f
}

fn offer() -> Vec<u8> {
    dhcp_frame(
        2,
        [10, 0, 2, 15],
        &[53, 1, 2, 1, 4, 255, 255, 255, 0, 3, 4, 10, 0, 2, 2, 6, 4, 10, 0, 2, 3, 255],
    )
}

#[test]
fn dhcp_offer_sets_lease() {
    let mut net = Network::new();
    assert!(handle_rx_dhcp_client(&mut net, &offer()).is_ok());
    assert_eq!(net.netmask(), Some(IpV4Addr::new([255, 255, 255, 0])));
    assert_eq!(net.router(), Some(IpV4Addr::new([10, 0, 2, 2])));
    assert_eq!(net.dns(), Some(IpV4Addr::new([10, 0, 2, 3])));
    assert_eq!(net.self_ip(), Some(IpV4Addr::new([10, 0, 2, 15])));
}

#[test]
fn dhcp_offer_through_handle_receive() {
    let mut net = Network::new();
    assert!(handle_receive(&mut net, &offer(), 0).is_ok());
    assert_eq!(net.self_ip(), Some(IpV4Addr::new([10, 0, 2, 15])));
    assert_eq!(net.router(), Some(IpV4Addr::new([10, 0, 2, 2])));
}

#[test]
fn dhcp_request_is_ignored() {
    let mut net = Network::new();
    let f = dhcp_frame(1, [10, 0, 2, 15], &[1, 4, 255, 255, 255, 0, 255]);
    assert!(handle_rx_dhcp_client(&mut net, &f).is_ok());
    assert_eq!(net.self_ip(), None);
    assert_eq!(net.netmask(), None);
}

#[test]
fn dhcp_short_frame_is_rejected() {
    let mut net = Network::new();
    match handle_rx_dhcp_client(&mut net, &[0u8; 281]) {
        Err(Error::Failed(m)) => assert_eq!(m, "data is too short"),
        _ => panic!("expected an error"),
    }
}

#[test]
fn dhcp_truncated_option_is_an_error_after_partial_update() {
    let mut net = Network::new();
    let f = dhcp_frame(2, [10, 0, 2, 15], &[1, 4, 255, 255, 255, 0, 3, 4, 10, 0]);
    match handle_rx_dhcp_client(&mut net, &f) {
        Err(Error::Failed(m)) => assert_eq!(m, "Invalid op data len"),
        _ => panic!("expected an error"),
    }
    assert_eq!(net.self_ip(), Some(IpV4Addr::new([10, 0, 2, 15])));
    assert_eq!(net.netmask(), Some(IpV4Addr::new([255, 255, 255, 0])));
    assert_eq!(net.router(), None);
}

#[test]
fn dhcp_options_padding_end_and_zero_length() {
    let o = parse_dhcp_options(&[0, 0, 53, 1, 5, 0, 255, 1, 4, 1, 2, 3, 4]);
    assert_eq!(o.message_type, Some(5));
    assert_eq!(o.netmask, None);
    assert!(o.complete);
    let o = parse_dhcp_options(&[6, 0, 1, 4, 1, 2, 3, 4]);
    assert_eq!(o.netmask, None);
    assert!(o.complete);
    let o = parse_dhcp_options(&[1, 6, 9, 8, 7, 6, 5, 4, 99]);
    assert_eq!(o.netmask, Some(IpV4Addr::new([9, 8, 7, 6])));
    assert!(o.complete);
    let o = parse_dhcp_options(&[53]);
    assert!(o.complete);
    assert_eq!(o.message_type, None);
}

#[test]
fn checksum_of_known_header() {
    let header = [
        0x45, 0x00, 0x00, 0x73, 0x00, 0x00, 0x40, 0x00, 0x40, 0x11, 0x00, 0x00, 0xc0, 0xa8,
        0x00, 0x01, 0xc0, 0xa8, 0x00, 0xc7,
    ];
    assert_eq!(InternetChecksum::calc(&header).value, 0xb861);
    assert_eq!(InternetChecksum::calc(&header).bytes(), [0xb8, 0x61]);
    assert_eq!(InternetChecksum::calc(&[]).value, 0xffff);
    assert_eq!(InternetChecksum::calc(&[0x12]).value, 0xedff);
    assert_eq!(InternetChecksum::calc(&[0xff, 0xff, 0x00, 0x01]).value, 0xfffe);
}

#[test]
fn network_prefix_masks_bytes() {
    let a = IpV4Addr::new([10, 0, 2, 15]);
    assert_eq!(a.network_prefix(IpV4Addr::new([255, 255, 255, 0])), IpV4Addr::new([10, 0, 2, 0]));
    assert_eq!(a.to_u32(), 0x0a00020f);
    assert_eq!(a.bytes(), [10, 0, 2, 15]);
    assert!(IpV4Addr::from_slice(&[1, 2, 3]).is_err());
    assert_eq!(IpV4Addr::from_slice(&[1, 2, 3, 4, 5]).ok(), Some(IpV4Addr::new([1, 2, 3, 4])));
}

struct Nic {
    mac: EthernetAddr,
    sent: RefCell<Vec<Vec<u8>>>,
    inbox: RefCell<Vec<Vec<u8>>>,
}

impl Nic {
    fn new(mac: [u8; 6]) -> Nic {
        Nic { mac: EthernetAddr::new(mac), sent: RefCell::new(Vec::new()), inbox: RefCell::new(Vec::new()) }
    }
}

impl NetworkInterface for Nic {
    fn name(&self) -> &str {
        "nic"
    }
    fn ethernet_addr(&self) -> EthernetAddr {
        self.mac
    }
    fn push_packet(&self, packet: Vec<u8>) -> Result<(), Error> {
        self.sent.borrow_mut().push(packet);
        Ok(())
    }
    fn pop_packet(&self) -> Result<Vec<u8>, Error> {
        self.inbox.borrow_mut().pop().ok_or(Error::Failed("empty"))
    }
}

fn arp_reply(sender_mac: [u8; 6], sender_ip: [u8; 4]) -> Vec<u8> {
    let mut f = vec![0u8; 42];
    f[12] = 0x08;
    f[13] = 0x06;
    f[21] = 2;
    f[22..28].copy_from_slice(&sender_mac);
    f[28..32].copy_from_slice(&sender_ip);
    f
}

#[test]
fn probe_sends_arp_request_and_discover_once() {
    let mut net = Network::new();
    let nics = vec![Nic::new([2, 0, 0, 0, 0, 1])];
    net.register_interface(0);
    assert!(probe_interfaces(&mut net, &nics).is_ok());
    {
        let sent = nics[0].sent.borrow();
        assert_eq!(sent.len(), 2);
        let arp = &sent[0];
        assert_eq!(arp.len(), 42);
        assert_eq!(&arp[0..6], &[255u8; 6]);
        assert_eq!(&arp[6..12], &[2, 0, 0, 0, 0, 1]);
        assert_eq!(&arp[12..14], &[0x08, 0x06]);
        assert_eq!(&arp[14..22], &[0, 1, 8, 0, 6, 4, 0, 1]);
        assert_eq!(&arp[28..32], &[10, 0, 2, 15]);
        assert_eq!(&arp[38..42], &[10, 0, 2, 2]);
        let dhcp = &sent[1];
        assert_eq!(dhcp.len(), 286);
        assert_eq!(&dhcp[12..14], &[0x08, 0x00]);
        assert_eq!(dhcp[23], 17);
        assert_eq!(InternetChecksum::calc(&dhcp[14..34]).value, 0);
        assert_eq!(&dhcp[34..38], &[0, 68, 0, 67]);
        assert_eq!(dhcp[42], 1);
        assert_eq!(&dhcp[70..76], &[2, 0, 0, 0, 0, 1]);
        assert_eq!(&dhcp[278..286], &[0x63, 0x82, 0x53, 0x63, 53, 1, 1, 255]);
    }
    assert!(probe_interfaces(&mut net, &nics).is_ok());
    assert_eq!(nics[0].sent.borrow().len(), 2);
}

#[test]
fn arp_response_is_recorded_and_request_is_not() {
    let mut net = Network::new();
    assert!(handle_receive(&mut net, &arp_reply([2, 0, 0, 0, 0, 9], [10, 0, 2, 2]), 3).is_ok());
    let table = net.arp_table_cloned();
    assert_eq!(table.len(), 1);
    let e = table.get(&0x0a000202).unwrap();
    assert_eq!(e.eth_addr, EthernetAddr::new([2, 0, 0, 0, 0, 9]));
    assert_eq!(e.iface, 3);
    let mut req = arp_reply([2, 0, 0, 0, 0, 7], [10, 0, 2, 7]);
    req[21] = 1;
    assert!(handle_receive(&mut net, &req, 3).is_ok());
    assert_eq!(net.arp_table_cloned().len(), 1);
    let mut short = arp_reply([2, 0, 0, 0, 0, 7], [10, 0, 2, 7]);
    short.truncate(41);
    match handle_receive(&mut net, &short, 3) {
        Err(Error::Failed(m)) => assert_eq!(m, "handle_rx_arp: Not a valid ARP Packet"),
        _ => panic!("expected an error"),
    }
}

#[test]
fn unknown_frames_are_passed_over() {
    let mut net = Network::new();
    let mut f = vec![0u8; 60];
    f[12] = 0x86;
    f[13] = 0xdd;
    assert!(handle_receive(&mut net, &f, 0).is_ok());
    f[12] = 0x08;
    f[13] = 0x00;
    f[23] = 99;
    assert!(handle_receive(&mut net, &f, 0).is_ok());
    f[23] = 6;
    assert!(handle_receive(&mut net, &f, 0).is_ok());
    f.truncate(53);
    assert!(handle_receive(&mut net, &f, 0).is_err());
    assert!(handle_receive(&mut net, &[0u8; 13], 0).is_err());
}

fn ping(dst: [u8; 4]) -> Vec<u8> {
    kernel_core::net::icmp::IcmpPacket::new_request(IpV4Addr::new(dst))
}

#[test]
fn tx_routes_within_subnet_and_through_router() {
    let mut net = Network::new();
    let nics = vec![Nic::new([2, 0, 0, 0, 0, 1])];
    net.register_interface(0);
    net.set_self_ip(Some(IpV4Addr::new([10, 0, 2, 15])));
    net.set_netmask(Some(IpV4Addr::new([255, 255, 255, 0])));
    net.set_router(Some(IpV4Addr::new([10, 0, 2, 2])));
    net.arp_table_register(IpV4Addr::new([10, 0, 2, 2]), EthernetAddr::new([2, 0, 0, 0, 0, 2]), 0);
    net.arp_table_register(IpV4Addr::new([10, 0, 2, 3]), EthernetAddr::new([2, 0, 0, 0, 0, 3]), 0);
    net.send_ip_packet(ping([10, 0, 2, 3]));
    net.send_ip_packet(ping([8, 8, 8, 8]));
    net.send_ip_packet(ping([10, 0, 2, 99]));
    assert!(process_tx(&mut net, &nics).is_ok());
    assert!(process_tx(&mut net, &nics).is_ok());
    assert!(process_tx(&mut net, &nics).is_ok());
    assert!(process_tx(&mut net, &nics).is_ok());
    let sent = nics[0].sent.borrow();
    assert_eq!(sent.len(), 2);
    assert_eq!(&sent[0][0..6], &[2, 0, 0, 0, 0, 3]);
    assert_eq!(&sent[0][6..12], &[2, 0, 0, 0, 0, 1]);
    assert_eq!(&sent[0][12..14], &[0x08, 0x00]);
    assert_eq!(&sent[0][26..30], &[10, 0, 2, 15]);
    assert_eq!(&sent[0][30..34], &[10, 0, 2, 3]);
    assert_eq!(InternetChecksum::calc(&sent[0][14..34]).value, 0);
    assert_eq!(&sent[0][34..38], &[8, 0, 0xf7, 0xff]);
    assert_eq!(&sent[1][0..6], &[2, 0, 0, 0, 0, 2]);
    assert_eq!(&sent[1][30..34], &[8, 8, 8, 8]);
}

#[test]
fn tx_without_lease_drops() {
    let mut net = Network::new();
    let nics = vec![Nic::new([2, 0, 0, 0, 0, 1])];
    net.arp_table_register(IpV4Addr::new([10, 0, 2, 3]), EthernetAddr::new([2, 0, 0, 0, 0, 3]), 0);
    net.send_ip_packet(ping([10, 0, 2, 3]));
    assert!(process_tx(&mut net, &nics).is_ok());
    assert_eq!(nics[0].sent.borrow().len(), 0);
    assert!(net.next_tx().is_none());
}

#[test]
fn route_frame_keeps_payload() {
    let mut frame = ping([1, 2, 3, 4]);
    frame.extend_from_slice(&[9, 9, 9]);
    let out = route_frame(
        &frame,
        IpV4Addr::new([10, 0, 2, 15]),
        EthernetAddr::new([1, 1, 1, 1, 1, 1]),
        EthernetAddr::new([2, 2, 2, 2, 2, 2]),
    );
    assert_eq!(out.len(), frame.len());
    assert_eq!(&out[34..], &frame[34..]);
    assert_eq!(&out[14..24], &frame[14..24]);
    assert_ne!(out, frame);
}

#[test]
fn rx_round_handles_one_frame_per_interface() {
    let mut net = Network::new();
    let nics = vec![Nic::new([2, 0, 0, 0, 0, 1]), Nic::new([2, 0, 0, 0, 0, 2])];
    net.register_interface(0);
    net.register_interface(1);
    net.register_interface(7);
    nics[0].inbox.borrow_mut().push(offer());
    nics[1].inbox.borrow_mut().push(arp_reply([2, 0, 0, 0, 0, 9], [10, 0, 2, 2]));
    assert!(process_rx(&mut net, &nics).is_ok());
    assert_eq!(net.self_ip(), Some(IpV4Addr::new([10, 0, 2, 15])));
    assert_eq!(net.arp_lookup(IpV4Addr::new([10, 0, 2, 2])).map(|e| e.iface), Some(1));
    assert!(process_rx(&mut net, &nics).is_ok());
}

#[test]
fn tcp_header_is_read() {
    let mut f = vec![0u8; 54];
    f[34..38].copy_from_slice(&[0x1f, 0x90, 0x00, 0x50]);
    f[38..42].copy_from_slice(&[0, 0, 1, 2]);
    f[42..46].copy_from_slice(&[0xff, 0, 0, 1]);
    f[46..48].copy_from_slice(&[0x50, 0x12]);
    let t = handle_rx_tcp(&f).ok().unwrap();
    assert_eq!((t.src_port(), t.dst_port()), (8080, 80));
    assert_eq!((t.seq_num(), t.ack_num()), (258, 0xff00_0001));
    assert_eq!(t.flags(), 0x5012);
    assert!(t.is_syn());
    assert_eq!(t.header_len(), 20);
    f[47] = 0x10;
    assert!(!handle_rx_tcp(&f).ok().unwrap().is_syn());
    assert!(handle_rx_tcp(&f[..53]).is_err());
}

struct Deaf;

impl NetworkInterface for Deaf {
    fn name(&self) -> &str {
        "deaf"
    }
    fn ethernet_addr(&self) -> EthernetAddr {
        EthernetAddr::zero()
    }
    fn push_packet(&self, _packet: Vec<u8>) -> Result<(), Error> {
        Err(Error::Failed("refused"))
    }
}

#[test]
fn manager_round_probes_sends_and_receives() {
    let mut net = Network::new();
    let nics = vec![Nic::new([2, 0, 0, 0, 0, 1])];
    net.register_interface(0);
    nics[0].inbox.borrow_mut().push(arp_reply([2, 0, 0, 0, 0, 9], [10, 0, 2, 2]));
    net.send_ip_packet(ping([10, 0, 2, 2]));
    assert!(network_manager_round(&mut net, &nics).is_ok());
    assert_eq!(nics[0].sent.borrow().len(), 2);
    assert!(net.next_tx().is_none());
    assert!(net.arp_lookup(IpV4Addr::new([10, 0, 2, 2])).is_some());
    let mut deaf_net = Network::new();
    deaf_net.register_interface(0);
    match network_manager_round(&mut deaf_net, &vec![Deaf]) {
        Err(Error::Failed(m)) => assert_eq!(m, "refused"),
        _ => panic!("expected an error"),
    }
    assert!(process_rx(&mut deaf_net, &vec![Deaf]).is_ok());
    match Deaf.pop_packet() {
        Err(Error::Failed(m)) => assert_eq!(m, "Not implemented yet"),
        _ => panic!("expected an error"),
    }
}

#[test]
fn what_an_interface_hands_over_is_handled() {
    let mut net = Network::new();
    assert!(handle_popped(&mut net, Err(Error::Failed("empty")), 0).is_ok());
    assert_eq!(net.self_ip(), None);
    assert!(handle_popped(&mut net, Ok(offer()), 0).is_ok());
    assert_eq!(net.self_ip(), Some(IpV4Addr::new([10, 0, 2, 15])));
    match handle_popped(&mut net, Ok(vec![0u8; 5]), 0) {
        Err(Error::Failed(m)) => assert_eq!(m, "data is too short"),
        _ => panic!("expected an error"),
    }
}

#[test]
fn rx_round_stops_at_the_first_frame_that_fails() {
    let mut net = Network::new();
    let nics = vec![
        Nic::new([2, 0, 0, 0, 0, 1]),
        Nic::new([2, 0, 0, 0, 0, 2]),
        Nic::new([2, 0, 0, 0, 0, 3]),
    ];
    net.register_interface(2);
    net.register_interface(5);
    net.register_interface(0);
    net.register_interface(1);
    nics[2].inbox.borrow_mut().push(arp_reply([2, 0, 0, 0, 0, 9], [10, 0, 2, 9]));
    nics[0].inbox.borrow_mut().push(vec![0u8; 3]);
    nics[1].inbox.borrow_mut().push(offer());
    assert!(process_rx(&mut net, &nics).is_err());
    assert_eq!(net.arp_lookup(IpV4Addr::new([10, 0, 2, 9])).map(|e| e.iface), Some(2));
    assert_eq!(net.self_ip(), None);
    assert_eq!(nics[1].inbox.borrow().len(), 1);
    assert!(nics[0].inbox.borrow().is_empty());
    assert!(process_rx(&mut net, &nics).is_ok());
    assert_eq!(net.self_ip(), Some(IpV4Addr::new([10, 0, 2, 15])));
    let mut lone = Network::new();
    lone.register_interface(7);
    assert!(process_rx(&mut lone, &nics).is_ok());
}

#[test]
fn interfaces_that_are_gone_are_passed_over() {
    let mut net = Network::new();
    net.register_interface(3);
    net.register_interface(4);
    assert!(probe_interfaces(&mut net, &vec![Deaf]).is_ok());
    let mut net = Network::new();
    net.register_interface(3);
    net.register_interface(0);
    assert!(probe_interfaces(&mut net, &vec![Deaf]).is_err());
    assert!(probe_interfaces(&mut net, &vec![Deaf]).is_ok());

    let mut net = Network::new();
    net.set_self_ip(Some(IpV4Addr::new([10, 0, 2, 15])));
    net.set_netmask(Some(IpV4Addr::new([255, 255, 255, 0])));
    net.arp_table_register(IpV4Addr::new([10, 0, 2, 3]), EthernetAddr::new([2, 0, 0, 0, 0, 3]), 1);
    net.send_ip_packet(ping([10, 0, 2, 3]));
    net.send_ip_packet(ping([10, 0, 2, 3]));
    assert!(process_tx(&mut net, &vec![Deaf]).is_ok());
    match process_tx(&mut net, &vec![Deaf, Deaf]) {
        Err(Error::Failed(m)) => assert_eq!(m, "refused"),
        _ => panic!("expected an error"),
    }
    assert!(net.next_tx().is_none());
}

#[test]
fn manager_round_without_drivers_only_drops_the_oldest_frame() {
    let mut net = Network::new();
    net.register_interface(0);
    net.set_self_ip(Some(IpV4Addr::new([10, 0, 2, 15])));
    net.set_netmask(Some(IpV4Addr::new([255, 255, 255, 0])));
    net.arp_table_register(IpV4Addr::new([10, 0, 2, 3]), EthernetAddr::new([2, 0, 0, 0, 0, 3]), 0);
    net.arp_table_register(IpV4Addr::new([10, 0, 2, 4]), EthernetAddr::new([2, 0, 0, 0, 0, 4]), 0);
    net.send_ip_packet(ping([10, 0, 2, 3]));
    net.send_ip_packet(ping([10, 0, 2, 4]));
    assert!(network_manager_round(&mut net, &Vec::<Deaf>::new()).is_ok());
    assert_eq!(net.self_ip(), Some(IpV4Addr::new([10, 0, 2, 15])));
    assert_eq!(net.arp_table_cloned().len(), 2);
    let (_, frame) = net.next_tx().unwrap_or_else(|| panic!("the second frame has no route"));
    assert_eq!(&frame[30..34], &[10, 0, 2, 4]);
}
