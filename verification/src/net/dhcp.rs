use vstd::prelude::*;
use vstd::slice::slice_subrange;
use crate::error::Error;
use crate::net::checksum::{spec_checksum, InternetChecksum};
use crate::net::eth::{EthernetAddr, EthernetHeader, ETHERNET_TYPE_IP_V4};
use crate::net::ip::{IpV4Addr, IP_V4_PROTOCOL_UDP};
use crate::net::wire::{push_be16, push_zeros, spec_be16_bytes, too_short_message};

verus! {

/// Option tag: subnet mask.
pub const DHCP_OPT_NETMASK: u8 = 1;

/// Option tag: default router.
pub const DHCP_OPT_ROUTER: u8 = 3;

/// Option tag: domain name server.
pub const DHCP_OPT_DNS: u8 = 6;

/// Option tag: DHCP message type.
pub const DHCP_OPT_MESSAGE_TYPE: u8 = 53;

/// Option tag of a padding byte, which has no length and no data.
pub const DHCP_OPT_MESSAGE_TYPE_PADDING: u8 = 0;

/// Option tag that ends the option list.
pub const DHCP_OPT_MESSAGE_TYPE_END: u8 = 255;

/// Message type DHCPDISCOVER.
pub const DHCP_OPT_MESSAGE_TYPE_DISCOVER: u8 = 1;

/// Message type DHCPOFFER.
pub const DHCP_OPT_MESSAGE_TYPE_OFFER: u8 = 2;

/// Message type DHCPACK.
pub const DHCP_OPT_MESSAGE_TYPE_ACK: u8 = 5;

/// BOOTP operation of a message from client to server.
pub const DHCP_OP_BOOTREQUEST: u8 = 1;

/// BOOTP operation of a message from server to client.
pub const DHCP_OP_BOOTREPLY: u8 = 2;

/// Offset of the BOOTP operation byte in a frame: it follows the Ethernet,
/// IPv4 and UDP headers.
pub const DHCP_OFFSET_OP: usize = 42;

/// Offset of `yiaddr`, the address the server hands to the client.
pub const DHCP_OFFSET_YIADDR: usize = 58;

/// Length of a DHCP frame up to and including the magic cookie; the options
/// start here.
pub const DHCP_HEADER_LEN: usize = 282;

/// The message of the error reported for an option that claims more data
/// than the frame holds.
pub open spec fn invalid_len_message() -> Seq<char> {
    "Invalid op data len"@
}

/// What the options of a DHCP message say, as far as the client reads them.
#[derive(Clone, Copy, Debug, PartialEq, Eq, Structural)]
pub struct DhcpOptions {
    /// The last subnet mask given.
    pub netmask: Option<IpV4Addr>,
    /// The last router given.
    pub router: Option<IpV4Addr>,
    /// The last name server given.
    pub dns: Option<IpV4Addr>,
    /// The last message type given.
    pub message_type: Option<u8>,
    /// False where an option claimed more data than followed it.
    pub complete: bool,
}

/// The address in the first four bytes of `data`.
pub open spec fn ip_of(data: Seq<u8>) -> IpV4Addr {
    IpV4Addr { b0: data[0], b1: data[1], b2: data[2], b3: data[3] }
}

/// The options read so far, updated by one option with tag `op` and the
/// bytes `data`. Data too short for the option leaves them unchanged, and so
/// does a tag the client does not read.
pub open spec fn apply_option(st: DhcpOptions, op: u8, data: Seq<u8>) -> DhcpOptions {
    if op == DHCP_OPT_MESSAGE_TYPE && data.len() >= 1 {
        DhcpOptions { message_type: Some(data[0]), ..st }
    } else if op == DHCP_OPT_NETMASK && data.len() >= 4 {
        DhcpOptions { netmask: Some(ip_of(data)), ..st }
    } else if op == DHCP_OPT_ROUTER && data.len() >= 4 {
        DhcpOptions { router: Some(ip_of(data)), ..st }
    } else if op == DHCP_OPT_DNS && data.len() >= 4 {
        DhcpOptions { dns: Some(ip_of(data)), ..st }
    } else {
        st
    }
}

/// The end of the data of an option at `pos` that announces `n` bytes,
/// cut off at the end of `opts`.
pub open spec fn data_end(opts: Seq<u8>, pos: int, n: int) -> int {
    if pos + 2 + n <= opts.len() {
        pos + 2 + n
    } else {
        opts.len() as int
    }
}

/// Reads the tag-length-value list `opts` from `pos` on, starting from what
/// was read before, `st`.
///
/// A padding byte is skipped. The list ends at an end tag, at a length of
/// zero, or where the bytes run out. An option whose data is cut off by the
/// end of `opts` is applied with the data that is there, and the result is
/// marked incomplete.
pub open spec fn scan_options(opts: Seq<u8>, pos: int, st: DhcpOptions) -> DhcpOptions
    decreases opts.len() - pos,
{
    if pos < 0 || pos >= opts.len() {
        st
    } else if opts[pos] == DHCP_OPT_MESSAGE_TYPE_PADDING {
        scan_options(opts, pos + 1, st)
    } else if opts[pos] == DHCP_OPT_MESSAGE_TYPE_END {
        st
    } else if pos + 1 >= opts.len() {
        st
    } else if opts[pos + 1] == 0 {
        st
    } else {
        let n = opts[pos + 1] as int;
        let next = apply_option(st, opts[pos], opts.subrange(pos + 2, data_end(opts, pos, n)));
        if pos + 2 + n > opts.len() {
            DhcpOptions { complete: false, ..next }
        } else {
            scan_options(opts, pos + 2 + n, next)
        }
    }
}

/// The state before any option is read.
pub open spec fn no_options() -> DhcpOptions {
    DhcpOptions { netmask: None, router: None, dns: None, message_type: None, complete: true }
}

/// What the option list `opts` says.
pub open spec fn spec_parse_options(opts: Seq<u8>) -> DhcpOptions {
    scan_options(opts, 0, no_options())
}

/// Reads the option list of a DHCP message.
pub fn parse_dhcp_options(opts: &[u8]) -> (r: DhcpOptions)
    ensures
        r == spec_parse_options(opts@),
{
    let mut st = DhcpOptions {
        netmask: None,
        router: None,
        dns: None,
        message_type: None,
        complete: true,
    };
    let len: usize = opts.len();
    let mut pos: usize = 0;
    while pos < len
        invariant
            len == opts@.len(),
            pos <= len,
            scan_options(opts@, pos as int, st) == spec_parse_options(opts@),
        decreases len - pos,
    {
        let op: u8 = opts[pos];
        if op == DHCP_OPT_MESSAGE_TYPE_PADDING {
            pos = pos + 1;
            continue ;
        }
        if op == DHCP_OPT_MESSAGE_TYPE_END {
            return st;
        }
        if len - pos < 2 {
            return st;
        }
        let n: usize = opts[pos + 1] as usize;
        if n == 0 {
            return st;
        }
        let start: usize = pos + 2;
        let avail: usize = if len - start < n {
            len - start
        } else {
            n
        };
        let ghost data = opts@.subrange(start as int, data_end(opts@, pos as int, n as int));
        assert(data.len() == avail);
        if op == DHCP_OPT_MESSAGE_TYPE {
            if avail >= 1 {
                st.message_type = Some(opts[start]);
            }
        } else if op == DHCP_OPT_NETMASK {
            if avail >= 4 {
                let a = IpV4Addr::read(opts, start);
                assert(a == ip_of(data));
                st.netmask = Some(a);
            }
        } else if op == DHCP_OPT_ROUTER {
            if avail >= 4 {
                let a = IpV4Addr::read(opts, start);
                assert(a == ip_of(data));
                st.router = Some(a);
            }
        } else if op == DHCP_OPT_DNS {
            if avail >= 4 {
                let a = IpV4Addr::read(opts, start);
                assert(a == ip_of(data));
                st.dns = Some(a);
            }
        }
        if avail < n {
            st.complete = false;
            return st;
        }
        pos = start + n;
    }
    st
}

/// Whether `frame` is long enough to hold a DHCP message.
pub open spec fn is_dhcp_frame(frame: Seq<u8>) -> bool {
    frame.len() >= DHCP_HEADER_LEN
}

/// Whether the DHCP message in `frame` goes from server to client.
pub open spec fn spec_is_boot_reply(frame: Seq<u8>) -> bool {
    frame[DHCP_OFFSET_OP as int] == DHCP_OP_BOOTREPLY
}

/// The address that the DHCP message in `frame` hands to the client.
pub open spec fn spec_yiaddr(frame: Seq<u8>) -> IpV4Addr {
    ip_of(frame.subrange(DHCP_OFFSET_YIADDR as int, DHCP_OFFSET_YIADDR + 4))
}

/// The option list of the DHCP message in `frame`.
pub open spec fn spec_options(frame: Seq<u8>) -> Seq<u8> {
    frame.subrange(DHCP_HEADER_LEN as int, frame.len() as int)
}

/// The fixed part of a DHCP message, as far as the client reads it.
#[derive(Clone, Copy, Debug, PartialEq, Eq, Structural)]
pub struct DhcpPacket {
    /// The BOOTP operation.
    pub op: u8,
    /// The address handed to the client.
    pub yiaddr: IpV4Addr,
}

impl DhcpPacket {
    /// Reads the fixed part of the DHCP message in `frame`; a frame that
    /// ends before the options start is rejected.
    pub fn from_slice(frame: &[u8]) -> (r: Result<DhcpPacket, Error>)
        ensures
            is_dhcp_frame(frame@) <==> r is Ok,
            r matches Ok(p) ==> p.op == frame@[DHCP_OFFSET_OP as int] && p.yiaddr == spec_yiaddr(
                frame@,
            ),
            r matches Err(e) ==> (e matches Error::Failed(m) && m@ == too_short_message()),
    {
        if frame.len() < DHCP_HEADER_LEN {
            return Err(Error::Failed("data is too short"));
        }
        let yiaddr = IpV4Addr::read(frame, DHCP_OFFSET_YIADDR);
        Ok(DhcpPacket { op: frame[DHCP_OFFSET_OP], yiaddr })
    }

    /// Whether the message goes from server to client.
    pub fn is_boot_reply(&self) -> (r: bool)
        ensures
            r == (self.op == DHCP_OP_BOOTREPLY),
    {
        self.op == DHCP_OP_BOOTREPLY
    }

    /// The address handed to the client.
    pub fn yiaddr(&self) -> (r: IpV4Addr)
        ensures
            r == self.yiaddr,
    {
        self.yiaddr
    }
}

/// Reads the option list of the DHCP message in `frame`.
pub fn frame_options(frame: &[u8]) -> (r: DhcpOptions)
    requires
        is_dhcp_frame(frame@),
    ensures
        r == spec_parse_options(spec_options(frame@)),
{
    let opts = slice_subrange(frame, DHCP_HEADER_LEN, frame.len());
    parse_dhcp_options(opts)
}

/// The IPv4 header of a DHCP Discover, with its checksum field zero.
pub open spec fn discover_ip_header() -> Seq<u8> {
    seq![
        0x45u8, 0u8, 1u8, 16u8, 0u8, 0u8, 0u8, 0u8, 0xffu8, IP_V4_PROTOCOL_UDP, 0u8, 0u8,
        0u8, 0u8, 0u8, 0u8, 255u8, 255u8, 255u8, 255u8,
    ]
}

/// The frame of the DHCP Discover that the station `src_eth` broadcasts.
///
/// It is sent from port 68 of the unspecified address to port 67 of the
/// broadcast address, names `src_eth` as the client hardware address, and
/// carries one option, the message type, before the end tag.
pub open spec fn spec_dhcp_discover(src_eth: EthernetAddr) -> Seq<u8> {
    (EthernetHeader {
        dst: EthernetAddr { b0: 255, b1: 255, b2: 255, b3: 255, b4: 255, b5: 255 },
        src: src_eth,
        eth_type: ETHERNET_TYPE_IP_V4,
    })@ + discover_ip_header().subrange(0, 10) + spec_be16_bytes(
        spec_checksum(discover_ip_header()),
    ) + discover_ip_header().subrange(12, 20) + seq![0u8, 68u8, 0u8, 67u8, 0u8, 252u8, 0u8, 0u8]
        + seq![DHCP_OP_BOOTREQUEST, 1u8, 6u8, 0u8] + Seq::new(24, |i: int| 0u8) + src_eth@
        + Seq::new(202, |i: int| 0u8) + seq![0x63u8, 0x82u8, 0x53u8, 0x63u8] + seq![
        DHCP_OPT_MESSAGE_TYPE,
        1u8,
        DHCP_OPT_MESSAGE_TYPE_DISCOVER,
        DHCP_OPT_MESSAGE_TYPE_END,
    ]
}

/// Builds the frame of the DHCP Discover that the station `src_eth`
/// broadcasts.
pub fn request(src_eth: EthernetAddr) -> (r: Vec<u8>)
    ensures
        r@ == spec_dhcp_discover(src_eth),
        r@.len() == DHCP_HEADER_LEN + 4,
{
    let mut out: Vec<u8> = Vec::new();
    let eth = EthernetHeader::new(EthernetAddr::broadcast(), src_eth, ETHERNET_TYPE_IP_V4);
    assert(eth.dst == (EthernetAddr { b0: 255, b1: 255, b2: 255, b3: 255, b4: 255, b5: 255 }))
        by {
        assert(eth.dst@[0] == 255 && eth.dst@[1] == 255 && eth.dst@[2] == 255 && eth.dst@[3]
            == 255 && eth.dst@[4] == 255 && eth.dst@[5] == 255);
    }
    eth.write(&mut out);
    let header: [u8; 20] = [
        0x45, 0, 1, 16, 0, 0, 0, 0, 0xff, IP_V4_PROTOCOL_UDP, 0, 0,
        0, 0, 0, 0, 255, 255, 255, 255,
    ];
    assert(header@ =~= discover_ip_header());
    let csum = InternetChecksum::calc(header.as_slice());
    let mut i: usize = 0;
    while i < 10
        invariant
            i <= 10,
            header@ == discover_ip_header(),
            out@ == eth@ + discover_ip_header().subrange(0, i as int),
        decreases 10 - i,
    {
        out.push(header[i]);
        i = i + 1;
        assert(out@ =~= eth@ + discover_ip_header().subrange(0, i as int));
    }
    push_be16(&mut out, csum.value);
    let ghost before = out@;
    let mut j: usize = 12;
    while j < 20
        invariant
            12 <= j <= 20,
            header@ == discover_ip_header(),
            out@ == before + discover_ip_header().subrange(12, j as int),
        decreases 20 - j,
    {
        out.push(header[j]);
        j = j + 1;
        assert(out@ =~= before + discover_ip_header().subrange(12, j as int));
    }
    out.push(0);
    out.push(68);
    out.push(0);
    out.push(67);
    out.push(0);
    out.push(252);
    out.push(0);
    out.push(0);
    out.push(DHCP_OP_BOOTREQUEST);
    out.push(1);
    out.push(6);
    out.push(0);
    push_zeros(&mut out, 24);
    src_eth.write(&mut out);
    push_zeros(&mut out, 202);
    out.push(0x63);
    out.push(0x82);
    out.push(0x53);
    out.push(0x63);
    out.push(DHCP_OPT_MESSAGE_TYPE);
    out.push(1);
    out.push(DHCP_OPT_MESSAGE_TYPE_DISCOVER);
    out.push(DHCP_OPT_MESSAGE_TYPE_END);
    assert(out@ =~= spec_dhcp_discover(src_eth));
    out
}

} // verus!
