use vstd::prelude::*;
use crate::error::Error;
use crate::net::wire::{be16, spec_be16, too_short_message};

verus! {

/// UDP port of a DHCP server.
pub const UDP_PORT_DHCP_SERVER: u16 = 67;

/// UDP port of a DHCP client.
pub const UDP_PORT_DHCP_CLIENT: u16 = 68;

/// Length of a frame up to the end of the UDP header.
pub const UDP_PACKET_LEN: usize = 42;

/// Offset of the UDP source port in a frame.
pub const UDP_OFFSET_SRC_PORT: usize = 34;

/// Offset of the UDP destination port.
pub const UDP_OFFSET_DST_PORT: usize = 36;

/// Offset of the UDP length.
pub const UDP_OFFSET_LEN: usize = 38;

/// The UDP header of a frame.
#[derive(Clone, Copy, Debug, PartialEq, Eq, Structural)]
pub struct UdpPacket {
    pub src_port: u16,
    pub dst_port: u16,
    pub len: u16,
}

impl UdpPacket {
    /// The UDP header in `frame`, where `frame` is long enough.
    pub open spec fn spec_parse(frame: Seq<u8>) -> UdpPacket {
        UdpPacket {
            src_port: spec_be16(frame, UDP_OFFSET_SRC_PORT as int) as u16,
            dst_port: spec_be16(frame, UDP_OFFSET_DST_PORT as int) as u16,
            len: spec_be16(frame, UDP_OFFSET_LEN as int) as u16,
        }
    }

    /// Reads the UDP header of `frame`; a frame that ends before the UDP
    /// payload starts is rejected.
    pub fn from_slice(frame: &[u8]) -> (r: Result<UdpPacket, Error>)
        ensures
            frame@.len() >= UDP_PACKET_LEN <==> r is Ok,
            r matches Ok(p) ==> p == Self::spec_parse(frame@),
            r matches Err(e) ==> (e matches Error::Failed(m) && m@ == too_short_message()),
    {
        if frame.len() < UDP_PACKET_LEN {
            return Err(Error::Failed("data is too short"));
        }
        Ok(
            UdpPacket {
                src_port: be16(frame, UDP_OFFSET_SRC_PORT),
                dst_port: be16(frame, UDP_OFFSET_DST_PORT),
                len: be16(frame, UDP_OFFSET_LEN),
            },
        )
    }

    /// The port the datagram was sent from.
    pub fn src_port(&self) -> (r: u16)
        ensures
            r == self.src_port,
    {
        self.src_port
    }

    /// The port the datagram is sent to.
    pub fn dst_port(&self) -> (r: u16)
        ensures
            r == self.dst_port,
    {
        self.dst_port
    }
}

} // verus!
