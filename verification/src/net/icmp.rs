use vstd::prelude::*;
use crate::error::Error;
use crate::net::checksum::{spec_checksum, InternetChecksum};
use crate::net::ip::{IpV4Addr, IP_V4_PROTOCOL_ICMP};
use crate::net::wire::{
    be16, push_be16, push_zeros, spec_be16_bytes, spec_u16_at, spec_u8_at, too_short_message,
};

verus! {

/// Length of a frame up to the end of an ICMP echo header.
pub const ICMP_PACKET_LEN: usize = 42;

/// Offset of the ICMP type in a frame.
pub const ICMP_OFFSET_TYPE: usize = 34;

/// Offset of the ICMP code.
pub const ICMP_OFFSET_CODE: usize = 35;

/// Offset of the ICMP checksum.
pub const ICMP_OFFSET_CSUM: usize = 36;

/// Offset of the echo identifier.
pub const ICMP_OFFSET_IDENTIFIER: usize = 38;

/// Offset of the echo sequence number.
pub const ICMP_OFFSET_SEQUENCE: usize = 40;

/// ICMP type of an echo request.
pub const ICMP_TYPE_ECHO_REQUEST: u8 = 8;

/// ICMP type of an echo reply.
pub const ICMP_TYPE_ECHO_REPLY: u8 = 0;

/// The ICMP echo header of a frame.
#[derive(Clone, Copy, Debug, PartialEq, Eq, Structural)]
pub struct IcmpPacket {
    pub icmp_type: u8,
    pub code: u8,
    pub csum: u16,
    pub identifier: u16,
    pub sequence: u16,
}

/// The eight bytes of an echo request with identifier and sequence zero,
/// before its checksum is filled in.
pub open spec fn echo_request_body() -> Seq<u8> {
    seq![ICMP_TYPE_ECHO_REQUEST, 0u8, 0u8, 0u8, 0u8, 0u8, 0u8, 0u8]
}

/// The frame of an echo request to `dst`, ready for the transmit queue.
///
/// The Ethernet header, the source address and the IPv4 checksum are zero:
/// they are filled in when the frame is routed.
pub open spec fn spec_echo_request(dst: IpV4Addr) -> Seq<u8> {
    Seq::new(14, |i: int| 0u8) + seq![0x45u8, 0u8, 0u8, 28u8, 0u8, 0u8, 0u8, 0u8, 0xffu8,
        IP_V4_PROTOCOL_ICMP, 0u8, 0u8, 0u8, 0u8, 0u8, 0u8] + dst@ + seq![
        ICMP_TYPE_ECHO_REQUEST,
        0u8,
    ] + spec_be16_bytes(spec_checksum(echo_request_body())) + seq![0u8, 0u8, 0u8, 0u8]
}

impl IcmpPacket {
    /// The ICMP header in `frame`, where `frame` is long enough.
    pub open spec fn spec_parse(frame: Seq<u8>) -> IcmpPacket {
        IcmpPacket {
            icmp_type: spec_u8_at(frame, ICMP_OFFSET_TYPE),
            code: spec_u8_at(frame, ICMP_OFFSET_CODE),
            csum: spec_u16_at(frame, ICMP_OFFSET_CSUM),
            identifier: spec_u16_at(frame, ICMP_OFFSET_IDENTIFIER),
            sequence: spec_u16_at(frame, ICMP_OFFSET_SEQUENCE),
        }
    }

    /// Reads the ICMP header of `frame`; a frame that ends inside it is
    /// rejected.
    pub fn from_slice(frame: &[u8]) -> (r: Result<IcmpPacket, Error>)
        ensures
            frame@.len() >= ICMP_PACKET_LEN <==> r is Ok,
            r matches Ok(p) ==> p == Self::spec_parse(frame@),
            r matches Err(e) ==> (e matches Error::Failed(m) && m@ == too_short_message()),
    {
        if frame.len() < ICMP_PACKET_LEN {
            return Err(Error::Failed("data is too short"));
        }
        Ok(
            IcmpPacket {
                icmp_type: frame[ICMP_OFFSET_TYPE],
                code: frame[ICMP_OFFSET_CODE],
                csum: be16(frame, ICMP_OFFSET_CSUM),
                identifier: be16(frame, ICMP_OFFSET_IDENTIFIER),
                sequence: be16(frame, ICMP_OFFSET_SEQUENCE),
            },
        )
    }

    /// Builds the frame of an echo request to `dst`.
    pub fn new_request(dst: IpV4Addr) -> (r: Vec<u8>)
        ensures
            r@ == spec_echo_request(dst),
            r@.len() == ICMP_PACKET_LEN,
    {
        let mut out: Vec<u8> = Vec::new();
        push_zeros(&mut out, 14);
        out.push(0x45);
        out.push(0);
        out.push(0);
        out.push(28);
        push_zeros(&mut out, 4);
        out.push(0xff);
        out.push(IP_V4_PROTOCOL_ICMP);
        push_zeros(&mut out, 6);
        dst.write(&mut out);
        let body: [u8; 8] = [ICMP_TYPE_ECHO_REQUEST, 0, 0, 0, 0, 0, 0, 0];
        assert(body@ =~= echo_request_body());
        let csum = InternetChecksum::calc(body.as_slice());
        out.push(ICMP_TYPE_ECHO_REQUEST);
        out.push(0);
        push_be16(&mut out, csum.value);
        push_zeros(&mut out, 4);
        assert(out@ =~= spec_echo_request(dst));
        out
    }
}

} // verus!
