use vstd::prelude::*;
use crate::error::Error;
use crate::net::wire::{be16, be32, spec_be16, spec_be32, too_short_message};

verus! {

/// Length of a frame up to the end of an option-free TCP header.
pub const TCP_PACKET_LEN: usize = 54;

/// Offset of the TCP source port in a frame.
pub const TCP_OFFSET_SRC_PORT: usize = 34;

/// Offset of the TCP destination port.
pub const TCP_OFFSET_DST_PORT: usize = 36;

/// Offset of the sequence number.
pub const TCP_OFFSET_SEQ: usize = 38;

/// Offset of the acknowledgement number.
pub const TCP_OFFSET_ACK: usize = 42;

/// Offset of the data offset and flags.
pub const TCP_OFFSET_FLAGS: usize = 46;

/// The SYN bit among the flags.
pub const TCP_FLAG_SYN: u16 = 0x0002;

/// The TCP header of a frame, as far as the stack reads it.
#[derive(Clone, Copy, Debug, PartialEq, Eq, Structural)]
pub struct TcpPacket {
    pub src_port: u16,
    pub dst_port: u16,
    pub seq_num: u32,
    pub ack_num: u32,
    /// Data offset in the four highest bits, flags in the lowest nine.
    pub flags: u16,
}

impl TcpPacket {
    /// The TCP header in `frame`, where `frame` is long enough.
    pub open spec fn spec_parse(frame: Seq<u8>) -> TcpPacket {
        TcpPacket {
            src_port: spec_be16(frame, TCP_OFFSET_SRC_PORT as int) as u16,
            dst_port: spec_be16(frame, TCP_OFFSET_DST_PORT as int) as u16,
            seq_num: spec_be32(frame, TCP_OFFSET_SEQ as int) as u32,
            ack_num: spec_be32(frame, TCP_OFFSET_ACK as int) as u32,
            flags: spec_be16(frame, TCP_OFFSET_FLAGS as int) as u16,
        }
    }

    /// Reads the TCP header of `frame`; a frame that ends inside the fixed
    /// part of the header is rejected.
    pub fn from_slice(frame: &[u8]) -> (r: Result<TcpPacket, Error>)
        ensures
            frame@.len() >= TCP_PACKET_LEN <==> r is Ok,
            r matches Ok(p) ==> p == Self::spec_parse(frame@),
            r matches Err(e) ==> (e matches Error::Failed(m) && m@ == too_short_message()),
    {
        if frame.len() < TCP_PACKET_LEN {
            return Err(Error::Failed("data is too short"));
        }
        Ok(
            TcpPacket {
                src_port: be16(frame, TCP_OFFSET_SRC_PORT),
                dst_port: be16(frame, TCP_OFFSET_DST_PORT),
                seq_num: be32(frame, TCP_OFFSET_SEQ),
                ack_num: be32(frame, TCP_OFFSET_ACK),
                flags: be16(frame, TCP_OFFSET_FLAGS),
            },
        )
    }

    /// The port the segment was sent from.
    pub fn src_port(&self) -> (r: u16)
        ensures
            r == self.src_port,
    {
        self.src_port
    }

    /// The port the segment is sent to.
    pub fn dst_port(&self) -> (r: u16)
        ensures
            r == self.dst_port,
    {
        self.dst_port
    }

    /// The sequence number.
    pub fn seq_num(&self) -> (r: u32)
        ensures
            r == self.seq_num,
    {
        self.seq_num
    }

    /// The acknowledgement number.
    pub fn ack_num(&self) -> (r: u32)
        ensures
            r == self.ack_num,
    {
        self.ack_num
    }

    /// Data offset and flags.
    pub fn flags(&self) -> (r: u16)
        ensures
            r == self.flags,
    {
        self.flags
    }

    /// Whether the segment asks to open a connection.
    pub fn is_syn(&self) -> (r: bool)
        ensures
            r == (self.flags & TCP_FLAG_SYN != 0),
    {
        self.flags & TCP_FLAG_SYN != 0
    }

    /// Length of the TCP header in bytes: four times the data offset.
    pub fn header_len(&self) -> (r: usize)
        ensures
            r == 4 * (self.flags as int / 4096),
            r <= 60,
    {
        let words: u16 = self.flags / 4096;
        4 * (words as usize)
    }
}

} // verus!
