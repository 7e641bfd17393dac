use vstd::prelude::*;
use crate::error::Error;
use crate::net::wire::{be16, spec_be16, too_short_message};

verus! {

/// Length of an Ethernet II header: two addresses and the EtherType.
pub const ETHERNET_HEADER_LEN: usize = 14;

/// EtherType of IPv4.
pub const ETHERNET_TYPE_IP_V4: u16 = 0x0800;

/// EtherType of ARP.
pub const ETHERNET_TYPE_ARP: u16 = 0x0806;

/// A 48-bit Ethernet hardware address.
#[derive(Clone, Copy, Debug, PartialEq, Eq, Structural)]
pub struct EthernetAddr {
    pub b0: u8,
    pub b1: u8,
    pub b2: u8,
    pub b3: u8,
    pub b4: u8,
    pub b5: u8,
}

impl View for EthernetAddr {
    type V = Seq<u8>;

    /// The six bytes in transmission order.
    open spec fn view(&self) -> Seq<u8> {
        seq![self.b0, self.b1, self.b2, self.b3, self.b4, self.b5]
    }
}

impl EthernetAddr {
    /// The address with the given bytes, in transmission order.
    pub fn new(mac: [u8; 6]) -> (r: EthernetAddr)
        ensures
            r@ == mac@,
    {
        let r = EthernetAddr {
            b0: mac[0],
            b1: mac[1],
            b2: mac[2],
            b3: mac[3],
            b4: mac[4],
            b5: mac[5],
        };
        assert(r@ =~= mac@);
        r
    }

    /// The all-zero address.
    pub fn zero() -> (r: EthernetAddr)
        ensures
            r@ == seq![0u8, 0u8, 0u8, 0u8, 0u8, 0u8],
    {
        EthernetAddr { b0: 0, b1: 0, b2: 0, b3: 0, b4: 0, b5: 0 }
    }

    /// The address every station listens to.
    pub fn broadcast() -> (r: EthernetAddr)
        ensures
            r@ == seq![255u8, 255u8, 255u8, 255u8, 255u8, 255u8],
    {
        EthernetAddr { b0: 255, b1: 255, b2: 255, b3: 255, b4: 255, b5: 255 }
    }

    /// The six bytes in transmission order.
    pub fn bytes(&self) -> (r: [u8; 6])
        ensures
            r@ == self@,
    {
        let r = [self.b0, self.b1, self.b2, self.b3, self.b4, self.b5];
        assert(r@ =~= self@);
        r
    }

    /// The address held in the six bytes of `data` from offset `off`.
    pub fn read(data: &[u8], off: usize) -> (r: EthernetAddr)
        requires
            off + 6 <= data@.len(),
        ensures
            r@ == data@.subrange(off as int, off + 6),
    {
        let r = EthernetAddr {
            b0: data[off],
            b1: data[off + 1],
            b2: data[off + 2],
            b3: data[off + 3],
            b4: data[off + 4],
            b5: data[off + 5],
        };
        assert(r@ =~= data@.subrange(off as int, off + 6));
        r
    }

    /// Appends the six bytes to `out`.
    pub fn write(&self, out: &mut Vec<u8>)
        ensures
            final(out)@ == old(out)@ + self@,
    {
        out.push(self.b0);
        out.push(self.b1);
        out.push(self.b2);
        out.push(self.b3);
        out.push(self.b4);
        out.push(self.b5);
        assert(out@ =~= old(out)@ + self@);
    }
}

/// The header that opens every Ethernet II frame.
#[derive(Clone, Copy, Debug, PartialEq, Eq, Structural)]
pub struct EthernetHeader {
    pub dst: EthernetAddr,
    pub src: EthernetAddr,
    pub eth_type: u16,
}

impl View for EthernetHeader {
    type V = Seq<u8>;

    /// The fourteen bytes of the header as they stand in a frame.
    open spec fn view(&self) -> Seq<u8> {
        self.dst@ + self.src@ + crate::net::wire::spec_be16_bytes(self.eth_type)
    }
}

impl EthernetHeader {
    /// The header with the given fields.
    pub fn new(dst: EthernetAddr, src: EthernetAddr, eth_type: u16) -> (r: EthernetHeader)
        ensures
            r == (EthernetHeader { dst, src, eth_type }),
    {
        EthernetHeader { dst, src, eth_type }
    }

    /// The header that `frame` opens with, where `frame` is long enough.
    pub open spec fn spec_parse(frame: Seq<u8>) -> EthernetHeader {
        EthernetHeader {
            dst: EthernetAddr {
                b0: frame[0],
                b1: frame[1],
                b2: frame[2],
                b3: frame[3],
                b4: frame[4],
                b5: frame[5],
            },
            src: EthernetAddr {
                b0: frame[6],
                b1: frame[7],
                b2: frame[8],
                b3: frame[9],
                b4: frame[10],
                b5: frame[11],
            },
            eth_type: spec_be16(frame, 12) as u16,
        }
    }

    /// Reads the header of `frame`; a frame of fewer than fourteen bytes is
    /// rejected.
    pub fn from_slice(frame: &[u8]) -> (r: Result<EthernetHeader, Error>)
        ensures
            frame@.len() >= ETHERNET_HEADER_LEN <==> r is Ok,
            r matches Ok(h) ==> h == Self::spec_parse(frame@),
            r matches Err(e) ==> (e matches Error::Failed(m) && m@ == too_short_message()),
    {
        if frame.len() < ETHERNET_HEADER_LEN {
            return Err(Error::Failed("data is too short"));
        }
        let dst = EthernetAddr::read(frame, 0);
        let src = EthernetAddr::read(frame, 6);
        let eth_type = be16(frame, 12);
        Ok(EthernetHeader { dst, src, eth_type })
    }

    /// The EtherType of the frame.
    pub fn eth_type(&self) -> (r: u16)
        ensures
            r == self.eth_type,
    {
        self.eth_type
    }

    /// Appends the fourteen bytes of the header to `out`.
    pub fn write(&self, out: &mut Vec<u8>)
        ensures
            final(out)@ == old(out)@ + self@,
    {
        self.dst.write(out);
        self.src.write(out);
        crate::net::wire::push_be16(out, self.eth_type);
        assert(out@ =~= old(out)@ + self@);
    }
}

/// The EtherType of `frame`, where `frame` holds an Ethernet header.
pub open spec fn spec_eth_type(frame: Seq<u8>) -> u16 {
    spec_be16(frame, 12) as u16
}

} // verus!
