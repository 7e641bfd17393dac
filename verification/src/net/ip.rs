use vstd::prelude::*;
use crate::error::Error;
use crate::net::eth::EthernetHeader;
use crate::net::wire::{be16, spec_be16, too_short_message};

verus! {

/// An IPv4 address.
#[derive(Clone, Copy, Debug, PartialEq, Eq, Structural)]
pub struct IpV4Addr {
    pub b0: u8,
    pub b1: u8,
    pub b2: u8,
    pub b3: u8,
}

impl View for IpV4Addr {
    type V = Seq<u8>;

    /// The four bytes in network order.
    open spec fn view(&self) -> Seq<u8> {
        seq![self.b0, self.b1, self.b2, self.b3]
    }
}

impl IpV4Addr {
    /// The address with the given bytes, in network order.
    pub fn new(bytes: [u8; 4]) -> (r: IpV4Addr)
        ensures
            r@ == bytes@,
    {
        let r = IpV4Addr { b0: bytes[0], b1: bytes[1], b2: bytes[2], b3: bytes[3] };
        assert(r@ =~= bytes@);
        r
    }

    /// The limited broadcast address.
    pub fn broadcast() -> (r: IpV4Addr)
        ensures
            r@ == seq![255u8, 255u8, 255u8, 255u8],
    {
        IpV4Addr { b0: 255, b1: 255, b2: 255, b3: 255 }
    }

    /// The unspecified address.
    pub fn unspecified() -> (r: IpV4Addr)
        ensures
            r@ == seq![0u8, 0u8, 0u8, 0u8],
    {
        IpV4Addr { b0: 0, b1: 0, b2: 0, b3: 0 }
    }

    /// The four bytes in network order.
    pub fn bytes(&self) -> (r: [u8; 4])
        ensures
            r@ == self@,
    {
        let r = [self.b0, self.b1, self.b2, self.b3];
        assert(r@ =~= self@);
        r
    }

    /// The address as one number, most significant byte first.
    pub open spec fn spec_to_u32(&self) -> u32 {
        (self.b0 as int * 16777216 + self.b1 as int * 65536 + self.b2 as int * 256
            + self.b3 as int) as u32
    }

    /// The address as one number, most significant byte first.
    pub fn to_u32(&self) -> (r: u32)
        ensures
            r == self.spec_to_u32(),
    {
        let b0: u32 = self.b0 as u32;
        let b1: u32 = self.b1 as u32;
        let b2: u32 = self.b2 as u32;
        let b3: u32 = self.b3 as u32;
        b0 * 16777216 + b1 * 65536 + b2 * 256 + b3
    }

    /// The address held in the four bytes of `data` from offset `off`.
    pub fn read(data: &[u8], off: usize) -> (r: IpV4Addr)
        requires
            off + 4 <= data@.len(),
        ensures
            r@ == data@.subrange(off as int, off + 4),
    {
        let r = IpV4Addr { b0: data[off], b1: data[off + 1], b2: data[off + 2], b3: data[off + 3] };
        assert(r@ =~= data@.subrange(off as int, off + 4));
        r
    }

    /// The address that `data` opens with; bytes past the fourth are
    /// ignored, and fewer than four are rejected.
    pub fn from_slice(data: &[u8]) -> (r: Result<IpV4Addr, Error>)
        ensures
            data@.len() >= 4 <==> r is Ok,
            r matches Ok(a) ==> a@ == data@.subrange(0, 4),
            r matches Err(e) ==> (e matches Error::Failed(m) && m@ == too_short_message()),
    {
        if data.len() < 4 {
            return Err(Error::Failed("data is too short"));
        }
        Ok(Self::read(data, 0))
    }

    /// The address with every bit cleared that `mask` does not hold.
    pub open spec fn spec_network_prefix(&self, mask: IpV4Addr) -> IpV4Addr {
        IpV4Addr {
            b0: self.b0 & mask.b0,
            b1: self.b1 & mask.b1,
            b2: self.b2 & mask.b2,
            b3: self.b3 & mask.b3,
        }
    }

    /// The part of the address that `mask` selects.
    pub fn network_prefix(&self, mask: IpV4Addr) -> (r: IpV4Addr)
        ensures
            r == self.spec_network_prefix(mask),
    {
        IpV4Addr {
            b0: self.b0 & mask.b0,
            b1: self.b1 & mask.b1,
            b2: self.b2 & mask.b2,
            b3: self.b3 & mask.b3,
        }
    }

    /// Appends the four bytes to `out`.
    pub fn write(&self, out: &mut Vec<u8>)
        ensures
            final(out)@ == old(out)@ + self@,
    {
        out.push(self.b0);
        out.push(self.b1);
        out.push(self.b2);
        out.push(self.b3);
        assert(out@ =~= old(out)@ + self@);
    }
}

/// IPv4 protocol number of ICMP.
pub const IP_V4_PROTOCOL_ICMP: u8 = 1;

/// IPv4 protocol number of TCP.
pub const IP_V4_PROTOCOL_TCP: u8 = 6;

/// IPv4 protocol number of UDP.
pub const IP_V4_PROTOCOL_UDP: u8 = 17;

/// Length of the Ethernet header and the option-free IPv4 header that
/// follows it.
pub const IP_V4_PACKET_LEN: usize = 34;

/// Offset of the IPv4 total length in a frame.
pub const IP_V4_OFFSET_LENGTH: usize = 16;

/// Offset of the time to live.
pub const IP_V4_OFFSET_TTL: usize = 22;

/// Offset of the protocol number.
pub const IP_V4_OFFSET_PROTOCOL: usize = 23;

/// Offset of the header checksum.
pub const IP_V4_OFFSET_CSUM: usize = 24;

/// Offset of the source address.
pub const IP_V4_OFFSET_SRC: usize = 26;

/// Offset of the destination address.
pub const IP_V4_OFFSET_DST: usize = 30;

/// The address in the four bytes of `frame` from `off`.
pub open spec fn spec_ip_at(frame: Seq<u8>, off: int) -> IpV4Addr {
    IpV4Addr { b0: frame[off], b1: frame[off + 1], b2: frame[off + 2], b3: frame[off + 3] }
}

/// The Ethernet and IPv4 headers of a frame, as far as the stack reads
/// them.
#[derive(Clone, Copy, Debug, PartialEq, Eq, Structural)]
pub struct IpV4Packet {
    pub eth: EthernetHeader,
    pub length: u16,
    pub ttl: u8,
    pub protocol: u8,
    pub csum: u16,
    pub src: IpV4Addr,
    pub dst: IpV4Addr,
}

impl IpV4Packet {
    /// The headers that `frame` opens with, where `frame` is long enough.
    pub open spec fn spec_parse(frame: Seq<u8>) -> IpV4Packet {
        IpV4Packet {
            eth: EthernetHeader::spec_parse(frame),
            length: spec_be16(frame, IP_V4_OFFSET_LENGTH as int) as u16,
            ttl: frame[IP_V4_OFFSET_TTL as int],
            protocol: frame[IP_V4_OFFSET_PROTOCOL as int],
            csum: spec_be16(frame, IP_V4_OFFSET_CSUM as int) as u16,
            src: spec_ip_at(frame, IP_V4_OFFSET_SRC as int),
            dst: spec_ip_at(frame, IP_V4_OFFSET_DST as int),
        }
    }

    /// Reads the Ethernet and IPv4 headers of `frame`; a frame that ends
    /// inside them is rejected.
    pub fn from_slice(frame: &[u8]) -> (r: Result<IpV4Packet, Error>)
        ensures
            frame@.len() >= IP_V4_PACKET_LEN <==> r is Ok,
            r matches Ok(p) ==> p == Self::spec_parse(frame@),
            r matches Err(e) ==> (e matches Error::Failed(m) && m@ == too_short_message()),
    {
        if frame.len() < IP_V4_PACKET_LEN {
            return Err(Error::Failed("data is too short"));
        }
        let eth = match EthernetHeader::from_slice(frame) {
            Ok(h) => h,
            Err(e) => {
                return Err(e);
            },
        };
        let src = IpV4Addr::read(frame, IP_V4_OFFSET_SRC);
        let dst = IpV4Addr::read(frame, IP_V4_OFFSET_DST);
        proof {
            let s = frame@.subrange(IP_V4_OFFSET_SRC as int, IP_V4_OFFSET_SRC + 4);
            let d = frame@.subrange(IP_V4_OFFSET_DST as int, IP_V4_OFFSET_DST + 4);
            assert(src@[0] == s[0] && src@[1] == s[1] && src@[2] == s[2] && src@[3] == s[3]);
            assert(dst@[0] == d[0] && dst@[1] == d[1] && dst@[2] == d[2] && dst@[3] == d[3]);
        }
        Ok(
            IpV4Packet {
                eth,
                length: be16(frame, IP_V4_OFFSET_LENGTH),
                ttl: frame[IP_V4_OFFSET_TTL],
                protocol: frame[IP_V4_OFFSET_PROTOCOL],
                csum: be16(frame, IP_V4_OFFSET_CSUM),
                src,
                dst,
            },
        )
    }

    /// The protocol of the payload.
    pub fn protocol(&self) -> (r: u8)
        ensures
            r == self.protocol,
    {
        self.protocol
    }

    /// The destination address.
    pub fn dst(&self) -> (r: IpV4Addr)
        ensures
            r == self.dst,
    {
        self.dst
    }

    /// The source address.
    pub fn src(&self) -> (r: IpV4Addr)
        ensures
            r == self.src,
    {
        self.src
    }
}

/// The protocol number of `frame`, where `frame` holds an IPv4 header.
pub open spec fn spec_protocol(frame: Seq<u8>) -> u8 {
    frame[IP_V4_OFFSET_PROTOCOL as int]
}

/// The message of the error reported for text that is no IPv4 address.
pub open spec fn invalid_ip_message() -> Seq<char> {
    "Invalid IPv4 address"@
}

/// The first index from `from` on at which `s` holds `sep`, or the length
/// of `s` where it holds none.
pub open spec fn field_end(s: Seq<char>, from: int, sep: char) -> int
    decreases s.len() - from,
{
    if from >= s.len() {
        s.len() as int
    } else if s[from] == sep {
        from
    } else {
        field_end(s, from + 1, sep)
    }
}

/// Finds the end of the field of `s` that starts at `from` and is closed by
/// `sep`.
pub fn find_field_end(s: &[char], from: usize, sep: char) -> (r: usize)
    requires
        from <= s@.len(),
    ensures
        r == field_end(s@, from as int, sep),
        from <= r <= s@.len(),
        r < s@.len() ==> s@[r as int] == sep,
{
    let n = s.len();
    let mut i: usize = from;
    while i < n
        invariant
            from <= i <= n,
            n == s@.len(),
            field_end(s@, i as int, sep) == field_end(s@, from as int, sep),
        decreases n - i,
    {
        if s[i] == sep {
            return i;
        }
        i = i + 1;
    }
    i
}

/// Whether `c` is a decimal digit.
pub open spec fn is_digit(c: char) -> bool {
    '0' <= c <= '9'
}

/// The number that the decimal digits `s` stand for.
pub open spec fn digits_value(s: Seq<char>) -> int
    decreases s.len(),
{
    if s.len() == 0 {
        0
    } else {
        digits_value(s.drop_last()) * 10 + (s.last() as u32 - '0' as u32)
    }
}

/// Whether `s` holds decimal digits only.
pub open spec fn all_digits(s: Seq<char>) -> bool {
    forall|i: int| 0 <= i < s.len() ==> is_digit(#[trigger] s[i])
}

/// The number below 256 that the decimal digits `digits` stand for, where
/// there is at least one digit.
pub open spec fn spec_parse_digits(digits: Seq<char>) -> Option<u8> {
    if digits.len() > 0 && all_digits(digits) && digits_value(digits) <= 255 {
        Some(digits_value(digits) as u8)
    } else {
        None
    }
}

/// The number below 256 that `s` stands for: a plus sign or none, then one
/// decimal digit or more.
pub open spec fn spec_parse_u8(s: Seq<char>) -> Option<u8> {
    if s.len() > 0 && s[0] == '+' {
        spec_parse_digits(s.drop_first())
    } else {
        spec_parse_digits(s)
    }
}

/// The value of decimal digits is not below the value of those that it
/// starts with.
pub proof fn lemma_digits_monotone(s: Seq<char>, k: int)
    requires
        0 <= k <= s.len(),
        forall|i: int| 0 <= i < s.len() ==> is_digit(#[trigger] s[i]),
    ensures
        0 <= digits_value(s.subrange(0, k)) <= digits_value(s),
    decreases s.len() - k,
{
    if k == s.len() {
        assert(s.subrange(0, k) =~= s);
        lemma_digits_nonneg(s);
    } else {
        lemma_digits_monotone(s, k + 1);
        let t = s.subrange(0, k + 1);
        assert(t.drop_last() =~= s.subrange(0, k));
        lemma_digits_nonneg(s.subrange(0, k));
    }
}

/// The value of decimal digits is not negative.
pub proof fn lemma_digits_nonneg(s: Seq<char>)
    requires
        forall|i: int| 0 <= i < s.len() ==> is_digit(#[trigger] s[i]),
    ensures
        0 <= digits_value(s),
    decreases s.len(),
{
    if s.len() > 0 {
        lemma_digits_nonneg(s.drop_last());
    }
}

/// Reads the number below 256 in the characters of `s` from `from` up to
/// `to`.
pub fn parse_u8(s: &[char], from: usize, to: usize) -> (r: Option<u8>)
    requires
        from <= to <= s@.len(),
    ensures
        r == spec_parse_u8(s@.subrange(from as int, to as int)),
{
    let ghost field = s@.subrange(from as int, to as int);
    let start: usize = if from < to && s[from] == '+' {
        from + 1
    } else {
        from
    };
    let ghost digits = s@.subrange(start as int, to as int);
    assert(digits =~= (if field.len() > 0 && field[0] == '+' {
        field.drop_first()
    } else {
        field
    }));
    assert(spec_parse_u8(field) == spec_parse_digits(digits));
    if start == to {
        return None;
    }
    let mut v: u32 = 0;
    let mut i: usize = start;
    while i < to
        invariant
            from <= start <= i <= to,
            to <= s@.len(),
            digits == s@.subrange(start as int, to as int),
            field == s@.subrange(from as int, to as int),
            spec_parse_u8(field) == spec_parse_digits(digits),
            forall|k: int| 0 <= k < i - start ==> is_digit(#[trigger] digits[k]),
            v == digits_value(digits.subrange(0, i - start)),
            v <= 255,
        decreases to - i,
    {
        let c = s[i];
        assert(digits[i - start] == c);
        if !('0' <= c && c <= '9') {
            proof {
                assert(!is_digit(digits[i - start]));
                assert(!all_digits(digits));
            }
            return None;
        }
        let d: u32 = c as u32 - '0' as u32;
        proof {
            let t = digits.subrange(0, i - start + 1);
            assert(t.drop_last() =~= digits.subrange(0, i - start));
            assert(t.last() == c);
        }
        v = v * 10 + d;
        assert(v == digits_value(digits.subrange(0, i - start + 1)));
        if v > 255 {
            proof {
                if all_digits(digits) {
                    lemma_digits_monotone(digits, i - start + 1);
                }
            }
            return None;
        }
        i = i + 1;
    }
    assert(digits.subrange(0, to - start) =~= digits);
    Some(v as u8)
}

/// The address that the dotted text `s` stands for: four numbers below
/// 256 with a dot between each two.
pub open spec fn spec_parse_ip(s: Seq<char>) -> Option<IpV4Addr> {
    let e0 = field_end(s, 0, '.');
    let e1 = field_end(s, e0 + 1, '.');
    let e2 = field_end(s, e1 + 1, '.');
    let e3 = field_end(s, e2 + 1, '.');
    if e0 < s.len() && e1 < s.len() && e2 < s.len() && e3 == s.len() {
        let p0 = spec_parse_u8(s.subrange(0, e0));
        let p1 = spec_parse_u8(s.subrange(e0 + 1, e1));
        let p2 = spec_parse_u8(s.subrange(e1 + 1, e2));
        let p3 = spec_parse_u8(s.subrange(e2 + 1, e3));
        if p0 is Some && p1 is Some && p2 is Some && p3 is Some {
            Some(IpV4Addr { b0: p0->0, b1: p1->0, b2: p2->0, b3: p3->0 })
        } else {
            None
        }
    } else {
        None
    }
}

impl IpV4Addr {
    /// Reads an address from its dotted text.
    pub fn from_chars(s: &[char]) -> (r: Result<IpV4Addr, Error>)
        ensures
            match spec_parse_ip(s@) {
                Some(a) => r == Ok::<IpV4Addr, Error>(a),
                None => r matches Err(Error::Failed(m)) && m@ == invalid_ip_message(),
            },
    {
        let n = s.len();
        let e0 = find_field_end(s, 0, '.');
        if e0 >= n {
            return Err(Error::Failed("Invalid IPv4 address"));
        }
        let e1 = find_field_end(s, e0 + 1, '.');
        if e1 >= n {
            return Err(Error::Failed("Invalid IPv4 address"));
        }
        let e2 = find_field_end(s, e1 + 1, '.');
        if e2 >= n {
            return Err(Error::Failed("Invalid IPv4 address"));
        }
        let e3 = find_field_end(s, e2 + 1, '.');
        if e3 != n {
            return Err(Error::Failed("Invalid IPv4 address"));
        }
        match (parse_u8(s, 0, e0), parse_u8(s, e0 + 1, e1), parse_u8(s, e1 + 1, e2), parse_u8(
            s,
            e2 + 1,
            e3,
        )) {
            (Some(b0), Some(b1), Some(b2), Some(b3)) => Ok(IpV4Addr { b0, b1, b2, b3 }),
            _ => Err(Error::Failed("Invalid IPv4 address")),
        }
    }
}

} // verus!
