use vstd::prelude::*;

verus! {

/// The message of the error reported for a frame shorter than its header.
pub open spec fn too_short_message() -> Seq<char> {
    "data is too short"@
}

/// The big-endian 16-bit number at offset `off` of `s`.
pub open spec fn spec_be16(s: Seq<u8>, off: int) -> int {
    s[off] as int * 256 + s[off + 1] as int
}

/// The big-endian 32-bit number at offset `off` of `s`.
pub open spec fn spec_be32(s: Seq<u8>, off: int) -> int {
    s[off] as int * 16777216 + s[off + 1] as int * 65536 + s[off + 2] as int * 256 + s[off
        + 3] as int
}

/// The byte at offset `off` of `s`.
pub open spec fn spec_u8_at(s: Seq<u8>, off: usize) -> u8 {
    s[off as int]
}

/// The big-endian 16-bit number at offset `off` of `s`, as a `u16`.
pub open spec fn spec_u16_at(s: Seq<u8>, off: usize) -> u16 {
    spec_be16(s, off as int) as u16
}

/// Reads the big-endian 16-bit number at offset `off`.
pub fn be16(data: &[u8], off: usize) -> (r: u16)
    requires
        off + 2 <= data@.len(),
    ensures
        r == spec_be16(data@, off as int),
{
    let hi: u16 = data[off] as u16;
    let lo: u16 = data[off + 1] as u16;
    hi * 256 + lo
}

/// Reads the big-endian 32-bit number at offset `off`.
pub fn be32(data: &[u8], off: usize) -> (r: u32)
    requires
        off + 4 <= data@.len(),
    ensures
        r == spec_be32(data@, off as int),
{
    let b0: u32 = data[off] as u32;
    let b1: u32 = data[off + 1] as u32;
    let b2: u32 = data[off + 2] as u32;
    let b3: u32 = data[off + 3] as u32;
    b0 * 16777216 + b1 * 65536 + b2 * 256 + b3
}

/// The two bytes of `v`, most significant first.
pub open spec fn spec_be16_bytes(v: u16) -> Seq<u8> {
    seq![(v / 256) as u8, (v % 256) as u8]
}

/// Appends the two bytes of `v`, most significant first.
pub fn push_be16(out: &mut Vec<u8>, v: u16)
    ensures
        final(out)@ == old(out)@ + spec_be16_bytes(v),
{
    out.push((v / 256) as u8);
    out.push((v % 256) as u8);
    assert(out@ =~= old(out)@ + spec_be16_bytes(v));
}

/// Appends `n` zero bytes.
pub fn push_zeros(out: &mut Vec<u8>, n: usize)
    ensures
        final(out)@ == old(out)@ + Seq::new(n as nat, |i: int| 0u8),
{
    let mut i: usize = 0;
    while i < n
        invariant
            i <= n,
            out@ == old(out)@ + Seq::new(i as nat, |j: int| 0u8),
        decreases n - i,
    {
        out.push(0);
        i = i + 1;
        assert(out@ =~= old(out)@ + Seq::new(i as nat, |j: int| 0u8));
    }
}

/// Appends the bytes of `src`.
pub fn push_all(out: &mut Vec<u8>, src: &[u8])
    ensures
        final(out)@ == old(out)@ + src@,
{
    let mut i: usize = 0;
    while i < src.len()
        invariant
            i <= src@.len(),
            out@ == old(out)@ + src@.subrange(0, i as int),
        decreases src@.len() - i,
    {
        out.push(src[i]);
        i = i + 1;
        assert(out@ =~= old(out)@ + src@.subrange(0, i as int));
    }
    assert(src@.subrange(0, src@.len() as int) =~= src@);
}

} // verus!
