use vstd::prelude::*;

verus! {

/// The sum of the 16-bit big-endian words of `data`; an odd last byte counts
/// as the high byte of a word whose low byte is zero.
pub open spec fn word_sum(data: Seq<u8>) -> nat
    decreases data.len(),
{
    if data.len() == 0 {
        0
    } else if data.len() == 1 {
        data[0] as nat * 256
    } else {
        data[0] as nat * 256 + data[1] as nat + word_sum(data.subrange(2, data.len() as int))
    }
}

/// The one's-complement sum of the 16-bit digits of `n`: the residue of `n`
/// modulo 65535, with 65535 in place of zero for a positive `n`.
pub open spec fn ones_complement_sum(n: nat) -> nat {
    if n == 0 {
        0
    } else {
        ((n - 1) % 65535 + 1) as nat
    }
}

/// `n` with every carry out of the low sixteen bits added back in, again
/// and again until none is left.
pub open spec fn fold16(n: nat) -> nat
    decreases n,
{
    if n < 65536 {
        n
    } else {
        fold16(n / 65536 + n % 65536)
    }
}

/// The Internet checksum of `data`: the complement of the one's-complement
/// sum of its words.
pub open spec fn spec_checksum(data: Seq<u8>) -> u16 {
    (65535 - ones_complement_sum(word_sum(data))) as u16
}

/// Folding leaves a number that fits sixteen bits.
pub proof fn lemma_fold16_bound(n: nat)
    ensures
        fold16(n) < 65536,
    decreases n,
{
    if n >= 65536 {
        lemma_fold16_bound(n / 65536 + n % 65536);
    }
}

/// Adding the carries back in until none is left gives the
/// one's-complement sum.
pub proof fn lemma_fold16_residue(n: nat)
    ensures
        fold16(n) == ones_complement_sum(n),
    decreases n,
{
    if n == 0 {
    } else if n >= 65536 {
        let q = n / 65536;
        let r = n % 65536;
        let m = q + r;
        assert(n == 65536 * q + r) by (nonlinear_arith)
            requires
                q == n / 65536,
                r == n % 65536,
        ;
        assert(m > 0 && m < n);
        lemma_fold16_residue(m);
        assert((n - 1) % 65535 == (m - 1) % 65535) by (nonlinear_arith)
            requires
                n == 65536 * q + r,
                m == q + r,
                m > 0,
        ;
    } else {
        assert((n - 1) % 65535 == n - 1 || n == 65535 + 1 - 1 && (n - 1) % 65535 == n - 1);
    }
}

/// The Internet checksum of a run of bytes.
#[derive(Clone, Copy, Debug, PartialEq, Eq, Structural)]
pub struct InternetChecksum {
    pub value: u16,
}

impl InternetChecksum {
    /// Computes the checksum of `data`.
    pub fn calc(data: &[u8]) -> (r: InternetChecksum)
        ensures
            r.value == spec_checksum(data@),
    {
        let mut sum: u128 = 0;
        let mut i: usize = 0;
        let n: usize = data.len();
        assert(data@.subrange(0, n as int) =~= data@);
        while n - i >= 2
            invariant
                i <= n,
                n == data@.len(),
                sum + word_sum(data@.subrange(i as int, n as int)) == word_sum(data@),
                sum <= i * 65536,
            decreases n - i,
        {
            let hi: u128 = data[i] as u128;
            let lo: u128 = data[i + 1] as u128;
            proof {
                let rest = data@.subrange(i as int, n as int);
                assert(rest.subrange(2, rest.len() as int) =~= data@.subrange(i + 2, n as int));
            }
            sum = sum + hi * 256 + lo;
            i = i + 2;
        }
        if i < n {
            let hi: u128 = data[i] as u128;
            sum = sum + hi * 256;
        }
        assert(sum == word_sum(data@));
        while sum >= 65536
            invariant
                fold16(sum as nat) == fold16(word_sum(data@)),
            decreases sum,
        {
            sum = sum / 65536 + sum % 65536;
        }
        proof {
            lemma_fold16_bound(word_sum(data@));
            lemma_fold16_residue(word_sum(data@));
        }
        let folded: u16 = sum as u16;
        InternetChecksum { value: 65535 - folded }
    }

    /// The two bytes of the checksum, most significant first.
    pub fn bytes(&self) -> (r: [u8; 2])
        ensures
            r@ == crate::net::wire::spec_be16_bytes(self.value),
    {
        let r = [(self.value / 256) as u8, (self.value % 256) as u8];
        assert(r@ =~= crate::net::wire::spec_be16_bytes(self.value));
        r
    }
}

} // verus!
