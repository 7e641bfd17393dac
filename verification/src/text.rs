use vstd::prelude::*;
use vstd::string::StringExecFns;

verus! {

/// The character for the digit `d`, in upper case for ten to fifteen.
pub open spec fn digit_char(d: int) -> char {
    if d == 0 {
        '0'
    } else if d == 1 {
        '1'
    } else if d == 2 {
        '2'
    } else if d == 3 {
        '3'
    } else if d == 4 {
        '4'
    } else if d == 5 {
        '5'
    } else if d == 6 {
        '6'
    } else if d == 7 {
        '7'
    } else if d == 8 {
        '8'
    } else if d == 9 {
        '9'
    } else if d == 10 {
        'A'
    } else if d == 11 {
        'B'
    } else if d == 12 {
        'C'
    } else if d == 13 {
        'D'
    } else if d == 14 {
        'E'
    } else {
        'F'
    }
}

/// The text of the single digit `d`.
pub fn digit_str(d: u64) -> (r: &'static str)
    requires
        d < 16,
    ensures
        r@ == seq![digit_char(d as int)],
{
    proof {
        reveal_strlit("0");
        reveal_strlit("1");
        reveal_strlit("2");
        reveal_strlit("3");
        reveal_strlit("4");
        reveal_strlit("5");
        reveal_strlit("6");
        reveal_strlit("7");
        reveal_strlit("8");
        reveal_strlit("9");
        reveal_strlit("A");
        reveal_strlit("B");
        reveal_strlit("C");
        reveal_strlit("D");
        reveal_strlit("E");
        reveal_strlit("F");
    }
    let r = if d == 0 {
        "0"
    } else if d == 1 {
        "1"
    } else if d == 2 {
        "2"
    } else if d == 3 {
        "3"
    } else if d == 4 {
        "4"
    } else if d == 5 {
        "5"
    } else if d == 6 {
        "6"
    } else if d == 7 {
        "7"
    } else if d == 8 {
        "8"
    } else if d == 9 {
        "9"
    } else if d == 10 {
        "A"
    } else if d == 11 {
        "B"
    } else if d == 12 {
        "C"
    } else if d == 13 {
        "D"
    } else if d == 14 {
        "E"
    } else {
        "F"
    };
    assert(r@ =~= seq![digit_char(d as int)]);
    r
}

/// The decimal digits of `v`, without leading zeros.
pub open spec fn decimal(v: nat) -> Seq<char>
    decreases v,
{
    if v < 10 {
        seq![digit_char(v as int)]
    } else {
        decimal(v / 10).push(digit_char((v % 10) as int))
    }
}

/// Appends `v` in decimal.
pub fn append_decimal(s: &mut String, v: u64)
    ensures
        final(s)@ == old(s)@ + decimal(v as nat),
    decreases v,
{
    if v >= 10 {
        append_decimal(s, v / 10);
    }
    s.append(digit_str(v % 10));
    assert(s@ =~= old(s)@ + decimal(v as nat));
}

/// The last `digits` hexadecimal digits of `v`, in upper case, with leading
/// zeros.
pub open spec fn hex_fixed(v: nat, digits: nat) -> Seq<char>
    decreases digits,
{
    if digits == 0 {
        Seq::empty()
    } else {
        hex_fixed(v / 16, (digits - 1) as nat).push(digit_char((v % 16) as int))
    }
}

/// Appends the last `digits` hexadecimal digits of `v`.
pub fn append_hex_fixed(s: &mut String, v: u64, digits: u32)
    ensures
        final(s)@ == old(s)@ + hex_fixed(v as nat, digits as nat),
    decreases digits,
{
    if digits > 0 {
        append_hex_fixed(s, v / 16, digits - 1);
        s.append(digit_str(v % 16));
    }
    assert(s@ =~= old(s)@ + hex_fixed(v as nat, digits as nat));
}

/// The hexadecimal digits of `v`, in upper case, without leading zeros.
pub open spec fn hex(v: nat) -> Seq<char>
    decreases v,
{
    if v < 16 {
        seq![digit_char(v as int)]
    } else {
        hex(v / 16).push(digit_char((v % 16) as int))
    }
}

/// Appends `v` in hexadecimal.
pub fn append_hex(s: &mut String, v: u64)
    ensures
        final(s)@ == old(s)@ + hex(v as nat),
    decreases v,
{
    if v >= 16 {
        append_hex(s, v / 16);
    }
    s.append(digit_str(v % 16));
    assert(s@ =~= old(s)@ + hex(v as nat));
}

/// Sixteen to the power `digits`.
pub open spec fn pow16(digits: nat) -> nat
    decreases digits,
{
    if digits == 0 {
        1
    } else {
        16 * pow16((digits - 1) as nat)
    }
}

/// The hexadecimal digits of `v`, in upper case, with leading zeros up to
/// `digits` digits, and with as many digits as `v` needs where those are
/// more.
pub open spec fn hex_padded(v: nat, digits: nat) -> Seq<char> {
    if v < pow16(digits) {
        hex_fixed(v, digits)
    } else {
        hex(v)
    }
}

/// Appends `v` in hexadecimal, with leading zeros up to `digits` digits.
pub fn append_hex_padded(s: &mut String, v: u64, digits: u32)
    requires
        digits <= 16,
    ensures
        final(s)@ == old(s)@ + hex_padded(v as nat, digits as nat),
{
    let mut limit: u128 = 1;
    let mut k: u32 = 0;
    while k < digits
        invariant
            k <= digits <= 16,
            limit == pow16(k as nat),
            limit <= 0x1_0000_0000_0000_0000,
            k < 16 ==> limit <= 0x1000_0000_0000_0000,
        decreases digits - k,
    {
        proof {
            lemma_pow16_bound(k as nat);
            lemma_pow16_bound((k + 1) as nat);
        }
        limit = limit * 16;
        k = k + 1;
    }
    if (v as u128) < limit {
        append_hex_fixed(s, v, digits);
    } else {
        append_hex(s, v);
    }
}

/// Sixteen to a power up to sixteen fits seventeen hexadecimal digits, and
/// to a power below sixteen it fits sixteen.
pub proof fn lemma_pow16_bound(k: nat)
    requires
        k <= 16,
    ensures
        pow16(k) <= 0x1_0000_0000_0000_0000,
        k < 16 ==> pow16(k) <= 0x1000_0000_0000_0000,
    decreases k,
{
    reveal_with_fuel(pow16, 18);
}

} // verus!
