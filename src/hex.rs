use vstd::prelude::*;

verus! {

/// ASCII `'0'`.
pub const DIGIT_ZERO: u8 = 48;

/// ASCII `'a'`.
pub const LETTER_A: u8 = 97;

/// The lowercase hexadecimal digit of a value below 16 (`'0'` otherwise).
pub open spec fn hex_digit(v: u8) -> u8 {
    if v < 10 {
        (DIGIT_ZERO + v) as u8
    } else if v < 16 {
        (LETTER_A + (v - 10)) as u8
    } else {
        DIGIT_ZERO
    }
}

/// Canonical lowercase hex of a byte string: two digits per byte, high
/// nibble first.
pub open spec fn hex_of(bytes: Seq<u8>) -> Seq<u8>
    decreases bytes.len(),
{
    if bytes.len() == 0 {
        seq![]
    } else {
        let last = bytes.last();
        hex_of(bytes.drop_last()) + seq![hex_digit(last / 16), hex_digit(last % 16)]
    }
}

/// The ASCII decimal digits of a natural number, without leading zeros.
pub open spec fn decimal_of(n: nat) -> Seq<u8>
    decreases n,
{
    if n < 10 {
        seq![(DIGIT_ZERO + n) as u8]
    } else {
        decimal_of(n / 10).push((DIGIT_ZERO + n % 10) as u8)
    }
}

/// Converts a nibble to its lowercase hex digit.
pub fn hex_char(val: u8) -> (r: u8)
    ensures
        r == hex_digit(val),
{
    if val < 10 {
        DIGIT_ZERO + val
    } else if val < 16 {
        LETTER_A + (val - 10)
    } else {
        DIGIT_ZERO
    }
}

/// Appends the canonical hex of `bytes` to `out`.
pub fn push_hex(out: &mut Vec<u8>, bytes: &[u8])
    ensures
        final(out)@ == old(out)@ + hex_of(bytes@),
{
    let mut i: usize = 0;
    while i < bytes.len()
        invariant
            i <= bytes@.len(),
            out@ == old(out)@ + hex_of(bytes@.subrange(0, i as int)),
        decreases bytes@.len() - i,
    {
        let byte = bytes[i];
        let high = byte >> 4;
        let low = byte & 0x0f;
        assert(high == byte / 16 && low == byte % 16) by (bit_vector)
            requires
                high == byte >> 4u8,
                low == byte & 0x0fu8,
        ;
        out.push(hex_char(high));
        out.push(hex_char(low));
        proof {
            let done = bytes@.subrange(0, i + 1);
            assert(done.drop_last() =~= bytes@.subrange(0, i as int));
            assert(done.last() == byte);
            assert(out@ =~= old(out)@ + hex_of(done));
        }
        i = i + 1;
    }
    assert(bytes@.subrange(0, bytes@.len() as int) =~= bytes@);
}

/// Appends the decimal digits of `n` to `out`.
pub fn push_decimal(out: &mut Vec<u8>, n: u64)
    ensures
        final(out)@ == old(out)@ + decimal_of(n as nat),
    decreases n,
{
    if n >= 10 {
        push_decimal(out, n / 10);
    }
    out.push(DIGIT_ZERO + (n % 10) as u8);
    assert(out@ =~= old(out)@ + decimal_of(n as nat));
}

} // verus!
