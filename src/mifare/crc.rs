//! CRC-8/MAD: polynomial 0x1D, initial value 0xC7, most significant bit first.
use vstd::prelude::*;

verus! {

/// The CRC-8/MAD generator polynomial, without its x^8 term.
pub const POLYNOMIAL: u8 = 0x1D;

/// The initial value of the CRC-8/MAD accumulator.
pub const INIT_VALUE: u8 = 0xC7;

/// One shift of the accumulator, folding the polynomial in when the top bit falls out.
pub open spec fn lfsr_shift(c: u8) -> u8 {
    if c & 0x80 != 0 {
        ((c << 1u8) ^ 0x1Du8) as u8
    } else {
        (c << 1u8) as u8
    }
}

/// `n` shifts of the accumulator.
pub open spec fn lfsr_shifts(c: u8, n: nat) -> u8
    decreases n,
{
    if n == 0 {
        c
    } else {
        lfsr_shift(lfsr_shifts(c, (n - 1) as nat))
    }
}

/// The accumulator after taking in one more byte.
pub open spec fn crc8_step(crc: u8, byte: u8) -> u8 {
    lfsr_shifts(crc ^ byte, 8)
}

/// CRC-8/MAD of `data`.
pub open spec fn crc8_spec(data: Seq<u8>) -> u8
    decreases data.len(),
{
    if data.len() == 0 {
        INIT_VALUE
    } else {
        crc8_step(crc8_spec(data.drop_last()), data.last())
    }
}

/// CRC-8/MAD of `data`.
pub fn crc8(data: &[u8]) -> (r: u8)
    ensures
        r == crc8_spec(data@),
{
    let mut crc: u8 = INIT_VALUE;
    let mut i: usize = 0;
    while i < data.len()
        invariant
            i <= data@.len(),
            crc == crc8_spec(data@.subrange(0, i as int)),
        decreases data@.len() - i,
    {
        let mixed: u8 = crc ^ data[i];
        crc = mixed;
        let mut j: u8 = 0;
        while j < 8
            invariant
                j <= 8,
                crc == lfsr_shifts(mixed, j as nat),
            decreases 8 - j,
        {
            crc = if crc & 0x80 != 0 {
                (crc << 1u8) ^ POLYNOMIAL
            } else {
                crc << 1u8
            };
            j += 1;
        }
        assert(data@.subrange(0, i + 1).drop_last() =~= data@.subrange(0, i as int));
        i += 1;
    }
    assert(data@.subrange(0, data@.len() as int) =~= data@);
    crc
}

/// No two accumulator values shift to the same value.
proof fn lemma_lfsr_shift_injective(a: u8, b: u8)
    ensures
        lfsr_shift(a) == lfsr_shift(b) ==> a == b,
{
    assert(((if a & 0x80 != 0 {
        ((a << 1u8) ^ 0x1Du8) as u8
    } else {
        (a << 1u8) as u8
    }) == (if b & 0x80 != 0 {
        ((b << 1u8) ^ 0x1Du8) as u8
    } else {
        (b << 1u8) as u8
    })) ==> a == b) by (bit_vector);
}

proof fn lemma_lfsr_shifts_injective(a: u8, b: u8, n: nat)
    ensures
        lfsr_shifts(a, n) == lfsr_shifts(b, n) ==> a == b,
    decreases n,
{
    if n > 0 {
        lemma_lfsr_shifts_injective(a, b, (n - 1) as nat);
        lemma_lfsr_shift_injective(lfsr_shifts(a, (n - 1) as nat), lfsr_shifts(b, (n - 1) as nat));
    }
}

/// For a fixed byte, distinct accumulators stay distinct; for a fixed accumulator, distinct
/// bytes give distinct accumulators.
proof fn lemma_crc8_step_injective(c1: u8, c2: u8, b1: u8, b2: u8)
    ensures
        crc8_step(c1, b1) == crc8_step(c2, b2) ==> (c1 == c2 <==> b1 == b2),
{
    lemma_lfsr_shifts_injective(c1 ^ b1, c2 ^ b2, 8);
    assert((c1 ^ b1) == (c2 ^ b2) ==> (c1 == c2 <==> b1 == b2)) by (bit_vector);
}

/// Changing any one byte of the data changes its CRC-8/MAD.
pub proof fn lemma_crc8_detects_byte_change(data: Seq<u8>, i: int, b: u8)
    requires
        0 <= i < data.len(),
        b != data[i],
    ensures
        crc8_spec(data.update(i, b)) != crc8_spec(data),
    decreases data.len(),
{
    let changed = data.update(i, b);
    let n = data.len() - 1;
    if i == n {
        assert(changed.drop_last() =~= data.drop_last());
        lemma_crc8_step_injective(
            crc8_spec(data.drop_last()),
            crc8_spec(data.drop_last()),
            data.last(),
            b,
        );
    } else {
        assert(changed.drop_last() =~= data.drop_last().update(i, b));
        lemma_crc8_detects_byte_change(data.drop_last(), i, b);
        lemma_crc8_step_injective(
            crc8_spec(data.drop_last()),
            crc8_spec(changed.drop_last()),
            data.last(),
            changed.last(),
        );
    }
}

/// Flipping any single bit of the data changes its CRC-8/MAD.
pub proof fn lemma_crc8_detects_bit_flip(data: Seq<u8>, i: int, bit: u8)
    requires
        0 <= i < data.len(),
        bit < 8,
    ensures
        crc8_spec(data.update(i, data[i] ^ (1u8 << bit))) != crc8_spec(data),
{
    let x = data[i];
    assert(bit < 8 ==> x ^ (1u8 << bit) != x) by (bit_vector);
    lemma_crc8_detects_byte_change(data, i, (x ^ (1u8 << bit)) as u8);
}

} // verus!
