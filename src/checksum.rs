use vstd::prelude::*;

verus! {

/// Low eight bits of the generator polynomial x^8 + x^5 + x^4 + 1 (0x131).
pub const CHECKSUM_POLYNOMIAL: u8 = 0x31;

/// One bit step of the CRC: shift left in eight bits, folding in the
/// polynomial when the bit shifted out was set.
pub open spec fn crc_shift(x: u8) -> u8 {
    if x & 0x80u8 != 0 {
        ((x << 1u8) as u8 ^ CHECKSUM_POLYNOMIAL) as u8
    } else {
        (x << 1u8) as u8
    }
}

/// `n` bit steps applied to `x`.
pub open spec fn crc_bits(x: u8, n: nat) -> u8
    decreases n,
{
    if n == 0 {
        x
    } else {
        crc_shift(crc_bits(x, (n - 1) as nat))
    }
}

/// The accumulator after one more byte.
pub open spec fn crc_byte(acc: u8, b: u8) -> u8 {
    crc_bits(acc ^ b, 8)
}

/// The CRC-8 of `data`, accumulator starting at zero.
pub open spec fn crc8(data: Seq<u8>) -> u8
    decreases data.len(),
{
    if data.len() == 0 {
        0
    } else {
        crc_byte(crc8(data.drop_last()), data.last())
    }
}

/// The checksum is a function of the bytes alone: equal inputs give equal codes.
pub proof fn lemma_checksum_deterministic(a: Seq<u8>, b: Seq<u8>)
    requires
        a == b,
    ensures
        crc8(a) == crc8(b),
{
}

/// The CRC-8 of `data`, computed in eight-bit arithmetic.
pub fn crc8_of(data: &[u8]) -> (r: u8)
    ensures
        r == crc8(data@),
{
    let mut checksum: u8 = 0x00;
    let mut i: usize = 0;
    while i < data.len()
        invariant
            i <= data@.len(),
            checksum == crc8(data@.subrange(0, i as int)),
        decreases data@.len() - i,
    {
        let start: u8 = checksum ^ data[i];
        checksum = start;
        let mut bit: u8 = 0;
        while bit < 8
            invariant
                bit <= 8,
                checksum == crc_bits(start, bit as nat),
            decreases 8 - bit,
        {
            if checksum & 0x80 != 0 {
                checksum = (checksum << 1u8) ^ CHECKSUM_POLYNOMIAL;
            } else {
                checksum = checksum << 1u8;
            }
            bit = bit + 1;
        }
        proof {
            let next = data@.subrange(0, i as int + 1);
            assert(next.drop_last() =~= data@.subrange(0, i as int));
        }
        i = i + 1;
    }
    assert(data@.subrange(0, data@.len() as int) =~= data@);
    checksum
}

} // verus!
