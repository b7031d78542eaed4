use vstd::prelude::*;

verus! {

/// Generator polynomial of the Sensirion CRC-8 (x^8 + x^5 + x^4 + 1).
pub const CRC8_POLY: u8 = 0x31;

/// Value of the CRC register before the first byte.
pub const CRC8_INITIAL: u8 = 0xFF;

/// Most significant bit of a byte.
pub const BYTE_MSB: u8 = 0x80;

/// One shift of the CRC register: shift left, and fold in the polynomial when
/// the bit shifted out was set.
pub open spec fn crc8_shift(crc: u8) -> u8 {
    if crc & BYTE_MSB != 0 {
        ((crc << 1u8) ^ CRC8_POLY) as u8
    } else {
        (crc << 1u8) as u8
    }
}

/// `n` shifts of the CRC register.
pub open spec fn crc8_shifts(crc: u8, n: nat) -> u8
    decreases n,
{
    if n == 0 {
        crc
    } else {
        crc8_shifts(crc8_shift(crc), (n - 1) as nat)
    }
}

/// The register after taking in one more byte.
pub open spec fn crc8_update(crc: u8, byte: u8) -> u8 {
    crc8_shifts(crc ^ byte, 8)
}

/// CRC-8 with polynomial 0x31 and initial value 0xFF, no reflection and no
/// final xor, over a byte sequence.
pub open spec fn crc8_of(data: Seq<u8>) -> u8
    decreases data.len(),
{
    if data.len() == 0 {
        CRC8_INITIAL
    } else {
        crc8_update(crc8_of(data.drop_last()), data.last())
    }
}

/// One shift of the register never maps two values to one: the bit shifted
/// out shows up as the low bit of the result.
proof fn lemma_shift_injective(x: u8, y: u8)
    by (bit_vector)
    requires
        crc8_shift(x) == crc8_shift(y),
    ensures
        x == y,
{
}

proof fn lemma_shifts_injective(x: u8, y: u8, n: nat)
    requires
        crc8_shifts(x, n) == crc8_shifts(y, n),
    ensures
        x == y,
    decreases n,
{
    if n > 0 {
        lemma_shifts_injective(crc8_shift(x), crc8_shift(y), (n - 1) as nat);
        lemma_shift_injective(x, y);
    }
}

proof fn lemma_update_injective(c1: u8, b1: u8, c2: u8, b2: u8)
    requires
        crc8_update(c1, b1) == crc8_update(c2, b2),
    ensures
        c1 ^ b1 == c2 ^ b2,
{
    lemma_shifts_injective(c1 ^ b1, c2 ^ b2, 8);
}

/// The CRC of a byte sequence changes whenever any single byte of it does.
pub proof fn lemma_crc8_detects_byte_change(data: Seq<u8>, i: int, b: u8)
    requires
        0 <= i < data.len(),
        b != data[i],
    ensures
        crc8_of(data.update(i, b)) != crc8_of(data),
    decreases data.len(),
{
    let t = data.update(i, b);
    let n = data.len() - 1;
    if crc8_of(t) == crc8_of(data) {
        let ct = crc8_of(t.drop_last());
        let cd = crc8_of(data.drop_last());
        let bt = t.last();
        let bd = data.last();
        lemma_update_injective(ct, bt, cd, bd);
        if i == n {
            assert(t.drop_last() =~= data.drop_last());
            assert(ct ^ bt != cd ^ bd) by (bit_vector)
                requires
                    ct == cd,
                    bt != bd,
            ;
        } else {
            assert(t.drop_last() =~= data.drop_last().update(i, b));
            lemma_crc8_detects_byte_change(data.drop_last(), i, b);
            assert(ct ^ bt != cd ^ bd) by (bit_vector)
                requires
                    ct != cd,
                    bt == bd,
            ;
        }
    }
}

/// Computes the CRC-8 of `data`.
pub fn crc8(data: &[u8]) -> (r: u8)
    ensures
        r == crc8_of(data@),
{
    let mut crc: u8 = CRC8_INITIAL;
    let mut idx: usize = 0;
    while idx < data.len()
        invariant
            idx <= data@.len(),
            crc == crc8_of(data@.subrange(0, idx as int)),
        decreases data@.len() - idx,
    {
        let ghost target = crc8_update(crc, data@[idx as int]);
        crc = crc ^ data[idx];
        idx += 1;

        let mut bit: u8 = 0;
        while bit < 8
            invariant
                bit <= 8,
                crc8_shifts(crc, (8 - bit) as nat) == target,
            decreases 8 - bit,
        {
            bit += 1;
            let msb = crc & BYTE_MSB;
            crc = crc << 1u8;
            if msb != 0 {
                crc = crc ^ CRC8_POLY;
            }
        }
        assert(data@.subrange(0, idx as int).drop_last() == data@.subrange(0, idx - 1));
    }
    assert(data@.subrange(0, data@.len() as int) == data@);
    crc
}

} // verus!
