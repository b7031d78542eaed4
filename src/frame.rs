use crate::crc::{crc8, crc8_of, lemma_crc8_detects_byte_change};
use vstd::prelude::*;

verus! {

/// High byte of a word.
pub open spec fn msb(w: u16) -> u8 {
    (w / 256) as u8
}

/// Low byte of a word.
pub open spec fn lsb(w: u16) -> u8 {
    (w % 256) as u8
}

/// A word as two bytes, most significant first.
pub open spec fn be_bytes(w: u16) -> Seq<u8> {
    seq![msb(w), lsb(w)]
}

/// The word whose big-endian bytes are `hi`, `lo`.
pub open spec fn be_word(hi: u8, lo: u8) -> u16 {
    (hi * 256 + lo) as u16
}

/// The big-endian word that starts at `data[i]`.
pub open spec fn word_at(data: Seq<u8>, i: int) -> u16 {
    be_word(data[i], data[i + 1])
}

/// Whether the `k`-th 3-byte group of `data` carries the CRC of its two data bytes.
pub open spec fn group_valid(data: Seq<u8>, k: int) -> bool {
    crc8_of(data.subrange(3 * k, 3 * k + 2)) == data[3 * k + 2]
}

/// Whether every 3-byte group of `data` carries the CRC of its two data bytes.
pub open spec fn chunks_valid(data: Seq<u8>) -> bool {
    forall|k: int| 0 <= k < data.len() / 3 ==> #[trigger] group_valid(data, k)
}

/// A data word followed by its checksum, as it travels on the wire.
pub open spec fn checked_word(w: u16) -> Seq<u8> {
    be_bytes(w).push(crc8_of(be_bytes(w)))
}

/// The frame that sends `opcode` with one data word.
pub open spec fn payload(opcode: u16, data: u16) -> Seq<u8> {
    be_bytes(opcode) + checked_word(data)
}

/// A frame that sends an opcode with a data word reads back as what was
/// sent: its first two bytes are the opcode and its next two the data word,
/// both big-endian, and its last byte is the CRC of the data bytes, so the
/// data word and its checksum form a group that passes the chunked check.
pub proof fn lemma_payload_round_trip(opcode: u16, data: u16)
    ensures
        payload(opcode, data).len() == 5,
        word_at(payload(opcode, data), 0) == opcode,
        word_at(payload(opcode, data), 2) == data,
        payload(opcode, data)[4] == crc8_of(payload(opcode, data).subrange(2, 4)),
        chunks_valid(payload(opcode, data).subrange(2, 5)),
{
    let p = payload(opcode, data);
    assert(p.subrange(2, 4) =~= be_bytes(data));
    let g = p.subrange(2, 5);
    assert(g.subrange(0, 2) =~= be_bytes(data));
    assert(group_valid(g, 0));
    assert forall|k: int| 0 <= k < g.len() / 3 implies #[trigger] group_valid(g, k) by {
        assert(k == 0);
    }
}

/// A buffer that passes the chunked check fails it once any single byte of
/// it is changed, a data byte or a checksum byte.
pub proof fn lemma_tampered_byte_fails(data: Seq<u8>, i: int, b: u8)
    requires
        chunks_valid(data),
        data.len() % 3 == 0,
        0 <= i < data.len(),
        b != data[i],
    ensures
        !chunks_valid(data.update(i, b)),
{
    let t = data.update(i, b);
    let k = i / 3;
    assert(0 <= k < data.len() / 3);
    assert(group_valid(data, k));
    if i % 3 == 2 {
        assert(t.subrange(3 * k, 3 * k + 2) =~= data.subrange(3 * k, 3 * k + 2));
    } else {
        let w = data.subrange(3 * k, 3 * k + 2);
        assert(t.subrange(3 * k, 3 * k + 2) =~= w.update(i - 3 * k, b));
        lemma_crc8_detects_byte_change(w, i - 3 * k, b);
    }
    assert(!group_valid(t, k));
}

/// The two bytes of `w`, most significant first.
pub fn to_be_bytes(w: u16) -> (r: [u8; 2])
    ensures
        r@ == be_bytes(w),
{
    let r = [(w / 256) as u8, (w % 256) as u8];
    assert(r@ =~= be_bytes(w));
    r
}

/// The word whose big-endian bytes are `hi`, `lo`.
pub fn from_be_bytes(hi: u8, lo: u8) -> (r: u16)
    ensures
        r == be_word(hi, lo),
{
    hi as u16 * 256 + lo as u16
}

/// The data word of a 3-byte response.
pub fn decode_word(buf: [u8; 3]) -> (r: u16)
    ensures
        r == word_at(buf@, 0),
{
    from_be_bytes(buf[0], buf[1])
}

/// Whether a status word reports a feature as enabled (any non-zero value).
pub fn decode_enabled(buf: [u8; 3]) -> (r: bool)
    ensures
        r == (word_at(buf@, 0) != 0),
{
    from_be_bytes(buf[0], buf[1]) != 0
}

/// Checks the length of a read buffer: responses come in groups of two data
/// bytes and one checksum, so every buffer that is read holds whole groups.
/// The check is made when the caller is verified.
pub fn assert_chunked_with_len3(buf: &[u8])
    requires
        buf@.len() % 3 == 0,
{
}

/// Whether every 3-byte group of `data` carries the CRC of its first two bytes.
pub fn crc8_verify_chunked_3(data: &[u8]) -> (r: bool)
    requires
        data@.len() % 3 == 0,
    ensures
        r == chunks_valid(data@),
{
    let mut i: usize = 0;
    while i < data.len()
        invariant
            data@.len() % 3 == 0,
            i <= data@.len(),
            i % 3 == 0,
            forall|k: int| 0 <= k < i / 3 ==> #[trigger] group_valid(data@, k),
        decreases data@.len() - i,
    {
        let pair = [data[i], data[i + 1]];
        assert(pair@ =~= data@.subrange(i as int, i + 2));
        if crc8(&pair) != data[i + 2] {
            assert(!group_valid(data@, i as int / 3));
            return false;
        }
        assert(group_valid(data@, i as int / 3));
        i += 3;
    }
    true
}

/// The 5-byte frame that sends `opcode` with the data word `data`: the opcode
/// and the word, both big-endian, and the CRC of the word's two bytes.
pub fn opcode_with_data_into_payload(opcode: u16, data: u16) -> (r: [u8; 5])
    ensures
        r@ == payload(opcode, data),
{
    let c = to_be_bytes(opcode);
    let d = to_be_bytes(data);
    let sum = crc8(&d);
    let r = [c[0], c[1], d[0], d[1], sum];
    assert(r@ =~= payload(opcode, data));
    r
}

} // verus!
