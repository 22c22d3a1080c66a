use vstd::prelude::*;
use crate::identity::Pubkey;

verus! {

/// The first eight bytes of a reference, read as a little-endian number.
pub open spec fn leading_word(bytes: Seq<u8>) -> int
    recommends
        bytes.len() >= 8,
{
    bytes[0] + bytes[1] * 0x100 + bytes[2] * 0x1_0000 + bytes[3] * 0x100_0000 + bytes[4]
        * 0x1_0000_0000 + bytes[5] * 0x100_0000_0000 + bytes[6] * 0x1_0000_0000_0000 + bytes[7]
        * 0x100_0000_0000_0000
}

/// What an issuance unit's reference gives to an identifier: its leading word
/// without the lowest 16 bits, cut to 40 bits.
pub open spec fn unit_term(unit: Seq<u8>) -> int
    recommends
        unit.len() >= 8,
{
    (leading_word(unit) / 0x1_0000) % 0x100_0000_0000
}

/// What the chain height gives to an identifier: its low 32 bits, moved into
/// the high half of the 64-bit word.
pub open spec fn height_term(height: u64) -> int {
    (height % 0x1_0000_0000) * 0x1_0000_0000
}

/// The identifier of an asset minted on unit `unit` at height `height` while
/// the program's counter stood at `counter`: the sum of the three terms. The
/// terms overlap, so this is a sum and no bitwise union.
pub open spec fn token_id_sum(unit: Seq<u8>, height: u64, counter: u64) -> int
    recommends
        unit.len() >= 8,
{
    unit_term(unit) + height_term(height) + counter
}

/// The leading word of an identity.
pub fn leading_word_of(key: &Pubkey) -> (w: u64)
    ensures
        w == leading_word(key@),
{
    let b = &key.bytes;
    let w0: u64 = b[0] as u64;
    let w1: u64 = b[1] as u64;
    let w2: u64 = b[2] as u64;
    let w3: u64 = b[3] as u64;
    let w4: u64 = b[4] as u64;
    let w5: u64 = b[5] as u64;
    let w6: u64 = b[6] as u64;
    let w7: u64 = b[7] as u64;
    w0 + w1 * 0x100 + w2 * 0x1_0000 + w3 * 0x100_0000 + w4 * 0x1_0000_0000 + w5 * 0x100_0000_0000
        + w6 * 0x1_0000_0000_0000 + w7 * 0x100_0000_0000_0000
}

/// Computes the identifier for a mint. `None` exactly when the sum of the
/// three terms does not fit in 64 bits; no identifier is issued then.
pub fn generate_token_id(unit: &Pubkey, height: u64, counter: u64) -> (id: Option<u64>)
    ensures
        id is Some <==> token_id_sum(unit@, height, counter) <= u64::MAX,
        id is Some ==> id->0 == token_id_sum(unit@, height, counter),
{
    let word: u64 = leading_word_of(unit);
    let low: u64 = (word >> 16) & 0x0000_00FF_FFFF_FFFF;
    let high: u64 = height << 32;
    assert(low == (word / 0x1_0000) % 0x100_0000_0000) by (bit_vector)
        requires
            low == (word >> 16) & 0x0000_00FF_FFFF_FFFF,
    ;
    assert(high == (height % 0x1_0000_0000) * 0x1_0000_0000) by (bit_vector)
        requires
            high == height << 32,
    ;
    match low.checked_add(high) {
        Some(partial) => partial.checked_add(counter),
        None => None,
    }
}

/// Two mints on the same unit reference at the same height get different
/// identifiers when the counter differs.
pub proof fn lemma_counter_separates_ids(unit: Seq<u8>, height: u64, c1: u64, c2: u64)
    requires
        c1 != c2,
    ensures
        token_id_sum(unit, height, c1) != token_id_sum(unit, height, c2),
{
}

} // verus!
