use vstd::prelude::*;

verus! {

/// XOR of all payload bytes, widened to 16 bits. The empty payload folds to 0.
pub open spec fn xor16(payload: Seq<u8>) -> u16
    decreases payload.len(),
{
    if payload.len() == 0 {
        0u16
    } else {
        xor16(payload.drop_last()) ^ (payload.last() as u16)
    }
}

/// The signed reading of a 16-bit pattern (two's complement).
pub open spec fn signed16(x: u16) -> i16 {
    if x < 0x8000 {
        x as i16
    } else {
        (x - 0x1_0000) as i16
    }
}

/// The unsigned reading of a 16-bit pattern (two's complement).
pub open spec fn unsigned16(x: i16) -> u16 {
    if x >= 0 {
        x as u16
    } else {
        (x + 0x1_0000) as u16
    }
}

/// What `Checksum::check` decides: the stored 16-bit pattern is the XOR of the payload.
pub open spec fn checksum_matches(checksum: i16, payload: Seq<u8>) -> bool {
    checksum == signed16(xor16(payload))
}

/// Reinterprets an unsigned 16-bit pattern as signed.
pub fn to_signed16(x: u16) -> (r: i16)
    ensures
        r == signed16(x),
        unsigned16(r) == x,
{
    if x < 0x8000 {
        x as i16
    } else {
        ((x - 0x8000) as i16) + i16::MIN
    }
}

/// Reinterprets a signed 16-bit pattern as unsigned.
pub fn to_unsigned16(x: i16) -> (r: u16)
    ensures
        r == unsigned16(x),
        signed16(r) == x,
{
    if x >= 0 {
        x as u16
    } else {
        ((x - i16::MIN) as u16) + 0x8000
    }
}

/// A checksum utility for validating payload integrity using XOR.
pub struct Checksum;

impl Checksum {
    /// Computes the 16-bit XOR checksum of `payload`.
    pub fn new(payload: &[u8]) -> (checksum: u16)
        ensures
            checksum == xor16(payload@),
    {
        let mut checksum: u16 = 0;
        let mut i: usize = 0;
        while i < payload.len()
            invariant
                0 <= i <= payload.len(),
                checksum == xor16(payload@.subrange(0, i as int)),
            decreases payload.len() - i,
        {
            proof {
                let next = payload@.subrange(0, i + 1);
                assert(next.drop_last() =~= payload@.subrange(0, i as int));
                assert(next.last() == payload@[i as int]);
            }
            checksum = checksum ^ (payload[i] as u16);
            i = i + 1;
        }
        proof {
            assert(payload@.subrange(0, i as int) =~= payload@);
        }
        checksum
    }

    /// Tells whether `checksum`, read as a 16-bit pattern, is the checksum of `payload`.
    pub fn check(checksum: &i16, payload: &[u8]) -> (ok: bool)
        ensures
            ok == checksum_matches(*checksum, payload@),
    {
        let computed = Checksum::new(payload);
        *checksum == to_signed16(computed)
    }
}

/// Replacing one byte of a payload changes its checksum by the XOR of the old
/// byte and the new one.
pub proof fn lemma_xor16_update(payload: Seq<u8>, i: int, b: u8)
    requires
        0 <= i < payload.len(),
    ensures
        xor16(payload.update(i, b)) == xor16(payload) ^ ((payload[i] as u16) ^ (b as u16)),
    decreases payload.len(),
{
    let changed = payload.update(i, b);
    let a = xor16(payload.drop_last());
    if i == payload.len() - 1 {
        assert(changed.drop_last() =~= payload.drop_last());
        let x = payload[i];
        assert((a ^ (b as u16)) == (a ^ (x as u16)) ^ ((x as u16) ^ (b as u16))) by (bit_vector);
    } else {
        assert(changed.drop_last() =~= payload.drop_last().update(i, b));
        lemma_xor16_update(payload.drop_last(), i, b);
        let x = payload[i];
        let l = payload.last();
        assert(((a ^ ((x as u16) ^ (b as u16))) ^ (l as u16)) == (a ^ (l as u16)) ^ ((x as u16) ^ (
        b as u16))) by (bit_vector);
    }
}

/// Flipping any single bit of a payload whose checksum matched makes the
/// check fail.
pub proof fn lemma_payload_bit_flip_is_detected(checksum: i16, payload: Seq<u8>, i: int, bit: u8)
    requires
        checksum_matches(checksum, payload),
        0 <= i < payload.len(),
        bit < 8,
    ensures
        !checksum_matches(checksum, payload.update(i, payload[i] ^ (1u8 << bit))),
{
    let x = payload[i];
    let y = x ^ (1u8 << bit);
    let c = xor16(payload);
    lemma_xor16_update(payload, i, y);
    assert(bit < 8 ==> (c ^ ((x as u16) ^ ((x ^ (1u8 << bit)) as u16))) != c) by (bit_vector);
}

/// Flipping any single bit of a checksum field that matched makes the check
/// fail.
pub proof fn lemma_checksum_bit_flip_is_detected(checksum: i16, payload: Seq<u8>, bit: u16)
    requires
        checksum_matches(checksum, payload),
        bit < 16,
    ensures
        !checksum_matches(signed16(unsigned16(checksum) ^ (1u16 << bit)), payload),
{
    let c = unsigned16(checksum);
    assert(bit < 16 ==> (c ^ (1u16 << bit)) != c) by (bit_vector);
}

} // verus!
