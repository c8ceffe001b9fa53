use vstd::prelude::*;

verus! {

/// Meaning of a raw axis byte: the low six bits read as a two's-complement
/// value, the two high status bits discarded.
pub open spec fn decode_spec(b: u8) -> int {
    let m = b & 0x3f;
    if m > 31 {
        m - 64
    } else {
        m as int
    }
}

/// The one masked byte that decodes to a given in-range value.
pub open spec fn encode_spec(v: int) -> u8 {
    if v < 0 {
        (v + 64) as u8
    } else {
        v as u8
    }
}

/// Decodes one raw axis byte into the signed sample it carries.
pub fn decode_sample(b: u8) -> (r: i8)
    ensures
        r as int == decode_spec(b),
        -32 <= r as int <= 31,
{
    let m: u8 = b & 0x3f;
    assert(m <= 63) by (bit_vector)
        requires
            m == b & 0x3f,
    ;
    if m > 31 {
        (m as i8) - 64
    } else {
        m as i8
    }
}

/// Builds the raw masked byte that decodes to `v`; the inverse of
/// `decode_sample`, handy for driving the chip's register model in reverse.
pub fn encode_sample(v: i8) -> (r: u8)
    requires
        -32 <= v <= 31,
    ensures
        r == encode_spec(v as int),
        r < 64,
        decode_spec(r) == v as int,
{
    proof {
        lemma_decode_encode(v as int);
    }
    if v < 0 {
        (v + 64) as u8
    } else {
        v as u8
    }
}

/// Every raw byte decodes into the signed range -32..=31, whatever its two
/// high status bits hold.
pub proof fn lemma_decode_in_range(b: u8)
    ensures
        -32 <= decode_spec(b) <= 31,
{
    assert(b & 0x3f <= 63) by (bit_vector);
}

/// The two high bits of a raw byte do not influence its decoded value.
pub proof fn lemma_mask_irrelevant(b: u8)
    ensures
        decode_spec(b) == decode_spec(b & 0x3f),
{
    assert((b & 0x3f) & 0x3f == b & 0x3f) by (bit_vector);
}

/// Encoding recovers the masked byte a value was decoded from.
pub proof fn lemma_encode_decode(m: u8)
    requires
        m < 64,
    ensures
        encode_spec(decode_spec(m)) == m,
{
    assert(m & 0x3f == m) by (bit_vector)
        requires
            m < 64,
    ;
}

/// Decoding recovers the value a masked byte was encoded from.
pub proof fn lemma_decode_encode(v: int)
    requires
        -32 <= v <= 31,
    ensures
        encode_spec(v) < 64,
        decode_spec(encode_spec(v)) == v,
{
    let m = encode_spec(v);
    assert(m < 64);
    assert(m & 0x3f == m) by (bit_vector)
        requires
            m < 64,
    ;
}

/// On the 64 masked bytes, decoding is injective: two masked bytes with the
/// same decoded value are the same byte.
pub proof fn lemma_decode_injective(m1: u8, m2: u8)
    requires
        m1 < 64,
        m2 < 64,
        decode_spec(m1) == decode_spec(m2),
    ensures
        m1 == m2,
{
    lemma_encode_decode(m1);
    lemma_encode_decode(m2);
}

/// Decoding is onto the signed range: every value in -32..=31 is the decoded
/// value of some masked byte.
pub proof fn lemma_decode_onto(v: int)
    requires
        -32 <= v <= 31,
    ensures
        exists|m: u8| m < 64 && decode_spec(m) == v,
{
    lemma_decode_encode(v);
    assert(encode_spec(v) < 64 && decode_spec(encode_spec(v)) == v);
}

/// Round trip: each value in -32..=31 comes from exactly one masked byte,
/// namely its encoding, and decoding that encoding gives the value back.
pub proof fn lemma_round_trip(v: int)
    requires
        -32 <= v <= 31,
    ensures
        encode_spec(v) < 64,
        decode_spec(encode_spec(v)) == v,
        forall|m: u8| m < 64 && decode_spec(m) == v ==> m == encode_spec(v),
{
    lemma_decode_encode(v);
    assert forall|m: u8| m < 64 && decode_spec(m) == v implies m == encode_spec(v) by {
        lemma_encode_decode(m);
    }
}

/// Reads answered with one and the same byte decode to one and the same
/// signed value: decoding leaves no freedom once the byte is fixed.
pub proof fn lemma_fixed_byte_reads_agree(b: u8, v1: i8, v2: i8)
    requires
        v1 as int == decode_spec(b),
        v2 as int == decode_spec(b),
    ensures
        v1 == v2,
{
}

} // verus!
