use vstd::prelude::*;
use crate::error::DecodeError;

verus! {

/// The number whose four bytes, least significant first, open `s`.
pub open spec fn le_value(s: Seq<u8>) -> int
    recommends
        s.len() >= 4,
{
    s[0] as int + s[1] as int * 0x100 + s[2] as int * 0x1_0000 + s[3] as int * 0x100_0000
}

/// The number whose four bytes, most significant first, open `s`.
pub open spec fn be_value(s: Seq<u8>) -> int
    recommends
        s.len() >= 4,
{
    s[3] as int + s[2] as int * 0x100 + s[1] as int * 0x1_0000 + s[0] as int * 0x100_0000
}

/// The four bytes of `val`, least significant first.
pub open spec fn le_bytes(val: u32) -> Seq<u8> {
    seq![
        (val % 0x100) as u8,
        (val / 0x100 % 0x100) as u8,
        (val / 0x1_0000 % 0x100) as u8,
        (val / 0x100_0000) as u8,
    ]
}

/// The four bytes of `val`, most significant first.
pub open spec fn be_bytes(val: u32) -> Seq<u8> {
    seq![
        (val / 0x100_0000) as u8,
        (val / 0x1_0000 % 0x100) as u8,
        (val / 0x100 % 0x100) as u8,
        (val % 0x100) as u8,
    ]
}

proof fn lemma_digits(b0: u8, b1: u8, b2: u8, b3: u8, val: u32)
    by (bit_vector)
    requires
        val == (b0 as u32) + (b1 as u32) * 0x100 + (b2 as u32) * 0x1_0000 + (b3 as u32)
            * 0x100_0000,
    ensures
        val % 0x100 == b0 as u32,
        val / 0x100 % 0x100 == b1 as u32,
        val / 0x1_0000 % 0x100 == b2 as u32,
        val / 0x100_0000 == b3 as u32,
{
}

/// Four bytes stand for a number that fits in 32 bits, in either order.
pub proof fn lemma_value_fits(s: Seq<u8>)
    requires
        s.len() >= 4,
    ensures
        0 <= le_value(s) <= u32::MAX,
        0 <= be_value(s) <= u32::MAX,
{
}

/// Reading the bytes that a number was written as, least significant
/// first, gives the number.
pub proof fn lemma_le_value_of_bytes(val: u32)
    ensures
        le_bytes(val).len() == 4,
        le_value(le_bytes(val)) == val,
{
}

/// Writing the number that four bytes were read as, least significant
/// first, gives the four bytes.
pub proof fn lemma_le_bytes_of_value(s: Seq<u8>)
    requires
        s.len() >= 4,
    ensures
        le_bytes(le_value(s) as u32) == s.subrange(0, 4),
{
    lemma_digits(s[0], s[1], s[2], s[3], le_value(s) as u32);
    assert(le_bytes(le_value(s) as u32) =~= s.subrange(0, 4));
}

/// Reading the bytes that a number was written as, most significant
/// first, gives the number.
pub proof fn lemma_be_value_of_bytes(val: u32)
    ensures
        be_bytes(val).len() == 4,
        be_value(be_bytes(val)) == val,
{
}

/// Writing the number that four bytes were read as, most significant
/// first, gives the four bytes.
pub proof fn lemma_be_bytes_of_value(s: Seq<u8>)
    requires
        s.len() >= 4,
    ensures
        be_bytes(be_value(s) as u32) == s.subrange(0, 4),
{
    lemma_digits(s[3], s[2], s[1], s[0], be_value(s) as u32);
    assert(be_bytes(be_value(s) as u32) =~= s.subrange(0, 4));
}

/// What four bytes are read as depends on those four bytes alone.
pub proof fn lemma_value_of_prefix(s: Seq<u8>, t: Seq<u8>)
    requires
        s.len() >= 4,
        t.len() >= 4,
        s.subrange(0, 4) == t.subrange(0, 4),
    ensures
        le_value(s) == le_value(t),
        be_value(s) == be_value(t),
{
    let p = s.subrange(0, 4);
    let q = t.subrange(0, 4);
    assert(p[0] == s[0] && p[1] == s[1] && p[2] == s[2] && p[3] == s[3]);
    assert(q[0] == t[0] && q[1] == t[1] && q[2] == t[2] && q[3] == t[3]);
}

proof fn lemma_pack(b0: u8, b1: u8, b2: u8, b3: u8)
    by (bit_vector)
    ensures
        ((b3 as u32) << 24 | (b2 as u32) << 16 | (b1 as u32) << 8 | (b0 as u32)) == (b0 as u32)
            + (b1 as u32) * 0x100 + (b2 as u32) * 0x1_0000 + (b3 as u32) * 0x100_0000,
{
}

proof fn lemma_unpack(val: u32)
    by (bit_vector)
    ensures
        (val & 0xFF) == val % 0x100,
        (val & 0xFF00) >> 8 == val / 0x100 % 0x100,
        (val & 0xFF_0000) >> 16 == val / 0x1_0000 % 0x100,
        (val & 0xFF00_0000) >> 24 == val / 0x100_0000,
{
}

/// Reads a 32-bit number from the first four bytes of `val`, least
/// significant byte first.
pub fn slice_to_u32_ntoh(val: &[u8]) -> (r: Result<u32, DecodeError>)
    ensures
        val@.len() < 4 <==> r == Err::<u32, DecodeError>(DecodeError::TruncatedInput),
        val@.len() >= 4 <==> r == Ok::<u32, DecodeError>(le_value(val@) as u32),
        val@.len() >= 4 ==> 0 <= le_value(val@) <= u32::MAX,
{
    if val.len() < 4 {
        return Err(DecodeError::TruncatedInput);
    }
    proof {
        lemma_pack(val[0], val[1], val[2], val[3]);
    }
    Ok((val[3] as u32) << 24 | (val[2] as u32) << 16 | (val[1] as u32) << 8 | (val[0] as u32))
}

/// Reads a 32-bit number from the first four bytes of `val`, most
/// significant byte first.
pub fn slice_to_u32_hton(val: &[u8]) -> (r: Result<u32, DecodeError>)
    ensures
        val@.len() < 4 <==> r == Err::<u32, DecodeError>(DecodeError::TruncatedInput),
        val@.len() >= 4 <==> r == Ok::<u32, DecodeError>(be_value(val@) as u32),
        val@.len() >= 4 ==> 0 <= be_value(val@) <= u32::MAX,
{
    if val.len() < 4 {
        return Err(DecodeError::TruncatedInput);
    }
    proof {
        lemma_pack(val[3], val[2], val[1], val[0]);
    }
    Ok((val[0] as u32) << 24 | (val[1] as u32) << 16 | (val[2] as u32) << 8 | (val[3] as u32))
}

/// Writes `val` as four bytes, least significant byte first.
pub fn u32_to_vec_hton(val: u32) -> (vec: Vec<u8>)
    ensures
        vec@ == le_bytes(val),
{
    let mut vec: Vec<u8> = Vec::with_capacity(4);
    proof {
        lemma_unpack(val);
    }
    vec.push((val & 0xFF) as u8);
    vec.push(((val & 0xFF00) >> 8) as u8);
    vec.push(((val & 0xFF_0000) >> 16) as u8);
    vec.push(((val & 0xFF00_0000) >> 24) as u8);
    assert(vec@ =~= le_bytes(val));
    vec
}

/// Writes `val` as four bytes, most significant byte first.
pub fn u32_to_vec_ntoh(val: u32) -> (vec: Vec<u8>)
    ensures
        vec@ == be_bytes(val),
{
    let mut vec: Vec<u8> = Vec::with_capacity(4);
    proof {
        lemma_unpack(val);
    }
    vec.push(((val & 0xFF00_0000) >> 24) as u8);
    vec.push(((val & 0xFF_0000) >> 16) as u8);
    vec.push(((val & 0xFF00) >> 8) as u8);
    vec.push((val & 0xFF) as u8);
    assert(vec@ =~= be_bytes(val));
    vec
}

} // verus!
