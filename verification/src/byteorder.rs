//! Byte orderings of a word of digital data, and decoding of signed 32-bit
//! integers from raw bytes under a chosen ordering.

use vstd::prelude::*;
use vstd::arithmetic::div_mod::lemma_div_denominator;
use vstd::arithmetic::div_mod::lemma_div_is_ordered;
use vstd::arithmetic::div_mod::lemma_div_pos_is_pos;
use vstd::arithmetic::div_mod::lemma_fundamental_div_mod;
use vstd::arithmetic::div_mod::lemma_mod_bound;
use vstd::arithmetic::div_mod::lemma_small_mod;

use crate::DecodeError;

verus! {

/// The order of the bytes in a word of digital data.
#[derive(Debug, Clone, Copy, PartialEq, Eq, Structural)]
pub enum ByteOrder {
    /// Least significant byte of a word at the smallest memory address.
    LittleEndian,

    /// Most significant byte of a word at the smallest memory address.
    BigEndian,
}

/// The unsigned value of the first four bytes of `b` read little-endian:
/// byte 0 is the least significant.
pub open spec fn le_word(b: Seq<u8>) -> int
    recommends
        b.len() >= 4,
{
    b[0] + 0x100 * b[1] + 0x1_0000 * b[2] + 0x100_0000 * b[3]
}

/// The unsigned value of the first four bytes of `b` read big-endian:
/// byte 0 is the most significant.
pub open spec fn be_word(b: Seq<u8>) -> int
    recommends
        b.len() >= 4,
{
    b[3] + 0x100 * b[2] + 0x1_0000 * b[1] + 0x100_0000 * b[0]
}

/// The unsigned value of the first four bytes of `b` under the ordering `o`.
pub open spec fn word_value(o: ByteOrder, b: Seq<u8>) -> int {
    match o {
        ByteOrder::LittleEndian => le_word(b),
        ByteOrder::BigEndian => be_word(b),
    }
}

/// The two's-complement signed reading of a 32-bit unsigned value.
pub open spec fn as_signed_32(w: int) -> int
    recommends
        0 <= w < 0x1_0000_0000,
{
    if w < 0x8000_0000 {
        w
    } else {
        w - 0x1_0000_0000
    }
}

/// The two's-complement unsigned representation of a signed 32-bit value.
pub open spec fn as_unsigned_32(v: int) -> int
    recommends
        -0x8000_0000 <= v < 0x8000_0000,
{
    if v >= 0 {
        v
    } else {
        v + 0x1_0000_0000
    }
}

/// The signed 32-bit integer held in the first four bytes of `b` under the
/// ordering `o`: the byte placement is chosen by `o`, the two's-complement
/// interpretation is fixed.
pub open spec fn spec_i32_from_bytes(o: ByteOrder, b: Seq<u8>) -> int {
    as_signed_32(word_value(o, b))
}

/// The four little-endian bytes of a 32-bit unsigned value.
pub open spec fn le_bytes_of_word(w: int) -> Seq<u8>
    recommends
        0 <= w < 0x1_0000_0000,
{
    seq![
        (w % 0x100) as u8,
        ((w / 0x100) % 0x100) as u8,
        ((w / 0x1_0000) % 0x100) as u8,
        ((w / 0x100_0000) % 0x100) as u8,
    ]
}

/// The four big-endian bytes of a 32-bit unsigned value.
pub open spec fn be_bytes_of_word(w: int) -> Seq<u8>
    recommends
        0 <= w < 0x1_0000_0000,
{
    seq![
        ((w / 0x100_0000) % 0x100) as u8,
        ((w / 0x1_0000) % 0x100) as u8,
        ((w / 0x100) % 0x100) as u8,
        (w % 0x100) as u8,
    ]
}

/// The four-byte encoding of a signed 32-bit value under the ordering `o`.
pub open spec fn spec_i32_to_bytes(o: ByteOrder, v: int) -> Seq<u8> {
    match o {
        ByteOrder::LittleEndian => le_bytes_of_word(as_unsigned_32(v)),
        ByteOrder::BigEndian => be_bytes_of_word(as_unsigned_32(v)),
    }
}

/// The ASCII bytes of "LTL-IEEE", the marker designating a little-endian file.
pub open spec fn little_endian_marker() -> Seq<u8> {
    seq![76u8, 84u8, 76u8, 45u8, 73u8, 69u8, 69u8, 69u8]
}

/// The ASCII bytes of "BIG-IEEE", the marker designating a big-endian file.
pub open spec fn big_endian_marker() -> Seq<u8> {
    seq![66u8, 73u8, 71u8, 45u8, 73u8, 69u8, 69u8, 69u8]
}

/// The ordering designated by an 8-byte marker window: an exact byte-for-byte
/// match against one of the two recognized markers, anything else a failure.
pub open spec fn spec_resolve(m: Seq<u8>) -> Result<ByteOrder, DecodeError> {
    if m == little_endian_marker() {
        Ok(ByteOrder::LittleEndian)
    } else if m == big_endian_marker() {
        Ok(ByteOrder::BigEndian)
    } else {
        Err(DecodeError::UnknownFormatMarker)
    }
}

impl ByteOrder {
    /// Resolve the byte ordering announced by an 8-byte marker window.
    /// Exactly `"LTL-IEEE"` is little-endian and exactly `"BIG-IEEE"` is
    /// big-endian; any other bytes are an unknown format.
    pub fn resolve(marker: &[u8; 8]) -> (r: Result<ByteOrder, DecodeError>)
        ensures
            r == spec_resolve(marker@),
    {
        let little = marker[0] == 76 && marker[1] == 84 && marker[2] == 76 && marker[3] == 45
            && marker[4] == 73 && marker[5] == 69 && marker[6] == 69 && marker[7] == 69;
        if little {
            proof {
                assert(marker@ =~= little_endian_marker());
            }
            return Ok(ByteOrder::LittleEndian);
        }
        let big = marker[0] == 66 && marker[1] == 73 && marker[2] == 71 && marker[3] == 45
            && marker[4] == 73 && marker[5] == 69 && marker[6] == 69 && marker[7] == 69;
        if big {
            proof {
                assert(marker@ =~= big_endian_marker());
            }
            return Ok(ByteOrder::BigEndian);
        }
        Err(DecodeError::UnknownFormatMarker)
    }

    /// Decode the first four bytes of `bytes` as a signed 32-bit integer
    /// under this ordering.
    pub fn i32_from_bytes(&self, bytes: &[u8]) -> (r: i32)
        requires
            bytes@.len() >= 4,
        ensures
            r as int == spec_i32_from_bytes(*self, bytes@),
    {
        let b0 = bytes[0] as u32;
        let b1 = bytes[1] as u32;
        let b2 = bytes[2] as u32;
        let b3 = bytes[3] as u32;
        let w: u32 = match self {
            ByteOrder::LittleEndian => b0 + 0x100 * b1 + 0x1_0000 * b2 + 0x100_0000 * b3,
            ByteOrder::BigEndian => b3 + 0x100 * b2 + 0x1_0000 * b1 + 0x100_0000 * b0,
        };
        if w < 0x8000_0000 {
            w as i32
        } else {
            (w - 0x8000_0000) as i32 + i32::MIN
        }
    }
}

/// A 32-bit word is the weighted sum of its four base-256 digits, each of
/// which lies below 256.
proof fn lemma_word_digits(w: int)
    requires
        0 <= w < 0x1_0000_0000,
    ensures
        w == w % 0x100 + 0x100 * ((w / 0x100) % 0x100) + 0x1_0000 * ((w / 0x1_0000) % 0x100)
            + 0x100_0000 * ((w / 0x100_0000) % 0x100),
        0 <= w % 0x100 < 0x100,
        0 <= (w / 0x100) % 0x100 < 0x100,
        0 <= (w / 0x1_0000) % 0x100 < 0x100,
        0 <= (w / 0x100_0000) % 0x100 < 0x100,
{
    lemma_fundamental_div_mod(w, 0x100);
    lemma_fundamental_div_mod(w / 0x100, 0x100);
    lemma_div_denominator(w, 0x100, 0x100);
    lemma_fundamental_div_mod(w / 0x1_0000, 0x100);
    lemma_div_denominator(w, 0x1_0000, 0x100);
    lemma_div_pos_is_pos(w, 0x100_0000);
    lemma_div_is_ordered(w, 0xffff_ffff, 0x100_0000);
    lemma_small_mod((w / 0x100_0000) as nat, 0x100);
    lemma_mod_bound(w, 0x100);
    lemma_mod_bound(w / 0x100, 0x100);
    lemma_mod_bound(w / 0x1_0000, 0x100);
}

/// Round trip of the byte-level integer encoding: a signed 32-bit value
/// encoded as four bytes under an ordering decodes, under that same
/// ordering, to the original value.
pub proof fn lemma_i32_bytes_round_trip(o: ByteOrder, v: int)
    requires
        -0x8000_0000 <= v < 0x8000_0000,
    ensures
        spec_i32_to_bytes(o, v).len() == 4,
        spec_i32_from_bytes(o, spec_i32_to_bytes(o, v)) == v,
{
    let w = as_unsigned_32(v);
    lemma_word_digits(w);
    assert(word_value(o, spec_i32_to_bytes(o, v)) == w);
}

/// Decoding the same four bytes under the two orderings gives different
/// values whenever the window is not palindromic: the digits of a word in
/// base 256 are unique, so swapping them moves the value.
pub proof fn lemma_order_mismatch(b: Seq<u8>)
    requires
        b.len() >= 4,
        b[0] != b[3] || b[1] != b[2],
    ensures
        spec_i32_from_bytes(ByteOrder::LittleEndian, b) != spec_i32_from_bytes(
            ByteOrder::BigEndian,
            b,
        ),
{
    assert(le_word(b) != be_word(b));
}

} // verus!
