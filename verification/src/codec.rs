//! Fixed-width little-endian readers over a byte slice with an explicit
//! cursor position. Each reader either consumes exactly its width starting at
//! the given position or reports that too few bytes remain.

use vstd::arithmetic::power2::lemma_pow2_adds;
use vstd::arithmetic::power2::lemma_pow2_pos;
use vstd::arithmetic::power2::pow2;
use vstd::prelude::*;
use vstd::slice::slice_index_get;

verus! {

/// The number a byte sequence denotes in little-endian order: the first byte
/// is least significant.
pub open spec fn le_value(s: Seq<u8>) -> int
    decreases s.len(),
{
    if s.len() == 0 {
        0
    } else {
        s[0] + 256 * le_value(s.drop_first())
    }
}

/// A little-endian value fits in as many bits as it has bytes.
pub proof fn lemma_le_value_bound(s: Seq<u8>)
    ensures
        0 <= le_value(s) < pow2(8 * s.len()),
    decreases s.len(),
{
    if s.len() == 0 {
        lemma_pow2_pos(0);
    } else {
        lemma_le_value_bound(s.drop_first());
        lemma_pow2_adds(8, 8 * (s.len() - 1) as nat);
        vstd::arithmetic::power2::lemma2_to64();
        assert(pow2(8) == 256);
        assert(s[0] + 256 * le_value(s.drop_first()) < 256 * pow2(8 * (s.len() - 1) as nat))
            by (nonlinear_arith)
            requires
                s[0] < 256,
                0 <= le_value(s.drop_first()),
                le_value(s.drop_first()) <= pow2(8 * (s.len() - 1) as nat) - 1,
                pow2(8 * (s.len() - 1) as nat) >= 1,
        ;
    }
}

/// The 16-bit value of a two-byte little-endian sequence.
pub open spec fn le16(s: Seq<u8>) -> u16 {
    le_value(s) as u16
}

/// The 32-bit value of a four-byte little-endian sequence.
pub open spec fn le32(s: Seq<u8>) -> u32 {
    le_value(s) as u32
}

/// The 64-bit value of an eight-byte little-endian sequence.
pub open spec fn le64(s: Seq<u8>) -> u64 {
    le_value(s) as u64
}

/// Reads one byte.
pub fn read_u8(data: &[u8], pos: usize) -> (r: Option<(u8, usize)>)
    ensures
        pos + 1 <= data@.len() ==> (r matches Some((v, end)) && v == data@[pos as int] && end
            == pos + 1),
        pos + 1 > data@.len() ==> r is None,
{
    if pos < data.len() {
        Some((*slice_index_get(data, pos), pos + 1))
    } else {
        None
    }
}

/// Reads a 16-bit little-endian integer.
pub fn read_u16(data: &[u8], pos: usize) -> (r: Option<(u16, usize)>)
    ensures
        pos + 2 <= data@.len() ==> (r matches Some((v, end)) && v as int == le_value(
            data@.subrange(pos as int, pos + 2),
        ) && v == le16(data@.subrange(pos as int, pos + 2)) && end == pos + 2),
        pos + 2 > data@.len() ==> r is None,
{
    if pos < data.len() && data.len() - pos >= 2 {
        let b0 = *slice_index_get(data, pos);
        let b1 = *slice_index_get(data, pos + 1);
        let v: u16 = b0 as u16 + (b1 as u16) * 256;
        proof {
            reveal_with_fuel(le_value, 3);
            let s = data@.subrange(pos as int, pos + 2);
            assert(s.drop_first() =~= data@.subrange(pos + 1, pos + 2));
            assert(s.drop_first().drop_first() =~= Seq::<u8>::empty());
            assert(le_value(s) == b0 + 256 * b1);
        }
        Some((v, pos + 2))
    } else {
        None
    }
}

/// Reads a 32-bit little-endian integer.
pub fn read_u32(data: &[u8], pos: usize) -> (r: Option<(u32, usize)>)
    ensures
        pos + 4 <= data@.len() ==> (r matches Some((v, end)) && v as int == le_value(
            data@.subrange(pos as int, pos + 4),
        ) && v == le32(data@.subrange(pos as int, pos + 4)) && end == pos + 4),
        pos + 4 > data@.len() ==> r is None,
{
    if pos < data.len() && data.len() - pos >= 4 {
        let b0 = *slice_index_get(data, pos) as u32;
        let b1 = *slice_index_get(data, pos + 1) as u32;
        let b2 = *slice_index_get(data, pos + 2) as u32;
        let b3 = *slice_index_get(data, pos + 3) as u32;
        let v: u32 = b0 + 256 * (b1 + 256 * (b2 + 256 * b3));
        proof {
            reveal_with_fuel(le_value, 5);
            let s = data@.subrange(pos as int, pos + 4);
            let s1 = s.drop_first();
            let s2 = s1.drop_first();
            let s3 = s2.drop_first();
            assert(s1 =~= data@.subrange(pos + 1, pos + 4));
            assert(s2 =~= data@.subrange(pos + 2, pos + 4));
            assert(s3 =~= data@.subrange(pos + 3, pos + 4));
            assert(s3.drop_first() =~= Seq::<u8>::empty());
            assert(le_value(s) == b0 + 256 * (b1 + 256 * (b2 + 256 * b3)));
        }
        Some((v, pos + 4))
    } else {
        None
    }
}

/// Reads a 64-bit little-endian integer.
pub fn read_u64(data: &[u8], pos: usize) -> (r: Option<(u64, usize)>)
    ensures
        pos + 8 <= data@.len() ==> (r matches Some((v, end)) && v as int == le_value(
            data@.subrange(pos as int, pos + 8),
        ) && v == le64(data@.subrange(pos as int, pos + 8)) && end == pos + 8),
        pos + 8 > data@.len() ==> r is None,
{
    if pos < data.len() && data.len() - pos >= 8 {
        let b0 = *slice_index_get(data, pos) as u64;
        let b1 = *slice_index_get(data, pos + 1) as u64;
        let b2 = *slice_index_get(data, pos + 2) as u64;
        let b3 = *slice_index_get(data, pos + 3) as u64;
        let b4 = *slice_index_get(data, pos + 4) as u64;
        let b5 = *slice_index_get(data, pos + 5) as u64;
        let b6 = *slice_index_get(data, pos + 6) as u64;
        let b7 = *slice_index_get(data, pos + 7) as u64;
        let v: u64 = b0 + 256 * (b1 + 256 * (b2 + 256 * (b3 + 256 * (b4 + 256 * (b5 + 256 * (b6
            + 256 * b7))))));
        proof {
            reveal_with_fuel(le_value, 9);
            let s = data@.subrange(pos as int, pos + 8);
            let s1 = s.drop_first();
            let s2 = s1.drop_first();
            let s3 = s2.drop_first();
            let s4 = s3.drop_first();
            let s5 = s4.drop_first();
            let s6 = s5.drop_first();
            let s7 = s6.drop_first();
            assert(s1 =~= data@.subrange(pos + 1, pos + 8));
            assert(s2 =~= data@.subrange(pos + 2, pos + 8));
            assert(s3 =~= data@.subrange(pos + 3, pos + 8));
            assert(s4 =~= data@.subrange(pos + 4, pos + 8));
            assert(s5 =~= data@.subrange(pos + 5, pos + 8));
            assert(s6 =~= data@.subrange(pos + 6, pos + 8));
            assert(s7 =~= data@.subrange(pos + 7, pos + 8));
            assert(s7.drop_first() =~= Seq::<u8>::empty());
            assert(le_value(s) == b0 + 256 * (b1 + 256 * (b2 + 256 * (b3 + 256 * (b4 + 256 * (b5
                + 256 * (b6 + 256 * b7)))))));
        }
        Some((v, pos + 8))
    } else {
        None
    }
}

/// What a one-byte boolean decodes to: 0 is false, 1 is true, anything else
/// is malformed.
pub open spec fn spec_bool_from_byte(b: u8) -> Option<bool> {
    if b == 0 {
        Some(false)
    } else if b == 1 {
        Some(true)
    } else {
        None
    }
}

/// Reads a strict one-byte boolean.
pub fn read_bool(data: &[u8], pos: usize) -> (r: Option<(bool, usize)>)
    ensures
        (pos + 1 <= data@.len() && spec_bool_from_byte(data@[pos as int]) is Some) ==> (
        r matches Some((v, end)) && v == spec_bool_from_byte(data@[pos as int]).unwrap() && end
            == pos + 1),
        pos + 1 <= data@.len() && spec_bool_from_byte(data@[pos as int]) is None ==> r is None,
        pos + 1 > data@.len() ==> r is None,
{
    if pos < data.len() {
        let b = *slice_index_get(data, pos);
        if b == 0 {
            Some((false, pos + 1))
        } else if b == 1 {
            Some((true, pos + 1))
        } else {
            None
        }
    } else {
        None
    }
}

} // verus!
