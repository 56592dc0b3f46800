//! Byte-level helpers: little-endian 32-bit integers and comparison of regions.

use vstd::prelude::*;

verus! {

/// The value of `v` read as an unsigned 32-bit number (two's complement).
pub open spec fn unsigned32(v: i32) -> int {
    if v >= 0 {
        v as int
    } else {
        v + 0x1_0000_0000
    }
}

/// The four bytes of `v` in little-endian order.
pub open spec fn le_bytes32(v: i32) -> Seq<u8> {
    let u = unsigned32(v);
    seq![
        (u % 256) as u8,
        ((u / 256) % 256) as u8,
        ((u / 65536) % 256) as u8,
        (u / 16777216) as u8,
    ]
}

/// The signed 32-bit number whose little-endian bytes are the first four of `s`.
pub open spec fn from_le_bytes32(s: Seq<u8>) -> i32
    recommends
        s.len() >= 4,
{
    let u = s[0] + 256 * s[1] + 65536 * s[2] + 16777216 * s[3];
    if u >= 0x8000_0000 {
        (u - 0x1_0000_0000) as i32
    } else {
        u as i32
    }
}

/// Decoding undoes encoding.
pub proof fn lemma_le_bytes32_roundtrip(v: i32)
    ensures
        le_bytes32(v).len() == 4,
        from_le_bytes32(le_bytes32(v)) == v,
{
}

/// Encoding undoes decoding on any four bytes.
pub proof fn lemma_from_le_bytes32_roundtrip(s: Seq<u8>)
    requires
        s.len() == 4,
    ensures
        le_bytes32(from_le_bytes32(s)) == s,
{
    assert(le_bytes32(from_le_bytes32(s)) =~= s);
}

/// Appends the little-endian bytes of `v` to `out`.
pub fn push_le_i32(out: &mut Vec<u8>, v: i32)
    ensures
        final(out)@ == old(out)@ + le_bytes32(v),
{
    let u: u64 = if v >= 0 {
        v as u64
    } else {
        (v as i64 + 0x1_0000_0000) as u64
    };
    out.push((u % 256) as u8);
    out.push(((u / 256) % 256) as u8);
    out.push(((u / 65536) % 256) as u8);
    out.push((u / 16777216) as u8);
    assert(out@ =~= old(out)@ + le_bytes32(v));
}

/// Reads a little-endian `i32` from `data` at `at`.
pub fn read_le_i32(data: &[u8], at: usize) -> (v: i32)
    requires
        at + 4 <= data@.len(),
    ensures
        v == from_le_bytes32(data@.subrange(at as int, at + 4)),
{
    let u: u64 = data[at] as u64 + 256 * (data[at + 1] as u64) + 65536 * (data[at + 2] as u64)
        + 16777216 * (data[at + 3] as u64);
    if u >= 0x8000_0000 {
        (u as i64 - 0x1_0000_0000) as i32
    } else {
        u as i32
    }
}

/// Tells whether `data` holds `pattern` at offset `at`.
pub fn region_equals(data: &[u8], at: usize, pattern: &[u8]) -> (same: bool)
    requires
        at + pattern@.len() <= data@.len(),
    ensures
        same == (data@.subrange(at as int, at + pattern@.len()) == pattern@),
{
    let n = pattern.len();
    let mut k: usize = 0;
    while k < n
        invariant
            n == pattern@.len(),
            at + n <= data.len(),
            k <= n,
            forall|j: int| 0 <= j < k ==> data@[at + j] == pattern@[j],
        decreases n - k,
    {
        if data[at + k] != pattern[k] {
            assert(data@.subrange(at as int, at + n)[k as int] != pattern@[k as int]);
            return false;
        }
        k += 1;
    }
    assert(data@.subrange(at as int, at + n) =~= pattern@);
    true
}

} // verus!
