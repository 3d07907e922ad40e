//! Detectors: higher-level algorithms layered on raw sensor frames, each
//! binding a configuration and an opaque engine context to one `Ready` radar
//! handle. Also holds the helpers shared by the engine-filled result records
//! that both detectors decode: multi-byte fields are little-endian.

pub mod distance;
pub mod presence;

use vstd::prelude::*;

verus! {

/// The unsigned 32-bit value stored little-endian at offset `i` of `s`.
pub open spec fn le32_at(s: Seq<u8>, i: int) -> u32
    recommends
        0 <= i,
        i + 4 <= s.len(),
{
    (s[i] + s[i + 1] * 0x100 + s[i + 2] * 0x10000 + s[i + 3] * 0x1000000) as u32
}

/// Reads the little-endian 32-bit field at offset `i` of `record`.
pub fn read_u32_le(record: &Vec<u8>, i: usize) -> (r: u32)
    requires
        i + 4 <= record.len(),
    ensures
        r == le32_at(record@, i as int),
{
    let b0 = record[i] as u32;
    let b1 = record[i + 1] as u32;
    let b2 = record[i + 2] as u32;
    let b3 = record[i + 3] as u32;
    b0 + b1 * 0x100 + b2 * 0x10000 + b3 * 0x1000000
}

} // verus!
