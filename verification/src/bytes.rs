//! Reading fixed-width unsigned integers out of a byte sequence in either
//! byte order. The spec functions state the value of a field as arithmetic
//! over the individual bytes; the exec readers are proved against them.

use vstd::prelude::*;

verus! {

/// The 16-bit value stored at `b[off .. off + 2]`, least significant byte
/// first when `little` holds, most significant byte first otherwise.
pub open spec fn spec_u16_at(b: Seq<u8>, off: int, little: bool) -> u16 {
    if little {
        (b[off] + b[off + 1] * 0x100) as u16
    } else {
        (b[off + 1] + b[off] * 0x100) as u16
    }
}

/// The 32-bit value stored at `b[off .. off + 4]` in the given byte order.
pub open spec fn spec_u32_at(b: Seq<u8>, off: int, little: bool) -> u32 {
    if little {
        (b[off] + b[off + 1] * 0x100 + b[off + 2] * 0x1_0000 + b[off + 3] * 0x100_0000) as u32
    } else {
        (b[off + 3] + b[off + 2] * 0x100 + b[off + 1] * 0x1_0000 + b[off] * 0x100_0000) as u32
    }
}

/// The 64-bit value stored at `b[off .. off + 8]` in the given byte order.
pub open spec fn spec_u64_at(b: Seq<u8>, off: int, little: bool) -> u64 {
    if little {
        (b[off] + b[off + 1] * 0x100 + b[off + 2] * 0x1_0000 + b[off + 3] * 0x100_0000
            + b[off + 4] * 0x1_0000_0000 + b[off + 5] * 0x100_0000_0000
            + b[off + 6] * 0x1_0000_0000_0000 + b[off + 7] * 0x100_0000_0000_0000) as u64
    } else {
        (b[off + 7] + b[off + 6] * 0x100 + b[off + 5] * 0x1_0000 + b[off + 4] * 0x100_0000
            + b[off + 3] * 0x1_0000_0000 + b[off + 2] * 0x100_0000_0000
            + b[off + 1] * 0x1_0000_0000_0000 + b[off] * 0x100_0000_0000_0000) as u64
    }
}

/// Reads the 16-bit field at `off` in the given byte order.
pub fn read_u16(data: &[u8], off: usize, little: bool) -> (r: u16)
    requires
        off + 2 <= data@.len(),
    ensures
        r == spec_u16_at(data@, off as int, little),
{
    let b0: u16 = data[off] as u16;
    let b1: u16 = data[off + 1] as u16;
    if little {
        b0 + b1 * 0x100
    } else {
        b1 + b0 * 0x100
    }
}

/// Reads the 32-bit field at `off` in the given byte order.
pub fn read_u32(data: &[u8], off: usize, little: bool) -> (r: u32)
    requires
        off + 4 <= data@.len(),
    ensures
        r == spec_u32_at(data@, off as int, little),
{
    let b0: u32 = data[off] as u32;
    let b1: u32 = data[off + 1] as u32;
    let b2: u32 = data[off + 2] as u32;
    let b3: u32 = data[off + 3] as u32;
    if little {
        b0 + b1 * 0x100 + b2 * 0x1_0000 + b3 * 0x100_0000
    } else {
        b3 + b2 * 0x100 + b1 * 0x1_0000 + b0 * 0x100_0000
    }
}

/// Reads the 64-bit field at `off` in the given byte order.
pub fn read_u64(data: &[u8], off: usize, little: bool) -> (r: u64)
    requires
        off + 8 <= data@.len(),
    ensures
        r == spec_u64_at(data@, off as int, little),
{
    let b0: u64 = data[off] as u64;
    let b1: u64 = data[off + 1] as u64;
    let b2: u64 = data[off + 2] as u64;
    let b3: u64 = data[off + 3] as u64;
    let b4: u64 = data[off + 4] as u64;
    let b5: u64 = data[off + 5] as u64;
    let b6: u64 = data[off + 6] as u64;
    let b7: u64 = data[off + 7] as u64;
    if little {
        b0 + b1 * 0x100 + b2 * 0x1_0000 + b3 * 0x100_0000 + b4 * 0x1_0000_0000
            + b5 * 0x100_0000_0000 + b6 * 0x1_0000_0000_0000 + b7 * 0x100_0000_0000_0000
    } else {
        b7 + b6 * 0x100 + b5 * 0x1_0000 + b4 * 0x100_0000 + b3 * 0x1_0000_0000
            + b2 * 0x100_0000_0000 + b1 * 0x1_0000_0000_0000 + b0 * 0x100_0000_0000_0000
    }
}

} // verus!
