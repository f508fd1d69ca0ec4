//! Little-endian field readers over byte buffers.

use vstd::prelude::*;

verus! {

/// The unsigned 32-bit value of the four bytes at `off`, least significant first.
pub open spec fn le_u32(b: Seq<u8>, off: int) -> u32 {
    (b[off] as int + b[off + 1] as int * 0x100 + b[off + 2] as int * 0x1_0000 + b[off + 3] as int
        * 0x100_0000) as u32
}

/// The signed 32-bit value of the four bytes at `off` (two's complement).
pub open spec fn le_i32(b: Seq<u8>, off: int) -> i32 {
    le_u32(b, off) as i32
}

/// A one-byte boolean: any non-zero byte is true.
pub open spec fn flag(b: Seq<u8>, off: int) -> bool {
    b[off] != 0
}

/// Failure to decode: the buffer is not exactly as long as the record.
#[derive(Debug, Clone, Copy, PartialEq, Eq, Structural)]
pub struct LayoutError {
    pub expected: usize,
    pub found: usize,
}

pub fn read_u32_le(b: &Vec<u8>, off: usize) -> (r: u32)
    requires
        off + 4 <= b@.len(),
    ensures
        r == le_u32(b@, off as int),
{
    let len = b.len();
    assert(off + 3 < len);
    let b0 = b[off] as u32;
    let b1 = b[off + 1] as u32;
    let b2 = b[off + 2] as u32;
    let b3 = b[off + 3] as u32;
    assert(b0 + b1 * 0x100 + b2 * 0x1_0000 + b3 * 0x100_0000 <= 0xFFFF_FFFF) by (nonlinear_arith)
        requires
            b0 < 256,
            b1 < 256,
            b2 < 256,
            b3 < 256,
    ;
    b0 + b1 * 0x100 + b2 * 0x1_0000 + b3 * 0x100_0000
}

pub fn read_i32_le(b: &Vec<u8>, off: usize) -> (r: i32)
    requires
        off + 4 <= b@.len(),
    ensures
        r == le_i32(b@, off as int),
{
    read_u32_le(b, off) as i32
}

pub fn read_flag(b: &Vec<u8>, off: usize) -> (r: bool)
    requires
        off < b@.len(),
    ensures
        r == flag(b@, off as int),
{
    b[off] != 0
}


/// The signed value of four little-endian bytes, as plain arithmetic: the unsigned
/// value, less 2^32 when the top bit is set.
pub proof fn lemma_le_i32_value(b: Seq<u8>, off: int)
    requires
        0 <= off,
        off + 4 <= b.len(),
    ensures
        ({
            let u = b[off] as int + b[off + 1] as int * 0x100 + b[off + 2] as int * 0x1_0000
                + b[off + 3] as int * 0x100_0000;
            le_u32(b, off) as int == u && le_i32(b, off) as int == if u < 0x8000_0000 {
                u
            } else {
                u - 0x1_0000_0000
            }
        }),
{
    let u = b[off] as int + b[off + 1] as int * 0x100 + b[off + 2] as int * 0x1_0000 + b[off + 3] as int
        * 0x100_0000;
    assert(0 <= u <= 0xFFFF_FFFF) by (nonlinear_arith)
        requires
            u == b[off] as int + b[off + 1] as int * 0x100 + b[off + 2] as int * 0x1_0000 + b[off
                + 3] as int * 0x100_0000,
            0 <= b[off] < 256,
            0 <= b[off + 1] < 256,
            0 <= b[off + 2] < 256,
            0 <= b[off + 3] < 256,
    ;
    let v = le_u32(b, off);
    assert(v as int == u);
    assert(v < 0x8000_0000 ==> v as i32 as int == v as int) by (bit_vector);
    assert(v >= 0x8000_0000 ==> v as i32 as int == v as int - 0x1_0000_0000) by (bit_vector);
}

} // verus!
