//! Single-bit reads and read-modify-write updates on 32-bit register values,
//! together with the small bit-level facts the rest of the crate leans on.

use vstd::prelude::*;

verus! {

/// Whether bit `position` of `data` is set.
pub open spec fn bit_read(data: u32, position: u32) -> bool {
    data & (1u32 << position) != 0
}

/// `data` with bit `position` forced to `on_off`, all other bits kept.
pub open spec fn bit_written(data: u32, position: u32, on_off: bool) -> u32 {
    if on_off {
        data | (1u32 << position)
    } else {
        data & !(1u32 << position)
    }
}

/// Reads one bit of a register value.
pub fn read_bit32(data: u32, position: u32) -> (r: bool)
    requires
        position < 32,
    ensures
        r == bit_read(data, position),
{
    let mask: u32 = 1u32 << position;
    (data & mask) != 0
}

/// Read-modify-write of one bit: returns the value to store back.
pub fn write_bit32(data: u32, on_off: bool, position: u32) -> (r: u32)
    requires
        position < 32,
    ensures
        r == bit_written(data, position, on_off),
{
    let mask: u32 = 1u32 << position;
    if on_off {
        data | mask
    } else {
        data & !mask
    }
}

/// A masked value never exceeds the mask.
pub broadcast proof fn lemma_u32_and_le(x: u32, m: u32)
    ensures
        #[trigger] (x & m) <= m,
{
    assert(x & m <= m) by (bit_vector);
}

/// A masked value never exceeds the mask (64-bit).
pub broadcast proof fn lemma_u64_and_le(x: u64, m: u64)
    ensures
        #[trigger] (x & m) <= m,
{
    assert(x & m <= m) by (bit_vector);
}

/// The upper half of a 32-bit word fits in 16 bits.
pub proof fn lemma_u32_shr16_bound(x: u32)
    ensures
        x >> 16 <= 0xFFFF,
{
    assert(x >> 16 <= 0xFFFF) by (bit_vector);
}

/// Writing a bit sets exactly that bit: reading it back yields the written
/// value and every other position is untouched.
pub proof fn lemma_bit_write_then_read(data: u32, position: u32, on_off: bool)
    requires
        position < 32,
    ensures
        bit_read(bit_written(data, position, on_off), position) == on_off,
        forall|q: u32|
            q < 32 && q != position ==> #[trigger] bit_read(
                bit_written(data, position, on_off),
                q,
            ) == bit_read(data, q),
{
    let w = bit_written(data, position, on_off);
    assert((if on_off {
        (data | (1u32 << position)) & (1u32 << position) != 0
    } else {
        (data & !(1u32 << position)) & (1u32 << position) != 0
    }) == on_off) by (bit_vector)
        requires
            position < 32,
    ;
    assert forall|q: u32| q < 32 && q != position implies #[trigger] bit_read(w, q) == bit_read(
        data,
        q,
    ) by {
        assert((if on_off {
            (data | (1u32 << position)) & (1u32 << q) != 0
        } else {
            (data & !(1u32 << position)) & (1u32 << q) != 0
        }) == (data & (1u32 << q) != 0)) by (bit_vector)
            requires
                position < 32,
                q < 32,
                q != position,
        ;
    }
}

} // verus!
