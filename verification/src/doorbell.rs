//! Doorbell array: one 32-bit entry per device slot.  Writing an entry is
//! the trigger itself; the controller gives no read-back confirmation.

use vstd::prelude::*;

verus! {

broadcast use crate::bits::lemma_u32_and_le;

/// One element of the doorbell array.
#[derive(Debug, Copy, Clone)]
pub struct Doorbell {
    data: u32,
}

impl Doorbell {
    /// The raw entry word.
    pub closed spec fn raw(&self) -> u32 {
        self.data
    }

    pub fn new(raw: u32) -> (r: Self)
        ensures
            r.raw() == raw,
    {
        Self { data: raw }
    }

    /// The whole entry word, as it is written to the array.
    pub fn read(&self) -> (r: u32)
        ensures
            r == self.raw(),
    {
        self.data
    }

    /// The doorbell target (bits 7..0).
    pub fn doorbell_target(&self) -> (r: u8)
        ensures
            r as u32 == self.raw() & 0xFF,
    {
        (self.data & 0xFF) as u8
    }

    pub fn set_doorbell_target(&mut self, target: u8)
        ensures
            final(self).raw() == (old(self).raw() & 0xFFFF_FF00) | target as u32,
    {
        self.data = (self.data & 0xFFFF_FF00) | target as u32;
    }

    /// The doorbell stream id (bits 31..16).
    pub fn doorbell_stream_id(&self) -> (r: u16)
        ensures
            r as u32 == (self.raw() >> 16) & 0xFFFF,
    {
        ((self.data >> 16) & 0xFFFF) as u16
    }

    pub fn set_doorbell_stream_id(&mut self, stream_id: u16)
        ensures
            final(self).raw() == (old(self).raw() & 0xFFFF) | ((stream_id as u32) << 16),
    {
        self.data = (self.data & 0xFFFF) | ((stream_id as u32) << 16);
    }
}

/// Byte address of doorbell `slot`: entries are 4 bytes apart, starting at
/// the doorbell-array offset from the MMIO base.  The array holds one entry
/// per device slot, and slot numbers are 8 bits.
pub fn doorbell_address(mmio_base: u64, doorbell_array_offset: u32, slot: u8) -> (r: u64)
    requires
        mmio_base + doorbell_array_offset + 4 * (slot as int) <= u64::MAX,
    ensures
        r == mmio_base + doorbell_array_offset + 4 * (slot as int),
{
    mmio_base + (doorbell_array_offset as u64) + 4 * (slot as u64)
}

} // verus!
