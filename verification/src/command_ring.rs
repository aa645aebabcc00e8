//! Command Ring Control Register: a 64-bit ring pointer packed across two
//! 32-bit halves, sharing its low dword with four control bits.
//!
//! The logical pointer is reconstructed as `(low >> 6) | (high << 26)`.  A
//! pointer write keeps the low six control bits and replaces the pointer
//! bits; the written pointer must be 64-byte aligned (its low six bits zero),
//! anything else is refused as misaligned rather than silently truncated.

use vstd::prelude::*;
use crate::bits::{bit_read, bit_written, read_bit32, write_bit32};
use crate::errors::XhciError;

verus! {

/// Ring cycle state (low dword bit 0).
pub const RING_CYCLE_STATE: u32 = 0;

/// Command stop (low dword bit 1).
pub const COMMAND_STOP: u32 = 1;

/// Command abort (low dword bit 2).
pub const COMMAND_ABORT: u32 = 2;

/// Command ring running, read-only (low dword bit 3).
pub const COMMAND_RING_RUNNING: u32 = 3;

/// Number of low bits of the low dword reserved for control bits.
pub const COMMAND_RING_POINTER_OFFSET: u32 = 6;

/// Low dword of the register: control bits 5..0 and pointer bits 25..0 in
/// positions 31..6.
#[derive(Debug, Copy, Clone)]
pub struct CRCRLow {
    data: u32,
}

impl CRCRLow {
    /// The raw dword.
    pub closed spec fn raw(&self) -> u32 {
        self.data
    }

    pub fn new(raw: u32) -> (r: Self)
        ensures
            r.raw() == raw,
    {
        Self { data: raw }
    }

    pub fn read(&self) -> (r: u32)
        ensures
            r == self.raw(),
    {
        self.data
    }
}

/// High dword of the register: pointer bits 57..26.
#[derive(Debug, Copy, Clone)]
pub struct CRCRHigh {
    data: u32,
}

impl CRCRHigh {
    /// The raw dword.
    pub closed spec fn raw(&self) -> u32 {
        self.data
    }

    pub fn new(raw: u32) -> (r: Self)
        ensures
            r.raw() == raw,
    {
        Self { data: raw }
    }

    pub fn read(&self) -> (r: u32)
        ensures
            r == self.raw(),
    {
        self.data
    }
}

/// The logical ring pointer the two halves encode.
pub open spec fn spec_command_ring_pointer(low: u32, high: u32) -> u64 {
    ((low as u64) >> 6) | ((high as u64) << 26)
}

/// Both halves of the Command Ring Control Register.
#[derive(Debug, Copy, Clone)]
pub struct CommandRingControlRegister {
    low_bit: CRCRLow,
    high_bit: CRCRHigh,
}

impl CommandRingControlRegister {
    /// The raw low dword.
    pub closed spec fn low_raw(&self) -> u32 {
        self.low_bit.raw()
    }

    /// The raw high dword.
    pub closed spec fn high_raw(&self) -> u32 {
        self.high_bit.raw()
    }

    pub fn new(low: u32, high: u32) -> (r: Self)
        ensures
            r.low_raw() == low,
            r.high_raw() == high,
    {
        Self { low_bit: CRCRLow::new(low), high_bit: CRCRHigh::new(high) }
    }

    pub fn r_ring_cycle_state(&self) -> (r: bool)
        ensures
            r == bit_read(self.low_raw(), RING_CYCLE_STATE),
    {
        read_bit32(self.low_bit.read(), RING_CYCLE_STATE)
    }

    pub fn w_ring_cycle_state(&mut self, bit: bool)
        ensures
            final(self).low_raw() == bit_written(old(self).low_raw(), RING_CYCLE_STATE, bit),
            final(self).high_raw() == old(self).high_raw(),
    {
        self.low_bit = CRCRLow::new(write_bit32(self.low_bit.read(), bit, RING_CYCLE_STATE));
    }

    pub fn r_command_stop(&self) -> (r: bool)
        ensures
            r == bit_read(self.low_raw(), COMMAND_STOP),
    {
        read_bit32(self.low_bit.read(), COMMAND_STOP)
    }

    pub fn w_command_stop(&mut self, bit: bool)
        ensures
            final(self).low_raw() == bit_written(old(self).low_raw(), COMMAND_STOP, bit),
            final(self).high_raw() == old(self).high_raw(),
    {
        self.low_bit = CRCRLow::new(write_bit32(self.low_bit.read(), bit, COMMAND_STOP));
    }

    pub fn r_command_abort(&self) -> (r: bool)
        ensures
            r == bit_read(self.low_raw(), COMMAND_ABORT),
    {
        read_bit32(self.low_bit.read(), COMMAND_ABORT)
    }

    pub fn w_command_abort(&mut self, bit: bool)
        ensures
            final(self).low_raw() == bit_written(old(self).low_raw(), COMMAND_ABORT, bit),
            final(self).high_raw() == old(self).high_raw(),
    {
        self.low_bit = CRCRLow::new(write_bit32(self.low_bit.read(), bit, COMMAND_ABORT));
    }

    pub fn r_command_ring_running(&self) -> (r: bool)
        ensures
            r == bit_read(self.low_raw(), COMMAND_RING_RUNNING),
    {
        read_bit32(self.low_bit.read(), COMMAND_RING_RUNNING)
    }

    /// The logical ring pointer currently held.
    pub fn r_command_ring_pointer(&self) -> (r: u64)
        ensures
            r == spec_command_ring_pointer(self.low_raw(), self.high_raw()),
    {
        let command_ring_pointer_lo: u64 = (self.low_bit.read() as u64)
            >> COMMAND_RING_POINTER_OFFSET;
        let command_ring_pointer_hi: u64 = self.high_bit.read() as u64;

        command_ring_pointer_lo | (command_ring_pointer_hi << 26)
    }

    /// Installs a 64-byte-aligned ring pointer, keeping the low six control
    /// bits.  A pointer with any of its low six bits set is refused.
    pub fn w_command_ring_pointer(&mut self, pointer: u64) -> (r: Result<(), XhciError>)
        ensures
            pointer & 0x3F != 0 ==> r == Err::<(), XhciError>(XhciError::MisalignedPointer)
                && *final(self) == *old(self),
            pointer & 0x3F == 0 ==> r is Ok && final(self).low_raw() == ((old(self).low_raw()
                & 0x3F) | ((pointer << 6) as u32)) && final(self).high_raw() == (pointer
                >> 26) as u32 && final(self).low_raw() & 0x3F == old(self).low_raw() & 0x3F
                && spec_command_ring_pointer(final(self).low_raw(), final(self).high_raw())
                == pointer & 0x03FF_FFFF_FFFF_FFFF,
    {
        if pointer & 0x3F != 0 {
            return Err(XhciError::MisalignedPointer);
        }
        let before_pointer_lo: u32 = self.low_bit.read() & 0x3F;
        let pointer_lo: u32 = (pointer << COMMAND_RING_POINTER_OFFSET) as u32;
        let pointer_hi: u32 = (pointer >> 26) as u32;

        proof {
            lemma_crcr_pointer_round_trip(old(self).low_raw(), pointer);
        }
        self.low_bit = CRCRLow::new(before_pointer_lo | pointer_lo);
        self.high_bit = CRCRHigh::new(pointer_hi);
        Ok(())
    }
}

/// Writing an aligned pointer into the two halves reads back as the pointer
/// itself, up to the 58 bits the register can carry, and leaves the control
/// bits alone.
pub proof fn lemma_crcr_pointer_round_trip(low: u32, pointer: u64)
    requires
        pointer & 0x3F == 0,
    ensures
        ({
            let new_low = (low & 0x3F) | ((pointer << 6) as u32);
            let new_high = (pointer >> 26) as u32;
            spec_command_ring_pointer(new_low, new_high) == pointer & 0x03FF_FFFF_FFFF_FFFF
                && new_low & 0x3F == low & 0x3F
        }),
{
    let new_low = (low & 0x3F) | ((pointer << 6) as u32);
    let new_high = (pointer >> 26) as u32;
    assert(((new_low as u64) >> 6) | ((new_high as u64) << 26) == pointer & 0x03FF_FFFF_FFFF_FFFF
        && new_low & 0x3F == low & 0x3F) by (bit_vector)
        requires
            pointer & 0x3F == 0,
            new_low == (low & 0x3F) | ((pointer << 6) as u32),
            new_high == (pointer >> 26) as u32,
    ;
}

} // verus!
