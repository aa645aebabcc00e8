//! Host controller runtime registers: the microframe index and the
//! per-interrupter register sets (management, moderation, event-ring segment
//! table size and base, event-ring dequeue pointer), plus the address layout
//! of the runtime block.

use vstd::prelude::*;

verus! {

broadcast use crate::bits::lemma_u32_and_le, crate::bits::lemma_u64_and_le;

/// Microframe Index register: a 14-bit free-running counter, read-only.
#[derive(Debug, Copy, Clone)]
pub struct MicroframeIndexRegister {
    data: u32,
}

impl MicroframeIndexRegister {
    /// The raw register word.
    pub closed spec fn raw(&self) -> u32 {
        self.data
    }

    pub fn new(raw: u32) -> (r: Self)
        ensures
            r.raw() == raw,
    {
        Self { data: raw }
    }

    /// The microframe index (bits 13..0).
    pub fn microframe_index(&self) -> (r: u16)
        ensures
            r as u32 == self.raw() & 0x3FFF,
    {
        (self.data & 0x3FFF) as u16
    }
}

/// Interrupter Management register: interrupt pending (write-1-to-clear) and
/// interrupt enable.
#[derive(Debug, Copy, Clone)]
pub struct InterrupterManagementRegister {
    data: u32,
}

impl InterrupterManagementRegister {
    /// The raw register word.
    pub closed spec fn raw(&self) -> u32 {
        self.data
    }

    pub fn new(raw: u32) -> (r: Self)
        ensures
            r.raw() == raw,
    {
        Self { data: raw }
    }

    /// The whole register word, as one read returns it.
    pub fn read(&self) -> (r: u32)
        ensures
            r == self.raw(),
    {
        self.data
    }

    /// Whether an interrupt is pending (bit 0).
    pub fn interrupt_pending(&self) -> (r: bool)
        ensures
            r == (self.raw() & 0x1 != 0),
    {
        (self.data & 0x1) != 0
    }

    /// Sets bit 0 so that writing the value back clears the pending flag
    /// (the hardware bit is write-1-to-clear).
    pub fn clear_interrupt_pending(&mut self)
        ensures
            final(self).raw() == old(self).raw() | 0x1,
    {
        self.data = self.data | 0x1;
    }

    /// Whether the interrupter may raise interrupts (bit 1).
    pub fn interrupt_enable(&self) -> (r: bool)
        ensures
            r == (self.raw() & 0x2 != 0),
    {
        (self.data & 0x2) != 0
    }

    pub fn set_interrupt_enable(&mut self)
        ensures
            final(self).raw() == old(self).raw() | 0x2,
    {
        self.data = self.data | 0x2;
    }

    pub fn clear_interrupt_enable(&mut self)
        ensures
            final(self).raw() == old(self).raw() & 0xFFFF_FFFD,
    {
        self.data = self.data & 0xFFFF_FFFD;
    }
}

/// Interrupter Moderation register: interval and counter, 16 bits each.
#[derive(Debug, Copy, Clone)]
pub struct InterrupterModerationRegister {
    data: u32,
}

impl InterrupterModerationRegister {
    /// The raw register word.
    pub closed spec fn raw(&self) -> u32 {
        self.data
    }

    pub fn new(raw: u32) -> (r: Self)
        ensures
            r.raw() == raw,
    {
        Self { data: raw }
    }

    /// Minimum inter-interrupt interval, in 250 ns units (bits 15..0).
    pub fn interrupt_moderation_interval(&self) -> (r: u16)
        ensures
            r as u32 == self.raw() & 0xFFFF,
    {
        (self.data & 0xFFFF) as u16
    }

    pub fn set_interrupt_moderation_interval(&mut self, interval: u16)
        ensures
            final(self).raw() == (old(self).raw() & 0xFFFF_0000) | interval as u32,
    {
        self.data = (self.data & 0xFFFF_0000) | interval as u32;
    }

    /// Moderation countdown (bits 31..16).
    pub fn interrupt_moderation_counter(&self) -> (r: u16)
        ensures
            r as u32 == (self.raw() >> 16) & 0xFFFF,
    {
        ((self.data >> 16) & 0xFFFF) as u16
    }

    pub fn set_interrupt_moderation_counter(&mut self, counter: u16)
        ensures
            final(self).raw() == (old(self).raw() & 0xFFFF) | ((counter as u32) << 16),
    {
        self.data = (self.data & 0xFFFF) | ((counter as u32) << 16);
    }
}

/// Event Ring Segment Table Size register.
#[derive(Debug, Copy, Clone)]
pub struct EventRingSegmentTableSizeRegister {
    data: u32,
}

impl EventRingSegmentTableSizeRegister {
    /// The raw register word.
    pub closed spec fn raw(&self) -> u32 {
        self.data
    }

    pub fn new(raw: u32) -> (r: Self)
        ensures
            r.raw() == raw,
    {
        Self { data: raw }
    }

    /// Number of segments the event ring segment table supports.
    pub fn get(&self) -> (r: u16)
        requires
            self.raw() <= 0xFFFF,
        ensures
            r as u32 == self.raw(),
    {
        self.data as u16
    }

    /// Sets the number of supported segments.
    pub fn set(&mut self, s: u16)
        ensures
            final(self).raw() == s as u32,
    {
        self.data = s as u32;
    }
}

/// Event Ring Segment Table Base Address register; the table must sit on a
/// 64-byte boundary.
#[derive(Debug, Copy, Clone)]
pub struct EventRingSegmentTableBaseAddressRegister {
    data: u64,
}

impl EventRingSegmentTableBaseAddressRegister {
    /// The raw register value.
    pub closed spec fn raw(&self) -> u64 {
        self.data
    }

    pub fn new(raw: u64) -> (r: Self)
        ensures
            r.raw() == raw,
    {
        Self { data: raw }
    }

    /// The base address of the event ring segment table.
    pub fn get(&self) -> (r: u64)
        ensures
            r == self.raw(),
    {
        self.data
    }

    /// Sets the base address; callers must hand in a 64-byte-aligned one.
    pub fn set(&mut self, a: u64)
        requires
            a & 0x3F == 0,
        ensures
            final(self).raw() == a,
    {
        self.data = a;
    }
}

/// Event Ring Dequeue Pointer register: segment index in bits 2..0, the
/// write-1-to-clear event-handler-busy flag in bit 3, the pointer above.
#[derive(Debug, Copy, Clone)]
pub struct EventRingDequeuePointerRegister {
    data: u64,
}

impl EventRingDequeuePointerRegister {
    /// The raw register value.
    pub closed spec fn raw(&self) -> u64 {
        self.data
    }

    pub fn new(raw: u64) -> (r: Self)
        ensures
            r.raw() == raw,
    {
        Self { data: raw }
    }

    /// The dequeue segment index (bits 2..0).
    pub fn dequeue_erst_segment_index(&self) -> (r: u8)
        ensures
            r as u64 == self.raw() & 0x7,
    {
        (self.data & 0x7) as u8
    }

    pub fn set_dequeue_erst_segment_index(&mut self, index: u8)
        requires
            index < 8,
        ensures
            final(self).raw() == (old(self).raw() & 0xFFFF_FFFF_FFFF_FFF8) | index as u64,
    {
        self.data = (self.data & 0xFFFF_FFFF_FFFF_FFF8) | index as u64;
    }

    /// Whether the event handler is busy (bit 3).
    pub fn event_handler_busy(&self) -> (r: bool)
        ensures
            r == (self.raw() & 0x8 != 0),
    {
        (self.data & 0x8) != 0
    }

    /// Sets bit 3 so that writing the value back clears the busy flag (the
    /// hardware bit is write-1-to-clear).
    pub fn clear_event_handler_busy(&mut self)
        ensures
            final(self).raw() == old(self).raw() | 0x8,
    {
        self.data = self.data | 0x8;
    }

    /// The dequeue pointer itself: the register with its low four bits
    /// masked off.
    pub fn event_ring_dequeue_pointer(&self) -> (r: u64)
        ensures
            r == self.raw() & 0xFFFF_FFFF_FFFF_FFF0,
    {
        self.data & 0xFFFF_FFFF_FFFF_FFF0
    }

    /// Replaces the whole register with a 16-byte-aligned pointer; callers
    /// must hand in an aligned one.
    pub fn set_event_ring_dequeue_pointer(&mut self, p: u64)
        requires
            p & 0xF == 0,
        ensures
            final(self).raw() == p,
    {
        self.data = p;
    }
}

/// One port's register set, as the values one read of each register yields.
#[derive(Debug, Copy, Clone)]
pub struct PortRegisters {
    /// Port status and control.
    pub portsc: u32,
    /// Port power management status and control.
    pub portpmsc: u32,
    /// Port link info.
    pub portli: u32,
}

/// The fixed head of the runtime block, before the interrupter register
/// sets.
#[derive(Debug, Copy, Clone)]
pub struct RuntimeRegisters {
    /// Microframe index, the only register in the head.
    pub mfindex: MicroframeIndexRegister,
}

/// Byte address of interrupter `index` inside the runtime block: the
/// interrupter sets start 0x20 past the runtime base and are 0x20 bytes
/// apart.  At most 1024 interrupters exist.
pub fn interrupter_register_base(mmio_base: u64, rtsoff: u32, index: u32) -> (r: u64)
    requires
        index < 1024,
        mmio_base + rtsoff + 0x20 + 0x20 * (index as int) <= u64::MAX,
    ensures
        r == mmio_base + rtsoff + 0x20 + 0x20 * (index as int),
{
    mmio_base + (rtsoff as u64) + 0x20 + 0x20 * (index as u64)
}

} // verus!
