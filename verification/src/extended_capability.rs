//! xHCI extended capabilities: the linked header format and the USB Legacy
//! Support record the ownership handoff needs.

use vstd::prelude::*;

verus! {

broadcast use crate::bits::lemma_u32_and_le;

/// Capability id of the USB Legacy Support record.
pub const USB_LEGACY_SUPPORT_ID: u8 = 1;

/// First dword of any extended capability: its id in bits 7..0 and the
/// offset of the next capability in bits 15..8, counted in 32-bit words from
/// this capability; zero ends the list.
#[derive(Debug, Copy, Clone)]
pub struct ExtendedCapabilityHeader {
    data: u32,
}

impl ExtendedCapabilityHeader {
    /// The raw header dword.
    pub closed spec fn raw(&self) -> u32 {
        self.data
    }

    pub fn new(raw: u32) -> (r: Self)
        ensures
            r.raw() == raw,
    {
        Self { data: raw }
    }

    /// The capability id (bits 7..0).
    pub fn capability_id(&self) -> (r: u8)
        ensures
            r as u32 == self.raw() & 0xFF,
    {
        (self.data & 0xFF) as u8
    }

    /// Word offset of the next capability, relative to this one (bits 15..8);
    /// zero ends the list.
    pub fn next_capability_offset(&self) -> (r: u8)
        ensures
            r as u32 == (self.raw() >> 8) & 0xFF,
    {
        ((self.data >> 8) & 0xFF) as u8
    }
}

/// USB Legacy Support register (USBLEGSUP): the BIOS-owned semaphore in bit
/// 16 and the OS-owned semaphore in bit 24.  Firmware hands the controller
/// over by clearing its own bit once the OS has set its bit.
#[derive(Debug, Copy, Clone)]
pub struct UsbLegacySupportRegister {
    data: u32,
}

impl UsbLegacySupportRegister {
    /// The raw register word.
    pub closed spec fn raw(&self) -> u32 {
        self.data
    }

    pub fn new(raw: u32) -> (r: Self)
        ensures
            r.raw() == raw,
    {
        Self { data: raw }
    }

    /// The whole register word, as one read returns it.
    pub fn read(&self) -> (r: u32)
        ensures
            r == self.raw(),
    {
        self.data
    }

    /// Whether firmware still owns the controller (bit 16).
    pub fn hc_bios_owned_semaphore(&self) -> (r: bool)
        ensures
            r == (self.raw() & 0x0001_0000 != 0),
    {
        (self.data & 0x0001_0000) != 0
    }

    /// Whether the OS owns the controller (bit 24).
    pub fn hc_os_owned_semaphore(&self) -> (r: bool)
        ensures
            r == (self.raw() & 0x0100_0000 != 0),
    {
        (self.data & 0x0100_0000) != 0
    }

    /// Requests ownership: sets the OS-owned semaphore.
    pub fn set_hc_os_owned_semaphore(&mut self)
        ensures
            final(self).raw() == old(self).raw() | 0x0100_0000,
    {
        self.data = self.data | 0x0100_0000;
    }
}

/// The handoff is complete exactly when the OS-owned semaphore holds and the
/// BIOS-owned semaphore has cleared.
pub open spec fn spec_handoff_complete(raw: u32) -> bool {
    raw & 0x0100_0000 != 0 && raw & 0x0001_0000 == 0
}

} // verus!
