//! PCI class codes and the immutable record of one discovered PCI function.

use vstd::prelude::*;

verus! {

broadcast use crate::bits::lemma_u32_and_le;

/// Class-code triple of a PCI function, decoded from the 32-bit class-code
/// register.  The reserved low byte of the raw register is not modeled; a
/// round trip through the raw value keeps base, sub and interface exactly.
#[derive(Debug, Copy, Clone, Eq, PartialEq, Structural)]
pub struct ClassCode {
    pub base: u8,
    pub sub: u8,
    pub interface: u8,
}

/// The class-code triple encoded in a raw class-code register value.
pub open spec fn class_code_of_raw(value: u32) -> ClassCode {
    ClassCode {
        base: ((value >> 24) & 0xFF) as u8,
        sub: ((value >> 16) & 0xFF) as u8,
        interface: ((value >> 8) & 0xFF) as u8,
    }
}

/// The raw class-code register value for a class-code triple; the reserved
/// low byte reads back as zero.
pub open spec fn raw_of_class_code(c: ClassCode) -> u32 {
    ((c.base as u32) << 24) | ((c.sub as u32) << 16) | ((c.interface as u32) << 8)
}

impl ClassCode {
    pub fn new(base: u8, sub: u8, interface: u8) -> (r: Self)
        ensures
            r == (ClassCode { base, sub, interface }),
    {
        Self { base, sub, interface }
    }

    /// True when the base class matches.
    pub fn equal_b(&self, base: u8) -> (r: bool)
        ensures
            r == (self.base == base),
    {
        self.base == base
    }

    /// True when base and sub class match.
    pub fn equal_bs(&self, base: u8, sub: u8) -> (r: bool)
        ensures
            r == (self.base == base && self.sub == sub),
    {
        self.equal_b(base) && self.sub == sub
    }

    /// True when base, sub class and interface all match.
    pub fn equal_bsi(&self, base: u8, sub: u8, interface: u8) -> (r: bool)
        ensures
            r == (self.base == base && self.sub == sub && self.interface == interface),
    {
        self.equal_bs(base, sub) && self.interface == interface
    }
}

impl Default for ClassCode {
    fn default() -> (r: Self)
        ensures
            r == (ClassCode { base: 0, sub: 0, interface: 0 }),
    {
        Self { base: 0, sub: 0, interface: 0 }
    }
}

impl From<u32> for ClassCode {
    fn from(value: u32) -> (r: Self) {
        ClassCode::new(
            ((value >> 24) & 0xFF) as u8,
            ((value >> 16) & 0xFF) as u8,
            ((value >> 8) & 0xFF) as u8,
        )
    }
}

impl vstd::std_specs::convert::FromSpecImpl<u32> for ClassCode {
    open spec fn obeys_from_spec() -> bool {
        true
    }

    open spec fn from_spec(value: u32) -> ClassCode {
        class_code_of_raw(value)
    }
}

impl From<ClassCode> for u32 {
    fn from(value: ClassCode) -> (r: u32) {
        ((value.base as u32) << 24) | ((value.sub as u32) << 16) | ((value.interface as u32) << 8)
    }
}

impl vstd::std_specs::convert::FromSpecImpl<ClassCode> for u32 {
    open spec fn obeys_from_spec() -> bool {
        true
    }

    open spec fn from_spec(value: ClassCode) -> u32 {
        raw_of_class_code(value)
    }
}

/// Encoding a class-code triple and decoding the result reproduces base, sub
/// and interface exactly; only the reserved low byte of the raw register is
/// outside the model.
pub proof fn lemma_class_code_round_trip(c: ClassCode)
    ensures
        class_code_of_raw(raw_of_class_code(c)) == c,
{
    let b = c.base;
    let s = c.sub;
    let i = c.interface;
    let raw = ((b as u32) << 24) | ((s as u32) << 16) | ((i as u32) << 8);
    assert(((raw >> 24) & 0xFF) == b && ((raw >> 16) & 0xFF) == s && ((raw >> 8) & 0xFF) == i)
        by (bit_vector)
        requires
            raw == ((b as u32) << 24) | ((s as u32) << 16) | ((i as u32) << 8),
    ;
}

/// The six base-address-register words of one PCI function, cached at scan
/// time so that BAR decoding needs no further configuration-space access.
#[derive(Debug, Copy, Clone, Eq, PartialEq, Structural, Default)]
pub struct BarSet {
    pub bar0: u32,
    pub bar1: u32,
    pub bar2: u32,
    pub bar3: u32,
    pub bar4: u32,
    pub bar5: u32,
}

impl BarSet {
    /// The BAR word at `index`.
    pub open spec fn spec_word(self, index: int) -> u32 {
        if index == 0 {
            self.bar0
        } else if index == 1 {
            self.bar1
        } else if index == 2 {
            self.bar2
        } else if index == 3 {
            self.bar3
        } else if index == 4 {
            self.bar4
        } else {
            self.bar5
        }
    }

    pub fn word(&self, index: usize) -> (r: u32)
        requires
            index < 6,
        ensures
            r == self.spec_word(index as int),
    {
        match index {
            0 => self.bar0,
            1 => self.bar1,
            2 => self.bar2,
            3 => self.bar3,
            4 => self.bar4,
            _ => self.bar5,
        }
    }
}

/// One PCI function discovered during the scan.  Created once, immutable
/// afterwards, stored by value in the registry.
#[derive(Debug, Copy, Clone)]
pub struct Device {
    pub bus: u8,
    pub device: u8,
    pub function: u8,
    pub header_type: u8,
    pub class_code: ClassCode,
    pub vendor_id: u16,
    pub bars: BarSet,
}

/// The base address a BAR window denotes, decoded from the cached BAR words.
pub open spec fn spec_read_bar(d: Device, bar_index: int) -> Option<u64> {
    if bar_index < 0 || bar_index >= 6 {
        None
    } else if d.bars.spec_word(bar_index) & 0b0100 == 0 {
        Some(d.bars.spec_word(bar_index) as u64)
    } else if bar_index >= 5 {
        None
    } else {
        Some((d.bars.spec_word(bar_index) as u64) | ((d.bars.spec_word(bar_index + 1) as u64) << 32))
    }
}

impl Device {
    pub fn new(
        bus: u8,
        device: u8,
        function: u8,
        header_type: u8,
        class_code: ClassCode,
        vendor_id: u16,
        bars: BarSet,
    ) -> (r: Self)
        ensures
            r == (Device { bus, device, function, header_type, class_code, vendor_id, bars }),
    {
        Self { bus, device, function, header_type, class_code, vendor_id, bars }
    }

    /// Decodes the base address in the BAR window starting at `bar_index`.
    /// `None` exactly when the index is out of range, or when the window is a
    /// 64-bit one starting in the final slot.
    pub fn read_bar(&self, bar_index: usize) -> (r: Option<u64>)
        ensures
            r == spec_read_bar(*self, bar_index as int),
    {
        if bar_index >= 6 {
            return None;
        }
        let bar: u32 = self.bars.word(bar_index);

        // A clear bit 2 marks a 32-bit memory window.
        if (bar & 0b0100) == 0 {
            return Some(bar as u64);
        }

        // A 64-bit window occupies two consecutive slots; one starting in the
        // last slot has no upper half.
        if bar_index >= 5 {
            return None;
        }

        let bar_upper: u64 = self.bars.word(bar_index + 1) as u64;
        Some((bar as u64) | (bar_upper << 32))
    }

    /// The class-code triple cached at scan time.
    pub fn read_class_code(&self) -> (r: ClassCode)
        ensures
            r == self.class_code,
    {
        self.class_code
    }

    /// The vendor id cached at scan time, widened as the raw read returns it.
    pub fn read_vendor_id(&self) -> (r: u32)
        ensures
            r == self.vendor_id as u32,
    {
        self.vendor_id as u32
    }
}

impl Default for Device {
    fn default() -> (r: Self)
        ensures
            r.bus == 0 && r.device == 0 && r.function == 0,
            r.header_type == 0,
            r.class_code == (ClassCode { base: 0, sub: 0, interface: 0 }),
            r.vendor_id == 0,
            r.bars == (BarSet { bar0: 0, bar1: 0, bar2: 0, bar3: 0, bar4: 0, bar5: 0 }),
    {
        Self {
            bus: 0,
            device: 0,
            function: 0,
            header_type: 0,
            class_code: ClassCode { base: 0, sub: 0, interface: 0 },
            vendor_id: 0,
            bars: BarSet { bar0: 0, bar1: 0, bar2: 0, bar3: 0, bar4: 0, bar5: 0 },
        }
    }
}

} // verus!
