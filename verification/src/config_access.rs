//! PCI configuration mechanism: the CONFIG_ADDRESS / CONFIG_DATA port pair.
//!
//! `make_address` packs a location into the address-port format: enable bit
//! 31, bus in bits 23..16, device in bits 15..11, function in bits 10..8 and
//! the register offset in bits 7..2 (the low two bits are forced to zero).
//! `ConfigAccessor` models the two ports over a [`ConfigSpace`]: a data-port
//! access decodes whatever the address port currently holds.
//!
//! The composed reads rely on this register layout: word 0 carries the vendor
//! id in its low half and the device id above, word 3 carries the class code
//! with the header type in bits 23..16, and word 6 of a bridge carries the
//! bus numbers with the secondary bus in bits 15..8.

use vstd::prelude::*;
use crate::config_space::{
    cfg_read, cfg_write_effect, ConfigFunction, ConfigSpace, ABSENT_WORD,
};

verus! {

broadcast use crate::bits::lemma_u32_and_le;

/// The CONFIG_ADDRESS word for a configuration-space location.
pub open spec fn spec_make_address(bus: u8, device: u8, function: u8, reg_addr: u8) -> u32 {
    0x8000_0000u32 | ((bus as u32) << 16) | ((device as u32) << 11) | ((function as u32) << 8) | (
    (reg_addr & 0xFC) as u32)
}

/// Packs a configuration-space location into the CONFIG_ADDRESS format.
/// The low two register bits are masked off, not an error.
pub fn make_address(bus: u8, device: u8, function: u8, reg_addr: u8) -> (r: u32)
    ensures
        r == spec_make_address(bus, device, function, reg_addr),
{
    0x8000_0000u32 | ((bus as u32) << 16) | ((device as u32) << 11) | ((function as u32) << 8) | (
    (reg_addr & 0xFC) as u32)
}

/// The configuration offset of base address register `bar_index`.
pub fn calc_bar_address(bar_index: usize) -> (r: u8)
    requires
        bar_index < 6,
    ensures
        r == 0x10 + 4 * bar_index,
{
    (0x10 + 4 * bar_index) as u8
}

/// For an in-range device and function number, decoding a packed address
/// recovers exactly the location and register that went in.
pub proof fn lemma_make_address_fields(bus: u8, device: u8, function: u8, reg_addr: u8)
    requires
        device < 32,
        function < 8,
    ensures
        ({
            let a = spec_make_address(bus, device, function, reg_addr);
            a & 0x8000_0000 != 0 && ((a >> 16) & 0xFF) == bus as u32 && ((a >> 11) & 0x1F)
                == device as u32 && ((a >> 8) & 0x7) == function as u32 && ((a & 0xFC) >> 2) as int
                == reg_addr as int / 4
        }),
{
    let a = spec_make_address(bus, device, function, reg_addr);
    assert(a & 0x8000_0000 != 0 && ((a >> 16) & 0xFF) == bus as u32 && ((a >> 11) & 0x1F)
        == device as u32 && ((a >> 8) & 0x7) == function as u32 && ((a & 0xFC) >> 2) as int
        == reg_addr as int / 4) by (bit_vector)
        requires
            device < 32,
            function < 8,
            a == (0x8000_0000u32 | ((bus as u32) << 16) | ((device as u32) << 11) | ((
            function as u32) << 8) | ((reg_addr & 0xFC) as u32)),
    ;
}

/// What a data-port read returns while the address port holds `address`:
/// all-ones when the enable bit is clear, else the addressed register word.
pub open spec fn spec_data_read(s: Seq<ConfigFunction>, address: u32) -> u32 {
    if address & 0x8000_0000 == 0 {
        ABSENT_WORD
    } else {
        cfg_read(
            s,
            ((address >> 16) & 0xFF) as u8,
            ((address >> 11) & 0x1F) as u8,
            ((address >> 8) & 0x7) as u8,
            ((address & 0xFC) >> 2) as int,
        )
    }
}

/// The register word a composed read of offset `reg_addr` returns.
pub open spec fn spec_read_conf_reg(
    s: Seq<ConfigFunction>,
    bus: u8,
    device: u8,
    function: u8,
    reg_addr: u8,
) -> u32 {
    cfg_read(s, bus, device, function, reg_addr as int / 4)
}

/// Vendor id of a function; `0xFFFF` marks the function absent.
pub open spec fn spec_vendor_id(s: Seq<ConfigFunction>, bus: u8, device: u8, function: u8) -> u32 {
    cfg_read(s, bus, device, function, 0) & 0xFFFF
}

/// Device id of a function.
pub open spec fn spec_device_id(s: Seq<ConfigFunction>, bus: u8, device: u8, function: u8) -> u32 {
    cfg_read(s, bus, device, function, 0) >> 16
}

/// The raw class-code register word of a function.
pub open spec fn spec_class_code_raw(
    s: Seq<ConfigFunction>,
    bus: u8,
    device: u8,
    function: u8,
) -> u32 {
    cfg_read(s, bus, device, function, 3)
}

/// Header type of a function; bit 7 clear marks a single-function device.
pub open spec fn spec_header_type(s: Seq<ConfigFunction>, bus: u8, device: u8, function: u8) -> u8 {
    ((cfg_read(s, bus, device, function, 3) >> 16) & 0xFF) as u8
}

/// The bus-numbers register word of a bridge function; the secondary bus
/// number sits in bits 15..8.
pub open spec fn spec_bus_numbers(s: Seq<ConfigFunction>, bus: u8, device: u8, function: u8) -> u32 {
    cfg_read(s, bus, device, function, 6)
}

/// The CONFIG_ADDRESS / CONFIG_DATA port pair over a modeled configuration
/// space.  These accesses are not serialized against concurrent callers; the
/// caller owns the accessor exclusively for the whole exchange.
#[derive(Debug)]
pub struct ConfigAccessor {
    space: ConfigSpace,
    address: u32,
}

impl ConfigAccessor {
    /// The functions of the underlying configuration space.
    pub closed spec fn entries(&self) -> Seq<ConfigFunction> {
        self.space.entries()
    }

    /// The word the address port currently holds.
    pub closed spec fn spec_address(&self) -> u32 {
        self.address
    }

    pub fn new(space: ConfigSpace) -> (r: Self)
        ensures
            r.entries() == space.entries(),
            r.spec_address() == 0,
    {
        Self { space, address: 0 }
    }

    /// Hands the underlying configuration space back.
    pub fn into_space(self) -> (r: ConfigSpace)
        ensures
            r.entries() == self.entries(),
    {
        self.space
    }

    /// Latches an address word into the CONFIG_ADDRESS port.
    pub fn write_address(&mut self, addr: u32)
        ensures
            final(self).spec_address() == addr,
            final(self).entries() == old(self).entries(),
    {
        self.address = addr;
    }

    /// Reads the CONFIG_DATA port: the register the latched address selects.
    pub fn read_data(&self) -> (r: u32)
        ensures
            r == spec_data_read(self.entries(), self.spec_address()),
    {
        let a = self.address;
        if a & 0x8000_0000 == 0 {
            return ABSENT_WORD;
        }
        let bus: u8 = ((a >> 16) & 0xFF) as u8;
        let device: u8 = ((a >> 11) & 0x1F) as u8;
        let function: u8 = ((a >> 8) & 0x7) as u8;
        let reg_index: usize = ((a & 0xFC) >> 2) as usize;
        self.space.read_reg32(bus, device, function, reg_index)
    }

    /// Writes the CONFIG_DATA port: replaces the register the latched address
    /// selects, if the addressed function carries it.
    pub fn write_data(&mut self, value: u32)
        ensures
            final(self).spec_address() == old(self).spec_address(),
            ({
                let a = old(self).spec_address();
                if a & 0x8000_0000 == 0 {
                    final(self).entries() == old(self).entries()
                } else {
                    cfg_write_effect(
                        old(self).entries(),
                        final(self).entries(),
                        ((a >> 16) & 0xFF) as u8,
                        ((a >> 11) & 0x1F) as u8,
                        ((a >> 8) & 0x7) as u8,
                        ((a & 0xFC) >> 2) as int,
                        value,
                    )
                }
            }),
    {
        let a = self.address;
        if a & 0x8000_0000 == 0 {
            return ;
        }
        let bus: u8 = ((a >> 16) & 0xFF) as u8;
        let device: u8 = ((a >> 11) & 0x1F) as u8;
        let function: u8 = ((a >> 8) & 0x7) as u8;
        let reg_index: usize = ((a & 0xFC) >> 2) as usize;
        self.space.write_reg32(bus, device, function, reg_index, value);
    }

    /// Reads one whole configuration register of a function.
    pub fn read_conf_reg(&mut self, bus: u8, device: u8, function: u8, reg_addr: u8) -> (r: u32)
        requires
            device < 32,
            function < 8,
        ensures
            r == spec_read_conf_reg(old(self).entries(), bus, device, function, reg_addr),
            final(self).entries() == old(self).entries(),
    {
        proof {
            lemma_make_address_fields(bus, device, function, reg_addr);
        }
        self.write_address(make_address(bus, device, function, reg_addr));
        self.read_data()
    }

    /// Reads the vendor id of a function; `0xFFFF` marks it absent.
    pub fn read_vendor_id(&mut self, bus: u8, device: u8, function: u8) -> (r: u32)
        requires
            device < 32,
            function < 8,
        ensures
            r == spec_vendor_id(old(self).entries(), bus, device, function),
            final(self).entries() == old(self).entries(),
    {
        proof {
            lemma_make_address_fields(bus, device, function, 0x00);
        }
        self.write_address(make_address(bus, device, function, 0x00));
        self.read_data() & 0xFFFF
    }

    /// Reads the device id of a function.
    pub fn read_device_id(&mut self, bus: u8, device: u8, function: u8) -> (r: u16)
        requires
            device < 32,
            function < 8,
        ensures
            r as u32 == spec_device_id(old(self).entries(), bus, device, function),
            final(self).entries() == old(self).entries(),
    {
        proof {
            lemma_make_address_fields(bus, device, function, 0x00);
        }
        self.write_address(make_address(bus, device, function, 0x00));
        let data = self.read_data();
        proof {
            crate::bits::lemma_u32_shr16_bound(data);
        }
        (data >> 16) as u16
    }

    /// Reads the raw class-code register of a function.
    pub fn read_class_code(&mut self, bus: u8, device: u8, function: u8) -> (r: u32)
        requires
            device < 32,
            function < 8,
        ensures
            r == spec_class_code_raw(old(self).entries(), bus, device, function),
            final(self).entries() == old(self).entries(),
    {
        proof {
            lemma_make_address_fields(bus, device, function, 0x0C);
        }
        self.write_address(make_address(bus, device, function, 0x0C));
        self.read_data()
    }

    /// Reads the header type of a function.
    pub fn read_header_type(&mut self, bus: u8, device: u8, function: u8) -> (r: u8)
        requires
            device < 32,
            function < 8,
        ensures
            r == spec_header_type(old(self).entries(), bus, device, function),
            final(self).entries() == old(self).entries(),
    {
        proof {
            lemma_make_address_fields(bus, device, function, 0x0C);
        }
        self.write_address(make_address(bus, device, function, 0x0C));
        ((self.read_data() >> 16) & 0xFF) as u8
    }

    /// Reads the bus-numbers register of a bridge function.
    pub fn read_bus_numbers(&mut self, bus: u8, device: u8, function: u8) -> (r: u32)
        requires
            device < 32,
            function < 8,
        ensures
            r == spec_bus_numbers(old(self).entries(), bus, device, function),
            final(self).entries() == old(self).entries(),
    {
        proof {
            lemma_make_address_fields(bus, device, function, 0x18);
        }
        self.write_address(make_address(bus, device, function, 0x18));
        self.read_data()
    }
}

/// Bit 7 of the header type clear marks a single-function device.
pub fn is_single_function_device(header_type: u8) -> (r: bool)
    ensures
        r == (header_type & 0x80 == 0),
{
    (header_type & 0x80) == 0
}

} // verus!
