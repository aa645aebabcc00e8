//! xHCI operational register block: command, status, page size, device
//! notification control, command ring control, device context base array
//! pointer and configure registers, each modeled as the value one
//! hardware-width access moves.

use vstd::prelude::*;
use crate::bits::{bit_read, bit_written, read_bit32, write_bit32};
use crate::command_ring::CommandRingControlRegister;
use crate::dcbaap::DeviceContextBaseAddressArrayPointerRegister;

verus! {

broadcast use crate::bits::lemma_u32_and_le;

/// Run/stop (bit 0).
pub const RUN_STOP: u32 = 0;
/// Host controller reset (bit 1).
pub const HOST_CONTROLLER_RESET: u32 = 1;
/// Interrupter enable (bit 2).
pub const INTERRUPTER_ENABLE: u32 = 2;
/// Host system error enable (bit 3).
pub const HOST_SYSTEM_ERROR_ENABLE: u32 = 3;
/// Light host controller reset (bit 7).
pub const LIGHT_HOST_CONTROLLER_RESET: u32 = 7;
/// Controller save state (bit 8).
pub const CONTROLLER_SAVE_STATE: u32 = 8;
/// Controller restore state (bit 9).
pub const CONTROLLER_RESTORE_STATE: u32 = 9;
/// Enable wrap event (bit 10).
pub const ENABLE_WRAP_EVENT: u32 = 10;
/// Enable U3 MFINDEX stop (bit 11).
pub const ENABLE_U3_MFINDEX_STOP: u32 = 11;
/// Configuration-endpoint-mismatch enable (bit 13).
pub const CEM_ENABLE: u32 = 13;
/// Extended TBC enable (bit 14).
pub const EXTENDED_TBC_ENABLE: u32 = 14;
/// Extended TBC TRB-status enable (bit 15).
pub const EXTENDED_TBC_TRB_STATUS_ENABLE: u32 = 15;
/// VTIO enable (bit 16).
pub const VTIO_ENABLE: u32 = 16;
/// USB Command register.
#[derive(Debug, Copy, Clone)]
pub struct USBCommandRegister {
    data: u32,
}

impl USBCommandRegister {
    /// The raw register word.
    pub closed spec fn raw(&self) -> u32 {
        self.data
    }

    pub fn new(raw: u32) -> (r: Self)
        ensures
            r.raw() == raw,
    {
        Self { data: raw }
    }

    /// The whole register word, as one read returns it.
    pub fn read(&self) -> (r: u32)
        ensures
            r == self.raw(),
    {
        self.data
    }

    /// Replaces the whole register word, as one write stores it.
    pub fn write(&mut self, data: u32)
        ensures
            final(self).raw() == data,
    {
        self.data = data;
    }

    pub fn r_run_stop(&self) -> (r: bool)
        ensures
            r == bit_read(self.raw(), RUN_STOP),
    {
        read_bit32(self.data, RUN_STOP)
    }

    pub fn w_run_stop(&mut self, bit: bool)
        ensures
            final(self).raw() == bit_written(old(self).raw(), RUN_STOP, bit),
    {
        self.data = write_bit32(self.data, bit, RUN_STOP);
    }

    pub fn r_host_controller_reset(&self) -> (r: bool)
        ensures
            r == bit_read(self.raw(), HOST_CONTROLLER_RESET),
    {
        read_bit32(self.data, HOST_CONTROLLER_RESET)
    }

    pub fn w_host_controller_reset(&mut self, bit: bool)
        ensures
            final(self).raw() == bit_written(old(self).raw(), HOST_CONTROLLER_RESET, bit),
    {
        self.data = write_bit32(self.data, bit, HOST_CONTROLLER_RESET);
    }

    pub fn r_interrupt_enable(&self) -> (r: bool)
        ensures
            r == bit_read(self.raw(), INTERRUPTER_ENABLE),
    {
        read_bit32(self.data, INTERRUPTER_ENABLE)
    }

    pub fn w_interrupt_enable(&mut self, bit: bool)
        ensures
            final(self).raw() == bit_written(old(self).raw(), INTERRUPTER_ENABLE, bit),
    {
        self.data = write_bit32(self.data, bit, INTERRUPTER_ENABLE);
    }

    pub fn r_host_system_error_enable(&self) -> (r: bool)
        ensures
            r == bit_read(self.raw(), HOST_SYSTEM_ERROR_ENABLE),
    {
        read_bit32(self.data, HOST_SYSTEM_ERROR_ENABLE)
    }

    pub fn w_host_system_error_enable(&mut self, bit: bool)
        ensures
            final(self).raw() == bit_written(old(self).raw(), HOST_SYSTEM_ERROR_ENABLE, bit),
    {
        self.data = write_bit32(self.data, bit, HOST_SYSTEM_ERROR_ENABLE);
    }

    pub fn r_light_host_controller_reset(&self) -> (r: bool)
        ensures
            r == bit_read(self.raw(), LIGHT_HOST_CONTROLLER_RESET),
    {
        read_bit32(self.data, LIGHT_HOST_CONTROLLER_RESET)
    }

    pub fn w_light_host_controller_reset(&mut self, bit: bool)
        ensures
            final(self).raw() == bit_written(old(self).raw(), LIGHT_HOST_CONTROLLER_RESET, bit),
    {
        self.data = write_bit32(self.data, bit, LIGHT_HOST_CONTROLLER_RESET);
    }

    pub fn r_controller_save_state(&self) -> (r: bool)
        ensures
            r == bit_read(self.raw(), CONTROLLER_SAVE_STATE),
    {
        read_bit32(self.data, CONTROLLER_SAVE_STATE)
    }

    pub fn w_controller_save_state(&mut self, bit: bool)
        ensures
            final(self).raw() == bit_written(old(self).raw(), CONTROLLER_SAVE_STATE, bit),
    {
        self.data = write_bit32(self.data, bit, CONTROLLER_SAVE_STATE);
    }

    pub fn r_controller_restore_state(&self) -> (r: bool)
        ensures
            r == bit_read(self.raw(), CONTROLLER_RESTORE_STATE),
    {
        read_bit32(self.data, CONTROLLER_RESTORE_STATE)
    }

    pub fn w_controller_restore_state(&mut self, bit: bool)
        ensures
            final(self).raw() == bit_written(old(self).raw(), CONTROLLER_RESTORE_STATE, bit),
    {
        self.data = write_bit32(self.data, bit, CONTROLLER_RESTORE_STATE);
    }

    pub fn r_enable_wrap_event(&self) -> (r: bool)
        ensures
            r == bit_read(self.raw(), ENABLE_WRAP_EVENT),
    {
        read_bit32(self.data, ENABLE_WRAP_EVENT)
    }

    pub fn w_enable_wrap_event(&mut self, bit: bool)
        ensures
            final(self).raw() == bit_written(old(self).raw(), ENABLE_WRAP_EVENT, bit),
    {
        self.data = write_bit32(self.data, bit, ENABLE_WRAP_EVENT);
    }

    pub fn r_enable_u3_mfindex_stop(&self) -> (r: bool)
        ensures
            r == bit_read(self.raw(), ENABLE_U3_MFINDEX_STOP),
    {
        read_bit32(self.data, ENABLE_U3_MFINDEX_STOP)
    }

    pub fn w_enable_u3_mfindex_stop(&mut self, bit: bool)
        ensures
            final(self).raw() == bit_written(old(self).raw(), ENABLE_U3_MFINDEX_STOP, bit),
    {
        self.data = write_bit32(self.data, bit, ENABLE_U3_MFINDEX_STOP);
    }

    pub fn r_cem_enable(&self) -> (r: bool)
        ensures
            r == bit_read(self.raw(), CEM_ENABLE),
    {
        read_bit32(self.data, CEM_ENABLE)
    }

    pub fn w_cem_enable(&mut self, bit: bool)
        ensures
            final(self).raw() == bit_written(old(self).raw(), CEM_ENABLE, bit),
    {
        self.data = write_bit32(self.data, bit, CEM_ENABLE);
    }

    pub fn r_extended_tbc_enable(&self) -> (r: bool)
        ensures
            r == bit_read(self.raw(), EXTENDED_TBC_ENABLE),
    {
        read_bit32(self.data, EXTENDED_TBC_ENABLE)
    }

    pub fn w_extended_tbc_enable(&mut self, bit: bool)
        ensures
            final(self).raw() == bit_written(old(self).raw(), EXTENDED_TBC_ENABLE, bit),
    {
        self.data = write_bit32(self.data, bit, EXTENDED_TBC_ENABLE);
    }

    pub fn r_extended_tbc_trb_status_enable(&self) -> (r: bool)
        ensures
            r == bit_read(self.raw(), EXTENDED_TBC_TRB_STATUS_ENABLE),
    {
        read_bit32(self.data, EXTENDED_TBC_TRB_STATUS_ENABLE)
    }

    pub fn w_extended_tbc_trb_status_enable(&mut self, bit: bool)
        ensures
            final(self).raw() == bit_written(old(self).raw(), EXTENDED_TBC_TRB_STATUS_ENABLE, bit),
    {
        self.data = write_bit32(self.data, bit, EXTENDED_TBC_TRB_STATUS_ENABLE);
    }

    pub fn r_vtio_enable(&self) -> (r: bool)
        ensures
            r == bit_read(self.raw(), VTIO_ENABLE),
    {
        read_bit32(self.data, VTIO_ENABLE)
    }

    pub fn w_vtio_enable(&mut self, bit: bool)
        ensures
            final(self).raw() == bit_written(old(self).raw(), VTIO_ENABLE, bit),
    {
        self.data = write_bit32(self.data, bit, VTIO_ENABLE);
    }
}
/// Host controller halted, read-only (bit 0).
pub const HCH_HALTED: u32 = 0;
/// Host system error, write-1-to-clear (bit 2).
pub const HOST_SYSTEM_ERROR: u32 = 2;
/// Event interrupt, write-1-to-clear (bit 3).
pub const EVENT_INTERRUPT: u32 = 3;
/// Port change detect, write-1-to-clear (bit 4).
pub const PORT_CHANGE_DETECT: u32 = 4;
/// Save state status (bit 8).
pub const SAVE_STATE_STATUS: u32 = 8;
/// Save/restore error (bit 10).
pub const SAVE_RESTORE_ERROR: u32 = 10;
/// Controller not ready (bit 11).
pub const CONTROLLER_NOT_READY: u32 = 11;
/// Host controller error (bit 12).
pub const HOST_CONTROLLER_ERROR: u32 = 12;
/// USB Status register.
#[derive(Debug, Copy, Clone)]
pub struct USBStatusRegister {
    data: u32,
}

impl USBStatusRegister {
    /// The raw register word.
    pub closed spec fn raw(&self) -> u32 {
        self.data
    }

    pub fn new(raw: u32) -> (r: Self)
        ensures
            r.raw() == raw,
    {
        Self { data: raw }
    }

    /// The whole register word, as one read returns it.
    pub fn read(&self) -> (r: u32)
        ensures
            r == self.raw(),
    {
        self.data
    }

    /// Replaces the whole register word, as one write stores it.
    pub fn write(&mut self, data: u32)
        ensures
            final(self).raw() == data,
    {
        self.data = data;
    }

    pub fn r_hch_halted(&self) -> (r: bool)
        ensures
            r == bit_read(self.raw(), HCH_HALTED),
    {
        read_bit32(self.data, HCH_HALTED)
    }

    pub fn w_hch_halted(&mut self, bit: bool)
        ensures
            final(self).raw() == bit_written(old(self).raw(), HCH_HALTED, bit),
    {
        self.data = write_bit32(self.data, bit, HCH_HALTED);
    }

    pub fn r_host_system_error(&self) -> (r: bool)
        ensures
            r == bit_read(self.raw(), HOST_SYSTEM_ERROR),
    {
        read_bit32(self.data, HOST_SYSTEM_ERROR)
    }

    pub fn w_host_system_error(&mut self, bit: bool)
        ensures
            final(self).raw() == bit_written(old(self).raw(), HOST_SYSTEM_ERROR, bit),
    {
        self.data = write_bit32(self.data, bit, HOST_SYSTEM_ERROR);
    }

    pub fn r_event_interrupt(&self) -> (r: bool)
        ensures
            r == bit_read(self.raw(), EVENT_INTERRUPT),
    {
        read_bit32(self.data, EVENT_INTERRUPT)
    }

    pub fn w_event_interrupt(&mut self, bit: bool)
        ensures
            final(self).raw() == bit_written(old(self).raw(), EVENT_INTERRUPT, bit),
    {
        self.data = write_bit32(self.data, bit, EVENT_INTERRUPT);
    }

    pub fn r_port_change_detect(&self) -> (r: bool)
        ensures
            r == bit_read(self.raw(), PORT_CHANGE_DETECT),
    {
        read_bit32(self.data, PORT_CHANGE_DETECT)
    }

    pub fn w_port_change_detect(&mut self, bit: bool)
        ensures
            final(self).raw() == bit_written(old(self).raw(), PORT_CHANGE_DETECT, bit),
    {
        self.data = write_bit32(self.data, bit, PORT_CHANGE_DETECT);
    }

    pub fn r_save_state_status(&self) -> (r: bool)
        ensures
            r == bit_read(self.raw(), SAVE_STATE_STATUS),
    {
        read_bit32(self.data, SAVE_STATE_STATUS)
    }

    pub fn w_save_state_status(&mut self, bit: bool)
        ensures
            final(self).raw() == bit_written(old(self).raw(), SAVE_STATE_STATUS, bit),
    {
        self.data = write_bit32(self.data, bit, SAVE_STATE_STATUS);
    }

    pub fn r_save_restore_error(&self) -> (r: bool)
        ensures
            r == bit_read(self.raw(), SAVE_RESTORE_ERROR),
    {
        read_bit32(self.data, SAVE_RESTORE_ERROR)
    }

    pub fn w_save_restore_error(&mut self, bit: bool)
        ensures
            final(self).raw() == bit_written(old(self).raw(), SAVE_RESTORE_ERROR, bit),
    {
        self.data = write_bit32(self.data, bit, SAVE_RESTORE_ERROR);
    }

    pub fn r_controller_not_ready(&self) -> (r: bool)
        ensures
            r == bit_read(self.raw(), CONTROLLER_NOT_READY),
    {
        read_bit32(self.data, CONTROLLER_NOT_READY)
    }

    pub fn w_controller_not_ready(&mut self, bit: bool)
        ensures
            final(self).raw() == bit_written(old(self).raw(), CONTROLLER_NOT_READY, bit),
    {
        self.data = write_bit32(self.data, bit, CONTROLLER_NOT_READY);
    }

    pub fn r_host_controller_error(&self) -> (r: bool)
        ensures
            r == bit_read(self.raw(), HOST_CONTROLLER_ERROR),
    {
        read_bit32(self.data, HOST_CONTROLLER_ERROR)
    }

    pub fn w_host_controller_error(&mut self, bit: bool)
        ensures
            final(self).raw() == bit_written(old(self).raw(), HOST_CONTROLLER_ERROR, bit),
    {
        self.data = write_bit32(self.data, bit, HOST_CONTROLLER_ERROR);
    }
}

/// Page Size register: bit `n` set means the controller supports a page size
/// of two to the power `n + 12` bytes.
#[derive(Debug, Copy, Clone)]
pub struct PageSizeRegister {
    data: u32,
}

impl PageSizeRegister {
    /// The raw register word.
    pub closed spec fn raw(&self) -> u32 {
        self.data
    }

    pub fn new(raw: u32) -> (r: Self)
        ensures
            r.raw() == raw,
    {
        Self { data: raw }
    }

    /// The whole register word, as one read returns it.
    pub fn read(&self) -> (r: u32)
        ensures
            r == self.raw(),
    {
        self.data
    }

    /// The supported-page-size bits (bits 15..0).
    pub fn page_size(&self) -> (r: u16)
        ensures
            r as u32 == self.raw() & 0xFFFF,
    {
        (self.data & 0xFFFF) as u16
    }
}

/// Device Notification Control register.
#[derive(Debug, Copy, Clone)]
pub struct DeviceNotificationControlRegister {
    data: u32,
}

impl DeviceNotificationControlRegister {
    /// The raw register word.
    pub closed spec fn raw(&self) -> u32 {
        self.data
    }

    pub fn new(raw: u32) -> (r: Self)
        ensures
            r.raw() == raw,
    {
        Self { data: raw }
    }

    /// The whole register word, as one read returns it.
    pub fn read(&self) -> (r: u32)
        ensures
            r == self.raw(),
    {
        self.data
    }

    /// Replaces the whole register word, as one write stores it.
    pub fn write(&mut self, data: u32)
        ensures
            final(self).raw() == data,
    {
        self.data = data;
    }
}

/// Configure register: number of enabled device slots in its low byte.
#[derive(Debug, Copy, Clone)]
pub struct ConfigureRegister {
    data: u32,
}

impl ConfigureRegister {
    /// The raw register word.
    pub closed spec fn raw(&self) -> u32 {
        self.data
    }

    pub fn new(raw: u32) -> (r: Self)
        ensures
            r.raw() == raw,
    {
        Self { data: raw }
    }

    /// The whole register word, as one read returns it.
    pub fn read(&self) -> (r: u32)
        ensures
            r == self.raw(),
    {
        self.data
    }

    /// Replaces the whole register word, as one write stores it.
    pub fn write(&mut self, data: u32)
        ensures
            final(self).raw() == data,
    {
        self.data = data;
    }
}

/// The operational register block, as the values one read of each register
/// yields.
#[derive(Debug, Copy, Clone)]
pub struct OperationalRegisters {
    pub usbcmd: USBCommandRegister,
    pub usbsts: USBStatusRegister,
    pub pagesize: PageSizeRegister,
    pub dnctrl: DeviceNotificationControlRegister,
    pub crcr: CommandRingControlRegister,
    pub dcbaap: DeviceContextBaseAddressArrayPointerRegister,
    pub config: ConfigureRegister,
}

} // verus!
