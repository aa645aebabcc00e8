//! Host-controller bring-up as a state machine.
//!
//! Phases run Discovered, CapabilityRead, OwnershipRequested,
//! OwnershipGranted, Halting, Halted, Resetting, Ready, in that order and
//! never backwards.  Each step takes the register values the caller just
//! read and answers with the values to write back; the caller performs every
//! hardware access.  Every wait is bounded by the spin budget and fails with
//! a typed timeout instead of hanging; a controller without a USB
//! Legacy Support extended capability is refused as unsupported.

use vstd::prelude::*;
use crate::bits::{bit_read, bit_written};
use crate::capability::HCCPARAMS1;
use crate::errors::XhciError;
use crate::extended_capability::{
    spec_handoff_complete, ExtendedCapabilityHeader, UsbLegacySupportRegister,
    USB_LEGACY_SUPPORT_ID,
};
use crate::operational::{
    USBCommandRegister, USBStatusRegister, CONTROLLER_NOT_READY, ENABLE_WRAP_EVENT, HCH_HALTED,
    HOST_CONTROLLER_RESET, HOST_SYSTEM_ERROR_ENABLE, INTERRUPTER_ENABLE, RUN_STOP,
};

verus! {

broadcast use crate::bits::lemma_u32_and_le;

/// Largest MMIO base the machine hands out; keeps every address computation
/// inside the block far from 64-bit overflow.
pub const MMIO_BASE_LIMIT: u64 = 0xFFFF_FFFF_0000_0000;

/// Most extended-capability records a walk follows before giving the
/// controller up as unsupported.
pub const EXT_WALK_BUDGET: u32 = 256;

/// Where the bring-up stands.
#[derive(Debug, Copy, Clone, Eq, PartialEq, Structural)]
pub enum Phase {
    /// The controller's PCI function and MMIO base are known.
    Discovered,
    /// Capability registers are read; the extended-capability walk runs.
    CapabilityRead,
    /// The OS-owned semaphore is set; firmware has not released yet.
    OwnershipRequested,
    /// Firmware released the controller.
    OwnershipGranted,
    /// Interrupts are off and the run/stop bit is cleared; waiting for halt.
    Halting,
    /// The controller reports halted.
    Halted,
    /// Host-controller reset is set; waiting for the controller to be ready.
    Resetting,
    /// Reset finished; the command ring can be set up.
    Ready,
}

/// Order of the phases; bring-up only ever moves forward.
pub open spec fn phase_index(p: Phase) -> int {
    match p {
        Phase::Discovered => 0,
        Phase::CapabilityRead => 1,
        Phase::OwnershipRequested => 2,
        Phase::OwnershipGranted => 3,
        Phase::Halting => 4,
        Phase::Halted => 5,
        Phase::Resetting => 6,
        Phase::Ready => 7,
    }
}

/// What one extended-capability step found.
#[derive(Debug, Copy, Clone, Eq, PartialEq, Structural)]
pub enum ExtCapStep {
    /// The USB Legacy Support record; the walk is over.
    FoundLegacySupport,
    /// Some other capability; read the next header at the walk address.
    Continue,
}

/// The bring-up state machine for one xHCI controller.
#[derive(Debug, Copy, Clone)]
pub struct HostController {
    phase: Phase,
    mmio_base: u64,
    cap_length: u8,
    ext_cap_addr: u64,
    ext_steps_left: u32,
    spin_budget: u32,
    spins_left: u32,
}

impl HostController {
    /// The current phase.
    pub closed spec fn spec_phase(&self) -> Phase {
        self.phase
    }

    /// The MMIO base the capability block sits at.
    pub closed spec fn spec_mmio_base(&self) -> u64 {
        self.mmio_base
    }

    /// The capability block's length, once read.
    pub closed spec fn spec_cap_length(&self) -> u8 {
        self.cap_length
    }

    /// Byte address of the current extended capability; once the walk found
    /// USB Legacy Support, its record's address.
    pub closed spec fn spec_ext_cap_addr(&self) -> u64 {
        self.ext_cap_addr
    }

    /// Remaining extended-capability steps.
    pub closed spec fn spec_ext_steps_left(&self) -> u32 {
        self.ext_steps_left
    }

    /// How many polls each wait may take.
    pub closed spec fn spec_spin_budget(&self) -> u32 {
        self.spin_budget
    }

    /// Polls left in the current wait.
    pub closed spec fn spec_spins_left(&self) -> u32 {
        self.spins_left
    }

    /// Base of the operational register block.
    pub open spec fn spec_operational_base(&self) -> int {
        self.spec_mmio_base() + self.spec_cap_length()
    }

    /// Address computations stay far below 64-bit overflow.
    pub closed spec fn wf(&self) -> bool {
        self.mmio_base <= MMIO_BASE_LIMIT && self.ext_steps_left <= EXT_WALK_BUDGET
            && self.ext_cap_addr <= self.mmio_base + 0x4_0000 + 0x400 * (
        EXT_WALK_BUDGET - self.ext_steps_left)
    }

    /// A fresh machine in the Discovered phase.  `spin_budget` bounds every
    /// later busy-wait.
    pub fn new(mmio_base: u64, spin_budget: u32) -> (r: Self)
        requires
            mmio_base <= MMIO_BASE_LIMIT,
        ensures
            r.wf(),
            r.spec_phase() == Phase::Discovered,
            r.spec_mmio_base() == mmio_base,
            r.spec_spin_budget() == spin_budget,
    {
        Self {
            phase: Phase::Discovered,
            mmio_base,
            cap_length: 0,
            ext_cap_addr: mmio_base,
            ext_steps_left: EXT_WALK_BUDGET,
            spin_budget,
            spins_left: spin_budget,
        }
    }

    /// The current phase.
    pub fn phase(&self) -> (r: Phase)
        ensures
            r == self.spec_phase(),
    {
        self.phase
    }

    /// True once reset finished and the command ring may be set up.
    pub fn is_ready(&self) -> (r: bool)
        ensures
            r == (self.spec_phase() == Phase::Ready),
    {
        self.phase == Phase::Ready
    }

    /// Base of the operational register block; meaningful once the
    /// capability block was read.
    pub fn operational_base(&self) -> (r: u64)
        requires
            self.wf(),
        ensures
            r == self.spec_operational_base(),
    {
        self.mmio_base + (self.cap_length as u64)
    }

    /// Byte address of the current extended capability during the walk; after
    /// the walk found USB Legacy Support, that record's address.
    pub fn ext_cap_address(&self) -> (r: u64)
        ensures
            r == self.spec_ext_cap_addr(),
    {
        self.ext_cap_addr
    }

    /// Takes the capability block into account: the operational base follows
    /// from `cap_length`, and HCCPARAMS1 points at the extended-capability
    /// list.  A controller without that list cannot run the ownership
    /// handoff and is refused.
    pub fn read_capabilities(&mut self, cap_length: u8, hccparams1: HCCPARAMS1) -> (r: Result<
        (),
        XhciError,
    >)
        requires
            old(self).wf(),
            old(self).spec_phase() == Phase::Discovered,
        ensures
            final(self).wf(),
            phase_index(final(self).spec_phase()) >= phase_index(old(self).spec_phase()),
            final(self).spec_mmio_base() == old(self).spec_mmio_base(),
            final(self).spec_spin_budget() == old(self).spec_spin_budget(),
            ({
                let ptr = (hccparams1.raw() >> 16) & 0xFFFF;
                if ptr == 0 {
                    r == Err::<(), XhciError>(XhciError::UnsupportedController) && *final(self)
                        == *old(self)
                } else {
                    r is Ok && final(self).spec_phase() == Phase::CapabilityRead && final(self).spec_cap_length() == cap_length && final(self).spec_ext_cap_addr()
                        == old(self).spec_mmio_base() + 4 * ptr && final(self).spec_ext_steps_left()
                        == EXT_WALK_BUDGET
                }
            }),
    {
        let ptr = hccparams1.xhci_extended_capabilites_pointer();
        if ptr == 0 {
            return Err(XhciError::UnsupportedController);
        }
        self.cap_length = cap_length;
        self.ext_cap_addr = self.mmio_base + 4 * (ptr as u64);
        self.ext_steps_left = EXT_WALK_BUDGET;
        self.phase = Phase::CapabilityRead;
        Ok(())
    }

    /// Looks at the extended-capability header read from the walk address.
    /// USB Legacy Support ends the walk and opens the ownership request; a
    /// zero next-offset, or an exhausted step budget, marks the controller
    /// unsupported; anything else moves the walk address to the next record.
    pub fn advance_extended_capability(&mut self, header: ExtendedCapabilityHeader) -> (r: Result<
        ExtCapStep,
        XhciError,
    >)
        requires
            old(self).wf(),
            old(self).spec_phase() == Phase::CapabilityRead,
        ensures
            final(self).wf(),
            phase_index(final(self).spec_phase()) >= phase_index(old(self).spec_phase()),
            final(self).spec_mmio_base() == old(self).spec_mmio_base(),
            final(self).spec_cap_length() == old(self).spec_cap_length(),
            final(self).spec_spin_budget() == old(self).spec_spin_budget(),
            ({
                let id = header.raw() & 0xFF;
                let next = (header.raw() >> 8) & 0xFF;
                if id == USB_LEGACY_SUPPORT_ID as u32 {
                    r == Ok::<ExtCapStep, XhciError>(ExtCapStep::FoundLegacySupport) && final(self).spec_phase() == Phase::OwnershipRequested && final(self).spec_ext_cap_addr()
                        == old(self).spec_ext_cap_addr() && final(self).spec_spins_left() == final(self).spec_spin_budget()
                } else if next == 0 || old(self).spec_ext_steps_left() == 0 {
                    r == Err::<ExtCapStep, XhciError>(XhciError::UnsupportedController) && *final(self) == *old(self)
                } else {
                    r == Ok::<ExtCapStep, XhciError>(ExtCapStep::Continue) && final(self).spec_phase() == Phase::CapabilityRead && final(self).spec_ext_cap_addr()
                        == old(self).spec_ext_cap_addr() + 4 * next && final(self).spec_ext_steps_left() == old(self).spec_ext_steps_left() - 1
                }
            }),
    {
        let id = header.capability_id();
        if id == USB_LEGACY_SUPPORT_ID {
            self.phase = Phase::OwnershipRequested;
            self.spins_left = self.spin_budget;
            return Ok(ExtCapStep::FoundLegacySupport);
        }
        let next = header.next_capability_offset();
        if next == 0 || self.ext_steps_left == 0 {
            return Err(XhciError::UnsupportedController);
        }
        self.ext_steps_left = self.ext_steps_left - 1;
        self.ext_cap_addr = self.ext_cap_addr + 4 * (next as u64);
        Ok(ExtCapStep::Continue)
    }

    /// Decides on the USB Legacy Support value just read: when the OS-owned
    /// semaphore already holds, ownership is granted outright; otherwise the
    /// returned value, with the OS-owned semaphore set, must be written back
    /// and the handoff polled.
    pub fn request_ownership(&mut self, legsup: UsbLegacySupportRegister) -> (r: Option<u32>)
        requires
            old(self).wf(),
            old(self).spec_phase() == Phase::OwnershipRequested,
        ensures
            final(self).wf(),
            phase_index(final(self).spec_phase()) >= phase_index(old(self).spec_phase()),
            final(self).spec_mmio_base() == old(self).spec_mmio_base(),
            final(self).spec_cap_length() == old(self).spec_cap_length(),
            final(self).spec_ext_cap_addr() == old(self).spec_ext_cap_addr(),
            final(self).spec_spins_left() == old(self).spec_spins_left(),
            final(self).spec_spin_budget() == old(self).spec_spin_budget(),
            legsup.raw() & 0x0100_0000 != 0 ==> r is None && final(self).spec_phase()
                == Phase::OwnershipGranted,
            legsup.raw() & 0x0100_0000 == 0 ==> r == Some(legsup.raw() | 0x0100_0000) && final(self).spec_phase() == Phase::OwnershipRequested,
    {
        if legsup.hc_os_owned_semaphore() {
            self.phase = Phase::OwnershipGranted;
            return None;
        }
        let mut requested = legsup;
        requested.set_hc_os_owned_semaphore();
        Some(requested.read())
    }

    /// One handoff poll: grants ownership once the OS-owned semaphore holds
    /// and the BIOS-owned semaphore has cleared; otherwise consumes one spin,
    /// and an exhausted budget times the handoff out.
    pub fn poll_ownership(&mut self, legsup: UsbLegacySupportRegister) -> (r: Result<
        bool,
        XhciError,
    >)
        requires
            old(self).wf(),
            old(self).spec_phase() == Phase::OwnershipRequested,
        ensures
            final(self).wf(),
            phase_index(final(self).spec_phase()) >= phase_index(old(self).spec_phase()),
            final(self).spec_mmio_base() == old(self).spec_mmio_base(),
            final(self).spec_cap_length() == old(self).spec_cap_length(),
            final(self).spec_ext_cap_addr() == old(self).spec_ext_cap_addr(),
            final(self).spec_spin_budget() == old(self).spec_spin_budget(),
            spec_handoff_complete(legsup.raw()) ==> r == Ok::<bool, XhciError>(true) && final(self).spec_phase() == Phase::OwnershipGranted,
            !spec_handoff_complete(legsup.raw()) && old(self).spec_spins_left() == 0 ==> r
                == Err::<bool, XhciError>(XhciError::HandoffTimeout) && *final(self) == *old(self),
            !spec_handoff_complete(legsup.raw()) && old(self).spec_spins_left() > 0 ==> r
                == Ok::<bool, XhciError>(false) && final(self).spec_phase()
                == Phase::OwnershipRequested && final(self).spec_spins_left() == old(self).spec_spins_left() - 1,
    {
        if legsup.hc_os_owned_semaphore() && !legsup.hc_bios_owned_semaphore() {
            self.phase = Phase::OwnershipGranted;
            return Ok(true);
        }
        if self.spins_left == 0 {
            return Err(XhciError::HandoffTimeout);
        }
        self.spins_left = self.spins_left - 1;
        Ok(false)
    }

    /// Starts the halt: the returned command value, to be written back, has
    /// interrupter-enable, host-system-error-enable and wrap-event-enable
    /// cleared, and run/stop cleared too unless the status already reports
    /// halted.
    pub fn begin_halt(&mut self, usbcmd: USBCommandRegister, usbsts: USBStatusRegister) -> (r:
        USBCommandRegister)
        requires
            old(self).wf(),
            old(self).spec_phase() == Phase::OwnershipGranted,
        ensures
            final(self).wf(),
            phase_index(final(self).spec_phase()) >= phase_index(old(self).spec_phase()),
            final(self).spec_mmio_base() == old(self).spec_mmio_base(),
            final(self).spec_cap_length() == old(self).spec_cap_length(),
            final(self).spec_phase() == Phase::Halting,
            final(self).spec_spin_budget() == old(self).spec_spin_budget(),
            final(self).spec_spins_left() == old(self).spec_spin_budget(),
            bit_read(usbsts.raw(), HCH_HALTED) ==> r.raw() == usbcmd.raw() & 0xFFFF_FBF3,
            !bit_read(usbsts.raw(), HCH_HALTED) ==> r.raw() == usbcmd.raw() & 0xFFFF_FBF2,
    {
        let mut cmd = usbcmd;
        cmd.w_interrupt_enable(false);
        cmd.w_host_system_error_enable(false);
        cmd.w_enable_wrap_event(false);
        // The controller must be stopped before it can be reset.
        if !usbsts.r_hch_halted() {
            cmd.w_run_stop(false);
        }
        proof {
            lemma_halt_command_masks(usbcmd.raw());
        }
        self.phase = Phase::Halting;
        self.spins_left = self.spin_budget;
        cmd
    }

    /// One halt poll: done once the status reports halted; otherwise consumes
    /// one spin, and an exhausted budget times the halt out.
    pub fn poll_halted(&mut self, usbsts: USBStatusRegister) -> (r: Result<bool, XhciError>)
        requires
            old(self).wf(),
            old(self).spec_phase() == Phase::Halting,
        ensures
            final(self).wf(),
            phase_index(final(self).spec_phase()) >= phase_index(old(self).spec_phase()),
            final(self).spec_mmio_base() == old(self).spec_mmio_base(),
            final(self).spec_cap_length() == old(self).spec_cap_length(),
            final(self).spec_spin_budget() == old(self).spec_spin_budget(),
            bit_read(usbsts.raw(), HCH_HALTED) ==> r == Ok::<bool, XhciError>(true) && final(self).spec_phase() == Phase::Halted,
            !bit_read(usbsts.raw(), HCH_HALTED) && old(self).spec_spins_left() == 0 ==> r
                == Err::<bool, XhciError>(XhciError::HaltTimeout) && *final(self) == *old(self),
            !bit_read(usbsts.raw(), HCH_HALTED) && old(self).spec_spins_left() > 0 ==> r
                == Ok::<bool, XhciError>(false) && final(self).spec_phase() == Phase::Halting
                && final(self).spec_spins_left() == old(self).spec_spins_left() - 1,
    {
        if usbsts.r_hch_halted() {
            self.phase = Phase::Halted;
            return Ok(true);
        }
        if self.spins_left == 0 {
            return Err(XhciError::HaltTimeout);
        }
        self.spins_left = self.spins_left - 1;
        Ok(false)
    }

    /// Starts the reset: the returned command value, to be written back, has
    /// host-controller-reset set.
    pub fn begin_reset(&mut self, usbcmd: USBCommandRegister) -> (r: USBCommandRegister)
        requires
            old(self).wf(),
            old(self).spec_phase() == Phase::Halted,
        ensures
            final(self).wf(),
            phase_index(final(self).spec_phase()) >= phase_index(old(self).spec_phase()),
            final(self).spec_mmio_base() == old(self).spec_mmio_base(),
            final(self).spec_cap_length() == old(self).spec_cap_length(),
            final(self).spec_phase() == Phase::Resetting,
            final(self).spec_spin_budget() == old(self).spec_spin_budget(),
            final(self).spec_spins_left() == old(self).spec_spin_budget(),
            r.raw() == usbcmd.raw() | 0x2,
    {
        let mut cmd = usbcmd;
        cmd.w_host_controller_reset(true);
        proof {
            lemma_reset_command_mask(usbcmd.raw());
        }
        self.phase = Phase::Resetting;
        self.spins_left = self.spin_budget;
        cmd
    }

    /// One reset poll: done once controller-not-ready has cleared — no
    /// further register access is allowed before that; otherwise consumes one
    /// spin, and an exhausted budget times the reset out.
    pub fn poll_reset_complete(&mut self, usbsts: USBStatusRegister) -> (r: Result<
        bool,
        XhciError,
    >)
        requires
            old(self).wf(),
            old(self).spec_phase() == Phase::Resetting,
        ensures
            final(self).wf(),
            phase_index(final(self).spec_phase()) >= phase_index(old(self).spec_phase()),
            final(self).spec_mmio_base() == old(self).spec_mmio_base(),
            final(self).spec_cap_length() == old(self).spec_cap_length(),
            final(self).spec_spin_budget() == old(self).spec_spin_budget(),
            !bit_read(usbsts.raw(), CONTROLLER_NOT_READY) ==> r == Ok::<bool, XhciError>(true)
                && final(self).spec_phase() == Phase::Ready,
            bit_read(usbsts.raw(), CONTROLLER_NOT_READY) && old(self).spec_spins_left() == 0 ==> r
                == Err::<bool, XhciError>(XhciError::ResetTimeout) && *final(self) == *old(self),
            bit_read(usbsts.raw(), CONTROLLER_NOT_READY) && old(self).spec_spins_left() > 0 ==> r
                == Ok::<bool, XhciError>(false) && final(self).spec_phase() == Phase::Resetting
                && final(self).spec_spins_left() == old(self).spec_spins_left() - 1,
    {
        if !usbsts.r_controller_not_ready() {
            self.phase = Phase::Ready;
            return Ok(true);
        }
        if self.spins_left == 0 {
            return Err(XhciError::ResetTimeout);
        }
        self.spins_left = self.spins_left - 1;
        Ok(false)
    }
}

/// Clearing interrupter-enable (bit 2), host-system-error-enable (bit 3) and
/// wrap-event-enable (bit 10) masks the command word with 0xFFFF_FBF3;
/// clearing run/stop (bit 0) on top of that masks it with 0xFFFF_FBF2.
proof fn lemma_halt_command_masks(x: u32)
    ensures
        bit_written(
            bit_written(
                bit_written(x, INTERRUPTER_ENABLE, false),
                HOST_SYSTEM_ERROR_ENABLE,
                false,
            ),
            ENABLE_WRAP_EVENT,
            false,
        ) == x & 0xFFFF_FBF3,
        bit_written(
            bit_written(
                bit_written(
                    bit_written(x, INTERRUPTER_ENABLE, false),
                    HOST_SYSTEM_ERROR_ENABLE,
                    false,
                ),
                ENABLE_WRAP_EVENT,
                false,
            ),
            RUN_STOP,
            false,
        ) == x & 0xFFFF_FBF2,
{
    assert(((x & !(1u32 << 2)) & !(1u32 << 3)) & !(1u32 << 10) == x & 0xFFFF_FBF3 && (((x & !(1u32
        << 2)) & !(1u32 << 3)) & !(1u32 << 10)) & !(1u32 << 0) == x & 0xFFFF_FBF2) by (bit_vector);
}

/// Setting host-controller-reset (bit 1) ors the command word with 0x2.
proof fn lemma_reset_command_mask(x: u32)
    ensures
        bit_written(x, HOST_CONTROLLER_RESET, true) == x | 0x2,
{
    assert(x | (1u32 << 1) == x | 0x2) by (bit_vector);
}

} // verus!
