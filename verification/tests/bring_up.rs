use xhci_bringup::capability::HCCPARAMS1;
use xhci_bringup::controller::{ExtCapStep, HostController, Phase};
use xhci_bringup::errors::XhciError;
use xhci_bringup::extended_capability::{ExtendedCapabilityHeader, UsbLegacySupportRegister};
use xhci_bringup::operational::{USBCommandRegister, USBStatusRegister};

const BIOS_OWNED: u32 = 0x0001_0000;
const OS_OWNED: u32 = 0x0100_0000;

#[test]
fn bring_up_runs_to_ready() {
    let mut hc = HostController::new(0x8000_0000, 4);
    assert_eq!(hc.phase(), Phase::Discovered);

    // Capability block: length 0x20, extended capabilities at word 0x40.
    assert!(hc.read_capabilities(0x20, HCCPARAMS1::new(0x0040_0000)).is_ok());
    assert_eq!(hc.phase(), Phase::CapabilityRead);
    assert_eq!(hc.operational_base(), 0x8000_0020);
    assert_eq!(hc.ext_cap_address(), 0x8000_0100);

    // First record is something else, two words further sits legacy support.
    let step = hc.advance_extended_capability(ExtendedCapabilityHeader::new(0x0000_0205));
    assert_eq!(step, Ok(ExtCapStep::Continue));
    assert_eq!(hc.ext_cap_address(), 0x8000_0108);
    let step = hc.advance_extended_capability(ExtendedCapabilityHeader::new(0x0000_0001));
    assert_eq!(step, Ok(ExtCapStep::FoundLegacySupport));
    assert_eq!(hc.phase(), Phase::OwnershipRequested);

    // Firmware still owns the controller: request, poll twice.
    let write_back = hc.request_ownership(UsbLegacySupportRegister::new(BIOS_OWNED));
    assert_eq!(write_back, Some(BIOS_OWNED | OS_OWNED));
    assert_eq!(
        hc.poll_ownership(UsbLegacySupportRegister::new(BIOS_OWNED | OS_OWNED)),
        Ok(false)
    );
    assert_eq!(hc.poll_ownership(UsbLegacySupportRegister::new(OS_OWNED)), Ok(true));
    assert_eq!(hc.phase(), Phase::OwnershipGranted);

    // Halt: running controller, command has run/stop and interrupts on.
    let cmd = USBCommandRegister::new(0x0000_040D);
    let sts_running = USBStatusRegister::new(0);
    let to_write = hc.begin_halt(cmd, sts_running);
    assert_eq!(to_write.read(), 0x0000_040D & 0xFFFF_FBF2);
    assert_eq!(hc.phase(), Phase::Halting);
    assert_eq!(hc.poll_halted(USBStatusRegister::new(0)), Ok(false));
    assert_eq!(hc.poll_halted(USBStatusRegister::new(0x1)), Ok(true));
    assert_eq!(hc.phase(), Phase::Halted);

    // Reset, and wait for controller-not-ready to clear.
    let to_write = hc.begin_reset(USBCommandRegister::new(0));
    assert_eq!(to_write.read(), 0x2);
    assert_eq!(hc.phase(), Phase::Resetting);
    assert_eq!(hc.poll_reset_complete(USBStatusRegister::new(0x0800)), Ok(false));
    assert_eq!(hc.poll_reset_complete(USBStatusRegister::new(0)), Ok(true));
    assert!(hc.is_ready());
    assert_eq!(hc.phase(), Phase::Ready);
}

#[test]
fn already_owned_controller_skips_the_write() {
    let mut hc = HostController::new(0x8000_0000, 4);
    assert!(hc.read_capabilities(0x20, HCCPARAMS1::new(0x0040_0000)).is_ok());
    assert_eq!(
        hc.advance_extended_capability(ExtendedCapabilityHeader::new(0x0000_0001)),
        Ok(ExtCapStep::FoundLegacySupport)
    );
    let write_back = hc.request_ownership(UsbLegacySupportRegister::new(OS_OWNED));
    assert_eq!(write_back, None);
    assert_eq!(hc.phase(), Phase::OwnershipGranted);
}

#[test]
fn missing_extended_capability_list_is_unsupported() {
    let mut hc = HostController::new(0x8000_0000, 4);
    // HCCPARAMS1 with a zero extended-capabilities pointer.
    assert_eq!(
        hc.read_capabilities(0x20, HCCPARAMS1::new(0x0000_0007)),
        Err(XhciError::UnsupportedController)
    );
    assert_eq!(hc.phase(), Phase::Discovered);
}

#[test]
fn list_without_legacy_support_is_unsupported() {
    let mut hc = HostController::new(0x8000_0000, 4);
    assert!(hc.read_capabilities(0x20, HCCPARAMS1::new(0x0040_0000)).is_ok());
    // One other capability, and the list ends (next offset zero).
    assert_eq!(
        hc.advance_extended_capability(ExtendedCapabilityHeader::new(0x0000_0105)),
        Ok(ExtCapStep::Continue)
    );
    assert_eq!(
        hc.advance_extended_capability(ExtendedCapabilityHeader::new(0x0000_0005)),
        Err(XhciError::UnsupportedController)
    );
}

#[test]
fn handoff_times_out_when_firmware_never_releases() {
    let mut hc = HostController::new(0x8000_0000, 1);
    assert!(hc.read_capabilities(0x20, HCCPARAMS1::new(0x0040_0000)).is_ok());
    assert_eq!(
        hc.advance_extended_capability(ExtendedCapabilityHeader::new(0x0000_0001)),
        Ok(ExtCapStep::FoundLegacySupport)
    );
    let stuck = UsbLegacySupportRegister::new(BIOS_OWNED | OS_OWNED);
    assert!(hc.request_ownership(UsbLegacySupportRegister::new(BIOS_OWNED)).is_some());
    assert_eq!(hc.poll_ownership(stuck), Ok(false));
    assert_eq!(hc.poll_ownership(stuck), Err(XhciError::HandoffTimeout));
}

#[test]
fn halt_times_out_when_controller_keeps_running() {
    let mut hc = HostController::new(0x8000_0000, 0);
    assert!(hc.read_capabilities(0x20, HCCPARAMS1::new(0x0040_0000)).is_ok());
    assert_eq!(
        hc.advance_extended_capability(ExtendedCapabilityHeader::new(0x0000_0001)),
        Ok(ExtCapStep::FoundLegacySupport)
    );
    assert!(hc.request_ownership(UsbLegacySupportRegister::new(OS_OWNED)).is_none());
    let _ = hc.begin_halt(USBCommandRegister::new(0x1), USBStatusRegister::new(0));
    assert_eq!(
        hc.poll_halted(USBStatusRegister::new(0)),
        Err(XhciError::HaltTimeout)
    );
}

#[test]
fn reset_times_out_when_controller_stays_not_ready() {
    let mut hc = HostController::new(0x8000_0000, 0);
    assert!(hc.read_capabilities(0x20, HCCPARAMS1::new(0x0040_0000)).is_ok());
    assert_eq!(
        hc.advance_extended_capability(ExtendedCapabilityHeader::new(0x0000_0001)),
        Ok(ExtCapStep::FoundLegacySupport)
    );
    assert!(hc.request_ownership(UsbLegacySupportRegister::new(OS_OWNED)).is_none());
    let _ = hc.begin_halt(USBCommandRegister::new(0), USBStatusRegister::new(0x1));
    assert_eq!(hc.poll_halted(USBStatusRegister::new(0x1)), Ok(true));
    let _ = hc.begin_reset(USBCommandRegister::new(0));
    assert_eq!(
        hc.poll_reset_complete(USBStatusRegister::new(0x0800)),
        Err(XhciError::ResetTimeout)
    );
}

#[test]
fn already_halted_controller_keeps_run_stop() {
    let mut hc = HostController::new(0x8000_0000, 4);
    assert!(hc.read_capabilities(0x20, HCCPARAMS1::new(0x0040_0000)).is_ok());
    assert_eq!(
        hc.advance_extended_capability(ExtendedCapabilityHeader::new(0x0000_0001)),
        Ok(ExtCapStep::FoundLegacySupport)
    );
    assert!(hc.request_ownership(UsbLegacySupportRegister::new(OS_OWNED)).is_none());
    // Status already reports halted: run/stop stays as it was.
    let cmd = USBCommandRegister::new(0x0000_0001 | 0x4);
    let to_write = hc.begin_halt(cmd, USBStatusRegister::new(0x1));
    assert_eq!(to_write.read(), 0x0000_0001);
}

#[test]
fn legacy_support_register_semaphores() {
    let mut reg = UsbLegacySupportRegister::new(BIOS_OWNED);
    assert!(reg.hc_bios_owned_semaphore());
    assert!(!reg.hc_os_owned_semaphore());
    reg.set_hc_os_owned_semaphore();
    assert!(reg.hc_os_owned_semaphore());
    assert_eq!(reg.read(), BIOS_OWNED | OS_OWNED);
}

#[test]
fn extended_capability_header_fields() {
    let h = ExtendedCapabilityHeader::new(0x00C0_3401);
    assert_eq!(h.capability_id(), 0x01);
    assert_eq!(h.next_capability_offset(), 0x34);
}
