use xhci_bringup::capability::{DBOFF, HCCPARAMS1, HCCPARAMS2, HCSPARAMS1, HCSPARAMS2, HCSPARAMS3};
use xhci_bringup::command_ring::CommandRingControlRegister;
use xhci_bringup::dcbaap::DeviceContextBaseAddressArrayPointerRegister;
use xhci_bringup::doorbell::{doorbell_address, Doorbell};
use xhci_bringup::errors::XhciError;
use xhci_bringup::mmio::Mmio;
use xhci_bringup::operational::{
    PageSizeRegister, USBCommandRegister, USBStatusRegister,
};
use xhci_bringup::runtime::{
    interrupter_register_base, EventRingDequeuePointerRegister,
    EventRingSegmentTableBaseAddressRegister, EventRingSegmentTableSizeRegister,
    InterrupterManagementRegister, InterrupterModerationRegister, MicroframeIndexRegister,
};

#[test]
fn hcsparams1_decodes_structural_fields() {
    let p = HCSPARAMS1::new(0x0300_1005);
    assert_eq!(p.max_device_slots(), 0x05);
    assert_eq!(p.max_interrupters(), 0x10);
    assert_eq!(p.max_ports(), 0x03);
}

#[test]
fn hcsparams2_decodes_scratchpad_fields() {
    // low = 0b10001 (bits 31..27), restore set (26), high = 0b00110 (25..21),
    // erst max = 0xA (7..4), ist = 0x7 (3..0).
    let raw: u32 = (0b10001u32 << 27) | (1 << 26) | (0b00110 << 21) | (0xA << 4) | 0x7;
    let p = HCSPARAMS2::new(raw);
    assert_eq!(p.max_scratchpad_buffers_low(), 0b10001);
    assert!(p.scratchpad_restore());
    assert_eq!(p.max_scratchpad_buffers_high(), 0b00110);
    assert_eq!(p.event_ring_segment_table_max(), 0xA);
    assert_eq!(p.isochronous_scheduling_threshold(), 0x7);
}

#[test]
fn hcsparams3_decodes_exit_latencies() {
    let p = HCSPARAMS3::new(0x00A2_00B3);
    assert_eq!(p.u2_device_exit_latency(), 0xA2);
    assert_eq!(p.u1_device_exit_latency(), 0xB3);
}

#[test]
fn hccparams1_decodes_flags_and_pointer() {
    let p = HCCPARAMS1::new(0x0040_F555);
    assert!(p.addressing_capability_64());
    assert!(!p.bw_negotiation_capability());
    assert!(p.context_size());
    assert!(!p.port_power_control());
    assert!(p.port_indicators());
    assert!(!p.light_hc_reset_capability());
    assert!(p.latency_tolerance_messaging_capability());
    assert!(!p.no_secondary_sid_support());
    assert!(p.parse_all_event_data());
    assert!(!p.stopped_short_packet_capability());
    assert!(p.stopped_edtla_capability());
    assert!(!p.contiguous_frame_id_capability());
    assert_eq!(p.maximum_primary_stream_array_size(), 0xF);
    assert_eq!(p.xhci_extended_capabilites_pointer(), 0x0040);
}

#[test]
fn hccparams2_decodes_flags() {
    let p = HCCPARAMS2::new(0x0000_0155);
    assert!(p.u3_entry_capability());
    assert!(!p.configure_endpoint_command_max_exit_latency_too_large_capability());
    assert!(p.force_save_context_capability());
    assert!(!p.compliance_transition_capability());
    assert!(p.large_esit_payload_capability());
    assert!(!p.configuration_information_capability());
    assert!(p.extended_tbc_capability());
    assert!(!p.extended_tbc_status_capability());
    assert!(p.extended_property_capability());
    assert!(!p.virtualization_based_trusted_io_capability());
}

#[test]
fn dboff_masks_reserved_bits() {
    let d = DBOFF::new(0xC000_1230);
    assert_eq!(d.doorbell_array_offset(), 0x0000_1230);
}

#[test]
fn command_ring_pointer_round_trip_keeps_control_bits() {
    // Cycle, stop and abort bits set; stale pointer bits above them.
    let mut crcr = CommandRingControlRegister::new(0xABCD_E7C7 & 0xFFFF_FFC7 | 0x7, 0x1234);
    assert!(crcr.r_ring_cycle_state());
    assert!(crcr.r_command_stop());
    assert!(crcr.r_command_abort());

    assert_eq!(crcr.w_command_ring_pointer(0x1000_0000), Ok(()));
    assert_eq!(crcr.r_command_ring_pointer(), 0x1000_0000);
    // The prior cycle/stop/abort bits are untouched.
    assert!(crcr.r_ring_cycle_state());
    assert!(crcr.r_command_stop());
    assert!(crcr.r_command_abort());
}

#[test]
fn command_ring_pointer_refuses_misaligned() {
    let mut crcr = CommandRingControlRegister::new(0, 0);
    assert_eq!(crcr.w_command_ring_pointer(0x40), Ok(()));
    assert_eq!(
        crcr.w_command_ring_pointer(0x1000_0001),
        Err(XhciError::MisalignedPointer)
    );
    // The refused write changed nothing.
    assert_eq!(crcr.r_command_ring_pointer(), 0x40);
}

#[test]
fn usb_command_bits_read_back() {
    let mut cmd = USBCommandRegister::new(0);
    cmd.w_run_stop(true);
    cmd.w_interrupt_enable(true);
    cmd.w_enable_wrap_event(true);
    assert_eq!(cmd.read(), 0x0000_0405);
    assert!(cmd.r_run_stop());
    assert!(cmd.r_interrupt_enable());
    assert!(!cmd.r_host_controller_reset());
    cmd.w_run_stop(false);
    assert!(!cmd.r_run_stop());
    assert_eq!(cmd.read(), 0x0000_0404);
}

#[test]
fn usb_status_bits_read_back() {
    let sts = USBStatusRegister::new(0x0000_0801);
    assert!(sts.r_hch_halted());
    assert!(sts.r_controller_not_ready());
    assert!(!sts.r_host_system_error());
    assert!(!sts.r_host_controller_error());
}

#[test]
fn page_size_register_reports_low_half() {
    let p = PageSizeRegister::new(0xABCD_0001);
    // Bit 0 set: the controller supports 4096-byte pages.
    assert_eq!(p.page_size(), 1);
}

#[test]
fn dcbaap_round_trips_pointer() {
    let mut reg = DeviceContextBaseAddressArrayPointerRegister::new(0, 0);
    reg.w_device_context_base_address_array_pointer(0x0000_00AB_CDEF_0040);
    assert_eq!(
        reg.r_device_context_base_address_array_pointer(),
        0x0000_00AB_CDEF_0040
    );
}

#[test]
fn microframe_index_is_fourteen_bits() {
    let m = MicroframeIndexRegister::new(0xFFFF_FFFF);
    assert_eq!(m.microframe_index(), 0x3FFF);
}

#[test]
fn interrupter_management_bits() {
    let mut iman = InterrupterManagementRegister::new(0x1);
    assert!(iman.interrupt_pending());
    assert!(!iman.interrupt_enable());
    iman.set_interrupt_enable();
    assert!(iman.interrupt_enable());
    iman.clear_interrupt_enable();
    assert!(!iman.interrupt_enable());
    // Write-1-to-clear: the value to store back has bit 0 set.
    iman.clear_interrupt_pending();
    assert_eq!(iman.read() & 0x1, 0x1);
}

#[test]
fn interrupter_moderation_fields() {
    let mut imod = InterrupterModerationRegister::new(0);
    imod.set_interrupt_moderation_interval(4000);
    imod.set_interrupt_moderation_counter(17);
    assert_eq!(imod.interrupt_moderation_interval(), 4000);
    assert_eq!(imod.interrupt_moderation_counter(), 17);
}

#[test]
fn event_ring_segment_table_registers() {
    let mut size = EventRingSegmentTableSizeRegister::new(0);
    size.set(12);
    assert_eq!(size.get(), 12);

    let mut base = EventRingSegmentTableBaseAddressRegister::new(0);
    base.set(0x0000_1000_0000_0040);
    assert_eq!(base.get(), 0x0000_1000_0000_0040);
}

#[test]
fn event_ring_dequeue_pointer_fields() {
    let mut erdp = EventRingDequeuePointerRegister::new(0);
    erdp.set_event_ring_dequeue_pointer(0x0000_0000_00AB_CDE0);
    erdp.set_dequeue_erst_segment_index(5);
    assert_eq!(erdp.dequeue_erst_segment_index(), 5);
    assert_eq!(erdp.event_ring_dequeue_pointer(), 0x0000_0000_00AB_CDE0);
    assert!(!erdp.event_handler_busy());
    erdp.clear_event_handler_busy();
    // Write-1-to-clear: bit 3 is set in the value to store back.
    assert_eq!(erdp.dequeue_erst_segment_index(), 5);
}

#[test]
fn doorbell_fields_round_trip() {
    let mut db = Doorbell::new(0);
    db.set_doorbell_target(3);
    db.set_doorbell_stream_id(0x1234);
    assert_eq!(db.doorbell_target(), 3);
    assert_eq!(db.doorbell_stream_id(), 0x1234);
    assert_eq!(db.read(), 0x1234_0003);
}

#[test]
fn register_block_addresses() {
    assert_eq!(doorbell_address(0x8000_0000, 0x1000, 2), 0x8000_1008);
    assert_eq!(interrupter_register_base(0x8000_0000, 0x2000, 3), 0x8000_2080);
}

#[test]
fn mmio_handle_keeps_base_address() {
    let handle: Mmio<u32> = Mmio::new(0x8000_0000);
    assert_eq!(handle.base_address(), 0x8000_0000);
}
