//! xHCI capability register block: bit-exact, read-only decompositions of the
//! structural and capability parameter words.

use vstd::prelude::*;

verus! {

broadcast use crate::bits::lemma_u32_and_le;

/// Structural Parameters 1: device slots, interrupters, ports.
#[derive(Debug, Copy, Clone)]
pub struct HCSPARAMS1 {
    data: u32,
}

impl HCSPARAMS1 {
    /// The raw register word.
    pub closed spec fn raw(&self) -> u32 {
        self.data
    }

    pub fn new(raw: u32) -> (r: Self)
        ensures
            r.raw() == raw,
    {
        Self { data: raw }
    }

    /// Number of device slots the controller supports (bits 7..0).
    pub fn max_device_slots(&self) -> (r: u8)
        ensures
            r as u32 == self.raw() & 0xFF,
    {
        (self.data & 0xFF) as u8
    }

    /// Number of interrupters (bits 18..8).
    pub fn max_interrupters(&self) -> (r: u16)
        ensures
            r as u32 == (self.raw() >> 8) & 0x7FF,
    {
        ((self.data >> 8) & 0x7FF) as u16
    }

    /// Number of ports (bits 31..24).
    pub fn max_ports(&self) -> (r: u8)
        ensures
            r as u32 == (self.raw() >> 24) & 0xFF,
    {
        ((self.data >> 24) & 0xFF) as u8
    }
}

/// Structural Parameters 2: event-ring and scratchpad geometry.
#[derive(Debug, Copy, Clone)]
pub struct HCSPARAMS2 {
    data: u32,
}

impl HCSPARAMS2 {
    /// The raw register word.
    pub closed spec fn raw(&self) -> u32 {
        self.data
    }

    pub fn new(raw: u32) -> (r: Self)
        ensures
            r.raw() == raw,
    {
        Self { data: raw }
    }

    /// Isochronous scheduling threshold (bits 3..0).
    pub fn isochronous_scheduling_threshold(&self) -> (r: u8)
        ensures
            r as u32 == self.raw() & 0xF,
    {
        (self.data & 0xF) as u8
    }

    /// Largest event-ring segment table the controller supports, as a power
    /// of two (bits 7..4).
    pub fn event_ring_segment_table_max(&self) -> (r: u8)
        ensures
            r as u32 == (self.raw() >> 4) & 0xF,
    {
        ((self.data >> 4) & 0xF) as u8
    }

    /// High half of the scratchpad buffer count (bits 25..21).
    pub fn max_scratchpad_buffers_high(&self) -> (r: u8)
        ensures
            r as u32 == (self.raw() >> 21) & 0x1F,
    {
        ((self.data >> 21) & 0x1F) as u8
    }

    /// Whether scratchpad contents must survive a save/restore (bit 26).
    pub fn scratchpad_restore(&self) -> (r: bool)
        ensures
            r == (self.raw() & 0x0400_0000 != 0),
    {
        (self.data & 0x0400_0000) != 0
    }

    /// Low half of the scratchpad buffer count (bits 31..27).
    pub fn max_scratchpad_buffers_low(&self) -> (r: u8)
        ensures
            r as u32 == (self.raw() >> 27) & 0x1F,
    {
        ((self.data >> 27) & 0x1F) as u8
    }
}

/// Structural Parameters 3: U1/U2 device exit latencies.
#[derive(Debug, Copy, Clone)]
pub struct HCSPARAMS3 {
    data: u32,
}

impl HCSPARAMS3 {
    /// The raw register word.
    pub closed spec fn raw(&self) -> u32 {
        self.data
    }

    pub fn new(raw: u32) -> (r: Self)
        ensures
            r.raw() == raw,
    {
        Self { data: raw }
    }

    /// Worst-case U1-to-U0 latency in microseconds (bits 7..0).
    pub fn u1_device_exit_latency(&self) -> (r: u8)
        ensures
            r as u32 == self.raw() & 0xFF,
    {
        (self.data & 0xFF) as u8
    }

    /// Worst-case U2-to-U0 latency in microseconds (bits 23..16).
    pub fn u2_device_exit_latency(&self) -> (r: u16)
        ensures
            r as u32 == (self.raw() >> 16) & 0xFF,
    {
        ((self.data >> 16) & 0xFF) as u16
    }
}

/// Capability Parameters 1: feature flags, stream geometry, and the pointer
/// to the extended-capability list.
#[derive(Debug, Copy, Clone)]
pub struct HCCPARAMS1 {
    data: u32,
}

impl HCCPARAMS1 {
    /// The raw register word.
    pub closed spec fn raw(&self) -> u32 {
        self.data
    }

    pub fn new(raw: u32) -> (r: Self)
        ensures
            r.raw() == raw,
    {
        Self { data: raw }
    }

    /// 64-bit addressing capability (bit 0).
    pub fn addressing_capability_64(&self) -> (r: bool)
        ensures
            r == (self.raw() & 0x0001 != 0),
    {
        (self.data & 0x0001) != 0
    }

    /// Bandwidth negotiation capability (bit 1).
    pub fn bw_negotiation_capability(&self) -> (r: bool)
        ensures
            r == (self.raw() & 0x0002 != 0),
    {
        (self.data & 0x0002) != 0
    }

    /// 64-byte context size (bit 2).
    pub fn context_size(&self) -> (r: bool)
        ensures
            r == (self.raw() & 0x0004 != 0),
    {
        (self.data & 0x0004) != 0
    }

    /// Port power control (bit 3).
    pub fn port_power_control(&self) -> (r: bool)
        ensures
            r == (self.raw() & 0x0008 != 0),
    {
        (self.data & 0x0008) != 0
    }

    /// Port indicator control (bit 4).
    pub fn port_indicators(&self) -> (r: bool)
        ensures
            r == (self.raw() & 0x0010 != 0),
    {
        (self.data & 0x0010) != 0
    }

    /// Light host-controller reset capability (bit 5).
    pub fn light_hc_reset_capability(&self) -> (r: bool)
        ensures
            r == (self.raw() & 0x0020 != 0),
    {
        (self.data & 0x0020) != 0
    }

    /// Latency tolerance messaging capability (bit 6).
    pub fn latency_tolerance_messaging_capability(&self) -> (r: bool)
        ensures
            r == (self.raw() & 0x0040 != 0),
    {
        (self.data & 0x0040) != 0
    }

    /// No secondary stream-id support (bit 7).
    pub fn no_secondary_sid_support(&self) -> (r: bool)
        ensures
            r == (self.raw() & 0x0080 != 0),
    {
        (self.data & 0x0080) != 0
    }

    /// Parse all event data (bit 8).
    pub fn parse_all_event_data(&self) -> (r: bool)
        ensures
            r == (self.raw() & 0x0100 != 0),
    {
        (self.data & 0x0100) != 0
    }

    /// Stopped short-packet capability (bit 9).
    pub fn stopped_short_packet_capability(&self) -> (r: bool)
        ensures
            r == (self.raw() & 0x0200 != 0),
    {
        (self.data & 0x0200) != 0
    }

    /// Stopped EDTLA capability (bit 10).
    pub fn stopped_edtla_capability(&self) -> (r: bool)
        ensures
            r == (self.raw() & 0x0400 != 0),
    {
        (self.data & 0x0400) != 0
    }

    /// Contiguous frame-id capability (bit 11).
    pub fn contiguous_frame_id_capability(&self) -> (r: bool)
        ensures
            r == (self.raw() & 0x0800 != 0),
    {
        (self.data & 0x0800) != 0
    }

    /// Largest primary stream array, as a power of two (bits 15..12).
    pub fn maximum_primary_stream_array_size(&self) -> (r: u8)
        ensures
            r as u32 == (self.raw() >> 12) & 0xF,
    {
        ((self.data >> 12) & 0xF) as u8
    }

    /// Offset of the first extended capability, in 32-bit words from the MMIO
    /// base (bits 31..16); zero when the list is absent.
    pub fn xhci_extended_capabilites_pointer(&self) -> (r: u16)
        ensures
            r as u32 == (self.raw() >> 16) & 0xFFFF,
    {
        ((self.data >> 16) & 0xFFFF) as u16
    }
}

/// Capability Parameters 2: further feature flags.
#[derive(Debug, Copy, Clone)]
pub struct HCCPARAMS2 {
    data: u32,
}

impl HCCPARAMS2 {
    /// The raw register word.
    pub closed spec fn raw(&self) -> u32 {
        self.data
    }

    pub fn new(raw: u32) -> (r: Self)
        ensures
            r.raw() == raw,
    {
        Self { data: raw }
    }

    /// U3 entry capability (bit 0).
    pub fn u3_entry_capability(&self) -> (r: bool)
        ensures
            r == (self.raw() & 0x01 != 0),
    {
        (self.data & 0x01) != 0
    }

    /// Configure-endpoint command reports a too-large max exit latency (bit 1).
    pub fn configure_endpoint_command_max_exit_latency_too_large_capability(&self) -> (r: bool)
        ensures
            r == (self.raw() & 0x02 != 0),
    {
        (self.data & 0x02) != 0
    }

    /// Force save-context capability (bit 2).
    pub fn force_save_context_capability(&self) -> (r: bool)
        ensures
            r == (self.raw() & 0x04 != 0),
    {
        (self.data & 0x04) != 0
    }

    /// Compliance transition capability (bit 3).
    pub fn compliance_transition_capability(&self) -> (r: bool)
        ensures
            r == (self.raw() & 0x08 != 0),
    {
        (self.data & 0x08) != 0
    }

    /// Large ESIT payload capability (bit 4).
    pub fn large_esit_payload_capability(&self) -> (r: bool)
        ensures
            r == (self.raw() & 0x10 != 0),
    {
        (self.data & 0x10) != 0
    }

    /// Configuration information capability (bit 5).
    pub fn configuration_information_capability(&self) -> (r: bool)
        ensures
            r == (self.raw() & 0x20 != 0),
    {
        (self.data & 0x20) != 0
    }

    /// Extended TBC capability (bit 6).
    pub fn extended_tbc_capability(&self) -> (r: bool)
        ensures
            r == (self.raw() & 0x40 != 0),
    {
        (self.data & 0x40) != 0
    }

    /// Extended TBC TRB-status capability (bit 7).
    pub fn extended_tbc_status_capability(&self) -> (r: bool)
        ensures
            r == (self.raw() & 0x80 != 0),
    {
        (self.data & 0x80) != 0
    }

    /// Extended property capability (bit 8).
    pub fn extended_property_capability(&self) -> (r: bool)
        ensures
            r == (self.raw() & 0x0100 != 0),
    {
        (self.data & 0x0100) != 0
    }

    /// Virtualization-based trusted I/O capability (bit 9).
    pub fn virtualization_based_trusted_io_capability(&self) -> (r: bool)
        ensures
            r == (self.raw() & 0x0200 != 0),
    {
        (self.data & 0x0200) != 0
    }
}

/// Doorbell-array offset register.
#[derive(Debug, Copy, Clone)]
pub struct DBOFF {
    data: u32,
}

impl DBOFF {
    /// The raw register word.
    pub closed spec fn raw(&self) -> u32 {
        self.data
    }

    pub fn new(raw: u32) -> (r: Self)
        ensures
            r.raw() == raw,
    {
        Self { data: raw }
    }

    /// Byte offset of the doorbell array from the MMIO base.
    pub fn doorbell_array_offset(&self) -> (r: u32)
        ensures
            r == self.raw() & 0x3FFF_FFFF,
    {
        self.data & 0x3FFF_FFFF
    }
}

/// The capability register block, as one read of the read-only hardware
/// layout: length, version, structural and capability parameters, and the
/// doorbell and runtime space offsets.
#[derive(Debug, Copy, Clone)]
pub struct CapabilityRegisters {
    pub cap_length: u8,
    pub reserved: u8,
    pub hci_version: u16,
    pub hcsparams1: HCSPARAMS1,
    pub hcsparams2: HCSPARAMS2,
    pub hcsparams3: HCSPARAMS3,
    pub hccparams1: HCCPARAMS1,
    pub dboff: DBOFF,
    pub rtsoff: u32,
    pub hccparams2: HCCPARAMS2,
}

} // verus!
