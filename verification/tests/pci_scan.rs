use xhci_bringup::config_access::{make_address, ConfigAccessor};
use xhci_bringup::config_space::{ConfigFunction, ConfigSpace};
use xhci_bringup::device::{BarSet, ClassCode, Device};
use xhci_bringup::registry::{Devices, PciError};
use xhci_bringup::scan::{find_xhc, mmio_base_of_bar, scan_all_bus, scan_function};

/// A present function: vendor/device id in word 0, the class-and-header word
/// at offset 0x0C, BARs at 0x10.., the bus-numbers word at 0x18.
fn present(bus: u8, device: u8, function: u8, vendor: u32, class_word: u32, bus_numbers: u32) -> ConfigFunction {
    let mut regs: Vec<u32> = vec![0u32; 16];
    regs[0] = (0x5678u32 << 16) | (vendor & 0xFFFF);
    regs[3] = class_word;
    regs[6] = bus_numbers;
    ConfigFunction::new(bus, device, function, regs)
}

#[test]
fn make_address_packs_fields_exactly() {
    assert_eq!(
        make_address(1, 2, 3, 0x10),
        (1u32 << 31) | (1 << 16) | (2 << 11) | (3 << 8) | 0x10
    );
}

#[test]
fn make_address_masks_low_register_bits() {
    assert_eq!(make_address(0, 0, 0, 0x13), (1u32 << 31) | 0x10);
}

#[test]
fn accessor_reads_selected_register() {
    let mut space = ConfigSpace::new();
    assert!(space.add_function(present(0, 1, 0, 0xABCD, 0x0300_0000, 0)));
    let mut acc = ConfigAccessor::new(space);

    acc.write_address(make_address(0, 1, 0, 0x00));
    assert_eq!(acc.read_data(), 0x5678_ABCD);

    // The enable bit is required; without it the read floats high.
    acc.write_address(0x0000_0800);
    assert_eq!(acc.read_data(), 0xFFFF_FFFF);

    // An absent function floats high too.
    assert_eq!(acc.read_vendor_id(0, 2, 0), 0xFFFF);
}

#[test]
fn accessor_write_data_hits_selected_register() {
    let mut space = ConfigSpace::new();
    assert!(space.add_function(present(0, 1, 0, 0xABCD, 0x0300_0000, 0)));
    let mut acc = ConfigAccessor::new(space);

    acc.write_address(make_address(0, 1, 0, 0x10));
    acc.write_data(0xDEAD_BEEF);
    assert_eq!(acc.read_data(), 0xDEAD_BEEF);
    assert_eq!(acc.read_conf_reg(0, 1, 0, 0x10), 0xDEAD_BEEF);

    // A write without the enable bit is dropped.
    acc.write_address(0x0000_0810);
    acc.write_data(0x1111_1111);
    assert_eq!(acc.read_conf_reg(0, 1, 0, 0x10), 0xDEAD_BEEF);
}

#[test]
fn absent_vendor_is_never_registered() {
    let mut space = ConfigSpace::new();
    // Host bridge at (0,0,0): single-function, roots bus 0 only.
    assert!(space.add_function(present(0, 0, 0, 0x1022, 0x0600_0000, 0)));
    // A slot that answers, but with the absent vendor id.
    assert!(space.add_function(present(0, 1, 0, 0xFFFF, 0x0300_0000, 0)));
    // A present device behind it.
    assert!(space.add_function(present(0, 2, 0, 0x1111, 0x0300_0000, 0)));

    let mut acc = ConfigAccessor::new(space);
    let mut devices = Devices::default();
    assert!(scan_all_bus(&mut acc, &mut devices).is_ok());

    assert_eq!(devices.num, 2);
    for i in 0..devices.num {
        let d = &devices.devices[i];
        assert_ne!(d.vendor_id, 0xFFFF);
        assert_ne!((d.bus, d.device, d.function), (0, 1, 0));
    }
}

#[test]
fn single_function_root_scans_exactly_bus_zero() {
    let mut space = ConfigSpace::new();
    // Single-function host bridge at (0,0,0).
    assert!(space.add_function(present(0, 0, 0, 0x1022, 0x0600_0000, 0)));
    // Present devices scattered over bus 0; device numbers run 0..31.
    assert!(space.add_function(present(0, 5, 0, 0x1111, 0x0300_0000, 0)));
    assert!(space.add_function(present(0, 31, 0, 0x2222, 0x0880_0000, 0)));
    // Function 1 of the multi-function device 31 (header bit 7 set above).
    assert!(space.add_function(present(0, 31, 1, 0x2223, 0x0800_0000, 0)));
    // A device on another bus: unreachable without a bridge.
    assert!(space.add_function(present(7, 0, 0, 0x3333, 0x0300_0000, 0)));

    let mut acc = ConfigAccessor::new(space);
    let mut devices = Devices::default();
    assert!(scan_all_bus(&mut acc, &mut devices).is_ok());

    // Count equals the distinct present functions of bus 0, in scan order.
    assert_eq!(devices.num, 4);
    let got: Vec<(u8, u8, u8)> = (0..devices.num)
        .map(|i| {
            let d = &devices.devices[i];
            (d.bus, d.device, d.function)
        })
        .collect();
    assert_eq!(got, vec![(0, 0, 0), (0, 5, 0), (0, 31, 0), (0, 31, 1)]);
}

#[test]
fn bridge_at_root_scans_secondary_bus_once() {
    let mut space = ConfigSpace::new();
    // PCI-to-PCI bridge at (0,0,0), secondary bus number 2 in bits 15..8.
    assert!(space.add_function(present(0, 0, 0, 0x1022, 0x0604_0000, 0x0000_0200)));
    // Devices behind the bridge on bus 2, and one more on bus 0.
    assert!(space.add_function(present(2, 0, 0, 0xAAAA, 0x0300_0000, 0)));
    assert!(space.add_function(present(2, 9, 0, 0xBBBB, 0x0300_0000, 0)));
    assert!(space.add_function(present(0, 4, 0, 0xCCCC, 0x0300_0000, 0)));

    let mut acc = ConfigAccessor::new(space);
    let mut devices = Devices::default();
    assert!(scan_all_bus(&mut acc, &mut devices).is_ok());

    // Bus 2 was walked exactly once, right after its bridge was registered
    // and before the rest of bus 0.
    let got: Vec<(u8, u8, u8)> = (0..devices.num)
        .map(|i| {
            let d = &devices.devices[i];
            (d.bus, d.device, d.function)
        })
        .collect();
    assert_eq!(got, vec![(0, 0, 0), (2, 0, 0), (2, 9, 0), (0, 4, 0)]);
}

#[test]
fn registry_full_on_thirty_third_add() {
    let mut devices = Devices::default();
    let bars = BarSet { bar0: 0, bar1: 0, bar2: 0, bar3: 0, bar4: 0, bar5: 0 };
    for i in 0..32u8 {
        let d = Device::new(0, i % 32, 0, 0, ClassCode::new(0, 0, 0), 0x1234, bars);
        assert!(devices.add_device(d).is_ok(), "add {} should fit", i);
    }
    let extra = Device::new(1, 0, 0, 0, ClassCode::new(0, 0, 0), 0x1234, bars);
    assert_eq!(devices.add_device(extra), Err(PciError::RegistryFull));
    assert_eq!(devices.num, 32);
}

#[test]
fn registry_clear_resets_count_only() {
    let mut devices = Devices::default();
    let bars = BarSet { bar0: 0, bar1: 0, bar2: 0, bar3: 0, bar4: 0, bar5: 0 };
    let d = Device::new(3, 2, 1, 0, ClassCode::new(1, 2, 3), 0x1234, bars);
    assert!(devices.add_device(d).is_ok());
    assert_eq!(devices.num, 1);
    devices.clear();
    assert_eq!(devices.num, 0);
    assert!(!devices.is_full());
    // Storage is kept; entries at and past the count are logically absent.
    assert_eq!(devices.devices.len(), 32);
}

#[test]
fn scan_aborts_when_registry_fills() {
    let mut space = ConfigSpace::new();
    // Host bridge plus one multi-function device with every function present:
    // 1 + 8 functions on bus 0, scanned into a registry that small topologies
    // cannot fill -- so fill it by hand first.
    assert!(space.add_function(present(0, 0, 0, 0x1022, 0x0600_0000, 0)));
    for f in 0..8u8 {
        assert!(space.add_function(present(0, 1, f, 0x4444, 0x0880_0000, 0)));
    }
    let mut acc = ConfigAccessor::new(space);
    let mut devices = Devices::default();
    // scan_all_bus clears first, so a pre-filled registry cannot survive it;
    // drive scan_device directly with one free slot to watch the abort.
    let bars = BarSet { bar0: 0, bar1: 0, bar2: 0, bar3: 0, bar4: 0, bar5: 0 };
    for _ in 0..31 {
        let d = Device::new(9, 9, 9, 0, ClassCode::new(0, 0, 0), 0x1234, bars);
        assert!(devices.add_device(d).is_ok());
    }
    // One slot left: function 0 registers, function 1 overflows.
    let r = xhci_bringup::scan::scan_device(&mut acc, &mut devices, 0, 1, 8);
    assert_eq!(r, Err(PciError::RegistryFull));
    // Entries registered before the failure stay visible.
    assert_eq!(devices.num, 32);
}

#[test]
fn scan_function_refuses_bridges_past_depth_bound() {
    let mut space = ConfigSpace::new();
    // A bridge whose secondary bus points back at bus 0: a cycle.
    assert!(space.add_function(present(0, 0, 0, 0x1022, 0x0604_0000, 0x0000_0000)));
    let mut acc = ConfigAccessor::new(space);
    let mut devices = Devices::default();
    let r = scan_function(&mut acc, &mut devices, 0, 0, 0, 0);
    assert_eq!(r, Err(PciError::TopologyTooDeep));
    // The bridge itself was registered before the refusal.
    assert_eq!(devices.num, 1);
}

#[test]
fn find_xhc_prefers_intel_else_takes_last() {
    let bars = BarSet { bar0: 0, bar1: 0, bar2: 0, bar3: 0, bar4: 0, bar5: 0 };
    let xhc = ClassCode::new(0x0C, 0x03, 0x30);
    let other = ClassCode::new(0x03, 0x00, 0x00);

    let mut devices = Devices::default();
    assert!(devices.add_device(Device::new(0, 1, 0, 0, other, 0x8086, bars)).is_ok());
    assert!(devices.add_device(Device::new(0, 2, 0, 0, xhc, 0x1912, bars)).is_ok());
    assert!(devices.add_device(Device::new(0, 3, 0, 0, xhc, 0x10DE, bars)).is_ok());
    let picked = find_xhc(&devices).expect("an xHCI function is present");
    // No Intel xHCI function: the last one seen stays the candidate.
    assert_eq!((picked.bus, picked.device, picked.function), (0, 3, 0));

    assert!(devices.add_device(Device::new(0, 4, 0, 0, xhc, 0x8086, bars)).is_ok());
    assert!(devices.add_device(Device::new(0, 5, 0, 0, xhc, 0x1912, bars)).is_ok());
    let picked = find_xhc(&devices).expect("an xHCI function is present");
    // The first Intel xHCI function wins outright.
    assert_eq!((picked.bus, picked.device, picked.function), (0, 4, 0));

    let empty = Devices::default();
    assert!(find_xhc(&empty).is_none());
}

#[test]
fn mmio_base_masks_bar_flag_bits() {
    assert_eq!(mmio_base_of_bar(0x0000_00AB_8000_000Cu64), 0x0000_00AB_8000_0000);
}

#[test]
fn multi_function_device_skips_absent_functions() {
    let mut space = ConfigSpace::new();
    assert!(space.add_function(present(0, 0, 0, 0x1022, 0x0600_0000, 0)));
    // Multi-function device: header bit 7 set; functions 1 and 3 present,
    // function 2 absent.
    assert!(space.add_function(present(0, 6, 0, 0x1111, 0x0880_0000, 0)));
    assert!(space.add_function(present(0, 6, 1, 0x1112, 0x0800_0000, 0)));
    assert!(space.add_function(present(0, 6, 3, 0x1113, 0x0800_0000, 0)));

    let mut acc = ConfigAccessor::new(space);
    let mut devices = Devices::default();
    assert!(scan_all_bus(&mut acc, &mut devices).is_ok());
    let got: Vec<(u8, u8, u8)> = (0..devices.num)
        .map(|i| {
            let d = &devices.devices[i];
            (d.bus, d.device, d.function)
        })
        .collect();
    assert_eq!(got, vec![(0, 0, 0), (0, 6, 0), (0, 6, 1), (0, 6, 3)]);
}

#[test]
fn config_space_refuses_duplicate_locations() {
    let mut space = ConfigSpace::new();
    assert!(space.add_function(present(0, 1, 0, 0x1111, 0, 0)));
    assert!(!space.add_function(present(0, 1, 0, 0x2222, 0, 0)));
    let mut acc = ConfigAccessor::new(space);
    assert_eq!(acc.read_vendor_id(0, 1, 0), 0x1111);
}
