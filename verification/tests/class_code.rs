use xhci_bringup::device::{ClassCode, Device, BarSet};

#[test]
fn class_code_from_test() {
    let class_code = ClassCode::from(1010);
    let casted_class_code = u32::from(class_code);

    assert_eq!(
        class_code,
        ClassCode::from(casted_class_code),
        "From implementation is wrong"
    );
}

#[test]
fn class_code_round_trip_exact_fields() {
    let c = ClassCode::new(0x0C, 0x03, 0x30);
    let raw = u32::from(c);
    assert_eq!(raw, 0x0C03_3000);
    let back = ClassCode::from(raw);
    assert_eq!(back, c);
}

#[test]
fn class_code_from_raw_drops_reserved_byte() {
    // The low byte of the raw register is reserved and not modeled.
    let c = ClassCode::from(0x0604_00FF);
    assert_eq!(c, ClassCode::new(0x06, 0x04, 0x00));
    assert_eq!(u32::from(c), 0x0604_0000);
}

#[test]
fn class_code_equality_helpers() {
    let c = ClassCode::new(6, 4, 0);
    assert!(c.equal_b(6));
    assert!(!c.equal_b(5));
    assert!(c.equal_bs(6, 4));
    assert!(!c.equal_bs(6, 5));
    assert!(!c.equal_bsi(6, 4, 1));
    assert!(c.equal_bsi(6, 4, 0));
}

#[test]
fn read_bar_decodes_32_bit_window() {
    let bars = BarSet { bar0: 0x8000_0000, bar1: 0, bar2: 0, bar3: 0, bar4: 0, bar5: 0 };
    let d = Device::new(0, 0, 0, 0, ClassCode::new(0, 0, 0), 0x1234, bars);
    assert_eq!(d.read_bar(0), Some(0x8000_0000u64));
}

#[test]
fn read_bar_decodes_64_bit_window() {
    let bars = BarSet { bar0: 0x8000_0004, bar1: 0x0000_00AB, bar2: 0, bar3: 0, bar4: 0, bar5: 0 };
    let d = Device::new(0, 0, 0, 0, ClassCode::new(0, 0, 0), 0x1234, bars);
    assert_eq!(d.read_bar(0), Some(0x0000_00AB_8000_0004u64));
}

#[test]
fn read_bar_refuses_bad_indices() {
    let bars = BarSet { bar0: 0, bar1: 0, bar2: 0, bar3: 0, bar4: 0, bar5: 0x0000_0004 };
    let d = Device::new(0, 0, 0, 0, ClassCode::new(0, 0, 0), 0x1234, bars);
    // Out of range.
    assert_eq!(d.read_bar(6), None);
    // A 64-bit window starting in the final slot has no upper half.
    assert_eq!(d.read_bar(5), None);
}

#[test]
fn device_caches_scan_values() {
    let bars = BarSet { bar0: 1, bar1: 2, bar2: 3, bar3: 4, bar4: 5, bar5: 6 };
    let d = Device::new(1, 2, 3, 0x80, ClassCode::new(0x0C, 0x03, 0x30), 0x8086, bars);
    assert_eq!(d.read_vendor_id(), 0x8086);
    assert_eq!(d.read_class_code(), ClassCode::new(0x0C, 0x03, 0x30));
    assert_eq!(d.header_type, 0x80);
}
