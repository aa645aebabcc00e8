//! Recursive depth-first PCI bus walk.
//!
//! The walk probes (0,0,0): a single-function host bridge roots exactly bus
//! 0; otherwise each present function 1..7 of device 0 roots the bus of its
//! own number.  A bus visit probes devices 0..31, a device visit scans
//! function 0 and, for multi-function devices, functions 1..7, and every
//! PCI-to-PCI bridge function recurses into its secondary bus.  Every visited
//! present function is registered before any bus it bridges to is scanned.
//! Recursion depth is bounded; running out of bound, or out of registry
//! capacity, aborts the walk and leaves the entries registered so far in
//! place.
//!
//! The spec functions below compute the exact sequence of registered devices
//! for a given configuration space; the executable walk is proved to produce
//! it.

use vstd::prelude::*;
use crate::config_access::{
    calc_bar_address, is_single_function_device, spec_bus_numbers, spec_class_code_raw,
    spec_header_type, spec_read_conf_reg, spec_vendor_id, ConfigAccessor,
};
use crate::config_space::ConfigFunction;
use crate::device::{class_code_of_raw, BarSet, ClassCode, Device};
use crate::registry::{Devices, PciError, REGISTRY_CAPACITY};

verus! {

broadcast use crate::bits::lemma_u32_and_le;

/// Bound on nested bridge recursion; deeper topologies are refused rather
/// than trusted.
pub const MAX_SCAN_DEPTH: u8 = 32;

/// A class-code register word marking a PCI-to-PCI bridge (base 0x06, sub
/// 0x04).
pub open spec fn spec_is_bridge(raw_class: u32) -> bool {
    (raw_class >> 24) & 0xFF == 0x06 && (raw_class >> 16) & 0xFF == 0x04
}

/// The registry record the scan builds for the function at a location.
pub open spec fn spec_device_record(
    s: Seq<ConfigFunction>,
    bus: u8,
    device: u8,
    function: u8,
) -> Device {
    Device {
        bus,
        device,
        function,
        header_type: spec_header_type(s, bus, device, function),
        class_code: class_code_of_raw(spec_class_code_raw(s, bus, device, function)),
        vendor_id: spec_vendor_id(s, bus, device, function) as u16,
        bars: BarSet {
            bar0: spec_read_conf_reg(s, bus, device, function, 0x10),
            bar1: spec_read_conf_reg(s, bus, device, function, 0x14),
            bar2: spec_read_conf_reg(s, bus, device, function, 0x18),
            bar3: spec_read_conf_reg(s, bus, device, function, 0x1C),
            bar4: spec_read_conf_reg(s, bus, device, function, 0x20),
            bar5: spec_read_conf_reg(s, bus, device, function, 0x24),
        },
    }
}

/// Devices registered by visiting one present function with `room` registry
/// slots free, and the error that stops the walk, if one does.
pub open spec fn scan_function_spec(
    s: Seq<ConfigFunction>,
    bus: u8,
    device: u8,
    function: u8,
    room: int,
    depth: u8,
) -> (Seq<Device>, Option<PciError>)
    decreases depth, 1int, 0int,
{
    if room <= 0 {
        (Seq::<Device>::empty(), Some(PciError::RegistryFull))
    } else {
        let head = seq![spec_device_record(s, bus, device, function)];
        if spec_is_bridge(spec_class_code_raw(s, bus, device, function)) {
            if depth == 0 {
                (head, Some(PciError::TopologyTooDeep))
            } else {
                let secondary = ((spec_bus_numbers(s, bus, device, function) >> 8) & 0xFF) as u8;
                let (rest, err) = scan_bus_spec(s, secondary, room - 1, (depth - 1) as u8);
                (head + rest, err)
            }
        } else {
            (head, None)
        }
    }
}

/// Devices registered by visiting functions `function_index..8` of one
/// multi-function device.
pub open spec fn scan_device_from_spec(
    s: Seq<ConfigFunction>,
    bus: u8,
    device: u8,
    function_index: u8,
    room: int,
    depth: u8,
) -> (Seq<Device>, Option<PciError>)
    decreases depth, 2int, 8 - function_index,
{
    if function_index >= 8 {
        (Seq::<Device>::empty(), None)
    } else if spec_vendor_id(s, bus, device, function_index) == 0xFFFF {
        scan_device_from_spec(s, bus, device, (function_index + 1) as u8, room, depth)
    } else {
        let (a1, e1) = scan_function_spec(s, bus, device, function_index, room, depth);
        if e1 is Some {
            (a1, e1)
        } else {
            let (a2, e2) = scan_device_from_spec(
                s,
                bus,
                device,
                (function_index + 1) as u8,
                room - a1.len(),
                depth,
            );
            (a1 + a2, e2)
        }
    }
}

/// Devices registered by visiting one present device: always function 0,
/// further functions only when the header marks it multi-function.
pub open spec fn scan_device_spec(
    s: Seq<ConfigFunction>,
    bus: u8,
    device: u8,
    room: int,
    depth: u8,
) -> (Seq<Device>, Option<PciError>)
    decreases depth, 2int, 9int,
{
    let (a1, e1) = scan_function_spec(s, bus, device, 0, room, depth);
    if e1 is Some {
        (a1, e1)
    } else if spec_header_type(s, bus, device, 0) & 0x80 == 0 {
        (a1, None)
    } else {
        let (a2, e2) = scan_device_from_spec(s, bus, device, 1, room - a1.len(), depth);
        (a1 + a2, e2)
    }
}

/// Devices registered by visiting devices `device_index..32` of one bus.
pub open spec fn scan_bus_from_spec(
    s: Seq<ConfigFunction>,
    bus: u8,
    device_index: u8,
    room: int,
    depth: u8,
) -> (Seq<Device>, Option<PciError>)
    decreases depth, 3int, 32 - device_index,
{
    if device_index >= 32 {
        (Seq::<Device>::empty(), None)
    } else if spec_vendor_id(s, bus, device_index, 0) == 0xFFFF {
        scan_bus_from_spec(s, bus, (device_index + 1) as u8, room, depth)
    } else {
        let (a1, e1) = scan_device_spec(s, bus, device_index, room, depth);
        if e1 is Some {
            (a1, e1)
        } else {
            let (a2, e2) = scan_bus_from_spec(
                s,
                bus,
                (device_index + 1) as u8,
                room - a1.len(),
                depth,
            );
            (a1 + a2, e2)
        }
    }
}

/// Devices registered by scanning one whole bus.
pub open spec fn scan_bus_spec(s: Seq<ConfigFunction>, bus: u8, room: int, depth: u8) -> (
    Seq<Device>,
    Option<PciError>,
)
    decreases depth, 4int, 0int,
{
    scan_bus_from_spec(s, bus, 0, room, depth)
}

/// Devices registered by scanning the buses rooted by host-bridge functions
/// `function_index..8` of device (0,0).
pub open spec fn scan_all_from_spec(s: Seq<ConfigFunction>, function_index: u8, room: int) -> (
    Seq<Device>,
    Option<PciError>,
)
    decreases 8 - function_index,
{
    if function_index >= 8 {
        (Seq::<Device>::empty(), None)
    } else if spec_vendor_id(s, 0, 0, function_index) == 0xFFFF {
        scan_all_from_spec(s, (function_index + 1) as u8, room)
    } else {
        let (a1, e1) = scan_bus_spec(s, function_index, room, MAX_SCAN_DEPTH);
        if e1 is Some {
            (a1, e1)
        } else {
            let (a2, e2) = scan_all_from_spec(s, (function_index + 1) as u8, room - a1.len());
            (a1 + a2, e2)
        }
    }
}

/// The complete scan: what a freshly cleared registry holds afterwards, and
/// the error that aborted the walk, if one did.
pub open spec fn scan_all_bus_spec(s: Seq<ConfigFunction>) -> (Seq<Device>, Option<PciError>) {
    if spec_header_type(s, 0, 0, 0) & 0x80 == 0 {
        scan_bus_spec(s, 0, REGISTRY_CAPACITY as int, MAX_SCAN_DEPTH)
    } else {
        scan_all_from_spec(s, 1, REGISTRY_CAPACITY as int)
    }
}

/// Visits one present function: registers it and recurses into its secondary
/// bus when it is a PCI-to-PCI bridge.
pub fn scan_function(
    acc: &mut ConfigAccessor,
    devices: &mut Devices,
    bus: u8,
    device: u8,
    function: u8,
    depth: u8,
) -> (r: Result<(), PciError>)
    requires
        old(devices).wf(),
        device < 32,
        function < 8,
    ensures
        final(devices).wf(),
        final(acc).entries() == old(acc).entries(),
        ({
            let (added, err) = scan_function_spec(
                old(acc).entries(),
                bus,
                device,
                function,
                REGISTRY_CAPACITY - old(devices).num,
                depth,
            );
            final(devices).entries() == old(devices).entries() + added && match err {
                Some(e) => r == Err::<(), PciError>(e),
                None => r is Ok,
            }
        }),
    decreases depth, 1int, 0int,
{
    let ghost s = old(acc).entries();
    let ghost pre = old(devices).entries();
    let header_type = acc.read_header_type(bus, device, function);
    let class_raw = acc.read_class_code(bus, device, function);
    let vendor = acc.read_vendor_id(bus, device, function);
    let bar0 = acc.read_conf_reg(bus, device, function, calc_bar_address(0));
    let bar1 = acc.read_conf_reg(bus, device, function, calc_bar_address(1));
    let bar2 = acc.read_conf_reg(bus, device, function, calc_bar_address(2));
    let bar3 = acc.read_conf_reg(bus, device, function, calc_bar_address(3));
    let bar4 = acc.read_conf_reg(bus, device, function, calc_bar_address(4));
    let bar5 = acc.read_conf_reg(bus, device, function, calc_bar_address(5));
    let record = Device::new(
        bus,
        device,
        function,
        header_type,
        ClassCode::from(class_raw),
        vendor as u16,
        BarSet { bar0, bar1, bar2, bar3, bar4, bar5 },
    );
    proof {
        assert(record == spec_device_record(s, bus, device, function));
    }
    match devices.add_device(record) {
        Err(e) => {
            proof {
                assert(pre + Seq::<Device>::empty() =~= pre);
            }
            return Err(e);
        },
        Ok(()) => {},
    }
    let base: u8 = ((class_raw >> 24) & 0xFF) as u8;
    let sub: u8 = ((class_raw >> 16) & 0xFF) as u8;

    if base == 0x06 && sub == 0x04 {
        // A PCI-to-PCI bridge: walk the bus behind it, within the depth bound.
        if depth == 0 {
            return Err(PciError::TopologyTooDeep);
        }
        let bus_numbers = acc.read_bus_numbers(bus, device, function);
        let secondary: u8 = ((bus_numbers >> 8) & 0xFF) as u8;
        let ghost mid = devices.entries();
        let r = scan_bus(acc, devices, secondary, depth - 1);
        proof {
            let head = seq![spec_device_record(s, bus, device, function)];
            let (rest, _) = scan_bus_spec(
                s,
                secondary,
                REGISTRY_CAPACITY - old(devices).num - 1,
                (depth - 1) as u8,
            );
            assert((pre + head) + rest =~= pre + (head + rest));
        }
        return r;
    }
    Ok(())
}

/// Visits function 0 of a present device and, when the header marks it
/// multi-function, its further present functions.
pub fn scan_device(
    acc: &mut ConfigAccessor,
    devices: &mut Devices,
    bus: u8,
    device: u8,
    depth: u8,
) -> (r: Result<(), PciError>)
    requires
        old(devices).wf(),
        device < 32,
    ensures
        final(devices).wf(),
        final(acc).entries() == old(acc).entries(),
        ({
            let (added, err) = scan_device_spec(
                old(acc).entries(),
                bus,
                device,
                REGISTRY_CAPACITY - old(devices).num,
                depth,
            );
            final(devices).entries() == old(devices).entries() + added && match err {
                Some(e) => r == Err::<(), PciError>(e),
                None => r is Ok,
            }
        }),
    decreases depth, 2int, 9int,
{
    let ghost s = old(acc).entries();
    let ghost pre = old(devices).entries();
    match scan_function(acc, devices, bus, device, 0, depth) {
        Err(e) => {
            return Err(e);
        },
        Ok(()) => {},
    }
    let header = acc.read_header_type(bus, device, 0);
    if is_single_function_device(header) {
        return Ok(());
    }
    let ghost a1 = scan_function_spec(s, bus, device, 0, REGISTRY_CAPACITY - pre.len(), depth).0;
    let r = scan_device_from(acc, devices, bus, device, 1, depth);
    proof {
        let (a2, _) = scan_device_from_spec(
            s,
            bus,
            device,
            1,
            REGISTRY_CAPACITY - pre.len() - a1.len(),
            depth,
        );
        assert((pre + a1) + a2 =~= pre + (a1 + a2));
    }
    r
}

/// Visits the present functions `function_index..8` of a multi-function
/// device.
pub fn scan_device_from(
    acc: &mut ConfigAccessor,
    devices: &mut Devices,
    bus: u8,
    device: u8,
    function_index: u8,
    depth: u8,
) -> (r: Result<(), PciError>)
    requires
        old(devices).wf(),
        device < 32,
        function_index <= 8,
    ensures
        final(devices).wf(),
        final(acc).entries() == old(acc).entries(),
        ({
            let (added, err) = scan_device_from_spec(
                old(acc).entries(),
                bus,
                device,
                function_index,
                REGISTRY_CAPACITY - old(devices).num,
                depth,
            );
            final(devices).entries() == old(devices).entries() + added && match err {
                Some(e) => r == Err::<(), PciError>(e),
                None => r is Ok,
            }
        }),
    decreases depth, 2int, 8 - function_index,
{
    let ghost s = old(acc).entries();
    let ghost pre = old(devices).entries();
    if function_index >= 8 {
        proof {
            assert(pre + Seq::<Device>::empty() =~= pre);
        }
        return Ok(());
    }
    let vendor = acc.read_vendor_id(bus, device, function_index);
    if vendor == 0xFFFF {
        return scan_device_from(acc, devices, bus, device, function_index + 1, depth);
    }
    match scan_function(acc, devices, bus, device, function_index, depth) {
        Err(e) => {
            return Err(e);
        },
        Ok(()) => {},
    }
    let ghost a1 = scan_function_spec(
        s,
        bus,
        device,
        function_index,
        REGISTRY_CAPACITY - pre.len(),
        depth,
    ).0;
    let r = scan_device_from(acc, devices, bus, device, function_index + 1, depth);
    proof {
        let (a2, _) = scan_device_from_spec(
            s,
            bus,
            device,
            (function_index + 1) as u8,
            REGISTRY_CAPACITY - pre.len() - a1.len(),
            depth,
        );
        assert((pre + a1) + a2 =~= pre + (a1 + a2));
    }
    r
}

/// Visits the present devices `device_index..32` of one bus.
pub fn scan_bus_from(
    acc: &mut ConfigAccessor,
    devices: &mut Devices,
    bus: u8,
    device_index: u8,
    depth: u8,
) -> (r: Result<(), PciError>)
    requires
        old(devices).wf(),
        device_index <= 32,
    ensures
        final(devices).wf(),
        final(acc).entries() == old(acc).entries(),
        ({
            let (added, err) = scan_bus_from_spec(
                old(acc).entries(),
                bus,
                device_index,
                REGISTRY_CAPACITY - old(devices).num,
                depth,
            );
            final(devices).entries() == old(devices).entries() + added && match err {
                Some(e) => r == Err::<(), PciError>(e),
                None => r is Ok,
            }
        }),
    decreases depth, 3int, 32 - device_index,
{
    let ghost s = old(acc).entries();
    let ghost pre = old(devices).entries();
    if device_index >= 32 {
        proof {
            assert(pre + Seq::<Device>::empty() =~= pre);
        }
        return Ok(());
    }
    let vendor = acc.read_vendor_id(bus, device_index, 0);
    if vendor == 0xFFFF {
        return scan_bus_from(acc, devices, bus, device_index + 1, depth);
    }
    match scan_device(acc, devices, bus, device_index, depth) {
        Err(e) => {
            return Err(e);
        },
        Ok(()) => {},
    }
    let ghost a1 = scan_device_spec(s, bus, device_index, REGISTRY_CAPACITY - pre.len(), depth).0;
    let r = scan_bus_from(acc, devices, bus, device_index + 1, depth);
    proof {
        let (a2, _) = scan_bus_from_spec(
            s,
            bus,
            (device_index + 1) as u8,
            REGISTRY_CAPACITY - pre.len() - a1.len(),
            depth,
        );
        assert((pre + a1) + a2 =~= pre + (a1 + a2));
    }
    r
}

/// Scans one whole bus: devices 0..31, skipping absent ones.
pub fn scan_bus(acc: &mut ConfigAccessor, devices: &mut Devices, bus: u8, depth: u8) -> (r: Result<
    (),
    PciError,
>)
    requires
        old(devices).wf(),
    ensures
        final(devices).wf(),
        final(acc).entries() == old(acc).entries(),
        ({
            let (added, err) = scan_bus_spec(
                old(acc).entries(),
                bus,
                REGISTRY_CAPACITY - old(devices).num,
                depth,
            );
            final(devices).entries() == old(devices).entries() + added && match err {
                Some(e) => r == Err::<(), PciError>(e),
                None => r is Ok,
            }
        }),
    decreases depth, 4int, 0int,
{
    scan_bus_from(acc, devices, bus, 0, depth)
}

fn scan_all_from(acc: &mut ConfigAccessor, devices: &mut Devices, function_index: u8) -> (r:
    Result<(), PciError>)
    requires
        old(devices).wf(),
        1 <= function_index <= 8,
    ensures
        final(devices).wf(),
        final(acc).entries() == old(acc).entries(),
        ({
            let (added, err) = scan_all_from_spec(
                old(acc).entries(),
                function_index,
                REGISTRY_CAPACITY - old(devices).num,
            );
            final(devices).entries() == old(devices).entries() + added && match err {
                Some(e) => r == Err::<(), PciError>(e),
                None => r is Ok,
            }
        }),
    decreases 8 - function_index,
{
    let ghost s = old(acc).entries();
    let ghost pre = old(devices).entries();
    if function_index >= 8 {
        proof {
            assert(pre + Seq::<Device>::empty() =~= pre);
        }
        return Ok(());
    }
    let vendor = acc.read_vendor_id(0, 0, function_index);
    if vendor == 0xFFFF {
        return scan_all_from(acc, devices, function_index + 1);
    }
    match scan_bus(acc, devices, function_index, MAX_SCAN_DEPTH) {
        Err(e) => {
            return Err(e);
        },
        Ok(()) => {},
    }
    let ghost a1 = scan_bus_spec(s, function_index, REGISTRY_CAPACITY - pre.len(), MAX_SCAN_DEPTH).0;
    let r = scan_all_from(acc, devices, function_index + 1);
    proof {
        let (a2, _) = scan_all_from_spec(
            s,
            (function_index + 1) as u8,
            REGISTRY_CAPACITY - pre.len() - a1.len(),
        );
        assert((pre + a1) + a2 =~= pre + (a1 + a2));
    }
    r
}

/// Clears the registry and walks every reachable bus.  Afterwards the
/// registry holds exactly the scan's device sequence for this configuration
/// space; no absent function (vendor id 0xFFFF) is ever registered.
pub fn scan_all_bus(acc: &mut ConfigAccessor, devices: &mut Devices) -> (r: Result<(), PciError>)
    requires
        old(devices).wf(),
    ensures
        final(devices).wf(),
        final(acc).entries() == old(acc).entries(),
        ({
            let (added, err) = scan_all_bus_spec(old(acc).entries());
            final(devices).entries() == added && match err {
                Some(e) => r == Err::<(), PciError>(e),
                None => r is Ok,
            }
        }),
        ({
            let got = final(devices).entries();
            forall|i: int| 0 <= i < got.len() ==> (#[trigger] got[i]).vendor_id != 0xFFFF
        }),
    decreases 9int,
{
    let ghost s = old(acc).entries();
    devices.clear();
    let header_type = acc.read_header_type(0, 0, 0);
    let r = if is_single_function_device(header_type) {
        scan_bus(acc, devices, 0, MAX_SCAN_DEPTH)
    } else {
        scan_all_from(acc, devices, 1)
    };
    proof {
        assert(Seq::<Device>::empty() + scan_all_bus_spec(s).0 =~= scan_all_bus_spec(s).0);
        lemma_scan_all_bus_present(s);
        let added = scan_all_bus_spec(s).0;
        assert forall|i: int| 0 <= i < added.len() implies (#[trigger] added[i]).vendor_id
            != 0xFFFF by {
            assert(scan_entry_ok(s, added[i]));
        }
    }
    r
}

/// What holds of every registered entry: it is exactly the record the scan
/// builds for its own location, and that location's vendor id is present.
pub open spec fn scan_entry_ok(s: Seq<ConfigFunction>, d: Device) -> bool {
    d == spec_device_record(s, d.bus, d.device, d.function) && spec_vendor_id(
        s,
        d.bus,
        d.device,
        d.function,
    ) != 0xFFFF
}

/// `scan_entry_ok` for every element of a device sequence.
pub open spec fn scan_entries_ok(s: Seq<ConfigFunction>, devs: Seq<Device>) -> bool {
    forall|i: int| 0 <= i < devs.len() ==> scan_entry_ok(s, #[trigger] devs[i])
}

proof fn lemma_entries_ok_concat(s: Seq<ConfigFunction>, a: Seq<Device>, b: Seq<Device>)
    requires
        scan_entries_ok(s, a),
        scan_entries_ok(s, b),
    ensures
        scan_entries_ok(s, a + b),
{
    assert forall|i: int| 0 <= i < (a + b).len() implies scan_entry_ok(s, #[trigger] (a + b)[i]) by {
        if i < a.len() {
            assert((a + b)[i] == a[i]);
        } else {
            assert((a + b)[i] == b[i - a.len()]);
        }
    }
}

proof fn lemma_scan_function_present(
    s: Seq<ConfigFunction>,
    bus: u8,
    device: u8,
    function: u8,
    room: int,
    depth: u8,
)
    requires
        spec_vendor_id(s, bus, device, function) != 0xFFFF,
    ensures
        scan_entries_ok(s, scan_function_spec(s, bus, device, function, room, depth).0),
    decreases depth, 1int, 0int,
{
    if room <= 0 {
    } else {
        let head = seq![spec_device_record(s, bus, device, function)];
        assert(scan_entry_ok(s, head[0]));
        let raw = spec_class_code_raw(s, bus, device, function);
        if spec_is_bridge(raw) && depth > 0 {
            let secondary = ((spec_bus_numbers(s, bus, device, function) >> 8) & 0xFF) as u8;
            lemma_scan_bus_present(s, secondary, room - 1, (depth - 1) as u8);
            lemma_entries_ok_concat(
                s,
                head,
                scan_bus_spec(s, secondary, room - 1, (depth - 1) as u8).0,
            );
        }
    }
}

proof fn lemma_scan_device_from_present(
    s: Seq<ConfigFunction>,
    bus: u8,
    device: u8,
    function_index: u8,
    room: int,
    depth: u8,
)
    ensures
        scan_entries_ok(
            s,
            scan_device_from_spec(s, bus, device, function_index, room, depth).0,
        ),
    decreases depth, 2int, 8 - function_index,
{
    if function_index >= 8 {
    } else if spec_vendor_id(s, bus, device, function_index) == 0xFFFF {
        lemma_scan_device_from_present(s, bus, device, (function_index + 1) as u8, room, depth);
    } else {
        lemma_scan_function_present(s, bus, device, function_index, room, depth);
        let (a1, e1) = scan_function_spec(s, bus, device, function_index, room, depth);
        if e1 is None {
            lemma_scan_device_from_present(
                s,
                bus,
                device,
                (function_index + 1) as u8,
                room - a1.len(),
                depth,
            );
            lemma_entries_ok_concat(
                s,
                a1,
                scan_device_from_spec(
                    s,
                    bus,
                    device,
                    (function_index + 1) as u8,
                    room - a1.len(),
                    depth,
                ).0,
            );
        }
    }
}

proof fn lemma_scan_device_present(
    s: Seq<ConfigFunction>,
    bus: u8,
    device: u8,
    room: int,
    depth: u8,
)
    requires
        spec_vendor_id(s, bus, device, 0) != 0xFFFF,
    ensures
        scan_entries_ok(s, scan_device_spec(s, bus, device, room, depth).0),
    decreases depth, 2int, 9int,
{
    lemma_scan_function_present(s, bus, device, 0, room, depth);
    let (a1, e1) = scan_function_spec(s, bus, device, 0, room, depth);
    if e1 is None && spec_header_type(s, bus, device, 0) & 0x80 != 0 {
        lemma_scan_device_from_present(s, bus, device, 1, room - a1.len(), depth);
        lemma_entries_ok_concat(
            s,
            a1,
            scan_device_from_spec(s, bus, device, 1, room - a1.len(), depth).0,
        );
    }
}

proof fn lemma_scan_bus_from_present(
    s: Seq<ConfigFunction>,
    bus: u8,
    device_index: u8,
    room: int,
    depth: u8,
)
    ensures
        scan_entries_ok(s, scan_bus_from_spec(s, bus, device_index, room, depth).0),
    decreases depth, 3int, 32 - device_index,
{
    if device_index >= 32 {
    } else if spec_vendor_id(s, bus, device_index, 0) == 0xFFFF {
        lemma_scan_bus_from_present(s, bus, (device_index + 1) as u8, room, depth);
    } else {
        lemma_scan_device_present(s, bus, device_index, room, depth);
        let (a1, e1) = scan_device_spec(s, bus, device_index, room, depth);
        if e1 is None {
            lemma_scan_bus_from_present(s, bus, (device_index + 1) as u8, room - a1.len(), depth);
            lemma_entries_ok_concat(
                s,
                a1,
                scan_bus_from_spec(s, bus, (device_index + 1) as u8, room - a1.len(), depth).0,
            );
        }
    }
}

proof fn lemma_scan_bus_present(s: Seq<ConfigFunction>, bus: u8, room: int, depth: u8)
    ensures
        scan_entries_ok(s, scan_bus_spec(s, bus, room, depth).0),
    decreases depth, 4int, 0int,
{
    lemma_scan_bus_from_present(s, bus, 0, room, depth);
}

proof fn lemma_scan_all_from_present(s: Seq<ConfigFunction>, function_index: u8, room: int)
    ensures
        scan_entries_ok(s, scan_all_from_spec(s, function_index, room).0),
    decreases 8 - function_index,
{
    if function_index >= 8 {
    } else if spec_vendor_id(s, 0, 0, function_index) == 0xFFFF {
        lemma_scan_all_from_present(s, (function_index + 1) as u8, room);
    } else {
        lemma_scan_bus_present(s, function_index, room, MAX_SCAN_DEPTH);
        let (a1, e1) = scan_bus_spec(s, function_index, room, MAX_SCAN_DEPTH);
        if e1 is None {
            lemma_scan_all_from_present(s, (function_index + 1) as u8, room - a1.len());
            lemma_entries_ok_concat(
                s,
                a1,
                scan_all_from_spec(s, (function_index + 1) as u8, room - a1.len()).0,
            );
        }
    }
}

/// A location whose vendor id reads absent (0xFFFF) is never registered: every
/// entry the complete scan produces is the exact record of a location whose
/// vendor id is present.
pub proof fn lemma_scan_all_bus_present(s: Seq<ConfigFunction>)
    ensures
        scan_entries_ok(s, scan_all_bus_spec(s).0),
{
    if spec_header_type(s, 0, 0, 0) & 0x80 == 0 {
        lemma_scan_bus_present(s, 0, REGISTRY_CAPACITY as int, MAX_SCAN_DEPTH);
    } else {
        lemma_scan_all_from_present(s, 1, REGISTRY_CAPACITY as int);
    }
}

/// Which registered device drives USB as an xHCI host controller: searching
/// in registration order, the first Intel-vendor xHCI function wins
/// outright; otherwise the last xHCI function seen stays the candidate.
pub open spec fn spec_find_xhc_from(s: Seq<Device>, i: int, candidate: Option<Device>) -> Option<
    Device,
>
    decreases s.len() - i,
{
    if i < 0 || i >= s.len() {
        candidate
    } else if s[i].class_code == (ClassCode { base: 0x0C, sub: 0x03, interface: 0x30 }) {
        if s[i].vendor_id == 0x8086 {
            Some(s[i])
        } else {
            spec_find_xhc_from(s, i + 1, Some(s[i]))
        }
    } else {
        spec_find_xhc_from(s, i + 1, candidate)
    }
}

/// The xHCI host controller the scan selects from the registry, if any.
pub open spec fn spec_find_xhc(s: Seq<Device>) -> Option<Device> {
    spec_find_xhc_from(s, 0, None)
}

/// Selects the xHCI host controller to drive: an Intel-vendor one is
/// preferred, else the last registered one.
pub fn find_xhc(devices: &Devices) -> (r: Option<Device>)
    requires
        devices.wf(),
    ensures
        r == spec_find_xhc(devices.entries()),
{
    let mut candidate: Option<Device> = None;
    let mut i: usize = 0;
    while i < devices.num
        invariant
            devices.wf(),
            i <= devices.num,
            spec_find_xhc(devices.entries()) == spec_find_xhc_from(
                devices.entries(),
                i as int,
                candidate,
            ),
        decreases devices.num - i,
    {
        let d = devices.devices[i];
        if d.class_code.equal_bsi(0x0C, 0x03, 0x30) {
            if d.vendor_id == 0x8086 {
                return Some(d);
            }
            candidate = Some(d);
        }
        i += 1;
    }
    candidate
}

/// The MMIO base a memory BAR value denotes: the low four flag bits masked
/// off.
pub fn mmio_base_of_bar(bar: u64) -> (r: u64)
    ensures
        r == bar & 0xFFFF_FFFF_FFFF_FFF0,
{
    bar & 0xFFFF_FFFF_FFFF_FFF0
}

} // verus!
