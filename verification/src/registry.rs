//! Fixed-capacity registry of the PCI functions a scan discovered.

use vstd::prelude::*;
use crate::device::{BarSet, ClassCode, Device};

verus! {

/// How a bus scan fails.
#[derive(Debug, Copy, Clone, Eq, PartialEq, Structural)]
pub enum PciError {
    /// The registry held its full 32 entries and one more function appeared.
    RegistryFull,
    /// Bridges nested past the scan's depth bound; the topology is not
    /// trusted (a mis-configured bridge cycle would otherwise recurse
    /// forever).
    TopologyTooDeep,
}

/// Number of entries the registry holds.
pub const REGISTRY_CAPACITY: usize = 32;

/// Fixed-capacity store of discovered PCI functions.  `clear` only resets the
/// count; storage at and past `num` is logically absent.
#[derive(Debug)]
pub struct Devices {
    pub devices: Vec<Device>,
    pub num: usize,
}

impl Devices {
    /// The backing storage always holds exactly the capacity, and the live
    /// count never exceeds it.
    pub open spec fn wf(&self) -> bool {
        self.devices@.len() == REGISTRY_CAPACITY && self.num <= REGISTRY_CAPACITY
    }

    /// The live entries, in registration order.
    pub open spec fn entries(&self) -> Seq<Device> {
        self.devices@.subrange(0, self.num as int)
    }

    /// Appends a discovered function; fails exactly when the registry is
    /// already full, and the count then stays at capacity.
    pub fn add_device(&mut self, device: Device) -> (r: Result<(), PciError>)
        requires
            old(self).wf(),
        ensures
            final(self).wf(),
            old(self).num < REGISTRY_CAPACITY ==> r is Ok && final(self).num == old(self).num + 1
                && final(self).entries() == old(self).entries().push(device),
            old(self).num >= REGISTRY_CAPACITY ==> r == Err::<(), PciError>(
                PciError::RegistryFull,
            ) && *final(self) == *old(self),
    {
        if self.is_full() {
            return Err(PciError::RegistryFull);
        }

        self.set_new_device(device);
        self.num += 1;
        proof {
            assert(self.entries() =~= old(self).entries().push(device));
        }
        Ok(())
    }

    /// Resets the count; the storage keeps its old contents.
    pub fn clear(&mut self)
        ensures
            final(self).num == 0,
            final(self).devices == old(self).devices,
            final(self).entries() == Seq::<Device>::empty(),
    {
        self.num = 0;
        proof {
            assert(self.entries() =~= Seq::<Device>::empty());
        }
    }

    /// True exactly when the registry holds its full capacity.
    pub fn is_full(&self) -> (r: bool)
        requires
            self.wf(),
        ensures
            r == (self.num == REGISTRY_CAPACITY),
    {
        self.num == self.devices.len()
    }

    fn set_new_device(&mut self, device: Device)
        requires
            old(self).wf(),
            old(self).num < REGISTRY_CAPACITY,
        ensures
            final(self).wf(),
            final(self).num == old(self).num,
            final(self).devices@ == old(self).devices@.update(old(self).num as int, device),
    {
        let n = self.num;
        self.devices[n] = device;
    }
}

impl Default for Devices {
    /// An empty registry with its full backing storage in place.
    fn default() -> (r: Self)
        ensures
            r.wf(),
            r.num == 0,
            r.entries() == Seq::<Device>::empty(),
    {
        let mut devices: Vec<Device> = Vec::new();
        let mut i: usize = 0;
        while i < REGISTRY_CAPACITY
            invariant
                i <= REGISTRY_CAPACITY,
                devices@.len() == i,
            decreases REGISTRY_CAPACITY - i,
        {
            devices.push(
                Device::new(
                    0,
                    0,
                    0,
                    0,
                    ClassCode::new(0, 0, 0),
                    0,
                    BarSet { bar0: 0, bar1: 0, bar2: 0, bar3: 0, bar4: 0, bar5: 0 },
                ),
            );
            i += 1;
        }
        let r = Devices { devices, num: 0 };
        proof {
            assert(r.entries() =~= Seq::<Device>::empty());
        }
        r
    }
}

} // verus!
