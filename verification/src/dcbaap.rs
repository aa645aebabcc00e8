//! Device Context Base Address Array Pointer register: a 64-bit pointer held
//! as two 32-bit halves.

use vstd::prelude::*;

verus! {

/// High dword of the pointer.
#[derive(Debug, Copy, Clone)]
pub struct DCBAAPHi {
    data: u32,
}

impl DCBAAPHi {
    /// The raw dword.
    pub closed spec fn raw(&self) -> u32 {
        self.data
    }

    pub fn new(raw: u32) -> (r: Self)
        ensures
            r.raw() == raw,
    {
        Self { data: raw }
    }

    pub fn read(&self) -> (r: u32)
        ensures
            r == self.raw(),
    {
        self.data
    }
}

/// Low dword of the pointer.
#[derive(Debug, Copy, Clone)]
pub struct DCBAAPLo {
    data: u32,
}

impl DCBAAPLo {
    /// The raw dword.
    pub closed spec fn raw(&self) -> u32 {
        self.data
    }

    pub fn new(raw: u32) -> (r: Self)
        ensures
            r.raw() == raw,
    {
        Self { data: raw }
    }

    pub fn read(&self) -> (r: u32)
        ensures
            r == self.raw(),
    {
        self.data
    }
}

/// The 64-bit pointer the two halves encode.
pub open spec fn spec_dcbaap_pointer(lo: u32, hi: u32) -> u64 {
    ((hi as u64) << 32) | (lo as u64)
}

/// Both halves of the register.
#[derive(Debug, Copy, Clone)]
pub struct DeviceContextBaseAddressArrayPointerRegister {
    register_hi: DCBAAPHi,
    register_lo: DCBAAPLo,
}

impl DeviceContextBaseAddressArrayPointerRegister {
    /// The raw low dword.
    pub closed spec fn lo_raw(&self) -> u32 {
        self.register_lo.raw()
    }

    /// The raw high dword.
    pub closed spec fn hi_raw(&self) -> u32 {
        self.register_hi.raw()
    }

    pub fn new(lo: u32, hi: u32) -> (r: Self)
        ensures
            r.lo_raw() == lo,
            r.hi_raw() == hi,
    {
        Self { register_hi: DCBAAPHi::new(hi), register_lo: DCBAAPLo::new(lo) }
    }

    /// The pointer to the device-context base address array.
    pub fn r_device_context_base_address_array_pointer(&self) -> (r: u64)
        ensures
            r == spec_dcbaap_pointer(self.lo_raw(), self.hi_raw()),
    {
        let pointer_hi: u64 = self.register_hi.read() as u64;
        let pointer_lo: u64 = self.register_lo.read() as u64;

        (pointer_hi << 32) | pointer_lo
    }

    /// Replaces the pointer; reading it back yields exactly the written
    /// value.
    pub fn w_device_context_base_address_array_pointer(&mut self, pointer: u64)
        ensures
            final(self).lo_raw() == pointer as u32,
            final(self).hi_raw() == (pointer >> 32) as u32,
            spec_dcbaap_pointer(final(self).lo_raw(), final(self).hi_raw()) == pointer,
    {
        proof {
            lemma_dcbaap_round_trip(pointer);
        }
        self.register_lo = DCBAAPLo::new(pointer as u32);
        self.register_hi = DCBAAPHi::new((pointer >> 32) as u32);
    }
}

/// Splitting a 64-bit pointer into dwords and recombining them is the
/// identity.
pub proof fn lemma_dcbaap_round_trip(pointer: u64)
    ensures
        spec_dcbaap_pointer(pointer as u32, (pointer >> 32) as u32) == pointer,
{
    assert((((pointer >> 32) as u32 as u64) << 32) | (pointer as u32 as u64) == pointer)
        by (bit_vector);
}

} // verus!
