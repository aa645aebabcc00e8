//! Typed MMIO handle: a non-owning binding of an already-mapped base address
//! to a hardware register layout.  The handle never owns the memory behind
//! the address, and at most one mutable view per hardware region may be live
//! at a time; dereferencing the address is volatile work the caller does.

use vstd::prelude::*;
use core::marker::PhantomData;

verus! {

/// Binds a mapped base address to the register layout `T`.
#[derive(Debug)]
pub struct Mmio<T> {
    base_address: usize,
    phantom: PhantomData<T>,
}

impl<T> Mmio<T> {
    /// The bound base address.
    pub closed spec fn spec_base_address(&self) -> usize {
        self.base_address
    }

    /// Binds `addr`, an address the address-mapping collaborator already made
    /// accessible, to the layout `T`.
    pub fn new(addr: usize) -> (r: Self)
        ensures
            r.spec_base_address() == addr,
    {
        Self { base_address: addr, phantom: PhantomData }
    }

    /// The bound base address.
    pub fn base_address(&self) -> (r: usize)
        ensures
            r == self.spec_base_address(),
    {
        self.base_address
    }
}

} // verus!
