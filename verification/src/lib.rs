//! Bring-up core for an xHCI USB host controller in a freestanding kernel.
//!
//! The crate covers PCI configuration-space discovery (address encoding, a
//! recursive bus walk, a fixed-capacity device registry), bit-exact models of
//! the xHCI register blocks (capability, operational, runtime, doorbell), and
//! the firmware-to-OS ownership/halt/reset handshake expressed as a verified
//! state machine.  Hardware access itself (port I/O, volatile MMIO) stays
//! outside: callers hand raw register values in and write computed values
//! back out.

pub mod bits;
pub mod capability;
pub mod command_ring;
pub mod config_access;
pub mod config_space;
pub mod controller;
pub mod dcbaap;
pub mod device;
pub mod doorbell;
pub mod errors;
pub mod extended_capability;
pub mod mmio;
pub mod operational;
pub mod registry;
pub mod runtime;
pub mod scan;
