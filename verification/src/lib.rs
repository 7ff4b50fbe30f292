//! Memory-mapping unit for a handheld-console emulator.
//!
//! Every CPU-visible 16-bit address is resolved into a concrete storage cell
//! (cartridge ROM, banked cartridge RAM, video RAM, work RAM with its echo
//! range, object-attribute memory) or a memory-mapped I/O register. The
//! decoder classifies the whole address space, the bank controller tracks the
//! cartridge's bank selection, and the `AddressSpace` facade composes them
//! behind total, panic-free `read` and `write` operations.

pub mod bank;
pub mod decoder;
pub mod laws;
pub mod mmio;
pub mod model;
pub mod space;
