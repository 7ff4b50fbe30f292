//! Mathematical model of the address space.
//!
//! Every contract in this crate is stated over these ghost structures: a
//! byte sequence per storage region, the bank-selection state, and the table
//! of memory-mapped I/O registers.

use vstd::prelude::*;

verus! {

/// Ghost state of the bank controller: which cartridge variant is present,
/// how many ROM and RAM banks exist, which banks are currently selected,
/// and whether cartridge RAM is enabled.
pub struct BankModel {
    /// True when the cartridge carries a banking controller; false for a
    /// plain ROM cartridge whose control writes are ignored.
    pub banked: bool,
    /// Number of 0x4000-byte ROM banks; at least one.
    pub rom_bank_count: nat,
    /// Number of 0x2000-byte cartridge RAM banks; zero when the cartridge
    /// has no RAM.
    pub ram_bank_count: nat,
    /// Currently selected ROM bank for the switchable window 0x4000-0x7FFF.
    pub rom_bank: nat,
    /// Currently selected cartridge RAM bank for 0xA000-0xBFFF.
    pub ram_bank: nat,
    /// The RAM-enable latch; cartridge RAM reads and writes reach storage
    /// only while it is set.
    pub ram_enabled: bool,
}

/// Well-formedness of the bank-selection state: bank indices stay below the
/// bank counts, the ROM size fits the machine, and a plain ROM cartridge
/// has no RAM and no enabled latch.
pub open spec fn bank_inv(b: BankModel) -> bool {
    &&& b.rom_bank_count >= 1
    &&& b.rom_bank < b.rom_bank_count
    &&& b.rom_bank_count * 0x4000 <= usize::MAX
    &&& b.ram_bank_count <= 16
    &&& (if b.ram_bank_count > 0 {
            b.ram_bank < b.ram_bank_count
        } else {
            b.ram_bank == 0
        })
    &&& (!b.banked ==> !b.ram_enabled && b.ram_bank_count == 0)
}

/// Cartridge RAM is reachable only while the enable latch is set and the
/// cartridge actually has RAM banks.
pub open spec fn ram_accessible(b: BankModel) -> bool {
    b.ram_enabled && b.ram_bank_count > 0
}

/// Ghost state of the whole address space: one byte sequence per storage
/// region, the bank-selection state, and the MMIO register table (`None`
/// marks an address with no registered handler).
pub struct SpaceModel {
    /// Cartridge ROM, `rom_bank_count` banks of 0x4000 bytes, immutable
    /// after load.
    pub rom: Seq<u8>,
    /// Video RAM, 0x2000 bytes.
    pub vram: Seq<u8>,
    /// Cartridge RAM, `ram_bank_count` banks of 0x2000 bytes, flattened.
    pub sram: Seq<u8>,
    /// Work RAM, 0x8000 bytes of storage; the fixed mapping addresses its
    /// first 0x2000 bytes.
    pub wram: Seq<u8>,
    /// Object-attribute memory, a 0x100-byte region; the decoder routes
    /// only its first 0xA0 bytes, the tail is architecturally unusable.
    pub oam: Seq<u8>,
    /// Bank-selection state.
    pub bank: BankModel,
    /// MMIO register table for 0xFF00-0xFFFF, one slot per address.
    pub mmio: Seq<Option<u8>>,
}

/// Well-formedness of the whole address space: the bank state is well
/// formed and every storage region has its architectural size.
pub open spec fn space_inv(m: SpaceModel) -> bool {
    &&& bank_inv(m.bank)
    &&& m.rom.len() == m.bank.rom_bank_count * 0x4000
    &&& m.vram.len() == 0x2000
    &&& m.sram.len() == m.bank.ram_bank_count * 0x2000
    &&& m.wram.len() == 0x8000
    &&& m.oam.len() == 0x100
    &&& m.mmio.len() == 0x100
}

} // verus!
