//! Address decoder: classifies every 16-bit address into the storage cell
//! or handler that owns it.
//!
//! The canonical, hardware-fixed layout:
//! 0x0000-0x3FFF ROM bank 0; 0x4000-0x7FFF switchable ROM bank;
//! 0x8000-0x9FFF video RAM; 0xA000-0xBFFF banked cartridge RAM (reachable
//! only while RAM-enable is latched); 0xC000-0xDFFF work RAM;
//! 0xE000-0xFDFF the deprecated echo of 0xC000-0xDDFF; 0xFE00-0xFE9F
//! object-attribute memory; 0xFEA0-0xFEFF architecturally unusable;
//! 0xFF00-0xFFFF memory-mapped I/O registers. Classification is total and
//! side-effect-free; a write into the cartridge ROM windows is routed to
//! the bank controller, never to ROM storage.

use vstd::prelude::*;

use crate::bank::{ram_offset, rom_offset, BankController};
use crate::model::{ram_accessible, BankModel};

verus! {

/// Whether an access reads or writes; bank-control registers are overlaid
/// on the ROM windows, so the two intents can resolve differently.
pub enum Intent {
    Read,
    Write,
}

/// Where an access lands: a concrete offset into one of the storage
/// regions, the bank controller, an MMIO register slot, or nothing.
pub enum Target {
    /// Cartridge ROM cell at this physical offset.
    RomCell { offset: usize },
    /// A write into the cartridge ROM windows: a bank-control register.
    BankControl,
    /// Video RAM cell.
    VramCell { offset: usize },
    /// Cartridge RAM cell at this physical offset in the flattened banks.
    RamCell { offset: usize },
    /// Work RAM cell; echo addresses land here after translation.
    WramCell { offset: usize },
    /// Object-attribute memory cell.
    OamCell { offset: usize },
    /// MMIO register slot (address minus 0xFF00).
    MmioSlot { slot: usize },
    /// No storage owns the address: reads see the fill value 0xFF, writes
    /// are discarded.
    Unmapped,
}

/// Mathematical routing decision; the ghost mirror of [`Target`].
pub enum Route {
    Rom { offset: int },
    Control,
    Vram { offset: int },
    Ram { offset: int },
    Wram { offset: int },
    Oam { offset: int },
    Mmio { slot: int },
    Unmapped,
}

impl Target {
    /// The routing decision this target stands for.
    pub open spec fn route(self) -> Route {
        match self {
            Target::RomCell { offset } => Route::Rom { offset: offset as int },
            Target::BankControl => Route::Control,
            Target::VramCell { offset } => Route::Vram { offset: offset as int },
            Target::RamCell { offset } => Route::Ram { offset: offset as int },
            Target::WramCell { offset } => Route::Wram { offset: offset as int },
            Target::OamCell { offset } => Route::Oam { offset: offset as int },
            Target::MmioSlot { slot } => Route::Mmio { slot: slot as int },
            Target::Unmapped => Route::Unmapped,
        }
    }
}

/// Total classification of the address space: which cell or handler owns
/// address `a` under bank state `b`, for a read or a write.
pub open spec fn spec_resolve(b: BankModel, a: u16, intent: Intent) -> Route {
    if a < 0x8000 {
        match intent {
            Intent::Read => Route::Rom { offset: rom_offset(b, a) },
            Intent::Write => Route::Control,
        }
    } else if a < 0xA000 {
        Route::Vram { offset: a - 0x8000 }
    } else if a < 0xC000 {
        if ram_accessible(b) {
            Route::Ram { offset: ram_offset(b, a) }
        } else {
            Route::Unmapped
        }
    } else if a < 0xE000 {
        Route::Wram { offset: a - 0xC000 }
    } else if a < 0xFE00 {
        Route::Wram { offset: a - 0xE000 }
    } else if a < 0xFEA0 {
        Route::Oam { offset: a - 0xFE00 }
    } else if a < 0xFF00 {
        Route::Unmapped
    } else {
        Route::Mmio { slot: a - 0xFF00 }
    }
}

/// Every offset a resolution can produce stays inside its region.
pub open spec fn target_fits(t: Target, b: BankModel) -> bool {
    match t {
        Target::RomCell { offset } => offset < b.rom_bank_count * 0x4000,
        Target::BankControl => true,
        Target::VramCell { offset } => offset < 0x2000,
        Target::RamCell { offset } => offset < b.ram_bank_count * 0x2000,
        Target::WramCell { offset } => offset < 0x2000,
        Target::OamCell { offset } => offset < 0xA0,
        Target::MmioSlot { slot } => slot < 0x100,
        Target::Unmapped => true,
    }
}

/// Resolves an address to its owning cell or handler. Total over `u16`:
/// every address is classified, none is rejected.
pub fn resolve(bank: &BankController, address: u16, intent: Intent) -> (t: Target)
    requires
        bank.wf(),
    ensures
        t.route() == spec_resolve(bank@, address, intent),
        target_fits(t, bank@),
{
    if address < 0x8000 {
        match intent {
            Intent::Read => Target::RomCell { offset: bank.translate_rom(address) },
            Intent::Write => Target::BankControl,
        }
    } else if address < 0xA000 {
        Target::VramCell { offset: (address - 0x8000) as usize }
    } else if address < 0xC000 {
        if bank.ram_accessible() {
            Target::RamCell { offset: bank.translate_ram(address) }
        } else {
            Target::Unmapped
        }
    } else if address < 0xE000 {
        Target::WramCell { offset: (address - 0xC000) as usize }
    } else if address < 0xFE00 {
        Target::WramCell { offset: (address - 0xE000) as usize }
    } else if address < 0xFEA0 {
        Target::OamCell { offset: (address - 0xFE00) as usize }
    } else if address < 0xFF00 {
        Target::Unmapped
    } else {
        Target::MmioSlot { slot: (address - 0xFF00) as usize }
    }
}

/// The diagnostic kinds the core reports for deprecated or unusable
/// accesses; the sink that consumes them is an external collaborator.
#[derive(Clone, Copy, PartialEq, Eq, Structural, Debug)]
pub enum Diag {
    /// Access through the deprecated echo range 0xE000-0xFDFF.
    EchoRange,
    /// Access into 0xFEA0-0xFEFF, the architecturally unusable tail of the
    /// object-attribute memory page.
    UnusedOam,
    /// Access to an MMIO address with no registered handler.
    Unmapped,
}

} // verus!
