//! Bank controller: interprets cartridge bank-control writes and translates
//! logical cartridge addresses into physical storage offsets.
//!
//! Two cartridge variants are supported. A plain ROM cartridge has no
//! controller: every control write is ignored. A banking cartridge latches
//! RAM-enable through writes to 0x0000-0x1FFF (a value whose low nibble is
//! 0xA sets the latch, a zero low nibble clears it, any other value leaves
//! it unchanged), selects the switchable ROM bank through 0x2000-0x3FFF and
//! the RAM bank through 0x4000-0x5FFF. A selected index wraps modulo the
//! number of banks physically present, matching hardware's habit of
//! ignoring high-order index bits. Writes to 0x6000-0x7FFF are ignored.

use vstd::prelude::*;

use crate::model::{bank_inv, ram_accessible, BankModel};

verus! {

/// What one bank-control write does to the bank-selection state.
pub open spec fn ctrl_step(b: BankModel, a: u16, v: u8) -> BankModel {
    if !b.banked {
        b
    } else if a < 0x2000 {
        if v & 0x0F == 0x0A {
            BankModel { ram_enabled: true, ..b }
        } else if v & 0x0F == 0x00 {
            BankModel { ram_enabled: false, ..b }
        } else {
            b
        }
    } else if a < 0x4000 {
        BankModel { rom_bank: (v as nat) % b.rom_bank_count, ..b }
    } else if a < 0x6000 {
        if b.ram_bank_count > 0 {
            BankModel { ram_bank: (v as nat) % b.ram_bank_count, ..b }
        } else {
            b
        }
    } else {
        b
    }
}

/// Physical ROM offset of a cartridge ROM address: the fixed window
/// 0x0000-0x3FFF reads bank 0, the switchable window 0x4000-0x7FFF reads
/// the currently selected bank.
pub open spec fn rom_offset(b: BankModel, a: u16) -> int {
    if a < 0x4000 {
        a as int
    } else {
        b.rom_bank * 0x4000 + (a - 0x4000)
    }
}

/// Physical cartridge RAM offset of an address in 0xA000-0xBFFF, inside
/// the currently selected RAM bank.
pub open spec fn ram_offset(b: BankModel, a: u16) -> int {
    b.ram_bank * 0x2000 + (a - 0xA000)
}

/// Tracks the cartridge's bank selection and answers address translation
/// for the cartridge ROM and RAM windows.
#[derive(Debug)]
pub struct BankController {
    banked: bool,
    rom_bank_count: usize,
    ram_bank_count: usize,
    rom_bank: usize,
    ram_bank: usize,
    ram_enabled: bool,
}

impl View for BankController {
    type V = BankModel;

    closed spec fn view(&self) -> BankModel {
        BankModel {
            banked: self.banked,
            rom_bank_count: self.rom_bank_count as nat,
            ram_bank_count: self.ram_bank_count as nat,
            rom_bank: self.rom_bank as nat,
            ram_bank: self.ram_bank as nat,
            ram_enabled: self.ram_enabled,
        }
    }
}

impl BankController {
    /// Well-formedness: see [`bank_inv`].
    pub open spec fn wf(&self) -> bool {
        bank_inv(self@)
    }

    /// A fresh controller: bank 0 is fixed, the switchable window starts on
    /// bank 1 where one exists, RAM starts on bank 0 with the enable latch
    /// cleared.
    pub fn new(banked: bool, rom_bank_count: usize, ram_bank_count: usize) -> (c: Self)
        requires
            rom_bank_count >= 1,
            rom_bank_count * 0x4000 <= usize::MAX,
            ram_bank_count <= 16,
            !banked ==> ram_bank_count == 0,
        ensures
            c.wf(),
            c@ == (BankModel {
                banked,
                rom_bank_count: rom_bank_count as nat,
                ram_bank_count: ram_bank_count as nat,
                rom_bank: (1 as nat) % (rom_bank_count as nat),
                ram_bank: 0,
                ram_enabled: false,
            }),
    {
        BankController {
            banked,
            rom_bank_count,
            ram_bank_count,
            rom_bank: 1 % rom_bank_count,
            ram_bank: 0,
            ram_enabled: false,
        }
    }

    /// Whether cartridge RAM accesses currently reach storage.
    pub fn ram_accessible(&self) -> (r: bool)
        ensures
            r == ram_accessible(self@),
    {
        self.ram_enabled && self.ram_bank_count > 0
    }

    /// Physical ROM offset of an address in the two cartridge ROM windows.
    pub fn translate_rom(&self, address: u16) -> (offset: usize)
        requires
            self.wf(),
            address < 0x8000,
        ensures
            offset == rom_offset(self@, address),
            offset < self@.rom_bank_count * 0x4000,
    {
        if address < 0x4000 {
            address as usize
        } else {
            self.rom_bank * 0x4000 + (address as usize - 0x4000)
        }
    }

    /// Physical cartridge RAM offset of an address in the RAM window.
    pub fn translate_ram(&self, address: u16) -> (offset: usize)
        requires
            self.wf(),
            0xA000 <= address < 0xC000,
            self@.ram_bank_count > 0,
        ensures
            offset == ram_offset(self@, address),
            offset < self@.ram_bank_count * 0x2000,
    {
        self.ram_bank * 0x2000 + (address as usize - 0xA000)
    }

    /// Applies one bank-control write, routed here by the decoder for every
    /// write into 0x0000-0x7FFF.
    pub fn on_bank_control_write(&mut self, address: u16, value: u8)
        requires
            old(self).wf(),
            address < 0x8000,
        ensures
            final(self).wf(),
            final(self)@ == ctrl_step(old(self)@, address, value),
    {
        if !self.banked {
            return;
        }
        if address < 0x2000 {
            let low = value & 0x0F;
            if low == 0x0A {
                self.ram_enabled = true;
            } else if low == 0x00 {
                self.ram_enabled = false;
            }
        } else if address < 0x4000 {
            self.rom_bank = (value as usize) % self.rom_bank_count;
        } else if address < 0x6000 {
            if self.ram_bank_count > 0 {
                self.ram_bank = (value as usize) % self.ram_bank_count;
            }
        }
    }
}

} // verus!
