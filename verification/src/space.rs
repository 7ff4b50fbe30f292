//! Address space facade: the single public entry point every instruction
//! fetch, data read, and data write passes through.
//!
//! `open` builds the space from a cartridge image; `read` and `write` are
//! total over `u16` - every address resolves to a cell, a bank-control
//! register, an MMIO slot, or the unmapped fill behavior, and no access
//! panics. `diagnostic` classifies the deprecated and unusable accesses
//! an external sink may want to log.

use vstd::prelude::*;

use crate::bank::{ctrl_step, BankController};
use crate::decoder::{resolve, spec_resolve, Diag, Intent, Route, Target};
use crate::mmio::{mmio_read, mmio_write, ConfigError, MmioTable};
use crate::model::{space_inv, BankModel, SpaceModel};

verus! {

/// Why a cartridge image cannot be opened.
#[derive(Clone, Copy, PartialEq, Eq, Structural, Debug)]
pub enum LoadError {
    /// The image could not be read from its source; raised by the
    /// surrounding I/O layer, never by `open` itself.
    Io,
    /// The cartridge header is inconsistent: an unknown cartridge type or
    /// RAM size code, a banking scheme whose RAM the header does not
    /// declare, or RAM declared for a cartridge type that cannot reach it.
    InvalidHeader,
}

/// The padded length of a cartridge image: at least one 0x4000-byte bank,
/// rounded up to a whole number of banks.
pub open spec fn pad_target(len: nat) -> nat {
    if len <= 0x4000 {
        0x4000
    } else if len % 0x4000 == 0 {
        len
    } else {
        (len + (0x4000 - len % 0x4000)) as nat
    }
}

/// A cartridge image extended to a whole number of banks with the fill
/// byte 0xFF.
pub open spec fn padded_rom(img: Seq<u8>) -> Seq<u8> {
    img + Seq::new((pad_target(img.len()) - img.len()) as nat, |i: int| 0xFFu8)
}

/// The RAM size header codes this core accepts, at byte 0x0149 of the
/// header: no RAM, or 1, 4, 16, or 8 banks of 0x2000 bytes.
pub open spec fn ram_code_valid(code: u8) -> bool {
    code == 0x00 || code == 0x02 || code == 0x03 || code == 0x04 || code == 0x05
}

/// The cartridge RAM bank count a RAM size header code declares.
pub open spec fn ram_banks_of(code: u8) -> nat {
    if code == 0x02 {
        1
    } else if code == 0x03 {
        4
    } else if code == 0x04 {
        16
    } else if code == 0x05 {
        8
    } else {
        0
    }
}

/// Consistency of the cartridge header of a padded image. The type byte
/// 0x0147 selects the controller variant: 0x00 is a plain ROM cartridge
/// (no controller, no RAM, at most two banks), 0x01 a banking cartridge
/// without RAM, 0x02 and 0x03 a banking cartridge with RAM. The RAM size
/// byte 0x0149 must declare exactly the RAM the variant can reach.
pub open spec fn header_ok(rom: Seq<u8>) -> bool {
    let ctype = rom[0x0147];
    let rcode = rom[0x0149];
    &&& ram_code_valid(rcode)
    &&& (ctype == 0x00 || ctype == 0x01 || ctype == 0x02 || ctype == 0x03)
    &&& ((ctype == 0x00 || ctype == 0x01) ==> ram_banks_of(rcode) == 0)
    &&& ((ctype == 0x02 || ctype == 0x03) ==> ram_banks_of(rcode) > 0)
    &&& (ctype == 0x00 ==> rom.len() <= 2 * 0x4000)
}

/// The freshly assembled state a valid image opens into: the padded ROM,
/// zeroed storage regions, bank 1 (where present) in the switchable
/// window, RAM disabled, and no MMIO handler registered.
pub open spec fn init_model(img: Seq<u8>) -> SpaceModel {
    let rom = padded_rom(img);
    let ctype = rom[0x0147];
    let rcode = rom[0x0149];
    SpaceModel {
        rom,
        vram: Seq::new(0x2000, |i: int| 0u8),
        sram: Seq::new(ram_banks_of(rcode) * 0x2000, |i: int| 0u8),
        wram: Seq::new(0x8000, |i: int| 0u8),
        oam: Seq::new(0x100, |i: int| 0u8),
        bank: BankModel {
            banked: ctype != 0x00,
            rom_bank_count: rom.len() / 0x4000,
            ram_bank_count: ram_banks_of(rcode),
            rom_bank: (1 as nat) % (rom.len() / 0x4000),
            ram_bank: 0,
            ram_enabled: false,
        },
        mmio: Seq::new(0x100, |i: int| None),
    }
}

/// What `read` returns: the byte of the resolved cell, or the fill value
/// 0xFF for unmapped and unreachable addresses.
pub open spec fn read_m(m: SpaceModel, a: u16) -> u8 {
    match spec_resolve(m.bank, a, Intent::Read) {
        Route::Rom { offset } => m.rom[offset],
        Route::Control => 0xFF,
        Route::Vram { offset } => m.vram[offset],
        Route::Ram { offset } => m.sram[offset],
        Route::Wram { offset } => m.wram[offset],
        Route::Oam { offset } => m.oam[offset],
        Route::Mmio { slot } => mmio_read(m.mmio, slot),
        Route::Unmapped => 0xFF,
    }
}

/// What `write` leaves behind: the resolved cell updated, the bank state
/// stepped for a bank-control write, or nothing for a discarded write.
/// ROM storage is never the target of a write.
pub open spec fn write_m(m: SpaceModel, a: u16, v: u8) -> SpaceModel {
    match spec_resolve(m.bank, a, Intent::Write) {
        Route::Rom { offset } => m,
        Route::Control => SpaceModel { bank: ctrl_step(m.bank, a, v), ..m },
        Route::Vram { offset } => SpaceModel { vram: m.vram.update(offset, v), ..m },
        Route::Ram { offset } => SpaceModel { sram: m.sram.update(offset, v), ..m },
        Route::Wram { offset } => SpaceModel { wram: m.wram.update(offset, v), ..m },
        Route::Oam { offset } => SpaceModel { oam: m.oam.update(offset, v), ..m },
        Route::Mmio { slot } => SpaceModel { mmio: mmio_write(m.mmio, slot, v), ..m },
        Route::Unmapped => m,
    }
}

/// The diagnostic an access at this address carries, if any: the echo
/// range, the unusable tail of the object-attribute page, or an MMIO
/// address with no registered handler.
pub open spec fn diag_m(m: SpaceModel, a: u16) -> Option<Diag> {
    if 0xE000 <= a < 0xFE00 {
        Some(Diag::EchoRange)
    } else if 0xFEA0 <= a < 0xFF00 {
        Some(Diag::UnusedOam)
    } else if 0xFF00 <= a && m.mmio[a - 0xFF00] is None {
        Some(Diag::Unmapped)
    } else {
        None
    }
}

/// The exclusive owner of every byte of emulated memory: the storage
/// regions, the bank controller, and the MMIO register table.
#[derive(Debug)]
pub struct AddressSpace {
    rom: Vec<u8>,
    vram: Vec<u8>,
    sram: Vec<u8>,
    wram: Vec<u8>,
    oam: Vec<u8>,
    bank: BankController,
    mmio: MmioTable,
}

impl View for AddressSpace {
    type V = SpaceModel;

    closed spec fn view(&self) -> SpaceModel {
        SpaceModel {
            rom: self.rom@,
            vram: self.vram@,
            sram: self.sram@,
            wram: self.wram@,
            oam: self.oam@,
            bank: self.bank@,
            mmio: self.mmio@,
        }
    }
}

/// A vector of `n` zero bytes.
fn zero_bytes(n: usize) -> (v: Vec<u8>)
    ensures
        v@ == Seq::new(n as nat, |i: int| 0u8),
{
    let mut v: Vec<u8> = Vec::new();
    let mut i: usize = 0;
    while i < n
        invariant
            i <= n,
            v@.len() == i,
            forall|j: int| 0 <= j < i ==> v@[j] == 0u8,
        decreases n - i,
    {
        v.push(0);
        i += 1;
    }
    proof {
        assert(v@ =~= Seq::new(n as nat, |i: int| 0u8));
    }
    v
}

impl AddressSpace {
    /// Well-formedness: see [`space_inv`].
    pub open spec fn wf(&self) -> bool {
        space_inv(self@)
    }

    /// Assembles the address space from a cartridge image: pads the image
    /// to a whole number of banks with 0xFF, checks the header, and zeroes
    /// every other region. Fails exactly on an inconsistent header.
    pub fn open(image: Vec<u8>) -> (r: Result<AddressSpace, LoadError>)
        requires
            image@.len() + 0x4000 <= usize::MAX,
        ensures
            match r {
                Ok(s) => {
                    &&& s.wf()
                    &&& header_ok(padded_rom(image@))
                    &&& s@ == init_model(image@)
                },
                Err(e) => {
                    &&& e == LoadError::InvalidHeader
                    &&& !header_ok(padded_rom(image@))
                },
            },
    {
        let ghost img = image@;
        let mut rom = image;
        let target: usize = if rom.len() <= 0x4000 {
            0x4000
        } else if rom.len() % 0x4000 == 0 {
            rom.len()
        } else {
            rom.len() + (0x4000 - rom.len() % 0x4000)
        };
        proof {
            assert(target == pad_target(img.len()));
        }
        while rom.len() < target
            invariant
                img.len() <= rom@.len() <= target,
                target == pad_target(img.len()),
                rom@.subrange(0, img.len() as int) == img,
                forall|j: int| img.len() <= j < rom@.len() ==> rom@[j] == 0xFFu8,
            decreases target - rom@.len(),
        {
            rom.push(0xFF);
        }
        proof {
            assert(rom@ =~= padded_rom(img));
        }
        let ctype = rom[0x0147];
        let rcode = rom[0x0149];
        let ram_bank_count: usize = if rcode == 0x00 {
            0
        } else if rcode == 0x02 {
            1
        } else if rcode == 0x03 {
            4
        } else if rcode == 0x04 {
            16
        } else if rcode == 0x05 {
            8
        } else {
            return Err(LoadError::InvalidHeader);
        };
        if ctype > 0x03 {
            return Err(LoadError::InvalidHeader);
        }
        if ctype <= 0x01 && ram_bank_count != 0 {
            return Err(LoadError::InvalidHeader);
        }
        if ctype >= 0x02 && ram_bank_count == 0 {
            return Err(LoadError::InvalidHeader);
        }
        if ctype == 0x00 && rom.len() > 2 * 0x4000 {
            return Err(LoadError::InvalidHeader);
        }
        let rom_bank_count: usize = rom.len() / 0x4000;
        proof {
            assert(rom@.len() % 0x4000 == 0 && rom@.len() >= 0x4000);
            vstd::arithmetic::div_mod::lemma_fundamental_div_mod(rom@.len() as int, 0x4000);
        }
        let bank = BankController::new(ctype != 0x00, rom_bank_count, ram_bank_count);
        let space = AddressSpace {
            rom,
            vram: zero_bytes(0x2000),
            sram: zero_bytes(ram_bank_count * 0x2000),
            wram: zero_bytes(0x8000),
            oam: zero_bytes(0x100),
            bank,
            mmio: MmioTable::new(),
        };
        proof {
            assert(space@ == init_model(img));
        }
        Ok(space)
    }

    /// Resolves an address exactly as `read` or `write` will route it.
    pub fn resolve(&self, address: u16, intent: Intent) -> (t: Target)
        requires
            self.wf(),
        ensures
            t.route() == spec_resolve(self@.bank, address, intent),
    {
        resolve(&self.bank, address, intent)
    }

    /// Reads one byte. Total over `u16`: every address returns a byte,
    /// none panics. Reads never mutate any state, bank selection included.
    pub fn read(&self, address: u16) -> (value: u8)
        requires
            self.wf(),
        ensures
            value == read_m(self@, address),
    {
        match resolve(&self.bank, address, Intent::Read) {
            Target::RomCell { offset } => self.rom[offset],
            Target::BankControl => 0xFF,
            Target::VramCell { offset } => self.vram[offset],
            Target::RamCell { offset } => self.sram[offset],
            Target::WramCell { offset } => self.wram[offset],
            Target::OamCell { offset } => self.oam[offset],
            Target::MmioSlot { slot: _ } => self.mmio.dispatch_read(address),
            Target::Unmapped => 0xFF,
        }
    }

    /// Writes one byte. Total over `u16` and panic-free: the resolved cell
    /// takes the value, a write into the cartridge ROM windows steps the
    /// bank controller instead of storing (ROM is immutable), and writes
    /// into unmapped or disabled ranges are discarded.
    pub fn write(&mut self, address: u16, value: u8)
        requires
            old(self).wf(),
        ensures
            final(self).wf(),
            final(self)@ == write_m(old(self)@, address, value),
    {
        match resolve(&self.bank, address, Intent::Write) {
            Target::RomCell { offset: _ } => {},
            Target::BankControl => self.bank.on_bank_control_write(address, value),
            Target::VramCell { offset } => self.vram[offset] = value,
            Target::RamCell { offset } => self.sram[offset] = value,
            Target::WramCell { offset } => self.wram[offset] = value,
            Target::OamCell { offset } => self.oam[offset] = value,
            Target::MmioSlot { slot: _ } => self.mmio.dispatch_write(address, value),
            Target::Unmapped => {},
        }
    }

    /// Registers an external device's handler for one MMIO address during
    /// machine assembly, giving its register cell an initial value.
    /// Succeeds exactly once per address and never disturbs any other
    /// state.
    pub fn register(&mut self, address: u16, initial: u8) -> (r: Result<(), ConfigError>)
        requires
            old(self).wf(),
        ensures
            final(self).wf(),
            match r {
                Ok(()) => {
                    &&& 0xFF00 <= address
                    &&& old(self)@.mmio[address - 0xFF00] is None
                    &&& final(self)@ == (SpaceModel {
                        mmio: old(self)@.mmio.update(address - 0xFF00, Some(initial)),
                        ..old(self)@
                    })
                },
                Err(ConfigError::NotMmioAddress) => {
                    &&& address < 0xFF00
                    &&& final(self)@ == old(self)@
                },
                Err(ConfigError::HandlerAlreadyRegistered) => {
                    &&& 0xFF00 <= address
                    &&& old(self)@.mmio[address - 0xFF00] is Some
                    &&& final(self)@ == old(self)@
                },
            },
    {
        self.mmio.register(address, initial)
    }

    /// The cartridge RAM contents, for an external save-file collaborator;
    /// the bytes of every bank, in bank order.
    pub fn ram_contents(&self) -> (r: &Vec<u8>)
        ensures
            r@ == self@.sram,
    {
        &self.sram
    }

    /// Restores cartridge RAM saved by an earlier session. Succeeds
    /// exactly when the saved bytes match the cartridge's RAM size, and
    /// changes nothing else; a mismatched save is refused whole.
    pub fn restore_ram(&mut self, bytes: Vec<u8>) -> (ok: bool)
        requires
            old(self).wf(),
        ensures
            final(self).wf(),
            ok == (bytes@.len() == old(self)@.sram.len()),
            ok ==> final(self)@ == (SpaceModel { sram: bytes@, ..old(self)@ }),
            !ok ==> final(self)@ == old(self)@,
    {
        if bytes.len() == self.sram.len() {
            self.sram = bytes;
            true
        } else {
            false
        }
    }

    /// The diagnostic this access would carry, for an external sink:
    /// echo-range and unused-OAM accesses, and MMIO addresses with no
    /// registered handler.
    pub fn diagnostic(&self, address: u16) -> (d: Option<Diag>)
        requires
            self.wf(),
        ensures
            d == diag_m(self@, address),
    {
        if 0xE000 <= address && address < 0xFE00 {
            Some(Diag::EchoRange)
        } else if 0xFEA0 <= address && address < 0xFF00 {
            Some(Diag::UnusedOam)
        } else if 0xFF00 <= address {
            match self.mmio.registered_value(address) {
                Some(_) => None,
                None => Some(Diag::Unmapped),
            }
        } else {
            None
        }
    }
}

} // verus!
