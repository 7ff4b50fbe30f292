//! The general laws of the address space, proved over the model that the
//! contracts of `read`, `write`, `open`, and `register` speak of.

use vstd::prelude::*;

use crate::model::{ram_accessible, space_inv, SpaceModel};
use crate::space::{pad_target, padded_rom, read_m, write_m};

verus! {

/// Every write leaves the address space well formed, whatever the address
/// and value; together with the verified totality of `read` and `write`
/// this keeps every access of an execution panic-free.
pub proof fn lemma_write_preserves_inv(m: SpaceModel, a: u16, v: u8)
    requires
        space_inv(m),
    ensures
        space_inv(write_m(m, a, v)),
{
}

/// Echo aliasing: an address in the echo range 0xE000-0xFDFF reads the
/// same cell as its primary counterpart 0x2000 below, and a write through
/// the echo range lands in that cell.
pub proof fn lemma_echo_alias(m: SpaceModel, a: u16, v: u8)
    requires
        space_inv(m),
        0xE000 <= a < 0xFE00,
    ensures
        read_m(m, a) == read_m(m, (a - 0x2000) as u16),
        read_m(write_m(m, a, v), (a - 0x2000) as u16) == v,
{
}

/// Padding: an image shorter than one bank, or not a whole number of
/// banks, grows to the next bank boundary, and every padded byte is the
/// fill value 0xFF; an image already a whole number of banks is kept as
/// it is.
pub proof fn lemma_padding(img: Seq<u8>)
    ensures
        padded_rom(img).len() == pad_target(img.len()),
        padded_rom(img).len() >= 0x4000,
        padded_rom(img).len() % 0x4000 == 0,
        forall|i: int| 0 <= i < img.len() ==> padded_rom(img)[i] == img[i],
        forall|i: int| img.len() <= i < padded_rom(img).len() ==> padded_rom(img)[i] == 0xFFu8,
{
}

/// Bank wraparound: selecting a ROM bank index that is a multiple of the
/// bank count wraps to bank 0, so the switchable window at 0x4000 shows
/// the first byte of the ROM.
pub proof fn lemma_bank_wrap(m: SpaceModel, a: u16, k: u8)
    requires
        space_inv(m),
        m.bank.banked,
        0x2000 <= a < 0x4000,
        (k as nat) % m.bank.rom_bank_count == 0,
    ensures
        read_m(write_m(m, a, k), 0x4000) == m.rom[0],
{
}

/// ROM is read-only: a write anywhere in the cartridge ROM windows never
/// changes what the same address reads (it may only step the bank
/// controller, which the same address does not read through).
pub proof fn lemma_rom_write_noop(m: SpaceModel, a: u16, v: u8)
    requires
        space_inv(m),
        a < 0x8000,
    ensures
        read_m(write_m(m, a, v), a) == read_m(m, a),
        write_m(m, a, v).rom == m.rom,
{
}

/// Disabled cartridge RAM: while the RAM-enable latch is clear (or the
/// cartridge has no RAM), the RAM window reads the fill value 0xFF and a
/// write there changes nothing at all.
pub proof fn lemma_ram_disabled(m: SpaceModel, a: u16, v: u8)
    requires
        space_inv(m),
        0xA000 <= a < 0xC000,
        !ram_accessible(m.bank),
    ensures
        read_m(m, a) == 0xFF,
        write_m(m, a, v) == m,
{
}

/// An MMIO address with no registered handler reads the fill value 0xFF,
/// and a write there changes nothing at all.
pub proof fn lemma_mmio_unhandled(m: SpaceModel, a: u16, v: u8)
    requires
        space_inv(m),
        0xFF00 <= a,
        m.mmio[a - 0xFF00] is None,
    ensures
        read_m(m, a) == 0xFF,
        write_m(m, a, v) == m,
{
}

/// The addresses whose cell a write reaches: video RAM, work RAM (through
/// either the primary or the echo range), the used part of
/// object-attribute memory, and enabled cartridge RAM.
pub open spec fn writable_cell(m: SpaceModel, a: u16) -> bool {
    ||| 0x8000 <= a < 0xA000
    ||| (0xA000 <= a < 0xC000 && ram_accessible(m.bank))
    ||| 0xC000 <= a < 0xFE00
    ||| 0xFE00 <= a < 0xFEA0
}

/// Round trip: at every address that reaches a storage cell, a write
/// followed by a read at the same address returns the written byte.
pub proof fn lemma_round_trip(m: SpaceModel, a: u16, v: u8)
    requires
        space_inv(m),
        writable_cell(m, a),
    ensures
        read_m(write_m(m, a, v), a) == v,
{
}

} // verus!
