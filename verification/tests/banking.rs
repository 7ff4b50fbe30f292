use mmu::space::AddressSpace;

fn image(len: usize, ctype: u8, rcode: u8) -> Vec<u8> {
    let mut v = vec![0u8; len];
    v[0x0147] = ctype;
    v[0x0149] = rcode;
    v
}

/// Four ROM banks whose first bytes are distinct markers.
fn four_bank_space(rcode: u8) -> AddressSpace {
    let ctype = if rcode == 0x00 { 0x01 } else { 0x03 };
    let mut img = image(0x10000, ctype, rcode);
    img[0x0000] = 0x11;
    img[0x4000] = 0x22;
    img[0x8000] = 0x33;
    img[0xC000] = 0x44;
    AddressSpace::open(img).unwrap()
}

#[test]
fn switchable_window_starts_on_bank_one() {
    let s = four_bank_space(0x00);
    assert_eq!(s.read(0x0000), 0x11);
    assert_eq!(s.read(0x4000), 0x22);
}

#[test]
fn rom_bank_select_switches_the_window() {
    let mut s = four_bank_space(0x00);
    s.write(0x2000, 2);
    assert_eq!(s.read(0x4000), 0x33);
    s.write(0x3FFF, 3);
    assert_eq!(s.read(0x4000), 0x44);
    // The fixed window never moves.
    assert_eq!(s.read(0x0000), 0x11);
}

#[test]
fn bank_index_wraps_modulo_bank_count() {
    let mut s = four_bank_space(0x00);
    // 4 % 4 == 0: the window shows the first byte of bank 0.
    s.write(0x2000, 4);
    assert_eq!(s.read(0x4000), 0x11);
    // 8 % 4 == 0 as well.
    s.write(0x2000, 8);
    assert_eq!(s.read(0x4000), 0x11);
    // 7 % 4 == 3.
    s.write(0x2000, 7);
    assert_eq!(s.read(0x4000), 0x44);
    s.write(0x2000, 0);
    assert_eq!(s.read(0x4000), 0x11);
}

#[test]
fn plain_rom_ignores_bank_control_writes() {
    let mut img = image(0x8000, 0x00, 0x00);
    img[0x4000] = 0x22;
    let mut s = AddressSpace::open(img).unwrap();
    s.write(0x2000, 0);
    assert_eq!(s.read(0x4000), 0x22);
}

#[test]
fn ram_starts_disabled() {
    let mut s = four_bank_space(0x02);
    assert_eq!(s.read(0xA000), 0xFF);
    assert_eq!(s.read(0xBFFF), 0xFF);
    // A write while disabled is discarded and does not reach the bank.
    s.write(0xA000, 0x5A);
    s.write(0x0000, 0x0A);
    assert_eq!(s.read(0xA000), 0x00);
}

#[test]
fn ram_enable_latch_round_trips() {
    let mut s = four_bank_space(0x02);
    s.write(0x0000, 0x0A);
    assert_eq!(s.read(0xA000), 0x00);
    s.write(0xA000, 0x5A);
    assert_eq!(s.read(0xA000), 0x5A);
    // Clearing the latch hides the bank without touching it.
    s.write(0x1FFF, 0x00);
    assert_eq!(s.read(0xA000), 0xFF);
    s.write(0xA000, 0x77);
    s.write(0x0000, 0x0A);
    assert_eq!(s.read(0xA000), 0x5A);
}

#[test]
fn latch_ignores_other_values() {
    let mut s = four_bank_space(0x02);
    // Neither nibble pattern: the latch keeps its state.
    s.write(0x0000, 0x07);
    assert_eq!(s.read(0xA000), 0xFF);
    s.write(0x0000, 0x0A);
    s.write(0x0000, 0x07);
    assert_eq!(s.read(0xA000), 0x00);
    // Only the low nibble decides: 0x5A enables, 0x30 clears.
    s.write(0x0000, 0x30);
    assert_eq!(s.read(0xA000), 0xFF);
    s.write(0x0000, 0x5A);
    assert_eq!(s.read(0xA000), 0x00);
}

#[test]
fn ram_bank_select_switches_banks() {
    // rcode 0x03: four RAM banks.
    let mut s = four_bank_space(0x03);
    s.write(0x0000, 0x0A);
    s.write(0xA010, 0x11);
    s.write(0x4000, 1);
    assert_eq!(s.read(0xA010), 0x00);
    s.write(0xA010, 0x22);
    s.write(0x4000, 0);
    assert_eq!(s.read(0xA010), 0x11);
    // RAM bank indices wrap too: 5 % 4 == 1.
    s.write(0x4000, 5);
    assert_eq!(s.read(0xA010), 0x22);
}

#[test]
fn mode_range_writes_are_ignored() {
    let mut s = four_bank_space(0x02);
    s.write(0x6000, 0x01);
    s.write(0x7FFF, 0xFF);
    assert_eq!(s.read(0x0000), 0x11);
    assert_eq!(s.read(0x4000), 0x22);
    assert_eq!(s.read(0xA000), 0xFF);
}

#[test]
fn ram_contents_export_and_restore() {
    let mut s = four_bank_space(0x02);
    s.write(0x0000, 0x0A);
    s.write(0xA000, 0x42);
    assert_eq!(s.ram_contents().len(), 0x2000);
    assert_eq!(s.ram_contents()[0], 0x42);
    let mut saved = s.ram_contents().clone();
    saved[1] = 0x24;
    assert!(s.restore_ram(saved));
    assert_eq!(s.read(0xA001), 0x24);
    assert_eq!(s.read(0xA000), 0x42);
    // A save of the wrong size is refused whole.
    assert!(!s.restore_ram(vec![0u8; 0x1000]));
    assert_eq!(s.read(0xA001), 0x24);
}
