use mmu::space::{AddressSpace, LoadError};

fn image(len: usize, ctype: u8, rcode: u8) -> Vec<u8> {
    let mut v = vec![0u8; len];
    v[0x0147] = ctype;
    v[0x0149] = rcode;
    v
}

#[test]
fn short_image_is_padded_with_fill() {
    // A 0x2000-byte image grows to one full 0x4000-byte bank; every added
    // byte reads as the fill value 0xFF.
    let s = AddressSpace::open(vec![0u8; 0x2000]).unwrap();
    assert_eq!(s.read(0x0000), 0x00);
    assert_eq!(s.read(0x1FFF), 0x00);
    assert_eq!(s.read(0x2000), 0xFF);
    assert_eq!(s.read(0x3A5C), 0xFF);
    assert_eq!(s.read(0x3FFF), 0xFF);
}

#[test]
fn partial_bank_is_padded_to_boundary() {
    // 0x5000 bytes round up to two banks; the tail of the switchable
    // window reads as fill.
    let s = AddressSpace::open(image(0x5000, 0x01, 0x00)).unwrap();
    assert_eq!(s.read(0x4FFF), 0x00);
    assert_eq!(s.read(0x5000), 0xFF);
    assert_eq!(s.read(0x7FFF), 0xFF);
}

#[test]
fn whole_banks_are_kept() {
    let mut img = image(0x8000, 0x01, 0x00);
    img[0x7FFF] = 0x5A;
    let s = AddressSpace::open(img).unwrap();
    assert_eq!(s.read(0x7FFF), 0x5A);
}

#[test]
fn empty_image_becomes_one_fill_bank() {
    // All-fill bank 0: header bytes are 0xFF, which no variant accepts.
    let r = AddressSpace::open(Vec::new());
    assert_eq!(r.unwrap_err(), LoadError::InvalidHeader);
}

#[test]
fn unknown_cartridge_type_is_rejected() {
    let r = AddressSpace::open(image(0x8000, 0x42, 0x00));
    assert_eq!(r.unwrap_err(), LoadError::InvalidHeader);
}

#[test]
fn unknown_ram_code_is_rejected() {
    let r = AddressSpace::open(image(0x8000, 0x03, 0x01));
    assert_eq!(r.unwrap_err(), LoadError::InvalidHeader);
}

#[test]
fn banking_type_without_ram_banks_is_rejected() {
    // Type 0x02 is a banking cartridge with RAM, but the RAM size byte
    // declares none.
    let r = AddressSpace::open(image(0x8000, 0x02, 0x00));
    assert_eq!(r.unwrap_err(), LoadError::InvalidHeader);
}

#[test]
fn ram_banks_on_plain_rom_are_rejected() {
    // A plain ROM cartridge has no controller to reach declared RAM.
    let r = AddressSpace::open(image(0x8000, 0x00, 0x02));
    assert_eq!(r.unwrap_err(), LoadError::InvalidHeader);
}

#[test]
fn oversize_plain_rom_is_rejected() {
    // A plain ROM cartridge cannot address more than two banks.
    let r = AddressSpace::open(image(0xC000, 0x00, 0x00));
    assert_eq!(r.unwrap_err(), LoadError::InvalidHeader);
}

#[test]
fn valid_variants_open() {
    assert!(AddressSpace::open(image(0x8000, 0x00, 0x00)).is_ok());
    assert!(AddressSpace::open(image(0x8000, 0x01, 0x00)).is_ok());
    assert!(AddressSpace::open(image(0x8000, 0x02, 0x02)).is_ok());
    assert!(AddressSpace::open(image(0x8000, 0x03, 0x05)).is_ok());
}
