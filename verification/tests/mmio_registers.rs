use mmu::decoder::Diag;
use mmu::mmio::ConfigError;
use mmu::space::AddressSpace;

fn image(len: usize, ctype: u8, rcode: u8) -> Vec<u8> {
    let mut v = vec![0u8; len];
    v[0x0147] = ctype;
    v[0x0149] = rcode;
    v
}

fn plain_space() -> AddressSpace {
    AddressSpace::open(image(0x8000, 0x00, 0x00)).unwrap()
}

#[test]
fn registered_address_round_trips() {
    let mut s = plain_space();
    s.register(0xFF05, 0x12).unwrap();
    assert_eq!(s.read(0xFF05), 0x12);
    s.write(0xFF05, 0x34);
    assert_eq!(s.read(0xFF05), 0x34);
}

#[test]
fn interrupt_enable_byte_is_registrable() {
    let mut s = plain_space();
    s.register(0xFFFF, 0x00).unwrap();
    s.write(0xFFFF, 0x1F);
    assert_eq!(s.read(0xFFFF), 0x1F);
}

#[test]
fn double_registration_is_rejected() {
    let mut s = plain_space();
    s.register(0xFF40, 0x91).unwrap();
    let r = s.register(0xFF40, 0x00);
    assert_eq!(r.unwrap_err(), ConfigError::HandlerAlreadyRegistered);
    // The first handler's value is untouched.
    assert_eq!(s.read(0xFF40), 0x91);
}

#[test]
fn registration_outside_mmio_is_rejected() {
    let mut s = plain_space();
    let r = s.register(0x8000, 0x00);
    assert_eq!(r.unwrap_err(), ConfigError::NotMmioAddress);
}

#[test]
fn unregistered_address_reads_fill_and_discards_writes() {
    let mut s = plain_space();
    assert_eq!(s.read(0xFF44), 0xFF);
    s.write(0xFF44, 0x09);
    assert_eq!(s.read(0xFF44), 0xFF);
}

#[test]
fn diagnostics_classify_deprecated_accesses() {
    let mut s = plain_space();
    assert_eq!(s.diagnostic(0xE000), Some(Diag::EchoRange));
    assert_eq!(s.diagnostic(0xFDFF), Some(Diag::EchoRange));
    assert_eq!(s.diagnostic(0xFEA0), Some(Diag::UnusedOam));
    assert_eq!(s.diagnostic(0xFEFF), Some(Diag::UnusedOam));
    assert_eq!(s.diagnostic(0xFF10), Some(Diag::Unmapped));
    s.register(0xFF10, 0x00).unwrap();
    assert_eq!(s.diagnostic(0xFF10), None);
    assert_eq!(s.diagnostic(0x0000), None);
    assert_eq!(s.diagnostic(0xC000), None);
    assert_eq!(s.diagnostic(0xFE00), None);
}
