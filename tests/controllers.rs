use gb_memory::error::LoadError;
use gb_memory::mbc::{dummyMBC, noMBC, MemoryBankController, MBC1, MBC2};

#[test]
fn dummy_controller_reads() {
    let mut d = dummyMBC::new(vec![7, 8]);
    assert_eq!(d.read_rom(1), 8);
    assert_eq!(d.read_rom(2), 0);
    assert_eq!(d.read_ram(0), 0);
    d.write_rom(0, 1);
    assert_eq!(d.read_rom(0), 7);
}

#[test]
fn no_banking_controller_reads() {
    let mut n = noMBC::new(vec![1; 0x8000]);
    assert_eq!(n.read_rom(0x7FFF), 1);
    assert_eq!(n.read_ram(0x0000), 0xFF);
}

#[test]
fn mbc2_header_checks() {
    let mut data = vec![0u8; 0x150];
    data[0x148] = 0x00;
    assert!(MBC2::new(data.clone()).is_err());
    data.resize(0x8000, 0);
    let mut m = MBC2::new(data).unwrap();
    m.write_ram(0x01FF, 0xF3);
    assert_eq!(m.read_ram(0x01FF), 0x03);
    assert_eq!(m.read_ram(0x0200), 1);
}

#[test]
fn short_images_are_refused_by_constructors() {
    let data = vec![0u8; 0x14A];
    assert_eq!(MBC1::new(data).err(), Some(LoadError::RomSizeMismatch));
    let data = vec![0u8; 0x149];
    assert_eq!(MBC2::new(data).err(), Some(LoadError::RomSizeMismatch));
}
