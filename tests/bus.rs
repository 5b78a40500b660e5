use gb_memory::cartridge::{Controller, HardwareMode};
use gb_memory::error::LoadError;
use gb_memory::memory::{Apu, Memory, Ppu, PpuMode};

/// A rendering unit that alternates between H-Blank and drawing on each tick.
struct TogglePpu {
    mode: PpuMode,
    toggle: bool,
    regs: [u8; 0x30],
}

impl Ppu for TogglePpu {
    fn read(&mut self, addr: u16) -> u8 {
        self.regs[(addr - 0xFF40) as usize % 0x30]
    }
    fn write(&mut self, addr: u16, val: u8) {
        self.regs[(addr - 0xFF40) as usize % 0x30] = val;
    }
    fn tick(&mut self, _vram: &mut [u8; 16384], _oam: &mut [u8; 160], _if: &mut u8, _sel: u8) {
        if self.toggle {
            self.mode = if self.mode == PpuMode::HBlank { PpuMode::Drawing } else { PpuMode::HBlank };
        }
    }
    fn mode(&self) -> PpuMode {
        self.mode
    }
    fn buttons(&self) -> u8 {
        0x0E
    }
    fn directions(&self) -> u8 {
        0x0D
    }
    fn set_hardware_mode(&mut self, _mode: HardwareMode) {}
}

struct SilentApu {
    regs: [u8; 0x30],
}

impl Apu for SilentApu {
    fn read(&mut self, addr: u16) -> u8 {
        self.regs[(addr - 0xFF10) as usize]
    }
    fn write(&mut self, addr: u16, val: u8) {
        self.regs[(addr - 0xFF10) as usize] = val;
    }
    fn tick(&mut self) {}
}

fn bus(toggle: bool) -> Memory<TogglePpu, SilentApu> {
    Memory::new(
        TogglePpu { mode: PpuMode::OamScan, toggle, regs: [0; 0x30] },
        SilentApu { regs: [0; 0x30] },
    )
}

fn checksum(data: &[u8]) -> u8 {
    let mut sum: u8 = 0;
    for i in 0x134..=0x14C {
        sum = sum.wrapping_sub(data[i]).wrapping_sub(1);
    }
    sum
}

/// An image of `32KB << rom_code` bytes whose byte at each 16KB bank start
/// holds the bank number, with a valid header checksum.
fn image(cart_type: u8, rom_code: u8, ram_code: u8, cgb_flag: u8) -> Vec<u8> {
    let len = 32768usize << rom_code;
    let mut data = vec![0u8; len];
    for bank in 0..len / 0x4000 {
        data[bank * 0x4000 + 0x200] = bank as u8;
    }
    data[0x134..0x139].copy_from_slice(b"TETRA");
    data[0x143] = cgb_flag;
    data[0x147] = cart_type;
    data[0x148] = rom_code;
    data[0x149] = ram_code;
    data[0x14D] = checksum(&data);
    data
}

#[test]
fn mbc1_scenario_loads_with_disabled_ram() {
    let mut m = bus(false);
    let data = image(0x01, 0x00, 0x02, 0x00);
    assert_eq!(data.len(), 32768);
    assert_eq!(m.load_rom(data), Ok(()));
    match &m.cart.rom {
        Controller::Mbc1(c) => {
            assert_eq!(c.ram.len(), 8192);
            assert!(!c.ram_enabled);
        }
        _ => panic!("expected an MBC1 controller"),
    }
    assert_eq!(m.read(0xA000), 0xFF);
    assert_eq!(m.mode, HardwareMode::Dmg);
    assert_eq!(m.cart.title, "TETRA");
}

#[test]
fn flipping_a_header_byte_fails_the_checksum() {
    let data = image(0x01, 0x00, 0x02, 0x00);
    for i in 0x134..=0x14C {
        let mut bad = data.clone();
        bad[i] ^= 0x01;
        let mut m = bus(false);
        assert_eq!(m.load_rom(bad), Err(LoadError::BadChecksum));
    }
}

#[test]
fn rom_size_codes() {
    for c in 0u8..9 {
        assert_eq!(gb_memory::mbc::rom_size(c), Ok(32768usize << c));
    }
    assert_eq!(gb_memory::mbc::rom_size(9), Err(LoadError::InvalidRomSize));
    assert_eq!(gb_memory::mbc::ram_size(0x04), Ok(131072));
    assert_eq!(gb_memory::mbc::ram_size(0x06), Err(LoadError::InvalidRamSize));
    let mut data = image(0x00, 0x00, 0x00, 0x00);
    data[0x148] = 9;
    data[0x14D] = checksum(&data);
    let mut m = bus(false);
    assert_eq!(m.load_rom(data), Err(LoadError::InvalidRomSize));
}

#[test]
fn load_errors() {
    let mut m = bus(false);
    assert_eq!(m.load_rom(vec![0; 0x14F]), Err(LoadError::RomTooSmall));
    let mut data = image(0x01, 0x00, 0x04, 0x00);
    assert_eq!(m.load_rom(data.clone()), Err(LoadError::RamTooLarge));
    data[0x149] = 0x09;
    data[0x14D] = checksum(&data);
    assert_eq!(m.load_rom(data), Err(LoadError::InvalidRamSize));
    let mut short = image(0x01, 0x01, 0x00, 0x00);
    short.truncate(32768);
    assert_eq!(m.load_rom(short), Err(LoadError::RomSizeMismatch));
    assert_eq!(m.load_rom(image(0x04, 0x00, 0x00, 0x00)), Err(LoadError::UnsupportedCartridge(0x04)));
    assert_eq!(m.load_bootrom(vec![0; 0x101]), Err(LoadError::InvalidBootrom));
    assert!(matches!(m.cart.rom, Controller::Dummy(_)));
}

#[test]
fn colour_flag_selects_colour_mode() {
    let mut m = bus(false);
    assert_eq!(m.load_rom(image(0x00, 0x00, 0x00, 0xC0)), Ok(()));
    assert_eq!(m.mode, HardwareMode::Cgb);
    assert_eq!(m.read(0x4200), 1);
    assert_eq!(m.read(0xA000), 0xFF);
}

#[test]
fn mbc1_zero_bank_reads_bank_one() {
    let mut m = bus(false);
    assert_eq!(m.load_rom(image(0x01, 0x02, 0x00, 0x00)), Ok(()));
    m.write(0x2000, 0x00);
    assert_eq!(m.read(0x4200), 1);
    m.write(0x2000, 0x20);
    assert_eq!(m.read(0x4200), 1);
    m.write(0x2000, 0x03);
    assert_eq!(m.read(0x4200), 3);
    assert_eq!(m.read(0x0200), 0);
}

#[test]
fn mbc1_banking_modes() {
    let mut m = bus(false);
    // 2MB image, 32KB RAM: 128 banks
    assert_eq!(m.load_rom(image(0x03, 0x06, 0x03, 0x00)), Ok(()));
    m.write(0x2000, 0x05);
    m.write(0x4000, 0x01);
    assert_eq!(m.read(0x4200), 0x25);
    m.write(0x6000, 0x01);
    assert_eq!(m.read(0x4200), 0x05);
    m.write(0x0000, 0x0A);
    m.write(0xA010, 0x77);
    m.write(0x6000, 0x00);
    assert_eq!(m.read(0xA010), 0x00);
    m.write(0x6000, 0x01);
    assert_eq!(m.read(0xA010), 0x77);
    m.write(0x0000, 0x00);
    assert_eq!(m.read(0xA010), 0xFF);
}

#[test]
fn mbc2_ram_keeps_low_nibble() {
    let mut m = bus(false);
    assert_eq!(m.load_rom(image(0x05, 0x01, 0x00, 0x00)), Ok(()));
    m.write(0xA005, 0xAB);
    assert_eq!(m.read(0xA005), 0x0B);
    assert_eq!(m.read(0xA200), 1);
    assert_eq!(m.read(0xBFFF), 1);
    m.write(0x2100, 0x03);
    assert_eq!(m.read(0x4200), 3);
    m.write(0x2100, 0x00);
    assert_eq!(m.read(0x4200), 1);
}

#[test]
fn mbc3_and_mbc5_bank_switching() {
    let mut m = bus(false);
    assert_eq!(m.load_rom(image(0x13, 0x02, 0x02, 0x00)), Ok(()));
    m.write(0x2000, 0x06);
    assert_eq!(m.read(0x4200), 6);
    m.write(0x0000, 0x0A);
    m.write(0xA001, 0x12);
    assert_eq!(m.read(0xA001), 0x12);
    m.write(0x4000, 0x08);
    m.write(0xA000, 0x3B);
    assert_eq!(m.read(0xA000), 0x3B);
    m.write(0x4000, 0x00);
    assert_eq!(m.read(0xA001), 0x12);

    let mut m = bus(false);
    assert_eq!(m.load_rom(image(0x1B, 0x03, 0x03, 0x00)), Ok(()));
    m.write(0x2000, 0x00);
    assert_eq!(m.read(0x4200), 0);
    m.write(0x2000, 0x0F);
    assert_eq!(m.read(0x4200), 0x0F);
}

#[test]
fn interrupt_registers_read_unused_bits_set() {
    let mut m = bus(false);
    m.write(0xFF0F, 0x01);
    assert_eq!(m.read(0xFF0F), 0xE1);
    m.write(0xFFFF, 0x00);
    assert_eq!(m.read(0xFFFF), 0xE0);
}

#[test]
fn memories_and_open_bus() {
    let mut m = bus(false);
    m.write(0xC123, 0x11);
    assert_eq!(m.read(0xE123), 0x11);
    m.write(0xFF85, 0x22);
    assert_eq!(m.read(0xFF85), 0x22);
    m.write(0x8001, 0x33);
    assert_eq!(m.read(0x8001), 0x33);
    assert_eq!(m.read(0xFEA0), 0xFF);
    assert_eq!(m.read(0xFF03), 0xFF);
    m.write(0xFF00, 0x10);
    assert_eq!(m.read(0xFF00), 0x1E);
    m.write(0xFF00, 0x30);
    assert_eq!(m.read(0xFF00), 0xFF);
    m.write(0xFF12, 0x44);
    assert_eq!(m.read(0xFF12), 0x44);
}

#[test]
fn wram_bank_zero_selects_one() {
    let mut m = bus(false);
    assert_eq!(m.load_bootrom(vec![0; 0x900]), Ok(()));
    assert_eq!(m.mode, HardwareMode::Cgb);
    m.write(0xFF70, 0x00);
    assert_eq!(m.read(0xFF70), 0xF9);
    m.write(0xFF70, 0x03);
    m.write(0xD000, 0x55);
    m.write(0xFF70, 0x01);
    assert_eq!(m.read(0xD000), 0x00);
    m.write(0xFF70, 0x03);
    assert_eq!(m.read(0xD000), 0x55);
}

#[test]
fn bootrom_overlay_and_disable() {
    let mut m = bus(false);
    assert_eq!(m.load_rom(image(0x00, 0x00, 0x00, 0x00)), Ok(()));
    let mut boot = vec![0u8; 0x100];
    boot[0x10] = 0x99;
    assert_eq!(m.load_bootrom(boot), Ok(()));
    assert_eq!(m.read(0x0010), 0x99);
    m.write(0xFF50, 0x01);
    assert_eq!(m.read(0x0010), 0x00);
    assert!(!m.cart.bootrom_enable);
}

#[test]
fn oam_dma_copies_page() {
    let mut m = bus(false);
    for i in 0..0xA0u16 {
        m.write(0xC000 + i, (i as u8).wrapping_mul(3));
    }
    m.write(0xFF46, 0xC0);
    for i in 0..0xA0u16 {
        assert_eq!(m.read(0xFE00 + i), (i as u8).wrapping_mul(3));
    }
}

#[test]
fn general_purpose_vram_dma() {
    let mut m = bus(false);
    assert_eq!(m.load_bootrom(vec![0; 0x900]), Ok(()));
    for i in 0..0x40u16 {
        m.write(0xC000 + i, i as u8 + 1);
    }
    m.write(0xFF51, 0xC0);
    m.write(0xFF52, 0x00);
    m.write(0xFF53, 0x01);
    m.write(0xFF54, 0x00);
    m.write(0xFF55, 0x01);
    for i in 0..0x20u16 {
        assert_eq!(m.read(0x8100 + i), i as u8 + 1);
    }
    assert_eq!(m.read(0x8120), 0);
    assert_eq!(m.read(0xFF55), 0xFF);
}

#[test]
fn hblank_vram_dma() {
    let mut m = bus(true);
    assert_eq!(m.load_bootrom(vec![0; 0x900]), Ok(()));
    for i in 0..0x20u16 {
        m.write(0xC000 + i, 0x80 | i as u8);
    }
    m.write(0xFF51, 0xC0);
    m.write(0xFF52, 0x00);
    m.write(0xFF53, 0x00);
    m.write(0xFF54, 0x00);
    m.write(0xFF55, 0x81);
    assert_eq!(m.read(0xFF55), 0x01);
    assert_eq!(m.read(0x8000), 0);
    m.tick();
    m.tick();
    m.tick();
    m.tick();
    for i in 0..0x20u16 {
        assert_eq!(m.read(0x8000 + i), 0x80 | i as u8);
    }
    assert_eq!(m.read(0xFF55), 0xFF);
    m.write(0xFF55, 0x85);
    m.write(0xFF55, 0x00);
    assert_eq!(m.read(0xFF55), 0x85);
}

#[test]
fn timer_overflow_reloads_after_delay() {
    let mut m = bus(false);
    m.write(0xFF06, 0x42);
    m.write(0xFF07, 0x05);
    m.write(0xFF05, 0xFF);
    m.write(0xFF0F, 0x00);
    let mut ticks = 0;
    while m.read(0xFF05) == 0xFF {
        m.tick();
        ticks += 1;
        assert!(ticks <= 16);
    }
    assert_eq!(m.read(0xFF05), 0x00);
    assert_eq!(m.read(0xFF0F) & 0x04, 0);
    for _ in 0..4 {
        m.tick();
        assert_eq!(m.read(0xFF0F) & 0x04, 0);
        assert_eq!(m.read(0xFF05), 0x00);
    }
    m.tick();
    assert_eq!(m.read(0xFF05), 0x42);
    assert_eq!(m.read(0xFF0F) & 0x04, 0x04);
}

#[test]
fn div_write_resets_and_reloads() {
    let mut m = bus(false);
    for _ in 0..0x300 {
        m.tick();
    }
    assert_eq!(m.read(0xFF04), 0x03);
    m.write(0xFF06, 0x10);
    m.write(0xFF04, 0x55);
    assert_eq!(m.read(0xFF04), 0x00);
    assert_eq!(m.read(0xFF05), 0x10);
}

#[test]
fn serial_transfer_raises_interrupt_after_eight_ticks() {
    let mut m = bus(false);
    m.write(0xFF0F, 0x00);
    m.write(0xFF02, 0x81);
    assert_eq!(m.read(0xFF02), 0xFF);
    for _ in 0..7 {
        m.tick();
    }
    assert_eq!(m.read(0xFF0F) & 0x08, 0);
    m.tick();
    assert_eq!(m.read(0xFF0F) & 0x08, 0x08);
}

#[test]
fn general_purpose_vram_dma_from_rom() {
    let mut m = bus(false);
    let mut data = image(0x00, 0x00, 0x00, 0xC0);
    for i in 0..0x10usize {
        data[0x4300 + i] = 0x40 + i as u8;
    }
    data[0x14D] = checksum(&data);
    assert_eq!(m.load_rom(data), Ok(()));
    assert_eq!(m.mode, HardwareMode::Cgb);
    m.write(0xFF51, 0x43);
    m.write(0xFF52, 0x00);
    m.write(0xFF53, 0x00);
    m.write(0xFF54, 0x40);
    m.write(0xFF55, 0x00);
    for i in 0..0x10u16 {
        assert_eq!(m.read(0x8040 + i), 0x40 + i as u8);
    }
    assert_eq!(m.read(0x8050), 0);
    assert_eq!(m.read(0xFF55), 0xFF);
}
