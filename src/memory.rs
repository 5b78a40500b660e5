use vstd::prelude::*;
use crate::cartridge::{Cartridge, HardwareMode};
use crate::error::LoadError;
use crate::timer::{Timer, timer_step, timer_steps};

verus! {

/// Bytes of video RAM (two banks of 8KB).
pub const VRAM_SIZE: usize = 16384;
/// Bytes of working RAM (eight banks of 4KB).
pub const WRAM_SIZE: usize = 32768;
/// Bytes of sprite-attribute memory.
pub const OAM_SIZE: usize = 160;
/// Bytes of high RAM.
pub const HRAM_SIZE: usize = 127;
/// Bits 5..=7 of IF and IER, which always read as set.
pub const IRQ_UNUSED_BITS: u8 = 0b1110_0000;
/// The IF bit that the timer raises.
pub const IRQ_TIMER: u8 = 0b0000_0100;
/// The IF bit that the serial port raises.
pub const IRQ_SERIAL: u8 = 0b0000_1000;
/// Bits of the serial control register that always read as set.
pub const SERIAL_CONTROL_BITS: u8 = 0b0111_1110;
/// Bytes that one step of an H-Blank transfer copies.
pub const HDMA_CHUNK: u16 = 0x10;

/// Bytes that a general-purpose VRAM-DMA started by `val` copies.
pub open spec fn gdma_len(val: u8) -> int {
    ((val & 0x7F) as int + 1) * 16
}

/// The rendering unit's state, as the bus observes it.
#[derive(Debug, Clone, Copy, PartialEq, Eq, Structural)]
pub enum PpuMode {
    HBlank,
    VBlank,
    OamScan,
    Drawing,
}

/// The rendering unit the bus owns. The bus forwards accesses to its
/// registers, lets it run once per tick over video RAM, sprite memory and
/// the interrupt flags, and reads its mode and the joypad lines from it.
pub trait Ppu {
    fn read(&mut self, addr: u16) -> u8;

    fn write(&mut self, addr: u16, val: u8);

    fn tick(
        &mut self,
        vram: &mut [u8; 16384],
        oam: &mut [u8; 160],
        interrupt_flags: &mut u8,
        input_select: u8,
    );

    fn mode(&self) -> PpuMode;

    fn buttons(&self) -> u8;

    fn directions(&self) -> u8;

    fn set_hardware_mode(&mut self, mode: HardwareMode);
}

/// The sound unit the bus owns: register accesses are forwarded, and it runs
/// once per tick.
pub trait Apu {
    fn read(&mut self, addr: u16) -> u8;

    fn write(&mut self, addr: u16, val: u8);

    fn tick(&mut self);
}

/// The whole 16-bit address space: cartridge, video RAM, working RAM, sprite
/// memory, high RAM, the memory-mapped registers, the timer and the DMA engines.
#[allow(non_snake_case)]
pub struct Memory<P: Ppu, A: Apu> {
    pub cart: Cartridge,
    pub ppu: P,
    pub apu: A,
    pub mode: HardwareMode,
    pub vram: [u8; 16384],
    pub ram: [u8; 32768],
    pub OAM: [u8; 160],
    pub hram: [u8; 127],
    pub IF: u8,
    pub IER: u8,
    pub vram_bank: u8,
    pub ram_bank: u8,
    pub vdma_src: u16,
    pub vdma_dst: u16,
    pub hdma5: u8,
    pub hdma_active: bool,
    pub hdma_length: u8,
    pub timer: Timer,
    pub serial_control: u8,
    pub serial_transfer: u8,
    pub serial_count_interrupt: u8,
    pub input_select: u8,
}

impl<P: Ppu, A: Apu> Memory<P, A> {
    /// Bank registers in range, the VRAM-DMA destination inside video RAM,
    /// an armed H-Blank transfer never past its length, and the unused bits of
    /// IF and IER set.
    pub open spec fn wf(&self) -> bool {
        &&& self.cart.wf()
        &&& 1 <= self.ram_bank <= 7
        &&& self.vram_bank <= 1
        &&& self.vdma_dst <= 0x1FF0
        &&& self.hdma_length < 0x80
        &&& self.hdma_active ==> self.hdma5 <= self.hdma_length
        &&& self.IF & IRQ_UNUSED_BITS == IRQ_UNUSED_BITS
        &&& self.IER & IRQ_UNUSED_BITS == IRQ_UNUSED_BITS
    }

    /// What a bus read at `addr` returns, for every address whose value the
    /// bus holds itself; `None` where a collaborator answers.
    pub open spec fn read_value(&self, addr: u16) -> Option<u8> {
        let boot = self.cart.bootrom@;
        if self.cart.bootrom_enable && addr <= 0x00FF {
            Some(boot[addr as int])
        } else if self.cart.bootrom_enable && 0x0201 <= addr <= 0x08FF && self.mode
            == HardwareMode::Cgb && addr < boot.len() {
            Some(boot[addr as int])
        } else if addr <= 0x7FFF {
            Some(self.cart.rom.rom_value(addr))
        } else if addr <= 0x9FFF {
            Some(self.vram@[(addr - 0x8000) + 0x2000 * self.vram_bank])
        } else if addr <= 0xBFFF {
            Some(self.cart.rom.ram_value((addr - 0xA000) as u16))
        } else if addr <= 0xCFFF {
            Some(self.ram@[addr - 0xC000])
        } else if addr <= 0xDFFF {
            Some(self.ram@[(addr - 0xD000) + 0x1000 * self.ram_bank])
        } else if addr <= 0xFDFF {
            Some(self.ram@[addr - 0xE000])
        } else if addr <= 0xFE9F {
            Some(self.OAM@[addr - 0xFE00])
        } else if addr == 0xFF00 {
            if self.input_select & 0x30 == 0x00 {
                Some(0x0F)
            } else if self.input_select & 0x30 == 0x30 {
                Some(0xFF)
            } else {
                None
            }
        } else if addr == 0xFF01 {
            Some(self.serial_transfer)
        } else if addr == 0xFF02 {
            Some(self.serial_control)
        } else if addr == 0xFF04 {
            Some((self.timer.div >> 8u16) as u8)
        } else if addr == 0xFF05 {
            Some(self.timer.tima)
        } else if addr == 0xFF06 {
            Some(self.timer.tma)
        } else if addr == 0xFF07 {
            Some(self.timer.tac)
        } else if addr == 0xFF0F {
            Some(self.IF)
        } else if 0xFF10 <= addr <= 0xFF4B {
            None
        } else if addr == 0xFF4F {
            Some(self.vram_bank | 0xFE)
        } else if addr == 0xFF51 {
            Some((self.vdma_src >> 8u16) as u8)
        } else if addr == 0xFF52 {
            Some(self.vdma_src as u8)
        } else if addr == 0xFF53 {
            Some((self.vdma_dst >> 8u16) as u8)
        } else if addr == 0xFF54 {
            Some(self.vdma_dst as u8)
        } else if addr == 0xFF55 {
            Some(self.hdma5)
        } else if 0xFF68 <= addr <= 0xFF6C && self.mode == HardwareMode::Cgb {
            None
        } else if addr == 0xFF70 {
            Some(self.ram_bank | 0xF8)
        } else if 0xFF80 <= addr <= 0xFFFE {
            Some(self.hram@[addr - 0xFF80])
        } else if addr == 0xFFFF {
            Some(self.IER)
        } else {
            Some(0xFF)
        }
    }

    /// The bus at power-on over the given collaborators: an empty cartridge,
    /// zeroed memories, IF and IER with only their unused bits set, working
    /// RAM bank 1 and video RAM bank 0.
    pub fn new(ppu: P, apu: A) -> (r: Self)
        ensures
            r.wf(),
            r.cart.rom is Dummy,
            r.cart.rom.image() == Seq::<u8>::empty(),
            r.cart.bootrom@ == Seq::<u8>::empty(),
            r.cart.title@ == Seq::<char>::empty(),
            r.cart.gb_cart_type == HardwareMode::Dmg,
            !r.cart.bootrom_enable,
            r.vdma_src == 0 && r.vdma_dst == 0 && r.hdma_length == 0,
            r.serial_control == SERIAL_CONTROL_BITS && r.serial_transfer == 0xFF,
            r.serial_count_interrupt == 0 && r.input_select == 0,
            r.mode == HardwareMode::Dmg,
            r.IF == IRQ_UNUSED_BITS && r.IER == IRQ_UNUSED_BITS,
            r.ram_bank == 1 && r.vram_bank == 0,
            !r.hdma_active && r.hdma5 == 0,
            r.timer == Timer::new_spec(),
            r.vram@ == Seq::new(VRAM_SIZE as nat, |i: int| 0u8),
            r.ram@ == Seq::new(WRAM_SIZE as nat, |i: int| 0u8),
            r.OAM@ == Seq::new(OAM_SIZE as nat, |i: int| 0u8),
            r.hram@ == Seq::new(HRAM_SIZE as nat, |i: int| 0u8),
    {
        let r = Memory {
            cart: Cartridge::new(),
            ppu,
            apu,
            mode: HardwareMode::Dmg,
            vram: [0u8; 16384],
            ram: [0u8; 32768],
            OAM: [0u8; 160],
            hram: [0u8; 127],
            IF: IRQ_UNUSED_BITS,
            IER: IRQ_UNUSED_BITS,
            vram_bank: 0,
            ram_bank: 1,
            vdma_src: 0,
            vdma_dst: 0,
            hdma5: 0,
            hdma_active: false,
            hdma_length: 0,
            timer: Timer::new(),
            serial_control: SERIAL_CONTROL_BITS,
            serial_transfer: 0xFF,
            serial_count_interrupt: 0,
            input_select: 0,
        };
        assert(0xE0u8 & 0xE0u8 == 0xE0u8) by (bit_vector);
        assert(r.vram@ =~= Seq::new(VRAM_SIZE as nat, |i: int| 0u8));
        assert(r.ram@ =~= Seq::new(WRAM_SIZE as nat, |i: int| 0u8));
        assert(r.OAM@ =~= Seq::new(OAM_SIZE as nat, |i: int| 0u8));
        assert(r.hram@ =~= Seq::new(HRAM_SIZE as nat, |i: int| 0u8));
        r
    }

    /// Maps a boot image over the start of the address space and switches to
    /// the hardware mode its length gives.
    pub fn load_bootrom(&mut self, data: Vec<u8>) -> (r: Result<(), LoadError>)
        requires
            old(self).wf(),
        ensures
            final(self).wf(),
            match r {
                Ok(()) => {
                    &&& final(self).cart.bootrom@ == data@
                    &&& final(self).cart.bootrom_enable
                    &&& final(self).mode == if data@.len() == 0x100 {
                        HardwareMode::Dmg
                    } else {
                        HardwareMode::Cgb
                    }
                },
                Err(e) => e == LoadError::InvalidBootrom && final(self).cart == old(self).cart
                    && final(self).mode == old(self).mode,
            },
            r is Ok <==> (data@.len() == 0x100 || data@.len() == 0x900),
    {
        match self.cart.load_bootrom(data) {
            Ok(mode) => {
                self.mode = mode;
                self.ppu.set_hardware_mode(mode);
                Ok(())
            },
            Err(e) => Err(e),
        }
    }

    /// Loads a ROM image into the cartridge and switches to the hardware mode
    /// its header asks for.
    pub fn load_rom(&mut self, data: Vec<u8>) -> (r: Result<(), LoadError>)
        requires
            old(self).wf(),
        ensures
            final(self).wf(),
            match r {
                Ok(()) => {
                    &&& crate::cartridge::load_error(data@) is None
                    &&& crate::cartridge::controller_matches(final(self).cart.rom, data@)
                    &&& final(self).mode == crate::cartridge::mode_of_flag(data@[0x143])
                    &&& final(self).cart.gb_cart_type == final(self).mode
                },
                Err(e) => crate::cartridge::load_error(data@) == Some(e) && final(self).cart
                    == old(self).cart && final(self).mode == old(self).mode,
            },
    {
        match self.cart.load_rom_image(data) {
            Ok(mode) => {
                self.mode = mode;
                self.ppu.set_hardware_mode(mode);
                Ok(())
            },
            Err(e) => Err(e),
        }
    }

    /// Reads the byte at `addr`. Where the bus holds the value itself the
    /// result is `read_value(addr)` and nothing changes; the APU, PPU and
    /// joypad registers are answered by the collaborators.
    pub fn read(&mut self, addr: u16) -> (r: u8)
        requires
            old(self).wf(),
        ensures
            old(self).read_value(addr) is Some ==> r == old(self).read_value(addr).unwrap()
                && *final(self) == *old(self),
            *final(self) == (Memory { ppu: final(self).ppu, apu: final(self).apu, ..*old(self) }),
    {
        if self.cart.bootrom_enable {
            if addr <= 0x00FF {
                return self.cart.bootrom[addr as usize];
            }
            if 0x0201 <= addr && addr <= 0x08FF && self.mode == HardwareMode::Cgb && (addr as usize)
                < self.cart.bootrom.len() {
                return self.cart.bootrom[addr as usize];
            }
        }
        if addr <= 0x7FFF {
            self.cart.read_rom(addr)
        } else if addr <= 0x9FFF {
            self.vram[(addr - 0x8000) as usize + 0x2000 * (self.vram_bank as usize)]
        } else if addr <= 0xBFFF {
            self.cart.read_ram(addr - 0xA000)
        } else if addr <= 0xCFFF {
            self.ram[(addr - 0xC000) as usize]
        } else if addr <= 0xDFFF {
            self.ram[(addr - 0xD000) as usize + 0x1000 * (self.ram_bank as usize)]
        } else if addr <= 0xFDFF {
            self.ram[(addr - 0xE000) as usize]
        } else if addr <= 0xFE9F {
            self.OAM[(addr - 0xFE00) as usize]
        } else if addr == 0xFF00 {
            let sel = self.input_select & 0x30;
            if sel == 0x00 {
                0x0F
            } else if sel == 0x10 {
                self.ppu.buttons() | self.input_select
            } else if sel == 0x20 {
                self.ppu.directions() | self.input_select
            } else {
                0xFF
            }
        } else if addr == 0xFF01 {
            self.serial_transfer
        } else if addr == 0xFF02 {
            self.serial_control
        } else if addr == 0xFF04 {
            (self.timer.div >> 8u16) as u8
        } else if addr == 0xFF05 {
            self.timer.tima
        } else if addr == 0xFF06 {
            self.timer.tma
        } else if addr == 0xFF07 {
            self.timer.tac
        } else if addr == 0xFF0F {
            self.IF
        } else if 0xFF10 <= addr && addr <= 0xFF3F {
            self.apu.read(addr)
        } else if 0xFF40 <= addr && addr <= 0xFF4B {
            self.ppu.read(addr)
        } else if addr == 0xFF4F {
            self.vram_bank | 0xFE
        } else if addr == 0xFF51 {
            (self.vdma_src >> 8u16) as u8
        } else if addr == 0xFF52 {
            self.vdma_src as u8
        } else if addr == 0xFF53 {
            (self.vdma_dst >> 8u16) as u8
        } else if addr == 0xFF54 {
            self.vdma_dst as u8
        } else if addr == 0xFF55 {
            self.hdma5
        } else if 0xFF68 <= addr && addr <= 0xFF6C && self.mode == HardwareMode::Cgb {
            self.ppu.read(addr)
        } else if addr == 0xFF70 {
            self.ram_bank | 0xF8
        } else if 0xFF80 <= addr && addr <= 0xFFFE {
            self.hram[(addr - 0xFF80) as usize]
        } else if addr == 0xFFFF {
            self.IER
        } else {
            0xFF
        }
    }

    /// The working-RAM index that an address in 0xC000..=0xFDFF reaches
    /// (0xE000..=0xFDFF echoes 0xC000..).
    pub open spec fn wram_index(&self, addr: u16) -> int {
        if addr <= 0xCFFF {
            addr - 0xC000
        } else if addr <= 0xDFFF {
            (addr - 0xD000) + 0x1000 * self.ram_bank
        } else {
            addr - 0xE000
        }
    }

    /// The video-RAM index that an address in 0x8000..=0x9FFF reaches.
    pub open spec fn vram_index(&self, addr: u16) -> int {
        (addr - 0x8000) + 0x2000 * self.vram_bank
    }

    /// A write below the register page: cartridge, video RAM, working RAM or
    /// sprite memory; 0xFEA0..=0xFEFF ignores writes.
    fn write_mem(&mut self, addr: u16, val: u8)
        requires
            old(self).wf(),
            addr < 0xFF00,
        ensures
            final(self).wf(),
            addr <= 0x7FFF || 0xA000 <= addr <= 0xBFFF ==> *final(self) == (Memory {
                cart: final(self).cart,
                ..*old(self)
            }),
            addr <= 0x7FFF ==> old(self).cart.rom.after_write_rom(final(self).cart.rom, addr, val),
            0xA000 <= addr <= 0xBFFF ==> old(self).cart.rom.after_write_ram(
                final(self).cart.rom,
                (addr - 0xA000) as u16,
                val,
            ),
            addr <= 0x7FFF || 0xA000 <= addr <= 0xBFFF ==> final(self).cart == (Cartridge {
                rom: final(self).cart.rom,
                ..old(self).cart
            }),
            0x8000 <= addr <= 0x9FFF ==> *final(self) == (Memory {
                vram: final(self).vram,
                ..*old(self)
            }) && final(self).vram@ == old(self).vram@.update(old(self).vram_index(addr), val),
            0xC000 <= addr <= 0xFDFF ==> *final(self) == (Memory {
                ram: final(self).ram,
                ..*old(self)
            }) && final(self).ram@ == old(self).ram@.update(old(self).wram_index(addr), val),
            0xFE00 <= addr <= 0xFE9F ==> *final(self) == (Memory {
                OAM: final(self).OAM,
                ..*old(self)
            }) && final(self).OAM@ == old(self).OAM@.update(addr - 0xFE00, val),
            0xFEA0 <= addr ==> *final(self) == *old(self),
    {
        if addr <= 0x7FFF {
            self.cart.write_rom(addr, val);
        } else if addr <= 0x9FFF {
            self.vram[(addr - 0x8000) as usize + 0x2000 * (self.vram_bank as usize)] = val;
        } else if addr <= 0xBFFF {
            self.cart.write_ram(addr - 0xA000, val);
        } else if addr <= 0xCFFF {
            self.ram[(addr - 0xC000) as usize] = val;
        } else if addr <= 0xDFFF {
            self.ram[(addr - 0xD000) as usize + 0x1000 * (self.ram_bank as usize)] = val;
        } else if addr <= 0xFDFF {
            self.ram[(addr - 0xE000) as usize] = val;
        } else if addr <= 0xFE9F {
            self.OAM[(addr - 0xFE00) as usize] = val;
        }
    }

    /// Copies the 160 bytes at `page << 8` into sprite memory at once. Every
    /// byte the bus holds itself arrives unchanged.
    fn oam_dma(&mut self, page: u8)
        requires
            old(self).wf(),
        ensures
            final(self).wf(),
            *final(self) == (Memory {
                OAM: final(self).OAM,
                ppu: final(self).ppu,
                apu: final(self).apu,
                ..*old(self)
            }),
            forall|k: int|
                0 <= k < 160 && (#[trigger] old(self).read_value((page as u16 * 256 + k) as u16))
                    is Some ==> final(self).OAM@[k] == old(self).read_value(
                    (page as u16 * 256 + k) as u16,
                ).unwrap(),
    {
        let base: u16 = (page as u16) * 256;
        let mut k: u16 = 0;
        while k < 160
            invariant
                0 <= k <= 160,
                base == page as u16 * 256,
                self.wf(),
                *self == (Memory { OAM: self.OAM, ppu: self.ppu, apu: self.apu, ..*old(self) }),
                forall|j: int| k <= j < 160 ==> self.OAM@[j] == old(self).OAM@[j],
                forall|j: int|
                    0 <= j < k && (#[trigger] old(self).read_value((base + j) as u16)) is Some
                        ==> self.OAM@[j] == old(self).read_value((base + j) as u16).unwrap(),
            decreases 160 - k,
        {
            let a: u16 = base + k;
            proof {
                lemma_read_value_frame(*old(self), *self, a);
            }
            let v = self.read(a);
            self.OAM[k as usize] = v;
            k = k + 1;
        }
    }

    /// The VRAM-DMA range `offset .. offset + len` does not wrap its source
    /// past 0xFFFF, keeps its destination inside video RAM, and its source and
    /// destination address ranges do not overlap.
    pub open spec fn dma_plain(&self, offset: int, len: int) -> bool {
        let src = self.vdma_src + offset;
        let dst = 0x8000 + self.vdma_dst + offset;
        &&& self.vdma_src + offset + len <= 0x10000
        &&& self.vdma_dst + offset + len <= 0x2000
        &&& (src + len <= dst || dst + len <= src)
    }

    /// The source address the VRAM-DMA reads `k` bytes in.
    pub open spec fn dma_src_addr(&self, k: int) -> u16 {
        (self.vdma_src + k) as u16
    }

    /// The video-RAM index the VRAM-DMA destination reaches `k` bytes in.
    pub open spec fn dma_vram_index(&self, k: int) -> int {
        self.vdma_dst + k + 0x2000 * self.vram_bank
    }

    /// Copies `len` bytes from the VRAM-DMA source to the destination in video
    /// RAM, starting `offset` bytes in. The source address wraps at 0xFFFF.
    fn vram_dma_copy(&mut self, offset: u16, len: u16)
        requires
            old(self).wf(),
            offset + len <= 0x800,
        ensures
            final(self).wf(),
            *final(self) == (Memory {
                vram: final(self).vram,
                cart: final(self).cart,
                ppu: final(self).ppu,
                apu: final(self).apu,
                ..*old(self)
            }),
            old(self).dma_plain(offset as int, len as int) ==> forall|j: int|
                offset <= j < offset + len && (#[trigger] old(self).read_value(
                    old(self).dma_src_addr(j),
                )) is Some ==> final(self).vram@[old(self).dma_vram_index(j)] == old(
                    self,
                ).read_value(old(self).dma_src_addr(j)).unwrap(),
    {
        let mut i: u16 = 0;
        while i < len
            invariant
                0 <= i <= len,
                offset + len <= 0x800,
                self.wf(),
                *self == (Memory {
                    vram: self.vram,
                    cart: self.cart,
                    ppu: self.ppu,
                    apu: self.apu,
                    ..*old(self)
                }),
                old(self).dma_plain(offset as int, len as int) ==> self.cart == old(self).cart,
                old(self).dma_plain(offset as int, len as int) ==> forall|x: int|
                    0 <= x < VRAM_SIZE && !(old(self).dma_vram_index(offset as int) <= x
                        < old(self).dma_vram_index(offset + i)) ==> #[trigger] self.vram@[x]
                        == old(self).vram@[x],
                old(self).dma_plain(offset as int, len as int) ==> forall|j: int|
                    offset <= j < offset + i && (#[trigger] old(self).read_value(
                        old(self).dma_src_addr(j),
                    )) is Some ==> self.vram@[old(self).dma_vram_index(j)] == old(
                        self,
                    ).read_value(old(self).dma_src_addr(j)).unwrap(),
            decreases len - i,
        {
            proof {
                if old(self).dma_plain(offset as int, len as int) {
                    lemma_read_value_vram_frame(*old(self), *self, old(self).dma_src_addr(offset + i));
                }
            }
            let v = self.read(self.vdma_src.wrapping_add(offset + i));
            let dst = self.vdma_dst;
            assert(dst <= 0x1FF0 ==> 0x8000 | dst == 0x8000 + dst) by (bit_vector);
            self.write_mem((0x8000 | dst) + offset + i, v);
            i = i + 1;
        }
    }

    /// Writes `val` at `addr`: memories below the register page, and the
    /// registers of the bus, the timer and the DMA engines; APU and PPU
    /// registers are handed to those units.
    #[verifier::rlimit(40)]
    pub fn write(&mut self, addr: u16, val: u8)
        requires
            old(self).wf(),
        ensures
            final(self).wf(),
            addr <= 0x7FFF || 0xA000 <= addr <= 0xBFFF ==> *final(self) == (Memory {
                cart: final(self).cart,
                ..*old(self)
            }),
            addr <= 0x7FFF ==> old(self).cart.rom.after_write_rom(final(self).cart.rom, addr, val),
            0xA000 <= addr <= 0xBFFF ==> old(self).cart.rom.after_write_ram(
                final(self).cart.rom,
                (addr - 0xA000) as u16,
                val,
            ),
            addr <= 0x7FFF || 0xA000 <= addr <= 0xBFFF ==> final(self).cart == (Cartridge {
                rom: final(self).cart.rom,
                ..old(self).cart
            }),
            0x8000 <= addr <= 0x9FFF ==> *final(self) == (Memory {
                vram: final(self).vram,
                ..*old(self)
            }) && final(self).vram@ == old(self).vram@.update(old(self).vram_index(addr), val),
            0xC000 <= addr <= 0xFDFF ==> *final(self) == (Memory {
                ram: final(self).ram,
                ..*old(self)
            }) && final(self).ram@ == old(self).ram@.update(old(self).wram_index(addr), val),
            0xFE00 <= addr <= 0xFE9F ==> *final(self) == (Memory {
                OAM: final(self).OAM,
                ..*old(self)
            }) && final(self).OAM@ == old(self).OAM@.update(addr - 0xFE00, val),
            addr == 0xFF00 ==> *final(self) == (Memory { input_select: val & 0x30, ..*old(self) }),
            addr == 0xFF01 ==> *final(self) == (Memory { serial_transfer: val, ..*old(self) }),
            addr == 0xFF02 ==> *final(self) == (Memory {
                serial_control: SERIAL_CONTROL_BITS | val,
                serial_count_interrupt: if val & 0x80 != 0 {
                    8
                } else {
                    old(self).serial_count_interrupt
                },
                ..*old(self)
            }),
            addr == 0xFF04 ==> *final(self) == (Memory {
                timer: Timer { div: 0, tima: old(self).timer.tma, schedule: -1i8, ..old(self).timer },
                ..*old(self)
            }),
            addr == 0xFF05 ==> *final(self) == (Memory {
                timer: if old(self).timer.schedule >= 1 {
                    old(self).timer
                } else {
                    Timer { tima: val, schedule: -1i8, ..old(self).timer }
                },
                ..*old(self)
            }),
            addr == 0xFF06 ==> *final(self) == (Memory {
                timer: Timer { tma: val, ..old(self).timer },
                ..*old(self)
            }),
            addr == 0xFF07 ==> *final(self) == (Memory {
                timer: Timer { tac: 0xF8 | val, ..old(self).timer },
                ..*old(self)
            }),
            addr == 0xFF0F ==> *final(self) == (Memory { IF: IRQ_UNUSED_BITS | val, ..*old(self) }),
            addr == 0xFF46 ==> *final(self) == (Memory {
                OAM: final(self).OAM,
                ppu: final(self).ppu,
                apu: final(self).apu,
                ..*old(self)
            }) && forall|k: int|
                0 <= k < 160 && (#[trigger] old(self).read_value((val as u16 * 256 + k) as u16))
                    is Some ==> final(self).OAM@[k] == old(self).read_value(
                    (val as u16 * 256 + k) as u16,
                ).unwrap(),
            addr == 0xFF4F ==> *final(self) == (Memory {
                vram_bank: if old(self).mode == HardwareMode::Cgb {
                    val & 1
                } else {
                    old(self).vram_bank
                },
                ..*old(self)
            }),
            addr == 0xFF50 ==> *final(self) == (Memory {
                cart: final(self).cart,
                ppu: final(self).ppu,
                mode: old(self).cart.gb_cart_type,
                ..*old(self)
            }) && !final(self).cart.bootrom_enable && final(self).cart.bootrom@.len() == 0
                && final(self).cart.rom == old(self).cart.rom,
            addr == 0xFF51 ==> *final(self) == (Memory {
                vdma_src: (old(self).vdma_src & 0xFF) | ((val as u16) << 8u16),
                ..*old(self)
            }),
            addr == 0xFF52 ==> *final(self) == (Memory {
                vdma_src: (old(self).vdma_src & 0xFF00) | ((val as u16) & 0xF0),
                ..*old(self)
            }),
            addr == 0xFF53 ==> *final(self) == (Memory {
                vdma_dst: (old(self).vdma_dst & 0xF0) | (((val as u16) & 0x1F) << 8u16),
                ..*old(self)
            }),
            addr == 0xFF54 ==> *final(self) == (Memory {
                vdma_dst: (old(self).vdma_dst & 0x1F00) | ((val as u16) & 0xF0),
                ..*old(self)
            }),
            addr == 0xFF55 && old(self).mode == HardwareMode::Cgb && val & 0x80 != 0
                ==> *final(self) == (Memory {
                hdma_active: true,
                hdma_length: val & 0x7F,
                hdma5: val & 0x7F,
                ..*old(self)
            }),
            addr == 0xFF55 && old(self).mode == HardwareMode::Cgb && val & 0x80 == 0
                && old(self).hdma_active ==> *final(self) == (Memory {
                hdma_active: false,
                hdma5: old(self).hdma5 | 0x80,
                ..*old(self)
            }),
            addr == 0xFF55 && old(self).mode == HardwareMode::Cgb && val & 0x80 == 0
                && !old(self).hdma_active ==> *final(self) == (Memory {
                vram: final(self).vram,
                cart: final(self).cart,
                ppu: final(self).ppu,
                apu: final(self).apu,
                hdma5: 0xFF,
                ..*old(self)
            }),
            addr == 0xFF55 && old(self).mode == HardwareMode::Cgb && val & 0x80 == 0
                && !old(self).hdma_active && old(self).dma_plain(0, gdma_len(val)) ==> forall|j: int|
                0 <= j < gdma_len(val) && (#[trigger] old(self).read_value(
                    old(self).dma_src_addr(j),
                )) is Some ==> final(self).vram@[old(self).dma_vram_index(j)] == old(
                    self,
                ).read_value(old(self).dma_src_addr(j)).unwrap(),
            addr == 0xFF70 ==> *final(self) == (Memory {
                ram_bank: if old(self).mode != HardwareMode::Cgb {
                    old(self).ram_bank
                } else if val & 0x07 == 0 {
                    1
                } else {
                    val & 0x07
                },
                ..*old(self)
            }),
            0xFF80 <= addr <= 0xFFFE ==> *final(self) == (Memory {
                hram: final(self).hram,
                ..*old(self)
            }) && final(self).hram@ == old(self).hram@.update(addr - 0xFF80, val),
            addr == 0xFFFF ==> *final(self) == (Memory { IER: IRQ_UNUSED_BITS | val, ..*old(self) }),
            (0xFEA0 <= addr <= 0xFEFF || addr == 0xFF03 || 0xFF08 <= addr <= 0xFF0E || 0xFF4C
                <= addr <= 0xFF4E || 0xFF56 <= addr <= 0xFF67 || 0xFF6D <= addr <= 0xFF6F
                || 0xFF71 <= addr <= 0xFF7F) ==> *final(self) == *old(self),
    {
        if addr < 0xFF00 {
            self.write_mem(addr, val);
        } else if addr == 0xFF00 {
            self.input_select = val & 0x30;
        } else if addr == 0xFF01 {
            self.serial_transfer = val;
        } else if addr == 0xFF02 {
            self.serial_control = SERIAL_CONTROL_BITS | val;
            if val & 0x80 != 0 {
                self.serial_count_interrupt = 8;
            }
        } else if addr == 0xFF04 {
            self.timer.write_div();
        } else if addr == 0xFF05 {
            self.timer.write_tima(val);
        } else if addr == 0xFF06 {
            self.timer.tma = val;
        } else if addr == 0xFF07 {
            self.timer.write_tac(val);
        } else if addr == 0xFF0F {
            assert((0xE0u8 | val) & 0xE0u8 == 0xE0u8) by (bit_vector);
            self.IF = IRQ_UNUSED_BITS | val;
        } else if 0xFF10 <= addr && addr <= 0xFF3F {
            self.apu.write(addr, val);
        } else if addr == 0xFF46 {
            self.oam_dma(val);
        } else if 0xFF40 <= addr && addr <= 0xFF4B {
            self.ppu.write(addr, val);
        } else if addr == 0xFF4F {
            if self.mode == HardwareMode::Cgb {
                assert(val & 1 <= 1) by (bit_vector);
                self.vram_bank = val & 1;
            }
        } else if addr == 0xFF50 {
            self.cart.bootrom = Vec::new();
            self.cart.bootrom_enable = false;
            self.mode = self.cart.gb_cart_type;
            self.ppu.set_hardware_mode(self.cart.gb_cart_type);
        } else if addr == 0xFF51 {
            self.vdma_src = (self.vdma_src & 0xFF) | ((val as u16) << 8u16);
        } else if addr == 0xFF52 {
            self.vdma_src = (self.vdma_src & 0xFF00) | ((val as u16) & 0xF0);
        } else if addr == 0xFF53 {
            let d = self.vdma_dst;
            assert((d & 0xF0) | (((val as u16) & 0x1F) << 8u16) <= 0x1FF0) by (bit_vector);
            self.vdma_dst = (d & 0xF0) | (((val as u16) & 0x1F) << 8u16);
        } else if addr == 0xFF54 {
            let d = self.vdma_dst;
            assert((d & 0x1F00) | ((val as u16) & 0xF0) <= 0x1FF0) by (bit_vector);
            self.vdma_dst = (d & 0x1F00) | ((val as u16) & 0xF0);
        } else if addr == 0xFF55 {
            if self.mode == HardwareMode::Cgb {
                self.start_vram_dma(val);
            }
        } else if 0xFF68 <= addr && addr <= 0xFF6C {
            if self.mode == HardwareMode::Cgb {
                self.ppu.write(addr, val);
            }
        } else if addr == 0xFF70 {
            if self.mode == HardwareMode::Cgb {
                let b = val & 0x07;
                assert(val & 0x07 <= 7) by (bit_vector);
                self.ram_bank = if b == 0 {
                    1
                } else {
                    b
                };
            }
        } else if 0xFF80 <= addr && addr <= 0xFFFE {
            self.hram[(addr - 0xFF80) as usize] = val;
        } else if addr == 0xFFFF {
            assert((0xE0u8 | val) & 0xE0u8 == 0xE0u8) by (bit_vector);
            self.IER = IRQ_UNUSED_BITS | val;
        }
    }

    /// A write to the VRAM-DMA control register: with bit 7 set it arms an
    /// H-Blank transfer; with bit 7 clear it stops an armed one, or else copies
    /// `(low 7 bits + 1) * 16` bytes at once and marks the engine idle.
    fn start_vram_dma(&mut self, val: u8)
        requires
            old(self).wf(),
        ensures
            final(self).wf(),
            val & 0x80 != 0 ==> *final(self) == (Memory {
                hdma_active: true,
                hdma_length: val & 0x7F,
                hdma5: val & 0x7F,
                ..*old(self)
            }),
            val & 0x80 == 0 && old(self).hdma_active ==> *final(self) == (Memory {
                hdma_active: false,
                hdma5: old(self).hdma5 | 0x80,
                ..*old(self)
            }),
            val & 0x80 == 0 && !old(self).hdma_active ==> *final(self) == (Memory {
                vram: final(self).vram,
                cart: final(self).cart,
                ppu: final(self).ppu,
                apu: final(self).apu,
                hdma5: 0xFF,
                ..*old(self)
            }),
            val & 0x80 == 0 && !old(self).hdma_active && old(self).dma_plain(0, gdma_len(val)) ==> forall|j: int|
                0 <= j < gdma_len(val) && (#[trigger] old(self).read_value(
                    old(self).dma_src_addr(j),
                )) is Some ==> final(self).vram@[old(self).dma_vram_index(j)] == old(
                    self,
                ).read_value(old(self).dma_src_addr(j)).unwrap(),
    {
        assert(val & 0x7F < 0x80) by (bit_vector);
        if val & 0x80 != 0 {
            self.hdma_active = true;
            self.hdma_length = val & 0x7F;
            self.hdma5 = self.hdma_length;
        } else if self.hdma_active {
            self.hdma_active = false;
            self.hdma5 = self.hdma5 | 0x80;
        } else {
            let length: u16 = ((val & 0x7F) as u16 + 1) * HDMA_CHUNK;
            self.vram_dma_copy(0, length);
            self.hdma5 = 0xFF;
        }
    }

    /// The interrupt flags after the serial countdown and the timer have
    /// run for one tick.
    pub open spec fn counters_if(&self) -> u8 {
        let if1 = if self.serial_count_interrupt == 1 {
            self.IF | IRQ_SERIAL
        } else {
            self.IF
        };
        if timer_step(self.timer).1 {
            if1 | IRQ_TIMER
        } else {
            if1
        }
    }

    /// One tick of the serial shifter and of the timer, with the interrupts
    /// they raise.
    fn run_counters(&mut self)
        requires
            old(self).wf(),
        ensures
            final(self).wf(),
            *final(self) == (Memory {
                timer: timer_step(old(self).timer).0,
                serial_transfer: (old(self).serial_transfer >> 1u8) | 0x80,
                serial_count_interrupt: if old(self).serial_count_interrupt > 0 {
                    (old(self).serial_count_interrupt - 1) as u8
                } else {
                    0
                },
                IF: old(self).counters_if(),
                ..*old(self)
            }),
    {
        self.serial_transfer = (self.serial_transfer >> 1u8) | 0x80;
        if self.serial_count_interrupt > 0 {
            self.serial_count_interrupt = self.serial_count_interrupt - 1;
            if self.serial_count_interrupt == 0 {
                self.IF = self.IF | IRQ_SERIAL;
            }
        }
        if self.timer.tick() {
            self.IF = self.IF | IRQ_TIMER;
        }
        let ghost f = old(self).IF;
        assert(f & 0xE0u8 == 0xE0u8 ==> (f | 8u8) & 0xE0u8 == 0xE0u8 && (f | 4u8) & 0xE0u8
            == 0xE0u8 && ((f | 8u8) | 4u8) & 0xE0u8 == 0xE0u8) by (bit_vector);
    }

    /// One tick of the rendering and sound units; returns the rendering
    /// unit's mode before and after it.
    fn run_units(&mut self) -> (r: (PpuMode, PpuMode))
        requires
            old(self).wf(),
        ensures
            final(self).wf(),
            *final(self) == (Memory {
                ppu: final(self).ppu,
                apu: final(self).apu,
                vram: final(self).vram,
                OAM: final(self).OAM,
                IF: final(self).IF,
                ..*old(self)
            }),
    {
        let before = self.ppu.mode();
        self.ppu.tick(&mut self.vram, &mut self.OAM, &mut self.IF, self.input_select);
        let f = self.IF;
        assert((f | 0xE0u8) & 0xE0u8 == 0xE0u8) by (bit_vector);
        self.IF = f | IRQ_UNUSED_BITS;
        self.apu.tick();
        let after = self.ppu.mode();
        (before, after)
    }

    /// The part of a tick that an H-Blank transfer's elapsed time stands for:
    /// the units, the serial shifter and the timer, without H-Blank transfers.
    fn tick_inner(&mut self)
        requires
            old(self).wf(),
        ensures
            final(self).wf(),
            final(self).hdma_active == old(self).hdma_active,
            final(self).hdma5 == old(self).hdma5,
            final(self).hdma_length == old(self).hdma_length,
            final(self).vdma_src == old(self).vdma_src,
            final(self).vdma_dst == old(self).vdma_dst,
            final(self).mode == old(self).mode,
            final(self).timer == timer_step(old(self).timer).0,
    {
        self.run_units();
        self.run_counters();
    }

    /// The offset into the transfer of the chunk an armed H-Blank transfer
    /// copies next.
    pub open spec fn hdma_offset(&self) -> int {
        (self.hdma_length - self.hdma5) * 16
    }

    /// One step of an armed H-Blank transfer, taken when the rendering unit
    /// has just entered H-Blank: the next 16-byte chunk is copied and the
    /// remaining count goes down; after the last chunk the engine is idle and
    /// its status reads 0xFF.
    fn hdma_chunk(&mut self)
        requires
            old(self).wf(),
            old(self).hdma_active,
        ensures
            final(self).wf(),
            old(self).hdma5 == 0 ==> !final(self).hdma_active && final(self).hdma5 == 0xFF,
            old(self).hdma5 > 0 ==> final(self).hdma_active && final(self).hdma5 == old(self).hdma5
                - 1,
            *final(self) == (Memory {
                vram: final(self).vram,
                cart: final(self).cart,
                ppu: final(self).ppu,
                apu: final(self).apu,
                hdma_active: final(self).hdma_active,
                hdma5: final(self).hdma5,
                ..*old(self)
            }),
            old(self).dma_plain(old(self).hdma_offset(), 16) ==> forall|j: int|
                old(self).hdma_offset() <= j < old(self).hdma_offset() + 16 && (#[trigger] old(
                    self,
                ).read_value(old(self).dma_src_addr(j))) is Some ==> final(self).vram@[old(
                    self,
                ).dma_vram_index(j)] == old(self).read_value(old(self).dma_src_addr(j)).unwrap(),
    {
        let offset: u16 = (self.hdma_length - self.hdma5) as u16 * HDMA_CHUNK;
        self.vram_dma_copy(offset, HDMA_CHUNK);
        if self.hdma5 == 0 {
            self.hdma_active = false;
            self.hdma5 = 0xFF;
        } else {
            self.hdma5 = self.hdma5 - 1;
        }
    }

    /// The time an H-Blank transfer step takes: two ticks per byte copied,
    /// without further H-Blank transfer steps.
    fn hdma_elapse(&mut self)
        requires
            old(self).wf(),
        ensures
            final(self).wf(),
            final(self).hdma_active == old(self).hdma_active,
            final(self).hdma5 == old(self).hdma5,
            final(self).hdma_length == old(self).hdma_length,
            final(self).mode == old(self).mode,
            final(self).timer == timer_steps(old(self).timer, 32),
    {
        let mut i: u16 = 0;
        while i < 2 * HDMA_CHUNK
            invariant
                0 <= i <= 2 * HDMA_CHUNK,
                self.wf(),
                self.hdma_active == old(self).hdma_active,
                self.hdma5 == old(self).hdma5,
                self.hdma_length == old(self).hdma_length,
                self.mode == old(self).mode,
                self.timer == timer_steps(old(self).timer, i as nat),
            decreases 2 * HDMA_CHUNK - i,
        {
            self.tick_inner();
            proof {
                let t0 = old(self).timer;
                assert(timer_steps(t0, (i + 1) as nat) == timer_step(timer_steps(t0, i as nat)).0);
            }
            i = i + 1;
        }
    }

    /// Advances the whole system by one tick: the rendering and sound units,
    /// an H-Blank transfer step when the rendering unit has just entered
    /// H-Blank, the serial shifter and the timer.
    pub fn tick(&mut self)
        requires
            old(self).wf(),
        ensures
            final(self).wf(),
            !old(self).hdma_active ==> final(self).timer == timer_step(old(self).timer).0,
            final(self).timer == timer_steps(old(self).timer, 1) || (old(self).hdma_active
                && final(self).timer == timer_steps(old(self).timer, 33)),
            !old(self).hdma_active ==> final(self).serial_transfer == (old(self).serial_transfer
                >> 1u8) | 0x80,
            !old(self).hdma_active ==> final(self).serial_count_interrupt == if old(
                self,
            ).serial_count_interrupt > 0 {
                (old(self).serial_count_interrupt - 1) as u8
            } else {
                0
            },
            !old(self).hdma_active && old(self).serial_count_interrupt == 1 ==> final(self).IF
                & IRQ_SERIAL != 0,
            !old(self).hdma_active && timer_step(old(self).timer).1 ==> final(self).IF & IRQ_TIMER
                != 0,
            !old(self).hdma_active ==> final(self).hdma5 == old(self).hdma5,
            !old(self).hdma_active ==> !final(self).hdma_active,
            old(self).hdma_active ==> {
                ||| final(self).hdma_active && final(self).hdma5 == old(self).hdma5
                ||| old(self).hdma5 > 0 && final(self).hdma_active && final(self).hdma5 == old(
                    self,
                ).hdma5 - 1
                ||| old(self).hdma5 == 0 && !final(self).hdma_active && final(self).hdma5 == 0xFF
            },
    {
        let (before, after) = self.run_units();
        if self.hdma_active && before != after && after == PpuMode::HBlank {
            self.hdma_chunk();
            self.hdma_elapse();
        }
        let ghost pre = *self;
        self.run_counters();
        proof {
            let f = pre.IF;
            let t0 = old(self).timer;
            assert(((f | 8u8) | 4u8) & 4u8 != 0 && (f | 4u8) & 4u8 != 0) by (bit_vector);
            assert(((f | 8u8) | 4u8) & 8u8 != 0 && (f | 8u8) & 8u8 != 0) by (bit_vector);
            assert(timer_steps(t0, 0) == t0);
            assert(timer_steps(t0, 1) == timer_step(t0).0);
            assert(timer_steps(t0, 33) == timer_step(timer_steps(t0, 32)).0);
        }
    }
}

/// A read at `a` sees the same value in two states that differ only in the
/// collaborators and in video-RAM bytes other than the one at `a`.
proof fn lemma_read_value_vram_frame<P: Ppu, A: Apu>(m1: Memory<P, A>, m2: Memory<P, A>, a: u16)
    requires
        m2 == (Memory { vram: m2.vram, ppu: m2.ppu, apu: m2.apu, ..m1 }),
        0x8000 <= a <= 0x9FFF ==> m2.vram@[m1.vram_index(a)] == m1.vram@[m1.vram_index(a)],
    ensures
        m1.read_value(a) == m2.read_value(a),
{
}

/// A read at `a` sees the same value in two states that differ only in the
/// collaborators and in sprite-memory bytes other than the one at `a`.
proof fn lemma_read_value_frame<P: Ppu, A: Apu>(m1: Memory<P, A>, m2: Memory<P, A>, a: u16)
    requires
        m2 == (Memory { OAM: m2.OAM, ppu: m2.ppu, apu: m2.apu, ..m1 }),
        0xFE00 <= a <= 0xFE9F ==> m2.OAM@[a - 0xFE00] == m1.OAM@[a - 0xFE00],
    ensures
        m1.read_value(a) == m2.read_value(a),
{
}

/// On a well-formed bus, reads of IF and IER always show their three unused
/// high bits set, whatever was written to them.
pub proof fn lemma_interrupt_registers_read_high_bits<P: Ppu, A: Apu>(m: Memory<P, A>)
    requires
        m.wf(),
    ensures
        m.read_value(0xFF0F) is Some && m.read_value(0xFF0F).unwrap() & IRQ_UNUSED_BITS
            == IRQ_UNUSED_BITS,
        m.read_value(0xFFFF) is Some && m.read_value(0xFFFF).unwrap() & IRQ_UNUSED_BITS
            == IRQ_UNUSED_BITS,
{
}

} // verus!
