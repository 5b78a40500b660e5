use vstd::prelude::*;
use vstd::arithmetic::power2::{pow2, lemma2_to64};
use crate::error::LoadError;

verus! {

/// Offset of the cartridge-type byte in the header.
pub const CART_TYPE_OFFSET: usize = 0x147;
/// Offset of the ROM-size code in the header.
pub const ROM_SIZE_OFFSET: usize = 0x148;
/// Offset of the RAM-size code in the header.
pub const RAM_SIZE_OFFSET: usize = 0x149;
/// Smallest image that holds the whole header region.
pub const HEADER_END: usize = 0x150;

/// The four operations every bank controller offers. ROM addresses are
/// relative to the start of the cartridge ROM window (0x0000..=0x7FFF),
/// RAM addresses to the start of the external RAM window.
pub trait MemoryBankController {
    fn read_rom(&mut self, addr: u16) -> (r: u8)
        requires
            addr <= 0x7FFF,
    ;

    fn write_rom(&mut self, addr: u16, val: u8)
        requires
            addr <= 0x7FFF,
    ;

    fn read_ram(&mut self, addr: u16) -> (r: u8);

    fn write_ram(&mut self, addr: u16, val: u8);
}

/// Size in bytes that a ROM-size code declares, when the code is valid.
pub open spec fn declared_rom_size(code: u8) -> Option<nat> {
    if code < 9 {
        Some(32768 * pow2(code as nat))
    } else {
        None
    }
}

/// Size in bytes that a RAM-size code declares, when the code is known.
pub open spec fn declared_ram_size(code: u8) -> Option<nat> {
    if code == 0 {
        Some(0)
    } else if code == 1 {
        Some(2048)
    } else if code == 2 {
        Some(8192)
    } else if code == 3 {
        Some(32768)
    } else if code == 4 {
        Some(131072)
    } else if code == 5 {
        Some(65536)
    } else {
        None
    }
}

/// The ROM size that a header code declares.
pub fn rom_size(val: u8) -> (r: Result<usize, LoadError>)
    ensures
        match r {
            Ok(n) => declared_rom_size(val) == Some(n as nat),
            Err(e) => declared_rom_size(val).is_none() && e == LoadError::InvalidRomSize,
        },
{
    proof {
        lemma2_to64();
    }
    if val == 0 {
        Ok(32768)
    } else if val == 1 {
        Ok(65536)
    } else if val == 2 {
        Ok(131072)
    } else if val == 3 {
        Ok(262144)
    } else if val == 4 {
        Ok(524288)
    } else if val == 5 {
        Ok(1048576)
    } else if val == 6 {
        Ok(2097152)
    } else if val == 7 {
        Ok(4194304)
    } else if val == 8 {
        Ok(8388608)
    } else {
        Err(LoadError::InvalidRomSize)
    }
}

/// The RAM size that a header code declares.
pub fn ram_size(val: u8) -> (r: Result<usize, LoadError>)
    ensures
        match r {
            Ok(n) => declared_ram_size(val) == Some(n as nat),
            Err(e) => declared_ram_size(val).is_none() && e == LoadError::InvalidRamSize,
        },
{
    if val == 0 {
        Ok(0)
    } else if val == 1 {
        Ok(2048)
    } else if val == 2 {
        Ok(8192)
    } else if val == 3 {
        Ok(32768)
    } else if val == 4 {
        Ok(131072)
    } else if val == 5 {
        Ok(65536)
    } else {
        Err(LoadError::InvalidRamSize)
    }
}

/// The byte at `i` of `s`, or `fallback` when `i` lies outside `s`.
pub open spec fn byte_or(s: Seq<u8>, i: int, fallback: u8) -> u8 {
    if 0 <= i < s.len() {
        s[i]
    } else {
        fallback
    }
}

/// Reads `v[i]`, or `fallback` when `i` is out of range.
fn get_or(v: &Vec<u8>, i: usize, fallback: u8) -> (r: u8)
    ensures
        r == byte_or(v@, i as int, fallback),
{
    if i < v.len() {
        v[i]
    } else {
        fallback
    }
}

/// Stores `val` at `v[i]` when `i` is in range; otherwise leaves `v` as it is.
fn set_if_in(v: &mut Vec<u8>, i: usize, val: u8)
    ensures
        i < old(v)@.len() ==> final(v)@ == old(v)@.update(i as int, val),
        i >= old(v)@.len() ==> final(v)@ == old(v)@,
{
    if i < v.len() {
        v.set(i, val);
    }
}

/// The controller an empty cartridge holds: ROM reads pass through where the
/// image has bytes, everything else reads 0 and all writes are ignored.
#[allow(non_camel_case_types)]
pub struct dummyMBC {
    pub rom: Vec<u8>,
}

impl dummyMBC {
    /// Writes to the ROM window change nothing.
    pub open spec fn after_write_rom(&self, next: Self, addr: u16, val: u8) -> bool {
        next == *self
    }

    /// Writes to the RAM window change nothing.
    pub open spec fn after_write_ram(&self, next: Self, addr: u16, val: u8) -> bool {
        next == *self
    }

    pub fn new(data: Vec<u8>) -> (r: Box<dummyMBC>)
        ensures
            r.rom@ == data@,
    {
        Box::new(dummyMBC { rom: data })
    }
}

impl MemoryBankController for dummyMBC {
    fn read_rom(&mut self, addr: u16) -> (r: u8)
        ensures
            r == byte_or(old(self).rom@, addr as int, 0),
            *final(self) == *old(self),
    {
        get_or(&self.rom, addr as usize, 0)
    }

    fn write_rom(&mut self, addr: u16, val: u8)
        ensures
            old(self).after_write_rom(*final(self), addr, val),
    {
    }

    fn read_ram(&mut self, addr: u16) -> (r: u8)
        ensures
            r == 0,
            *final(self) == *old(self),
    {
        0
    }

    fn write_ram(&mut self, addr: u16, val: u8)
        ensures
            old(self).after_write_ram(*final(self), addr, val),
    {
    }
}

/// A cartridge without banking: the 32KB window maps the image directly,
/// and there is no external RAM (it reads 0xFF).
#[allow(non_camel_case_types)]
pub struct noMBC {
    pub rom: Vec<u8>,
}

impl noMBC {
    /// Writes to the ROM window change nothing.
    pub open spec fn after_write_rom(&self, next: Self, addr: u16, val: u8) -> bool {
        next == *self
    }

    /// Writes to the RAM window change nothing.
    pub open spec fn after_write_ram(&self, next: Self, addr: u16, val: u8) -> bool {
        next == *self
    }

    pub fn new(data: Vec<u8>) -> (r: Box<noMBC>)
        ensures
            r.rom@ == data@,
    {
        Box::new(noMBC { rom: data })
    }
}

impl MemoryBankController for noMBC {
    fn read_rom(&mut self, addr: u16) -> (r: u8)
        ensures
            r == byte_or(old(self).rom@, addr as int, 0xFF),
            *final(self) == *old(self),
    {
        get_or(&self.rom, addr as usize, 0xFF)
    }

    fn write_rom(&mut self, addr: u16, val: u8)
        ensures
            old(self).after_write_rom(*final(self), addr, val),
    {
    }

    fn read_ram(&mut self, addr: u16) -> (r: u8)
        ensures
            r == 0xFF,
            *final(self) == *old(self),
    {
        0xFF
    }

    fn write_ram(&mut self, addr: u16, val: u8)
        ensures
            old(self).after_write_ram(*final(self), addr, val),
    {
    }
}

/// Largest external RAM an MBC1 cartridge can address.
pub const MBC1_MAX_RAM_SIZE: usize = 32 * 1024;

/// MBC1: up to 2MB ROM and 32KB RAM, selected through a 7-bit composite bank
/// register (5 low bits from 0x2000..=0x3FFF, 2 high bits from 0x4000..=0x5FFF).
pub struct MBC1 {
    pub rom: Vec<u8>,
    pub ram: Vec<u8>,
    pub ram_enabled: bool,
    pub bank: u8,
    /// false: ROM banking, true: RAM banking.
    pub banking_mode: bool,
    pub battery: bool,
}

/// The low 5 bits that a write to the ROM-bank register stores: 0 becomes 1.
pub open spec fn mbc1_low_bits(val: u8) -> u8 {
    if val & 0x1F == 0 {
        1
    } else {
        val & 0x1F
    }
}

/// The bank register after a write of `val` to 0x2000..=0x3FFF.
pub open spec fn mbc1_select_low(bank: u8, val: u8) -> u8 {
    (bank & 0xE0) | mbc1_low_bits(val)
}

impl MBC1 {
    /// The state a freshly built controller has over the image `data`.
    pub open spec fn is_fresh(&self, data: Seq<u8>) -> bool {
        &&& self.rom@ == data
        &&& self.ram@ == Seq::new(declared_ram_size(data[0x149]).unwrap(), |i: int| 0u8)
        &&& !self.ram_enabled
        &&& self.bank == 1
        &&& !self.banking_mode
        &&& self.battery == (data[0x147] == 0x03)
    }

    /// The controller state `next` follows from this one by a write of `val`
    /// at `addr` in the ROM window.
    pub open spec fn after_write_rom(&self, next: Self, addr: u16, val: u8) -> bool {
        &&& next.rom == self.rom
        &&& next.ram == self.ram
        &&& next.battery == self.battery
        &&& next.ram_enabled == if addr <= 0x1FFF {
            val == 0x0A
        } else {
            self.ram_enabled
        }
        &&& next.bank == if 0x2000 <= addr <= 0x3FFF {
            mbc1_select_low(self.bank, val)
        } else if 0x4000 <= addr <= 0x5FFF {
            ((val & 0x03) << 5u8) | (self.bank & 0x1F)
        } else {
            self.bank
        }
        &&& next.banking_mode == if 0x6000 <= addr {
            val & 0x01 == 1
        } else {
            self.banking_mode
        }
        &&& self.wf() ==> next.wf()
    }

    /// The controller state `next` follows from this one by a write of `val`
    /// at `addr` in the RAM window.
    pub open spec fn after_write_ram(&self, next: Self, addr: u16, val: u8) -> bool {
        &&& next.ram@ == if self.ram_enabled && 0 <= self.ram_index(addr) < self.ram@.len() {
            self.ram@.update(self.ram_index(addr), val)
        } else {
            self.ram@
        }
        &&& next.rom == self.rom
        &&& next.ram_enabled == self.ram_enabled
        &&& next.bank == self.bank
        &&& next.banking_mode == self.banking_mode
        &&& next.battery == self.battery
    }

    /// The bank register never selects 0 in its low 5 bits and has 7 bits.
    pub open spec fn wf(&self) -> bool {
        self.bank & 0x1F != 0 && self.bank & 0x80 == 0
    }

    /// The bank mapped at 0x4000..=0x7FFF.
    pub open spec fn upper_bank(&self) -> int {
        if self.banking_mode {
            (self.bank & 0x1F) as int
        } else {
            self.bank as int
        }
    }

    /// The RAM bank mapped into the external RAM window.
    pub open spec fn ram_bank(&self) -> int {
        if self.banking_mode {
            ((self.bank & 0x60) >> 5u8) as int
        } else {
            0
        }
    }

    pub open spec fn rom_index(&self, addr: u16) -> int {
        if addr < 0x4000 {
            addr as int
        } else {
            (addr - 0x4000) + 0x4000 * self.upper_bank()
        }
    }

    pub open spec fn ram_index(&self, addr: u16) -> int {
        addr + 0x2000 * self.ram_bank()
    }

    pub fn new(data: Vec<u8>) -> (r: Result<Box<MBC1>, LoadError>)
        requires
            data@.len() > 0x149,
        ensures
            match r {
                Ok(m) => {
                    &&& m.is_fresh(data@)
                    &&& declared_ram_size(data@[0x149]) is Some
                    &&& declared_ram_size(data@[0x149]).unwrap() <= MBC1_MAX_RAM_SIZE
                    &&& declared_rom_size(data@[0x148]) == Some(data@.len())
                    &&& m.rom@ == data@
                    &&& m.ram@ == Seq::new(declared_ram_size(data@[0x149]).unwrap(), |i: int| 0u8)
                    &&& !m.ram_enabled
                    &&& m.bank == 1
                    &&& !m.banking_mode
                    &&& m.battery == (data@[0x147] == 0x03)
                    &&& m.wf()
                },
                Err(e) => e == mbc_size_error(data@, MBC1_MAX_RAM_SIZE as nat).unwrap(),
            },
            r is Ok <==> mbc_size_error(data@, MBC1_MAX_RAM_SIZE as nat) is None,
    {
        let ram_s = match ram_size(data[RAM_SIZE_OFFSET]) {
            Ok(n) => n,
            Err(e) => return Err(e),
        };
        let rom_s = match rom_size(data[ROM_SIZE_OFFSET]) {
            Ok(n) => n,
            Err(e) => return Err(e),
        };
        let bat = data[CART_TYPE_OFFSET] == 0x03;
        if ram_s > MBC1_MAX_RAM_SIZE {
            return Err(LoadError::RamTooLarge);
        }
        if rom_s != data.len() {
            return Err(LoadError::RomSizeMismatch);
        }
        let ram = vec![0u8; ram_s];
        assert(ram@ =~= Seq::new(ram_s as nat, |i: int| 0u8));
        proof {
            assert(1u8 & 0x1F != 0 && 1u8 & 0x80 == 0) by (bit_vector);
        }
        Ok(Box::new(MBC1 { rom: data, ram, ram_enabled: false, bank: 1, banking_mode: false, battery: bat }))
    }
}

/// The first size check of the header that fails for a banked controller
/// whose RAM may be at most `max_ram` bytes, in the order RAM code, ROM code,
/// RAM limit, ROM length.
pub open spec fn mbc_size_error(data: Seq<u8>, max_ram: nat) -> Option<LoadError> {
    if declared_ram_size(data[0x149]) is None {
        Some(LoadError::InvalidRamSize)
    } else if declared_rom_size(data[0x148]) is None {
        Some(LoadError::InvalidRomSize)
    } else if declared_ram_size(data[0x149]).unwrap() > max_ram {
        Some(LoadError::RamTooLarge)
    } else if declared_rom_size(data[0x148]).unwrap() != data.len() {
        Some(LoadError::RomSizeMismatch)
    } else {
        None
    }
}

impl MemoryBankController for MBC1 {
    fn read_rom(&mut self, addr: u16) -> (r: u8)
        ensures
            r == byte_or(old(self).rom@, old(self).rom_index(addr), 0xFF),
            *final(self) == *old(self),
    {
        if addr < 0x4000 {
            get_or(&self.rom, addr as usize, 0xFF)
        } else {
            let bank: usize = if self.banking_mode {
                (self.bank & 0x1F) as usize
            } else {
                self.bank as usize
            };
            get_or(&self.rom, (addr - 0x4000) as usize + 0x4000 * bank, 0xFF)
        }
    }

    fn write_rom(&mut self, addr: u16, val: u8)
        ensures
            old(self).after_write_rom(*final(self), addr, val),
    {
        if addr <= 0x1FFF {
            self.ram_enabled = val == 0x0A;
        } else if addr <= 0x3FFF {
            let low: u8 = if val & 0x1F == 0 {
                1
            } else {
                val & 0x1F
            };
            let b = self.bank;
            assert(b & 0x80 == 0 && val & 0x1F != 0 ==> ((b & 0xE0) | (val & 0x1F)) & 0x1F != 0
                && ((b & 0xE0) | (val & 0x1F)) & 0x80 == 0) by (bit_vector);
            assert(b & 0x80 == 0 ==> ((b & 0xE0) | 1u8) & 0x1F != 0 && ((b & 0xE0) | 1u8) & 0x80
                == 0) by (bit_vector);
            self.bank = (b & 0xE0) | low;
        } else if addr <= 0x5FFF {
            let b = self.bank;
            assert(b & 0x1F != 0 ==> (((val & 0x03) << 5u8) | (b & 0x1F)) & 0x1F != 0 && (((val
                & 0x03) << 5u8) | (b & 0x1F)) & 0x80 == 0) by (bit_vector);
            self.bank = ((val & 0x03) << 5u8) | (b & 0x1F);
        } else {
            self.banking_mode = val & 0x01 == 1;
        }
    }

    fn read_ram(&mut self, addr: u16) -> (r: u8)
        ensures
            r == if old(self).ram_enabled {
                byte_or(old(self).ram@, old(self).ram_index(addr), 0xFF)
            } else {
                0xFF
            },
            *final(self) == *old(self),
    {
        if self.ram_enabled {
            let bank: usize = if self.banking_mode {
                ((self.bank & 0x60) >> 5u8) as usize
            } else {
                0
            };
            get_or(&self.ram, addr as usize + 0x2000 * bank, 0xFF)
        } else {
            0xFF
        }
    }

    fn write_ram(&mut self, addr: u16, val: u8)
        ensures
            old(self).after_write_ram(*final(self), addr, val),
    {
        if self.ram_enabled {
            let bank: usize = if self.banking_mode {
                ((self.bank & 0x60) >> 5u8) as usize
            } else {
                0
            };
            set_if_in(&mut self.ram, addr as usize + 0x2000 * bank, val);
        }
    }
}

/// Size of the MBC2's built-in 4-bit RAM.
pub const MBC2_RAM_SIZE: usize = 512;

/// MBC2: up to 256KB ROM through a 4-bit bank register, and 512 half-bytes of
/// RAM inside the controller.
pub struct MBC2 {
    pub rom: Vec<u8>,
    pub ram: Vec<u8>,
    pub ram_enabled: bool,
    pub bank: u8,
}

/// The ROM bank that a write to the MBC2 bank register selects: 0 becomes 1.
pub open spec fn mbc2_bank_of(val: u8) -> u8 {
    if val & 0x0F == 0 {
        1
    } else {
        val & 0x0F
    }
}

impl MBC2 {
    /// The state a freshly built controller has over the image `data`.
    pub open spec fn is_fresh(&self, data: Seq<u8>) -> bool {
        &&& self.rom@ == data
        &&& self.ram@ == Seq::new(MBC2_RAM_SIZE as nat, |i: int| 0u8)
        &&& !self.ram_enabled
        &&& self.bank == 1
    }

    /// The controller state `next` follows from this one by a write of `val`
    /// at `addr` in the ROM window.
    pub open spec fn after_write_rom(&self, next: Self, addr: u16, val: u8) -> bool {
        &&& next.rom == self.rom
        &&& next.ram == self.ram
        &&& next.ram_enabled == if addr <= 0x3FFF && addr & 0x0100 == 0 {
            val & 0x0F == 0x0A
        } else {
            self.ram_enabled
        }
        &&& next.bank == if addr <= 0x3FFF && addr & 0x0100 != 0 {
            mbc2_bank_of(val)
        } else {
            self.bank
        }
        &&& self.wf() ==> next.wf()
    }

    /// The controller state `next` follows from this one by a write of `val`
    /// at `addr` in the RAM window.
    pub open spec fn after_write_ram(&self, next: Self, addr: u16, val: u8) -> bool {
        &&& next.ram@ == if addr <= 0x01FF && (addr as int) < self.ram@.len() {
            self.ram@.update(addr as int, val & 0x0F)
        } else {
            self.ram@
        }
        &&& next.rom == self.rom
        &&& next.ram_enabled == self.ram_enabled
        &&& next.bank == self.bank
    }

    /// The built-in RAM has its fixed size and the bank register is 1..=15.
    pub open spec fn wf(&self) -> bool {
        &&& self.ram@.len() == MBC2_RAM_SIZE
        &&& 1 <= self.bank <= 15
    }

    pub open spec fn rom_index(&self, addr: u16) -> int {
        if addr < 0x4000 {
            addr as int
        } else {
            (addr - 0x4000) + 0x4000 * self.bank
        }
    }

    pub fn new(data: Vec<u8>) -> (r: Result<Box<MBC2>, LoadError>)
        requires
            data@.len() > 0x148,
        ensures
            match r {
                Ok(m) => {
                    &&& m.is_fresh(data@)
                    &&& declared_rom_size(data@[0x148]) == Some(data@.len())
                    &&& m.rom@ == data@
                    &&& m.ram@ == Seq::new(MBC2_RAM_SIZE as nat, |i: int| 0u8)
                    &&& !m.ram_enabled
                    &&& m.bank == 1
                    &&& m.wf()
                },
                Err(e) => if declared_rom_size(data@[0x148]) is None {
                    e == LoadError::InvalidRomSize
                } else {
                    e == LoadError::RomSizeMismatch
                },
            },
            r is Ok <==> declared_rom_size(data@[0x148]) == Some(data@.len()),
    {
        let rom_s = match rom_size(data[ROM_SIZE_OFFSET]) {
            Ok(n) => n,
            Err(e) => return Err(e),
        };
        if rom_s != data.len() {
            return Err(LoadError::RomSizeMismatch);
        }
        let ram = vec![0u8; MBC2_RAM_SIZE];
        assert(ram@ =~= Seq::new(MBC2_RAM_SIZE as nat, |i: int| 0u8));
        Ok(Box::new(MBC2 { rom: data, ram, ram_enabled: false, bank: 1 }))
    }
}

impl MemoryBankController for MBC2 {
    fn read_rom(&mut self, addr: u16) -> (r: u8)
        ensures
            r == byte_or(old(self).rom@, old(self).rom_index(addr), 0xFF),
            *final(self) == *old(self),
    {
        if addr < 0x4000 {
            get_or(&self.rom, addr as usize, 0xFF)
        } else {
            get_or(&self.rom, (addr - 0x4000) as usize + 0x4000 * (self.bank as usize), 0xFF)
        }
    }

    /// Below 0x4000, address bit 8 tells the two registers apart: clear
    /// selects the RAM-enable latch, set the ROM bank register.
    fn write_rom(&mut self, addr: u16, val: u8)
        ensures
            old(self).after_write_rom(*final(self), addr, val),
    {
        if addr <= 0x3FFF {
            if addr & 0x0100 == 0 {
                self.ram_enabled = val & 0x0F == 0x0A;
            } else {
                let b: u8 = val & 0x0F;
                assert(val & 0x0F <= 15) by (bit_vector);
                self.bank = if b == 0 {
                    1
                } else {
                    b
                };
            }
        }
    }

    fn read_ram(&mut self, addr: u16) -> (r: u8)
        ensures
            r == if addr <= 0x01FF {
                byte_or(old(self).ram@, addr as int, 1)
            } else {
                1
            },
            *final(self) == *old(self),
    {
        if addr <= 0x01FF {
            get_or(&self.ram, addr as usize, 1)
        } else {
            1
        }
    }

    fn write_ram(&mut self, addr: u16, val: u8)
        ensures
            old(self).after_write_ram(*final(self), addr, val),
    {
        if addr <= 0x01FF {
            set_if_in(&mut self.ram, addr as usize, val & 0x0F);
        }
    }
}

/// Largest external RAM an MBC3 cartridge can address.
pub const MBC3_MAX_RAM_SIZE: usize = 32 * 1024;
/// Number of clock registers (seconds, minutes, hours, day low, day high).
pub const MBC3_RTC_REGS: usize = 5;

/// MBC3: up to 2MB ROM through a 7-bit bank register, up to 32KB RAM in four
/// banks, and clock registers that share the RAM window (selected by 0x08..=0x0C).
/// The clock registers hold what was written to them; nothing advances them.
pub struct MBC3 {
    pub rom: Vec<u8>,
    pub ram: Vec<u8>,
    pub rtc: Vec<u8>,
    pub ram_enabled: bool,
    pub rom_bank: u8,
    pub ram_select: u8,
    pub battery: bool,
}

/// The ROM bank that a write to the MBC3 bank register selects: 0 becomes 1.
pub open spec fn mbc3_bank_of(val: u8) -> u8 {
    if val & 0x7F == 0 {
        1
    } else {
        val & 0x7F
    }
}

impl MBC3 {
    /// The state a freshly built controller has over the image `data`.
    pub open spec fn is_fresh(&self, data: Seq<u8>) -> bool {
        &&& self.rom@ == data
        &&& self.ram@ == Seq::new(declared_ram_size(data[0x149]).unwrap(), |i: int| 0u8)
        &&& self.rtc@ == Seq::new(MBC3_RTC_REGS as nat, |i: int| 0u8)
        &&& !self.ram_enabled
        &&& self.rom_bank == 1
        &&& self.ram_select == 0
        &&& self.battery == (data[0x147] == 0x0F || data[0x147] == 0x10 || data[0x147] == 0x13)
    }

    /// The controller state `next` follows from this one by a write of `val`
    /// at `addr` in the ROM window.
    pub open spec fn after_write_rom(&self, next: Self, addr: u16, val: u8) -> bool {
        &&& next.rom == self.rom
        &&& next.ram == self.ram
        &&& next.rtc == self.rtc
        &&& next.battery == self.battery
        &&& next.ram_enabled == if addr <= 0x1FFF {
            val & 0x0F == 0x0A
        } else {
            self.ram_enabled
        }
        &&& next.rom_bank == if 0x2000 <= addr <= 0x3FFF {
            mbc3_bank_of(val)
        } else {
            self.rom_bank
        }
        &&& next.ram_select == if 0x4000 <= addr <= 0x5FFF && (val <= 0x03 || 0x08 <= val
            <= 0x0C) {
            val
        } else {
            self.ram_select
        }
    }

    /// The controller state `next` follows from this one by a write of `val`
    /// at `addr` in the RAM window.
    pub open spec fn after_write_ram(&self, next: Self, addr: u16, val: u8) -> bool {
        &&& next.rom == self.rom
        &&& next.ram_enabled == self.ram_enabled
        &&& next.rom_bank == self.rom_bank
        &&& next.ram_select == self.ram_select
        &&& next.battery == self.battery
        &&& next.ram@ == if self.ram_enabled && self.ram_select <= 3 && addr + 0x2000
            * self.ram_select < self.ram@.len() {
            self.ram@.update(addr + 0x2000 * self.ram_select, val)
        } else {
            self.ram@
        }
        &&& next.rtc@ == if self.ram_enabled && 0x08 <= self.ram_select <= 0x0C
            && self.ram_select - 0x08 < self.rtc@.len() {
            self.rtc@.update(self.ram_select - 0x08, val)
        } else {
            self.rtc@
        }
    }

    pub open spec fn rom_index(&self, addr: u16) -> int {
        if addr < 0x4000 {
            addr as int
        } else {
            (addr - 0x4000) + 0x4000 * self.rom_bank
        }
    }

    /// What the RAM window reads at `addr`.
    pub open spec fn ram_value(&self, addr: u16) -> u8 {
        if !self.ram_enabled {
            0xFF
        } else if self.ram_select <= 3 {
            byte_or(self.ram@, addr + 0x2000 * self.ram_select, 0xFF)
        } else if 0x08 <= self.ram_select <= 0x0C {
            byte_or(self.rtc@, self.ram_select - 0x08, 0xFF)
        } else {
            0xFF
        }
    }

    pub fn new(data: Vec<u8>) -> (r: Result<Box<MBC3>, LoadError>)
        requires
            data@.len() > 0x149,
        ensures
            match r {
                Ok(m) => {
                    &&& m.is_fresh(data@)
                    &&& m.rom@ == data@
                    &&& m.ram@ == Seq::new(declared_ram_size(data@[0x149]).unwrap(), |i: int| 0u8)
                    &&& m.rtc@ == Seq::new(MBC3_RTC_REGS as nat, |i: int| 0u8)
                    &&& !m.ram_enabled
                    &&& m.rom_bank == 1
                    &&& m.ram_select == 0
                    &&& m.battery == (data@[0x147] == 0x0F || data@[0x147] == 0x10 || data@[0x147]
                        == 0x13)
                },
                Err(e) => e == mbc_size_error(data@, MBC3_MAX_RAM_SIZE as nat).unwrap(),
            },
            r is Ok <==> mbc_size_error(data@, MBC3_MAX_RAM_SIZE as nat) is None,
    {
        let ram_s = match ram_size(data[RAM_SIZE_OFFSET]) {
            Ok(n) => n,
            Err(e) => return Err(e),
        };
        let rom_s = match rom_size(data[ROM_SIZE_OFFSET]) {
            Ok(n) => n,
            Err(e) => return Err(e),
        };
        let t = data[CART_TYPE_OFFSET];
        if ram_s > MBC3_MAX_RAM_SIZE {
            return Err(LoadError::RamTooLarge);
        }
        if rom_s != data.len() {
            return Err(LoadError::RomSizeMismatch);
        }
        let ram = vec![0u8; ram_s];
        let rtc = vec![0u8; MBC3_RTC_REGS];
        assert(ram@ =~= Seq::new(ram_s as nat, |i: int| 0u8));
        assert(rtc@ =~= Seq::new(MBC3_RTC_REGS as nat, |i: int| 0u8));
        Ok(
            Box::new(
                MBC3 {
                    rom: data,
                    ram,
                    rtc,
                    ram_enabled: false,
                    rom_bank: 1,
                    ram_select: 0,
                    battery: t == 0x0F || t == 0x10 || t == 0x13,
                },
            ),
        )
    }
}

impl MemoryBankController for MBC3 {
    fn read_rom(&mut self, addr: u16) -> (r: u8)
        ensures
            r == byte_or(old(self).rom@, old(self).rom_index(addr), 0xFF),
            *final(self) == *old(self),
    {
        if addr < 0x4000 {
            get_or(&self.rom, addr as usize, 0xFF)
        } else {
            get_or(&self.rom, (addr - 0x4000) as usize + 0x4000 * (self.rom_bank as usize), 0xFF)
        }
    }

    fn write_rom(&mut self, addr: u16, val: u8)
        ensures
            old(self).after_write_rom(*final(self), addr, val),
    {
        if addr <= 0x1FFF {
            self.ram_enabled = val & 0x0F == 0x0A;
        } else if addr <= 0x3FFF {
            let b: u8 = val & 0x7F;
            self.rom_bank = if b == 0 {
                1
            } else {
                b
            };
        } else if addr <= 0x5FFF {
            if val <= 0x03 || (0x08 <= val && val <= 0x0C) {
                self.ram_select = val;
            }
        }
    }

    fn read_ram(&mut self, addr: u16) -> (r: u8)
        ensures
            r == old(self).ram_value(addr),
            *final(self) == *old(self),
    {
        if !self.ram_enabled {
            0xFF
        } else if self.ram_select <= 3 {
            get_or(&self.ram, addr as usize + 0x2000 * (self.ram_select as usize), 0xFF)
        } else if 0x08 <= self.ram_select && self.ram_select <= 0x0C {
            get_or(&self.rtc, (self.ram_select - 0x08) as usize, 0xFF)
        } else {
            0xFF
        }
    }

    fn write_ram(&mut self, addr: u16, val: u8)
        ensures
            old(self).after_write_ram(*final(self), addr, val),
    {
        if self.ram_enabled {
            if self.ram_select <= 3 {
                set_if_in(&mut self.ram, addr as usize + 0x2000 * (self.ram_select as usize), val);
            } else if 0x08 <= self.ram_select && self.ram_select <= 0x0C {
                set_if_in(&mut self.rtc, (self.ram_select - 0x08) as usize, val);
            }
        }
    }
}

/// Largest external RAM an MBC5 cartridge can address.
pub const MBC5_MAX_RAM_SIZE: usize = 128 * 1024;

/// MBC5: up to 8MB ROM through a 9-bit bank register (bank 0 allowed in the
/// upper window) and up to 128KB RAM in sixteen banks.
pub struct MBC5 {
    pub rom: Vec<u8>,
    pub ram: Vec<u8>,
    pub ram_enabled: bool,
    pub rom_bank: u16,
    pub ram_bank: u8,
    pub battery: bool,
}

impl MBC5 {
    /// The state a freshly built controller has over the image `data`.
    pub open spec fn is_fresh(&self, data: Seq<u8>) -> bool {
        &&& self.rom@ == data
        &&& self.ram@ == Seq::new(declared_ram_size(data[0x149]).unwrap(), |i: int| 0u8)
        &&& !self.ram_enabled
        &&& self.rom_bank == 1
        &&& self.ram_bank == 0
        &&& self.battery == (data[0x147] == 0x1B || data[0x147] == 0x1E)
    }

    /// The controller state `next` follows from this one by a write of `val`
    /// at `addr` in the ROM window.
    pub open spec fn after_write_rom(&self, next: Self, addr: u16, val: u8) -> bool {
        &&& next.rom == self.rom
        &&& next.ram == self.ram
        &&& next.battery == self.battery
        &&& next.ram_enabled == if addr <= 0x1FFF {
            val & 0x0F == 0x0A
        } else {
            self.ram_enabled
        }
        &&& next.rom_bank == if 0x2000 <= addr <= 0x2FFF {
            (self.rom_bank & 0x100) | (val as u16)
        } else if 0x3000 <= addr <= 0x3FFF {
            (self.rom_bank & 0xFF) | (((val & 0x01) as u16) << 8u16)
        } else {
            self.rom_bank
        }
        &&& next.ram_bank == if 0x4000 <= addr <= 0x5FFF {
            val & 0x0F
        } else {
            self.ram_bank
        }
        &&& self.wf() ==> next.wf()
    }

    /// The controller state `next` follows from this one by a write of `val`
    /// at `addr` in the RAM window.
    pub open spec fn after_write_ram(&self, next: Self, addr: u16, val: u8) -> bool {
        &&& next.ram@ == if self.ram_enabled && self.ram_index(addr) < self.ram@.len() {
            self.ram@.update(self.ram_index(addr), val)
        } else {
            self.ram@
        }
        &&& next.rom == self.rom
        &&& next.ram_enabled == self.ram_enabled
        &&& next.rom_bank == self.rom_bank
        &&& next.ram_bank == self.ram_bank
        &&& next.battery == self.battery
    }

    /// The ROM bank register has 9 bits and the RAM bank register 4.
    pub open spec fn wf(&self) -> bool {
        self.rom_bank < 0x200 && self.ram_bank < 0x10
    }

    pub open spec fn rom_index(&self, addr: u16) -> int {
        if addr < 0x4000 {
            addr as int
        } else {
            (addr - 0x4000) + 0x4000 * self.rom_bank
        }
    }

    pub open spec fn ram_index(&self, addr: u16) -> int {
        addr + 0x2000 * self.ram_bank
    }

    pub fn new(data: Vec<u8>) -> (r: Result<Box<MBC5>, LoadError>)
        requires
            data@.len() > 0x149,
        ensures
            match r {
                Ok(m) => {
                    &&& m.is_fresh(data@)
                    &&& m.rom@ == data@
                    &&& m.ram@ == Seq::new(declared_ram_size(data@[0x149]).unwrap(), |i: int| 0u8)
                    &&& !m.ram_enabled
                    &&& m.rom_bank == 1
                    &&& m.ram_bank == 0
                    &&& m.battery == (data@[0x147] == 0x1B || data@[0x147] == 0x1E)
                    &&& m.wf()
                },
                Err(e) => e == mbc_size_error(data@, MBC5_MAX_RAM_SIZE as nat).unwrap(),
            },
            r is Ok <==> mbc_size_error(data@, MBC5_MAX_RAM_SIZE as nat) is None,
    {
        let ram_s = match ram_size(data[RAM_SIZE_OFFSET]) {
            Ok(n) => n,
            Err(e) => return Err(e),
        };
        let rom_s = match rom_size(data[ROM_SIZE_OFFSET]) {
            Ok(n) => n,
            Err(e) => return Err(e),
        };
        let t = data[CART_TYPE_OFFSET];
        if ram_s > MBC5_MAX_RAM_SIZE {
            return Err(LoadError::RamTooLarge);
        }
        if rom_s != data.len() {
            return Err(LoadError::RomSizeMismatch);
        }
        let ram = vec![0u8; ram_s];
        assert(ram@ =~= Seq::new(ram_s as nat, |i: int| 0u8));
        Ok(
            Box::new(
                MBC5 {
                    rom: data,
                    ram,
                    ram_enabled: false,
                    rom_bank: 1,
                    ram_bank: 0,
                    battery: t == 0x1B || t == 0x1E,
                },
            ),
        )
    }
}

impl MemoryBankController for MBC5 {
    fn read_rom(&mut self, addr: u16) -> (r: u8)
        ensures
            r == byte_or(old(self).rom@, old(self).rom_index(addr), 0xFF),
            *final(self) == *old(self),
    {
        if addr < 0x4000 {
            get_or(&self.rom, addr as usize, 0xFF)
        } else {
            get_or(&self.rom, (addr - 0x4000) as usize + 0x4000 * (self.rom_bank as usize), 0xFF)
        }
    }

    fn write_rom(&mut self, addr: u16, val: u8)
        ensures
            old(self).after_write_rom(*final(self), addr, val),
    {
        if addr <= 0x1FFF {
            self.ram_enabled = val & 0x0F == 0x0A;
        } else if addr <= 0x2FFF {
            let b = self.rom_bank;
            assert((b & 0x100) | (val as u16) < 0x200) by (bit_vector);
            self.rom_bank = (b & 0x100) | (val as u16);
        } else if addr <= 0x3FFF {
            let b = self.rom_bank;
            let hi: u16 = (val & 0x01) as u16;
            assert(hi <= 1 ==> (b & 0xFF) | (hi << 8u16) < 0x200) by (bit_vector);
            assert(val & 0x01 <= 1) by (bit_vector);
            self.rom_bank = (b & 0xFF) | (hi << 8u16);
        } else if addr <= 0x5FFF {
            assert(val & 0x0F < 0x10) by (bit_vector);
            self.ram_bank = val & 0x0F;
        }
    }

    fn read_ram(&mut self, addr: u16) -> (r: u8)
        ensures
            r == if old(self).ram_enabled {
                byte_or(old(self).ram@, old(self).ram_index(addr), 0xFF)
            } else {
                0xFF
            },
            *final(self) == *old(self),
    {
        if self.ram_enabled {
            get_or(&self.ram, addr as usize + 0x2000 * (self.ram_bank as usize), 0xFF)
        } else {
            0xFF
        }
    }

    fn write_ram(&mut self, addr: u16, val: u8)
        ensures
            old(self).after_write_ram(*final(self), addr, val),
    {
        if self.ram_enabled {
            set_if_in(&mut self.ram, addr as usize + 0x2000 * (self.ram_bank as usize), val);
        }
    }
}

/// A ROM-size code below 9 declares 32KB times 2 to the code; any larger
/// code declares nothing, and a header carrying one is refused by every
/// controller that checks it.
pub proof fn lemma_rom_size_code(code: u8)
    ensures
        code < 9 ==> declared_rom_size(code) == Some(32768 * pow2(code as nat)),
        code >= 9 ==> declared_rom_size(code) is None,
        forall|data: Seq<u8>, max_ram: nat|
            data.len() >= 0x150 && data[0x148] == code && code >= 9 ==> (#[trigger] mbc_size_error(
                data,
                max_ram,
            )) is Some,
{
}

/// Writing a value whose low five bits are 0 to the MBC1 ROM-bank register
/// stores 1 there, so the bank it selects is never 0: in RAM-banking mode
/// it is bank 1, in ROM-banking mode the high bits plus 1.
pub proof fn lemma_mbc1_zero_bank_is_one(m: MBC1, val: u8)
    requires
        m.wf(),
        val & 0x1F == 0,
    ensures
        mbc1_select_low(m.bank, val) & 0x1F == 1,
        (MBC1 { bank: mbc1_select_low(m.bank, val), ..m }).wf(),
        m.banking_mode ==> (MBC1 { bank: mbc1_select_low(m.bank, val), ..m }).upper_bank() == 1,
        (MBC1 { bank: mbc1_select_low(m.bank, val), ..m }).upper_bank() != 0,
{
    let b = m.bank;
    assert(((b & 0xE0) | 1u8) & 0x1F == 1) by (bit_vector);
    assert(b & 0x80 == 0 ==> ((b & 0xE0) | 1u8) & 0x80 == 0) by (bit_vector);
    assert(((b & 0xE0) | 1u8) != 0) by (bit_vector);
}

/// In RAM-banking mode the upper ROM window uses only the low five bits of
/// the MBC1 bank register; in ROM-banking mode it uses all seven, and the
/// RAM window always shows bank 0.
pub proof fn lemma_mbc1_banking_modes(m: MBC1, addr: u16)
    requires
        m.wf(),
        0x4000 <= addr <= 0x7FFF,
    ensures
        m.banking_mode ==> m.rom_index(addr) == (addr - 0x4000) + 0x4000 * ((m.bank & 0x1F) as int),
        m.banking_mode ==> m.ram_bank() == ((m.bank & 0x60) >> 5u8) as int,
        !m.banking_mode ==> m.rom_index(addr) == (addr - 0x4000) + 0x4000 * ((m.bank & 0x7F) as int),
        !m.banking_mode ==> m.ram_bank() == 0,
{
    let b = m.bank;
    assert(b & 0x80 == 0 ==> b & 0x7F == b) by (bit_vector);
}

/// What the MBC2's built-in RAM gives back after a write has its high four
/// bits clear; outside the 512-entry store every read gives 1.
pub proof fn lemma_mbc2_nibble_store(m: MBC2, addr: u16, val: u8)
    requires
        m.wf(),
    ensures
        addr <= 0x01FF ==> byte_or(m.ram@.update(addr as int, val & 0x0F), addr as int, 1) == val
            & 0x0F,
        (val & 0x0F) & 0xF0 == 0,
{
    assert((val & 0x0F) & 0xF0 == 0) by (bit_vector);
}

} // verus!
