use vstd::prelude::*;
use crate::error::LoadError;
use crate::mbc::{
    byte_or, declared_rom_size, mbc_size_error, dummyMBC, noMBC, MemoryBankController, MBC1,
    MBC2, MBC3, MBC5, MBC1_MAX_RAM_SIZE, MBC3_MAX_RAM_SIZE, MBC5_MAX_RAM_SIZE, HEADER_END,
    CART_TYPE_OFFSET, ROM_SIZE_OFFSET,
};

verus! {

/// Offset of the colour-mode flag in the header.
pub const CGB_FLAG_OFFSET: usize = 0x143;
/// Offset of the header checksum byte.
pub const CHECKSUM_OFFSET: usize = 0x14D;
/// First byte that the header checksum and the title cover.
pub const HEADER_START: usize = 0x134;
/// Last byte that the header checksum covers.
pub const CHECKSUM_LAST: usize = 0x14C;
/// Last byte of the title.
pub const TITLE_LAST: usize = 0x13E;
/// Length of a legacy boot image.
pub const DMG_BOOTROM_LEN: usize = 0x100;
/// Length of a colour boot image.
pub const CGB_BOOTROM_LEN: usize = 0x900;

/// The two kinds of hardware: the legacy handheld and the colour one.
#[derive(Debug, Clone, Copy, PartialEq, Eq, Structural)]
pub enum HardwareMode {
    Dmg,
    Cgb,
}

/// The bank controller a cartridge holds, one variant per kind of chip.
pub enum Controller {
    Dummy(dummyMBC),
    NoBanking(noMBC),
    Mbc1(MBC1),
    Mbc2(MBC2),
    Mbc3(MBC3),
    Mbc5(MBC5),
}

impl Controller {
    /// What a read of the ROM window at `addr` returns.
    pub open spec fn rom_value(&self, addr: u16) -> u8 {
        match self {
            Controller::Dummy(m) => byte_or(m.rom@, addr as int, 0),
            Controller::NoBanking(m) => byte_or(m.rom@, addr as int, 0xFF),
            Controller::Mbc1(m) => byte_or(m.rom@, m.rom_index(addr), 0xFF),
            Controller::Mbc2(m) => byte_or(m.rom@, m.rom_index(addr), 0xFF),
            Controller::Mbc3(m) => byte_or(m.rom@, m.rom_index(addr), 0xFF),
            Controller::Mbc5(m) => byte_or(m.rom@, m.rom_index(addr), 0xFF),
        }
    }

    /// What a read of the external RAM window at `addr` returns.
    pub open spec fn ram_value(&self, addr: u16) -> u8 {
        match self {
            Controller::Dummy(m) => 0,
            Controller::NoBanking(m) => 0xFF,
            Controller::Mbc1(m) => if m.ram_enabled {
                byte_or(m.ram@, m.ram_index(addr), 0xFF)
            } else {
                0xFF
            },
            Controller::Mbc2(m) => if addr <= 0x01FF {
                byte_or(m.ram@, addr as int, 1)
            } else {
                1
            },
            Controller::Mbc3(m) => m.ram_value(addr),
            Controller::Mbc5(m) => if m.ram_enabled {
                byte_or(m.ram@, m.ram_index(addr), 0xFF)
            } else {
                0xFF
            },
        }
    }

    /// The ROM image the controller maps.
    pub open spec fn image(&self) -> Seq<u8> {
        match self {
            Controller::Dummy(m) => m.rom@,
            Controller::NoBanking(m) => m.rom@,
            Controller::Mbc1(m) => m.rom@,
            Controller::Mbc2(m) => m.rom@,
            Controller::Mbc3(m) => m.rom@,
            Controller::Mbc5(m) => m.rom@,
        }
    }

    /// `next` follows from this controller by a write of `val` at `addr` in
    /// the ROM window; the kind of controller never changes.
    pub open spec fn after_write_rom(&self, next: Controller, addr: u16, val: u8) -> bool {
        match (*self, next) {
            (Controller::Dummy(a), Controller::Dummy(b)) => a.after_write_rom(b, addr, val),
            (Controller::NoBanking(a), Controller::NoBanking(b)) => a.after_write_rom(b, addr, val),
            (Controller::Mbc1(a), Controller::Mbc1(b)) => a.after_write_rom(b, addr, val),
            (Controller::Mbc2(a), Controller::Mbc2(b)) => a.after_write_rom(b, addr, val),
            (Controller::Mbc3(a), Controller::Mbc3(b)) => a.after_write_rom(b, addr, val),
            (Controller::Mbc5(a), Controller::Mbc5(b)) => a.after_write_rom(b, addr, val),
            _ => false,
        }
    }

    /// `next` follows from this controller by a write of `val` at `addr` in
    /// the RAM window; the kind of controller never changes.
    pub open spec fn after_write_ram(&self, next: Controller, addr: u16, val: u8) -> bool {
        match (*self, next) {
            (Controller::Dummy(a), Controller::Dummy(b)) => a.after_write_ram(b, addr, val),
            (Controller::NoBanking(a), Controller::NoBanking(b)) => a.after_write_ram(b, addr, val),
            (Controller::Mbc1(a), Controller::Mbc1(b)) => a.after_write_ram(b, addr, val),
            (Controller::Mbc2(a), Controller::Mbc2(b)) => a.after_write_ram(b, addr, val),
            (Controller::Mbc3(a), Controller::Mbc3(b)) => a.after_write_ram(b, addr, val),
            (Controller::Mbc5(a), Controller::Mbc5(b)) => a.after_write_ram(b, addr, val),
            _ => false,
        }
    }

    /// Both controllers are of the same kind.
    pub open spec fn same_kind(&self, other: &Controller) -> bool {
        match (self, other) {
            (Controller::Dummy(_), Controller::Dummy(_)) => true,
            (Controller::NoBanking(_), Controller::NoBanking(_)) => true,
            (Controller::Mbc1(_), Controller::Mbc1(_)) => true,
            (Controller::Mbc2(_), Controller::Mbc2(_)) => true,
            (Controller::Mbc3(_), Controller::Mbc3(_)) => true,
            (Controller::Mbc5(_), Controller::Mbc5(_)) => true,
            _ => false,
        }
    }
}

/// The header checksum accumulated over the first `n` bytes from 0x134:
/// start at 0 and subtract each byte and 1, modulo 256.
pub open spec fn checksum_upto(data: Seq<u8>, n: nat) -> int
    decreases n,
{
    if n == 0 {
        0
    } else {
        (checksum_upto(data, (n - 1) as nat) - data[0x134 + n - 1] - 1) % 256
    }
}

/// The header checksum over bytes 0x134..=0x14C.
pub open spec fn header_checksum(data: Seq<u8>) -> u8 {
    checksum_upto(data, 25) as u8
}

/// The title: the bytes from `i` up to 0x13E, stopping at the first zero,
/// each byte taken as one character.
pub open spec fn title_from(data: Seq<u8>, i: nat) -> Seq<char>
    decreases 0x13F - i,
{
    if i > 0x13E || i >= data.len() || data[i as int] == 0 {
        Seq::empty()
    } else {
        seq![data[i as int] as char] + title_from(data, i + 1)
    }
}

pub open spec fn title_of(data: Seq<u8>) -> Seq<char> {
    title_from(data, 0x134)
}

/// The hardware mode that the header's colour flag asks for.
pub open spec fn mode_of_flag(flag: u8) -> HardwareMode {
    if flag == 0x80 || flag == 0xC0 {
        HardwareMode::Cgb
    } else {
        HardwareMode::Dmg
    }
}

/// Why the controller for an image with a valid header cannot be built, by
/// the cartridge-type byte.
pub open spec fn controller_error(data: Seq<u8>) -> Option<LoadError> {
    let t = data[0x147];
    if t == 0x00 {
        if declared_rom_size(data[0x148]) is None {
            Some(LoadError::InvalidRomSize)
        } else if declared_rom_size(data[0x148]).unwrap() != data.len() {
            Some(LoadError::RomSizeMismatch)
        } else {
            None
        }
    } else if 0x01 <= t <= 0x03 {
        mbc_size_error(data, MBC1_MAX_RAM_SIZE as nat)
    } else if t == 0x05 || t == 0x06 {
        if declared_rom_size(data[0x148]) is None {
            Some(LoadError::InvalidRomSize)
        } else if declared_rom_size(data[0x148]).unwrap() != data.len() {
            Some(LoadError::RomSizeMismatch)
        } else {
            None
        }
    } else if 0x0F <= t <= 0x13 {
        mbc_size_error(data, MBC3_MAX_RAM_SIZE as nat)
    } else if 0x19 <= t <= 0x1E {
        mbc_size_error(data, MBC5_MAX_RAM_SIZE as nat)
    } else {
        Some(LoadError::UnsupportedCartridge(t))
    }
}

/// Why loading `data` as a cartridge image fails, if it does.
pub open spec fn load_error(data: Seq<u8>) -> Option<LoadError> {
    if data.len() < 0x150 {
        Some(LoadError::RomTooSmall)
    } else if data[0x14D] != header_checksum(data) {
        Some(LoadError::BadChecksum)
    } else {
        controller_error(data)
    }
}

/// The controller is the one the cartridge-type byte selects, freshly built
/// over `data`.
pub open spec fn controller_matches(c: Controller, data: Seq<u8>) -> bool {
    let t = data[0x147];
    &&& c.image() == data
    &&& match c {
        Controller::Dummy(_) => false,
        Controller::NoBanking(m) => t == 0x00,
        Controller::Mbc1(m) => 0x01 <= t <= 0x03 && m.is_fresh(data),
        Controller::Mbc2(m) => (t == 0x05 || t == 0x06) && m.is_fresh(data),
        Controller::Mbc3(m) => 0x0F <= t <= 0x13 && m.is_fresh(data),
        Controller::Mbc5(m) => 0x19 <= t <= 0x1E && m.is_fresh(data),
    }
}

/// Relies on String::push: the character is appended at the end.
#[verifier::external_body]
fn push_char(s: &mut String, c: char)
    ensures
        final(s)@ == old(s)@.push(c),
{
    s.push(c)
}

/// A cartridge slot: the active bank controller, the optional boot image that
/// overlays the start of the address space, the title and the hardware mode
/// that the loaded header asks for.
pub struct Cartridge {
    pub rom: Controller,
    pub bootrom: Vec<u8>,
    pub bootrom_enable: bool,
    pub title: String,
    pub gb_cart_type: HardwareMode,
}

impl Cartridge {
    /// While the boot image is mapped it has one of the two accepted lengths.
    pub open spec fn wf(&self) -> bool {
        self.bootrom_enable ==> (self.bootrom@.len() == DMG_BOOTROM_LEN || self.bootrom@.len()
            == CGB_BOOTROM_LEN)
    }

    pub fn new() -> (r: Cartridge)
        ensures
            r.rom is Dummy,
            r.rom.image() == Seq::<u8>::empty(),
            r.bootrom@ == Seq::<u8>::empty(),
            !r.bootrom_enable,
            r.title@ == Seq::<char>::empty(),
            r.gb_cart_type == HardwareMode::Dmg,
            r.wf(),
    {
        Cartridge {
            rom: Controller::Dummy(*dummyMBC::new(Vec::new())),
            bootrom: Vec::new(),
            bootrom_enable: false,
            title: String::new(),
            gb_cart_type: HardwareMode::Dmg,
        }
    }

    pub fn read_rom(&mut self, addr: u16) -> (r: u8)
        requires
            addr <= 0x7FFF,
        ensures
            r == old(self).rom.rom_value(addr),
            *final(self) == *old(self),
    {
        match &mut self.rom {
            Controller::Dummy(m) => m.read_rom(addr),
            Controller::NoBanking(m) => m.read_rom(addr),
            Controller::Mbc1(m) => m.read_rom(addr),
            Controller::Mbc2(m) => m.read_rom(addr),
            Controller::Mbc3(m) => m.read_rom(addr),
            Controller::Mbc5(m) => m.read_rom(addr),
        }
    }

    pub fn read_ram(&mut self, addr: u16) -> (r: u8)
        ensures
            r == old(self).rom.ram_value(addr),
            *final(self) == *old(self),
    {
        match &mut self.rom {
            Controller::Dummy(m) => m.read_ram(addr),
            Controller::NoBanking(m) => m.read_ram(addr),
            Controller::Mbc1(m) => m.read_ram(addr),
            Controller::Mbc2(m) => m.read_ram(addr),
            Controller::Mbc3(m) => m.read_ram(addr),
            Controller::Mbc5(m) => m.read_ram(addr),
        }
    }

    pub fn write_rom(&mut self, addr: u16, val: u8)
        requires
            addr <= 0x7FFF,
        ensures
            old(self).rom.after_write_rom(final(self).rom, addr, val),
            final(self).rom.same_kind(&old(self).rom),
            final(self).rom.image() == old(self).rom.image(),
            final(self).bootrom == old(self).bootrom,
            final(self).bootrom_enable == old(self).bootrom_enable,
            final(self).title == old(self).title,
            final(self).gb_cart_type == old(self).gb_cart_type,
    {
        match &mut self.rom {
            Controller::Dummy(m) => m.write_rom(addr, val),
            Controller::NoBanking(m) => m.write_rom(addr, val),
            Controller::Mbc1(m) => m.write_rom(addr, val),
            Controller::Mbc2(m) => m.write_rom(addr, val),
            Controller::Mbc3(m) => m.write_rom(addr, val),
            Controller::Mbc5(m) => m.write_rom(addr, val),
        }
    }

    pub fn write_ram(&mut self, addr: u16, val: u8)
        ensures
            old(self).rom.after_write_ram(final(self).rom, addr, val),
            final(self).rom.same_kind(&old(self).rom),
            final(self).rom.image() == old(self).rom.image(),
            final(self).bootrom == old(self).bootrom,
            final(self).bootrom_enable == old(self).bootrom_enable,
            final(self).title == old(self).title,
            final(self).gb_cart_type == old(self).gb_cart_type,
    {
        match &mut self.rom {
            Controller::Dummy(m) => m.write_ram(addr, val),
            Controller::NoBanking(m) => m.write_ram(addr, val),
            Controller::Mbc1(m) => m.write_ram(addr, val),
            Controller::Mbc2(m) => m.write_ram(addr, val),
            Controller::Mbc3(m) => m.write_ram(addr, val),
            Controller::Mbc5(m) => m.write_ram(addr, val),
        }
    }

    /// The checksum of bytes 0x134..=0x14C, as the header stores it at 0x14D.
    fn calculate_header_checksum(data: &Vec<u8>) -> (r: u8)
        requires
            data@.len() >= HEADER_END,
        ensures
            r == header_checksum(data@),
    {
        let mut sum: u8 = 0;
        let mut i: usize = HEADER_START;
        while i <= CHECKSUM_LAST
            invariant
                HEADER_START <= i <= CHECKSUM_LAST + 1,
                data@.len() >= HEADER_END,
                sum as int == checksum_upto(data@, (i - HEADER_START) as nat),
            decreases CHECKSUM_LAST + 1 - i,
        {
            let b = data[i];
            proof {
                let n = (i - HEADER_START + 1) as nat;
                assert(checksum_upto(data@, n) == (checksum_upto(data@, (n - 1) as nat) - b - 1)
                    % 256);
            }
            sum = sum.wrapping_sub(b).wrapping_sub(1);
            i = i + 1;
        }
        sum
    }

    /// The title stored at 0x134..=0x13E, up to its first zero byte.
    fn get_title(data: &Vec<u8>) -> (r: String)
        requires
            data@.len() >= HEADER_END,
        ensures
            r@ == title_of(data@),
    {
        let mut t = String::new();
        let mut i: usize = HEADER_START;
        while i <= TITLE_LAST && data[i] != 0
            invariant
                HEADER_START <= i <= TITLE_LAST + 1,
                data@.len() >= HEADER_END,
                t@ + title_from(data@, i as nat) == title_of(data@),
            decreases TITLE_LAST + 1 - i,
        {
            let c = data[i] as char;
            proof {
                assert(title_from(data@, i as nat) == seq![c] + title_from(data@, (i + 1) as nat));
                assert(t@ + title_from(data@, i as nat) =~= t@.push(c) + title_from(
                    data@,
                    (i + 1) as nat,
                ));
            }
            push_char(&mut t, c);
            i = i + 1;
        }
        assert(title_from(data@, i as nat) == Seq::<char>::empty());
        assert(t@ + title_from(data@, i as nat) =~= t@);
        t
    }

    /// Builds the controller that the cartridge-type byte of a header-checked
    /// image selects.
    fn build_controller(data: Vec<u8>) -> (r: Result<Controller, LoadError>)
        requires
            data@.len() >= HEADER_END,
        ensures
            match r {
                Ok(c) => controller_error(data@) is None && controller_matches(c, data@),
                Err(e) => controller_error(data@) == Some(e),
            },
    {
        let t = data[CART_TYPE_OFFSET];
        if t == 0x00 {
            match crate::mbc::rom_size(data[ROM_SIZE_OFFSET]) {
                Ok(n) => {
                    if n != data.len() {
                        return Err(LoadError::RomSizeMismatch);
                    }
                },
                Err(e) => return Err(e),
            }
            Ok(Controller::NoBanking(*noMBC::new(data)))
        } else if 0x01 <= t && t <= 0x03 {
            match MBC1::new(data) {
                Ok(m) => Ok(Controller::Mbc1(*m)),
                Err(e) => Err(e),
            }
        } else if t == 0x05 || t == 0x06 {
            match MBC2::new(data) {
                Ok(m) => Ok(Controller::Mbc2(*m)),
                Err(e) => Err(e),
            }
        } else if 0x0F <= t && t <= 0x13 {
            match MBC3::new(data) {
                Ok(m) => Ok(Controller::Mbc3(*m)),
                Err(e) => Err(e),
            }
        } else if 0x19 <= t && t <= 0x1E {
            match MBC5::new(data) {
                Ok(m) => Ok(Controller::Mbc5(*m)),
                Err(e) => Err(e),
            }
        } else {
            Err(LoadError::UnsupportedCartridge(t))
        }
    }

    /// Checks the header of a ROM image and installs the controller it asks
    /// for. Returns the hardware mode the header's colour flag selects. On
    /// failure the cartridge is left as it was.
    pub fn interprete_header(&mut self, data: Vec<u8>) -> (r: Result<HardwareMode, LoadError>)
        ensures
            match r {
                Ok(mode) => {
                    &&& load_error(data@) is None
                    &&& mode == mode_of_flag(data@[0x143])
                    &&& controller_matches(final(self).rom, data@)
                    &&& final(self).title@ == title_of(data@)
                    &&& final(self).bootrom == old(self).bootrom
                    &&& final(self).bootrom_enable == old(self).bootrom_enable
                    &&& final(self).gb_cart_type == old(self).gb_cart_type
                },
                Err(e) => load_error(data@) == Some(e) && *final(self) == *old(self),
            },
    {
        if data.len() < HEADER_END {
            return Err(LoadError::RomTooSmall);
        }
        if data[CHECKSUM_OFFSET] != Cartridge::calculate_header_checksum(&data) {
            return Err(LoadError::BadChecksum);
        }
        let cgb_mode = data[CGB_FLAG_OFFSET];
        let title = Cartridge::get_title(&data);
        match Cartridge::build_controller(data) {
            Ok(c) => {
                self.rom = c;
                self.title = title;
            },
            Err(e) => return Err(e),
        }
        if cgb_mode == 0x80 || cgb_mode == 0xC0 {
            Ok(HardwareMode::Cgb)
        } else {
            Ok(HardwareMode::Dmg)
        }
    }

    /// Loads a ROM image: checks its header, installs its controller, and
    /// records the hardware mode it asks for.
    pub fn load_rom_image(&mut self, data: Vec<u8>) -> (r: Result<HardwareMode, LoadError>)
        ensures
            match r {
                Ok(mode) => {
                    &&& load_error(data@) is None
                    &&& mode == mode_of_flag(data@[0x143])
                    &&& final(self).gb_cart_type == mode
                    &&& controller_matches(final(self).rom, data@)
                    &&& final(self).title@ == title_of(data@)
                    &&& final(self).bootrom == old(self).bootrom
                    &&& final(self).bootrom_enable == old(self).bootrom_enable
                },
                Err(e) => load_error(data@) == Some(e) && *final(self) == *old(self),
            },
    {
        let r = self.interprete_header(data);
        if let Ok(mode) = r {
            self.gb_cart_type = mode;
        }
        r
    }

    /// Replaces the controller by one that maps `v` as plain ROM without checks.
    pub fn load_from_vec(&mut self, v: Vec<u8>)
        ensures
            final(self).rom is Dummy,
            final(self).rom.image() == v@,
            final(self).bootrom == old(self).bootrom,
            final(self).bootrom_enable == old(self).bootrom_enable,
            final(self).title == old(self).title,
            final(self).gb_cart_type == old(self).gb_cart_type,
    {
        self.rom = Controller::Dummy(*dummyMBC::new(v));
    }

    /// Maps a boot image over the start of the address space. A 256-byte
    /// image is a legacy one, a 2304-byte image a colour one; any other length
    /// is refused and leaves the cartridge as it was.
    pub fn load_bootrom(&mut self, data: Vec<u8>) -> (r: Result<HardwareMode, LoadError>)
        ensures
            match r {
                Ok(mode) => {
                    &&& data@.len() == DMG_BOOTROM_LEN ==> mode == HardwareMode::Dmg
                    &&& data@.len() == CGB_BOOTROM_LEN ==> mode == HardwareMode::Cgb
                    &&& final(self).bootrom@ == data@
                    &&& final(self).bootrom_enable
                    &&& final(self).rom == old(self).rom
                    &&& final(self).title == old(self).title
                    &&& final(self).gb_cart_type == old(self).gb_cart_type
                },
                Err(e) => e == LoadError::InvalidBootrom && *final(self) == *old(self),
            },
            r is Ok <==> (data@.len() == DMG_BOOTROM_LEN || data@.len() == CGB_BOOTROM_LEN),
            old(self).wf() ==> final(self).wf(),
    {
        if data.len() != DMG_BOOTROM_LEN && data.len() != CGB_BOOTROM_LEN {
            return Err(LoadError::InvalidBootrom);
        }
        let mode = if data.len() == DMG_BOOTROM_LEN {
            HardwareMode::Dmg
        } else {
            HardwareMode::Cgb
        };
        self.bootrom = data;
        self.bootrom_enable = true;
        Ok(mode)
    }
}

/// The checksum over a prefix that ends before a changed byte is unchanged.
proof fn lemma_checksum_prefix(d: Seq<u8>, e: Seq<u8>, n: nat)
    requires
        d.len() >= 0x150,
        e.len() == d.len(),
        n <= 25,
        forall|j: int| 0x134 <= j < 0x134 + n ==> d[j] == e[j],
    ensures
        checksum_upto(d, n) == checksum_upto(e, n),
    decreases n,
{
    if n > 0 {
        lemma_checksum_prefix(d, e, (n - 1) as nat);
    }
}

/// Once the changed byte at `0x134 + m` has been taken in, the two
/// checksums differ by the change, modulo 256.
proof fn lemma_checksum_shift(d: Seq<u8>, m: nat, b: u8, n: nat)
    requires
        d.len() >= 0x150,
        m < n <= 25,
    ensures
        (checksum_upto(d.update(0x134 + m as int, b), n) - checksum_upto(d, n)) % 256 == (d[0x134 + m as int]
            - b) % 256,
    decreases n,
{
    let e = d.update(0x134 + m as int, b);
    if n == m + 1 {
        lemma_checksum_prefix(d, e, m);
        let c = checksum_upto(d, m);
        let x = d[0x134 + m as int];
        assert(((c - b - 1) % 256 - (c - x - 1) % 256) % 256 == (x - b) % 256) by (nonlinear_arith);
    } else {
        lemma_checksum_shift(d, m, b, (n - 1) as nat);
        let c1 = checksum_upto(e, (n - 1) as nat);
        let c0 = checksum_upto(d, (n - 1) as nat);
        let y = d[0x134 + n - 1];
        assert(e[0x134 + n - 1] == y);
        let k = (d[0x134 + m as int] - b) % 256;
        assert((c1 - c0) % 256 == k ==> ((c1 - y - 1) % 256 - (c0 - y - 1) % 256) % 256 == k)
            by (nonlinear_arith);
    }
}

/// Changing any single byte that the header checksum covers changes the
/// checksum, so an image whose header was valid is then refused with
/// `BadChecksum`.
pub proof fn lemma_checksum_detects_single_change(data: Seq<u8>, i: int, b: u8)
    requires
        load_error(data) is None,
        0x134 <= i <= 0x14C,
        b != data[i],
    ensures
        header_checksum(data.update(i, b)) != header_checksum(data),
        load_error(data.update(i, b)) == Some(LoadError::BadChecksum),
{
    let m = (i - 0x134) as nat;
    lemma_checksum_shift(data, m, b, 25);
    let c1 = checksum_upto(data.update(i, b), 25);
    let c0 = checksum_upto(data, 25);
    assert(0 <= c1 < 256 && 0 <= c0 < 256);
    assert(c1 != c0);
}

/// The sum of each header byte plus one over the first `n` bytes from 0x134.
pub open spec fn header_byte_sum(data: Seq<u8>, n: nat) -> int
    decreases n,
{
    if n == 0 {
        0
    } else {
        header_byte_sum(data, (n - 1) as nat) + data[0x134 + n - 1] + 1
    }
}

proof fn lemma_checksum_upto_closed_form(data: Seq<u8>, n: nat)
    ensures
        checksum_upto(data, n) == (0 - header_byte_sum(data, n)) % 256,
    decreases n,
{
    if n > 0 {
        lemma_checksum_upto_closed_form(data, (n - 1) as nat);
        let a = 0 - header_byte_sum(data, (n - 1) as nat);
        let b = data[0x134 + n - 1] + 1;
        assert((a % 256 - b) % 256 == (a - b) % 256) by (nonlinear_arith);
    }
}

/// The header checksum is 0 minus the sum of (byte + 1) over 0x134..=0x14C,
/// modulo 256, and so depends on those bytes alone.
pub proof fn lemma_header_checksum_closed_form(data: Seq<u8>, other: Seq<u8>)
    requires
        data.len() > 0x14C,
        other.len() > 0x14C,
        forall|i: int| 0x134 <= i <= 0x14C ==> data[i] == other[i],
    ensures
        header_checksum(data) as int == (0 - header_byte_sum(data, 25)) % 256,
        header_checksum(data) == header_checksum(other),
{
    lemma_checksum_upto_closed_form(data, 25);
    lemma_checksum_upto_closed_form(other, 25);
    assert forall|n: nat| n <= 25 implies #[trigger] header_byte_sum(data, n) == header_byte_sum(
        other,
        n,
    ) by {
        lemma_byte_sum_same(data, other, n);
    }
}

proof fn lemma_byte_sum_same(data: Seq<u8>, other: Seq<u8>, n: nat)
    requires
        n <= 25,
        data.len() > 0x14C,
        other.len() > 0x14C,
        forall|i: int| 0x134 <= i <= 0x14C ==> data[i] == other[i],
    ensures
        header_byte_sum(data, n) == header_byte_sum(other, n),
    decreases n,
{
    if n > 0 {
        lemma_byte_sum_same(data, other, (n - 1) as nat);
    }
}

} // verus!
