use vstd::prelude::*;

verus! {

/// Why loading a cartridge image or a boot image was refused.
#[derive(Debug, Clone, Copy, PartialEq, Eq, Structural)]
pub enum LoadError {
    /// The header's ROM-size code is 9 or more.
    InvalidRomSize,
    /// The header's RAM-size code is not one of the known codes.
    InvalidRamSize,
    /// The declared RAM is larger than the controller can address.
    RamTooLarge,
    /// The declared ROM size differs from the length of the image.
    RomSizeMismatch,
    /// The image does not hold the whole header region.
    RomTooSmall,
    /// The header checksum byte does not match the header bytes.
    BadChecksum,
    /// The cartridge-type byte names no supported controller.
    UnsupportedCartridge(u8),
    /// A boot image is neither 256 nor 2304 bytes long.
    InvalidBootrom,
}

} // verus!
