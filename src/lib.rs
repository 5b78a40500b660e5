pub mod error;
pub mod mbc;
pub mod cartridge;
pub mod timer;
pub mod memory;
