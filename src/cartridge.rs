//! A ROM-only cartridge.

use vstd::prelude::*;

verus! {

/// Byte of a ROM-only cartridge at `addr`: the ROM image below 0x8000, 0xFF
/// past its end and everywhere else (no external RAM).
pub open spec fn cart_read(rom: Seq<u8>, addr: u16) -> u8 {
    if addr < 0x8000 && addr < rom.len() {
        rom[addr as int]
    } else {
        0xFF
    }
}

/// A cartridge without a memory bank controller.
pub struct Cartridge {
    pub rom: Vec<u8>,
}

impl Cartridge {
    pub fn new(rom: Vec<u8>) -> (c: Cartridge)
        ensures
            c.rom@ == rom@,
    {
        Cartridge { rom }
    }

    pub fn read(&self, addr: u16) -> (r: u8)
        ensures
            r == cart_read(self.rom@, addr),
    {
        if addr < 0x8000 && (addr as usize) < self.rom.len() {
            self.rom[addr as usize]
        } else {
            0xFF
        }
    }

    /// Writes change nothing: there is no banking and no RAM.
    pub fn write(&mut self, _addr: u16, _val: u8)
        ensures
            final(self).rom == old(self).rom,
    {
    }
}

} // verus!
