//! The boot ROM, which shadows the bottom of the address space until the
//! program switches it off.

use vstd::prelude::*;

verus! {

/// The 256-byte boot firmware, shadowing 0x0000-0x00FF until it is switched
/// off.
pub struct Bootrom {
    pub rom: Vec<u8>,
    pub active: bool,
}

impl Bootrom {
    pub open spec fn wf(&self) -> bool {
        self.rom@.len() == 256
    }

    pub fn new(rom: Vec<u8>) -> (b: Bootrom)
        requires
            rom@.len() == 256,
        ensures
            b.wf(),
            b.rom@ == rom@,
            b.active,
    {
        Bootrom { rom, active: true }
    }

    pub fn read(&self, addr: u16) -> (r: u8)
        requires
            self.wf(),
            addr < 256,
        ensures
            r == self.rom@[addr as int],
    {
        self.rom[addr as usize]
    }

    pub fn is_active(&self) -> (r: bool)
        ensures
            r == self.active,
    {
        self.active
    }

    /// A nonzero byte switches the boot ROM off for good; zero leaves it as
    /// it was.
    pub fn write(&mut self, _addr: u16, val: u8)
        ensures
            final(self).rom == old(self).rom,
            final(self).active == (old(self).active && val == 0),
    {
        self.active = self.active && val == 0;
    }
}

} // verus!
