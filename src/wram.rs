//! Work RAM.

use vstd::prelude::*;

verus! {

pub const WRAM_SIZE: usize = 8192;

/// Work RAM, 8 KiB; an address selects the byte at its offset modulo 8 KiB.
pub struct WRam(pub Vec<u8>);

impl WRam {
    pub open spec fn wf(&self) -> bool {
        self.0@.len() == WRAM_SIZE
    }

    pub fn new() -> (w: WRam)
        ensures
            w.wf(),
            forall|i: int| 0 <= i < WRAM_SIZE ==> w.0@[i] == 0,
    {
        WRam(vec![0u8; WRAM_SIZE])
    }

    pub fn read(&self, addr: u16) -> (r: u8)
        requires
            self.wf(),
        ensures
            r == self.0@[addr as int % WRAM_SIZE as int],
    {
        self.0[(addr as usize) % WRAM_SIZE]
    }

    pub fn write(&mut self, addr: u16, val: u8)
        requires
            old(self).wf(),
        ensures
            final(self).0@ == old(self).0@.update(addr as int % WRAM_SIZE as int, val),
            final(self).wf(),
    {
        self.0.set((addr as usize) % WRAM_SIZE, val);
    }
}

} // verus!
