//! The memory bus: address decoding over boot ROM, cartridge, VRAM, work
//! RAM, OAM, IO registers and high RAM; OAM DMA; interrupt flags.

use vstd::prelude::*;
use crate::bootrom::Bootrom;
use crate::cartridge::{cart_read, Cartridge};
use crate::ppu::{frame_done, initial_regs, LcdRegs, Mode, Ppu, PpuView, LCD_PIXELS};
use crate::wram::{WRam, WRAM_SIZE};

verus! {

pub const HRAM_SIZE: usize = 0x80;

/// An address of high RAM, the one region open while OAM DMA runs.
pub open spec fn is_hram(addr: u16) -> bool {
    0xFF80 <= addr <= 0xFFFE
}

/// Everything the bus reaches, as values.
pub struct BusView {
    pub boot_active: bool,
    pub boot: Seq<u8>,
    pub cart: Seq<u8>,
    pub wram: Seq<u8>,
    pub hram: Seq<u8>,
    pub ppu: PpuView,
    pub int_flag: u8,
    pub int_enable: u8,
}

impl BusView {
    pub open spec fn wf(self) -> bool {
        &&& self.boot.len() == 256
        &&& self.wram.len() == WRAM_SIZE
        &&& self.hram.len() == HRAM_SIZE
        &&& self.ppu.wf()
    }

    /// The interrupts both requested and enabled.
    pub open spec fn pending(self) -> u8 {
        self.int_flag & self.int_enable & 0x1F
    }

    pub open spec fn dma_active(self) -> bool {
        self.ppu.r.oam_dma.is_some()
    }

    /// The byte at `addr` as the memory map routes it, ignoring OAM DMA.
    pub open spec fn read_raw(self, addr: u16) -> u8 {
        if addr <= 0x00FF && self.boot_active {
            self.boot[addr as int]
        } else if addr <= 0x7FFF {
            cart_read(self.cart, addr)
        } else if addr <= 0x9FFF {
            self.ppu.read(addr)
        } else if addr <= 0xBFFF {
            cart_read(self.cart, addr)
        } else if addr <= 0xFDFF {
            // 0xE000-0xFDFF echoes work RAM
            self.wram[addr as int % WRAM_SIZE as int]
        } else if addr <= 0xFE9F {
            self.ppu.read(addr)
        } else if addr <= 0xFEFF {
            0xFF
        } else if addr == 0xFF0F {
            self.int_flag
        } else if 0xFF40 <= addr <= 0xFF4B {
            self.ppu.read(addr)
        } else if is_hram(addr) {
            self.hram[addr - 0xFF80]
        } else if addr == 0xFFFF {
            self.int_enable
        } else {
            0xFF
        }
    }

    /// The byte a read of `addr` returns.
    pub open spec fn read(self, addr: u16) -> u8 {
        if self.dma_active() && !is_hram(addr) {
            0xFF
        } else {
            self.read_raw(addr)
        }
    }

    /// Everything after a write of `val` at `addr`.
    pub open spec fn write(self, addr: u16, val: u8) -> BusView {
        if self.dma_active() && !is_hram(addr) {
            self
        } else if addr <= 0x7FFF {
            self
        } else if addr <= 0x9FFF {
            BusView { ppu: self.ppu.write(addr, val), ..self }
        } else if addr <= 0xBFFF {
            self
        } else if addr <= 0xFDFF {
            BusView { wram: self.wram.update(addr as int % WRAM_SIZE as int, val), ..self }
        } else if addr <= 0xFE9F {
            BusView { ppu: self.ppu.write(addr, val), ..self }
        } else if addr <= 0xFEFF {
            self
        } else if addr == 0xFF0F {
            BusView { int_flag: val, ..self }
        } else if 0xFF40 <= addr <= 0xFF4B {
            BusView { ppu: self.ppu.write(addr, val), ..self }
        } else if addr == 0xFF50 {
            BusView { boot_active: self.boot_active && val == 0, ..self }
        } else if is_hram(addr) {
            BusView { hram: self.hram.update(addr - 0xFF80, val), ..self }
        } else if addr == 0xFFFF {
            BusView { int_enable: val, ..self }
        } else {
            self
        }
    }

    /// One byte of a running OAM DMA transfer: the byte at the source goes to
    /// the same offset of OAM; the transfer ends after 160 bytes.
    pub open spec fn dma_step(self) -> BusView {
        match self.ppu.r.oam_dma {
            None => self,
            Some(src) => {
                let i = src as int % 256;
                let oam = if i < 0xA0 {
                    self.ppu.oam.update(i, self.read_raw(src))
                } else {
                    self.ppu.oam
                };
                let next = if i + 1 < 0xA0 {
                    Some((src + 1) as u16)
                } else {
                    None
                };
                BusView {
                    ppu: PpuView {
                        oam,
                        r: LcdRegs { oam_dma: next, ..self.ppu.r },
                        ..self.ppu
                    },
                    ..self
                }
            },
        }
    }

    /// One M-cycle of the devices on the bus: a DMA byte, then the PPU, whose
    /// interrupt requests are moved into IF.
    pub open spec fn cycle(self) -> BusView {
        let d = self.dma_step();
        let p = d.ppu.cycle();
        BusView {
            ppu: PpuView { r: LcdRegs { irq: 0, ..p.r }, ..p },
            int_flag: d.int_flag | p.r.irq,
            ..d
        }
    }
}

/// The memory bus and the devices behind it.
pub struct Peripherals {
    pub bootrom: Bootrom,
    pub cartridge: Cartridge,
    pub wram: WRam,
    pub hram: Vec<u8>,
    pub ppu: Ppu,
    pub int_flag: u8,
    pub int_enable: u8,
}

impl View for Peripherals {
    type V = BusView;

    open spec fn view(&self) -> BusView {
        BusView {
            boot_active: self.bootrom.active,
            boot: self.bootrom.rom@,
            cart: self.cartridge.rom@,
            wram: self.wram.0@,
            hram: self.hram@,
            ppu: self.ppu@,
            int_flag: self.int_flag,
            int_enable: self.int_enable,
        }
    }
}

impl Peripherals {
    pub fn new(bootrom: Bootrom, cartridge: Cartridge) -> (p: Peripherals)
        requires
            bootrom.wf(),
        ensures
            p@.wf(),
            p@.boot == bootrom.rom@,
            p@.boot_active == bootrom.active,
            p@.cart == cartridge.rom@,
            p@.ppu.r == initial_regs(),
            forall|i: int| 0 <= i < 0x2000 ==> p@.ppu.vram[i] == 0,
            forall|i: int| 0 <= i < 0xA0 ==> p@.ppu.oam[i] == 0,
            forall|i: int| 0 <= i < LCD_PIXELS ==> p@.ppu.buffer[i] == 0,
            forall|i: int| 0 <= i < WRAM_SIZE ==> p@.wram[i] == 0,
            forall|i: int| 0 <= i < HRAM_SIZE ==> p@.hram[i] == 0,
            p@.int_flag == 0 && p@.int_enable == 0,
    {
        Peripherals {
            bootrom,
            cartridge,
            wram: WRam::new(),
            hram: vec![0u8; HRAM_SIZE],
            ppu: Ppu::new(),
            int_flag: 0,
            int_enable: 0,
        }
    }

    pub fn read(&self, addr: u16) -> (r: u8)
        requires
            self@.wf(),
        ensures
            r == self@.read(addr),
            self.ppu.r.mode == Mode::Drawing && 0x8000 <= addr <= 0x9FFF ==> r == 0xFF,
            (self.ppu.r.mode == Mode::Drawing || self.ppu.r.mode == Mode::OamScan) && 0xFE00 <= addr
                <= 0xFE9F ==> r == 0xFF,
    {
        if self.ppu.r.oam_dma.is_some() && !(0xFF80 <= addr && addr <= 0xFFFE) {
            // only high RAM answers while OAM DMA runs
            0xFF
        } else {
            self.read_raw(addr)
        }
    }

    fn read_raw(&self, addr: u16) -> (r: u8)
        requires
            self@.wf(),
        ensures
            r == self@.read_raw(addr),
    {
        if addr <= 0x00FF && self.bootrom.is_active() {
            self.bootrom.read(addr)
        } else if addr <= 0x7FFF {
            self.cartridge.read(addr)
        } else if addr <= 0x9FFF {
            self.ppu.read(addr)
        } else if addr <= 0xBFFF {
            self.cartridge.read(addr)
        } else if addr <= 0xFDFF {
            self.wram.read(addr)
        } else if addr <= 0xFE9F {
            self.ppu.read(addr)
        } else if addr <= 0xFEFF {
            0xFF  // prohibited region
        } else if addr == 0xFF0F {
            self.int_flag
        } else if 0xFF40 <= addr && addr <= 0xFF4B {
            self.ppu.read(addr)
        } else if 0xFF80 <= addr && addr <= 0xFFFE {
            self.hram[(addr - 0xFF80) as usize]
        } else if addr == 0xFFFF {
            self.int_enable
        } else {
            0xFF  // an IO register that is not implemented
        }
    }

    pub fn write(&mut self, addr: u16, val: u8)
        requires
            old(self)@.wf(),
        ensures
            final(self)@ == old(self)@.write(addr, val),
            final(self)@.wf(),
    {
        if self.ppu.r.oam_dma.is_some() && !(0xFF80 <= addr && addr <= 0xFFFE) {
            return ;
        }
        if addr <= 0x7FFF {
            self.cartridge.write(addr, val);
        } else if addr <= 0x9FFF {
            self.ppu.write(addr, val);
        } else if addr <= 0xBFFF {
            self.cartridge.write(addr, val);
        } else if addr <= 0xFDFF {
            self.wram.write(addr, val);
        } else if addr <= 0xFE9F {
            self.ppu.write(addr, val);
        } else if addr <= 0xFEFF {
            // prohibited region: dropped
        } else if addr == 0xFF0F {
            self.int_flag = val;
        } else if 0xFF40 <= addr && addr <= 0xFF4B {
            self.ppu.write(addr, val);
        } else if addr == 0xFF50 {
            self.bootrom.write(addr, val);
        } else if 0xFF80 <= addr && addr <= 0xFFFE {
            self.hram.set((addr - 0xFF80) as usize, val);
        } else if addr == 0xFFFF {
            self.int_enable = val;
        }
    }

    /// The interrupts both requested and enabled.
    pub fn pending(&self) -> (r: u8)
        ensures
            r == self@.pending(),
    {
        self.int_flag & self.int_enable & 0x1F
    }

    /// Clears the request bits of `mask` in IF, as the CPU does when it
    /// services an interrupt.
    pub fn acknowledge(&mut self, mask: u8)
        requires
            old(self)@.wf(),
        ensures
            final(self)@ == (BusView { int_flag: old(self)@.int_flag & !mask, ..old(self)@ }),
            final(self)@.wf(),
    {
        self.int_flag = self.int_flag & !mask;
    }

    /// Copies one byte of a running OAM DMA transfer.
    fn dma_cycle(&mut self)
        requires
            old(self)@.wf(),
        ensures
            final(self)@ == old(self)@.dma_step(),
            final(self)@.wf(),
    {
        if let Some(src) = self.ppu.r.oam_dma {
            let b = self.read_raw(src);
            let i = (src % 256) as usize;
            if i < 0xA0 {
                self.ppu.oam.set(i, b);
            }
            if i + 1 < 0xA0 {
                self.ppu.r.oam_dma = Some(src + 1);
            } else {
                self.ppu.r.oam_dma = None;
            }
        }
    }

    /// Advances the devices on the bus by one M-cycle; true exactly when the
    /// PPU completes a frame.
    pub fn emulate_cycle(&mut self) -> (frame: bool)
        requires
            old(self)@.wf(),
        ensures
            final(self)@ == old(self)@.cycle(),
            final(self)@.wf(),
            frame == (old(self).ppu.r.enabled() && frame_done(old(self).ppu.r.timing())),
    {
        self.dma_cycle();
        let frame = self.ppu.emulate_cycle();
        self.int_flag = self.int_flag | self.ppu.r.irq;
        self.ppu.r.irq = 0;
        frame
    }
}

} // verus!