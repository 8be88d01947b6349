//! The CPU state, the opcode fetch, and the timed operand programs: each
//! call performs one M-cycle and says, through its spec function, exactly
//! what that M-cycle does.

use vstd::prelude::*;
use crate::operand::{
    Direct8, Indirect, Operand16, Operand8, Reg16, Reg8, ind_addr, ind_after, reg16, reg8,
    set_reg16, set_reg8, wadd16, wsub16,
};
use crate::peripherals::{BusView, Peripherals};
use crate::registers::{Registers, high_byte, lemma_pair, lemma_split, low_byte, pair};

verus! {

/// The instruction in flight: its opcode, which table it belongs to, and the
/// micro-step cursors and scratch values carried between its M-cycles. The
/// instruction's own program uses `step`, `val8` and `val16`; the operand
/// program it runs uses `op_step`, `op_val8` and `op_val16`.
#[derive(Clone, Copy, Debug, Default, PartialEq, Eq, Structural)]
pub struct Ctx {
    pub opcode: u8,
    pub cb: bool,
    pub step: u8,
    pub val8: u8,
    pub val16: u16,
    pub op_step: u8,
    pub op_val8: u8,
    pub op_val16: u16,
    /// EI ran: IME goes on once the next instruction has been fetched.
    pub ei_delay: bool,
    /// An interrupt is being serviced instead of an instruction.
    pub isr: bool,
}

#[derive(Clone, Copy, Debug, PartialEq, Eq, Structural)]
pub struct Cpu {
    pub regs: Registers,
    pub ctx: Ctx,
    /// Interrupt master enable.
    pub ime: bool,
}

/// `c` with its operand cursor replaced.
pub open spec fn op_at(c: Cpu, s: u8) -> Cpu {
    Cpu { ctx: Ctx { op_step: s, ..c.ctx }, ..c }
}

/// `c` with its instruction cursor replaced.
pub open spec fn step_at(c: Cpu, s: u8) -> Cpu {
    Cpu { ctx: Ctx { step: s, ..c.ctx }, ..c }
}

/// The last M-cycle of every instruction. When IME is on and an enabled
/// interrupt is requested, the service routine starts instead; otherwise
/// the next opcode is read at PC and PC moves past it, and a pending EI
/// takes effect. Either way the cursors are back at 0.
pub open spec fn fetch_s(c: Cpu, b: BusView) -> Cpu {
    if c.ime && b.pending() != 0 {
        Cpu {
            ctx: Ctx { cb: false, step: 0, op_step: 0, ei_delay: false, isr: true, ..c.ctx },
            ..c
        }
    } else {
        Cpu {
            regs: Registers { pc: wadd16(c.regs.pc, 1), ..c.regs },
            ctx: Ctx {
                opcode: b.read(c.regs.pc),
                cb: false,
                step: 0,
                op_step: 0,
                ei_delay: false,
                ..c.ctx
            },
            ime: c.ime || c.ctx.ei_delay,
        }
    }
}

/// One M-cycle of reading an 8-bit operand: the CPU after it, and the value
/// once it is ready.
pub open spec fn read8_s(c: Cpu, b: BusView, src: Operand8) -> (Cpu, Option<u8>) {
    let pc = c.regs.pc;
    match src {
        Operand8::Reg(x) => (c, Some(reg8(c.regs, x))),
        Operand8::Imm(_) => if c.ctx.op_step == 0 {
            (
                Cpu {
                    regs: Registers { pc: wadd16(pc, 1), ..c.regs },
                    ctx: Ctx { op_val8: b.read(pc), op_step: 1, ..c.ctx }, ime: c.ime },
                None,
            )
        } else {
            (op_at(c, 0), Some(c.ctx.op_val8))
        },
        Operand8::Ind(i) => if c.ctx.op_step == 0 {
            (
                Cpu {
                    regs: ind_after(c.regs, i),
                    ctx: Ctx { op_val8: b.read(ind_addr(c.regs, i)), op_step: 1, ..c.ctx }, ime: c.ime },
                None,
            )
        } else {
            (op_at(c, 0), Some(c.ctx.op_val8))
        },
        Operand8::Dir(d) => if c.ctx.op_step <= 1 {
            (direct_addr_s(c, b, d), None)
        } else if c.ctx.op_step == 2 {
            (Cpu { ctx: Ctx { op_val8: b.read(c.ctx.op_val16), op_step: 3, ..c.ctx }, ..c }, None)
        } else {
            (op_at(c, 0), Some(c.ctx.op_val8))
        },
    }
}

/// The M-cycles that read the address of a direct operand: the low byte (for
/// DFF the only byte, completing 0xFF00 | n), then the high byte.
pub open spec fn direct_addr_s(c: Cpu, b: BusView, d: Direct8) -> Cpu {
    let pc = c.regs.pc;
    let v = b.read(pc);
    let regs = Registers { pc: wadd16(pc, 1), ..c.regs };
    if c.ctx.op_step == 0 {
        if d == Direct8::DFF {
            Cpu { regs, ctx: Ctx { op_val16: pair(0xFF, v), op_step: 2, ..c.ctx }, ime: c.ime }
        } else {
            Cpu { regs, ctx: Ctx { op_val8: v, op_step: 1, ..c.ctx }, ime: c.ime }
        }
    } else {
        Cpu { regs, ctx: Ctx { op_val16: pair(v, c.ctx.op_val8), op_step: 2, ..c.ctx }, ime: c.ime }
    }
}

/// One M-cycle of writing `v` to an 8-bit operand: the CPU and the bus after
/// it, and whether the write is complete.
pub open spec fn write8_s(c: Cpu, b: BusView, dst: Operand8, v: u8) -> (Cpu, BusView, bool) {
    match dst {
        Operand8::Reg(x) => (Cpu { regs: set_reg8(c.regs, x, v), ..c }, b, true),
        Operand8::Imm(_) => (c, b, false),
        Operand8::Ind(i) => if c.ctx.op_step == 0 {
            (
                Cpu { regs: ind_after(c.regs, i), ctx: Ctx { op_step: 1, ..c.ctx }, ime: c.ime },
                b.write(ind_addr(c.regs, i), v),
                false,
            )
        } else {
            (op_at(c, 0), b, true)
        },
        Operand8::Dir(d) => if c.ctx.op_step <= 1 {
            (direct_addr_s(c, b, d), b, false)
        } else if c.ctx.op_step == 2 {
            (op_at(c, 3), b.write(c.ctx.op_val16, v), false)
        } else {
            (op_at(c, 0), b, true)
        },
    }
}

/// One M-cycle of reading a 16-bit operand.
pub open spec fn read16_s(c: Cpu, b: BusView, src: Operand16) -> (Cpu, Option<u16>) {
    let pc = c.regs.pc;
    match src {
        Operand16::Reg(x) => (c, Some(reg16(c.regs, x))),
        Operand16::Imm(_) => if c.ctx.op_step == 0 {
            (
                Cpu {
                    regs: Registers { pc: wadd16(pc, 1), ..c.regs },
                    ctx: Ctx { op_val8: b.read(pc), op_step: 1, ..c.ctx }, ime: c.ime },
                None,
            )
        } else if c.ctx.op_step == 1 {
            (
                Cpu {
                    regs: Registers { pc: wadd16(pc, 1), ..c.regs },
                    ctx: Ctx { op_val16: pair(b.read(pc), c.ctx.op_val8), op_step: 2, ..c.ctx }, ime: c.ime },
                None,
            )
        } else {
            (op_at(c, 0), Some(c.ctx.op_val16))
        },
        Operand16::Dir(_) => (c, None),
    }
}

/// One M-cycle of writing `v` to a 16-bit operand.
pub open spec fn write16_s(c: Cpu, b: BusView, dst: Operand16, v: u16) -> (Cpu, BusView, bool) {
    match dst {
        Operand16::Reg(x) => (Cpu { regs: set_reg16(c.regs, x, v), ..c }, b, true),
        Operand16::Imm(_) => (c, b, false),
        Operand16::Dir(_) => if c.ctx.op_step <= 1 {
            (direct_addr_s(c, b, Direct8::D), b, false)
        } else if c.ctx.op_step == 2 {
            (op_at(c, 3), b.write(c.ctx.op_val16, low_byte(v)), false)
        } else if c.ctx.op_step == 3 {
            (op_at(c, 4), b.write(wadd16(c.ctx.op_val16, 1), high_byte(v)), false)
        } else {
            (op_at(c, 0), b, true)
        },
    }
}

/// One M-cycle of pushing `v`: an idle cycle, then the high byte and the low
/// byte each below SP, then completion.
pub open spec fn push16_s(c: Cpu, b: BusView, v: u16) -> (Cpu, BusView, bool) {
    let sp = wsub16(c.regs.sp, 1);
    if c.ctx.op_step == 0 {
        (op_at(c, 1), b, false)
    } else if c.ctx.op_step == 1 {
        (
            Cpu {
                regs: Registers { sp, ..c.regs },
                ctx: Ctx { op_val8: low_byte(v), op_step: 2, ..c.ctx }, ime: c.ime },
            b.write(sp, high_byte(v)),
            false,
        )
    } else if c.ctx.op_step == 2 {
        (
            Cpu { regs: Registers { sp, ..c.regs }, ctx: Ctx { op_step: 3, ..c.ctx }, ime: c.ime },
            b.write(sp, c.ctx.op_val8),
            false,
        )
    } else {
        (op_at(c, 0), b, true)
    }
}

/// One M-cycle of popping a word: the low byte at SP, the high byte above
/// it, then the value.
pub open spec fn pop16_s(c: Cpu, b: BusView) -> (Cpu, Option<u16>) {
    let sp = c.regs.sp;
    if c.ctx.op_step == 0 {
        (
            Cpu {
                regs: Registers { sp: wadd16(sp, 1), ..c.regs },
                ctx: Ctx { op_val8: b.read(sp), op_step: 1, ..c.ctx }, ime: c.ime },
            None,
        )
    } else if c.ctx.op_step == 1 {
        (
            Cpu {
                regs: Registers { sp: wadd16(sp, 1), ..c.regs },
                ctx: Ctx { op_val16: pair(b.read(sp), c.ctx.op_val8), op_step: 2, ..c.ctx }, ime: c.ime },
            None,
        )
    } else {
        (op_at(c, 0), Some(c.ctx.op_val16))
    }
}

impl Cpu {
    pub open spec fn wf(&self) -> bool {
        self.regs.wf()
    }

    /// A CPU at reset: every register and cursor zero.
    pub fn new() -> (c: Cpu)
        ensures
            c.wf(),
            c.regs == (Registers { pc: 0, sp: 0, a: 0, b: 0, c: 0, d: 0, e: 0, f: 0, h: 0, l: 0 }),
            c.ctx == (Ctx {
                opcode: 0,
                cb: false,
                step: 0,
                val8: 0,
                val16: 0,
                op_step: 0,
                op_val8: 0,
                op_val16: 0,
                ei_delay: false,
                isr: false,
            }),
            !c.ime,
    {
        let c = Cpu {
            regs: Registers { pc: 0, sp: 0, a: 0, b: 0, c: 0, d: 0, e: 0, f: 0, h: 0, l: 0 },
            ctx: Ctx {
                opcode: 0,
                cb: false,
                step: 0,
                val8: 0,
                val16: 0,
                op_step: 0,
                op_val8: 0,
                op_val16: 0,
                ei_delay: false,
                isr: false,
            },
            ime: false,
        };
        assert(0u8 & 0x0F == 0) by (bit_vector);
        c
    }

    /// Reads the opcode at PC and moves PC past it: the instruction retires
    /// and the next one starts with its cursors at 0.
    pub fn fetch(&mut self, bus: &Peripherals)
        requires
            bus@.wf(),
        ensures
            *final(self) == fetch_s(*old(self), bus@),
            final(self).ctx.step == 0,
            final(self).ctx.op_step == 0,
    {
        self.ctx.cb = false;
        self.ctx.step = 0;
        self.ctx.op_step = 0;
        if self.ime && bus.pending() != 0 {
            self.ctx.isr = true;
        } else {
            self.ctx.opcode = bus.read(self.regs.pc);
            self.regs.pc = self.regs.pc.wrapping_add(1);
            self.ime = self.ime || self.ctx.ei_delay;
        }
        self.ctx.ei_delay = false;
    }

    fn direct_addr(&mut self, bus: &Peripherals, d: Direct8)
        requires
            bus@.wf(),
            old(self).ctx.op_step <= 1,
        ensures
            *final(self) == direct_addr_s(*old(self), bus@, d),
    {
        let v = bus.read(self.regs.pc);
        self.regs.pc = self.regs.pc.wrapping_add(1);
        if self.ctx.op_step == 0 {
            if d == Direct8::DFF {
                proof {
                    lemma_pair(0xFF, v);
                }
                self.ctx.op_val16 = 0xFF00 | (v as u16);
                self.ctx.op_step = 2;
                assert(0xFF00u16 | (v as u16) == ((0xFFu8 as u16) << 8u16) | (v as u16))
                    by (bit_vector);
            } else {
                self.ctx.op_val8 = v;
                self.ctx.op_step = 1;
            }
        } else {
            proof {
                lemma_pair(v, self.ctx.op_val8);
            }
            self.ctx.op_val16 = ((v as u16) << 8) | (self.ctx.op_val8 as u16);
            self.ctx.op_step = 2;
        }
    }

    fn ind_addr(&mut self, i: Indirect) -> (r: u16)
        ensures
            r == ind_addr(old(self).regs, i),
            final(self).regs == ind_after(old(self).regs, i),
            final(self).ctx == old(self).ctx,
            final(self).ime == old(self).ime,
    {
        match i {
            Indirect::BC => self.regs.bc(),
            Indirect::DE => self.regs.de(),
            Indirect::HL => self.regs.hl(),
            Indirect::CFF => {
                proof {
                    lemma_pair(0xFF, self.regs.c);
                }
                assert(0xFF00u16 | (self.regs.c as u16) == ((0xFFu8 as u16) << 8u16) | (
                self.regs.c as u16)) by (bit_vector);
                0xFF00 | (self.regs.c as u16)
            },
            Indirect::HLD => {
                let addr = self.regs.hl();
                self.regs.write_hl(addr.wrapping_sub(1));
                addr
            },
            Indirect::HLI => {
                let addr = self.regs.hl();
                self.regs.write_hl(addr.wrapping_add(1));
                addr
            },
        }
    }

    pub fn read8(&mut self, bus: &Peripherals, src: Operand8) -> (r: Option<u8>)
        requires
            bus@.wf(),
        ensures
            (*final(self), r) == read8_s(*old(self), bus@, src),
    {
        match src {
            Operand8::Reg(x) => Some(
                match x {
                    Reg8::A => self.regs.a,
                    Reg8::B => self.regs.b,
                    Reg8::C => self.regs.c,
                    Reg8::D => self.regs.d,
                    Reg8::E => self.regs.e,
                    Reg8::H => self.regs.h,
                    Reg8::L => self.regs.l,
                },
            ),
            Operand8::Imm(_) => {
                if self.ctx.op_step == 0 {
                    self.ctx.op_val8 = bus.read(self.regs.pc);
                    self.regs.pc = self.regs.pc.wrapping_add(1);
                    self.ctx.op_step = 1;
                    None
                } else {
                    self.ctx.op_step = 0;
                    Some(self.ctx.op_val8)
                }
            },
            Operand8::Ind(i) => {
                if self.ctx.op_step == 0 {
                    let addr = self.ind_addr(i);
                    self.ctx.op_val8 = bus.read(addr);
                    self.ctx.op_step = 1;
                    None
                } else {
                    self.ctx.op_step = 0;
                    Some(self.ctx.op_val8)
                }
            },
            Operand8::Dir(d) => {
                if self.ctx.op_step <= 1 {
                    self.direct_addr(bus, d);
                    None
                } else if self.ctx.op_step == 2 {
                    self.ctx.op_val8 = bus.read(self.ctx.op_val16);
                    self.ctx.op_step = 3;
                    None
                } else {
                    self.ctx.op_step = 0;
                    Some(self.ctx.op_val8)
                }
            },
        }
    }

    pub fn write8(&mut self, bus: &mut Peripherals, dst: Operand8, val: u8) -> (r: bool)
        requires
            old(bus)@.wf(),
            dst.writable(),
        ensures
            (*final(self), final(bus)@, r) == write8_s(*old(self), old(bus)@, dst, val),
            final(bus)@.wf(),
    {
        match dst {
            Operand8::Reg(x) => {
                match x {
                    Reg8::A => self.regs.a = val,
                    Reg8::B => self.regs.b = val,
                    Reg8::C => self.regs.c = val,
                    Reg8::D => self.regs.d = val,
                    Reg8::E => self.regs.e = val,
                    Reg8::H => self.regs.h = val,
                    Reg8::L => self.regs.l = val,
                }
                true
            },
            Operand8::Imm(_) => false,
            Operand8::Ind(i) => {
                if self.ctx.op_step == 0 {
                    let addr = self.ind_addr(i);
                    bus.write(addr, val);
                    self.ctx.op_step = 1;
                    false
                } else {
                    self.ctx.op_step = 0;
                    true
                }
            },
            Operand8::Dir(d) => {
                if self.ctx.op_step <= 1 {
                    self.direct_addr(bus, d);
                    false
                } else if self.ctx.op_step == 2 {
                    bus.write(self.ctx.op_val16, val);
                    self.ctx.op_step = 3;
                    false
                } else {
                    self.ctx.op_step = 0;
                    true
                }
            },
        }
    }

    pub fn read16(&mut self, bus: &Peripherals, src: Operand16) -> (r: Option<u16>)
        requires
            bus@.wf(),
            src.readable(),
        ensures
            (*final(self), r) == read16_s(*old(self), bus@, src),
    {
        match src {
            Operand16::Reg(x) => Some(
                match x {
                    Reg16::AF => self.regs.af(),
                    Reg16::BC => self.regs.bc(),
                    Reg16::DE => self.regs.de(),
                    Reg16::HL => self.regs.hl(),
                    Reg16::SP => self.regs.sp,
                },
            ),
            Operand16::Imm(_) => {
                if self.ctx.op_step == 0 {
                    self.ctx.op_val8 = bus.read(self.regs.pc);
                    self.regs.pc = self.regs.pc.wrapping_add(1);
                    self.ctx.op_step = 1;
                    None
                } else if self.ctx.op_step == 1 {
                    let hi = bus.read(self.regs.pc);
                    proof {
                        lemma_pair(hi, self.ctx.op_val8);
                    }
                    self.ctx.op_val16 = ((hi as u16) << 8) | (self.ctx.op_val8 as u16);
                    self.regs.pc = self.regs.pc.wrapping_add(1);
                    self.ctx.op_step = 2;
                    None
                } else {
                    self.ctx.op_step = 0;
                    Some(self.ctx.op_val16)
                }
            },
            Operand16::Dir(_) => None,
        }
    }

    pub fn write16(&mut self, bus: &mut Peripherals, dst: Operand16, val: u16) -> (r: bool)
        requires
            old(self).wf(),
            old(bus)@.wf(),
            dst.writable(),
        ensures
            (*final(self), final(bus)@, r) == write16_s(*old(self), old(bus)@, dst, val),
            final(self).wf(),
            final(bus)@.wf(),
    {
        match dst {
            Operand16::Reg(x) => {
                match x {
                    Reg16::AF => self.regs.write_af(val),
                    Reg16::BC => self.regs.write_bc(val),
                    Reg16::DE => self.regs.write_de(val),
                    Reg16::HL => self.regs.write_hl(val),
                    Reg16::SP => self.regs.sp = val,
                }
                true
            },
            Operand16::Imm(_) => false,
            Operand16::Dir(_) => {
                proof {
                    lemma_split(val);
                }
                if self.ctx.op_step <= 1 {
                    self.direct_addr(bus, Direct8::D);
                    false
                } else if self.ctx.op_step == 2 {
                    bus.write(self.ctx.op_val16, val as u8);
                    self.ctx.op_step = 3;
                    false
                } else if self.ctx.op_step == 3 {
                    bus.write(self.ctx.op_val16.wrapping_add(1), (val >> 8) as u8);
                    self.ctx.op_step = 4;
                    false
                } else {
                    self.ctx.op_step = 0;
                    true
                }
            },
        }
    }

    pub fn push16(&mut self, bus: &mut Peripherals, val: u16) -> (r: bool)
        requires
            old(bus)@.wf(),
        ensures
            (*final(self), final(bus)@, r) == push16_s(*old(self), old(bus)@, val),
            final(bus)@.wf(),
    {
        proof {
            lemma_split(val);
        }
        if self.ctx.op_step == 0 {
            self.ctx.op_step = 1;
            false
        } else if self.ctx.op_step == 1 {
            self.regs.sp = self.regs.sp.wrapping_sub(1);
            bus.write(self.regs.sp, (val >> 8) as u8);
            self.ctx.op_val8 = val as u8;
            self.ctx.op_step = 2;
            false
        } else if self.ctx.op_step == 2 {
            self.regs.sp = self.regs.sp.wrapping_sub(1);
            bus.write(self.regs.sp, self.ctx.op_val8);
            self.ctx.op_step = 3;
            false
        } else {
            self.ctx.op_step = 0;
            true
        }
    }

    pub fn pop16(&mut self, bus: &Peripherals) -> (r: Option<u16>)
        requires
            bus@.wf(),
        ensures
            (*final(self), r) == pop16_s(*old(self), bus@),
    {
        if self.ctx.op_step == 0 {
            self.ctx.op_val8 = bus.read(self.regs.sp);
            self.regs.sp = self.regs.sp.wrapping_add(1);
            self.ctx.op_step = 1;
            None
        } else if self.ctx.op_step == 1 {
            let hi = bus.read(self.regs.sp);
            proof {
                lemma_pair(hi, self.ctx.op_val8);
            }
            self.regs.sp = self.regs.sp.wrapping_add(1);
            self.ctx.op_val16 = ((hi as u16) << 8) | (self.ctx.op_val8 as u16);
            self.ctx.op_step = 2;
            None
        } else {
            self.ctx.op_step = 0;
            Some(self.ctx.op_val16)
        }
    }
}

} // verus!
