//! Instruction handlers as micro-step programs, the ALU, and the flag rules.

use vstd::prelude::*;
use crate::cpu::{Cpu, Ctx, fetch_s, pop16_s, push16_s, read16_s, read8_s, step_at, write16_s, write8_s};
use crate::operand::{
    Cond, Imm16, Imm8, Operand16, Operand8, Reg16, cond_holds, reg16, set_reg16, wadd16, wsub16,
};
use crate::peripherals::{BusView, Peripherals};
use crate::registers::{FLAG_C, FLAG_H, FLAG_N, FLAG_Z, Registers, flags_of, lemma_flags_of};

verus! {

/// An operation of the arithmetic and logic unit on A and an operand.
#[derive(Clone, Copy, Debug, PartialEq, Eq, Structural)]
pub enum AluOp {
    Add,
    Adc,
    Sub,
    Sbc,
    And,
    Xor,
    Or,
    Cp,
}

/// A rotate, shift or nibble swap.
#[derive(Clone, Copy, Debug, PartialEq, Eq, Structural)]
pub enum RotOp {
    Rlc,
    Rrc,
    Rl,
    Rr,
    Sla,
    Sra,
    Swap,
    Srl,
}

/// An operation that reads an operand, changes it and writes it back.
#[derive(Clone, Copy, Debug, PartialEq, Eq, Structural)]
pub enum UnaryOp {
    Inc,
    Dec,
    Rot(RotOp),
    /// clear bit n
    ResBit(u8),
    /// set bit n
    SetBit(u8),
}

/// What an ALU operation leaves in A (CP leaves A as it was).
pub open spec fn alu_result(op: AluOp, a: u8, v: u8, cy: bool) -> u8 {
    let c: int = if cy {
        1
    } else {
        0
    };
    match op {
        AluOp::Add => ((a + v) % 256) as u8,
        AluOp::Adc => ((a + v + c) % 256) as u8,
        AluOp::Sub => ((a - v) % 256) as u8,
        AluOp::Sbc => ((a - v - c) % 256) as u8,
        AluOp::And => a & v,
        AluOp::Xor => a ^ v,
        AluOp::Or => a | v,
        AluOp::Cp => a,
    }
}

/// The flags an ALU operation leaves.
pub open spec fn alu_flags(op: AluOp, a: u8, v: u8, cy: bool) -> u8 {
    let c: int = if cy {
        1
    } else {
        0
    };
    let lo_a = (a & 0xF) as int;
    let lo_v = (v & 0xF) as int;
    match op {
        AluOp::Add => flags_of((a + v) % 256 == 0, false, lo_a + lo_v > 0xF, a + v > 0xFF),
        AluOp::Adc => flags_of(
            (a + v + c) % 256 == 0,
            false,
            lo_a + lo_v + c > 0xF,
            a + v + c > 0xFF,
        ),
        AluOp::Sub | AluOp::Cp => flags_of((a - v) % 256 == 0, true, lo_a < lo_v, a < v),
        AluOp::Sbc => flags_of((a - v - c) % 256 == 0, true, lo_a < lo_v + c, a < v + c),
        AluOp::And => flags_of(a & v == 0, false, true, false),
        AluOp::Xor => flags_of(a ^ v == 0, false, false, false),
        AluOp::Or => flags_of(a | v == 0, false, false, false),
    }
}

/// The value a rotate or shift produces; `cy` is the carry flag before it.
pub open spec fn rot_result(op: RotOp, v: u8, cy: bool) -> u8 {
    let c: u8 = if cy {
        1
    } else {
        0
    };
    match op {
        RotOp::Rlc => (v << 1u8) | (v >> 7u8),
        RotOp::Rrc => (v << 7u8) | (v >> 1u8),
        RotOp::Rl => (v << 1u8) | c,
        RotOp::Rr => (c << 7u8) | (v >> 1u8),
        RotOp::Sla => v << 1u8,
        RotOp::Sra => (v >> 1u8) | (v & 0x80),
        RotOp::Swap => (v << 4u8) | (v >> 4u8),
        RotOp::Srl => v >> 1u8,
    }
}

/// The bit a rotate or shift moves into the carry flag.
pub open spec fn rot_carry(op: RotOp, v: u8) -> bool {
    match op {
        RotOp::Rlc | RotOp::Rl | RotOp::Sla => v & 0x80 != 0,
        RotOp::Swap => false,
        _ => v & 1 != 0,
    }
}

/// The value a read-modify-write operation writes back.
pub open spec fn unary_result(op: UnaryOp, v: u8, cy: bool) -> u8 {
    match op {
        UnaryOp::Inc => ((v + 1) % 256) as u8,
        UnaryOp::Dec => ((v - 1) % 256) as u8,
        UnaryOp::Rot(r) => rot_result(r, v, cy),
        UnaryOp::ResBit(n) => v & !(1u8 << n),
        UnaryOp::SetBit(n) => v | (1u8 << n),
    }
}

/// The flags after a read-modify-write operation on `v`, from flags `f`.
pub open spec fn unary_flags(op: UnaryOp, v: u8, f: u8) -> u8 {
    let cy = f & FLAG_C != 0;
    match op {
        UnaryOp::Inc => flags_of((v + 1) % 256 == 0, false, v & 0xF == 0xF, cy),
        UnaryOp::Dec => flags_of((v - 1) % 256 == 0, true, v & 0xF == 0, cy),
        UnaryOp::Rot(r) => flags_of(rot_result(r, v, cy) == 0, false, false, rot_carry(r, v)),
        _ => f,
    }
}

/// Where a relative jump by the signed byte `e` lands.
pub open spec fn jr_target(pc: u16, e: u8) -> u16 {
    if e < 128 {
        wadd16(pc, e as u16)
    } else {
        wsub16(pc, (256 - e) as u16)
    }
}

pub open spec fn with_regs(c: Cpu, regs: Registers) -> Cpu {
    Cpu { regs, ..c }
}

/// The first part of a two-part instruction: an 8-bit read that, once
/// ready, leaves its value in `val8` and moves the cursor to 1.
pub open spec fn read_into_val8(c: Cpu, b: BusView, s: Operand8) -> Cpu {
    if c.ctx.step == 0 {
        let (cr, r) = read8_s(c, b, s);
        match r {
            Some(v) => Cpu { ctx: Ctx { val8: v, step: 1, ..cr.ctx }, ..cr },
            None => cr,
        }
    } else {
        c
    }
}

/// Writing `val8` at cursor 1; the cursor moves to `next` once done.
pub open spec fn write_val8(c: Cpu, b: BusView, d: Operand8, next: u8) -> (Cpu, BusView) {
    if c.ctx.step == 1 {
        let (cw, bw, ok) = write8_s(c, b, d, c.ctx.val8);
        (if ok {
            step_at(cw, next)
        } else {
            cw
        }, bw)
    } else {
        (c, b)
    }
}

/// Fetches the next opcode when the cursor stands at `at`.
pub open spec fn fetch_at(c: Cpu, b: BusView, at: u8) -> (Cpu, BusView) {
    if c.ctx.step == at {
        (fetch_s(c, b), b)
    } else {
        (c, b)
    }
}

pub open spec fn ld_s(c: Cpu, b: BusView, d: Operand8, s: Operand8) -> (Cpu, BusView) {
    let c1 = read_into_val8(c, b, s);
    let (c2, b2) = write_val8(c1, b, d, 2);
    fetch_at(c2, b2, 2)
}

pub open spec fn ld16_s(c: Cpu, b: BusView, d: Operand16, s: Operand16) -> (Cpu, BusView) {
    let c1 = if c.ctx.step == 0 {
        let (cr, r) = read16_s(c, b, s);
        match r {
            Some(v) => Cpu { ctx: Ctx { val16: v, step: 1, ..cr.ctx }, ..cr },
            None => cr,
        }
    } else {
        c
    };
    let (c2, b2) = if c1.ctx.step == 1 {
        let (cw, bw, ok) = write16_s(c1, b, d, c1.ctx.val16);
        (if ok {
            step_at(cw, 2)
        } else {
            cw
        }, bw)
    } else {
        (c1, b)
    };
    fetch_at(c2, b2, 2)
}

pub open spec fn alu_s(c: Cpu, b: BusView, op: AluOp, s: Operand8) -> (Cpu, BusView) {
    let (cr, r) = read8_s(c, b, s);
    match r {
        Some(v) => {
            let regs = cr.regs;
            let cy = regs.spec_cf();
            (
                fetch_s(
                    with_regs(
                        cr,
                        Registers {
                            a: alu_result(op, regs.a, v, cy),
                            f: alu_flags(op, regs.a, v, cy),
                            ..regs
                        },
                    ),
                    b,
                ),
                b,
            )
        },
        None => (cr, b),
    }
}

pub open spec fn unary_s(c: Cpu, b: BusView, op: UnaryOp, s: Operand8) -> (Cpu, BusView) {
    let c1 = if c.ctx.step == 0 {
        let (cr, r) = read8_s(c, b, s);
        match r {
            Some(v) => {
                let f = cr.regs.f;
                Cpu {
                    regs: Registers { f: unary_flags(op, v, f), ..cr.regs },
                    ctx: Ctx { val8: unary_result(op, v, f & FLAG_C != 0), step: 1, ..cr.ctx }, ime: cr.ime }
            },
            None => cr,
        }
    } else {
        c
    };
    let (c2, b2) = write_val8(c1, b, s, 2);
    fetch_at(c2, b2, 2)
}

/// INC rr (`up`) or DEC rr: the register changes on the first M-cycle, the
/// second is internal.
pub open spec fn step16_s(c: Cpu, b: BusView, r: Reg16, up: bool) -> (Cpu, BusView) {
    if c.ctx.step == 0 {
        let v = reg16(c.regs, r);
        let n = if up {
            wadd16(v, 1)
        } else {
            wsub16(v, 1)
        };
        (Cpu { regs: set_reg16(c.regs, r, n), ctx: Ctx { val16: n, step: 2, ..c.ctx }, ime: c.ime }, b)
    } else {
        fetch_at(c, b, 2)
    }
}

/// RLCA, RRCA, RLA, RRA: a rotate of A that always clears Z.
pub open spec fn rota_s(c: Cpu, b: BusView, op: RotOp) -> (Cpu, BusView) {
    let regs = c.regs;
    let a = regs.a;
    (
        fetch_s(
            with_regs(
                c,
                Registers {
                    a: rot_result(op, a, regs.spec_cf()),
                    f: flags_of(false, false, false, rot_carry(op, a)),
                    ..regs
                },
            ),
            b,
        ),
        b,
    )
}

pub open spec fn bit_s(c: Cpu, b: BusView, n: u8, s: Operand8) -> (Cpu, BusView) {
    let (cr, r) = read8_s(c, b, s);
    match r {
        Some(v) => {
            let regs = cr.regs;
            (
                fetch_s(
                    with_regs(
                        cr,
                        Registers {
                            f: flags_of(v & (1u8 << n) == 0, false, true, regs.spec_cf()),
                            ..regs
                        },
                    ),
                    b,
                ),
                b,
            )
        },
        None => (cr, b),
    }
}

pub open spec fn push_s(c: Cpu, b: BusView, r: Reg16) -> (Cpu, BusView) {
    let c1 = if c.ctx.step == 0 {
        Cpu { ctx: Ctx { val16: reg16(c.regs, r), step: 1, ..c.ctx }, ..c }
    } else {
        c
    };
    let (c2, b2) = if c1.ctx.step == 1 {
        let (cp, bp, ok) = push16_s(c1, b, c1.ctx.val16);
        (if ok {
            step_at(cp, 2)
        } else {
            cp
        }, bp)
    } else {
        (c1, b)
    };
    fetch_at(c2, b2, 2)
}

pub open spec fn pop_s(c: Cpu, b: BusView, r: Reg16) -> (Cpu, BusView) {
    let (cp, v) = pop16_s(c, b);
    match v {
        Some(v) => (fetch_s(with_regs(cp, set_reg16(cp.regs, r, v)), b), b),
        None => (cp, b),
    }
}

pub open spec fn jr_s(c: Cpu, b: BusView) -> (Cpu, BusView) {
    if c.ctx.step == 0 {
        let (cr, r) = read8_s(c, b, Operand8::Imm(Imm8));
        match r {
            Some(e) => (
                step_at(
                    with_regs(cr, Registers { pc: jr_target(cr.regs.pc, e), ..cr.regs }),
                    1,
                ),
                b,
            ),
            None => (cr, b),
        }
    } else {
        fetch_at(c, b, 1)
    }
}

pub open spec fn jr_c_s(c: Cpu, b: BusView, cond: Cond) -> (Cpu, BusView) {
    if c.ctx.step == 0 {
        let (cr, r) = read8_s(c, b, Operand8::Imm(Imm8));
        match r {
            Some(e) => if cond_holds(cr.regs, cond) {
                (
                    step_at(
                        with_regs(cr, Registers { pc: jr_target(cr.regs.pc, e), ..cr.regs }),
                        1,
                    ),
                    b,
                )
            } else {
                (fetch_s(cr, b), b)
            },
            None => (cr, b),
        }
    } else {
        fetch_at(c, b, 1)
    }
}

pub open spec fn jp_s(c: Cpu, b: BusView) -> (Cpu, BusView) {
    if c.ctx.step == 0 {
        let (cr, r) = read16_s(c, b, Operand16::Imm(Imm16));
        match r {
            Some(v) => (step_at(with_regs(cr, Registers { pc: v, ..cr.regs }), 1), b),
            None => (cr, b),
        }
    } else {
        fetch_at(c, b, 1)
    }
}

pub open spec fn call_s(c: Cpu, b: BusView) -> (Cpu, BusView) {
    let c1 = if c.ctx.step == 0 {
        let (cr, r) = read16_s(c, b, Operand16::Imm(Imm16));
        match r {
            Some(v) => Cpu { ctx: Ctx { val16: v, step: 1, ..cr.ctx }, ..cr },
            None => cr,
        }
    } else {
        c
    };
    if c1.ctx.step == 1 {
        let (cp, bp, ok) = push16_s(c1, b, c1.regs.pc);
        if ok {
            (fetch_s(with_regs(cp, Registers { pc: cp.ctx.val16, ..cp.regs }), bp), bp)
        } else {
            (cp, bp)
        }
    } else {
        (c1, b)
    }
}

pub open spec fn ret_s(c: Cpu, b: BusView) -> (Cpu, BusView) {
    if c.ctx.step == 0 {
        let (cp, r) = pop16_s(c, b);
        match r {
            Some(v) => (step_at(with_regs(cp, Registers { pc: v, ..cp.regs }), 1), b),
            None => (cp, b),
        }
    } else {
        fetch_at(c, b, 1)
    }
}


/// The vector of the highest-priority interrupt in `p` (the lowest bit),
/// 0x40 + 8 i; 0 when none is left.
pub open spec fn isr_vector(p: u8) -> u16 {
    if p & 0x01 != 0 {
        0x40
    } else if p & 0x02 != 0 {
        0x48
    } else if p & 0x04 != 0 {
        0x50
    } else if p & 0x08 != 0 {
        0x58
    } else if p & 0x10 != 0 {
        0x60
    } else {
        0
    }
}

/// The bit of the highest-priority interrupt in `p`.
pub open spec fn isr_mask(p: u8) -> u8 {
    if p & 0x01 != 0 {
        0x01
    } else if p & 0x02 != 0 {
        0x02
    } else if p & 0x04 != 0 {
        0x04
    } else if p & 0x08 != 0 {
        0x08
    } else if p & 0x10 != 0 {
        0x10
    } else {
        0
    }
}

/// Interrupt service: an idle M-cycle in which the request is taken from
/// IF, then PC is pushed (an idle cycle and two writes), then IME goes off
/// and the fetch happens at the vector: five M-cycles in all.
pub open spec fn isr_s(c: Cpu, b: BusView) -> (Cpu, BusView) {
    if c.ctx.step == 0 {
        let p = b.pending();
        (
            Cpu { ctx: Ctx { val16: isr_vector(p), step: 1, ..c.ctx }, ..c },
            BusView { int_flag: b.int_flag & !isr_mask(p), ..b },
        )
    } else {
        let (cp, bp, ok) = push16_s(c, b, c.regs.pc);
        if ok {
            (
                fetch_s(
                    Cpu {
                        regs: Registers { pc: cp.ctx.val16, ..cp.regs },
                        ctx: Ctx { isr: false, ..cp.ctx },
                        ime: false,
                    },
                    bp,
                ),
                bp,
            )
        } else {
            (cp, bp)
        }
    }
}

/// HALT: the CPU waits until an enabled interrupt is requested, then
/// fetches (which services it when IME is on).
pub open spec fn halt_s(c: Cpu, b: BusView) -> (Cpu, BusView) {
    if b.pending() != 0 {
        (fetch_s(c, b), b)
    } else {
        (c, b)
    }
}

/// RST n: PC is pushed and the fetch happens at `n`.
pub open spec fn rst_s(c: Cpu, b: BusView, n: u8) -> (Cpu, BusView) {
    let (cp, bp, ok) = push16_s(c, b, c.regs.pc);
    if ok {
        (fetch_s(with_regs(cp, Registers { pc: n as u16, ..cp.regs }), bp), bp)
    } else {
        (cp, bp)
    }
}

/// JP cc, nn: the word is read; a taken jump costs one M-cycle more.
pub open spec fn jp_c_s(c: Cpu, b: BusView, cond: Cond) -> (Cpu, BusView) {
    if c.ctx.step == 0 {
        let (cr, r) = read16_s(c, b, Operand16::Imm(Imm16));
        match r {
            Some(v) => if cond_holds(cr.regs, cond) {
                (step_at(with_regs(cr, Registers { pc: v, ..cr.regs }), 1), b)
            } else {
                (fetch_s(cr, b), b)
            },
            None => (cr, b),
        }
    } else {
        fetch_at(c, b, 1)
    }
}

/// CALL cc, nn: like CALL when `cond` holds, else the fetch follows the
/// word.
pub open spec fn call_c_s(c: Cpu, b: BusView, cond: Cond) -> (Cpu, BusView) {
    if c.ctx.step == 0 {
        let (cr, r) = read16_s(c, b, Operand16::Imm(Imm16));
        match r {
            Some(v) => if cond_holds(cr.regs, cond) {
                call_s(Cpu { ctx: Ctx { val16: v, step: 1, ..cr.ctx }, ..cr }, b)
            } else {
                (fetch_s(cr, b), b)
            },
            None => (cr, b),
        }
    } else {
        call_s(c, b)
    }
}

/// RET cc: an M-cycle to test the condition; if it holds, RET follows.
pub open spec fn ret_c_s(c: Cpu, b: BusView, cond: Cond) -> (Cpu, BusView) {
    if c.ctx.step == 0 {
        if cond_holds(c.regs, cond) {
            (step_at(c, 1), b)
        } else {
            (step_at(c, 3), b)
        }
    } else if c.ctx.step == 1 {
        let (cp, r) = pop16_s(c, b);
        match r {
            Some(v) => (step_at(with_regs(cp, Registers { pc: v, ..cp.regs }), 2), b),
            None => (cp, b),
        }
    } else {
        (fetch_s(c, b), b)
    }
}

/// DAA: A adjusted to packed decimal after an addition or subtraction;
/// the new A and flags.
pub open spec fn daa(a: u8, f: u8) -> (u8, u8) {
    let n = f & FLAG_N != 0;
    let h = f & FLAG_H != 0;
    let c = f & FLAG_C != 0;
    if !n {
        let c1 = c || a > 0x99;
        let a1: int = if c1 {
            a + 0x60
        } else {
            a as int
        };
        let a2: int = if h || (a & 0x0F) > 0x09 {
            a1 + 0x06
        } else {
            a1
        };
        let r = (a2 % 256) as u8;
        (r, flags_of(r == 0, false, false, c1))
    } else {
        let a1: int = if c {
            a - 0x60
        } else {
            a as int
        };
        let a2: int = if h {
            a1 - 0x06
        } else {
            a1
        };
        let r = (a2 % 256) as u8;
        (r, flags_of(r == 0, true, false, c))
    }
}

/// CPL, SCF, CCF and DAA: one M-cycle on A and the flags.
#[derive(Clone, Copy, Debug, PartialEq, Eq, Structural)]
pub enum AccOp {
    Cpl,
    Scf,
    Ccf,
    Daa,
}

/// A and the flags after an `AccOp`.
pub open spec fn acc_result(op: AccOp, a: u8, f: u8) -> (u8, u8) {
    let z = f & FLAG_Z != 0;
    let c = f & FLAG_C != 0;
    match op {
        AccOp::Cpl => (!a, flags_of(z, true, true, c)),
        AccOp::Scf => (a, flags_of(z, false, false, true)),
        AccOp::Ccf => (a, flags_of(z, false, false, !c)),
        AccOp::Daa => daa(a, f),
    }
}

pub open spec fn acc_s(c: Cpu, b: BusView, op: AccOp) -> (Cpu, BusView) {
    let (a, f) = acc_result(op, c.regs.a, c.regs.f);
    (fetch_s(with_regs(c, Registers { a, f, ..c.regs }), b), b)
}

/// ADD HL, rr: Z kept, N cleared, H from bit 11, C from bit 15; one
/// M-cycle more before the fetch.
pub open spec fn add_hl_s(c: Cpu, b: BusView, r: Reg16) -> (Cpu, BusView) {
    if c.ctx.step == 0 {
        let hl = c.regs.spec_hl();
        let v = reg16(c.regs, r);
        let regs = c.regs.with_hl(((hl + v) % 0x10000) as u16);
        let f = flags_of(
            c.regs.spec_zf(),
            false,
            (hl % 0x1000) + (v % 0x1000) > 0xFFF,
            hl + v > 0xFFFF,
        );
        (step_at(with_regs(c, Registers { f, ..regs }), 1), b)
    } else {
        fetch_at(c, b, 1)
    }
}

/// The flags of SP plus a signed byte: Z and N clear, H and C from the
/// unsigned sum of the low nibble and of the low byte.
pub open spec fn sp_flags(sp: u16, e: u8) -> u8 {
    flags_of(false, false, (sp % 16) + (e % 16) > 0xF, (sp % 256) + e > 0xFF)
}

/// ADD SP, e (`to_hl` false; two internal M-cycles) or LD HL, SP + e (one).
pub open spec fn sp_offset_s(c: Cpu, b: BusView, to_hl: bool) -> (Cpu, BusView) {
    if c.ctx.step == 0 {
        let (cr, r) = read8_s(c, b, Operand8::Imm(Imm8));
        match r {
            Some(e) => {
                let sp = cr.regs.sp;
                let v = jr_target(sp, e);
                let regs = if to_hl {
                    cr.regs.with_hl(v)
                } else {
                    Registers { sp: v, ..cr.regs }
                };
                (
                    step_at(with_regs(cr, Registers { f: sp_flags(sp, e), ..regs }), if to_hl {
                        2
                    } else {
                        1
                    }),
                    b,
                )
            },
            None => (cr, b),
        }
    } else if c.ctx.step == 1 {
        (step_at(c, 2), b)
    } else {
        (fetch_s(c, b), b)
    }
}

/// STOP: the byte after the opcode is skipped, then the CPU waits for a
/// joypad request in IF.
pub open spec fn stop_s(c: Cpu, b: BusView) -> (Cpu, BusView) {
    if c.ctx.step == 0 {
        let (cr, r) = read8_s(c, b, Operand8::Imm(Imm8));
        match r {
            Some(_) => (step_at(cr, 1), b),
            None => (cr, b),
        }
    } else if b.int_flag & 0x10 != 0 {
        (fetch_s(c, b), b)
    } else {
        (c, b)
    }
}

/// LD SP, HL: one M-cycle more before the fetch.
pub open spec fn ld_sp_hl_s(c: Cpu, b: BusView) -> (Cpu, BusView) {
    if c.ctx.step == 0 {
        (step_at(with_regs(c, Registers { sp: c.regs.spec_hl(), ..c.regs }), 1), b)
    } else {
        fetch_at(c, b, 1)
    }
}

/// The flag register holding exactly the given flags.
fn flags(z: bool, n: bool, h: bool, c: bool) -> (r: u8)
    ensures
        r == flags_of(z, n, h, c),
        r & 0x0F == 0,
{
    proof {
        lemma_flags_of(z, n, h, c);
    }
    (if z {
        FLAG_Z
    } else {
        0u8
    }) | (if n {
        FLAG_N
    } else {
        0u8
    }) | (if h {
        FLAG_H
    } else {
        0u8
    }) | (if c {
        FLAG_C
    } else {
        0u8
    })
}

/// `v` plus the signed byte `e`, modulo 2^16.
fn offset(v: u16, e: u8) -> (r: u16)
    ensures
        r == jr_target(v, e),
{
    if e < 128 {
        v.wrapping_add(e as u16)
    } else {
        v.wrapping_sub(256 - e as u16)
    }
}

/// The flags of ADD HL, rr with Z kept as `z`.
fn add16_flags(hl: u16, v: u16, z: bool) -> (r: u8)
    ensures
        r == flags_of(z, false, (hl % 0x1000) + (v % 0x1000) > 0xFFF, hl + v > 0xFFFF),
        r & 0x0F == 0,
{
    flags(z, false, (hl % 0x1000) + (v % 0x1000) > 0xFFF, (hl as u32) + (v as u32) > 0xFFFF)
}

proof fn lemma_flags_wf(z: bool, n: bool, h: bool, c: bool)
    ensures
        flags_of(z, n, h, c) & 0x0F == 0,
{
    lemma_flags_of(z, n, h, c);
}

impl Cpu {
    /// No operation: only the next opcode is fetched.
    pub fn nop(&mut self, bus: &mut Peripherals)
        requires
            old(self).wf(),
            old(bus)@.wf(),
        ensures
            *final(self) == fetch_s(*old(self), old(bus)@),
            final(bus)@ == old(bus)@,
            final(self).wf(),
            final(bus)@.wf(),
    {
        self.fetch(bus)
    }

    /// SUB (`carry` false) or SBC: A - val - carry, with its flags; returns
    /// the result and leaves A alone.
    fn sub_general(&mut self, val: u8, carry: bool) -> (r: u8)
        ensures
            r == alu_result(
                if carry {
                    AluOp::Sbc
                } else {
                    AluOp::Sub
                },
                old(self).regs.a,
                val,
                carry,
            ),
            final(self).regs == (Registers {
                f: alu_flags(
                    if carry {
                        AluOp::Sbc
                    } else {
                        AluOp::Sub
                    },
                    old(self).regs.a,
                    val,
                    carry,
                ),
                ..old(self).regs
            }),
            final(self).ctx == old(self).ctx,
            final(self).ime == old(self).ime,
    {
        let cy: u8 = if carry {
            1
        } else {
            0
        };
        let a = self.regs.a;
        let result = a.wrapping_sub(val).wrapping_sub(cy);
        self.regs.f = flags(
            result == 0,
            true,
            ((a & 0xf) as u16) < ((val & 0xf) as u16) + (cy as u16),
            (a as u16) < (val as u16) + (cy as u16),
        );
        result
    }

    /// ADD (`carry` false) or ADC, with its flags; returns the result.
    fn add_general(&mut self, val: u8, carry: bool) -> (r: u8)
        ensures
            r == alu_result(
                if carry {
                    AluOp::Adc
                } else {
                    AluOp::Add
                },
                old(self).regs.a,
                val,
                carry,
            ),
            final(self).regs == (Registers {
                f: alu_flags(
                    if carry {
                        AluOp::Adc
                    } else {
                        AluOp::Add
                    },
                    old(self).regs.a,
                    val,
                    carry,
                ),
                ..old(self).regs
            }),
            final(self).ctx == old(self).ctx,
            final(self).ime == old(self).ime,
    {
        let cy: u8 = if carry {
            1
        } else {
            0
        };
        let a = self.regs.a;
        let result = a.wrapping_add(val).wrapping_add(cy);
        self.regs.f = flags(
            result == 0,
            false,
            ((a & 0xf) as u16) + ((val & 0xf) as u16) + (cy as u16) > 0xF,
            (a as u16) + (val as u16) + (cy as u16) > 0xFF,
        );
        result
    }

    /// RLC: rotate left, bit 7 into C and into bit 0.
    fn rlc_general(&mut self, val: u8) -> (r: u8)
        ensures
            r == rot_result(RotOp::Rlc, val, old(self).regs.spec_cf()),
            final(self).regs == (Registers {
                f: unary_flags(UnaryOp::Rot(RotOp::Rlc), val, old(self).regs.f),
                ..old(self).regs
            }),
            final(self).ctx == old(self).ctx,
            final(self).ime == old(self).ime,
    {
        let r = (val << 1) | (val >> 7);
        self.regs.f = flags(r == 0, false, false, val & 0x80 != 0);
        r
    }

    /// RL: rotate left through the carry.
    fn rl_general(&mut self, val: u8) -> (r: u8)
        ensures
            r == rot_result(RotOp::Rl, val, old(self).regs.spec_cf()),
            final(self).regs == (Registers {
                f: unary_flags(UnaryOp::Rot(RotOp::Rl), val, old(self).regs.f),
                ..old(self).regs
            }),
            final(self).ctx == old(self).ctx,
            final(self).ime == old(self).ime,
    {
        let c: u8 = if self.regs.cf() {
            1
        } else {
            0
        };
        let new_val = (val << 1) | c;
        self.regs.f = flags(new_val == 0, false, false, val & 0x80 != 0);
        new_val
    }

    /// RRC: rotate right, bit 0 into C and into bit 7.
    fn rrc_general(&mut self, val: u8) -> (r: u8)
        ensures
            r == rot_result(RotOp::Rrc, val, old(self).regs.spec_cf()),
            final(self).regs == (Registers {
                f: unary_flags(UnaryOp::Rot(RotOp::Rrc), val, old(self).regs.f),
                ..old(self).regs
            }),
            final(self).ctx == old(self).ctx,
            final(self).ime == old(self).ime,
    {
        let r = (val << 7) | (val >> 1);
        self.regs.f = flags(r == 0, false, false, val & 1 != 0);
        r
    }

    /// RR: rotate right through the carry.
    fn rr_general(&mut self, val: u8) -> (r: u8)
        ensures
            r == rot_result(RotOp::Rr, val, old(self).regs.spec_cf()),
            final(self).regs == (Registers {
                f: unary_flags(UnaryOp::Rot(RotOp::Rr), val, old(self).regs.f),
                ..old(self).regs
            }),
            final(self).ctx == old(self).ctx,
            final(self).ime == old(self).ime,
    {
        let c: u8 = if self.regs.cf() {
            1
        } else {
            0
        };
        let new_val = (c << 7) | (val >> 1);
        self.regs.f = flags(new_val == 0, false, false, val & 1 != 0);
        new_val
    }

    /// Any rotate, shift or swap, with its flags.
    fn rot_general(&mut self, op: RotOp, val: u8) -> (r: u8)
        ensures
            r == rot_result(op, val, old(self).regs.spec_cf()),
            final(self).regs == (Registers {
                f: unary_flags(UnaryOp::Rot(op), val, old(self).regs.f),
                ..old(self).regs
            }),
            final(self).ctx == old(self).ctx,
            final(self).ime == old(self).ime,
    {
        match op {
            RotOp::Rlc => self.rlc_general(val),
            RotOp::Rrc => self.rrc_general(val),
            RotOp::Rl => self.rl_general(val),
            RotOp::Rr => self.rr_general(val),
            RotOp::Sla => {
                let r = val << 1;
                self.regs.f = flags(r == 0, false, false, val & 0x80 != 0);
                r
            },
            RotOp::Sra => {
                let r = (val >> 1) | (val & 0x80);
                self.regs.f = flags(r == 0, false, false, val & 1 != 0);
                r
            },
            RotOp::Swap => {
                let r = (val << 4) | (val >> 4);
                self.regs.f = flags(r == 0, false, false, false);
                r
            },
            RotOp::Srl => {
                let r = val >> 1;
                self.regs.f = flags(r == 0, false, false, val & 1 != 0);
                r
            },
        }
    }

    /// LD d, s: the value of `src` is read, then written to `dst`.
    pub fn ld(&mut self, bus: &mut Peripherals, dst: Operand8, src: Operand8)
        requires
            old(self).wf(),
            old(bus)@.wf(),
            dst.writable(),
        ensures
            (*final(self), final(bus)@) == ld_s(*old(self), old(bus)@, dst, src),
            final(self).wf(),
            final(bus)@.wf(),
    {
        if self.ctx.step == 0 {
            if let Some(v) = self.read8(bus, src) {
                self.ctx.val8 = v;
                self.ctx.step = 1;
            }
        }
        if self.ctx.step == 1 {
            if self.write8(bus, dst, self.ctx.val8) {
                self.ctx.step = 2;
            }
        }
        if self.ctx.step == 2 {
            self.fetch(bus);
        }
    }

    /// LD d, s on words.
    pub fn ld16(&mut self, bus: &mut Peripherals, dst: Operand16, src: Operand16)
        requires
            old(self).wf(),
            old(bus)@.wf(),
            dst.writable(),
            src.readable(),
        ensures
            (*final(self), final(bus)@) == ld16_s(*old(self), old(bus)@, dst, src),
            final(self).wf(),
            final(bus)@.wf(),
    {
        if self.ctx.step == 0 {
            if let Some(v) = self.read16(bus, src) {
                self.ctx.val16 = v;
                self.ctx.step = 1;
            }
        }
        if self.ctx.step == 1 {
            if self.write16(bus, dst, self.ctx.val16) {
                self.ctx.step = 2;
            }
        }
        if self.ctx.step == 2 {
            self.fetch(bus);
        }
    }

    /// An ALU operation on A and `src`; CP only sets the flags.
    pub fn alu(&mut self, bus: &mut Peripherals, op: AluOp, src: Operand8)
        requires
            old(self).wf(),
            old(bus)@.wf(),
        ensures
            (*final(self), final(bus)@) == alu_s(*old(self), old(bus)@, op, src),
            final(self).wf(),
            final(bus)@.wf(),
    {
        if let Some(v) = self.read8(bus, src) {
            let a = self.regs.a;
            let cy = self.regs.cf();
            proof {
                lemma_flags_wf(false, false, false, false);
            }
            match op {
                AluOp::Add => {
                    self.regs.a = self.add_general(v, false);
                },
                AluOp::Adc => {
                    self.regs.a = self.add_general(v, cy);
                },
                AluOp::Sub => {
                    self.regs.a = self.sub_general(v, false);
                },
                AluOp::Sbc => {
                    self.regs.a = self.sub_general(v, cy);
                },
                AluOp::Cp => {
                    self.sub_general(v, false);
                },
                AluOp::And => {
                    self.regs.a = a & v;
                    self.regs.f = flags(a & v == 0, false, true, false);
                },
                AluOp::Xor => {
                    self.regs.a = a ^ v;
                    self.regs.f = flags(a ^ v == 0, false, false, false);
                },
                AluOp::Or => {
                    self.regs.a = a | v;
                    self.regs.f = flags(a | v == 0, false, false, false);
                },
            }
            proof {
                let c = alu_flags(op, a, v, cy);
                assert(c & 0x0F == 0) by {
                    let lo_a = (a & 0xF) as int;
                    let lo_v = (v & 0xF) as int;
                    let ci: int = if cy { 1 } else { 0 };
                    match op {
                        AluOp::Add => lemma_flags_wf((a + v) % 256 == 0, false, lo_a + lo_v > 0xF, a + v > 0xFF),
                        AluOp::Adc => lemma_flags_wf((a + v + ci) % 256 == 0, false, lo_a + lo_v + ci > 0xF, a + v + ci > 0xFF),
                        AluOp::Sub | AluOp::Cp => lemma_flags_wf((a - v) % 256 == 0, true, lo_a < lo_v, a < v),
                        AluOp::Sbc => lemma_flags_wf((a - v - ci) % 256 == 0, true, lo_a < lo_v + ci, a < v + ci),
                        AluOp::And => lemma_flags_wf(a & v == 0, false, true, false),
                        AluOp::Xor => lemma_flags_wf(a ^ v == 0, false, false, false),
                        AluOp::Or => lemma_flags_wf(a | v == 0, false, false, false),
                    }
                }
            }
            self.fetch(bus);
        }
    }

    /// CP A, s: compares A with `src` by subtraction, setting only the flags.
    pub fn cp(&mut self, bus: &mut Peripherals, src: Operand8)
        requires
            old(self).wf(),
            old(bus)@.wf(),
        ensures
            (*final(self), final(bus)@) == alu_s(*old(self), old(bus)@, AluOp::Cp, src),
            final(self).wf(),
            final(bus)@.wf(),
    {
        self.alu(bus, AluOp::Cp, src)
    }

    /// A read-modify-write operation on `src`.
    pub fn unary(&mut self, bus: &mut Peripherals, op: UnaryOp, src: Operand8)
        requires
            old(self).wf(),
            old(bus)@.wf(),
            src.writable(),
            op matches UnaryOp::ResBit(n) ==> n < 8,
            op matches UnaryOp::SetBit(n) ==> n < 8,
        ensures
            (*final(self), final(bus)@) == unary_s(*old(self), old(bus)@, op, src),
            final(self).wf(),
            final(bus)@.wf(),
    {
        if self.ctx.step == 0 {
            if let Some(v) = self.read8(bus, src) {
                let r = self.unary_general(op, v);
                self.ctx.val8 = r;
                self.ctx.step = 1;
            }
        }
        if self.ctx.step == 1 {
            if self.write8(bus, src, self.ctx.val8) {
                self.ctx.step = 2;
            }
        }
        if self.ctx.step == 2 {
            self.fetch(bus);
        }
    }

    /// The value and flags of a read-modify-write operation on `v`.
    fn unary_general(&mut self, op: UnaryOp, v: u8) -> (r: u8)
        requires
            old(self).wf(),
            op matches UnaryOp::ResBit(n) ==> n < 8,
            op matches UnaryOp::SetBit(n) ==> n < 8,
        ensures
            r == unary_result(op, v, old(self).regs.spec_cf()),
            final(self).regs == (Registers {
                f: unary_flags(op, v, old(self).regs.f),
                ..old(self).regs
            }),
            final(self).ctx == old(self).ctx,
            final(self).ime == old(self).ime,
            final(self).wf(),
    {
        let f = self.regs.f;
        let cy = self.regs.cf();
        let r = match op {
            UnaryOp::Inc => {
                let new_val = v.wrapping_add(1);
                self.regs.f = flags(new_val == 0, false, v & 0xf == 0xf, cy);
                new_val
            },
            UnaryOp::Dec => {
                let new_val = v.wrapping_sub(1);
                self.regs.f = flags(new_val == 0, true, v & 0xf == 0, cy);
                new_val
            },
            UnaryOp::Rot(r) => self.rot_general(r, v),
            UnaryOp::ResBit(n) => v & !(1u8 << n),
            UnaryOp::SetBit(n) => v | (1u8 << n),
        };
        proof {
            match op {
                UnaryOp::Rot(r) => lemma_flags_wf(
                    rot_result(r, v, cy) == 0,
                    false,
                    false,
                    rot_carry(r, v),
                ),
                _ => {},
            }
        }
        r
    }

    /// INC s: Z, N and H from the result, C unchanged.
    pub fn inc(&mut self, bus: &mut Peripherals, src: Operand8)
        requires
            old(self).wf(),
            old(bus)@.wf(),
            src.writable(),
        ensures
            (*final(self), final(bus)@) == unary_s(*old(self), old(bus)@, UnaryOp::Inc, src),
            final(self).wf(),
            final(bus)@.wf(),
    {
        self.unary(bus, UnaryOp::Inc, src)
    }

    /// DEC s: Z, N and H from the result, C unchanged.
    pub fn dec(&mut self, bus: &mut Peripherals, src: Operand8)
        requires
            old(self).wf(),
            old(bus)@.wf(),
            src.writable(),
        ensures
            (*final(self), final(bus)@) == unary_s(*old(self), old(bus)@, UnaryOp::Dec, src),
            final(self).wf(),
            final(bus)@.wf(),
    {
        self.unary(bus, UnaryOp::Dec, src)
    }

    /// RL s: rotate left through the carry.
    pub fn rl(&mut self, bus: &mut Peripherals, src: Operand8)
        requires
            old(self).wf(),
            old(bus)@.wf(),
            src.writable(),
        ensures
            (*final(self), final(bus)@) == unary_s(
                *old(self),
                old(bus)@,
                UnaryOp::Rot(RotOp::Rl),
                src,
            ),
            final(self).wf(),
            final(bus)@.wf(),
    {
        self.unary(bus, UnaryOp::Rot(RotOp::Rl), src)
    }

    /// INC rr: the flags are untouched; one M-cycle more before the fetch.
    pub fn inc16(&mut self, bus: &mut Peripherals, src: Reg16)
        requires
            old(self).wf(),
            old(bus)@.wf(),
        ensures
            (*final(self), final(bus)@) == step16_s(*old(self), old(bus)@, src, true),
            final(self).wf(),
            final(bus)@.wf(),
    {
        self.step16(bus, src, true)
    }

    /// DEC rr: the flags are untouched; one M-cycle more before the fetch.
    pub fn dec16(&mut self, bus: &mut Peripherals, src: Reg16)
        requires
            old(self).wf(),
            old(bus)@.wf(),
        ensures
            (*final(self), final(bus)@) == step16_s(*old(self), old(bus)@, src, false),
            final(self).wf(),
            final(bus)@.wf(),
    {
        self.step16(bus, src, false)
    }

    fn step16(&mut self, bus: &mut Peripherals, src: Reg16, up: bool)
        requires
            old(self).wf(),
            old(bus)@.wf(),
        ensures
            (*final(self), final(bus)@) == step16_s(*old(self), old(bus)@, src, up),
            final(self).wf(),
            final(bus)@.wf(),
    {
        if self.ctx.step == 0 {
            if let Some(v) = self.read16(bus, Operand16::Reg(src)) {
                let n = if up {
                    v.wrapping_add(1)
                } else {
                    v.wrapping_sub(1)
                };
                self.ctx.val16 = n;
                self.write16(bus, Operand16::Reg(src), n);
                self.ctx.step = 2;
            }
        } else if self.ctx.step == 2 {
            self.fetch(bus);
        }
    }

    /// RLCA, RRCA, RLA, RRA.
    pub fn rota(&mut self, bus: &mut Peripherals, op: RotOp)
        requires
            old(self).wf(),
            old(bus)@.wf(),
        ensures
            (*final(self), final(bus)@) == rota_s(*old(self), old(bus)@, op),
            final(self).wf(),
            final(bus)@.wf(),
    {
        let a = self.regs.a;
        let r = self.rot_general(op, a);
        proof {
            lemma_flags_of(rot_result(op, a, old(self).regs.spec_cf()) == 0, false, false, rot_carry(op, a));
        }
        self.regs.a = r;
        self.regs.f = flags(false, false, false, self.regs.f & FLAG_C != 0);
        self.fetch(bus);
    }

    /// BIT n, s: Z is set when bit `n` of `src` is clear; H set, N clear,
    /// C unchanged.
    pub fn bit(&mut self, bus: &mut Peripherals, bit: u8, src: Operand8)
        requires
            old(self).wf(),
            old(bus)@.wf(),
            bit < 8,
        ensures
            (*final(self), final(bus)@) == bit_s(*old(self), old(bus)@, bit, src),
            final(self).wf(),
            final(bus)@.wf(),
    {
        if let Some(v) = self.read8(bus, src) {
            let z = v & (1u8 << bit) == 0;
            self.regs.f = flags(z, false, true, self.regs.cf());
            self.fetch(bus);
        }
    }

    /// PUSH rr: an idle M-cycle, the two bytes below SP, then the fetch.
    pub fn push(&mut self, bus: &mut Peripherals, src: Reg16)
        requires
            old(self).wf(),
            old(bus)@.wf(),
        ensures
            (*final(self), final(bus)@) == push_s(*old(self), old(bus)@, src),
            final(self).wf(),
            final(bus)@.wf(),
    {
        if self.ctx.step == 0 {
            let v = match src {
                Reg16::AF => self.regs.af(),
                Reg16::BC => self.regs.bc(),
                Reg16::DE => self.regs.de(),
                Reg16::HL => self.regs.hl(),
                Reg16::SP => self.regs.sp,
            };
            self.ctx.val16 = v;
            self.ctx.step = 1;
        }
        if self.ctx.step == 1 {
            if self.push16(bus, self.ctx.val16) {
                self.ctx.step = 2;
            }
        }
        if self.ctx.step == 2 {
            self.fetch(bus);
        }
    }

    /// POP rr: the word at SP goes to `dst`.
    pub fn pop(&mut self, bus: &mut Peripherals, dst: Reg16)
        requires
            old(self).wf(),
            old(bus)@.wf(),
        ensures
            (*final(self), final(bus)@) == pop_s(*old(self), old(bus)@, dst),
            final(self).wf(),
            final(bus)@.wf(),
    {
        if let Some(v) = self.pop16(bus) {
            self.write16(bus, Operand16::Reg(dst), v);
            self.fetch(bus);
        }
    }

    fn jump_by(&mut self, e: u8)
        ensures
            final(self).regs == (Registers { pc: jr_target(old(self).regs.pc, e), ..old(self).regs }),
            final(self).ctx == old(self).ctx,
            final(self).ime == old(self).ime,
    {
        self.regs.pc = offset(self.regs.pc, e);
    }

    /// JR e: PC moves by the signed byte after the opcode; one M-cycle more
    /// before the fetch.
    pub fn jr(&mut self, bus: &mut Peripherals)
        requires
            old(self).wf(),
            old(bus)@.wf(),
        ensures
            (*final(self), final(bus)@) == jr_s(*old(self), old(bus)@),
            final(self).wf(),
            final(bus)@.wf(),
    {
        if self.ctx.step == 0 {
            if let Some(e) = self.read8(bus, Operand8::Imm(Imm8)) {
                self.jump_by(e);
                self.ctx.step = 1;
            }
        } else if self.ctx.step == 1 {
            self.fetch(bus);
        }
    }

    /// JR cc, e: jumps like JR when `cond` holds, else fetches at once.
    pub fn jr_c(&mut self, bus: &mut Peripherals, cond: Cond)
        requires
            old(self).wf(),
            old(bus)@.wf(),
        ensures
            (*final(self), final(bus)@) == jr_c_s(*old(self), old(bus)@, cond),
            final(self).wf(),
            final(bus)@.wf(),
    {
        if self.ctx.step == 0 {
            if let Some(e) = self.read8(bus, Operand8::Imm(Imm8)) {
                if self.cond(cond) {
                    self.jump_by(e);
                    self.ctx.step = 1;
                } else {
                    self.fetch(bus);
                }
            }
        } else if self.ctx.step == 1 {
            self.fetch(bus);
        }
    }

    fn cond(&self, cond: Cond) -> (r: bool)
        ensures
            r == cond_holds(self.regs, cond),
    {
        match cond {
            Cond::NZ => !self.regs.zf(),
            Cond::Z => self.regs.zf(),
            Cond::NC => !self.regs.cf(),
            Cond::C => self.regs.cf(),
        }
    }

    /// JP nn: PC takes the word after the opcode; one M-cycle more before
    /// the fetch.
    pub fn jp(&mut self, bus: &mut Peripherals)
        requires
            old(self).wf(),
            old(bus)@.wf(),
        ensures
            (*final(self), final(bus)@) == jp_s(*old(self), old(bus)@),
            final(self).wf(),
            final(bus)@.wf(),
    {
        if self.ctx.step == 0 {
            if let Some(v) = self.read16(bus, Operand16::Imm(Imm16)) {
                self.regs.pc = v;
                self.ctx.step = 1;
            }
        } else if self.ctx.step == 1 {
            self.fetch(bus);
        }
    }

    /// CALL nn: the word after the opcode is read, PC is pushed, and PC
    /// takes the word.
    pub fn call(&mut self, bus: &mut Peripherals)
        requires
            old(self).wf(),
            old(bus)@.wf(),
        ensures
            (*final(self), final(bus)@) == call_s(*old(self), old(bus)@),
            final(self).wf(),
            final(bus)@.wf(),
    {
        if self.ctx.step == 0 {
            if let Some(v) = self.read16(bus, Operand16::Imm(Imm16)) {
                self.ctx.val16 = v;
                self.ctx.step = 1;
            }
        }
        if self.ctx.step == 1 {
            if self.push16(bus, self.regs.pc) {
                self.regs.pc = self.ctx.val16;
                self.fetch(bus);
            }
        }
    }

    /// RET: PC is popped; one M-cycle more before the fetch.
    pub fn ret(&mut self, bus: &mut Peripherals)
        requires
            old(self).wf(),
            old(bus)@.wf(),
        ensures
            (*final(self), final(bus)@) == ret_s(*old(self), old(bus)@),
            final(self).wf(),
            final(bus)@.wf(),
    {
        if self.ctx.step == 0 {
            if let Some(v) = self.pop16(bus) {
                self.regs.pc = v;
                self.ctx.step = 1;
            }
        } else if self.ctx.step == 1 {
            self.fetch(bus);
        }
    }

    /// Services the highest-priority pending interrupt, one M-cycle per call.
    pub fn interrupt(&mut self, bus: &mut Peripherals)
        requires
            old(self).wf(),
            old(bus)@.wf(),
        ensures
            (*final(self), final(bus)@) == isr_s(*old(self), old(bus)@),
            final(self).wf(),
            final(bus)@.wf(),
    {
        if self.ctx.step == 0 {
            let p = bus.pending();
            let (vector, mask): (u16, u8) = if p & 0x01 != 0 {
                (0x40, 0x01)
            } else if p & 0x02 != 0 {
                (0x48, 0x02)
            } else if p & 0x04 != 0 {
                (0x50, 0x04)
            } else if p & 0x08 != 0 {
                (0x58, 0x08)
            } else if p & 0x10 != 0 {
                (0x60, 0x10)
            } else {
                (0, 0)
            };
            bus.acknowledge(mask);
            self.ctx.val16 = vector;
            self.ctx.step = 1;
        } else {
            if self.push16(bus, self.regs.pc) {
                self.regs.pc = self.ctx.val16;
                self.ctx.isr = false;
                self.ime = false;
                self.fetch(bus);
            }
        }
    }

    /// HALT: waits for an enabled interrupt request.
    pub fn halt(&mut self, bus: &mut Peripherals)
        requires
            old(self).wf(),
            old(bus)@.wf(),
        ensures
            (*final(self), final(bus)@) == halt_s(*old(self), old(bus)@),
            final(self).wf(),
            final(bus)@.wf(),
    {
        if bus.pending() != 0 {
            self.fetch(bus);
        }
    }

    /// EI: IME goes on after the next instruction has been fetched.
    pub fn ei(&mut self, bus: &mut Peripherals)
        requires
            old(self).wf(),
            old(bus)@.wf(),
        ensures
            *final(self) == fetch_s(
                Cpu { ctx: Ctx { ei_delay: true, ..old(self).ctx }, ..*old(self) },
                old(bus)@,
            ),
            final(bus)@ == old(bus)@,
            final(self).wf(),
            final(bus)@.wf(),
    {
        self.ctx.ei_delay = true;
        self.fetch(bus);
    }

    /// DI: IME goes off at once.
    pub fn di(&mut self, bus: &mut Peripherals)
        requires
            old(self).wf(),
            old(bus)@.wf(),
        ensures
            *final(self) == fetch_s(
                Cpu { ctx: Ctx { ei_delay: false, ..old(self).ctx }, ime: false, ..*old(self) },
                old(bus)@,
            ),
            final(bus)@ == old(bus)@,
            final(self).wf(),
            final(bus)@.wf(),
    {
        self.ime = false;
        self.ctx.ei_delay = false;
        self.fetch(bus);
    }

    /// RETI: RET with IME switched on.
    pub fn reti(&mut self, bus: &mut Peripherals)
        requires
            old(self).wf(),
            old(bus)@.wf(),
        ensures
            (*final(self), final(bus)@) == ret_s(Cpu { ime: true, ..*old(self) }, old(bus)@),
            final(self).wf(),
            final(bus)@.wf(),
    {
        self.ime = true;
        self.ret(bus);
    }

    /// RST n: a call to the fixed address `n`.
    pub fn rst(&mut self, bus: &mut Peripherals, n: u8)
        requires
            old(self).wf(),
            old(bus)@.wf(),
        ensures
            (*final(self), final(bus)@) == rst_s(*old(self), old(bus)@, n),
            final(self).wf(),
            final(bus)@.wf(),
    {
        if self.push16(bus, self.regs.pc) {
            self.regs.pc = n as u16;
            self.fetch(bus);
        }
    }

    /// JP cc, nn.
    pub fn jp_c(&mut self, bus: &mut Peripherals, cond: Cond)
        requires
            old(self).wf(),
            old(bus)@.wf(),
        ensures
            (*final(self), final(bus)@) == jp_c_s(*old(self), old(bus)@, cond),
            final(self).wf(),
            final(bus)@.wf(),
    {
        if self.ctx.step == 0 {
            if let Some(v) = self.read16(bus, Operand16::Imm(Imm16)) {
                if self.cond(cond) {
                    self.regs.pc = v;
                    self.ctx.step = 1;
                } else {
                    self.fetch(bus);
                }
            }
        } else if self.ctx.step == 1 {
            self.fetch(bus);
        }
    }

    /// CALL cc, nn.
    pub fn call_c(&mut self, bus: &mut Peripherals, cond: Cond)
        requires
            old(self).wf(),
            old(bus)@.wf(),
        ensures
            (*final(self), final(bus)@) == call_c_s(*old(self), old(bus)@, cond),
            final(self).wf(),
            final(bus)@.wf(),
    {
        if self.ctx.step == 0 {
            if let Some(v) = self.read16(bus, Operand16::Imm(Imm16)) {
                if self.cond(cond) {
                    self.ctx.val16 = v;
                    self.ctx.step = 1;
                    self.call(bus);
                } else {
                    self.fetch(bus);
                }
            }
        } else {
            self.call(bus);
        }
    }

    /// RET cc.
    pub fn ret_c(&mut self, bus: &mut Peripherals, cond: Cond)
        requires
            old(self).wf(),
            old(bus)@.wf(),
        ensures
            (*final(self), final(bus)@) == ret_c_s(*old(self), old(bus)@, cond),
            final(self).wf(),
            final(bus)@.wf(),
    {
        if self.ctx.step == 0 {
            if self.cond(cond) {
                self.ctx.step = 1;
            } else {
                self.ctx.step = 3;
            }
        } else if self.ctx.step == 1 {
            if let Some(v) = self.pop16(bus) {
                self.regs.pc = v;
                self.ctx.step = 2;
            }
        } else {
            self.fetch(bus);
        }
    }

    /// CPL, SCF, CCF or DAA.
    pub fn acc(&mut self, bus: &mut Peripherals, op: AccOp)
        requires
            old(self).wf(),
            old(bus)@.wf(),
        ensures
            (*final(self), final(bus)@) == acc_s(*old(self), old(bus)@, op),
            final(self).wf(),
            final(bus)@.wf(),
    {
        let a = self.regs.a;
        let z = self.regs.zf();
        let n = self.regs.nf();
        let h = self.regs.hf();
        let c = self.regs.cf();
        let (r, f) = match op {
            AccOp::Cpl => (!a, flags(z, true, true, c)),
            AccOp::Scf => (a, flags(z, false, false, true)),
            AccOp::Ccf => (a, flags(z, false, false, !c)),
            AccOp::Daa => {
                if !n {
                    let c1 = c || a > 0x99;
                    let mut adj: u8 = 0;
                    if c1 {
                        adj = 0x60;
                    }
                    if h || (a & 0x0F) > 0x09 {
                        adj = adj + 0x06;
                    }
                    let r = a.wrapping_add(adj);
                    (r, flags(r == 0, false, false, c1))
                } else {
                    let mut adj: u8 = 0;
                    if c {
                        adj = 0x60;
                    }
                    if h {
                        adj = adj + 0x06;
                    }
                    let r = a.wrapping_sub(adj);
                    (r, flags(r == 0, true, false, c))
                }
            },
        };
        self.regs.a = r;
        self.regs.f = f;
        self.fetch(bus);
    }

    /// JP HL.
    pub fn jp_hl(&mut self, bus: &mut Peripherals)
        requires
            old(self).wf(),
            old(bus)@.wf(),
        ensures
            *final(self) == fetch_s(
                Cpu { regs: Registers { pc: old(self).regs.spec_hl(), ..old(self).regs }, ..*old(self) },
                old(bus)@,
            ),
            final(bus)@ == old(bus)@,
            final(self).wf(),
            final(bus)@.wf(),
    {
        self.regs.pc = self.regs.hl();
        self.fetch(bus);
    }

    /// LD SP, HL.
    pub fn ld_sp_hl(&mut self, bus: &mut Peripherals)
        requires
            old(self).wf(),
            old(bus)@.wf(),
        ensures
            (*final(self), final(bus)@) == ld_sp_hl_s(*old(self), old(bus)@),
            final(self).wf(),
            final(bus)@.wf(),
    {
        if self.ctx.step == 0 {
            self.regs.sp = self.regs.hl();
            self.ctx.step = 1;
        } else if self.ctx.step == 1 {
            self.fetch(bus);
        }
    }

    /// ADD HL, rr.
    pub fn add_hl(&mut self, bus: &mut Peripherals, src: Reg16)
        requires
            old(self).wf(),
            old(bus)@.wf(),
        ensures
            (*final(self), final(bus)@) == add_hl_s(*old(self), old(bus)@, src),
            final(self).wf(),
            final(bus)@.wf(),
    {
        if self.ctx.step == 0 {
            let hl = self.regs.hl();
            let v = match src {
                Reg16::AF => self.regs.af(),
                Reg16::BC => self.regs.bc(),
                Reg16::DE => self.regs.de(),
                Reg16::HL => self.regs.hl(),
                Reg16::SP => self.regs.sp,
            };
            let z = self.regs.zf();
            let f = add16_flags(hl, v, z);
            let sum = hl.wrapping_add(v);
            assert(sum as int == (hl + v) % 0x10000);
            self.regs.write_hl(sum);
            self.regs.f = f;
            self.ctx.step = 1;
        } else if self.ctx.step == 1 {
            self.fetch(bus);
        }
    }

    /// ADD SP, e or LD HL, SP + e.
    pub fn sp_offset(&mut self, bus: &mut Peripherals, to_hl: bool)
        requires
            old(self).wf(),
            old(bus)@.wf(),
        ensures
            (*final(self), final(bus)@) == sp_offset_s(*old(self), old(bus)@, to_hl),
            final(self).wf(),
            final(bus)@.wf(),
    {
        if self.ctx.step == 0 {
            if let Some(e) = self.read8(bus, Operand8::Imm(Imm8)) {
                let sp = self.regs.sp;
                let v = offset(sp, e);
                let f = flags(false, false, (sp % 16) + (e as u16 % 16) > 0xF, (sp % 256) + (e as u16)
                    > 0xFF);
                if to_hl {
                    self.regs.write_hl(v);
                    self.ctx.step = 2;
                } else {
                    self.regs.sp = v;
                    self.ctx.step = 1;
                }
                self.regs.f = f;
            }
        } else if self.ctx.step == 1 {
            self.ctx.step = 2;
        } else {
            self.fetch(bus);
        }
    }

    /// STOP: waits for a joypad request.
    pub fn stop(&mut self, bus: &mut Peripherals)
        requires
            old(self).wf(),
            old(bus)@.wf(),
        ensures
            (*final(self), final(bus)@) == stop_s(*old(self), old(bus)@),
            final(self).wf(),
            final(bus)@.wf(),
    {
        if self.ctx.step == 0 {
            if let Some(_) = self.read8(bus, Operand8::Imm(Imm8)) {
                self.ctx.step = 1;
            }
        } else if bus.int_flag & 0x10 != 0 {
            self.fetch(bus);
        }
    }
}

} // verus!
