//! Opcode tables, instruction dispatch, and the CPU's M-cycle entry point.

use vstd::prelude::*;
use crate::cpu::{Cpu, Ctx, read8_s};
use crate::instructions::{
    AccOp, AluOp, RotOp, UnaryOp, acc_s, add_hl_s, alu_s, bit_s, call_c_s, call_s, halt_s, isr_s,
    jp_c_s, jp_s, jr_c_s, jr_s, ld16_s, ld_s, ld_sp_hl_s, pop_s, push_s, ret_c_s, ret_s, rota_s,
    rst_s, sp_offset_s, step16_s, stop_s, unary_s,
};
use crate::registers::Registers;
use crate::operand::{Cond, Direct16, Direct8, Imm16, Imm8, Indirect, Operand16, Operand8, Reg16, Reg8};
use crate::peripherals::{BusView, Peripherals};
use crate::cpu::fetch_s;

verus! {

/// An instruction, as decoded from its opcode.
#[derive(Clone, Copy, Debug, PartialEq, Eq, Structural)]
pub enum Instr {
    Nop,
    Ld(Operand8, Operand8),
    Ld16(Operand16, Operand16),
    Alu(AluOp, Operand8),
    Unary(UnaryOp, Operand8),
    Bit(u8, Operand8),
    Inc16(Reg16),
    Dec16(Reg16),
    RotA(RotOp),
    Push(Reg16),
    Pop(Reg16),
    Jr,
    JrC(Cond),
    Jp,
    Call,
    Ret,
    Reti,
    JpC(Cond),
    CallC(Cond),
    RetC(Cond),
    Rst(u8),
    JpHl,
    LdSpHl,
    AddHl(Reg16),
    Acc(AccOp),
    Ei,
    Di,
    Halt,
    Stop,
    /// ADD SP, e
    AddSp,
    /// LD HL, SP + e
    LdHlSp,
    /// 0xCB: the next byte is an opcode of the second table.
    Prefix,
}

/// The condition that a 2-bit field names.
pub open spec fn cond_of(y: u8) -> Cond {
    if y == 0 {
        Cond::NZ
    } else if y == 1 {
        Cond::Z
    } else if y == 2 {
        Cond::NC
    } else {
        Cond::C
    }
}

fn cond(y: u8) -> (r: Cond)
    ensures
        r == cond_of(y),
{
    if y == 0 {
        Cond::NZ
    } else if y == 1 {
        Cond::Z
    } else if y == 2 {
        Cond::NC
    } else {
        Cond::C
    }
}

/// The 8-bit operand that a 3-bit field of an opcode names.
pub open spec fn op8_of(z: u8) -> Operand8 {
    if z == 0 {
        Operand8::Reg(Reg8::B)
    } else if z == 1 {
        Operand8::Reg(Reg8::C)
    } else if z == 2 {
        Operand8::Reg(Reg8::D)
    } else if z == 3 {
        Operand8::Reg(Reg8::E)
    } else if z == 4 {
        Operand8::Reg(Reg8::H)
    } else if z == 5 {
        Operand8::Reg(Reg8::L)
    } else if z == 6 {
        Operand8::Ind(Indirect::HL)
    } else {
        Operand8::Reg(Reg8::A)
    }
}

/// The register pair that a 2-bit field names, with SP as the fourth.
pub open spec fn rr_of(p: u8) -> Reg16 {
    if p == 0 {
        Reg16::BC
    } else if p == 1 {
        Reg16::DE
    } else if p == 2 {
        Reg16::HL
    } else {
        Reg16::SP
    }
}

/// The register pair that a 2-bit field of PUSH or POP names, with AF as
/// the fourth.
pub open spec fn rr_stack_of(p: u8) -> Reg16 {
    if p == 0 {
        Reg16::BC
    } else if p == 1 {
        Reg16::DE
    } else if p == 2 {
        Reg16::HL
    } else {
        Reg16::AF
    }
}

pub open spec fn alu_of(y: u8) -> AluOp {
    if y == 0 {
        AluOp::Add
    } else if y == 1 {
        AluOp::Adc
    } else if y == 2 {
        AluOp::Sub
    } else if y == 3 {
        AluOp::Sbc
    } else if y == 4 {
        AluOp::And
    } else if y == 5 {
        AluOp::Xor
    } else if y == 6 {
        AluOp::Or
    } else {
        AluOp::Cp
    }
}

pub open spec fn rot_of(y: u8) -> RotOp {
    if y == 0 {
        RotOp::Rlc
    } else if y == 1 {
        RotOp::Rrc
    } else if y == 2 {
        RotOp::Rl
    } else if y == 3 {
        RotOp::Rr
    } else if y == 4 {
        RotOp::Sla
    } else if y == 5 {
        RotOp::Sra
    } else if y == 6 {
        RotOp::Swap
    } else {
        RotOp::Srl
    }
}

/// Register A as an operand.
pub open spec fn reg_a() -> Operand8 {
    Operand8::Reg(Reg8::A)
}

/// The instruction of the primary table that `op` encodes, if it is one that
/// this CPU implements.
pub open spec fn instr_of(op: u8) -> Option<Instr> {
    let y = (op >> 3u8) & 7;
    let z = op & 7;
    let p = (op >> 4u8) & 3;
    if op == 0x00 {
        Some(Instr::Nop)
    } else if op == 0xCB {
        Some(Instr::Prefix)
    } else if op == 0x76 {
        Some(Instr::Halt)
    } else if 0x40 <= op <= 0x7F {
        Some(Instr::Ld(op8_of(y), op8_of(z)))
    } else if 0x80 <= op <= 0xBF {
        Some(Instr::Alu(alu_of(y), op8_of(z)))
    } else if op & 0xC7 == 0xC6 {
        Some(Instr::Alu(alu_of(y), Operand8::Imm(Imm8)))
    } else if op & 0xC7 == 0x04 {
        Some(Instr::Unary(UnaryOp::Inc, op8_of(y)))
    } else if op & 0xC7 == 0x05 {
        Some(Instr::Unary(UnaryOp::Dec, op8_of(y)))
    } else if op & 0xC7 == 0x06 {
        Some(Instr::Ld(op8_of(y), Operand8::Imm(Imm8)))
    } else if op & 0xCF == 0x01 {
        Some(Instr::Ld16(Operand16::Reg(rr_of(p)), Operand16::Imm(Imm16)))
    } else if op & 0xCF == 0x03 {
        Some(Instr::Inc16(rr_of(p)))
    } else if op & 0xCF == 0x0B {
        Some(Instr::Dec16(rr_of(p)))
    } else if op & 0xCF == 0xC1 {
        Some(Instr::Pop(rr_stack_of(p)))
    } else if op & 0xCF == 0xC5 {
        Some(Instr::Push(rr_stack_of(p)))
    } else if op == 0x02 {
        Some(Instr::Ld(Operand8::Ind(Indirect::BC), reg_a()))
    } else if op == 0x12 {
        Some(Instr::Ld(Operand8::Ind(Indirect::DE), reg_a()))
    } else if op == 0x22 {
        Some(Instr::Ld(Operand8::Ind(Indirect::HLI), reg_a()))
    } else if op == 0x32 {
        Some(Instr::Ld(Operand8::Ind(Indirect::HLD), reg_a()))
    } else if op == 0x0A {
        Some(Instr::Ld(reg_a(), Operand8::Ind(Indirect::BC)))
    } else if op == 0x1A {
        Some(Instr::Ld(reg_a(), Operand8::Ind(Indirect::DE)))
    } else if op == 0x2A {
        Some(Instr::Ld(reg_a(), Operand8::Ind(Indirect::HLI)))
    } else if op == 0x3A {
        Some(Instr::Ld(reg_a(), Operand8::Ind(Indirect::HLD)))
    } else if op == 0x07 {
        Some(Instr::RotA(RotOp::Rlc))
    } else if op == 0x0F {
        Some(Instr::RotA(RotOp::Rrc))
    } else if op == 0x17 {
        Some(Instr::RotA(RotOp::Rl))
    } else if op == 0x1F {
        Some(Instr::RotA(RotOp::Rr))
    } else if op == 0x08 {
        Some(Instr::Ld16(Operand16::Dir(Direct16), Operand16::Reg(Reg16::SP)))
    } else if op == 0x18 {
        Some(Instr::Jr)
    } else if op == 0x20 {
        Some(Instr::JrC(Cond::NZ))
    } else if op == 0x28 {
        Some(Instr::JrC(Cond::Z))
    } else if op == 0x30 {
        Some(Instr::JrC(Cond::NC))
    } else if op == 0x38 {
        Some(Instr::JrC(Cond::C))
    } else if op == 0xC3 {
        Some(Instr::Jp)
    } else if op == 0xC9 {
        Some(Instr::Ret)
    } else if op == 0xCD {
        Some(Instr::Call)
    } else if op == 0xE0 {
        Some(Instr::Ld(Operand8::Dir(Direct8::DFF), reg_a()))
    } else if op == 0xF0 {
        Some(Instr::Ld(reg_a(), Operand8::Dir(Direct8::DFF)))
    } else if op == 0xE2 {
        Some(Instr::Ld(Operand8::Ind(Indirect::CFF), reg_a()))
    } else if op == 0xF2 {
        Some(Instr::Ld(reg_a(), Operand8::Ind(Indirect::CFF)))
    } else if op == 0xEA {
        Some(Instr::Ld(Operand8::Dir(Direct8::D), reg_a()))
    } else if op == 0xFA {
        Some(Instr::Ld(reg_a(), Operand8::Dir(Direct8::D)))
    } else if op & 0xC7 == 0xC7 {
        Some(Instr::Rst(op & 0x38))
    } else if op & 0xCF == 0x09 {
        Some(Instr::AddHl(rr_of(p)))
    } else if op & 0xE7 == 0xC2 {
        Some(Instr::JpC(cond_of(y & 3)))
    } else if op & 0xE7 == 0xC4 {
        Some(Instr::CallC(cond_of(y & 3)))
    } else if op & 0xE7 == 0xC0 {
        Some(Instr::RetC(cond_of(y & 3)))
    } else if op == 0xD9 {
        Some(Instr::Reti)
    } else if op == 0xE9 {
        Some(Instr::JpHl)
    } else if op == 0xF9 {
        Some(Instr::LdSpHl)
    } else if op == 0x2F {
        Some(Instr::Acc(AccOp::Cpl))
    } else if op == 0x37 {
        Some(Instr::Acc(AccOp::Scf))
    } else if op == 0x3F {
        Some(Instr::Acc(AccOp::Ccf))
    } else if op == 0x27 {
        Some(Instr::Acc(AccOp::Daa))
    } else if op == 0xFB {
        Some(Instr::Ei)
    } else if op == 0xF3 {
        Some(Instr::Di)
    } else if op == 0x10 {
        Some(Instr::Stop)
    } else if op == 0xE8 {
        Some(Instr::AddSp)
    } else if op == 0xF8 {
        Some(Instr::LdHlSp)
    } else {
        None
    }
}

/// The instruction of the CB-prefixed table that `op` encodes: rotates and
/// shifts, BIT, RES and SET, each on the operand of its low three bits.
pub open spec fn cb_instr(op: u8) -> Instr {
    let x = op >> 6u8;
    let y = (op >> 3u8) & 7;
    let s = op8_of(op & 7);
    if x == 0 {
        Instr::Unary(UnaryOp::Rot(rot_of(y)), s)
    } else if x == 1 {
        Instr::Bit(y, s)
    } else if x == 2 {
        Instr::Unary(UnaryOp::ResBit(y), s)
    } else {
        Instr::Unary(UnaryOp::SetBit(y), s)
    }
}

/// The operands of `i` can do what `i` asks of them.
pub open spec fn instr_ok(i: Instr) -> bool {
    match i {
        Instr::Ld(d, _) => d.writable(),
        Instr::Ld16(d, s) => d.writable() && s.readable(),
        Instr::Unary(op, s) => s.writable() && (op matches UnaryOp::ResBit(n) ==> n < 8) && (
        op matches UnaryOp::SetBit(n) ==> n < 8),
        Instr::Bit(n, _) => n < 8,
        Instr::Prefix => false,
        _ => true,
    }
}

/// One M-cycle of instruction `i` (any but the prefix).
pub open spec fn exec_s(c: Cpu, b: BusView, i: Instr) -> (Cpu, BusView) {
    match i {
        Instr::Nop => (fetch_s(c, b), b),
        Instr::Ld(d, s) => ld_s(c, b, d, s),
        Instr::Ld16(d, s) => ld16_s(c, b, d, s),
        Instr::Alu(op, s) => alu_s(c, b, op, s),
        Instr::Unary(op, s) => unary_s(c, b, op, s),
        Instr::Bit(n, s) => bit_s(c, b, n, s),
        Instr::Inc16(r) => step16_s(c, b, r, true),
        Instr::Dec16(r) => step16_s(c, b, r, false),
        Instr::RotA(op) => rota_s(c, b, op),
        Instr::Push(r) => push_s(c, b, r),
        Instr::Pop(r) => pop_s(c, b, r),
        Instr::Jr => jr_s(c, b),
        Instr::JrC(cond) => jr_c_s(c, b, cond),
        Instr::Jp => jp_s(c, b),
        Instr::Call => call_s(c, b),
        Instr::Ret => ret_s(c, b),
        Instr::Reti => ret_s(Cpu { ime: true, ..c }, b),
        Instr::JpC(cond) => jp_c_s(c, b, cond),
        Instr::CallC(cond) => call_c_s(c, b, cond),
        Instr::RetC(cond) => ret_c_s(c, b, cond),
        Instr::Rst(n) => rst_s(c, b, n),
        Instr::JpHl => (fetch_s(Cpu { regs: Registers { pc: c.regs.spec_hl(), ..c.regs }, ..c }, b), b),
        Instr::LdSpHl => ld_sp_hl_s(c, b),
        Instr::AddHl(r) => add_hl_s(c, b, r),
        Instr::Acc(op) => acc_s(c, b, op),
        Instr::Ei => (fetch_s(Cpu { ctx: Ctx { ei_delay: true, ..c.ctx }, ..c }, b), b),
        Instr::Di => (fetch_s(Cpu { ctx: Ctx { ei_delay: false, ..c.ctx }, ime: false, ..c }, b), b),
        Instr::Halt => halt_s(c, b),
        Instr::Stop => stop_s(c, b),
        Instr::AddSp => sp_offset_s(c, b, false),
        Instr::LdHlSp => sp_offset_s(c, b, true),
        Instr::Prefix => (c, b),
    }
}

/// The CB prefix: the next byte is read; once it is there it becomes the
/// opcode, of the second table, and that instruction runs in the same
/// M-cycle.
pub open spec fn prefix_s(c: Cpu, b: BusView) -> (Cpu, BusView) {
    let (cr, r) = read8_s(c, b, Operand8::Imm(Imm8));
    match r {
        Some(v) => exec_s(Cpu { ctx: Ctx { opcode: v, cb: true, ..cr.ctx }, ..cr }, b, cb_instr(v)),
        None => (cr, b),
    }
}

/// One M-cycle of the CPU.
pub open spec fn cycle_s(c: Cpu, b: BusView) -> (Cpu, BusView) {
    if c.ctx.isr {
        isr_s(c, b)
    } else if c.ctx.cb {
        exec_s(c, b, cb_instr(c.ctx.opcode))
    } else {
        match instr_of(c.ctx.opcode) {
            Some(Instr::Prefix) => prefix_s(c, b),
            Some(i) => exec_s(c, b, i),
            None => (c, b),
        }
    }
}

/// The instruction in flight is one this CPU implements.
pub open spec fn decodable(c: Cpu) -> bool {
    c.ctx.isr || c.ctx.cb || instr_of(c.ctx.opcode).is_some()
}

fn op8(z: u8) -> (r: Operand8)
    ensures
        r == op8_of(z),
{
    if z == 0 {
        Operand8::Reg(Reg8::B)
    } else if z == 1 {
        Operand8::Reg(Reg8::C)
    } else if z == 2 {
        Operand8::Reg(Reg8::D)
    } else if z == 3 {
        Operand8::Reg(Reg8::E)
    } else if z == 4 {
        Operand8::Reg(Reg8::H)
    } else if z == 5 {
        Operand8::Reg(Reg8::L)
    } else if z == 6 {
        Operand8::Ind(Indirect::HL)
    } else {
        Operand8::Reg(Reg8::A)
    }
}

fn rr(p: u8) -> (r: Reg16)
    ensures
        r == rr_of(p),
{
    if p == 0 {
        Reg16::BC
    } else if p == 1 {
        Reg16::DE
    } else if p == 2 {
        Reg16::HL
    } else {
        Reg16::SP
    }
}

fn rr_stack(p: u8) -> (r: Reg16)
    ensures
        r == rr_stack_of(p),
{
    if p == 0 {
        Reg16::BC
    } else if p == 1 {
        Reg16::DE
    } else if p == 2 {
        Reg16::HL
    } else {
        Reg16::AF
    }
}

fn alu_op(y: u8) -> (r: AluOp)
    ensures
        r == alu_of(y),
{
    if y == 0 {
        AluOp::Add
    } else if y == 1 {
        AluOp::Adc
    } else if y == 2 {
        AluOp::Sub
    } else if y == 3 {
        AluOp::Sbc
    } else if y == 4 {
        AluOp::And
    } else if y == 5 {
        AluOp::Xor
    } else if y == 6 {
        AluOp::Or
    } else {
        AluOp::Cp
    }
}

fn rot_op(y: u8) -> (r: RotOp)
    ensures
        r == rot_of(y),
{
    if y == 0 {
        RotOp::Rlc
    } else if y == 1 {
        RotOp::Rrc
    } else if y == 2 {
        RotOp::Rl
    } else if y == 3 {
        RotOp::Rr
    } else if y == 4 {
        RotOp::Sla
    } else if y == 5 {
        RotOp::Sra
    } else if y == 6 {
        RotOp::Swap
    } else {
        RotOp::Srl
    }
}

/// Decodes an opcode of the primary table.
pub fn decode_instr(op: u8) -> (r: Option<Instr>)
    ensures
        r == instr_of(op),
        r matches Some(i) ==> i == Instr::Prefix || instr_ok(i),
{
    let y = (op >> 3) & 7;
    let z = op & 7;
    let p = (op >> 4) & 3;
    let a = Operand8::Reg(Reg8::A);
    if op == 0x00 {
        Some(Instr::Nop)
    } else if op == 0xCB {
        Some(Instr::Prefix)
    } else if op == 0x76 {
        Some(Instr::Halt)
    } else if 0x40 <= op && op <= 0x7F {
        Some(Instr::Ld(op8(y), op8(z)))
    } else if 0x80 <= op && op <= 0xBF {
        Some(Instr::Alu(alu_op(y), op8(z)))
    } else if op & 0xC7 == 0xC6 {
        Some(Instr::Alu(alu_op(y), Operand8::Imm(Imm8)))
    } else if op & 0xC7 == 0x04 {
        Some(Instr::Unary(UnaryOp::Inc, op8(y)))
    } else if op & 0xC7 == 0x05 {
        Some(Instr::Unary(UnaryOp::Dec, op8(y)))
    } else if op & 0xC7 == 0x06 {
        Some(Instr::Ld(op8(y), Operand8::Imm(Imm8)))
    } else if op & 0xCF == 0x01 {
        Some(Instr::Ld16(Operand16::Reg(rr(p)), Operand16::Imm(Imm16)))
    } else if op & 0xCF == 0x03 {
        Some(Instr::Inc16(rr(p)))
    } else if op & 0xCF == 0x0B {
        Some(Instr::Dec16(rr(p)))
    } else if op & 0xCF == 0xC1 {
        Some(Instr::Pop(rr_stack(p)))
    } else if op & 0xCF == 0xC5 {
        Some(Instr::Push(rr_stack(p)))
    } else if op == 0x02 {
        Some(Instr::Ld(Operand8::Ind(Indirect::BC), a))
    } else if op == 0x12 {
        Some(Instr::Ld(Operand8::Ind(Indirect::DE), a))
    } else if op == 0x22 {
        Some(Instr::Ld(Operand8::Ind(Indirect::HLI), a))
    } else if op == 0x32 {
        Some(Instr::Ld(Operand8::Ind(Indirect::HLD), a))
    } else if op == 0x0A {
        Some(Instr::Ld(a, Operand8::Ind(Indirect::BC)))
    } else if op == 0x1A {
        Some(Instr::Ld(a, Operand8::Ind(Indirect::DE)))
    } else if op == 0x2A {
        Some(Instr::Ld(a, Operand8::Ind(Indirect::HLI)))
    } else if op == 0x3A {
        Some(Instr::Ld(a, Operand8::Ind(Indirect::HLD)))
    } else if op == 0x07 {
        Some(Instr::RotA(RotOp::Rlc))
    } else if op == 0x0F {
        Some(Instr::RotA(RotOp::Rrc))
    } else if op == 0x17 {
        Some(Instr::RotA(RotOp::Rl))
    } else if op == 0x1F {
        Some(Instr::RotA(RotOp::Rr))
    } else if op == 0x08 {
        Some(Instr::Ld16(Operand16::Dir(Direct16), Operand16::Reg(Reg16::SP)))
    } else if op == 0x18 {
        Some(Instr::Jr)
    } else if op == 0x20 {
        Some(Instr::JrC(Cond::NZ))
    } else if op == 0x28 {
        Some(Instr::JrC(Cond::Z))
    } else if op == 0x30 {
        Some(Instr::JrC(Cond::NC))
    } else if op == 0x38 {
        Some(Instr::JrC(Cond::C))
    } else if op == 0xC3 {
        Some(Instr::Jp)
    } else if op == 0xC9 {
        Some(Instr::Ret)
    } else if op == 0xCD {
        Some(Instr::Call)
    } else if op == 0xE0 {
        Some(Instr::Ld(Operand8::Dir(Direct8::DFF), a))
    } else if op == 0xF0 {
        Some(Instr::Ld(a, Operand8::Dir(Direct8::DFF)))
    } else if op == 0xE2 {
        Some(Instr::Ld(Operand8::Ind(Indirect::CFF), a))
    } else if op == 0xF2 {
        Some(Instr::Ld(a, Operand8::Ind(Indirect::CFF)))
    } else if op == 0xEA {
        Some(Instr::Ld(Operand8::Dir(Direct8::D), a))
    } else if op == 0xFA {
        Some(Instr::Ld(a, Operand8::Dir(Direct8::D)))
    } else if op & 0xC7 == 0xC7 {
        Some(Instr::Rst(op & 0x38))
    } else if op & 0xCF == 0x09 {
        Some(Instr::AddHl(rr(p)))
    } else if op & 0xE7 == 0xC2 {
        Some(Instr::JpC(cond(y & 3)))
    } else if op & 0xE7 == 0xC4 {
        Some(Instr::CallC(cond(y & 3)))
    } else if op & 0xE7 == 0xC0 {
        Some(Instr::RetC(cond(y & 3)))
    } else if op == 0xD9 {
        Some(Instr::Reti)
    } else if op == 0xE9 {
        Some(Instr::JpHl)
    } else if op == 0xF9 {
        Some(Instr::LdSpHl)
    } else if op == 0x2F {
        Some(Instr::Acc(AccOp::Cpl))
    } else if op == 0x37 {
        Some(Instr::Acc(AccOp::Scf))
    } else if op == 0x3F {
        Some(Instr::Acc(AccOp::Ccf))
    } else if op == 0x27 {
        Some(Instr::Acc(AccOp::Daa))
    } else if op == 0xFB {
        Some(Instr::Ei)
    } else if op == 0xF3 {
        Some(Instr::Di)
    } else if op == 0x10 {
        Some(Instr::Stop)
    } else if op == 0xE8 {
        Some(Instr::AddSp)
    } else if op == 0xF8 {
        Some(Instr::LdHlSp)
    } else {
        None
    }
}

/// Decodes an opcode of the CB-prefixed table; every byte is one.
pub fn decode_cb_instr(op: u8) -> (r: Instr)
    ensures
        r == cb_instr(op),
        instr_ok(r),
{
    let x = op >> 6;
    let y = (op >> 3) & 7;
    let s = op8(op & 7);
    assert((op >> 3u8) & 7 < 8) by (bit_vector);
    if x == 0 {
        Instr::Unary(UnaryOp::Rot(rot_op(y)), s)
    } else if x == 1 {
        Instr::Bit(y, s)
    } else if x == 2 {
        Instr::Unary(UnaryOp::ResBit(y), s)
    } else {
        Instr::Unary(UnaryOp::SetBit(y), s)
    }
}

impl Cpu {
    /// Runs one M-cycle of instruction `i`.
    pub fn execute(&mut self, bus: &mut Peripherals, i: Instr)
        requires
            old(self).wf(),
            old(bus)@.wf(),
            instr_ok(i),
        ensures
            (*final(self), final(bus)@) == exec_s(*old(self), old(bus)@, i),
            final(self).wf(),
            final(bus)@.wf(),
    {
        match i {
            Instr::Nop => self.nop(bus),
            Instr::Ld(d, s) => self.ld(bus, d, s),
            Instr::Ld16(d, s) => self.ld16(bus, d, s),
            Instr::Alu(op, s) => self.alu(bus, op, s),
            Instr::Unary(op, s) => self.unary(bus, op, s),
            Instr::Bit(n, s) => self.bit(bus, n, s),
            Instr::Inc16(r) => self.inc16(bus, r),
            Instr::Dec16(r) => self.dec16(bus, r),
            Instr::RotA(op) => self.rota(bus, op),
            Instr::Push(r) => self.push(bus, r),
            Instr::Pop(r) => self.pop(bus, r),
            Instr::Jr => self.jr(bus),
            Instr::JrC(cond) => self.jr_c(bus, cond),
            Instr::Jp => self.jp(bus),
            Instr::Call => self.call(bus),
            Instr::Ret => self.ret(bus),
            _ => self.execute_control(bus, i),
        }
    }

    /// Runs one M-cycle of a control or accumulator instruction.
    fn execute_control(&mut self, bus: &mut Peripherals, i: Instr)
        requires
            old(self).wf(),
            old(bus)@.wf(),
            i is Reti || i is JpC || i is CallC || i is RetC || i is Rst || i is JpHl || i is LdSpHl
                || i is AddHl || i is Acc || i is Ei || i is Di || i is Halt || i is Stop || i is AddSp
                || i is LdHlSp,
        ensures
            (*final(self), final(bus)@) == exec_s(*old(self), old(bus)@, i),
            final(self).wf(),
            final(bus)@.wf(),
    {
        match i {
            Instr::Reti => self.reti(bus),
            Instr::JpC(cond) => self.jp_c(bus, cond),
            Instr::CallC(cond) => self.call_c(bus, cond),
            Instr::RetC(cond) => self.ret_c(bus, cond),
            Instr::Rst(n) => self.rst(bus, n),
            Instr::JpHl => self.jp_hl(bus),
            Instr::LdSpHl => self.ld_sp_hl(bus),
            Instr::AddHl(r) => self.add_hl(bus, r),
            Instr::Acc(op) => self.acc(bus, op),
            Instr::Ei => self.ei(bus),
            Instr::Di => self.di(bus),
            Instr::Halt => self.halt(bus),
            Instr::Stop => self.stop(bus),
            Instr::AddSp => self.sp_offset(bus, false),
            Instr::LdHlSp => self.sp_offset(bus, true),
            _ => {},
        }
    }

    /// Whether the instruction in flight is one this CPU implements; an
    /// unknown opcode is fatal to the caller.
    pub fn can_decode(&self) -> (r: bool)
        ensures
            r == decodable(*self),
    {
        self.ctx.isr || self.ctx.cb || decode_instr(self.ctx.opcode).is_some()
    }

    /// Runs one M-cycle of the instruction in flight, through the table its
    /// opcode belongs to.
    pub fn decode(&mut self, bus: &mut Peripherals)
        requires
            old(self).wf(),
            old(bus)@.wf(),
            decodable(*old(self)),
        ensures
            (*final(self), final(bus)@) == cycle_s(*old(self), old(bus)@),
            final(self).wf(),
            final(bus)@.wf(),
    {
        if self.ctx.isr {
            self.interrupt(bus);
            return ;
        }
        if self.ctx.cb {
            // an instruction of the second table is under way
            self.cb_decode(bus);
            return ;
        }
        match decode_instr(self.ctx.opcode) {
            Some(Instr::Prefix) => self.cb_prefixed(bus),
            Some(i) => self.execute(bus, i),
            None => {},
        }
    }

    /// Runs one M-cycle of the CB-table instruction whose opcode is in flight.
    pub fn cb_decode(&mut self, bus: &mut Peripherals)
        requires
            old(self).wf(),
            old(bus)@.wf(),
        ensures
            (*final(self), final(bus)@) == exec_s(
                *old(self),
                old(bus)@,
                cb_instr(old(self).ctx.opcode),
            ),
            final(self).wf(),
            final(bus)@.wf(),
    {
        let i = decode_cb_instr(self.ctx.opcode);
        self.execute(bus, i)
    }

    /// The 0xCB prefix: reads the second opcode and starts its instruction
    /// on the same M-cycle.
    pub fn cb_prefixed(&mut self, bus: &mut Peripherals)
        requires
            old(self).wf(),
            old(bus)@.wf(),
        ensures
            (*final(self), final(bus)@) == prefix_s(*old(self), old(bus)@),
            final(self).wf(),
            final(bus)@.wf(),
    {
        if let Some(v) = self.read8(bus, Operand8::Imm(Imm8)) {
            self.ctx.opcode = v;
            self.ctx.cb = true;
            self.cb_decode(bus);
        }
    }

    /// Performs one M-cycle of work: at most one bus access, and on the
    /// M-cycle an instruction retires, the fetch of the next opcode.
    pub fn emulate_cycle(&mut self, bus: &mut Peripherals)
        requires
            old(self).wf(),
            old(bus)@.wf(),
            decodable(*old(self)),
        ensures
            (*final(self), final(bus)@) == cycle_s(*old(self), old(bus)@),
            final(self).wf(),
            final(bus)@.wf(),
    {
        self.decode(bus);
    }
}

} // verus!
