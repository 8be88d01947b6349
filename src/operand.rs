//! Addressing-mode descriptors and the register views they read and write.

use vstd::prelude::*;
use crate::registers::{Registers, pair};

verus! {

/// An 8-bit register.
#[derive(Clone, Copy, Debug, PartialEq, Eq, Structural)]
pub enum Reg8 {
    A,
    B,
    C,
    D,
    E,
    H,
    L,
}

/// A 16-bit register, or a pair of 8-bit registers read as one.
#[derive(Clone, Copy, Debug, PartialEq, Eq, Structural)]
pub enum Reg16 {
    AF,
    BC,
    DE,
    HL,
    SP,
}

/// The byte at PC.
#[derive(Clone, Copy, Debug, PartialEq, Eq, Structural)]
pub struct Imm8;

/// The little-endian word at PC.
#[derive(Clone, Copy, Debug, PartialEq, Eq, Structural)]
pub struct Imm16;

/// The byte at an address held in registers.
#[derive(Clone, Copy, Debug, PartialEq, Eq, Structural)]
pub enum Indirect {
    BC,
    DE,
    HL,
    /// 0xFF00 | C
    CFF,
    /// HL, then HL is decremented
    HLD,
    /// HL, then HL is incremented
    HLI,
}

/// The byte at an address that follows the opcode.
#[derive(Clone, Copy, Debug, PartialEq, Eq, Structural)]
pub enum Direct8 {
    /// a 16-bit address at PC
    D,
    /// 0xFF00 | the byte at PC
    DFF,
}

/// The word at a 16-bit address that follows the opcode.
#[derive(Clone, Copy, Debug, PartialEq, Eq, Structural)]
pub struct Direct16;

/// A condition on the flags.
#[derive(Clone, Copy, Debug, PartialEq, Eq, Structural)]
pub enum Cond {
    NZ,
    Z,
    NC,
    C,
}

/// Where an 8-bit operand comes from or goes to.
#[derive(Clone, Copy, Debug, PartialEq, Eq, Structural)]
pub enum Operand8 {
    Reg(Reg8),
    Imm(Imm8),
    Ind(Indirect),
    Dir(Direct8),
}

/// Where a 16-bit operand comes from or goes to.
#[derive(Clone, Copy, Debug, PartialEq, Eq, Structural)]
pub enum Operand16 {
    Reg(Reg16),
    Imm(Imm16),
    Dir(Direct16),
}

impl Operand8 {
    /// Immediates can only be read.
    pub open spec fn writable(self) -> bool {
        !(self is Imm)
    }
}

impl Operand16 {
    /// Direct words are only written.
    pub open spec fn readable(self) -> bool {
        !(self is Dir)
    }

    /// Immediates can only be read.
    pub open spec fn writable(self) -> bool {
        !(self is Imm)
    }
}

/// `x + y` modulo 2^16.
pub open spec fn wadd16(x: u16, y: u16) -> u16 {
    if x + y > 0xFFFF {
        (x + y - 0x10000) as u16
    } else {
        (x + y) as u16
    }
}

/// `x - y` modulo 2^16.
pub open spec fn wsub16(x: u16, y: u16) -> u16 {
    if x - y < 0 {
        (x - y + 0x10000) as u16
    } else {
        (x - y) as u16
    }
}

pub open spec fn reg8(r: Registers, x: Reg8) -> u8 {
    match x {
        Reg8::A => r.a,
        Reg8::B => r.b,
        Reg8::C => r.c,
        Reg8::D => r.d,
        Reg8::E => r.e,
        Reg8::H => r.h,
        Reg8::L => r.l,
    }
}

pub open spec fn set_reg8(r: Registers, x: Reg8, v: u8) -> Registers {
    match x {
        Reg8::A => Registers { a: v, ..r },
        Reg8::B => Registers { b: v, ..r },
        Reg8::C => Registers { c: v, ..r },
        Reg8::D => Registers { d: v, ..r },
        Reg8::E => Registers { e: v, ..r },
        Reg8::H => Registers { h: v, ..r },
        Reg8::L => Registers { l: v, ..r },
    }
}

pub open spec fn reg16(r: Registers, x: Reg16) -> u16 {
    match x {
        Reg16::AF => r.spec_af(),
        Reg16::BC => r.spec_bc(),
        Reg16::DE => r.spec_de(),
        Reg16::HL => r.spec_hl(),
        Reg16::SP => r.sp,
    }
}

pub open spec fn set_reg16(r: Registers, x: Reg16, v: u16) -> Registers {
    match x {
        Reg16::AF => r.with_af(v),
        Reg16::BC => r.with_bc(v),
        Reg16::DE => r.with_de(v),
        Reg16::HL => r.with_hl(v),
        Reg16::SP => Registers { sp: v, ..r },
    }
}

/// The address an indirect operand designates.
pub open spec fn ind_addr(r: Registers, i: Indirect) -> u16 {
    match i {
        Indirect::BC => r.spec_bc(),
        Indirect::DE => r.spec_de(),
        Indirect::CFF => pair(0xFF, r.c),
        _ => r.spec_hl(),
    }
}

/// The registers after an access through an indirect operand.
pub open spec fn ind_after(r: Registers, i: Indirect) -> Registers {
    match i {
        Indirect::HLD => r.with_hl(wsub16(r.spec_hl(), 1)),
        Indirect::HLI => r.with_hl(wadd16(r.spec_hl(), 1)),
        _ => r,
    }
}

/// Whether a condition holds of the flags.
pub open spec fn cond_holds(r: Registers, c: Cond) -> bool {
    match c {
        Cond::NZ => !r.spec_zf(),
        Cond::Z => r.spec_zf(),
        Cond::NC => !r.spec_cf(),
        Cond::C => r.spec_cf(),
    }
}

} // verus!
