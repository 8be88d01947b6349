//! The register file and its flag bits.

use vstd::prelude::*;

verus! {

/// Bit of the flag register that records a zero result.
pub const FLAG_Z: u8 = 0x80;
/// Bit of the flag register that records a subtraction.
pub const FLAG_N: u8 = 0x40;
/// Bit of the flag register that records a carry out of bit 3.
pub const FLAG_H: u8 = 0x20;
/// Bit of the flag register that records a carry out of bit 7.
pub const FLAG_C: u8 = 0x10;

/// The 16-bit value whose high byte is `hi` and low byte is `lo`.
pub open spec fn pair(hi: u8, lo: u8) -> u16 {
    (hi as int * 256 + lo as int) as u16
}

/// High byte of a 16-bit value.
pub open spec fn high_byte(v: u16) -> u8 {
    (v as int / 256) as u8
}

/// Low byte of a 16-bit value.
pub open spec fn low_byte(v: u16) -> u8 {
    (v as int % 256) as u8
}

/// `f` with bit `mask` set when `on` holds and cleared otherwise.
pub open spec fn with_flag(f: u8, mask: u8, on: bool) -> u8 {
    if on {
        f | mask
    } else {
        f & !mask
    }
}

/// The flag register holding exactly the four given flags.
pub open spec fn flags_of(z: bool, n: bool, h: bool, c: bool) -> u8 {
    (if z { FLAG_Z } else { 0u8 }) | (if n { FLAG_N } else { 0u8 }) | (if h { FLAG_H } else { 0u8 })
        | (if c { FLAG_C } else { 0u8 })
}

pub proof fn lemma_pair(hi: u8, lo: u8)
    ensures
        ((hi as u16) << 8u16) | (lo as u16) == pair(hi, lo),
        high_byte(pair(hi, lo)) == hi,
        low_byte(pair(hi, lo)) == lo,
{
    assert(((hi as u16) << 8u16) | (lo as u16) == (hi as u16) * 256 + (lo as u16)) by (bit_vector);
}

pub proof fn lemma_split(v: u16)
    ensures
        (v >> 8u16) as u8 == high_byte(v),
        v as u8 == low_byte(v),
        (v & 0xF0) as u8 == low_byte(v) & 0xF0,
        pair(high_byte(v), low_byte(v)) == v,
{
    assert((v >> 8u16) as u8 == v / 256) by (bit_vector);
    assert(v as u8 == v % 256) by (bit_vector);
    assert((v & 0xF0) as u8 == (v % 256) as u8 & 0xF0) by (bit_vector);
}

proof fn lemma_flag_bits(f: u8, mask: u8, m: u8)
    by (bit_vector)
    requires
        mask == 0x80u8 || mask == 0x40u8 || mask == 0x20u8 || mask == 0x10u8,
    ensures
        ((f | mask) & mask) != 0,
        (f & !mask) & mask == 0,
        ((f | mask) & 0x0F) == f & 0x0F,
        ((f & !mask) & 0x0F) == f & 0x0F,
        (m == 0x80u8 || m == 0x40u8 || m == 0x20u8 || m == 0x10u8) && m != mask ==> ((f | mask) & m)
            == (f & m) && ((f & !mask) & m) == (f & m),
{
}

/// Setting or clearing one flag bit keeps the low nibble clear and leaves
/// the other flag bits alone.
pub proof fn lemma_with_flag(f: u8, mask: u8, on: bool)
    requires
        mask == FLAG_Z || mask == FLAG_N || mask == FLAG_H || mask == FLAG_C,
    ensures
        (with_flag(f, mask, on) & mask != 0) == on,
        with_flag(f, mask, on) & 0x0F == f & 0x0F,
        forall|m: u8|
            #![trigger with_flag(f, mask, on) & m]
            (m == FLAG_Z || m == FLAG_N || m == FLAG_H || m == FLAG_C) && m != mask ==> (
            with_flag(f, mask, on) & m) == (f & m),
{
    lemma_flag_bits(f, mask, 0);
    assert forall|m: u8|
        (m == FLAG_Z || m == FLAG_N || m == FLAG_H || m == FLAG_C) && m != mask implies (
        with_flag(f, mask, on) & m) == (f & m) by {
        lemma_flag_bits(f, mask, m);
    }
}

/// The four flags read back from `flags_of` are the ones put in, and its low
/// nibble is clear.
pub proof fn lemma_flags_of(z: bool, n: bool, h: bool, c: bool)
    ensures
        (flags_of(z, n, h, c) & FLAG_Z != 0) == z,
        (flags_of(z, n, h, c) & FLAG_N != 0) == n,
        (flags_of(z, n, h, c) & FLAG_H != 0) == h,
        (flags_of(z, n, h, c) & FLAG_C != 0) == c,
        flags_of(z, n, h, c) & 0x0F == 0,
{
    let zi: u8 = if z { FLAG_Z } else { 0u8 };
    let ni: u8 = if n { FLAG_N } else { 0u8 };
    let hi: u8 = if h { FLAG_H } else { 0u8 };
    let ci: u8 = if c { FLAG_C } else { 0u8 };
    assert({
        let w: u8 = zi | ni | hi | ci;
        &&& (w & 0x80 != 0) == (zi == 0x80)
        &&& (w & 0x40 != 0) == (ni == 0x40)
        &&& (w & 0x20 != 0) == (hi == 0x20)
        &&& (w & 0x10 != 0) == (ci == 0x10)
        &&& w & 0x0F == 0
    }) by (bit_vector)
        requires
            zi == 0 || zi == 0x80,
            ni == 0 || ni == 0x40,
            hi == 0 || hi == 0x20,
            ci == 0 || ci == 0x10,
    ;
}

/// The register file: eight 8-bit registers and the two 16-bit registers.
/// The low nibble of `f` is always zero (see `wf`).
#[derive(Clone, Copy, Debug, Default, PartialEq, Eq, Structural)]
pub struct Registers {
    /// Address of the next byte the CPU fetches.
    pub pc: u16,
    /// Stack pointer.
    pub sp: u16,
    pub a: u8,
    pub b: u8,
    pub c: u8,
    pub d: u8,
    pub e: u8,
    /// Flags Z, N, H, C in bits 7..4.
    pub f: u8,
    pub h: u8,
    pub l: u8,
}

impl Registers {
    pub open spec fn wf(&self) -> bool {
        self.f & 0x0F == 0
    }

    pub open spec fn spec_af(&self) -> u16 {
        pair(self.a, self.f)
    }

    pub open spec fn spec_bc(&self) -> u16 {
        pair(self.b, self.c)
    }

    pub open spec fn spec_de(&self) -> u16 {
        pair(self.d, self.e)
    }

    pub open spec fn spec_hl(&self) -> u16 {
        pair(self.h, self.l)
    }

    pub open spec fn spec_zf(&self) -> bool {
        self.f & FLAG_Z != 0
    }

    pub open spec fn spec_nf(&self) -> bool {
        self.f & FLAG_N != 0
    }

    pub open spec fn spec_hf(&self) -> bool {
        self.f & FLAG_H != 0
    }

    pub open spec fn spec_cf(&self) -> bool {
        self.f & FLAG_C != 0
    }

    /// The registers with AF replaced, the low nibble of F cleared.
    pub open spec fn with_af(self, v: u16) -> Registers {
        Registers { a: high_byte(v), f: low_byte(v) & 0xF0, ..self }
    }

    pub open spec fn with_bc(self, v: u16) -> Registers {
        Registers { b: high_byte(v), c: low_byte(v), ..self }
    }

    pub open spec fn with_de(self, v: u16) -> Registers {
        Registers { d: high_byte(v), e: low_byte(v), ..self }
    }

    pub open spec fn with_hl(self, v: u16) -> Registers {
        Registers { h: high_byte(v), l: low_byte(v), ..self }
    }

    pub fn af(&self) -> (r: u16)
        ensures
            r == self.spec_af(),
    {
        proof {
            lemma_pair(self.a, self.f);
        }
        ((self.a as u16) << 8) | (self.f as u16)
    }

    pub fn bc(&self) -> (r: u16)
        ensures
            r == self.spec_bc(),
    {
        proof {
            lemma_pair(self.b, self.c);
        }
        ((self.b as u16) << 8) | (self.c as u16)
    }

    pub fn de(&self) -> (r: u16)
        ensures
            r == self.spec_de(),
    {
        proof {
            lemma_pair(self.d, self.e);
        }
        ((self.d as u16) << 8) | (self.e as u16)
    }

    pub fn hl(&self) -> (r: u16)
        ensures
            r == self.spec_hl(),
    {
        proof {
            lemma_pair(self.h, self.l);
        }
        ((self.h as u16) << 8) | (self.l as u16)
    }

    /// Writes AF; the low nibble of F is always stored as zero.
    pub fn write_af(&mut self, val: u16)
        ensures
            *final(self) == old(self).with_af(val),
            final(self).wf(),
    {
        proof {
            lemma_split(val);
            let lo = low_byte(val);
            assert(lo & 0xF0 & 0x0F == 0) by (bit_vector);
        }
        self.a = (val >> 8) as u8;
        self.f = (val & 0xF0) as u8;
    }

    pub fn write_bc(&mut self, val: u16)
        ensures
            *final(self) == old(self).with_bc(val),
    {
        proof {
            lemma_split(val);
        }
        self.b = (val >> 8) as u8;
        self.c = val as u8;
    }

    pub fn write_de(&mut self, val: u16)
        ensures
            *final(self) == old(self).with_de(val),
    {
        proof {
            lemma_split(val);
        }
        self.d = (val >> 8) as u8;
        self.e = val as u8;
    }

    pub fn write_hl(&mut self, val: u16)
        ensures
            *final(self) == old(self).with_hl(val),
    {
        proof {
            lemma_split(val);
        }
        self.h = (val >> 8) as u8;
        self.l = val as u8;
    }

    /// Z: the last result was zero.
    pub fn zf(&self) -> (r: bool)
        ensures
            r == self.spec_zf(),
    {
        self.f & FLAG_Z != 0
    }

    /// N: the last operation was a subtraction.
    pub fn nf(&self) -> (r: bool)
        ensures
            r == self.spec_nf(),
    {
        self.f & FLAG_N != 0
    }

    /// H: a carry (or borrow) crossed bit 3.
    pub fn hf(&self) -> (r: bool)
        ensures
            r == self.spec_hf(),
    {
        self.f & FLAG_H != 0
    }

    /// C: a carry (or borrow) crossed bit 7.
    pub fn cf(&self) -> (r: bool)
        ensures
            r == self.spec_cf(),
    {
        self.f & FLAG_C != 0
    }

    pub fn set_zf(&mut self, zf: bool)
        ensures
            *final(self) == (Registers { f: with_flag(old(self).f, FLAG_Z, zf), ..*old(self) }),
            final(self).spec_zf() == zf,
            final(self).spec_nf() == old(self).spec_nf(),
            final(self).spec_hf() == old(self).spec_hf(),
            final(self).spec_cf() == old(self).spec_cf(),
            final(self).f & 0x0F == old(self).f & 0x0F,
    {
        proof {
            lemma_with_flag(self.f, FLAG_Z, zf);
        }
        if zf {
            self.f |= FLAG_Z;
        } else {
            self.f &= !FLAG_Z;
        }
    }

    pub fn set_nf(&mut self, nf: bool)
        ensures
            *final(self) == (Registers { f: with_flag(old(self).f, FLAG_N, nf), ..*old(self) }),
            final(self).spec_nf() == nf,
            final(self).spec_zf() == old(self).spec_zf(),
            final(self).spec_hf() == old(self).spec_hf(),
            final(self).spec_cf() == old(self).spec_cf(),
            final(self).f & 0x0F == old(self).f & 0x0F,
    {
        proof {
            lemma_with_flag(self.f, FLAG_N, nf);
        }
        if nf {
            self.f |= FLAG_N;
        } else {
            self.f &= !FLAG_N;
        }
    }

    pub fn set_hf(&mut self, hf: bool)
        ensures
            *final(self) == (Registers { f: with_flag(old(self).f, FLAG_H, hf), ..*old(self) }),
            final(self).spec_hf() == hf,
            final(self).spec_zf() == old(self).spec_zf(),
            final(self).spec_nf() == old(self).spec_nf(),
            final(self).spec_cf() == old(self).spec_cf(),
            final(self).f & 0x0F == old(self).f & 0x0F,
    {
        proof {
            lemma_with_flag(self.f, FLAG_H, hf);
        }
        if hf {
            self.f |= FLAG_H;
        } else {
            self.f &= !FLAG_H;
        }
    }

    pub fn set_cf(&mut self, cf: bool)
        ensures
            *final(self) == (Registers { f: with_flag(old(self).f, FLAG_C, cf), ..*old(self) }),
            final(self).spec_cf() == cf,
            final(self).spec_zf() == old(self).spec_zf(),
            final(self).spec_nf() == old(self).spec_nf(),
            final(self).spec_hf() == old(self).spec_hf(),
            final(self).f & 0x0F == old(self).f & 0x0F,
    {
        proof {
            lemma_with_flag(self.f, FLAG_C, cf);
        }
        if cf {
            self.f |= FLAG_C;
        } else {
            self.f &= !FLAG_C;
        }
    }
}

} // verus!
