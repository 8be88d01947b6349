//! Properties that span several calls: frame timing, register read-back,
//! memory round trips, and stack and load round trips.

use vstd::prelude::*;
use crate::cpu::{Cpu, Ctx, fetch_s};
use crate::decode::{Instr, exec_s};
use crate::instructions::ld_s;
use crate::operand::{Operand8, Reg16, Reg8, reg16, reg8, set_reg8, wsub16};
use crate::peripherals::{BusView, is_hram};
use crate::ppu::{
    IRQ_LCD_STAT, IRQ_VBLANK, LcdRegs, Mode, PpuView, Timing, enters_vblank, frame_done, irq_bits,
    raised, stat_read, stat_request, tick,
};
use crate::registers::Registers;

verus! {

/// The timing state after `n` M-cycles of an enabled PPU.
pub open spec fn ticks(t: Timing, n: nat) -> Timing
    decreases n,
{
    if n == 0 {
        t
    } else {
        tick(ticks(t, (n - 1) as nat))
    }
}

/// The start of a frame: OAM scan of line 0.
pub open spec fn frame_start() -> Timing {
    Timing { mode: Mode::OamScan, ly: 0, cycles: 20 }
}

/// The timing state `r` M-cycles into line `line` of a frame.
pub open spec fn line_at(line: int, r: int) -> Timing {
    if line < 144 {
        if r < 20 {
            Timing { mode: Mode::OamScan, ly: line as u8, cycles: (20 - r) as u8 }
        } else if r < 63 {
            Timing { mode: Mode::Drawing, ly: line as u8, cycles: (63 - r) as u8 }
        } else {
            Timing { mode: Mode::HBlank, ly: line as u8, cycles: (114 - r) as u8 }
        }
    } else {
        Timing { mode: Mode::VBlank, ly: line as u8, cycles: (114 - r) as u8 }
    }
}

proof fn lemma_ticks_add(t: Timing, a: nat, b: nat)
    ensures
        ticks(t, a + b) == ticks(ticks(t, a), b),
    decreases b,
{
    if b > 0 {
        lemma_ticks_add(t, a, (b - 1) as nat);
        assert(ticks(t, a + b) == tick(ticks(t, (a + b - 1) as nat)));
    }
}

/// One M-cycle moves one step along the frame.
proof fn lemma_line_step(line: int, r: int)
    requires
        0 <= line < 154,
        0 <= r < 114,
    ensures
        r < 113 ==> tick(line_at(line, r)) == line_at(line, r + 1),
        r == 113 && line < 153 ==> tick(line_at(line, r)) == line_at(line + 1, 0),
        r == 113 && line == 153 ==> tick(line_at(line, r)) == frame_start(),
{
}

proof fn lemma_within_line(line: int, r: nat)
    requires
        0 <= line < 154,
        r < 114,
    ensures
        ticks(line_at(line, 0), r) == line_at(line, r as int),
    decreases r,
{
    if r > 0 {
        lemma_within_line(line, (r - 1) as nat);
        lemma_line_step(line, r - 1);
    }
}

proof fn lemma_lines(line: nat)
    requires
        line < 154,
    ensures
        ticks(frame_start(), 114 * line) == line_at(line as int, 0),
    decreases line,
{
    if line > 0 {
        let prev = (line - 1) as nat;
        lemma_lines(prev);
        lemma_within_line(prev as int, 113);
        lemma_line_step(prev as int, 113);
        lemma_ticks_add(frame_start(), 114 * prev, 113);
        lemma_ticks_add(frame_start(), 114 * prev + 113, 1);
        assert(114 * line == 114 * prev + 113 + 1);
    }
}

/// Where the PPU stands `k` M-cycles after the start of a frame.
proof fn lemma_in_frame(k: nat)
    requires
        k < 17556,
    ensures
        ticks(frame_start(), k) == line_at(k as int / 114, k as int % 114),
{
    let line = k / 114;
    let r = k % 114;
    assert(k == 114 * line + r);
    lemma_lines(line);
    lemma_within_line(line as int, r);
    lemma_ticks_add(frame_start(), 114 * line, r);
}

/// A frame of an enabled PPU lasts 17,556 M-cycles (154 lines of 114): from
/// the start of a frame, the M-cycle that completes it is the 17,556th,
/// and no earlier one does; after it the PPU stands at the start of the
/// next frame.
pub proof fn lemma_frame_length()
    ensures
        ticks(frame_start(), 17556) == frame_start(),
        forall|k: nat| k < 17556 ==> (#[trigger] frame_done(ticks(frame_start(), k)) <==> k == 17555),
{
    lemma_in_frame(17555);
    lemma_line_step(153, 113);
    assert forall|k: nat| k < 17556 implies (#[trigger] frame_done(ticks(frame_start(), k)) <==> k
        == 17555) by {
        lemma_in_frame(k);
    }
}

/// Within one frame LY wraps from 153 to 0 exactly once, on the frame's last
/// M-cycle, and VBlank is entered, raising its interrupt, exactly once,
/// at the end of line 143.
pub proof fn lemma_frame_events()
    ensures
        forall|k: nat|
            k < 17556 ==> ((#[trigger] ticks(frame_start(), k)).ly == 153 && tick(
                ticks(frame_start(), k),
            ).ly == 0 <==> k == 17555),
        forall|k: nat|
            k < 17556 ==> (#[trigger] enters_vblank(ticks(frame_start(), k)) <==> k == 16415),
{
    assert forall|k: nat| k < 17556 implies ((#[trigger] ticks(frame_start(), k)).ly == 153 && tick(
        ticks(frame_start(), k),
    ).ly == 0 <==> k == 17555) by {
        lemma_in_frame(k);
        let line = k as int / 114;
        let r = k as int % 114;
        lemma_line_step(line, r);
    }
    assert forall|k: nat| k < 17556 implies (#[trigger] enters_vblank(ticks(frame_start(), k))
        <==> k == 16415) by {
        lemma_in_frame(k);
        let line = k as int / 114;
        let r = k as int % 114;
        lemma_line_step(line, r);
    }
}

/// An address of work RAM or high RAM: memory that holds what is written.
pub open spec fn is_ram(addr: u16) -> bool {
    0xC000 <= addr <= 0xDFFF || is_hram(addr)
}

/// STAT reads back the mode in bits 0-1 and LYC == LY in bit 2, in every
/// state a PPU can be in.
pub proof fn lemma_stat_reflects(v: PpuView)
    requires
        v.wf(),
    ensures
        v.read(0xFF41) & 3 == v.r.mode.spec_bits(),
        (v.read(0xFF41) & 4 != 0) == (v.r.ly == v.r.lyc),
{
    let s = v.r.stat;
    let m = v.r.mode.spec_bits();
    assert(v.read(0xFF41) == stat_read(v.r));
    assert((0x80u8 | s | m) & 3 == m && ((0x80u8 | s | m) & 4 != 0) == (s & 4 != 0)) by (bit_vector)
        requires
            s & 0x83 == 0,
            m <= 3,
    ;
}

/// A byte written to VRAM, work RAM or high RAM reads back, as long as the
/// PPU is not drawing and no OAM DMA runs.
pub proof fn lemma_write_read(b: BusView, addr: u16, v: u8)
    requires
        b.wf(),
        !b.dma_active(),
        b.ppu.r.mode != Mode::Drawing,
        0x8000 <= addr <= 0x9FFF || is_ram(addr),
    ensures
        b.write(addr, v).read(addr) == v,
{
}

/// A write to RAM changes that byte only.
proof fn lemma_ram_write(b: BusView, addr: u16, v: u8, other: u16)
    requires
        b.wf(),
        !b.dma_active(),
        is_ram(addr),
        is_ram(other),
    ensures
        b.write(addr, v).wf(),
        !b.write(addr, v).dma_active(),
        b.write(addr, v).read(other) == if addr == other {
            v
        } else {
            b.read(other)
        },
{
}

/// `n` M-cycles of instruction `i`.
pub open spec fn run(c: Cpu, b: BusView, i: Instr, n: nat) -> (Cpu, BusView)
    decreases n,
{
    if n == 0 {
        (c, b)
    } else {
        let (c1, b1) = run(c, b, i, (n - 1) as nat);
        exec_s(c1, b1, i)
    }
}

/// PUSH rr (4 M-cycles) followed by POP rr (3 M-cycles) gives back rr and
/// SP, when the two bytes below SP are RAM.
#[verifier::rlimit(60)]
pub proof fn lemma_push_pop(c: Cpu, b: BusView, r: Reg16)
    requires
        c.wf(),
        b.wf(),
        !b.dma_active(),
        c.ctx.step == 0,
        c.ctx.op_step == 0,
        is_ram(wsub16(c.regs.sp, 1)),
        is_ram(wsub16(c.regs.sp, 2)),
    ensures
        ({
            let (c1, b1) = run(c, b, Instr::Push(r), 4);
            let (c2, b2) = run(c1, b1, Instr::Pop(r), 3);
            &&& c1.ctx.step == 0 && c1.ctx.op_step == 0
            &&& c2.ctx.step == 0 && c2.ctx.op_step == 0
            &&& reg16(c2.regs, r) == reg16(c.regs, r)
            &&& c2.regs.sp == c.regs.sp
        }),
{
    let sp1 = wsub16(c.regs.sp, 1);
    let sp2 = wsub16(c.regs.sp, 2);
    let v = reg16(c.regs, r);
    reveal_with_fuel(run, 5);
    let (after_push1, bus_push1) = run(c, b, Instr::Push(r), 1);
    let (after_push2, bus_push2) = run(c, b, Instr::Push(r), 2);
    let (after_push3, bus_push3) = run(c, b, Instr::Push(r), 3);
    let (after_push4, bus_push4) = run(c, b, Instr::Push(r), 4);
    assert(bus_push1 == b);
    assert(after_push1.ctx.val16 == v && after_push1.ctx.op_step == 1 && after_push1.regs.sp == c.regs.sp);
    crate::registers::lemma_split(v);
    lemma_ram_write(b, sp1, crate::registers::high_byte(v), sp2);
    assert(bus_push2 == b.write(sp1, crate::registers::high_byte(v)));
    assert(after_push2.regs.sp == sp1);
    assert(wsub16(sp1, 1) == sp2);
    lemma_ram_write(bus_push2, sp2, crate::registers::low_byte(v), sp1);
    lemma_ram_write(bus_push2, sp2, crate::registers::low_byte(v), sp2);
    assert(bus_push3 == bus_push2.write(sp2, crate::registers::low_byte(v)));
    assert(after_push3.regs.sp == sp2);
    assert(bus_push4 == bus_push3);
    assert(after_push4.regs.sp == sp2 && after_push4.ctx.step == 0 && after_push4.ctx.op_step == 0);
    let (after_pop1, bus_pop1) = run(after_push4, bus_push4, Instr::Pop(r), 1);
    let (after_pop2, bus_pop2) = run(after_push4, bus_push4, Instr::Pop(r), 2);
    assert(bus_pop1 == bus_push4 && bus_pop2 == bus_push4);
    assert(after_pop1.ctx.op_val8 == crate::registers::low_byte(v));
    assert(after_pop1.regs.sp == sp1);
    assert(after_pop2.ctx.op_val16 == v);
    assert(after_pop2.regs.sp == c.regs.sp);
    if r == Reg16::AF {
        let f = c.regs.f;
        assert(f & 0xF0 == f) by (bit_vector)
            requires
                f & 0x0F == 0,
        ;
    }
}

/// LD d, s then LD s, d on registers that hold the same value changes no
/// register but PC: each is a single M-cycle that does nothing but record
/// the value moved and fetch.
pub proof fn lemma_ld_swap(c: Cpu, b: BusView, d: Reg8, s: Reg8)
    requires
        c.wf(),
        b.wf(),
        c.ctx.step == 0,
        c.ctx.op_step == 0,
        reg8(c.regs, d) == reg8(c.regs, s),
    ensures
        ({
            let (c1, b1) = ld_s(c, b, Operand8::Reg(d), Operand8::Reg(s));
            let (c2, b2) = ld_s(c1, b1, Operand8::Reg(s), Operand8::Reg(d));
            &&& c1 == fetch_s(Cpu { ctx: Ctx { val8: reg8(c.regs, s), ..c.ctx }, ..c }, b)
            &&& c2 == fetch_s(Cpu { ctx: Ctx { val8: reg8(c.regs, s), ..c1.ctx }, ..c1 }, b)
            &&& c2.regs == (Registers { pc: c2.regs.pc, ..c.regs })
            &&& b1 == b && b2 == b
        }),
{
    assert(set_reg8(c.regs, d, reg8(c.regs, s)) == c.regs);
    assert(set_reg8(c.regs, s, reg8(c.regs, d)) == c.regs);
}

/// `n` M-cycles of the devices on the bus.
pub open spec fn bus_run(b: BusView, n: nat) -> BusView
    decreases n,
{
    if n == 0 {
        b
    } else {
        bus_run(b, (n - 1) as nat).cycle()
    }
}

/// A PPU switched off stays off and still: however many M-cycles pass,
/// none completes a frame.
pub proof fn lemma_disabled_never_frames(b: BusView, n: nat)
    requires
        b.wf(),
        !b.ppu.r.enabled(),
    ensures
        bus_run(b, n).wf(),
        !bus_run(b, n).ppu.r.enabled(),
        bus_run(b, n).ppu.r.timing() == b.ppu.r.timing(),
    decreases n,
{
    if n > 0 {
        lemma_disabled_never_frames(b, (n - 1) as nat);
    }
}

/// The PPU requests the VBlank interrupt on exactly the M-cycles that
/// enter VBlank.
pub proof fn lemma_vblank_request(r: LcdRegs)
    ensures
        (raised(r) & IRQ_VBLANK != 0) == enters_vblank(r.timing()),
{
    lemma_irq_bits(enters_vblank(r.timing()), stat_request(r));
}

proof fn lemma_irq_bits(vblank: bool, stat: bool)
    ensures
        (irq_bits(vblank, stat) & IRQ_VBLANK != 0) == vblank,
        (irq_bits(vblank, stat) & IRQ_LCD_STAT != 0) == stat,
{
    let v: u8 = if vblank {
        1
    } else {
        0
    };
    let t: u8 = if stat {
        2
    } else {
        0
    };
    assert(((v | t) & 1 != 0) == (v == 1) && ((v | t) & 2 != 0) == (t == 2)) by (bit_vector)
        requires
            v == 0 || v == 1,
            t == 0 || t == 2,
    ;
}

/// Once the boot ROM is switched off it stays off, whatever is written and
/// however many M-cycles pass.
pub proof fn lemma_boot_rom_stays_off(b: BusView, addr: u16, val: u8)
    requires
        !b.boot_active,
    ensures
        !b.write(addr, val).boot_active,
        !b.cycle().boot_active,
{
}

} // verus!
