use gbemu::bootrom::Bootrom;
use gbemu::cartridge::Cartridge;
use gbemu::cpu::Cpu;
use gbemu::decode::{decode_cb_instr, decode_instr, Instr};
use gbemu::instructions::{AluOp, RotOp, UnaryOp};
use gbemu::operand::{Operand8, Reg16, Reg8};
use gbemu::peripherals::Peripherals;

/// A bus whose cartridge holds `rom`, with a boot ROM of 0x11 bytes.
fn bus_with_rom(rom: Vec<u8>) -> Peripherals {
    Peripherals::new(Bootrom::new(vec![0x11; 256]), Cartridge::new(rom))
}

/// A CPU about to fetch its first opcode at `pc`; `program` is written to
/// work RAM at 0xC000.
fn setup(program: &[u8]) -> (Cpu, Peripherals) {
    let mut bus = bus_with_rom(vec![0; 0x8000]);
    for (i, b) in program.iter().enumerate() {
        bus.write(0xC000 + i as u16, *b);
    }
    let mut cpu = Cpu::new();
    cpu.regs.pc = 0xC000;
    cpu.regs.sp = 0xFFFE;
    // the reset opcode is a NOP, whose fetch brings in the first opcode
    cpu.emulate_cycle(&mut bus);
    (cpu, bus)
}

/// Runs one whole instruction; returns the M-cycles it took.
fn run_instr(cpu: &mut Cpu, bus: &mut Peripherals) -> u32 {
    let mut n = 0;
    loop {
        assert!(cpu.can_decode());
        cpu.emulate_cycle(bus);
        n += 1;
        // only a fetch leaves both cursors at 0 outside the CB table
        if cpu.ctx.step == 0 && cpu.ctx.op_step == 0 && !cpu.ctx.cb {
            return n;
        }
        assert!(n < 10);
    }
}

#[test]
fn xor_a_clears_a_and_sets_only_z() {
    let (mut cpu, mut bus) = setup(&[0xAF]);
    cpu.regs.a = 0x5A;
    cpu.regs.f = 0x70;
    assert_eq!(run_instr(&mut cpu, &mut bus), 1);
    assert_eq!(cpu.regs.a, 0x00);
    assert_eq!(cpu.regs.f, 0x80);
}

#[test]
fn cp_equal_immediate_sets_z_and_n() {
    let (mut cpu, mut bus) = setup(&[0xFE, 0x10]);
    cpu.regs.a = 0x10;
    assert_eq!(run_instr(&mut cpu, &mut bus), 2);
    assert_eq!(cpu.regs.a, 0x10);
    assert_eq!(cpu.regs.f, 0xC0);
}

#[test]
fn add_a_a_half_carry() {
    let (mut cpu, mut bus) = setup(&[0x87]);
    cpu.regs.a = 0x08;
    run_instr(&mut cpu, &mut bus);
    assert_eq!(cpu.regs.a, 0x10);
    assert!(cpu.regs.hf());
    assert!(!cpu.regs.zf());
    assert!(!cpu.regs.nf());
    assert!(!cpu.regs.cf());
}

#[test]
fn alu_table_flags() {
    // ADC A, B with carry in: 0x0F + 0x00 + 1 = 0x10, H set
    let (mut cpu, mut bus) = setup(&[0x88]);
    cpu.regs.a = 0x0F;
    cpu.regs.b = 0x00;
    cpu.regs.f = 0x10;
    run_instr(&mut cpu, &mut bus);
    assert_eq!(cpu.regs.a, 0x10);
    assert_eq!(cpu.regs.f, 0x20);
    // SUB A, B: 0x10 - 0x20 borrows out of bit 7 only
    let (mut cpu, mut bus) = setup(&[0x90]);
    cpu.regs.a = 0x10;
    cpu.regs.b = 0x20;
    run_instr(&mut cpu, &mut bus);
    assert_eq!(cpu.regs.a, 0xF0);
    assert_eq!(cpu.regs.f, 0x50);
    // SBC A, B with carry: 0x10 - 0x0F - 1 = 0, borrow from bit 4
    let (mut cpu, mut bus) = setup(&[0x98]);
    cpu.regs.a = 0x10;
    cpu.regs.b = 0x0F;
    cpu.regs.f = 0x10;
    run_instr(&mut cpu, &mut bus);
    assert_eq!(cpu.regs.a, 0x00);
    assert_eq!(cpu.regs.f, 0xE0);
    // AND sets H; OR clears everything but Z
    let (mut cpu, mut bus) = setup(&[0xA0]);
    cpu.regs.a = 0xF0;
    cpu.regs.b = 0x0F;
    run_instr(&mut cpu, &mut bus);
    assert_eq!(cpu.regs.a, 0x00);
    assert_eq!(cpu.regs.f, 0xA0);
    let (mut cpu, mut bus) = setup(&[0xB0]);
    cpu.regs.a = 0xF0;
    cpu.regs.b = 0x0F;
    cpu.regs.f = 0xF0;
    run_instr(&mut cpu, &mut bus);
    assert_eq!(cpu.regs.a, 0xFF);
    assert_eq!(cpu.regs.f, 0x00);
    // ADD with a carry out of bit 7 and a zero result
    let (mut cpu, mut bus) = setup(&[0xC6, 0x01]);
    cpu.regs.a = 0xFF;
    run_instr(&mut cpu, &mut bus);
    assert_eq!(cpu.regs.a, 0x00);
    assert_eq!(cpu.regs.f, 0xB0);
}

#[test]
fn inc_hl_indirect_wraps_to_zero() {
    let (mut cpu, mut bus) = setup(&[0x34]);
    cpu.regs.write_hl(0xC100);
    bus.write(0xC100, 0xFF);
    cpu.regs.f = 0x50;
    assert_eq!(run_instr(&mut cpu, &mut bus), 3);
    assert_eq!(bus.read(0xC100), 0x00);
    assert!(cpu.regs.zf());
    assert!(cpu.regs.hf());
    assert!(!cpu.regs.nf());
    // C is left as it was
    assert!(cpu.regs.cf());
}

#[test]
fn dec_register_sets_n_and_half_borrow() {
    let (mut cpu, mut bus) = setup(&[0x05]);
    cpu.regs.b = 0x10;
    assert_eq!(run_instr(&mut cpu, &mut bus), 1);
    assert_eq!(cpu.regs.b, 0x0F);
    assert_eq!(cpu.regs.f, 0x60);
}

#[test]
fn jr_wraps_past_top_of_memory() {
    // JR +2 at 0xFFFC: after its operand PC is 0xFFFE
    let mut bus = bus_with_rom(vec![0; 0x8000]);
    bus.write(0xFFFC, 0x18);
    bus.write(0xFFFD, 0x02);
    let mut cpu = Cpu::new();
    cpu.regs.pc = 0xFFFC;
    cpu.emulate_cycle(&mut bus);
    cpu.emulate_cycle(&mut bus);
    assert_eq!(cpu.regs.pc, 0xFFFE);
    cpu.emulate_cycle(&mut bus);
    assert_eq!(cpu.regs.pc, 0x0000);
    cpu.emulate_cycle(&mut bus);
    // the fetch at 0x0000 reads the boot ROM
    assert_eq!(cpu.regs.pc, 0x0001);
    assert_eq!(cpu.ctx.opcode, 0x11);
}

#[test]
fn jr_backwards_and_conditional() {
    // JR -2 jumps back onto itself
    let (mut cpu, mut bus) = setup(&[0x18, 0xFE]);
    assert_eq!(run_instr(&mut cpu, &mut bus), 3);
    assert_eq!(cpu.regs.pc, 0xC001);
    assert_eq!(cpu.ctx.opcode, 0x18);
    // JR NZ not taken takes 2 M-cycles
    let (mut cpu, mut bus) = setup(&[0x20, 0x05, 0x00]);
    cpu.regs.f = 0x80;
    assert_eq!(run_instr(&mut cpu, &mut bus), 2);
    assert_eq!(cpu.regs.pc, 0xC003);
    // taken, 3
    let (mut cpu, mut bus) = setup(&[0x20, 0x05]);
    cpu.regs.f = 0x00;
    assert_eq!(run_instr(&mut cpu, &mut bus), 3);
    assert_eq!(cpu.regs.pc, 0xC008);
}

#[test]
fn call_pushes_return_address() {
    let mut rom = vec![0u8; 0x8000];
    rom[0x0100] = 0xCD;
    rom[0x0101] = 0x34;
    rom[0x0102] = 0x12;
    rom[0x1234] = 0xC9;
    let mut bus = bus_with_rom(rom);
    let mut cpu = Cpu::new();
    cpu.regs.pc = 0x0100;
    cpu.regs.sp = 0xFFFE;
    cpu.emulate_cycle(&mut bus);
    assert_eq!(cpu.ctx.opcode, 0xCD);
    for _ in 0..5 {
        cpu.emulate_cycle(&mut bus);
        assert_eq!(cpu.ctx.opcode, 0xCD);
    }
    cpu.emulate_cycle(&mut bus);
    assert_eq!(cpu.regs.sp, 0xFFFC);
    assert_eq!(bus.read(0xFFFC), 0x03);
    assert_eq!(bus.read(0xFFFD), 0x01);
    // the opcode at 0x1234 was fetched on the sixth M-cycle
    assert_eq!(cpu.ctx.opcode, 0xC9);
    assert_eq!(cpu.regs.pc, 0x1235);
    assert_eq!(cpu.ctx.step, 0);
    // RET comes back in 4 M-cycles
    assert_eq!(run_instr(&mut cpu, &mut bus), 4);
    assert_eq!(cpu.regs.pc, 0x0104);
    assert_eq!(cpu.regs.sp, 0xFFFE);
}

#[test]
fn push_then_pop_restores() {
    // PUSH BC; LD BC, 0; POP BC
    let (mut cpu, mut bus) = setup(&[0xC5, 0x01, 0x00, 0x00, 0xC1]);
    cpu.regs.write_bc(0x1234);
    assert_eq!(run_instr(&mut cpu, &mut bus), 4);
    assert_eq!(cpu.regs.sp, 0xFFFC);
    assert_eq!(bus.read(0xFFFD), 0x12);
    assert_eq!(bus.read(0xFFFC), 0x34);
    assert_eq!(run_instr(&mut cpu, &mut bus), 3);
    assert_eq!(cpu.regs.bc(), 0);
    assert_eq!(run_instr(&mut cpu, &mut bus), 3);
    assert_eq!(cpu.regs.bc(), 0x1234);
    assert_eq!(cpu.regs.sp, 0xFFFE);
}

#[test]
fn pop_af_keeps_low_nibble_clear() {
    // PUSH BC; POP AF
    let (mut cpu, mut bus) = setup(&[0xC5, 0xF1]);
    cpu.regs.write_bc(0x12FF);
    run_instr(&mut cpu, &mut bus);
    run_instr(&mut cpu, &mut bus);
    assert_eq!(cpu.regs.a, 0x12);
    assert_eq!(cpu.regs.f, 0xF0);
    assert_eq!(cpu.regs.af(), 0x12F0);
}

#[test]
fn ld_swap_on_equal_registers_is_a_no_op() {
    // LD B, C; LD C, B
    let (mut cpu, mut bus) = setup(&[0x41, 0x48]);
    cpu.regs.b = 0x42;
    cpu.regs.c = 0x42;
    let before = cpu.regs;
    assert_eq!(run_instr(&mut cpu, &mut bus), 1);
    assert_eq!(run_instr(&mut cpu, &mut bus), 1);
    assert_eq!(cpu.regs.pc, before.pc.wrapping_add(2));
    cpu.regs.pc = before.pc;
    assert_eq!(cpu.regs, before);
}

#[test]
fn ld_through_memory_operands() {
    // LD HL, 0xC100; LD (HL+), A; LD A, (HL-); LDH (0x80), A; LD (0xC200), A; LD A, (0xC100)
    let (mut cpu, mut bus) =
        setup(&[0x21, 0x00, 0xC1, 0x22, 0x3A, 0xE0, 0x80, 0xEA, 0x00, 0xC2, 0xFA, 0x00, 0xC1]);
    cpu.regs.a = 0x5C;
    assert_eq!(run_instr(&mut cpu, &mut bus), 3);
    assert_eq!(cpu.regs.hl(), 0xC100);
    assert_eq!(run_instr(&mut cpu, &mut bus), 2);
    assert_eq!(bus.read(0xC100), 0x5C);
    assert_eq!(cpu.regs.hl(), 0xC101);
    cpu.regs.a = 0;
    bus.write(0xC101, 0x77);
    assert_eq!(run_instr(&mut cpu, &mut bus), 2);
    assert_eq!(cpu.regs.a, 0x77);
    assert_eq!(cpu.regs.hl(), 0xC100);
    assert_eq!(run_instr(&mut cpu, &mut bus), 3);
    assert_eq!(bus.read(0xFF80), 0x77);
    assert_eq!(run_instr(&mut cpu, &mut bus), 4);
    assert_eq!(bus.read(0xC200), 0x77);
    assert_eq!(run_instr(&mut cpu, &mut bus), 4);
    assert_eq!(cpu.regs.a, 0x5C);
}

#[test]
fn ld_sp_to_direct_word() {
    // LD (0xC300), SP
    let (mut cpu, mut bus) = setup(&[0x08, 0x00, 0xC3]);
    cpu.regs.sp = 0xBEEF;
    assert_eq!(run_instr(&mut cpu, &mut bus), 5);
    assert_eq!(bus.read(0xC300), 0xEF);
    assert_eq!(bus.read(0xC301), 0xBE);
}

#[test]
fn inc16_and_dec16_leave_flags() {
    let (mut cpu, mut bus) = setup(&[0x03, 0x1B]);
    cpu.regs.write_bc(0xFFFF);
    cpu.regs.write_de(0x0000);
    cpu.regs.f = 0xA0;
    assert_eq!(run_instr(&mut cpu, &mut bus), 2);
    assert_eq!(cpu.regs.bc(), 0x0000);
    assert_eq!(run_instr(&mut cpu, &mut bus), 2);
    assert_eq!(cpu.regs.de(), 0xFFFF);
    assert_eq!(cpu.regs.f, 0xA0);
}

#[test]
fn cb_rl_and_bit() {
    // RL C; BIT 7, H
    let (mut cpu, mut bus) = setup(&[0xCB, 0x11, 0xCB, 0x7C]);
    cpu.regs.c = 0x80;
    cpu.regs.f = 0x00;
    assert_eq!(run_instr(&mut cpu, &mut bus), 2);
    assert_eq!(cpu.regs.c, 0x00);
    assert_eq!(cpu.regs.f, 0x90);
    cpu.regs.h = 0x7F;
    assert_eq!(run_instr(&mut cpu, &mut bus), 2);
    // Z set (bit clear), H set, C kept
    assert_eq!(cpu.regs.f, 0xB0);
}

#[test]
fn cb_on_memory_and_rotates() {
    // SET 0, (HL); SWAP A; RLA
    let (mut cpu, mut bus) = setup(&[0xCB, 0xC6, 0xCB, 0x37, 0x17]);
    cpu.regs.write_hl(0xC100);
    bus.write(0xC100, 0x80);
    assert_eq!(run_instr(&mut cpu, &mut bus), 4);
    assert_eq!(bus.read(0xC100), 0x81);
    cpu.regs.a = 0x12;
    run_instr(&mut cpu, &mut bus);
    assert_eq!(cpu.regs.a, 0x21);
    assert_eq!(cpu.regs.f, 0x00);
    // RLA on 0x80 gives 0 but leaves Z clear
    cpu.regs.a = 0x80;
    assert_eq!(run_instr(&mut cpu, &mut bus), 1);
    assert_eq!(cpu.regs.a, 0x00);
    assert_eq!(cpu.regs.f, 0x10);
}

#[test]
fn decoder_tables() {
    assert_eq!(decode_instr(0x00), Some(Instr::Nop));
    assert_eq!(decode_instr(0xCB), Some(Instr::Prefix));
    assert_eq!(decode_instr(0x76), Some(Instr::Halt));
    assert_eq!(decode_instr(0xFB), Some(Instr::Ei));
    assert_eq!(decode_instr(0xDA), Some(Instr::JpC(gbemu::operand::Cond::C)));
    assert_eq!(decode_instr(0xEF), Some(Instr::Rst(0x28)));
    assert_eq!(decode_instr(0x10), Some(Instr::Stop));
    assert_eq!(decode_instr(0xE8), Some(Instr::AddSp));
    assert_eq!(decode_instr(0xD3), None);
    assert_eq!(decode_instr(0x78), Some(Instr::Ld(Operand8::Reg(Reg8::A), Operand8::Reg(Reg8::B))));
    assert_eq!(decode_instr(0xBE), Some(Instr::Alu(AluOp::Cp, Operand8::Ind(gbemu::operand::Indirect::HL))));
    assert_eq!(decode_instr(0xF5), Some(Instr::Push(Reg16::AF)));
    assert_eq!(decode_instr(0x31), Some(Instr::Ld16(gbemu::operand::Operand16::Reg(Reg16::SP), gbemu::operand::Operand16::Imm(gbemu::operand::Imm16))));
    assert_eq!(decode_cb_instr(0x10), Instr::Unary(UnaryOp::Rot(RotOp::Rl), Operand8::Reg(Reg8::B)));
    assert_eq!(decode_cb_instr(0x7C), Instr::Bit(7, Operand8::Reg(Reg8::H)));
    assert_eq!(decode_cb_instr(0xFF), Instr::Unary(UnaryOp::SetBit(7), Operand8::Reg(Reg8::A)));
}

#[test]
fn unknown_opcode_is_reported() {
    let (cpu, _bus) = setup(&[0xD3]);
    assert_eq!(cpu.ctx.opcode, 0xD3);
    assert!(!cpu.can_decode());
}

#[test]
fn cursor_is_zero_after_retirement() {
    let (mut cpu, mut bus) = setup(&[0x34, 0xCD, 0x00, 0xC0]);
    cpu.regs.write_hl(0xC100);
    let mut n = 0;
    while cpu.ctx.opcode == 0x34 {
        cpu.emulate_cycle(&mut bus);
        n += 1;
    }
    assert_eq!(n, 3);
    assert_eq!(cpu.ctx.opcode, 0xCD);
    assert_eq!(cpu.ctx.step, 0);
    assert_eq!(cpu.ctx.op_step, 0);
    assert_eq!(cpu.regs.f & 0x0F, 0);
}
