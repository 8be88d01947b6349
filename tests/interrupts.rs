use gbemu::bootrom::Bootrom;
use gbemu::cartridge::Cartridge;
use gbemu::cpu::Cpu;
use gbemu::peripherals::Peripherals;

fn setup(program: &[u8]) -> (Cpu, Peripherals) {
    let mut bus = Peripherals::new(Bootrom::new(vec![0x11; 256]), Cartridge::new(vec![0; 0x8000]));
    for (i, b) in program.iter().enumerate() {
        bus.write(0xC000 + i as u16, *b);
    }
    let mut cpu = Cpu::new();
    cpu.regs.pc = 0xC000;
    cpu.regs.sp = 0xFFFE;
    cpu.emulate_cycle(&mut bus);
    (cpu, bus)
}

fn cycles_until_fetch(cpu: &mut Cpu, bus: &mut Peripherals) -> u32 {
    let mut n = 0;
    loop {
        assert!(cpu.can_decode());
        cpu.emulate_cycle(bus);
        n += 1;
        if cpu.ctx.step == 0 && cpu.ctx.op_step == 0 && !cpu.ctx.cb && !cpu.ctx.isr {
            return n;
        }
        assert!(n < 10);
    }
}

#[test]
fn interrupt_service_after_ei_delay() {
    // EI; NOP; NOP
    let (mut cpu, mut bus) = setup(&[0xFB, 0x00, 0x00]);
    bus.write(0xFFFF, 0x01);
    bus.write(0xFF0F, 0x01);
    cpu.emulate_cycle(&mut bus);
    // the instruction after EI still runs
    assert!(cpu.ime);
    assert!(!cpu.ctx.isr);
    assert_eq!(cpu.ctx.opcode, 0x00);
    cpu.emulate_cycle(&mut bus);
    assert!(cpu.ctx.isr);
    assert_eq!(cpu.regs.pc, 0xC002);
    assert_eq!(cycles_until_fetch(&mut cpu, &mut bus), 5);
    assert_eq!(cpu.regs.sp, 0xFFFC);
    assert_eq!(bus.read(0xFFFD), 0xC0);
    assert_eq!(bus.read(0xFFFC), 0x02);
    assert_eq!(cpu.regs.pc, 0x0041);
    assert!(!cpu.ime);
    assert_eq!(bus.read(0xFF0F) & 1, 0);
}

#[test]
fn interrupt_priority_lowest_bit_first() {
    let (mut cpu, mut bus) = setup(&[0x00]);
    cpu.ime = true;
    bus.write(0xFFFF, 0x1F);
    bus.write(0xFF0F, 0x14);
    cpu.emulate_cycle(&mut bus);
    assert!(cpu.ctx.isr);
    cycles_until_fetch(&mut cpu, &mut bus);
    assert_eq!(cpu.regs.pc, 0x0051);
    assert_eq!(bus.read(0xFF0F), 0x10);
}

#[test]
fn disabled_interrupt_is_not_serviced() {
    // DI; NOP
    let (mut cpu, mut bus) = setup(&[0xF3, 0x00]);
    cpu.ime = true;
    bus.write(0xFF0F, 0x01);
    bus.write(0xFFFF, 0x01);
    cpu.emulate_cycle(&mut bus);
    cpu.emulate_cycle(&mut bus);
    assert!(!cpu.ime);
    assert!(!cpu.ctx.isr);
    assert_eq!(cpu.regs.pc, 0xC003);
}

#[test]
fn halt_waits_for_a_request() {
    // HALT; INC A
    let (mut cpu, mut bus) = setup(&[0x76, 0x3C]);
    bus.write(0xFFFF, 0x04);
    for _ in 0..10 {
        cpu.emulate_cycle(&mut bus);
        assert_eq!(cpu.ctx.opcode, 0x76);
        assert_eq!(cpu.regs.pc, 0xC001);
    }
    bus.write(0xFF0F, 0x04);
    cpu.emulate_cycle(&mut bus);
    assert_eq!(cpu.ctx.opcode, 0x3C);
    cpu.emulate_cycle(&mut bus);
    assert_eq!(cpu.regs.a, 1);
}

#[test]
fn reti_enables_ime() {
    let (mut cpu, mut bus) = setup(&[0xD9]);
    bus.write(0xFFF0, 0x34);
    bus.write(0xFFF1, 0x12);
    cpu.regs.sp = 0xFFF0;
    assert_eq!(cycles_until_fetch(&mut cpu, &mut bus), 4);
    assert!(cpu.ime);
    assert_eq!(cpu.regs.pc, 0x1235);
    assert_eq!(cpu.regs.sp, 0xFFF2);
}

#[test]
fn rst_calls_fixed_address() {
    let (mut cpu, mut bus) = setup(&[0xFF]);
    assert_eq!(cycles_until_fetch(&mut cpu, &mut bus), 4);
    assert_eq!(cpu.regs.pc, 0x0039);
    assert_eq!(bus.read(0xFFFD), 0xC0);
    assert_eq!(bus.read(0xFFFC), 0x01);
}

#[test]
fn conditional_jumps_calls_returns() {
    // JP NZ taken
    let (mut cpu, mut bus) = setup(&[0xC2, 0x00, 0xC1]);
    assert_eq!(cycles_until_fetch(&mut cpu, &mut bus), 4);
    assert_eq!(cpu.regs.pc, 0xC101);
    // JP Z not taken
    let (mut cpu, mut bus) = setup(&[0xCA, 0x00, 0xC1]);
    assert_eq!(cycles_until_fetch(&mut cpu, &mut bus), 3);
    assert_eq!(cpu.regs.pc, 0xC004);
    // CALL C not taken, then taken
    let (mut cpu, mut bus) = setup(&[0xDC, 0x00, 0xC1]);
    assert_eq!(cycles_until_fetch(&mut cpu, &mut bus), 3);
    assert_eq!(cpu.regs.sp, 0xFFFE);
    let (mut cpu, mut bus) = setup(&[0xDC, 0x00, 0xC1]);
    cpu.regs.f = 0x10;
    assert_eq!(cycles_until_fetch(&mut cpu, &mut bus), 6);
    assert_eq!(cpu.regs.pc, 0xC101);
    assert_eq!(cpu.regs.sp, 0xFFFC);
    // RET NC taken then not taken
    let (mut cpu, mut bus) = setup(&[0xD0]);
    bus.write(0xFFF0, 0x00);
    bus.write(0xFFF1, 0xC1);
    cpu.regs.sp = 0xFFF0;
    assert_eq!(cycles_until_fetch(&mut cpu, &mut bus), 5);
    assert_eq!(cpu.regs.pc, 0xC101);
    let (mut cpu, mut bus) = setup(&[0xD8]);
    assert_eq!(cycles_until_fetch(&mut cpu, &mut bus), 2);
    assert_eq!(cpu.regs.pc, 0xC002);
}

#[test]
fn daa_after_add_and_sub() {
    // ADD A, 0x27; DAA; SUB A, 0x15; DAA
    let (mut cpu, mut bus) = setup(&[0xC6, 0x27, 0x27, 0xD6, 0x15, 0x27]);
    cpu.regs.a = 0x15;
    cycles_until_fetch(&mut cpu, &mut bus);
    assert_eq!(cpu.regs.a, 0x3C);
    cycles_until_fetch(&mut cpu, &mut bus);
    assert_eq!(cpu.regs.a, 0x42);
    assert_eq!(cpu.regs.f, 0x00);
    cycles_until_fetch(&mut cpu, &mut bus);
    assert_eq!(cpu.regs.a, 0x2D);
    cycles_until_fetch(&mut cpu, &mut bus);
    assert_eq!(cpu.regs.a, 0x27);
    assert_eq!(cpu.regs.f, 0x40);
    // 0x99 + 0x01 -> 0x00 with carry
    let (mut cpu, mut bus) = setup(&[0xC6, 0x01, 0x27]);
    cpu.regs.a = 0x99;
    cycles_until_fetch(&mut cpu, &mut bus);
    cycles_until_fetch(&mut cpu, &mut bus);
    assert_eq!(cpu.regs.a, 0x00);
    assert_eq!(cpu.regs.f, 0x90);
}

#[test]
fn cpl_scf_ccf() {
    let (mut cpu, mut bus) = setup(&[0x2F, 0x37, 0x3F]);
    cpu.regs.a = 0x35;
    cpu.regs.f = 0x80;
    cycles_until_fetch(&mut cpu, &mut bus);
    assert_eq!(cpu.regs.a, 0xCA);
    assert_eq!(cpu.regs.f, 0xE0);
    cycles_until_fetch(&mut cpu, &mut bus);
    assert_eq!(cpu.regs.f, 0x90);
    cycles_until_fetch(&mut cpu, &mut bus);
    assert_eq!(cpu.regs.f, 0x80);
}

#[test]
fn add_hl_and_sp_moves() {
    // ADD HL, BC; ADD HL, DE; LD SP, HL; JP HL
    let (mut cpu, mut bus) = setup(&[0x09, 0x19, 0xF9, 0xE9]);
    cpu.regs.write_hl(0x0FFF);
    cpu.regs.write_bc(0x0001);
    cpu.regs.write_de(0xB000);
    cpu.regs.f = 0x80;
    assert_eq!(cycles_until_fetch(&mut cpu, &mut bus), 2);
    assert_eq!(cpu.regs.hl(), 0x1000);
    assert_eq!(cpu.regs.f, 0xA0);
    assert_eq!(cycles_until_fetch(&mut cpu, &mut bus), 2);
    assert_eq!(cpu.regs.hl(), 0xC000);
    assert_eq!(cpu.regs.f, 0x80);
    assert_eq!(cycles_until_fetch(&mut cpu, &mut bus), 2);
    assert_eq!(cpu.regs.sp, 0xC000);
    assert_eq!(cycles_until_fetch(&mut cpu, &mut bus), 1);
    assert_eq!(cpu.regs.pc, 0xC001);
    assert_eq!(cpu.ctx.opcode, 0x09);
}

#[test]
fn sp_plus_signed_byte() {
    // ADD SP, -2; LD HL, SP + 2
    let (mut cpu, mut bus) = setup(&[0xE8, 0xFE, 0xF8, 0x02]);
    cpu.regs.sp = 0xFFF8;
    cpu.regs.f = 0x80;
    assert_eq!(cycles_until_fetch(&mut cpu, &mut bus), 4);
    assert_eq!(cpu.regs.sp, 0xFFF6);
    assert_eq!(cpu.regs.f, 0x30);
    cpu.regs.sp = 0xC000;
    assert_eq!(cycles_until_fetch(&mut cpu, &mut bus), 3);
    assert_eq!(cpu.regs.hl(), 0xC002);
    assert_eq!(cpu.regs.f, 0x00);
    assert_eq!(cpu.regs.sp, 0xC000);
}

#[test]
fn stop_waits_for_joypad() {
    // STOP; INC A
    let (mut cpu, mut bus) = setup(&[0x10, 0x00, 0x3C]);
    for _ in 0..6 {
        cpu.emulate_cycle(&mut bus);
        assert_eq!(cpu.ctx.opcode, 0x10);
    }
    bus.write(0xFF0F, 0x10);
    cpu.emulate_cycle(&mut bus);
    assert_eq!(cpu.ctx.opcode, 0x3C);
    assert_eq!(cpu.regs.pc, 0xC003);
}
