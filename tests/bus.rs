use gbemu::bootrom::Bootrom;
use gbemu::cartridge::Cartridge;
use gbemu::peripherals::Peripherals;

fn bus() -> Peripherals {
    let boot: Vec<u8> = (0..=255u8).map(|i| i ^ 0xA5).collect();
    let rom: Vec<u8> = (0..0x8000usize).map(|i| (i % 251) as u8).collect();
    Peripherals::new(Bootrom::new(boot), Cartridge::new(rom))
}

#[test]
fn boot_rom_disable_reveals_cartridge() {
    let mut bus = bus();
    assert_eq!(bus.read(0x0000), 0xA5);
    assert_eq!(bus.read(0x00FF), 0xFF ^ 0xA5);
    assert_eq!(bus.read(0x0100), (0x100 % 251) as u8);
    bus.write(0xFF50, 0x01);
    assert_eq!(bus.read(0x0000), 0x00);
    assert_eq!(bus.read(0x00FF), 0xFF % 251);
    // for the rest of the session
    bus.write(0xFF50, 0x00);
    assert_eq!(bus.read(0x0000), 0x00);
}

#[test]
fn ram_write_read_round_trip() {
    let mut bus = bus();
    for (addr, v) in [(0xC000u16, 1u8), (0xDFFF, 2), (0xFF80, 3), (0xFFFE, 4), (0x8000, 5), (0x9FFF, 6)] {
        bus.write(addr, v);
        assert_eq!(bus.read(addr), v);
    }
    // echo RAM mirrors work RAM
    assert_eq!(bus.read(0xE000), 1);
    bus.write(0xFDFF, 7);
    assert_eq!(bus.read(0xDDFF), 7);
}

#[test]
fn rom_and_prohibited_region_ignore_writes() {
    let mut bus = bus();
    bus.write(0x4000, 0x77);
    assert_eq!(bus.read(0x4000), (0x4000 % 251) as u8);
    bus.write(0xFEA0, 0x77);
    assert_eq!(bus.read(0xFEA0), 0xFF);
    assert_eq!(bus.read(0xA000), 0xFF);
    // an IO register that is not implemented
    assert_eq!(bus.read(0xFF01), 0xFF);
    bus.write(0xFF01, 0);
    assert_eq!(bus.read(0xFF01), 0xFF);
}

#[test]
fn interrupt_registers() {
    let mut bus = bus();
    bus.write(0xFFFF, 0x1F);
    bus.write(0xFF0F, 0x04);
    assert_eq!(bus.read(0xFFFF), 0x1F);
    assert_eq!(bus.read(0xFF0F), 0x04);
}

#[test]
fn lcd_registers_read_back() {
    let mut bus = bus();
    for (addr, v) in [(0xFF42u16, 1u8), (0xFF43, 2), (0xFF45, 3), (0xFF47, 4), (0xFF48, 5), (0xFF49, 6), (0xFF4A, 7), (0xFF4B, 8), (0xFF40, 0x11)] {
        bus.write(addr, v);
        assert_eq!(bus.read(addr), v);
    }
}

#[test]
fn oam_dma_copies_160_bytes() {
    let mut bus = bus();
    for i in 0..0xA0u16 {
        bus.write(0xC100 + i, i as u8 ^ 0x3C);
    }
    bus.write(0xFF80, 0x42);
    bus.write(0xFF46, 0xC1);
    // only high RAM answers while the transfer runs
    assert_eq!(bus.read(0xC100), 0xFF);
    assert_eq!(bus.read(0xFF80), 0x42);
    for _ in 0..0xA0 {
        bus.emulate_cycle();
    }
    assert!(bus.ppu.r.oam_dma.is_none());
    assert_eq!(bus.read(0xC100), 0x3C);
    for i in 0..0xA0usize {
        assert_eq!(bus.ppu.oam[i], i as u8 ^ 0x3C);
    }
}
