use gbemu::registers::Registers;
use gbemu::bootrom::Bootrom;
use gbemu::wram::WRam;
use gbemu::cartridge::Cartridge;
use gbemu::timing::{advance, cycles_due, M_CYCLE_NANOS};

#[test]
fn register_pairs() {
    let mut r = Registers::default();
    r.write_bc(0x1234);
    r.write_de(0xABCD);
    r.write_hl(0x0102);
    r.write_af(0x56FF);
    assert_eq!((r.b, r.c), (0x12, 0x34));
    assert_eq!(r.bc(), 0x1234);
    assert_eq!(r.de(), 0xABCD);
    assert_eq!(r.hl(), 0x0102);
    assert_eq!(r.a, 0x56);
    assert_eq!(r.f, 0xF0);
    assert_eq!(r.af(), 0x56F0);
}

#[test]
fn flag_setters_touch_one_bit() {
    let mut r = Registers::default();
    r.set_zf(true);
    assert_eq!(r.f, 0x80);
    r.set_cf(true);
    assert_eq!(r.f, 0x90);
    r.set_nf(true);
    r.set_hf(true);
    assert_eq!(r.f, 0xF0);
    assert!(r.zf() && r.nf() && r.hf() && r.cf());
    r.set_zf(false);
    r.set_hf(false);
    assert_eq!(r.f, 0x50);
    assert!(!r.zf() && r.nf() && !r.hf() && r.cf());
}

#[test]
fn bootrom_switches_off_for_good() {
    let mut b = Bootrom::new((0..=255u8).collect());
    assert!(b.is_active());
    assert_eq!(b.read(0x42), 0x42);
    b.write(0xFF50, 0);
    assert!(b.is_active());
    b.write(0xFF50, 1);
    assert!(!b.is_active());
    b.write(0xFF50, 0);
    assert!(!b.is_active());
}

#[test]
fn wram_wraps_every_8k() {
    let mut w = WRam::new();
    w.write(0xC005, 9);
    assert_eq!(w.read(0xC005), 9);
    assert_eq!(w.read(0xE005), 9);
    assert_eq!(w.read(0x0005), 9);
    assert_eq!(w.read(0xC006), 0);
}

#[test]
fn cartridge_reads_past_end_as_ff() {
    let mut c = Cartridge::new(vec![1, 2, 3]);
    assert_eq!(c.read(2), 3);
    assert_eq!(c.read(3), 0xFF);
    assert_eq!(c.read(0xA000), 0xFF);
    c.write(0, 9);
    assert_eq!(c.read(0), 1);
}

#[test]
fn cycles_come_due_by_elapsed_time() {
    assert_eq!(M_CYCLE_NANOS, 954);
    assert_eq!(cycles_due(0, 0), 0);
    assert_eq!(cycles_due(953, 0), 0);
    assert_eq!(cycles_due(954, 0), 1);
    assert_eq!(cycles_due(10_000, 954), 9);
    assert_eq!(advance(954, 9), Some(954 * 10));
    assert_eq!(advance(u64::MAX, 1), None);
}
