use gbemu::bootrom::Bootrom;
use gbemu::cartridge::Cartridge;
use gbemu::peripherals::Peripherals;
use gbemu::ppu::{Mode, Ppu, LCD_PIXELS, LCD_WIDTH};

fn bus() -> Peripherals {
    let boot: Vec<u8> = (0..=255u8).map(|i| i ^ 0xA5).collect();
    let rom: Vec<u8> = (0..0x8000usize).map(|i| (i % 251) as u8).collect();
    Peripherals::new(Bootrom::new(boot), Cartridge::new(rom))
}

/// Runs the devices until the PPU has drawn line 0 (20 + 43 M-cycles).
fn draw_line_0(bus: &mut Peripherals) {
    for _ in 0..63 {
        bus.emulate_cycle();
    }
    assert_eq!(bus.ppu.r.mode, Mode::HBlank);
}

#[test]
fn boot_palette_light_grey_row() {
    let mut bus = bus();
    // tile 0, row 0: low plane all ones, high plane all zeros
    bus.write(0x8000, 0xFF);
    bus.write(0x8001, 0x00);
    bus.write(0xFF47, 0xE4);
    bus.write(0xFF40, 0x91);
    draw_line_0(&mut bus);
    let px = bus.ppu.pixel_buffer();
    for x in 0..LCD_WIDTH {
        assert_eq!(bus.ppu.buffer[x], 0xAA);
        assert_eq!(&px[3 * x..3 * x + 3], &[0xAA, 0xAA, 0xAA]);
    }
    assert_eq!(px.len(), 3 * LCD_PIXELS);
    // line 1 is not drawn yet
    assert_eq!(bus.ppu.buffer[LCD_WIDTH], 0);
}

#[test]
fn scroll_x_wraps_to_right_edge_of_map() {
    let mut bus = bus();
    // tile 1, row 0: colour 3 everywhere; tile 0 stays colour 0
    bus.write(0x8010, 0xFF);
    bus.write(0x8011, 0xFF);
    // map row 0, column 31 names tile 1
    bus.write(0x9800 + 31, 1);
    bus.write(0xFF43, 0xF8);
    bus.write(0xFF47, 0xE4);
    bus.write(0xFF40, 0x91);
    draw_line_0(&mut bus);
    for x in 0..8 {
        assert_eq!(bus.ppu.buffer[x], 0x00);
    }
    assert_eq!(bus.ppu.buffer[8], 0xFF);
}

#[test]
fn signed_tile_addressing() {
    let mut bus = bus();
    // with LCDC bit 4 clear, index 0 is the tile at 0x9000
    bus.write(0x9000, 0x00);
    bus.write(0x9001, 0xFF);
    bus.write(0xFF47, 0xE4);
    bus.write(0xFF40, 0x81);
    draw_line_0(&mut bus);
    assert_eq!(bus.ppu.buffer[0], 0x55);
}

#[test]
fn frame_takes_17556_cycles() {
    let mut bus = bus();
    bus.write(0xFF40, 0x80);
    let mut n = 0u32;
    loop {
        n += 1;
        if bus.emulate_cycle() {
            break;
        }
        assert!(n < 20000);
    }
    assert_eq!(n, 17556);
    assert_eq!(bus.ppu.r.ly, 0);
    assert_eq!(bus.ppu.r.mode, Mode::OamScan);
    // and the next frame takes as long
    let mut m = 0u32;
    loop {
        m += 1;
        if bus.emulate_cycle() {
            break;
        }
    }
    assert_eq!(m, 17556);
}

#[test]
fn one_wrap_and_one_vblank_per_frame() {
    let mut bus = bus();
    bus.write(0xFF40, 0x80);
    let mut wraps = 0;
    let mut vblanks = 0;
    let mut last_ly = bus.ppu.r.ly;
    for i in 0..17556 {
        let frame = bus.emulate_cycle();
        if last_ly == 153 && bus.ppu.r.ly == 0 {
            wraps += 1;
            assert!(frame);
        }
        last_ly = bus.ppu.r.ly;
        if bus.read(0xFF0F) & 1 != 0 {
            vblanks += 1;
            assert_eq!(i, 16415);
            assert_eq!(bus.ppu.r.ly, 144);
            bus.write(0xFF0F, 0);
        }
    }
    assert_eq!(wraps, 1);
    assert_eq!(vblanks, 1);
}

#[test]
fn disabled_ppu_never_finishes_a_frame() {
    let mut bus = bus();
    for _ in 0..40000 {
        assert!(!bus.emulate_cycle());
    }
    assert_eq!(bus.ppu.r.ly, 0);
    assert_eq!(bus.ppu.r.cycles, 20);
    let mut ppu = Ppu::new();
    assert!(!ppu.emulate_cycle());
}

#[test]
fn stat_reflects_mode_and_coincidence() {
    let mut bus = bus();
    bus.write(0xFF40, 0x80);
    bus.write(0xFF45, 2);
    for _ in 0..400 {
        let stat = bus.read(0xFF41);
        let mode = match bus.ppu.r.mode {
            Mode::HBlank => 0,
            Mode::VBlank => 1,
            Mode::OamScan => 2,
            Mode::Drawing => 3,
        };
        assert_eq!(stat & 3, mode);
        assert_eq!(stat & 4 != 0, bus.read(0xFF44) == 2);
        assert_eq!(stat & 0x80, 0x80);
        bus.emulate_cycle();
    }
    // bits 0-2 cannot be written; 3-6 can
    bus.write(0xFF41, 0xFF);
    assert_eq!(bus.ppu.r.stat & 0x78, 0x78);
    assert_eq!(bus.ppu.r.stat & 0x83, 0);
}

#[test]
fn stat_interrupt_on_hblank() {
    let mut bus = bus();
    bus.write(0xFF41, 0x08);
    bus.write(0xFF40, 0x80);
    for _ in 0..62 {
        bus.emulate_cycle();
        assert_eq!(bus.read(0xFF0F) & 2, 0);
    }
    bus.emulate_cycle();
    assert_eq!(bus.read(0xFF0F) & 2, 2);
}

#[test]
fn ly_is_read_only() {
    let mut bus = bus();
    bus.write(0xFF40, 0x80);
    for _ in 0..114 {
        bus.emulate_cycle();
    }
    assert_eq!(bus.read(0xFF44), 1);
    bus.write(0xFF44, 9);
    assert_eq!(bus.read(0xFF44), 1);
}

#[test]
fn vram_and_oam_locked_by_mode() {
    let mut bus = bus();
    bus.write(0x8000, 0x12);
    bus.write(0xFE00, 0x34);
    // at power-on the mode is OAM scan: VRAM open, OAM locked
    assert_eq!(bus.read(0x8000), 0x12);
    assert_eq!(bus.read(0xFE00), 0xFF);
    bus.write(0xFF40, 0x80);
    for _ in 0..20 {
        bus.emulate_cycle();
    }
    assert_eq!(bus.ppu.r.mode, Mode::Drawing);
    assert_eq!(bus.read(0x8000), 0xFF);
    assert_eq!(bus.read(0xFE00), 0xFF);
    bus.write(0x8000, 0x99);
    for _ in 0..43 {
        bus.emulate_cycle();
    }
    assert_eq!(bus.ppu.r.mode, Mode::HBlank);
    assert_eq!(bus.read(0x8000), 0x12);
    bus.write(0xFE00, 0x56);
    assert_eq!(bus.read(0xFE00), 0x56);
}
