use gbemu::bootrom::Bootrom;
use gbemu::cartridge::Cartridge;
use gbemu::peripherals::Peripherals;
use gbemu::ppu::Mode;

fn bus() -> Peripherals {
    Peripherals::new(Bootrom::new(vec![0; 256]), Cartridge::new(vec![0; 0x8000]))
}

/// Tile `t`, every row: colour id `id` in every pixel.
fn fill_tile(bus: &mut Peripherals, t: u16, id: u8) {
    let lo = if id & 1 != 0 { 0xFF } else { 0x00 };
    let hi = if id & 2 != 0 { 0xFF } else { 0x00 };
    for row in 0..8 {
        bus.write(0x8000 + t * 16 + row * 2, lo);
        bus.write(0x8000 + t * 16 + row * 2 + 1, hi);
    }
}

fn set_sprite(bus: &mut Peripherals, k: usize, y: u8, x: u8, tile: u8, flags: u8) {
    bus.ppu.oam[4 * k] = y;
    bus.ppu.oam[4 * k + 1] = x;
    bus.ppu.oam[4 * k + 2] = tile;
    bus.ppu.oam[4 * k + 3] = flags;
}

fn draw_line_0(bus: &mut Peripherals) {
    for _ in 0..63 {
        bus.emulate_cycle();
    }
    assert_eq!(bus.ppu.r.mode, Mode::HBlank);
}

#[test]
fn window_covers_from_wx() {
    let mut bus = bus();
    fill_tile(&mut bus, 2, 3);
    for i in 0..1024 {
        bus.write(0x9C00 + i, 2);
    }
    bus.write(0xFF47, 0xE4);
    bus.write(0xFF4A, 0);
    bus.write(0xFF4B, 7 + 80);
    bus.write(0xFF40, 0x80 | 0x40 | 0x20 | 0x10 | 0x01);
    draw_line_0(&mut bus);
    assert_eq!(bus.ppu.buffer[79], 0xFF);
    assert_eq!(bus.ppu.buffer[80], 0x00);
    assert_eq!(bus.ppu.buffer[159], 0x00);
    assert_eq!(bus.ppu.r.wly, 1);
}

#[test]
fn window_below_wy_is_not_drawn() {
    let mut bus = bus();
    fill_tile(&mut bus, 2, 3);
    for i in 0..1024 {
        bus.write(0x9C00 + i, 2);
    }
    bus.write(0xFF47, 0xE4);
    bus.write(0xFF4A, 5);
    bus.write(0xFF4B, 7);
    bus.write(0xFF40, 0x80 | 0x40 | 0x20 | 0x10 | 0x01);
    draw_line_0(&mut bus);
    assert_eq!(bus.ppu.buffer[0], 0xFF);
    assert_eq!(bus.ppu.r.wly, 0);
}

#[test]
fn sprites_lower_x_wins() {
    let mut bus = bus();
    fill_tile(&mut bus, 1, 1);
    fill_tile(&mut bus, 2, 3);
    set_sprite(&mut bus, 0, 16, 8 + 10, 1, 0);
    set_sprite(&mut bus, 1, 16, 8 + 12, 2, 0);
    bus.write(0xFF47, 0xE4);
    bus.write(0xFF48, 0xE4);
    bus.write(0xFF40, 0x93);
    draw_line_0(&mut bus);
    assert_eq!(bus.ppu.buffer[9], 0xFF);
    for x in 10..18 {
        assert_eq!(bus.ppu.buffer[x], 0xAA);
    }
    assert_eq!(bus.ppu.buffer[18], 0x00);
    assert_eq!(bus.ppu.buffer[19], 0x00);
    assert_eq!(bus.ppu.buffer[20], 0xFF);
}

#[test]
fn equal_x_lower_oam_index_wins() {
    let mut bus = bus();
    fill_tile(&mut bus, 1, 1);
    fill_tile(&mut bus, 2, 3);
    set_sprite(&mut bus, 3, 16, 8, 2, 0);
    set_sprite(&mut bus, 4, 16, 8, 1, 0);
    bus.write(0xFF48, 0xE4);
    bus.write(0xFF40, 0x93);
    draw_line_0(&mut bus);
    assert_eq!(bus.ppu.buffer[0], 0x00);
}

#[test]
fn at_most_ten_sprites_per_line() {
    let mut bus = bus();
    fill_tile(&mut bus, 2, 3);
    for k in 0..11 {
        set_sprite(&mut bus, k, 16, 8 + 8 * k as u8, 2, 0);
    }
    bus.write(0xFF48, 0xE4);
    bus.write(0xFF40, 0x93);
    draw_line_0(&mut bus);
    assert_eq!(bus.ppu.buffer[79], 0x00);
    assert_eq!(bus.ppu.buffer[80], 0x00 + 0xFF);
}

#[test]
fn sprite_behind_nonzero_background() {
    let mut bus = bus();
    fill_tile(&mut bus, 0, 1);
    fill_tile(&mut bus, 2, 3);
    // OBJ2BG priority, palette OBP1
    set_sprite(&mut bus, 0, 16, 8, 2, 0x80);
    set_sprite(&mut bus, 1, 16, 16, 2, 0x10);
    bus.write(0xFF47, 0xE4);
    bus.write(0xFF48, 0xE4);
    bus.write(0xFF49, 0x00);
    bus.write(0xFF40, 0x93);
    draw_line_0(&mut bus);
    assert_eq!(bus.ppu.buffer[0], 0xAA);
    // palette OBP1 maps every id to white
    assert_eq!(bus.ppu.buffer[8], 0xFF);
}

#[test]
fn sprite_flips_and_tall_sprites() {
    let mut bus = bus();
    // tile 4 row 0: only the leftmost pixel has colour 1
    bus.write(0x8000 + 4 * 16, 0x80);
    // tile 5 row 7 (row 15 of the pair 4/5): only the leftmost pixel
    bus.write(0x8000 + 5 * 16 + 14, 0x80);
    set_sprite(&mut bus, 0, 16, 8, 4, 0x20);
    set_sprite(&mut bus, 1, 16, 30, 5, 0x40);
    bus.write(0xFF48, 0xE4);
    bus.write(0xFF40, 0x80 | 0x04 | 0x02 | 0x10);
    draw_line_0(&mut bus);
    // X flip moves the pixel to the right edge
    assert_eq!(bus.ppu.buffer[0], 0x00);
    assert_eq!(bus.ppu.buffer[7], 0xAA);
    // 8x16 with Y flip: line 0 shows row 15, the tile index's low bit ignored
    assert_eq!(bus.ppu.buffer[22], 0xAA);
}
