//! The picture processing unit: mode state machine, LCD registers, and
//! scanline rendering of background, window and sprites.

use vstd::prelude::*;

verus! {

pub const LCD_WIDTH: usize = 160;
pub const LCD_HEIGHT: usize = 144;
pub const LCD_PIXELS: usize = 23040;

/// M-cycles of one scanline, and lines of one frame.
pub const LINE_CYCLES: u8 = 114;
pub const FRAME_LINES: u8 = 154;

// LCDC bits.
pub const BG_WINDOW_ENABLE: u8 = 0x01;
pub const SPRITE_ENABLE: u8 = 0x02;
pub const SPRITE_SIZE: u8 = 0x04;
pub const BG_TILE_MAP: u8 = 0x08;
pub const TILE_DATA_ADDRESSING_MODE: u8 = 0x10;
pub const WINDOW_ENABLE: u8 = 0x20;
pub const WINDOW_TILE_MAP: u8 = 0x40;
pub const PPU_ENABLE: u8 = 0x80;

// OAM attribute bits.
pub const PALETTE: u8 = 0x10;
pub const X_FLIP: u8 = 0x20;
pub const Y_FLIP: u8 = 0x40;
pub const OBJ2BG_PRIORITY: u8 = 0x80;

// STAT bits.
pub const LYC_EQ_LY: u8 = 0x04;
pub const HBLANK_INT: u8 = 0x08;
pub const VBLANK_INT: u8 = 0x10;
pub const OAM_SCAN_INT: u8 = 0x20;
pub const LYC_EQ_LY_INT: u8 = 0x40;

// Interrupt request bits, as they stand in IF.
pub const IRQ_VBLANK: u8 = 0x01;
pub const IRQ_LCD_STAT: u8 = 0x02;

#[derive(Clone, Copy, Debug, PartialEq, Eq, Structural)]
pub enum Mode {
    HBlank,
    VBlank,
    OamScan,
    Drawing,
}

impl Mode {
    /// The value of the mode as it reads in STAT bits 0-1.
    pub open spec fn spec_bits(self) -> u8 {
        match self {
            Mode::HBlank => 0,
            Mode::VBlank => 1,
            Mode::OamScan => 2,
            Mode::Drawing => 3,
        }
    }

    pub fn bits(self) -> (r: u8)
        ensures
            r == self.spec_bits(),
    {
        match self {
            Mode::HBlank => 0,
            Mode::VBlank => 1,
            Mode::OamScan => 2,
            Mode::Drawing => 3,
        }
    }
}

/// Where the PPU stands in a frame: its mode, the current line, and the
/// M-cycles left in the current mode (the last one included).
pub struct Timing {
    pub mode: Mode,
    pub ly: u8,
    pub cycles: u8,
}

/// The states of `Timing` that a running PPU can be in.
pub open spec fn timing_wf(t: Timing) -> bool {
    &&& t.cycles >= 1
    &&& match t.mode {
        Mode::OamScan => t.cycles <= 20 && t.ly < 144,
        Mode::Drawing => t.cycles <= 43 && t.ly < 144,
        Mode::HBlank => t.cycles <= 51 && t.ly < 144,
        Mode::VBlank => t.cycles <= 114 && 144 <= t.ly <= 153,
    }
}

/// The timing state after one M-cycle of an enabled PPU.
pub open spec fn tick(t: Timing) -> Timing {
    if t.cycles > 1 {
        Timing { cycles: (t.cycles - 1) as u8, ..t }
    } else {
        match t.mode {
            Mode::OamScan => Timing { mode: Mode::Drawing, ly: t.ly, cycles: 43 },
            Mode::Drawing => Timing { mode: Mode::HBlank, ly: t.ly, cycles: 51 },
            Mode::HBlank => if t.ly + 1 < 144 {
                Timing { mode: Mode::OamScan, ly: (t.ly + 1) as u8, cycles: 20 }
            } else {
                Timing { mode: Mode::VBlank, ly: (t.ly + 1) as u8, cycles: 114 }
            },
            Mode::VBlank => if t.ly + 1 > 153 {
                Timing { mode: Mode::OamScan, ly: 0, cycles: 20 }
            } else {
                Timing { mode: Mode::VBlank, ly: (t.ly + 1) as u8, cycles: 114 }
            },
        }
    }
}

/// The M-cycle of `t` is the one that completes a frame: the end of line 153.
pub open spec fn frame_done(t: Timing) -> bool {
    t.cycles == 1 && t.mode == Mode::VBlank && t.ly == 153
}

/// The M-cycle of `t` ends a mode and starts another.
pub open spec fn mode_changes(t: Timing) -> bool {
    t.cycles == 1 && tick(t).mode != t.mode
}

/// The M-cycle of `t` enters VBlank.
pub open spec fn enters_vblank(t: Timing) -> bool {
    mode_changes(t) && tick(t).mode == Mode::VBlank
}

/// The M-cycle of `t` changes LY.
pub open spec fn ly_changes(t: Timing) -> bool {
    t.cycles == 1 && (t.mode == Mode::HBlank || t.mode == Mode::VBlank)
}

/// The PPU's registers and internal counters.
#[derive(Clone, Copy, Debug, PartialEq, Eq, Structural)]
pub struct LcdRegs {
    pub mode: Mode,
    pub lcdc: u8,
    /// STAT as stored: bit 2 (LYC == LY) and the interrupt enables, bits 3-6.
    pub stat: u8,
    pub scy: u8,
    pub scx: u8,
    pub ly: u8,
    pub lyc: u8,
    pub bgp: u8,
    pub obp0: u8,
    pub obp1: u8,
    pub wy: u8,
    pub wx: u8,
    /// Window line counter: the line of the window drawn next.
    pub wly: u8,
    /// M-cycles left in the current mode, the current one included.
    pub cycles: u8,
    /// Interrupt requests raised and not yet handed to IF.
    pub irq: u8,
    /// Next source address of a running OAM DMA transfer.
    pub oam_dma: Option<u16>,
}

impl LcdRegs {
    pub open spec fn timing(self) -> Timing {
        Timing { mode: self.mode, ly: self.ly, cycles: self.cycles }
    }

    pub open spec fn enabled(self) -> bool {
        self.lcdc & PPU_ENABLE != 0
    }
}

/// STAT with bit 2 set exactly when `eq` holds.
pub open spec fn stat_with_lyc(stat: u8, eq: bool) -> u8 {
    if eq {
        stat | LYC_EQ_LY
    } else {
        stat & !LYC_EQ_LY
    }
}

/// What STAT reads as: bit 7 set, bits 0-1 the mode.
pub open spec fn stat_read(r: LcdRegs) -> u8 {
    0x80u8 | r.stat | r.mode.spec_bits()
}

/// The M-cycle of an enabled PPU in `r` raises the LCD STAT interrupt: it
/// enters a mode whose STAT enable is set, or moves LY onto LYC with that
/// enable set.
pub open spec fn stat_request(r: LcdRegs) -> bool {
    let t = r.timing();
    let n = tick(t);
    (mode_changes(t) && ((n.mode == Mode::HBlank && r.stat & HBLANK_INT != 0) || (n.mode
        == Mode::VBlank && r.stat & VBLANK_INT != 0) || (n.mode == Mode::OamScan && r.stat
        & OAM_SCAN_INT != 0))) || (ly_changes(t) && n.ly == r.lyc && r.stat & LYC_EQ_LY_INT != 0)
}

/// The IF bits for a VBlank request and an LCD STAT request.
pub open spec fn irq_bits(vblank: bool, stat: bool) -> u8 {
    (if vblank {
        IRQ_VBLANK
    } else {
        0u8
    }) | (if stat {
        IRQ_LCD_STAT
    } else {
        0u8
    })
}

/// The interrupt requests raised by the M-cycle of an enabled PPU in `r`.
pub open spec fn raised(r: LcdRegs) -> u8 {
    irq_bits(enters_vblank(r.timing()), stat_request(r))
}

/// What the PPU holds, as values.
pub struct PpuView {
    pub r: LcdRegs,
    pub vram: Seq<u8>,
    pub oam: Seq<u8>,
    pub buffer: Seq<u8>,
}

impl PpuView {
    /// The memories have their sizes.
    pub open spec fn mem_wf(self) -> bool {
        &&& self.vram.len() == 0x2000
        &&& self.oam.len() == 0xA0
        &&& self.buffer.len() == LCD_PIXELS
    }

    pub open spec fn wf(self) -> bool {
        &&& self.mem_wf()
        &&& timing_wf(self.r.timing())
        &&& self.r.stat & 0x83 == 0
        &&& (self.r.stat & LYC_EQ_LY != 0) == (self.r.ly == self.r.lyc)
    }

    /// Index of the tile at (`row`, `col`) of a tile map, as a tile number
    /// counted from 0x8000: signed tile indices count from 0x9000.
    pub open spec fn tile_index(self, map_hi: bool, row: int, col: int) -> int {
        let b = self.vram[(if map_hi {
            0x1C00int
        } else {
            0x1800int
        }) + row * 32 + col];
        if self.r.lcdc & TILE_DATA_ADDRESSING_MODE != 0 {
            b as int
        } else if b < 128 {
            b + 256
        } else {
            b as int
        }
    }

    /// Colour id (0..3) of pixel (`row`, `col`) of tile `idx`: bit 7 - col of
    /// the row's high bitplane above that of its low bitplane.
    pub open spec fn tile_pixel(self, idx: int, row: int, col: int) -> u8 {
        let lo = self.vram[idx * 16 + row * 2];
        let hi = self.vram[idx * 16 + row * 2 + 1];
        let c = (7 - col) as u8;
        (((hi >> c) & 1) << 1u8) | ((lo >> c) & 1)
    }

    /// Colour id of the pixel at (`y`, `x`) of the 256 x 256 picture that
    /// a tile map describes.
    pub open spec fn map_pixel(self, map_hi: bool, y: int, x: int) -> u8 {
        self.tile_pixel(self.tile_index(map_hi, y / 8, x / 8), y % 8, x % 8)
    }

    /// The window covers pixel `x` of the current line.
    pub open spec fn window_at(self, x: int) -> bool {
        self.r.lcdc & WINDOW_ENABLE != 0 && self.r.ly >= self.r.wy && x + 7 >= self.r.wx
    }

    /// The window covers some pixel of the current line.
    pub open spec fn window_on_line(self) -> bool {
        self.r.lcdc & BG_WINDOW_ENABLE != 0 && self.window_at(LCD_WIDTH - 1)
    }

    /// Colour id of pixel `x` of the current line from the window, where it
    /// covers the pixel, else from the scrolled background.
    pub open spec fn bg_win_id(self, x: int) -> u8 {
        if self.window_at(x) {
            self.map_pixel(self.r.lcdc & WINDOW_TILE_MAP != 0, self.r.wly as int, x + 7 - self.r.wx)
        } else {
            self.map_pixel(
                self.r.lcdc & BG_TILE_MAP != 0,
                (self.r.ly + self.r.scy) % 256,
                (x + self.r.scx) % 256,
            )
        }
    }

    /// The frame buffer after background and window of the current line are
    /// drawn.
    pub open spec fn bg_rendered(self) -> Seq<u8> {
        if self.r.lcdc & BG_WINDOW_ENABLE == 0 {
            self.buffer
        } else {
            let start = self.r.ly * LCD_WIDTH;
            Seq::new(
                self.buffer.len(),
                |i: int|
                    if start <= i < start + LCD_WIDTH {
                        intensity(shade(self.r.bgp, self.bg_win_id(i - start)))
                    } else {
                        self.buffer[i]
                    },
            )
        }
    }

    /// `self` and `w` agree on everything a line is drawn from.
    pub open spec fn same_picture(self, w: PpuView) -> bool {
        &&& self.r.lcdc == w.r.lcdc
        &&& self.r.ly == w.r.ly
        &&& self.r.scy == w.r.scy
        &&& self.r.scx == w.r.scx
        &&& self.r.wy == w.r.wy
        &&& self.r.wx == w.r.wx
        &&& self.r.wly == w.r.wly
        &&& self.r.bgp == w.r.bgp
        &&& self.r.obp0 == w.r.obp0
        &&& self.r.obp1 == w.r.obp1
        &&& self.vram == w.vram
        &&& self.oam == w.oam
    }

    /// Height of sprites in pixels.
    pub open spec fn sprite_height(self) -> int {
        if self.r.lcdc & SPRITE_SIZE != 0 {
            16
        } else {
            8
        }
    }

    /// OAM entry `k` (0..40) lies on the current line.
    pub open spec fn on_line(self, k: int) -> bool {
        let y = self.oam[4 * k];
        y <= self.r.ly + 16 < y + self.sprite_height()
    }

    /// The first ten of the first `n` OAM entries that lie on the current
    /// line, in OAM order.
    pub open spec fn selected(self, n: int) -> Seq<int>
        decreases n,
    {
        if n <= 0 {
            Seq::empty()
        } else {
            let s = self.selected(n - 1);
            if s.len() < 10 && self.on_line(n - 1) {
                s.push(n - 1)
            } else {
                s
            }
        }
    }

    pub open spec fn sprite_x(self, k: int) -> u8 {
        self.oam[4 * k + 1]
    }

    pub open spec fn sprite_flags(self, k: int) -> u8 {
        self.oam[4 * k + 3]
    }

    /// Colour id of sprite `k` at pixel `x` of the current line, flips
    /// applied; 0 where the sprite does not cover `x`.
    pub open spec fn sprite_id(self, k: int, x: int) -> u8 {
        let sx = self.sprite_x(k);
        if sx <= x + 8 < sx + 8 {
            let h = self.sprite_height();
            let flags = self.sprite_flags(k);
            let row0 = self.r.ly + 16 - self.oam[4 * k];
            let row = if flags & Y_FLIP != 0 {
                h - 1 - row0
            } else {
                row0
            };
            let col0 = x + 8 - sx;
            let col = if flags & X_FLIP != 0 {
                7 - col0
            } else {
                col0
            };
            let tile = self.oam[4 * k + 2];
            let idx = if h == 16 {
                tile & 0xFE
            } else {
                tile
            };
            self.tile_pixel(idx as int, row, col)
        } else {
            0
        }
    }

    /// The sprite among `s` shown at pixel `x`: of those with a nonzero
    /// colour there, the one with the lowest X, then the lowest OAM index.
    pub open spec fn sprite_at(self, s: Seq<int>, x: int) -> Option<int>
        decreases s.len(),
    {
        if s.len() == 0 {
            None
        } else {
            let rest = self.sprite_at(s.drop_last(), x);
            let k = s.last();
            if self.sprite_id(k, x) != 0 && (rest matches Some(j) ==> self.sprite_x(k)
                < self.sprite_x(j)) {
                Some(k)
            } else {
                rest
            }
        }
    }

    /// Colour id of the background or window under pixel `x`; 0 when they
    /// are off.
    pub open spec fn bg_id(self, x: int) -> u8 {
        if self.r.lcdc & BG_WINDOW_ENABLE != 0 {
            self.bg_win_id(x)
        } else {
            0
        }
    }

    /// Pixel `x` of the current line with sprites over `under`: a sprite
    /// with the background-priority flag stays behind a nonzero background.
    pub open spec fn sprite_pixel(self, x: int, under: u8) -> u8 {
        match self.sprite_at(self.selected(40), x) {
            Some(k) => {
                let flags = self.sprite_flags(k);
                if flags & OBJ2BG_PRIORITY != 0 && self.bg_id(x) != 0 {
                    under
                } else {
                    let pal = if flags & PALETTE != 0 {
                        self.r.obp1
                    } else {
                        self.r.obp0
                    };
                    intensity(shade(pal, self.sprite_id(k, x)))
                }
            },
            None => under,
        }
    }

    /// `b` with the sprites of the current line drawn over it.
    pub open spec fn sprites_over(self, b: Seq<u8>) -> Seq<u8> {
        if self.r.lcdc & SPRITE_ENABLE == 0 {
            b
        } else {
            let start = self.r.ly * LCD_WIDTH;
            Seq::new(
                b.len(),
                |i: int|
                    if start <= i < start + LCD_WIDTH {
                        self.sprite_pixel(i - start, b[i])
                    } else {
                        b[i]
                    },
            )
        }
    }

    /// The frame buffer after the current line is drawn: background and
    /// window, then sprites.
    pub open spec fn rendered(self) -> Seq<u8> {
        self.sprites_over(self.bg_rendered())
    }

    /// The PPU after one M-cycle.
    pub open spec fn cycle(self) -> PpuView {
        if !self.r.enabled() {
            self
        } else {
            let t = self.r.timing();
            let n = tick(t);
            let stat = if ly_changes(t) {
                stat_with_lyc(self.r.stat, n.ly == self.r.lyc)
            } else {
                self.r.stat
            };
            let buffer = if t.cycles == 1 && t.mode == Mode::Drawing {
                self.rendered()
            } else {
                self.buffer
            };
            let wly = if enters_vblank(t) {
                0
            } else if t.cycles == 1 && t.mode == Mode::Drawing && self.window_on_line() {
                ((self.r.wly + 1) % 256) as u8
            } else {
                self.r.wly
            };
            PpuView {
                r: LcdRegs {
                    mode: n.mode,
                    ly: n.ly,
                    cycles: n.cycles,
                    wly,
                    stat,
                    irq: self.r.irq | raised(self.r),
                    ..self.r
                },
                buffer,
                ..self
            }
        }
    }

    /// A byte read at `addr` of VRAM, OAM or the LCD registers.
    pub open spec fn read(self, addr: u16) -> u8 {
        if 0x8000 <= addr <= 0x9FFF {
            if self.r.mode == Mode::Drawing {
                0xFF
            } else {
                self.vram[addr - 0x8000]
            }
        } else if 0xFE00 <= addr <= 0xFE9F {
            if self.r.mode == Mode::Drawing || self.r.mode == Mode::OamScan {
                0xFF
            } else {
                self.oam[addr - 0xFE00]
            }
        } else if addr == 0xFF40 {
            self.r.lcdc
        } else if addr == 0xFF41 {
            stat_read(self.r)
        } else if addr == 0xFF42 {
            self.r.scy
        } else if addr == 0xFF43 {
            self.r.scx
        } else if addr == 0xFF44 {
            self.r.ly
        } else if addr == 0xFF45 {
            self.r.lyc
        } else if addr == 0xFF47 {
            self.r.bgp
        } else if addr == 0xFF48 {
            self.r.obp0
        } else if addr == 0xFF49 {
            self.r.obp1
        } else if addr == 0xFF4A {
            self.r.wy
        } else if addr == 0xFF4B {
            self.r.wx
        } else {
            0xFF
        }
    }

    /// The PPU after a byte is written at `addr`.
    pub open spec fn write(self, addr: u16, val: u8) -> PpuView {
        let r = self.r;
        if 0x8000 <= addr <= 0x9FFF {
            if r.mode == Mode::Drawing {
                self
            } else {
                PpuView { vram: self.vram.update(addr - 0x8000, val), ..self }
            }
        } else if 0xFE00 <= addr <= 0xFE9F {
            if r.mode == Mode::Drawing || r.mode == Mode::OamScan {
                self
            } else {
                PpuView { oam: self.oam.update(addr - 0xFE00, val), ..self }
            }
        } else if addr == 0xFF40 {
            PpuView { r: LcdRegs { lcdc: val, ..r }, ..self }
        } else if addr == 0xFF41 {
            PpuView { r: LcdRegs { stat: (r.stat & LYC_EQ_LY) | (val & 0x78), ..r }, ..self }
        } else if addr == 0xFF42 {
            PpuView { r: LcdRegs { scy: val, ..r }, ..self }
        } else if addr == 0xFF43 {
            PpuView { r: LcdRegs { scx: val, ..r }, ..self }
        } else if addr == 0xFF45 {
            PpuView {
                r: LcdRegs { lyc: val, stat: stat_with_lyc(r.stat, r.ly == val), ..r },
                ..self
            }
        } else if addr == 0xFF46 {
            PpuView { r: LcdRegs { oam_dma: Some((val as int * 256) as u16), ..r }, ..self }
        } else if addr == 0xFF47 {
            PpuView { r: LcdRegs { bgp: val, ..r }, ..self }
        } else if addr == 0xFF48 {
            PpuView { r: LcdRegs { obp0: val, ..r }, ..self }
        } else if addr == 0xFF49 {
            PpuView { r: LcdRegs { obp1: val, ..r }, ..self }
        } else if addr == 0xFF4A {
            PpuView { r: LcdRegs { wy: val, ..r }, ..self }
        } else if addr == 0xFF4B {
            PpuView { r: LcdRegs { wx: val, ..r }, ..self }
        } else {
            self
        }
    }
}

/// Grey level (0..3) that palette `palette` gives colour id `id`.
pub open spec fn shade(palette: u8, id: u8) -> u8 {
    (palette >> (id * 2)) & 3
}

/// Intensity of a grey level: white, light grey, dark grey, black.
pub open spec fn intensity(s: u8) -> u8 {
    if s == 0 {
        0xFF
    } else if s == 1 {
        0xAA
    } else if s == 2 {
        0x55
    } else {
        0x00
    }
}

/// The sprites of a line depend on the registers, VRAM and OAM only.
proof fn lemma_selected_frame(v: PpuView, w: PpuView, n: int)
    requires
        v.same_picture(w),
    ensures
        v.selected(n) == w.selected(n),
    decreases n,
{
    if n > 0 {
        lemma_selected_frame(v, w, n - 1);
    }
}

proof fn lemma_sprite_at_frame(v: PpuView, w: PpuView, s: Seq<int>, x: int)
    requires
        v.same_picture(w),
    ensures
        v.sprite_at(s, x) == w.sprite_at(s, x),
    decreases s.len(),
{
    if s.len() > 0 {
        lemma_sprite_at_frame(v, w, s.drop_last(), x);
    }
}

/// Drawing sprites over a buffer does not look at the PPU's own buffer.
proof fn lemma_sprites_over_frame(v: PpuView, w: PpuView, b: Seq<u8>)
    requires
        v.same_picture(w),
    ensures
        v.sprites_over(b) == w.sprites_over(b),
{
    lemma_selected_frame(v, w, 40);
    assert forall|x: int| #[trigger] v.sprite_at(v.selected(40), x) == w.sprite_at(w.selected(40), x) by {
        lemma_sprite_at_frame(v, w, v.selected(40), x);
    }
    assert(v.sprites_over(b) =~= w.sprites_over(b));
}

proof fn lemma_pixel_id(hi: u8, lo: u8, c: u8)
    by (bit_vector)
    ensures
        (((hi >> c) & 1) << 1u8) | ((lo >> c) & 1) <= 3,
{
}

proof fn lemma_stat_bits(stat: u8, m: u8)
    by (bit_vector)
    requires
        stat & 0x83 == 0,
        m <= 3,
    ensures
        (0x80u8 | stat | m) & 3 == m,
        ((0x80u8 | stat | m) & 4 != 0) == (stat & 4 != 0),
        (stat | 4) & 0x83 == 0,
        (stat & !4u8) & 0x83 == 0,
        (stat | 4) & 4 != 0,
        (stat & !4u8) & 4 == 0,
{
}

proof fn lemma_stat_write(stat: u8, val: u8)
    by (bit_vector)
    requires
        stat & 0x83 == 0,
    ensures
        ((stat & 4) | (val & 0x78)) & 0x83 == 0,
        ((stat & 4) | (val & 0x78)) & 4 == stat & 4,
{
}

/// The registers of a PPU at power-on: OAM scan of line 0, LCD off.
pub open spec fn initial_regs() -> LcdRegs {
    LcdRegs {
        mode: Mode::OamScan,
        lcdc: 0,
        stat: LYC_EQ_LY,
        scy: 0,
        scx: 0,
        ly: 0,
        lyc: 0,
        bgp: 0,
        obp0: 0,
        obp1: 0,
        wy: 0,
        wx: 0,
        wly: 0,
        cycles: 20,
        irq: 0,
        oam_dma: None,
    }
}

/// Intensity of colour id `id` through palette `palette`.
fn palette_intensity(palette: u8, id: u8) -> (r: u8)
    requires
        id <= 3,
    ensures
        r == intensity(shade(palette, id)),
{
    match (palette >> (id * 2)) & 0b11 {
        0 => 0xFF,  // white
        1 => 0xAA,  // light grey
        2 => 0x55,  // dark grey
        _ => 0x00,  // black
    }
}

pub struct Ppu {
    pub r: LcdRegs,
    pub vram: Vec<u8>,
    pub oam: Vec<u8>,
    /// 160 x 144 intensities, row by row.
    pub buffer: Vec<u8>,
}

impl View for Ppu {
    type V = PpuView;

    open spec fn view(&self) -> PpuView {
        PpuView { r: self.r, vram: self.vram@, oam: self.oam@, buffer: self.buffer@ }
    }
}

impl Ppu {
    pub fn new() -> (p: Ppu)
        ensures
            p@.wf(),
            p.r == initial_regs(),
            forall|i: int| 0 <= i < 0x2000 ==> p@.vram[i] == 0,
            forall|i: int| 0 <= i < 0xA0 ==> p@.oam[i] == 0,
            forall|i: int| 0 <= i < LCD_PIXELS ==> p@.buffer[i] == 0,
    {
        let p = Ppu {
            r: LcdRegs {
                mode: Mode::OamScan,
                lcdc: 0,
                // LY and LYC are both 0, so they start equal.
                stat: LYC_EQ_LY,
                scy: 0,
                scx: 0,
                ly: 0,
                lyc: 0,
                bgp: 0x00,
                obp0: 0x00,
                obp1: 0x00,
                wy: 0,
                wx: 0,
                wly: 0,
                cycles: 20,
                irq: 0,
                oam_dma: None,
            },
            vram: vec![0u8; 0x2000],
            oam: vec![0u8; 0xA0],
            buffer: vec![0u8; LCD_PIXELS],
        };
        assert(LYC_EQ_LY & 0x83 == 0 && LYC_EQ_LY & LYC_EQ_LY != 0) by (bit_vector);
        p
    }

    pub fn read(&self, addr: u16) -> (r: u8)
        requires
            self@.wf(),
        ensures
            r == self@.read(addr),
            addr == 0xFF41 ==> r & 3 == self.r.mode.spec_bits(),
            addr == 0xFF41 ==> (r & LYC_EQ_LY != 0) == (self.r.ly == self.r.lyc),
    {
        if 0x8000 <= addr && addr <= 0x9FFF {
            if self.r.mode == Mode::Drawing {
                0xFF  // VRAM is out of reach while a line is drawn
            } else {
                self.vram[(addr - 0x8000) as usize]
            }
        } else if 0xFE00 <= addr && addr <= 0xFE9F {
            if self.r.mode == Mode::Drawing || self.r.mode == Mode::OamScan {
                0xFF  // OAM is out of reach during modes 2 and 3
            } else {
                self.oam[(addr - 0xFE00) as usize]
            }
        } else if addr == 0xFF40 {
            self.r.lcdc
        } else if addr == 0xFF41 {
            proof {
                lemma_stat_bits(self.r.stat, self.r.mode.spec_bits());
            }
            0x80 | self.r.stat | self.r.mode.bits()
        } else if addr == 0xFF42 {
            self.r.scy
        } else if addr == 0xFF43 {
            self.r.scx
        } else if addr == 0xFF44 {
            self.r.ly
        } else if addr == 0xFF45 {
            self.r.lyc
        } else if addr == 0xFF47 {
            self.r.bgp
        } else if addr == 0xFF48 {
            self.r.obp0
        } else if addr == 0xFF49 {
            self.r.obp1
        } else if addr == 0xFF4A {
            self.r.wy
        } else if addr == 0xFF4B {
            self.r.wx
        } else {
            0xFF
        }
    }

    pub fn write(&mut self, addr: u16, val: u8)
        requires
            old(self)@.wf(),
        ensures
            final(self)@ == old(self)@.write(addr, val),
            final(self)@.wf(),
    {
        if 0x8000 <= addr && addr <= 0x9FFF {
            if self.r.mode != Mode::Drawing {
                self.vram.set((addr - 0x8000) as usize, val);
            }
        } else if 0xFE00 <= addr && addr <= 0xFE9F {
            if self.r.mode != Mode::Drawing && self.r.mode != Mode::OamScan {
                self.oam.set((addr - 0xFE00) as usize, val);
            }
        } else if addr == 0xFF40 {
            self.r.lcdc = val;
        } else if addr == 0xFF41 {
            // bits 0-2 are read-only
            proof {
                lemma_stat_write(self.r.stat, val);
            }
            self.r.stat = (self.r.stat & LYC_EQ_LY) | (val & 0x78);
        } else if addr == 0xFF42 {
            self.r.scy = val;
        } else if addr == 0xFF43 {
            self.r.scx = val;
        } else if addr == 0xFF45 {
            self.r.lyc = val;
            self.check_lyc_eq_ly();
        } else if addr == 0xFF46 {
            self.r.oam_dma = Some((val as u16) * 256);
        } else if addr == 0xFF47 {
            self.r.bgp = val;
        } else if addr == 0xFF48 {
            self.r.obp0 = val;
        } else if addr == 0xFF49 {
            self.r.obp1 = val;
        } else if addr == 0xFF4A {
            self.r.wy = val;
        } else if addr == 0xFF4B {
            self.r.wx = val;
        }
        // LY (0xFF44) is read-only; other addresses hold nothing here.
    }

    fn get_pixel_from_tile(&self, tile_idx: usize, row: u8, col: u8) -> (r: u8)
        requires
            self@.mem_wf(),
            tile_idx < 384,
            row < 16,
            tile_idx < 256 || row < 8,
            col < 8,
        ensures
            r == self@.tile_pixel(tile_idx as int, row as int, col as int),
            r <= 3,
    {
        let r = (row as usize) * 2;
        let c = 7 - col;
        let tile_addr = tile_idx * 16;
        let low = self.vram[tile_addr + r];
        let high = self.vram[tile_addr + r + 1];
        proof {
            lemma_pixel_id(high, low, c);
        }
        (((high >> c) & 1) << 1) | ((low >> c) & 1)
    }

    fn get_tile_idx_from_tile_map(&self, tile_map: bool, row: u8, col: u8) -> (r: usize)
        requires
            self@.mem_wf(),
            row < 32,
            col < 32,
        ensures
            r as int == self@.tile_index(tile_map, row as int, col as int),
            r < 384,
    {
        let start_addr: usize = if tile_map {
            0x1C00
        } else {
            0x1800
        };
        let ret = self.vram[start_addr + (row as usize) * 32 + col as usize];
        if self.r.lcdc & TILE_DATA_ADDRESSING_MODE != 0 {
            ret as usize
        } else if ret < 128 {
            // signed index: tiles 0..127 lie above 0x9000
            ret as usize + 256
        } else {
            ret as usize
        }
    }

    /// Colour id of pixel (`y`, `x`) of the picture a tile map describes.
    fn map_pixel(&self, map_hi: bool, y: u8, x: u8) -> (r: u8)
        requires
            self@.mem_wf(),
        ensures
            r == self@.map_pixel(map_hi, y as int, x as int),
            r <= 3,
    {
        let tile_idx = self.get_tile_idx_from_tile_map(map_hi, y / 8, x / 8);
        self.get_pixel_from_tile(tile_idx, y % 8, x % 8)
    }

    /// Whether the window covers pixel `x` of the current line.
    fn window_at(&self, x: u8) -> (r: bool)
        ensures
            r == self@.window_at(x as int),
    {
        self.r.lcdc & WINDOW_ENABLE != 0 && self.r.ly >= self.r.wy && (x as u16) + 7
            >= self.r.wx as u16
    }

    /// Colour id of pixel `x` of the current line, from window or background.
    fn bg_win_id(&self, x: u8) -> (r: u8)
        requires
            self@.mem_wf(),
            x < 160,
        ensures
            r == self@.bg_win_id(x as int),
            r <= 3,
    {
        if self.window_at(x) {
            let wx = x + 7 - self.r.wx;
            let r = self.map_pixel(self.r.lcdc & WINDOW_TILE_MAP != 0, self.r.wly, wx);
            r
        } else {
            let y = self.r.ly.wrapping_add(self.r.scy);
            let xx = x.wrapping_add(self.r.scx);
            assert(y as int == (self.r.ly + self.r.scy) % 256);
            assert(xx as int == (x + self.r.scx) % 256);
            let r = self.map_pixel(self.r.lcdc & BG_TILE_MAP != 0, y, xx);
            r
        }
    }

    /// Renders background and window of the current line.
    fn render_bg(&mut self)
        requires
            old(self)@.mem_wf(),
            old(self).r.ly < 144,
        ensures
            final(self)@ == (PpuView { buffer: old(self)@.bg_rendered(), ..old(self)@ }),
    {
        if self.r.lcdc & BG_WINDOW_ENABLE == 0 {
            return ;
        }
        let ghost v0 = self@;
        let start = LCD_WIDTH * self.r.ly as usize;
        for i in 0..LCD_WIDTH
            invariant
                self@.mem_wf(),
                self.r == v0.r,
                self.vram@ == v0.vram,
                self.oam@ == v0.oam,
                v0.mem_wf(),
                v0.r.ly < 144,
                v0.r.lcdc & BG_WINDOW_ENABLE != 0,
                start == v0.r.ly * LCD_WIDTH,
                forall|j: int|
                    0 <= j < self.buffer@.len() ==> #[trigger] self.buffer@[j] == if start <= j
                        < start + i {
                        intensity(shade(v0.r.bgp, v0.bg_win_id(j - start)))
                    } else {
                        v0.buffer[j]
                    },
        {
            let id = self.bg_win_id(i as u8);
            let v = palette_intensity(self.r.bgp, id);
            self.buffer.set(start + i, v);
        }
        assert(self.buffer@ =~= v0.bg_rendered());
    }

    /// The OAM entries drawn on the current line: the first ten that lie on
    /// it.
    fn select_sprites(&self) -> (r: Vec<usize>)
        requires
            self@.mem_wf(),
        ensures
            r@.len() == self@.selected(40).len(),
            forall|i: int| 0 <= i < r@.len() ==> r@[i] as int == self@.selected(40)[i],
            forall|i: int| 0 <= i < r@.len() ==> r@[i] < 40 && self@.on_line(r@[i] as int),
    {
        let h: u16 = if self.r.lcdc & SPRITE_SIZE != 0 {
            16
        } else {
            8
        };
        let mut r: Vec<usize> = Vec::new();
        for k in 0..40
            invariant
                self@.mem_wf(),
                h == self@.sprite_height(),
                r@.len() == self@.selected(k as int).len(),
                r@.len() <= 10,
                forall|i: int| 0 <= i < r@.len() ==> r@[i] as int == self@.selected(k as int)[i],
                forall|i: int|
                    0 <= i < r@.len() ==> r@[i] < k && self@.on_line(r@[i] as int),
        {
            let y = self.oam[4 * k] as u16;
            if r.len() < 10 && y <= (self.r.ly as u16) + 16 && (self.r.ly as u16) + 16 < y + h {
                r.push(k);
            }
        }
        r
    }

    /// Colour id of sprite `k` at pixel `x` of the current line.
    fn sprite_id(&self, k: usize, x: u8) -> (r: u8)
        requires
            self@.mem_wf(),
            self.r.ly < 144,
            k < 40,
            self@.on_line(k as int),
        ensures
            r == self@.sprite_id(k as int, x as int),
            r <= 3,
    {
        let sx = self.oam[4 * k + 1] as u16;
        let xx = x as u16;
        if sx <= xx + 8 && xx + 8 < sx + 8 {
            let tall = self.r.lcdc & SPRITE_SIZE != 0;
            let h: u16 = if tall {
                16
            } else {
                8
            };
            let flags = self.oam[4 * k + 3];
            let row0 = (self.r.ly as u16) + 16 - (self.oam[4 * k] as u16);
            let row = if flags & Y_FLIP != 0 {
                h - 1 - row0
            } else {
                row0
            };
            let col0 = xx + 8 - sx;
            let col = if flags & X_FLIP != 0 {
                7 - col0
            } else {
                col0
            };
            let tile = self.oam[4 * k + 2];
            let idx = if tall {
                tile & 0xFE
            } else {
                tile
            };
            self.get_pixel_from_tile(idx as usize, row as u8, col as u8)
        } else {
            0
        }
    }

    /// The sprite of `sel` shown at pixel `x`, if any.
    fn sprite_at(&self, sel: &Vec<usize>, x: u8) -> (r: Option<usize>)
        requires
            self@.mem_wf(),
            self.r.ly < 144,
            sel@.len() == self@.selected(40).len(),
            forall|i: int| 0 <= i < sel@.len() ==> sel@[i] as int == self@.selected(40)[i],
            forall|i: int| 0 <= i < sel@.len() ==> sel@[i] < 40 && self@.on_line(sel@[i] as int),
        ensures
            r matches Some(k) ==> k < 40 && self@.on_line(k as int),
            (r matches Some(k) ==> self@.sprite_at(self@.selected(40), x as int) == Some(k as int)),
            r is None ==> self@.sprite_at(self@.selected(40), x as int) is None,
    {
        let ghost all = self@.selected(40);
        let mut best: Option<usize> = None;
        for j in 0..sel.len()
            invariant
                self@.mem_wf(),
                self.r.ly < 144,
                all == self@.selected(40),
                sel@.len() == all.len(),
                forall|i: int| 0 <= i < sel@.len() ==> sel@[i] as int == all[i],
                forall|i: int| 0 <= i < sel@.len() ==> sel@[i] < 40 && self@.on_line(sel@[i] as int),
                best matches Some(k) ==> k < 40 && self@.on_line(k as int),
                best matches Some(k) ==> self@.sprite_at(all.take(j as int), x as int) == Some(k as int),
                best is None ==> self@.sprite_at(all.take(j as int), x as int) is None,
        {
            let k = sel[j];
            assert(all.take(j + 1).drop_last() =~= all.take(j as int));
            assert(all.take(j + 1).last() == k as int);
            if self.sprite_id(k, x) != 0 {
                match best {
                    Some(b) => {
                        if self.oam[4 * k + 1] < self.oam[4 * b + 1] {
                            best = Some(k);
                        }
                    },
                    None => {
                        best = Some(k);
                    },
                }
            }
        }
        assert(all.take(sel@.len() as int) =~= all);
        best
    }

    /// Draws the sprites of the current line over the frame buffer.
    fn render_sprites(&mut self)
        requires
            old(self)@.mem_wf(),
            old(self).r.ly < 144,
        ensures
            final(self)@ == (PpuView {
                buffer: old(self)@.sprites_over(old(self)@.buffer),
                ..old(self)@
            }),
    {
        if self.r.lcdc & SPRITE_ENABLE == 0 {
            return ;
        }
        let ghost v0 = self@;
        let sel = self.select_sprites();
        let start = LCD_WIDTH * self.r.ly as usize;
        for i in 0..LCD_WIDTH
            invariant
                self@.mem_wf(),
                self.r == v0.r,
                self.vram@ == v0.vram,
                self.oam@ == v0.oam,
                v0.mem_wf(),
                v0.r.ly < 144,
                v0.r.lcdc & SPRITE_ENABLE != 0,
                start == v0.r.ly * LCD_WIDTH,
                sel@.len() == v0.selected(40).len(),
                forall|j: int| 0 <= j < sel@.len() ==> sel@[j] as int == v0.selected(40)[j],
                forall|j: int| 0 <= j < sel@.len() ==> sel@[j] < 40 && v0.on_line(sel@[j] as int),
                forall|j: int|
                    0 <= j < self.buffer@.len() ==> #[trigger] self.buffer@[j] == if start <= j
                        < start + i {
                        v0.sprite_pixel(j - start, v0.buffer[j])
                    } else {
                        v0.buffer[j]
                    },
        {
            proof {
                lemma_selected_frame(self@, v0, 40);
                lemma_sprite_at_frame(self@, v0, v0.selected(40), i as int);
            }
            let under = self.buffer[start + i];
            let v = match self.sprite_at(&sel, i as u8) {
                Some(k) => {
                    let flags = self.oam[4 * k + 3];
                    let bg = if self.r.lcdc & BG_WINDOW_ENABLE != 0 {
                        self.bg_win_id(i as u8)
                    } else {
                        0
                    };
                    if flags & OBJ2BG_PRIORITY != 0 && bg != 0 {
                        under
                    } else {
                        let pal = if flags & PALETTE != 0 {
                            self.r.obp1
                        } else {
                            self.r.obp0
                        };
                        let id = self.sprite_id(k, i as u8);
                        palette_intensity(pal, id)
                    }
                },
                None => under,
            };
            assert(v == v0.sprite_pixel(i as int, v0.buffer[start + i]));
            self.buffer.set(start + i, v);
        }
        assert(self.buffer@ =~= v0.sprites_over(v0.buffer));
    }

    /// Recomputes STAT bit 2 from LY and LYC.
    fn check_lyc_eq_ly(&mut self)
        requires
            old(self).r.stat & 0x83 == 0,
        ensures
            final(self)@ == (PpuView {
                r: LcdRegs {
                    stat: stat_with_lyc(old(self).r.stat, old(self).r.ly == old(self).r.lyc),
                    ..old(self).r
                },
                ..old(self)@
            }),
            final(self).r.stat & 0x83 == 0,
            (final(self).r.stat & LYC_EQ_LY != 0) == (final(self).r.ly == final(self).r.lyc),
    {
        proof {
            lemma_stat_bits(self.r.stat, 0);
        }
        if self.r.ly == self.r.lyc {
            self.r.stat = self.r.stat | LYC_EQ_LY;
        } else {
            self.r.stat = self.r.stat & !LYC_EQ_LY;
        }
    }

    /// Advances the PPU by one M-cycle; true exactly on the M-cycle that
    /// completes a frame. A disabled PPU does nothing.
    pub fn emulate_cycle(&mut self) -> (frame: bool)
        requires
            old(self)@.wf(),
        ensures
            final(self)@ == old(self)@.cycle(),
            final(self)@.wf(),
            frame == (old(self).r.enabled() && frame_done(old(self).r.timing())),
            !old(self).r.enabled() ==> !frame && final(self)@ == old(self)@,
    {
        if self.r.lcdc & PPU_ENABLE == 0 {
            return false;
        }
        let ghost v0 = self@;
        let irq = self.raised();
        self.r.cycles = self.r.cycles - 1;
        if self.r.cycles > 0 {
            self.r.irq = self.r.irq | irq;
            return false;
        }
        let mut ret = false;
        match self.r.mode {
            Mode::HBlank => {
                // the end of HBlank is the end of a line
                self.r.ly = self.r.ly + 1;
                if self.r.ly < 144 {
                    self.r.mode = Mode::OamScan;
                    self.r.cycles = 20;
                } else {
                    self.r.mode = Mode::VBlank;
                    self.r.cycles = 114;
                    // the window starts again from its first line
                    self.r.wly = 0;
                }
                self.check_lyc_eq_ly();
            },
            Mode::VBlank => {
                self.r.ly = self.r.ly + 1;
                if self.r.ly > 153 {
                    // the end of the last VBlank line completes the frame
                    ret = true;
                    self.r.ly = 0;
                    self.r.mode = Mode::OamScan;
                    self.r.cycles = 20;
                } else {
                    self.r.cycles = 114;
                }
                self.check_lyc_eq_ly();
            },
            Mode::OamScan => {
                self.r.mode = Mode::Drawing;
                self.r.cycles = 43;
            },
            Mode::Drawing => {
                // the last cycle of Drawing renders the line
                let window_drawn = self.r.lcdc & BG_WINDOW_ENABLE != 0 && self.window_at(159);
                self.render_bg();
                let ghost v1 = self@;
                self.render_sprites();
                proof {
                    lemma_sprites_over_frame(v1, v0, v1.buffer);
                }
                assert(self.buffer@ =~= v0.rendered());
                if window_drawn {
                    self.r.wly = self.r.wly.wrapping_add(1);
                }
                self.r.mode = Mode::HBlank;
                self.r.cycles = 51;
            },
        }
        self.r.irq = self.r.irq | irq;
        assert(self.r == v0.cycle().r);
        assert(self.buffer@ == v0.cycle().buffer);
        assert(self@ == v0.cycle());
        ret
    }

    /// The interrupt requests that the coming M-cycle raises.
    fn raised(&self) -> (r: u8)
        requires
            self@.wf(),
            self.r.enabled(),
        ensures
            r == raised(self.r),
    {
        let entering = self.r.cycles == 1;
        let next = if !entering {
            self.r.mode
        } else {
            match self.r.mode {
                Mode::OamScan => Mode::Drawing,
                Mode::Drawing => Mode::HBlank,
                Mode::HBlank => if self.r.ly + 1 < 144 {
                    Mode::OamScan
                } else {
                    Mode::VBlank
                },
                Mode::VBlank => if self.r.ly + 1 > 153 {
                    Mode::OamScan
                } else {
                    Mode::VBlank
                },
            }
        };
        let changes = entering && next != self.r.mode;
        let ly_moves = entering && (self.r.mode == Mode::HBlank || self.r.mode == Mode::VBlank);
        let next_ly: u8 = if !ly_moves {
            self.r.ly
        } else if self.r.mode == Mode::VBlank && self.r.ly == 153 {
            0
        } else {
            self.r.ly + 1
        };
        let vblank = changes && next == Mode::VBlank;
        let stat_int = (changes && ((next == Mode::HBlank && self.r.stat & HBLANK_INT != 0) || (
        next == Mode::VBlank && self.r.stat & VBLANK_INT != 0) || (next == Mode::OamScan
            && self.r.stat & OAM_SCAN_INT != 0))) || (ly_moves && next_ly == self.r.lyc
            && self.r.stat & LYC_EQ_LY_INT != 0);
        (if vblank {
            IRQ_VBLANK
        } else {
            0u8
        }) | (if stat_int {
            IRQ_LCD_STAT
        } else {
            0u8
        })
    }

    /// The frame buffer with each intensity repeated three times, as RGB24.
    pub fn pixel_buffer(&self) -> (r: Vec<u8>)
        requires
            self@.wf(),
        ensures
            r@.len() == 3 * LCD_PIXELS,
            forall|i: int| 0 <= i < 3 * LCD_PIXELS ==> #[trigger] r@[i] == self.buffer@[i / 3],
    {
        let mut r: Vec<u8> = Vec::new();
        for i in 0..LCD_PIXELS
            invariant
                self@.wf(),
                r@.len() == 3 * i,
                forall|j: int| 0 <= j < 3 * i ==> #[trigger] r@[j] == self.buffer@[j / 3],
        {
            let e = self.buffer[i];
            r.push(e);
            r.push(e);
            r.push(e);
        }
        r
    }
}

} // verus!
