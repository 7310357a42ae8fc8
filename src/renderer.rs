use vstd::prelude::*;
use crate::ppu::NesPPU;
use crate::ppu::PpuView;
use crate::rom::Mirroring;
use crate::rom::zeros;

verus! {

/// The console's 64 colours as (R, G, B).
pub open spec fn palette_rgb(index: u8) -> (u8, u8, u8) {
    match index {
        0 => (0x80, 0x80, 0x80),
        1 => (0x00, 0x3D, 0xA6),
        2 => (0x00, 0x12, 0xB0),
        3 => (0x44, 0x00, 0x96),
        4 => (0xA1, 0x00, 0x5E),
        5 => (0xC7, 0x00, 0x28),
        6 => (0xBA, 0x06, 0x00),
        7 => (0x8C, 0x17, 0x00),
        8 => (0x5C, 0x2F, 0x00),
        9 => (0x10, 0x45, 0x00),
        10 => (0x05, 0x4A, 0x00),
        11 => (0x00, 0x47, 0x2E),
        12 => (0x00, 0x41, 0x66),
        13 => (0x00, 0x00, 0x00),
        14 => (0x05, 0x05, 0x05),
        15 => (0x05, 0x05, 0x05),
        16 => (0xC7, 0xC7, 0xC7),
        17 => (0x00, 0x77, 0xFF),
        18 => (0x21, 0x55, 0xFF),
        19 => (0x82, 0x37, 0xFA),
        20 => (0xEB, 0x2F, 0xB5),
        21 => (0xFF, 0x29, 0x50),
        22 => (0xFF, 0x22, 0x00),
        23 => (0xD6, 0x32, 0x00),
        24 => (0xC4, 0x62, 0x00),
        25 => (0x35, 0x80, 0x00),
        26 => (0x05, 0x8F, 0x00),
        27 => (0x00, 0x8A, 0x55),
        28 => (0x00, 0x99, 0xCC),
        29 => (0x21, 0x21, 0x21),
        30 => (0x09, 0x09, 0x09),
        31 => (0x09, 0x09, 0x09),
        32 => (0xFF, 0xFF, 0xFF),
        33 => (0x0F, 0xD7, 0xFF),
        34 => (0x69, 0xA2, 0xFF),
        35 => (0xD4, 0x80, 0xFF),
        36 => (0xFF, 0x45, 0xF3),
        37 => (0xFF, 0x61, 0x8B),
        38 => (0xFF, 0x88, 0x33),
        39 => (0xFF, 0x9C, 0x12),
        40 => (0xFA, 0xBC, 0x20),
        41 => (0x9F, 0xE3, 0x0E),
        42 => (0x2B, 0xF0, 0x35),
        43 => (0x0C, 0xF0, 0xA4),
        44 => (0x05, 0xFB, 0xFF),
        45 => (0x5E, 0x5E, 0x5E),
        46 => (0x0D, 0x0D, 0x0D),
        47 => (0x0D, 0x0D, 0x0D),
        48 => (0xFF, 0xFF, 0xFF),
        49 => (0xA6, 0xFC, 0xFF),
        50 => (0xB3, 0xEC, 0xFF),
        51 => (0xDA, 0xAB, 0xEB),
        52 => (0xFF, 0xA8, 0xF9),
        53 => (0xFF, 0xAB, 0xB3),
        54 => (0xFF, 0xD2, 0xB0),
        55 => (0xFF, 0xEF, 0xA6),
        56 => (0xFF, 0xF7, 0x9C),
        57 => (0xD7, 0xE8, 0x95),
        58 => (0xA6, 0xED, 0xAF),
        59 => (0xA2, 0xF2, 0xDA),
        60 => (0x99, 0xFF, 0xFC),
        61 => (0xDD, 0xDD, 0xDD),
        62 => (0x11, 0x11, 0x11),
        _ => (0x11, 0x11, 0x11),
    }
}

/// The RGB colour of a palette entry; only its low six bits count.
pub fn system_palette(index: u8) -> (r: (u8, u8, u8))
    ensures
        r == palette_rgb(index % 64),
{
    match index % 64 {
        0 => (0x80, 0x80, 0x80),
        1 => (0x00, 0x3D, 0xA6),
        2 => (0x00, 0x12, 0xB0),
        3 => (0x44, 0x00, 0x96),
        4 => (0xA1, 0x00, 0x5E),
        5 => (0xC7, 0x00, 0x28),
        6 => (0xBA, 0x06, 0x00),
        7 => (0x8C, 0x17, 0x00),
        8 => (0x5C, 0x2F, 0x00),
        9 => (0x10, 0x45, 0x00),
        10 => (0x05, 0x4A, 0x00),
        11 => (0x00, 0x47, 0x2E),
        12 => (0x00, 0x41, 0x66),
        13 => (0x00, 0x00, 0x00),
        14 => (0x05, 0x05, 0x05),
        15 => (0x05, 0x05, 0x05),
        16 => (0xC7, 0xC7, 0xC7),
        17 => (0x00, 0x77, 0xFF),
        18 => (0x21, 0x55, 0xFF),
        19 => (0x82, 0x37, 0xFA),
        20 => (0xEB, 0x2F, 0xB5),
        21 => (0xFF, 0x29, 0x50),
        22 => (0xFF, 0x22, 0x00),
        23 => (0xD6, 0x32, 0x00),
        24 => (0xC4, 0x62, 0x00),
        25 => (0x35, 0x80, 0x00),
        26 => (0x05, 0x8F, 0x00),
        27 => (0x00, 0x8A, 0x55),
        28 => (0x00, 0x99, 0xCC),
        29 => (0x21, 0x21, 0x21),
        30 => (0x09, 0x09, 0x09),
        31 => (0x09, 0x09, 0x09),
        32 => (0xFF, 0xFF, 0xFF),
        33 => (0x0F, 0xD7, 0xFF),
        34 => (0x69, 0xA2, 0xFF),
        35 => (0xD4, 0x80, 0xFF),
        36 => (0xFF, 0x45, 0xF3),
        37 => (0xFF, 0x61, 0x8B),
        38 => (0xFF, 0x88, 0x33),
        39 => (0xFF, 0x9C, 0x12),
        40 => (0xFA, 0xBC, 0x20),
        41 => (0x9F, 0xE3, 0x0E),
        42 => (0x2B, 0xF0, 0x35),
        43 => (0x0C, 0xF0, 0xA4),
        44 => (0x05, 0xFB, 0xFF),
        45 => (0x5E, 0x5E, 0x5E),
        46 => (0x0D, 0x0D, 0x0D),
        47 => (0x0D, 0x0D, 0x0D),
        48 => (0xFF, 0xFF, 0xFF),
        49 => (0xA6, 0xFC, 0xFF),
        50 => (0xB3, 0xEC, 0xFF),
        51 => (0xDA, 0xAB, 0xEB),
        52 => (0xFF, 0xA8, 0xF9),
        53 => (0xFF, 0xAB, 0xB3),
        54 => (0xFF, 0xD2, 0xB0),
        55 => (0xFF, 0xEF, 0xA6),
        56 => (0xFF, 0xF7, 0x9C),
        57 => (0xD7, 0xE8, 0x95),
        58 => (0xA6, 0xED, 0xAF),
        59 => (0xA2, 0xF2, 0xDA),
        60 => (0x99, 0xFF, 0xFC),
        61 => (0xDD, 0xDD, 0xDD),
        62 => (0x11, 0x11, 0x11),
        _ => (0x11, 0x11, 0x11),
    }
}

pub const WIDTH: usize = 256;
pub const HEIGHT: usize = 240;

/// A 256x240 RGB framebuffer, three bytes per pixel, row by row.
pub struct Frame {
    pub data: Vec<u8>,
}

/// Where the three bytes of pixel (x, y) start.
pub open spec fn pixel_base(x: int, y: int) -> int {
    y * 3 * 256 + x * 3
}

/// The frame bytes after pixel (x, y) is painted `c`; a pixel whose bytes
/// would fall past the end is dropped.
pub open spec fn put_pixel(d: Seq<u8>, x: int, y: int, c: (u8, u8, u8)) -> Seq<u8> {
    let b = pixel_base(x, y);
    if b + 2 < d.len() {
        d.update(b, c.0).update(b + 1, c.1).update(b + 2, c.2)
    } else {
        d
    }
}

impl Frame {
    pub open spec fn wf(&self) -> bool {
        self.data.len() == 256 * 240 * 3
    }

    /// A black frame.
    pub fn new() -> (r: Self)
        ensures
            r.wf(),
            r.data@ == Seq::new(256 * 240 * 3, |i: int| 0u8),
    {
        Frame { data: zeros(WIDTH * HEIGHT * 3) }
    }

    /// Paints pixel (x, y); a pixel whose bytes would fall past the end of
    /// the frame is dropped.
    pub fn set_pixel(&mut self, x: usize, y: usize, rgb: (u8, u8, u8))
        requires
            x < 0x10000,
            y < 0x10000,
        ensures
            final(self).data.len() == old(self).data.len(),
            final(self).data@ == put_pixel(old(self).data@, x as int, y as int, rgb),
    {
        let base = y * 3 * WIDTH + x * 3;
        if base + 2 < self.data.len() {
            self.data.set(base, rgb.0);
            self.data.set(base + 1, rgb.1);
            self.data.set(base + 2, rgb.2);
        }
    }
}

/// The 2-bit colour of pixel `x` (0 = leftmost) of a tile row whose low
/// plane is `lo` and high plane `hi`.
pub open spec fn tile_pixel(lo: u8, hi: u8, x: int) -> u8 {
    ((((hi >> ((7 - x) as u8)) & 1) << 1u8) | ((lo >> ((7 - x) as u8)) & 1)) as u8
}

pub fn tile_pixel_exec(lo: u8, hi: u8, x: usize) -> (r: u8)
    requires
        x < 8,
    ensures
        r == tile_pixel(lo, hi, x as int),
        r < 4,
{
    let shift = (7 - x) as u8;
    let l = (lo >> shift) & 1;
    let h = (hi >> shift) & 1;
    assert(l <= 1 && h <= 1) by (bit_vector)
        requires l == (lo >> shift) & 1, h == (hi >> shift) & 1;
    assert((h << 1u8) | l < 4) by (bit_vector)
        requires l <= 1, h <= 1;
    (h << 1) | l
}

/// The sub-palette index (0..=3) that the attribute byte gives the tile at
/// (column, row).
pub open spec fn attribute_index(attr: u8, column: int, row: int) -> u8 {
    let cx = (column % 4) / 2;
    let cy = (row % 4) / 2;
    if cx == 0 && cy == 0 {
        attr & 0x03
    } else if cx == 1 && cy == 0 {
        (attr >> 2u8) & 0x03
    } else if cx == 0 && cy == 1 {
        (attr >> 4u8) & 0x03
    } else {
        (attr >> 6u8) & 0x03
    }
}

/// The four palette bytes of a background tile: the backdrop, then the
/// three colours of its sub-palette.
fn bg_palette(ppu: &NesPPU, nt_start: usize, column: usize, row: usize) -> (r: [u8; 4])
    requires
        ppu.wf(),
        nt_start + 0x400 <= 4096,
        column < 32,
        row < 30,
    ensures
        ({
            let attr = ppu@.vram[nt_start + 0x3c0 + row / 4 * 8 + column / 4];
            let start = 1 + attribute_index(attr, column as int, row as int) * 4;
            r@ == seq![ppu@.palette[0], ppu@.palette[start], ppu@.palette[start + 1], ppu@.palette[start + 2]]
        }),
{
    let attribute_byte = ppu.vram[nt_start + 0x3c0 + row / 4 * 8 + column / 4];
    let cx = column % 4 / 2;
    let cy = row % 4 / 2;
    let index = if cx == 0 && cy == 0 {
        attribute_byte & 0x03
    } else if cx == 1 && cy == 0 {
        (attribute_byte >> 2) & 0x03
    } else if cx == 0 && cy == 1 {
        (attribute_byte >> 4) & 0x03
    } else {
        (attribute_byte >> 6) & 0x03
    };
    assert(index <= 3) by (bit_vector)
        requires index == attribute_byte & 0x03 || index == (attribute_byte >> 2u8) & 0x03
            || index == (attribute_byte >> 4u8) & 0x03 || index == (attribute_byte >> 6u8) & 0x03;
    let palette_start: usize = 1 + (index as usize) * 4;
    let r = [
        ppu.palette_table[0],
        ppu.palette_table[palette_start],
        ppu.palette_table[palette_start + 1],
        ppu.palette_table[palette_start + 2],
    ];
    assert(r@ =~= seq![ppu@.palette[0], ppu@.palette[palette_start as int], ppu@.palette[palette_start + 1], ppu@.palette[palette_start + 2]]);
    r
}

/// The four palette bytes of a sprite palette: transparent, then the three
/// colours at 0x11 + 4p.
fn sprite_palette(ppu: &NesPPU, palette_index: u8) -> (r: [u8; 4])
    requires
        ppu.wf(),
        palette_index < 4,
    ensures
        ({
            let start = 0x11 + palette_index * 4;
            r@ == seq![0u8, ppu@.palette[start], ppu@.palette[start + 1], ppu@.palette[start + 2]]
        }),
{
    let start = 0x11 + (palette_index as usize) * 4;
    let r = [0, ppu.palette_table[start], ppu.palette_table[start + 1], ppu.palette_table[start + 2]];
    assert(r@ =~= seq![0u8, ppu@.palette[start as int], ppu@.palette[start + 1], ppu@.palette[start + 2]]);
    r
}

/// A part of the nametable to draw: columns x1..x2 and rows y1..y2, in
/// pixels.
pub struct ViewRect {
    pub x1: usize,
    pub y1: usize,
    pub x2: usize,
    pub y2: usize,
}

impl ViewRect {
    pub fn new(x1: usize, y1: usize, x2: usize, y2: usize) -> (r: Self)
        ensures
            r.x1 == x1 && r.y1 == y1 && r.x2 == x2 && r.y2 == y2,
    {
        ViewRect { x1, y1, x2, y2 }
    }
}

/// One background pass: the nametable at `vram[nt..]`, the part of it that
/// is drawn, and where on the screen that part's top-left corner lands.
pub struct Pass {
    pub nt: int,
    pub x1: int,
    pub y1: int,
    pub x2: int,
    pub y2: int,
    pub dx: int,
    pub dy: int,
}

/// The colour of pixel (x, y) of background tile `i` of a nametable.
pub open spec fn bg_rgb(p: PpuView, nt: int, i: int, x: int, y: int) -> (u8, u8, u8) {
    let column = i % 32;
    let row = i / 32;
    let head = p.control.background_pattern_spec() + p.vram[nt + i] * 16;
    let value = tile_pixel(p.chr_at(head + y), p.chr_at(head + y + 8), x);
    let attr = p.vram[nt + 0x3c0 + row / 4 * 8 + column / 4];
    let start = 1 + attribute_index(attr, column, row) * 4;
    let pal = seq![p.palette[0], p.palette[start], p.palette[start + 1], p.palette[start + 2]];
    palette_rgb(pal[value as int] % 64)
}

/// Paints pixel (x, y) of background tile `i` if it lies in the pass's view.
pub open spec fn bg_put(d: Seq<u8>, p: PpuView, s: Pass, i: int, x: int, y: int) -> Seq<u8> {
    let px = (i % 32) * 8 + x;
    let py = (i / 32) * 8 + y;
    if s.x1 <= px < s.x2 && s.y1 <= py < s.y2 {
        put_pixel(d, px - s.x1 + s.dx, py - s.y1 + s.dy, bg_rgb(p, s.nt, i, x, y))
    } else {
        d
    }
}

/// Pixels 0..n of row y of background tile `i`.
pub open spec fn bg_row(d: Seq<u8>, p: PpuView, s: Pass, i: int, y: int, n: nat) -> Seq<u8>
    decreases n,
{
    if n == 0 {
        d
    } else {
        bg_put(bg_row(d, p, s, i, y, (n - 1) as nat), p, s, i, n - 1, y)
    }
}

/// Rows 0..n of background tile `i`.
pub open spec fn bg_tile(d: Seq<u8>, p: PpuView, s: Pass, i: int, n: nat) -> Seq<u8>
    decreases n,
{
    if n == 0 {
        d
    } else {
        bg_row(bg_tile(d, p, s, i, (n - 1) as nat), p, s, i, n - 1, 8)
    }
}

/// Background tiles 0..n, in order.
pub open spec fn bg_tiles(d: Seq<u8>, p: PpuView, s: Pass, n: nat) -> Seq<u8>
    decreases n,
{
    if n == 0 {
        d
    } else {
        bg_tile(bg_tiles(d, p, s, (n - 1) as nat), p, s, n - 1, 8)
    }
}

/// The colour and screen position of pixel (x, y) of OAM entry `e`, or
/// None where the pixel is transparent.
pub open spec fn sprite_pixel(p: PpuView, e: int, x: int, y: int) -> Option<(int, int, (u8, u8, u8))> {
    let tile_y = p.oam[e * 4];
    let index = p.oam[e * 4 + 1];
    let attr = p.oam[e * 4 + 2];
    let tile_x = p.oam[e * 4 + 3];
    let head = p.control.sprite_pattern_spec() + index * 16;
    let value = tile_pixel(p.chr_at(head + y), p.chr_at(head + y + 8), x);
    let start = 0x11 + (attr & 0x03) * 4;
    let pal = seq![0u8, p.palette[start], p.palette[start + 1], p.palette[start + 2]];
    let px = if (attr >> 6u8) & 1 == 1 { tile_x + 7 - x } else { tile_x + x };
    let py = if (attr >> 7u8) & 1 == 1 { tile_y + 7 - y } else { tile_y + y };
    if value == 0 {
        None
    } else {
        Some((px, py, palette_rgb(pal[value as int] % 64)))
    }
}

pub open spec fn sprite_put(d: Seq<u8>, p: PpuView, e: int, x: int, y: int) -> Seq<u8> {
    match sprite_pixel(p, e, x, y) {
        Some((px, py, c)) => put_pixel(d, px, py, c),
        None => d,
    }
}

/// Pixels 0..n of row y of OAM entry `e`.
pub open spec fn sprite_row(d: Seq<u8>, p: PpuView, e: int, y: int, n: nat) -> Seq<u8>
    decreases n,
{
    if n == 0 {
        d
    } else {
        sprite_put(sprite_row(d, p, e, y, (n - 1) as nat), p, e, n - 1, y)
    }
}

/// Rows 0..n of OAM entry `e`.
pub open spec fn sprite_tile(d: Seq<u8>, p: PpuView, e: int, n: nat) -> Seq<u8>
    decreases n,
{
    if n == 0 {
        d
    } else {
        sprite_row(sprite_tile(d, p, e, (n - 1) as nat), p, e, n - 1, 8)
    }
}

/// The last `n` OAM entries drawn, from entry 63 down to entry 64 - n, so
/// that an earlier entry paints over a later one.
pub open spec fn sprites(d: Seq<u8>, p: PpuView, n: nat) -> Seq<u8>
    decreases n,
{
    if n == 0 {
        d
    } else {
        sprite_tile(sprites(d, p, (n - 1) as nat), p, 64 - n, 8)
    }
}

/// The CHR byte at `addr`, 0 past the end.
fn chr_byte(ppu: &NesPPU, addr: usize) -> (r: u8)
    ensures
        r == ppu@.chr_at(addr as int),
{
    if addr < ppu.chr_rom.len() {
        ppu.chr_rom[addr]
    } else {
        0
    }
}

/// Draws the part `view` of the nametable at `vram[nt_start..]`; its pixel
/// (px, py) lands on the screen at (px - view.x1 + dst_x, py - view.y1 + dst_y).
fn render_name_table(ppu: &NesPPU, frame: &mut Frame, nt_start: usize, view: &ViewRect, dst_x: usize, dst_y: usize)
    requires
        ppu.wf(),
        old(frame).wf(),
        nt_start + 0x400 <= 4096,
        view.x2 <= 256,
        view.y2 <= 240,
        dst_x <= 256,
        dst_y <= 240,
    ensures
        final(frame).wf(),
        final(frame).data@ == bg_tiles(
            old(frame).data@,
            ppu@,
            Pass {
                nt: nt_start as int,
                x1: view.x1 as int,
                y1: view.y1 as int,
                x2: view.x2 as int,
                y2: view.y2 as int,
                dx: dst_x as int,
                dy: dst_y as int,
            },
            0x3c0,
        ),
{
    let ghost s = Pass {
        nt: nt_start as int,
        x1: view.x1 as int,
        y1: view.y1 as int,
        x2: view.x2 as int,
        y2: view.y2 as int,
        dx: dst_x as int,
        dy: dst_y as int,
    };
    let ghost p = ppu@;
    let ghost d0 = frame.data@;
    let bank = ppu.control.background_pattern_address() as usize;
    let mut i: usize = 0;
    while i < 0x3c0
        invariant
            ppu.wf(),
            p == ppu@,
            s == (Pass {
                nt: nt_start as int,
                x1: view.x1 as int,
                y1: view.y1 as int,
                x2: view.x2 as int,
                y2: view.y2 as int,
                dx: dst_x as int,
                dy: dst_y as int,
            }),
            frame.wf(),
            nt_start + 0x400 <= 4096,
            view.x2 <= 256,
            view.y2 <= 240,
            dst_x <= 256,
            dst_y <= 240,
            bank == p.control.background_pattern_spec(),
            i <= 0x3c0,
            frame.data@ == bg_tiles(d0, p, s, i as nat),
        decreases 0x3c0 - i,
    {
        let index = ppu.vram[nt_start + i] as usize;
        let column = i % 32;
        let row = i / 32;
        let palette = bg_palette(ppu, nt_start, column, row);
        let head = bank + index * 16;
        let ghost t0 = frame.data@;
        let mut y: usize = 0;
        while y < 8
            invariant
                ppu.wf(),
                p == ppu@,
                s == (Pass {
                    nt: nt_start as int,
                    x1: view.x1 as int,
                    y1: view.y1 as int,
                    x2: view.x2 as int,
                    y2: view.y2 as int,
                    dx: dst_x as int,
                    dy: dst_y as int,
                }),
                frame.wf(),
                view.x2 <= 256,
                view.y2 <= 240,
                dst_x <= 256,
                dst_y <= 240,
                i < 0x3c0,
                column == i % 32,
                row == i / 32,
                head == bank + p.vram[nt_start + i] * 16,
                bank == p.control.background_pattern_spec(),
                head <= 0x1000 + 255 * 16,
                nt_start + 0x400 <= 4096,
                ({
                    let attr = p.vram[nt_start + 0x3c0 + row / 4 * 8 + column / 4];
                    let start = 1 + attribute_index(attr, column as int, row as int) * 4;
                    palette@ == seq![p.palette[0], p.palette[start], p.palette[start + 1], p.palette[start + 2]]
                }),
                y <= 8,
                frame.data@ == bg_tile(t0, p, s, i as int, y as nat),
            decreases 8 - y,
        {
            let lo = chr_byte(ppu, head + y);
            let hi = chr_byte(ppu, head + y + 8);
            let ghost r0 = frame.data@;
            let mut x: usize = 0;
            while x < 8
                invariant
                    ppu.wf(),
                    p == ppu@,
                    s == (Pass {
                        nt: nt_start as int,
                        x1: view.x1 as int,
                        y1: view.y1 as int,
                        x2: view.x2 as int,
                        y2: view.y2 as int,
                        dx: dst_x as int,
                        dy: dst_y as int,
                    }),
                    frame.wf(),
                    view.x2 <= 256,
                    view.y2 <= 240,
                    dst_x <= 256,
                    dst_y <= 240,
                    i < 0x3c0,
                    column == i % 32,
                    row == i / 32,
                    head == bank + p.vram[nt_start + i] * 16,
                    bank == p.control.background_pattern_spec(),
                    nt_start + 0x400 <= 4096,
                    ({
                        let attr = p.vram[nt_start + 0x3c0 + row / 4 * 8 + column / 4];
                        let start = 1 + attribute_index(attr, column as int, row as int) * 4;
                        palette@ == seq![p.palette[0], p.palette[start], p.palette[start + 1], p.palette[start + 2]]
                    }),
                    y < 8,
                    lo == p.chr_at(head + y),
                    hi == p.chr_at(head + y + 8),
                    x <= 8,
                    frame.data@ == bg_row(r0, p, s, i as int, y as int, x as nat),
                decreases 8 - x,
            {
                let value = tile_pixel_exec(lo, hi, x);
                let rgb = system_palette(palette[value as usize]);
                let pixel_x = column * 8 + x;
                let pixel_y = row * 8 + y;
                assert(rgb == bg_rgb(p, nt_start as int, i as int, x as int, y as int));
                let ghost before = frame.data@;
                assert(pixel_x == (i as int % 32) * 8 + x && pixel_y == (i as int / 32) * 8 + y);
                if pixel_x >= view.x1 && pixel_x < view.x2 && pixel_y >= view.y1 && pixel_y < view.y2 {
                    frame.set_pixel(pixel_x - view.x1 + dst_x, pixel_y - view.y1 + dst_y, rgb);
                }
                assert(frame.data@ == bg_put(before, p, s, i as int, x as int, y as int));
                x = x + 1;
            }
            y = y + 1;
        }
        i = i + 1;
    }
}

/// The offsets into VRAM of the nametable that is drawn and of the one that
/// fills in what scrolling reveals.
pub open spec fn name_tables(m: Mirroring, base: u16) -> (usize, usize) {
    let t = ((base - 0x2000) / 0x400) as u16;
    match m {
        Mirroring::VERTICAL => if t == 0 || t == 2 { (0, 0x400) } else { (0x400, 0) },
        Mirroring::HORIZONTAL => if t == 0 || t == 1 { (0, 0x400) } else { (0x400, 0) },
        Mirroring::FOUR_SCREEN => ((t * 0x400) as usize, ((t ^ 1u16) * 0x400) as usize),
    }
}

fn select_name_tables(ppu: &NesPPU) -> (r: (usize, usize))
    ensures
        r == name_tables(ppu.mirroring, ppu.control.name_table_spec()),
        r.0 + 0x400 <= 4096,
        r.1 + 0x400 <= 4096,
{
    let base = ppu.control.name_table_address();
    let t = (base - 0x2000) / 0x400;
    match ppu.mirroring {
        Mirroring::VERTICAL => if t == 0 || t == 2 { (0, 0x400) } else { (0x400, 0) },
        Mirroring::HORIZONTAL => if t == 0 || t == 1 { (0, 0x400) } else { (0x400, 0) },
        Mirroring::FOUR_SCREEN => {
            assert(t ^ 1u16 <= 3) by (bit_vector)
                requires t <= 3;
            ((t * 0x400) as usize, ((t ^ 1) * 0x400) as usize)
        },
    }
}

/// The frame after the background passes: the active nametable shifted by
/// the scroll, then the other one filling the strip that the scroll reveals
/// on the right (scroll x) or else at the bottom (scroll y). A vertical
/// scroll past 240 moves the active nametable off the screen and the other
/// one up by the excess.
pub open spec fn background_spec(d: Seq<u8>, p: PpuView) -> Seq<u8> {
    let (main, second) = name_tables(p.mirroring, p.control.name_table_spec());
    let sx = p.scroll.scroll_x as int;
    let sy = p.scroll.scroll_y as int;
    let d1 = bg_tiles(d, p, Pass { nt: main as int, x1: sx, y1: sy, x2: 256, y2: 240, dx: 0, dy: 0 }, 0x3c0);
    if sx > 0 {
        bg_tiles(d1, p, Pass { nt: second as int, x1: 0, y1: 0, x2: sx, y2: 240, dx: 256 - sx, dy: 0 }, 0x3c0)
    } else if sy > 240 {
        bg_tiles(d1, p, Pass { nt: second as int, x1: 0, y1: sy - 240, x2: 256, y2: 240, dx: 0, dy: 0 }, 0x3c0)
    } else if sy > 0 {
        bg_tiles(d1, p, Pass { nt: second as int, x1: 0, y1: 0, x2: 256, y2: sy, dx: 0, dy: 240 - sy }, 0x3c0)
    } else {
        d1
    }
}

/// Draws the background, scrolled, and then the 64 sprites, the first OAM
/// entry on top.
pub fn render(ppu: &NesPPU, frame: &mut Frame)
    requires
        ppu.wf(),
        old(frame).wf(),
    ensures
        final(frame).wf(),
        final(frame).data@ == sprites(background_spec(old(frame).data@, ppu@), ppu@, 64),
{
    let scroll_x = ppu.scroll.scroll_x as usize;
    let scroll_y = ppu.scroll.scroll_y as usize;
    let (main, second) = select_name_tables(ppu);
    render_name_table(ppu, frame, main, &ViewRect::new(scroll_x, scroll_y, 256, 240), 0, 0);
    if scroll_x > 0 {
        render_name_table(ppu, frame, second, &ViewRect::new(0, 0, scroll_x, 240), 256 - scroll_x, 0);
    } else if scroll_y > 240 {
        render_name_table(ppu, frame, second, &ViewRect::new(0, scroll_y - 240, 256, 240), 0, 0);
    } else if scroll_y > 0 {
        render_name_table(ppu, frame, second, &ViewRect::new(0, 0, 256, scroll_y), 0, 240 - scroll_y);
    }
    render_sprites(ppu, frame);
}

/// Draws the sprites from the last OAM entry to the first, so that earlier
/// entries end on top; colour 0 is transparent.
fn render_sprites(ppu: &NesPPU, frame: &mut Frame)
    requires
        ppu.wf(),
        old(frame).wf(),
    ensures
        final(frame).wf(),
        final(frame).data@ == sprites(old(frame).data@, ppu@, 64),
{
    let ghost p = ppu@;
    let ghost d0 = frame.data@;
    let bank = ppu.control.sprite_pattern_address() as usize;
    let mut n: usize = 64;
    while n > 0
        invariant
            ppu.wf(),
            p == ppu@,
            frame.wf(),
            n <= 64,
            bank == p.control.sprite_pattern_spec(),
            frame.data@ == sprites(d0, p, (64 - n) as nat),
        decreases n,
    {
        n = n - 1;
        let e = n;
        let i = n * 4;
        let tile_y = ppu.oam_data[i] as usize;
        let index = ppu.oam_data[i + 1] as usize;
        let attr = ppu.oam_data[i + 2];
        let tile_x = ppu.oam_data[i + 3] as usize;
        let flip_vertical = (attr >> 7) & 1 == 1;
        let flip_horizontal = (attr >> 6) & 1 == 1;
        let palette_index = attr & 0x03;
        assert(palette_index < 4) by (bit_vector)
            requires palette_index == attr & 0x03;
        let palette = sprite_palette(ppu, palette_index);
        let head = bank + index * 16;
        let ghost t0 = frame.data@;
        let mut y: usize = 0;
        while y < 8
            invariant
                ppu.wf(),
                p == ppu@,
                frame.wf(),
                e < 64,
                i == e * 4,
                tile_y == p.oam[e * 4],
                tile_x == p.oam[e * 4 + 3],
                attr == p.oam[e * 4 + 2],
                flip_vertical == ((attr >> 7u8) & 1 == 1),
                flip_horizontal == ((attr >> 6u8) & 1 == 1),
                palette_index == attr & 0x03,
                head == p.control.sprite_pattern_spec() + p.oam[e * 4 + 1] * 16,
                head <= 0x1000 + 255 * 16,
                ({
                    let start = 0x11 + palette_index * 4;
                    palette@ == seq![0u8, p.palette[start], p.palette[start + 1], p.palette[start + 2]]
                }),
                y <= 8,
                frame.data@ == sprite_tile(t0, p, e as int, y as nat),
            decreases 8 - y,
        {
            let lo = chr_byte(ppu, head + y);
            let hi = chr_byte(ppu, head + y + 8);
            let ghost r0 = frame.data@;
            let mut x: usize = 0;
            while x < 8
                invariant
                    ppu.wf(),
                    p == ppu@,
                    frame.wf(),
                    e < 64,
                    tile_y == p.oam[e * 4],
                    tile_x == p.oam[e * 4 + 3],
                    attr == p.oam[e * 4 + 2],
                    flip_vertical == ((attr >> 7u8) & 1 == 1),
                    flip_horizontal == ((attr >> 6u8) & 1 == 1),
                    palette_index == attr & 0x03,
                    head == p.control.sprite_pattern_spec() + p.oam[e * 4 + 1] * 16,
                    ({
                        let start = 0x11 + palette_index * 4;
                        palette@ == seq![0u8, p.palette[start], p.palette[start + 1], p.palette[start + 2]]
                    }),
                    y < 8,
                    lo == p.chr_at(head + y),
                    hi == p.chr_at(head + y + 8),
                    x <= 8,
                    frame.data@ == sprite_row(r0, p, e as int, y as int, x as nat),
                decreases 8 - x,
            {
                let value = tile_pixel_exec(lo, hi, x);
                if value != 0 {
                    let rgb = system_palette(palette[value as usize]);
                    let px = if flip_horizontal { tile_x + 7 - x } else { tile_x + x };
                    let py = if flip_vertical { tile_y + 7 - y } else { tile_y + y };
                    frame.set_pixel(px, py, rgb);
                }
                x = x + 1;
            }
            y = y + 1;
        }
        assert(64 - n == (64 - (n + 1)) + 1);
    }
}

} // verus!
