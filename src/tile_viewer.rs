use vstd::prelude::*;
use crate::renderer::Frame;
use crate::renderer::palette_rgb;
use crate::renderer::pixel_base;
use crate::renderer::system_palette;
use crate::renderer::tile_pixel;

verus! {

/// The colour the tile viewer gives each 2-bit pixel value.
pub open spec fn viewer_rgb(value: u8) -> (u8, u8, u8) {
    if value == 0 {
        palette_rgb(0x01)
    } else if value == 1 {
        palette_rgb(0x23)
    } else if value == 2 {
        palette_rgb(0x27)
    } else {
        palette_rgb(0x30)
    }
}

fn viewer_color(value: u8) -> (r: (u8, u8, u8))
    ensures
        r == viewer_rgb(value),
{
    if value == 0 {
        system_palette(0x01)
    } else if value == 1 {
        system_palette(0x23)
    } else if value == 2 {
        system_palette(0x27)
    } else {
        system_palette(0x30)
    }
}

/// The pixel value at (x, y) of the tile whose 16 bytes start at `start`;
/// in the viewer the plane at `start + y` is the high one.
pub open spec fn viewer_pixel(chr: Seq<u8>, start: int, x: int, y: int) -> u8 {
    tile_pixel(chr[start + y + 8], chr[start + y], x)
}

/// The pixel (x, y) that byte `i` of a frame belongs to.
pub open spec fn byte_pixel(i: int) -> (int, int) {
    ((i / 3) % 256, i / 768)
}

/// Whether byte `i` belongs to a pixel of the 8x8 square at (left, top)
/// that lies in a row above `top + y`, or in row `top + y` left of
/// `left + x`.
pub open spec fn drawn(i: int, left: int, top: int, y: int, x: int) -> bool {
    let (px, py) = byte_pixel(i);
    left <= px && top <= py && ((py < top + y && px < left + 8) || (py == top + y && px < left + x))
}

proof fn lemma_byte_pixel(px: int, py: int, k: int)
    requires
        0 <= px < 256,
        0 <= py,
        0 <= k < 3,
    ensures
        byte_pixel(pixel_base(px, py) + k) == (px, py),
{
    let i = pixel_base(px, py) + k;
    assert(i == (py * 256 + px) * 3 + k) by (nonlinear_arith)
        requires i == py * 3 * 256 + px * 3 + k;
    vstd::arithmetic::div_mod::lemma_fundamental_div_mod_converse(i, 3, py * 256 + px, k);
    vstd::arithmetic::div_mod::lemma_fundamental_div_mod_converse(py * 256 + px, 256, py, px);
    assert(i == py * 768 + (px * 3 + k)) by (nonlinear_arith)
        requires i == (py * 256 + px) * 3 + k;
    vstd::arithmetic::div_mod::lemma_fundamental_div_mod_converse(i, 768, py, px * 3 + k);
}

/// Draws the tile whose 16 bytes start at `start` with its top-left
/// corner at (left, top).
fn draw_tile(frame: &mut Frame, chr_rom: &Vec<u8>, start: usize, left: usize, top: usize)
    requires
        old(frame).wf(),
        start + 16 <= chr_rom.len(),
        left + 8 <= 256,
        top + 8 <= 240,
    ensures
        final(frame).wf(),
        forall|x: int, y: int|
            0 <= x < 8 && 0 <= y < 8 ==> {
                let b = #[trigger] pixel_base(left + x, top + y);
                let c = viewer_rgb(viewer_pixel(chr_rom@, start as int, x, y));
                final(frame).data@[b] == c.0 && final(frame).data@[b + 1] == c.1 && final(frame).data@[b + 2] == c.2
            },
        forall|i: int|
            0 <= i < final(frame).data@.len() && !drawn(i, left as int, top as int, 8, 0) ==> #[trigger] final(frame).data@[i]
                == old(frame).data@[i],
{
    let mut y: usize = 0;
    while y < 8
        invariant
            frame.wf(),
            start + 16 <= chr_rom.len(),
            left + 8 <= 256,
            top + 8 <= 240,
            y <= 8,
            forall|x: int, yy: int|
                0 <= x < 8 && 0 <= yy < y ==> {
                    let b = #[trigger] pixel_base(left + x, top + yy);
                    let c = viewer_rgb(viewer_pixel(chr_rom@, start as int, x, yy));
                    frame.data@[b] == c.0 && frame.data@[b + 1] == c.1 && frame.data@[b + 2] == c.2
                },
            forall|i: int|
                0 <= i < frame.data@.len() && !drawn(i, left as int, top as int, y as int, 0) ==> #[trigger] frame.data@[i]
                    == old(frame).data@[i],
        decreases 8 - y,
    {
        let upper = chr_rom[start + y];
        let lower = chr_rom[start + y + 8];
        let mut x: usize = 0;
        while x < 8
            invariant
                frame.wf(),
                start + 16 <= chr_rom.len(),
                left + 8 <= 256,
                top + 8 <= 240,
                y < 8,
                x <= 8,
                upper == chr_rom@[start + y],
                lower == chr_rom@[start + y + 8],
                forall|xx: int, yy: int|
                    0 <= xx < 8 && 0 <= yy < y ==> {
                        let b = #[trigger] pixel_base(left + xx, top + yy);
                        let c = viewer_rgb(viewer_pixel(chr_rom@, start as int, xx, yy));
                        frame.data@[b] == c.0 && frame.data@[b + 1] == c.1 && frame.data@[b + 2] == c.2
                    },
                forall|xx: int|
                    0 <= xx < x ==> {
                        let b = #[trigger] pixel_base(left + xx, top + y);
                        let c = viewer_rgb(viewer_pixel(chr_rom@, start as int, xx, y as int));
                        frame.data@[b] == c.0 && frame.data@[b + 1] == c.1 && frame.data@[b + 2] == c.2
                    },
                forall|i: int|
                    0 <= i < frame.data@.len() && !drawn(i, left as int, top as int, y as int, x as int) ==> #[trigger] frame.data@[i]
                        == old(frame).data@[i],
            decreases 8 - x,
        {
            let value = crate::renderer::tile_pixel_exec(lower, upper, x);
            let rgb = viewer_color(value);
            let ghost before = frame.data@;
            frame.set_pixel(left + x, top + y, rgb);
            proof {
                let b = pixel_base((left + x) as int, (top + y) as int);
                assert(b + 2 < before.len()) by (nonlinear_arith)
                    requires b == (top + y) * 3 * 256 + (left + x) * 3, top + y < 240, left + x < 256, before.len() == 184320;
                assert forall|xx: int, yy: int|
                    0 <= xx < 8 && 0 <= yy < y implies {
                        let bb = #[trigger] pixel_base(left + xx, top + yy);
                        bb + 2 < b || bb > b + 2
                    } by {
                        let bb = pixel_base(left + xx, top + yy);
                        assert(bb + 2 < b || bb > b + 2) by (nonlinear_arith)
                            requires bb == (top + yy) * 3 * 256 + (left + xx) * 3, b == (top + y) * 3 * 256 + (left + x) * 3,
                                0 <= xx < 8, 0 <= yy < y, left + 8 <= 256, 0 <= x < 8;
                    }
                assert forall|xx: int|
                    0 <= xx < x implies {
                        let bb = #[trigger] pixel_base(left + xx, top + y);
                        bb + 2 < b
                    } by {
                    }
                lemma_byte_pixel((left + x) as int, (top + y) as int, 0);
                lemma_byte_pixel((left + x) as int, (top + y) as int, 1);
                lemma_byte_pixel((left + x) as int, (top + y) as int, 2);
                assert forall|i: int|
                    0 <= i < frame.data@.len() && !drawn(i, left as int, top as int, y as int, x + 1) implies #[trigger] frame.data@[i]
                        == old(frame).data@[i] by {
                    assert(i != b && i != b + 1 && i != b + 2);
                    assert(frame.data@[i] == before[i]);
                }
            }
            x = x + 1;
        }
        assert forall|i: int|
            0 <= i < frame.data@.len() && !drawn(i, left as int, top as int, y + 1, 0) implies #[trigger] frame.data@[i]
                == old(frame).data@[i] by {
            assert(!drawn(i, left as int, top as int, y as int, 8));
        }
        y = y + 1;
    }
}

/// A frame showing tile `tile_n` of CHR bank `bank` (0 or 1) in the top
/// left corner.
pub fn show_tile(chr_rom: &Vec<u8>, bank: usize, tile_n: usize) -> (r: Frame)
    requires
        bank <= 1,
        tile_n < 256,
        bank * 0x1000 + tile_n * 16 + 16 <= chr_rom.len(),
    ensures
        r.wf(),
        forall|x: int, y: int|
            0 <= x < 8 && 0 <= y < 8 ==> {
                let b = #[trigger] pixel_base(x, y);
                let c = viewer_rgb(viewer_pixel(chr_rom@, bank * 0x1000 + tile_n * 16, x, y));
                r.data@[b] == c.0 && r.data@[b + 1] == c.1 && r.data@[b + 2] == c.2
            },
{
    let mut frame = Frame::new();
    let start = bank * 0x1000 + tile_n * 16;
    draw_tile(&mut frame, chr_rom, start, 0, 0);
    assert forall|x: int, y: int| 0 <= x < 8 && 0 <= y < 8 implies {
        let b = #[trigger] pixel_base(x, y);
        let c = viewer_rgb(viewer_pixel(chr_rom@, start as int, x, y));
        frame.data@[b] == c.0 && frame.data@[b + 1] == c.1 && frame.data@[b + 2] == c.2
    } by {
        assert(pixel_base(0 + x, 0 + y) == pixel_base(x, y));
    }
    frame
}

/// A frame showing tiles 0..255 of CHR bank `bank` (0 or 1), twenty to a
/// row, ten pixels apart.
pub fn show_tile_bank(chr_rom: &Vec<u8>, bank: usize) -> (r: Frame)
    requires
        bank <= 1,
        bank * 0x1000 + 0x1000 <= chr_rom.len(),
    ensures
        r.wf(),
        forall|t: int, x: int, y: int|
            0 <= t < 255 && 0 <= x < 8 && 0 <= y < 8 ==> {
                let b = #[trigger] pixel_base((t % 20) * 10 + x, (t / 20) * 10 + y);
                let c = viewer_rgb(viewer_pixel(chr_rom@, bank * 0x1000 + t * 16, x, y));
                r.data@[b] == c.0 && r.data@[b + 1] == c.1 && r.data@[b + 2] == c.2
            },
{
    let mut frame = Frame::new();
    let base = bank * 0x1000;
    let mut tile_n: usize = 0;
    while tile_n < 255
        invariant
            frame.wf(),
            base == bank * 0x1000,
            base + 0x1000 <= chr_rom.len(),
            tile_n <= 255,
            forall|t: int, x: int, y: int|
                0 <= t < tile_n && 0 <= x < 8 && 0 <= y < 8 ==> {
                    let b = #[trigger] pixel_base((t % 20) * 10 + x, (t / 20) * 10 + y);
                    let c = viewer_rgb(viewer_pixel(chr_rom@, base + t * 16, x, y));
                    frame.data@[b] == c.0 && frame.data@[b + 1] == c.1 && frame.data@[b + 2] == c.2
                },
        decreases 255 - tile_n,
    {
        let tile_x = (tile_n % 20) * 10;
        let tile_y = (tile_n / 20) * 10;
        let ghost before = frame.data@;
        draw_tile(&mut frame, chr_rom, base + tile_n * 16, tile_x, tile_y);
        assert forall|t: int, x: int, y: int|
            0 <= t < tile_n + 1 && 0 <= x < 8 && 0 <= y < 8 implies {
                let b = #[trigger] pixel_base((t % 20) * 10 + x, (t / 20) * 10 + y);
                let c = viewer_rgb(viewer_pixel(chr_rom@, base + t * 16, x, y));
                frame.data@[b] == c.0 && frame.data@[b + 1] == c.1 && frame.data@[b + 2] == c.2
            } by {
            let left = (t % 20) * 10;
            let top = (t / 20) * 10;
            let b = pixel_base(left + x, top + y);
            if t == tile_n {
                assert(left == tile_x && top == tile_y);
            } else {
                lemma_byte_pixel(left + x, top + y, 0);
                lemma_byte_pixel(left + x, top + y, 1);
                lemma_byte_pixel(left + x, top + y, 2);
                assert(t % 20 != tile_n as int % 20 || t / 20 != tile_n as int / 20);
                assert(!drawn(b, tile_x as int, tile_y as int, 8, 0));
                assert(!drawn(b + 1, tile_x as int, tile_y as int, 8, 0));
                assert(!drawn(b + 2, tile_x as int, tile_y as int, 8, 0));
                assert(frame.data@[b] == before[b]);
                assert(frame.data@[b + 1] == before[b + 1]);
                assert(frame.data@[b + 2] == before[b + 2]);
            }
        }
        tile_n = tile_n + 1;
    }
    frame
}

} // verus!
