//! A pixel-oriented writer for the packed 256-color 320 by 200 mode:
//! chain-4 addressing makes the frame buffer one flat byte per pixel.

use crate::configurations::mode_configuration;
use crate::drawing::bresenham::{bres_points, lemma_bresenham_shape, Bresenham};
use crate::drawing::{point_int, Point};
use crate::fonts::glyph_rows;
use crate::vga::{
    bit8, chain4_plane_mask, register_readback_holds, same_but_planes, Vga, VideoMode, PLANE_SIZE,
};
use vstd::prelude::*;

verus! {

/// The register state the 320 by 200 mode's table programs, as far as
/// the memory path depends on it: chain-4 addressing over all planes
/// and a plain write mode.
pub open spec fn mode_320x200_ready(v: Vga) -> bool {
    &&& v.wf()
    &&& v.most_recent_video_mode == Some(VideoMode::Mode320x200x256)
    &&& v.seq_reg(2) & 0x0F == 0x0F
    &&& v.seq_reg(4) == 0x0E
    &&& v.gfx_reg(1) == 0x00
    &&& v.gfx_reg(3) == 0x00
    &&& v.gfx_reg(5) == 0x40
    &&& v.gfx_reg(6) == 0x05
    &&& v.gfx_reg(8) == 0xFF
}

/// The frame buffer byte at linear offset `o` under chain-4 addressing.
pub open spec fn chain4_byte(v: Vga, o: int) -> u8 {
    v.plane(o % 4)[o]
}

/// Whether pixel `(bx, by)` of a character's 8 by 8 glyph is set.
pub open spec fn glyph_pixel(c: char, bx: int, by: int) -> bool {
    bit8(glyph_rows(c)[by], bx)
}

/// Under chain-4 with all planes enabled, a write to `o` reaches the
/// plane `o % 4` alone.
proof fn chain4_write_facts(v: Vga, o: int)
    requires
        v.seq_reg(4) == 0x0E,
        v.seq_reg(2) & 0x0F == 0x0F,
        0 <= o,
    ensures
        v.write_plane_enable(o) == chain4_plane_mask(o),
        forall|p: int| 0 <= p < 4 ==> (bit8(chain4_plane_mask(o), p) <==> p == o % 4),
{
    crate::vga::lemma_mask_table();
    crate::vga::lemma_low_bits(1);
    crate::vga::lemma_low_bits(2);
    crate::vga::lemma_low_bits(4);
    crate::vga::lemma_low_bits(8);
}

/// All frame buffer bytes outside the written offset, and all plane
/// slots chain-4 never selects, are untouched.
pub open spec fn chain4_untouched_except(pre: Vga, post: Vga, lo: int, hi: int) -> bool {
    forall|p: int, o: int|
        0 <= p < 4 && 0 <= o < PLANE_SIZE && !(lo <= o < hi && p == o % 4) ==> post.plane(p)[o]
            == pre.plane(p)[o]
}

/// A writer for the packed 256-color 320 by 200 graphics mode.
#[derive(Debug, Clone, Copy, PartialEq, Eq, Structural)]
pub struct Graphics320x200x256;

impl Graphics320x200x256 {
    /// A new writer.  The writer itself is stateless; every operation
    /// works on the adapter it is handed.
    pub fn new() -> (r: Graphics320x200x256)
        ensures
            r == Graphics320x200x256,
    {
        Graphics320x200x256
    }

    /// Programs the adapter to the 320 by 200 packed mode and reloads
    /// the default palette (some firmware corrupts the DAC on a mode
    /// switch).
    pub fn set_mode(&self, vga: &mut Vga)
        requires
            old(vga).wf(),
        ensures
            final(vga).wf(),
            register_readback_holds(*final(vga), mode_configuration(VideoMode::Mode320x200x256)),
            mode_320x200_ready(*final(vga)),
            final(vga).color_palette_registers.data@.len() == 768,
            forall|i: int|
                0 <= i < 768 ==> final(vga).color_palette_registers.data@[i]
                    == crate::colors::default_palette_byte(i),
            final(vga).plane(0) == old(vga).plane(0),
            final(vga).plane(1) == old(vga).plane(1),
            final(vga).plane(2) == old(vga).plane(2),
            final(vga).plane(3) == old(vga).plane(3),
            final(vga).video_memory_start == old(vga).video_memory_start,
            final(vga).linear == old(vga).linear,
    {
        vga.set_video_mode(VideoMode::Mode320x200x256);
        proof {
            let c = mode_configuration(VideoMode::Mode320x200x256);
            assert(c.sequencer_registers[2] == (2u8, 0x0Fu8));
            assert(c.sequencer_registers[4] == (4u8, 0x0Eu8));
            assert(c.graphics_controller_registers[1] == (1u8, 0x00u8));
            assert(c.graphics_controller_registers[3] == (3u8, 0x00u8));
            assert(c.graphics_controller_registers[5] == (5u8, 0x40u8));
            assert(c.graphics_controller_registers[6] == (6u8, 0x05u8));
            assert(c.graphics_controller_registers[8] == (8u8, 0xFFu8));
            crate::vga::lemma_mask_table();
        }
        let palette = crate::colors::default_palette();
        vga.color_palette_registers.load_palette(&palette);
    }

    /// Sets the pixel at `(x, y)` to `color`: one byte store at linear
    /// offset `y * 320 + x`.
    pub fn set_pixel(&self, vga: &mut Vga, x: usize, y: usize, color: u8)
        requires
            mode_320x200_ready(*old(vga)),
            x < 320,
            y < 200,
        ensures
            mode_320x200_ready(*final(vga)),
            same_but_planes(*old(vga), *final(vga)),
            chain4_byte(*final(vga), 320 * y + x) == color,
            forall|px: int, py: int|
                #![trigger chain4_byte(*final(vga), 320 * py + px)]
                0 <= px < 320 && 0 <= py < 200 ==> chain4_byte(*final(vga), 320 * py + px) == (
                if px == x && py == y {
                    color
                } else {
                    chain4_byte(*old(vga), 320 * py + px)
                }),
            chain4_untouched_except(*old(vga), *final(vga), 320 * y + x, 320 * y + x + 1),
    {
        let offset = y * 320 + x;
        proof {
            crate::vga::lemma_mask_table();
            chain4_write_facts(*old(vga), offset as int);
            crate::vga::lemma_plain_write_result(*old(vga), offset as int % 4, color, old(
                vga,
            ).latch(offset as int % 4));
        }
        vga.vram_write(offset, color);
        proof {
            assert forall|px: int, py: int|
                0 <= px < 320 && 0 <= py < 200 implies #[trigger] chain4_byte(
                *final(vga),
                320 * py + px,
            ) == (if px == x && py == y {
                color
            } else {
                chain4_byte(*old(vga), 320 * py + px)
            }) by {
                if !(px == x && py == y) {
                    assert(320 * py + px != 320 * y + x) by (nonlinear_arith)
                        requires
                            0 <= px < 320,
                            0 <= py < 200,
                            x < 320,
                            y < 200,
                            !(px == x as int && py == y as int),
                    ;
                }
            }
        }
    }

    /// Fills the rectangle from `p1` (inclusive) to `p2` (exclusive)
    /// with `color`.
    pub fn draw_rect(&self, vga: &mut Vga, p1: Point<usize>, p2: Point<usize>, color: u8)
        requires
            mode_320x200_ready(*old(vga)),
            p1.0 <= p2.0 <= 320,
            p1.1 <= p2.1 <= 200,
        ensures
            mode_320x200_ready(*final(vga)),
            same_but_planes(*old(vga), *final(vga)),
            forall|px: int, py: int|
                #![trigger chain4_byte(*final(vga), 320 * py + px)]
                0 <= px < 320 && 0 <= py < 200 ==> chain4_byte(*final(vga), 320 * py + px) == (
                if p1.0 <= px < p2.0 && p1.1 <= py < p2.1 {
                    color
                } else {
                    chain4_byte(*old(vga), 320 * py + px)
                }),
            chain4_untouched_except(*old(vga), *final(vga), 0, 64000),
    {
        let mut y = p1.1;
        while y < p2.1
            invariant
                p1.1 <= y <= p2.1,
                p1.0 <= p2.0 <= 320,
                p2.1 <= 200,
                mode_320x200_ready(*vga),
                same_but_planes(*old(vga), *vga),
                forall|px: int, py: int|
                    #![trigger chain4_byte(*vga, 320 * py + px)]
                    0 <= px < 320 && 0 <= py < 200 ==> chain4_byte(*vga, 320 * py + px) == (
                    if p1.0 <= px < p2.0 && p1.1 <= py < y {
                        color
                    } else {
                        chain4_byte(*old(vga), 320 * py + px)
                    }),
                chain4_untouched_except(*old(vga), *vga, 0, 64000),
            decreases p2.1 - y,
        {
            let mut x = p1.0;
            while x < p2.0
                invariant
                    p1.0 <= x <= p2.0 <= 320,
                    p1.1 <= y < p2.1 <= 200,
                    mode_320x200_ready(*vga),
                    same_but_planes(*old(vga), *vga),
                    forall|px: int, py: int|
                        #![trigger chain4_byte(*vga, 320 * py + px)]
                        0 <= px < 320 && 0 <= py < 200 ==> chain4_byte(*vga, 320 * py + px) == (
                        if (p1.0 <= px < p2.0 && p1.1 <= py < y) || (py == y && p1.0 <= px < x) {
                            color
                        } else {
                            chain4_byte(*old(vga), 320 * py + px)
                        }),
                    chain4_untouched_except(*old(vga), *vga, 0, 64000),
                decreases p2.0 - x,
            {
                let ghost prev = *vga;
                self.set_pixel(vga, x, y, color);
                proof {
                    assert forall|px: int, py: int|
                        0 <= px < 320 && 0 <= py < 200 implies #[trigger] chain4_byte(
                        *vga,
                        320 * py + px,
                    ) == (if (p1.0 <= px < p2.0 && p1.1 <= py < y) || (py == y && p1.0 <= px < x
                        + 1) {
                        color
                    } else {
                        chain4_byte(*old(vga), 320 * py + px)
                    }) by {
                        assert(chain4_byte(*vga, 320 * py + px) == (if px == x && py == y {
                            color
                        } else {
                            chain4_byte(prev, 320 * py + px)
                        }));
                    }
                }
                x = x + 1;
            }
            y = y + 1;
        }
    }

    /// Clears the screen: every one of the 64000 frame buffer bytes
    /// becomes `color`.
    pub fn clear_screen(&self, vga: &mut Vga, color: u8)
        requires
            mode_320x200_ready(*old(vga)),
        ensures
            mode_320x200_ready(*final(vga)),
            same_but_planes(*old(vga), *final(vga)),
            forall|o: int| 0 <= o < 64000 ==> #[trigger] chain4_byte(*final(vga), o) == color,
            chain4_untouched_except(*old(vga), *final(vga), 0, 64000),
    {
        self.draw_rect(vga, (0, 0), (320, 200), color);
        proof {
            assert forall|o: int| 0 <= o < 64000 implies #[trigger] chain4_byte(*final(vga), o)
                == color by {
                let px = o % 320;
                let py = o / 320;
                assert(o == 320 * py + px && 0 <= px < 320 && 0 <= py < 200) by (nonlinear_arith)
                    requires
                        0 <= o < 64000,
                        px == o % 320,
                        py == o / 320,
                ;
                assert(chain4_byte(*final(vga), 320 * py + px) == color);
            }
        }
    }

    /// Draws the 8 by 8 glyph of `character` with its top-left pixel at
    /// `(x, y)`: set glyph bits paint `color`, clear bits leave the
    /// frame buffer alone.
    pub fn draw_character(&self, vga: &mut Vga, x: usize, y: usize, character: char, color: u8)
        requires
            mode_320x200_ready(*old(vga)),
            x + 8 <= 320,
            y + 8 <= 200,
        ensures
            mode_320x200_ready(*final(vga)),
            same_but_planes(*old(vga), *final(vga)),
            forall|px: int, py: int|
                #![trigger chain4_byte(*final(vga), 320 * py + px)]
                0 <= px < 320 && 0 <= py < 200 ==> chain4_byte(*final(vga), 320 * py + px) == (if x
                    <= px < x + 8 && y <= py < y + 8 && glyph_pixel(character, px - x, py - y) {
                    color
                } else {
                    chain4_byte(*old(vga), 320 * py + px)
                }),
            chain4_untouched_except(*old(vga), *final(vga), 0, 64000),
    {
        let glyph = crate::fonts::glyph_for(character);
        let mut row: usize = 0;
        while row < 8
            invariant
                row <= 8,
                x + 8 <= 320,
                y + 8 <= 200,
                glyph@ == glyph_rows(character),
                mode_320x200_ready(*vga),
                same_but_planes(*old(vga), *vga),
                forall|px: int, py: int|
                    #![trigger chain4_byte(*vga, 320 * py + px)]
                    0 <= px < 320 && 0 <= py < 200 ==> chain4_byte(*vga, 320 * py + px) == (if x
                        <= px < x + 8 && y <= py < y + row && glyph_pixel(
                        character,
                        px - x,
                        py - y,
                    ) {
                        color
                    } else {
                        chain4_byte(*old(vga), 320 * py + px)
                    }),
                chain4_untouched_except(*old(vga), *vga, 0, 64000),
            decreases 8 - row,
        {
            let byte = glyph[row];
            let mut bit: usize = 0;
            while bit < 8
                invariant
                    bit <= 8,
                    row < 8,
                    x + 8 <= 320,
                    y + 8 <= 200,
                    glyph@ == glyph_rows(character),
                    byte == glyph_rows(character)[row as int],
                    mode_320x200_ready(*vga),
                    same_but_planes(*old(vga), *vga),
                    forall|px: int, py: int|
                        #![trigger chain4_byte(*vga, 320 * py + px)]
                        0 <= px < 320 && 0 <= py < 200 ==> chain4_byte(*vga, 320 * py + px) == (
                        if x <= px < x + 8 && ((y <= py < y + row) || (py == y + row && px < x
                            + bit)) && glyph_pixel(character, px - x, py - y) {
                            color
                        } else {
                            chain4_byte(*old(vga), 320 * py + px)
                        }),
                    chain4_untouched_except(*old(vga), *vga, 0, 64000),
                decreases 8 - bit,
            {
                let set = byte & (1u8 << bit) != 0;
                proof {
                    let bt = bit as u8;
                    crate::vga::lemma_glyph_bit(byte, bt);
                    assert(set == glyph_pixel(character, bit as int, row as int));
                }
                let ghost prev = *vga;
                if set {
                    self.set_pixel(vga, x + bit, y + row, color);
                }
                proof {
                    assert forall|px: int, py: int|
                        0 <= px < 320 && 0 <= py < 200 implies #[trigger] chain4_byte(
                        *vga,
                        320 * py + px,
                    ) == (if x <= px < x + 8 && ((y <= py < y + row) || (py == y + row && px < x
                        + bit + 1)) && glyph_pixel(character, px - x, py - y) {
                        color
                    } else {
                        chain4_byte(*old(vga), 320 * py + px)
                    }) by {
                        assert(chain4_byte(prev, 320 * py + px) == (if x <= px < x + 8 && ((y <= py
                            < y + row) || (py == y + row && px < x + bit)) && glyph_pixel(
                            character,
                            px - x,
                            py - y,
                        ) {
                            color
                        } else {
                            chain4_byte(*old(vga), 320 * py + px)
                        }));
                        if set {
                            assert(chain4_byte(*vga, 320 * py + px) == (if px == x + bit && py == y
                                + row {
                                color
                            } else {
                                chain4_byte(prev, 320 * py + px)
                            }));
                        }
                    }
                }
                bit = bit + 1;
            }
            row = row + 1;
        }
    }

    /// Draws a line from `start` to `end` with `color`: every point of
    /// the Bresenham walk is painted, nothing else moves.
    pub fn draw_line(&self, vga: &mut Vga, start: Point<isize>, end: Point<isize>, color: u8)
        requires
            mode_320x200_ready(*old(vga)),
            0 <= start.0 < 320,
            0 <= start.1 < 200,
            0 <= end.0 < 320,
            0 <= end.1 < 200,
        ensures
            mode_320x200_ready(*final(vga)),
            same_but_planes(*old(vga), *final(vga)),
            forall|px: int, py: int|
                #![trigger chain4_byte(*final(vga), 320 * py + px)]
                0 <= px < 320 && 0 <= py < 200 ==> chain4_byte(*final(vga), 320 * py + px) == (
                if bres_points(point_int(start), point_int(end)).contains((px, py)) {
                    color
                } else {
                    chain4_byte(*old(vga), 320 * py + px)
                }),
            chain4_untouched_except(*old(vga), *final(vga), 0, 64000),
    {
        let ghost full = bres_points(point_int(start), point_int(end));
        proof {
            lemma_bresenham_shape(point_int(start), point_int(end));
        }
        let mut walk = Bresenham::new(start, end);
        let ghost mut done: int = 0;
        while !walk.is_done()
            invariant
                mode_320x200_ready(*vga),
                same_but_planes(*old(vga), *vga),
                walk.wf(),
                0 <= done <= full.len(),
                walk.remaining() =~= full.skip(done),
                forall|k: int|
                    #![trigger full[k]]
                    0 <= k < full.len() ==> 0 <= full[k].0 < 320 && 0 <= full[k].1 < 200,
                forall|px: int, py: int|
                    #![trigger chain4_byte(*vga, 320 * py + px)]
                    0 <= px < 320 && 0 <= py < 200 ==> chain4_byte(*vga, 320 * py + px) == (
                    if full.take(done).contains((px, py)) {
                        color
                    } else {
                        chain4_byte(*old(vga), 320 * py + px)
                    }),
                chain4_untouched_except(*old(vga), *vga, 0, 64000),
            decreases walk.remaining().len(),
        {
            let p = walk.next();
            proof {
                assert(full.skip(done)[0] == full[done]);
            }
            let point = p.unwrap();
            let ghost prev = *vga;
            proof {
                assert(point_int(point) == full[done]);
            }
            let px_u = point.0 as usize;
            let py_u = point.1 as usize;
            self.set_pixel(vga, px_u, py_u, color);
            proof {
                assert(px_u as int == full[done].0 && py_u as int == full[done].1);
                assert(full.take(done + 1) =~= full.take(done).push(full[done]));
                assert(full.skip(done).drop_first() =~= full.skip(done + 1));
                done = done + 1;
                assert forall|px: int, py: int|
                    0 <= px < 320 && 0 <= py < 200 implies #[trigger] chain4_byte(
                    *vga,
                    320 * py + px,
                ) == (if full.take(done).contains((px, py)) {
                    color
                } else {
                    chain4_byte(*old(vga), 320 * py + px)
                }) by {
                    assert(chain4_byte(*vga, 320 * py + px) == (if px == px_u && py == py_u {
                        color
                    } else {
                        chain4_byte(prev, 320 * py + px)
                    }));
                    if (px, py) == full[done - 1] {
                        assert(full.take(done)[done - 1] == (px, py));
                        assert(full.take(done).contains((px, py)));
                    } else {
                        assert(full.take(done).contains((px, py)) == full.take(done - 1).contains(
                            (px, py),
                        )) by {
                            if full.take(done - 1).contains((px, py)) {
                                let k = choose|k: int|
                                    0 <= k < full.take(done - 1).len() && #[trigger] full.take(
                                        done - 1,
                                    )[k] == (px, py);
                                assert(full.take(done)[k] == (px, py));
                            }
                            if full.take(done).contains((px, py)) {
                                let k = choose|k: int|
                                    0 <= k < full.take(done).len() && #[trigger] full.take(done)[k]
                                        == (px, py);
                                if k < done - 1 {
                                    assert(full.take(done - 1)[k] == (px, py));
                                }
                            }
                        }
                    }
                }
            }
        }
        proof {
            assert(full.take(done) =~= full);
        }
    }
}


impl crate::writers::Screen for Graphics320x200x256 {
    open spec fn width_spec(&self) -> int {
        320
    }

    open spec fn height_spec(&self) -> int {
        200
    }

    open spec fn size_spec(&self) -> int {
        64000
    }

    fn get_width(&self) -> (r: usize) {
        320
    }

    fn get_height(&self) -> (r: usize) {
        200
    }

    fn get_size(&self) -> (r: usize) {
        64000
    }
}

impl crate::writers::GraphicsWriter<u8> for Graphics320x200x256 {
    open spec fn mode_ready(&self, vga: Vga) -> bool {
        mode_320x200_ready(vga)
    }

    fn set_mode(&self, vga: &mut Vga) {
        Graphics320x200x256::set_mode(self, vga);
    }

    fn clear_screen(&self, vga: &mut Vga, color: u8) {
        Graphics320x200x256::clear_screen(self, vga, color);
    }

    fn set_pixel(&self, vga: &mut Vga, x: usize, y: usize, color: u8) {
        Graphics320x200x256::set_pixel(self, vga, x, y, color);
    }

    fn draw_character(&self, vga: &mut Vga, x: usize, y: usize, character: char, color: u8) {
        Graphics320x200x256::draw_character(self, vga, x, y, character, color);
    }
}

impl crate::writers::PrimitiveDrawing<u8> for Graphics320x200x256 {
    fn draw_line(&self, vga: &mut Vga, start: Point<isize>, end: Point<isize>, color: u8) {
        Graphics320x200x256::draw_line(self, vga, start, end, color);
    }

    fn draw_rect(&self, vga: &mut Vga, p1: Point<usize>, p2: Point<usize>, color: u8) {
        Graphics320x200x256::draw_rect(self, vga, p1, p2, color);
    }
}

} // verus!
