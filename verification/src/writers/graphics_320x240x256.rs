//! A pixel-oriented writer for the planar 256-color 320 by 240 mode:
//! four pixels share each byte address, one per plane, so every pixel
//! write first narrows the sequencer plane mask to the pixel's plane.

use crate::configurations::mode_configuration;
use crate::drawing::bresenham::{bres_points, lemma_bresenham_shape, Bresenham};
use crate::drawing::{point_int, Point};
use crate::fonts::glyph_rows;
use crate::registers::PlaneMask;
use crate::vga::{bit8, register_readback_holds, Vga, VideoMode, PLANE_SIZE};
use crate::writers::graphics_320x200x256::glyph_pixel;
use vstd::prelude::*;

verus! {

/// The register state the 320 by 240 mode's table programs, as far as
/// the memory path depends on it: flat planar addressing and a plain
/// write mode.  The plane mask register is not pinned here: pixel
/// writes renarrow it constantly.
pub open spec fn mode_320x240_ready(v: Vga) -> bool {
    &&& v.wf()
    &&& v.most_recent_video_mode == Some(VideoMode::Mode320x240x256)
    &&& v.seq_reg(4) == 0x06
    &&& v.gfx_reg(1) == 0x00
    &&& v.gfx_reg(3) == 0x00
    &&& v.gfx_reg(5) == 0x40
    &&& v.gfx_reg(6) == 0x05
    &&& v.gfx_reg(8) == 0xFF
}

/// The pixel at `(x, y)`: byte `(320 * y + x) / 4` of plane `x % 4`.
pub open spec fn modex_pixel(v: Vga, x: int, y: int) -> u8 {
    v.plane(x % 4)[(320 * y + x) / 4]
}

/// All state but the planes and the plane mask register (sequencer
/// register 2) is unchanged.
pub open spec fn modex_state_frame(pre: Vga, post: Vga) -> bool {
    &&& post.general_registers == pre.general_registers
    &&& post.graphics_controller_registers == pre.graphics_controller_registers
    &&& post.attribute_controller_registers == pre.attribute_controller_registers
    &&& post.crtc_controller_registers == pre.crtc_controller_registers
    &&& post.color_palette_registers == pre.color_palette_registers
    &&& post.most_recent_video_mode == pre.most_recent_video_mode
    &&& post.video_memory_start == pre.video_memory_start
    &&& post.latch0 == pre.latch0
    &&& post.latch1 == pre.latch1
    &&& post.latch2 == pre.latch2
    &&& post.latch3 == pre.latch3
    &&& post.linear == pre.linear
    &&& post.sequencer_registers.registers@.len() == pre.sequencer_registers.registers@.len()
    &&& forall|i: int|
        0 <= i < 8 && i != 2 ==> post.seq_reg(i) == pre.seq_reg(i)
}

/// A writer for the planar 256-color 320 by 240 graphics mode.
#[derive(Debug, Clone, Copy, PartialEq, Eq, Structural)]
pub struct Graphics320x240x256;

impl Graphics320x240x256 {
    /// A new writer.  The writer itself is stateless; every operation
    /// works on the adapter it is handed.
    pub fn new() -> (r: Graphics320x240x256)
        ensures
            r == Graphics320x240x256,
    {
        Graphics320x240x256
    }

    /// Programs the adapter to the 320 by 240 planar mode and reloads
    /// the default palette (some firmware corrupts the DAC on a mode
    /// switch).
    pub fn set_mode(&self, vga: &mut Vga)
        requires
            old(vga).wf(),
        ensures
            final(vga).wf(),
            register_readback_holds(*final(vga), mode_configuration(VideoMode::Mode320x240x256)),
            mode_320x240_ready(*final(vga)),
            final(vga).color_palette_registers.data@.len() == 768,
            forall|i: int|
                0 <= i < 768 ==> final(vga).color_palette_registers.data@[i]
                    == crate::colors::default_palette_byte(i),
            final(vga).plane(0) == old(vga).plane(0),
            final(vga).plane(1) == old(vga).plane(1),
            final(vga).plane(2) == old(vga).plane(2),
            final(vga).plane(3) == old(vga).plane(3),
            final(vga).video_memory_start == old(vga).video_memory_start,
            final(vga).linear == old(vga).linear,
    {
        vga.set_video_mode(VideoMode::Mode320x240x256);
        proof {
            let c = mode_configuration(VideoMode::Mode320x240x256);
            assert(c.sequencer_registers[4] == (4u8, 0x06u8));
            assert(c.graphics_controller_registers[1] == (1u8, 0x00u8));
            assert(c.graphics_controller_registers[3] == (3u8, 0x00u8));
            assert(c.graphics_controller_registers[5] == (5u8, 0x40u8));
            assert(c.graphics_controller_registers[6] == (6u8, 0x05u8));
            assert(c.graphics_controller_registers[8] == (8u8, 0xFFu8));
        }
        let palette = crate::colors::default_palette();
        vga.color_palette_registers.load_palette(&palette);
    }

    /// Sets the pixel at `(x, y)` to `color`: narrows the plane mask to
    /// the pixel's plane, then stores one byte at the shared address.
    pub fn set_pixel(&self, vga: &mut Vga, x: usize, y: usize, color: u8)
        requires
            mode_320x240_ready(*old(vga)),
            x < 320,
            y < 240,
        ensures
            mode_320x240_ready(*final(vga)),
            modex_state_frame(*old(vga), *final(vga)),
            final(vga).seq_reg(2) == ((old(vga).seq_reg(2) & 0xF0) | modex_plane_bit(x as int)),
            modex_pixel(*final(vga), x as int, y as int) == color,
            forall|px: int, py: int|
                #![trigger modex_pixel(*final(vga), px, py)]
                0 <= px < 320 && 0 <= py < 240 ==> modex_pixel(*final(vga), px, py) == (if px == x
                    && py == y {
                    color
                } else {
                    modex_pixel(*old(vga), px, py)
                }),
    {
        let shift = (x & 3) as u8;
        proof {
            crate::vga::lemma_low2(x);
        }
        let plane_bits = 1u8 << shift;
        proof {
            let xr = x % 4;
            assert(plane_bits == (if xr == 0 {
                1u8
            } else if xr == 1 {
                2u8
            } else if xr == 2 {
                4u8
            } else {
                8u8
            }) && plane_bits < 16) by (bit_vector)
                requires
                    xr == x % 4,
                    shift == (x & 3) as u8,
                    plane_bits == (1u8 << shift),
            ;
            assert(x as int % 4 == xr as int);
            assert(plane_bits == modex_plane_bit(x as int));
        }
        let plane_mask = PlaneMask::from_bits(plane_bits).unwrap();
        vga.sequencer_registers.set_plane_mask(plane_mask);
        let offset = (320 * y + x) / 4;
        proof {
            let o2 = old(vga).seq_reg(2);
            crate::vga::lemma_rmw_low_nibble(o2, plane_bits);
            modex_write_facts(*vga, x as int);
            crate::vga::lemma_mask_table();
            crate::vga::lemma_plain_write_result(*vga, x as int % 4, color, vga.latch(
                x as int % 4,
            ));
            assert((320 * y + x) / 4 < PLANE_SIZE) by (nonlinear_arith)
                requires
                    x < 320,
                    y < 240,
            ;
        }
        vga.vram_write(offset, color);
        proof {
            assert forall|px: int, py: int|
                0 <= px < 320 && 0 <= py < 240 implies #[trigger] modex_pixel(*final(vga), px, py)
                == (if px == x && py == y {
                color
            } else {
                modex_pixel(*old(vga), px, py)
            }) by {
                assert((320 * py + px) / 4 < PLANE_SIZE && (px % 4 != x as int % 4 || (320 * py
                    + px) / 4 != (320 * y + x) / 4 || (px == x && py == y))) by (nonlinear_arith)
                    requires
                        0 <= px < 320,
                        0 <= py < 240,
                        x < 320,
                        y < 240,
                ;
            }
        }
    }

    /// Clears the screen: opens all four planes and stores `color` to
    /// the 19200 byte addresses the screen covers, writing each of the
    /// 76800 pixels through 19200 CPU writes.
    pub fn clear_screen(&self, vga: &mut Vga, color: u8)
        requires
            mode_320x240_ready(*old(vga)),
        ensures
            mode_320x240_ready(*final(vga)),
            modex_state_frame(*old(vga), *final(vga)),
            forall|px: int, py: int|
                #![trigger modex_pixel(*final(vga), px, py)]
                0 <= px < 320 && 0 <= py < 240 ==> modex_pixel(*final(vga), px, py) == color,
            forall|p: int, o: int|
                0 <= p < 4 && 19200 <= o < PLANE_SIZE ==> final(vga).plane(p)[o] == old(vga).plane(
                    p,
                )[o],
    {
        vga.sequencer_registers.set_plane_mask(PlaneMask::all_planes());
        proof {
            let o2 = old(vga).seq_reg(2);
            crate::vga::lemma_rmw_low_nibble(o2, 0x0F);
        }
        let mut o: usize = 0;
        while o < 19200
            invariant
                o <= 19200,
                mode_320x240_ready(*vga),
                modex_state_frame(*old(vga), *vga),
                vga.seq_reg(2) & 0x0F == 0x0F,
                forall|p: int, o2: int|
                    #![trigger vga.plane(p)[o2]]
                    0 <= p < 4 && 0 <= o2 < PLANE_SIZE ==> vga.plane(p)[o2] == (if o2 < o {
                        color
                    } else {
                        old(vga).plane(p)[o2]
                    }),
            decreases 19200 - o,
        {
            proof {
                crate::vga::lemma_mask_table();
                crate::vga::lemma_low_bits(vga.seq_reg(2) & 0x0F);
                crate::vga::lemma_plain_write_result(*vga, 0, color, vga.latch(0));
                crate::vga::lemma_plain_write_result(*vga, 1, color, vga.latch(1));
                crate::vga::lemma_plain_write_result(*vga, 2, color, vga.latch(2));
                crate::vga::lemma_plain_write_result(*vga, 3, color, vga.latch(3));
            }
            vga.vram_write(o, color);
            o = o + 1;
        }
        proof {
            assert forall|px: int, py: int|
                0 <= px < 320 && 0 <= py < 240 implies #[trigger] modex_pixel(*final(vga), px, py)
                == color by {
                assert(0 <= (320 * py + px) / 4 < 19200) by (nonlinear_arith)
                    requires
                        0 <= px < 320,
                        0 <= py < 240,
                ;
            }
        }
    }

    /// Draws the 8 by 8 glyph of `character` with its top-left pixel at
    /// `(x, y)`: set glyph bits paint `color`, clear bits leave the
    /// frame buffer alone.
    pub fn draw_character(&self, vga: &mut Vga, x: usize, y: usize, character: char, color: u8)
        requires
            mode_320x240_ready(*old(vga)),
            x + 8 <= 320,
            y + 8 <= 240,
        ensures
            mode_320x240_ready(*final(vga)),
            modex_state_frame(*old(vga), *final(vga)),
            forall|px: int, py: int|
                #![trigger modex_pixel(*final(vga), px, py)]
                0 <= px < 320 && 0 <= py < 240 ==> modex_pixel(*final(vga), px, py) == (if x <= px
                    < x + 8 && y <= py < y + 8 && glyph_pixel(character, px - x, py - y) {
                    color
                } else {
                    modex_pixel(*old(vga), px, py)
                }),
    {
        let glyph = crate::fonts::glyph_for(character);
        let mut row: usize = 0;
        while row < 8
            invariant
                row <= 8,
                x + 8 <= 320,
                y + 8 <= 240,
                glyph@ == glyph_rows(character),
                mode_320x240_ready(*vga),
                modex_state_frame(*old(vga), *vga),
                forall|px: int, py: int|
                    #![trigger modex_pixel(*vga, px, py)]
                    0 <= px < 320 && 0 <= py < 240 ==> modex_pixel(*vga, px, py) == (if x <= px < x
                        + 8 && y <= py < y + row && glyph_pixel(character, px - x, py - y) {
                        color
                    } else {
                        modex_pixel(*old(vga), px, py)
                    }),
            decreases 8 - row,
        {
            let byte = glyph[row];
            let mut bit: usize = 0;
            while bit < 8
                invariant
                    bit <= 8,
                    row < 8,
                    x + 8 <= 320,
                    y + 8 <= 240,
                    glyph@ == glyph_rows(character),
                    byte == glyph_rows(character)[row as int],
                    mode_320x240_ready(*vga),
                    modex_state_frame(*old(vga), *vga),
                    forall|px: int, py: int|
                        #![trigger modex_pixel(*vga, px, py)]
                        0 <= px < 320 && 0 <= py < 240 ==> modex_pixel(*vga, px, py) == (if x <= px
                            < x + 8 && ((y <= py < y + row) || (py == y + row && px < x + bit))
                            && glyph_pixel(character, px - x, py - y) {
                            color
                        } else {
                            modex_pixel(*old(vga), px, py)
                        }),
                decreases 8 - bit,
            {
                let set = byte & (1u8 << bit) != 0;
                proof {
                    let bt = bit as u8;
                    crate::vga::lemma_glyph_bit(byte, bt);
                    assert(set == glyph_pixel(character, bit as int, row as int));
                }
                let ghost prev = *vga;
                if set {
                    self.set_pixel(vga, x + bit, y + row, color);
                }
                proof {
                    assert forall|px: int, py: int|
                        0 <= px < 320 && 0 <= py < 240 implies #[trigger] modex_pixel(
                        *vga,
                        px,
                        py,
                    ) == (if x <= px < x + 8 && ((y <= py < y + row) || (py == y + row && px < x
                        + bit + 1)) && glyph_pixel(character, px - x, py - y) {
                        color
                    } else {
                        modex_pixel(*old(vga), px, py)
                    }) by {
                        assert(modex_pixel(prev, px, py) == (if x <= px < x + 8 && ((y <= py < y
                            + row) || (py == y + row && px < x + bit)) && glyph_pixel(
                            character,
                            px - x,
                            py - y,
                        ) {
                            color
                        } else {
                            modex_pixel(*old(vga), px, py)
                        }));
                        if set {
                            assert(modex_pixel(*vga, px, py) == (if px == x + bit && py == y
                                + row {
                                color
                            } else {
                                modex_pixel(prev, px, py)
                            }));
                        }
                    }
                }
                bit = bit + 1;
            }
            row = row + 1;
        }
    }

    /// Draws a line from `start` to `end` with `color`: every point of
    /// the Bresenham walk is painted, nothing else moves.
    pub fn draw_line(&self, vga: &mut Vga, start: Point<isize>, end: Point<isize>, color: u8)
        requires
            mode_320x240_ready(*old(vga)),
            0 <= start.0 < 320,
            0 <= start.1 < 240,
            0 <= end.0 < 320,
            0 <= end.1 < 240,
        ensures
            mode_320x240_ready(*final(vga)),
            modex_state_frame(*old(vga), *final(vga)),
            forall|px: int, py: int|
                #![trigger modex_pixel(*final(vga), px, py)]
                0 <= px < 320 && 0 <= py < 240 ==> modex_pixel(*final(vga), px, py) == (
                if bres_points(point_int(start), point_int(end)).contains((px, py)) {
                    color
                } else {
                    modex_pixel(*old(vga), px, py)
                }),
    {
        let ghost full = bres_points(point_int(start), point_int(end));
        proof {
            lemma_bresenham_shape(point_int(start), point_int(end));
        }
        let mut walk = Bresenham::new(start, end);
        let ghost mut done: int = 0;
        while !walk.is_done()
            invariant
                mode_320x240_ready(*vga),
                modex_state_frame(*old(vga), *vga),
                walk.wf(),
                0 <= done <= full.len(),
                walk.remaining() =~= full.skip(done),
                forall|k: int|
                    #![trigger full[k]]
                    0 <= k < full.len() ==> 0 <= full[k].0 < 320 && 0 <= full[k].1 < 240,
                forall|px: int, py: int|
                    #![trigger modex_pixel(*vga, px, py)]
                    0 <= px < 320 && 0 <= py < 240 ==> modex_pixel(*vga, px, py) == (
                    if full.take(done).contains((px, py)) {
                        color
                    } else {
                        modex_pixel(*old(vga), px, py)
                    }),
            decreases walk.remaining().len(),
        {
            let p = walk.next();
            proof {
                assert(full.skip(done)[0] == full[done]);
            }
            let point = p.unwrap();
            let ghost prev = *vga;
            proof {
                assert(point_int(point) == full[done]);
            }
            let px_u = point.0 as usize;
            let py_u = point.1 as usize;
            self.set_pixel(vga, px_u, py_u, color);
            proof {
                assert(px_u as int == full[done].0 && py_u as int == full[done].1);
                assert(full.take(done + 1) =~= full.take(done).push(full[done]));
                assert(full.skip(done).drop_first() =~= full.skip(done + 1));
                done = done + 1;
                assert forall|px: int, py: int|
                    0 <= px < 320 && 0 <= py < 240 implies #[trigger] modex_pixel(*vga, px, py)
                    == (if full.take(done).contains((px, py)) {
                    color
                } else {
                    modex_pixel(*old(vga), px, py)
                }) by {
                    assert(modex_pixel(*vga, px, py) == (if px == px_u && py == py_u {
                        color
                    } else {
                        modex_pixel(prev, px, py)
                    }));
                    if (px, py) == full[done - 1] {
                        assert(full.take(done)[done - 1] == (px, py));
                        assert(full.take(done).contains((px, py)));
                    } else {
                        assert(full.take(done).contains((px, py)) == full.take(done - 1).contains(
                            (px, py),
                        )) by {
                            if full.take(done - 1).contains((px, py)) {
                                let k = choose|k: int|
                                    0 <= k < full.take(done - 1).len() && #[trigger] full.take(
                                        done - 1,
                                    )[k] == (px, py);
                                assert(full.take(done)[k] == (px, py));
                            }
                            if full.take(done).contains((px, py)) {
                                let k = choose|k: int|
                                    0 <= k < full.take(done).len() && #[trigger] full.take(done)[k]
                                        == (px, py);
                                if k < done - 1 {
                                    assert(full.take(done - 1)[k] == (px, py));
                                }
                            }
                        }
                    }
                }
            }
        }
        proof {
            assert(full.take(done) =~= full);
        }
    }

    /// Fills the rectangle from `p1` (inclusive) to `p2` (exclusive)
    /// with `color`, pixel by pixel.
    pub fn draw_rect(&self, vga: &mut Vga, p1: Point<usize>, p2: Point<usize>, color: u8)
        requires
            mode_320x240_ready(*old(vga)),
            p1.0 <= p2.0 <= 320,
            p1.1 <= p2.1 <= 240,
        ensures
            mode_320x240_ready(*final(vga)),
            modex_state_frame(*old(vga), *final(vga)),
            forall|px: int, py: int|
                #![trigger modex_pixel(*final(vga), px, py)]
                0 <= px < 320 && 0 <= py < 240 ==> modex_pixel(*final(vga), px, py) == (if p1.0
                    <= px < p2.0 && p1.1 <= py < p2.1 {
                    color
                } else {
                    modex_pixel(*old(vga), px, py)
                }),
    {
        let mut y = p1.1;
        while y < p2.1
            invariant
                p1.1 <= y <= p2.1,
                p1.0 <= p2.0 <= 320,
                p2.1 <= 240,
                mode_320x240_ready(*vga),
                modex_state_frame(*old(vga), *vga),
                forall|px: int, py: int|
                    #![trigger modex_pixel(*vga, px, py)]
                    0 <= px < 320 && 0 <= py < 240 ==> modex_pixel(*vga, px, py) == (if p1.0 <= px
                        < p2.0 && p1.1 <= py < y {
                        color
                    } else {
                        modex_pixel(*old(vga), px, py)
                    }),
            decreases p2.1 - y,
        {
            let mut x = p1.0;
            while x < p2.0
                invariant
                    p1.0 <= x <= p2.0 <= 320,
                    p1.1 <= y < p2.1 <= 240,
                    mode_320x240_ready(*vga),
                    modex_state_frame(*old(vga), *vga),
                    forall|px: int, py: int|
                        #![trigger modex_pixel(*vga, px, py)]
                        0 <= px < 320 && 0 <= py < 240 ==> modex_pixel(*vga, px, py) == (if (p1.0
                            <= px < p2.0 && p1.1 <= py < y) || (py == y && p1.0 <= px < x) {
                            color
                        } else {
                            modex_pixel(*old(vga), px, py)
                        }),
                decreases p2.0 - x,
            {
                let ghost prev = *vga;
                self.set_pixel(vga, x, y, color);
                proof {
                    assert forall|px: int, py: int|
                        0 <= px < 320 && 0 <= py < 240 implies #[trigger] modex_pixel(
                        *vga,
                        px,
                        py,
                    ) == (if (p1.0 <= px < p2.0 && p1.1 <= py < y) || (py == y && p1.0 <= px < x
                        + 1) {
                        color
                    } else {
                        modex_pixel(*old(vga), px, py)
                    }) by {
                        assert(modex_pixel(*vga, px, py) == (if px == x && py == y {
                            color
                        } else {
                            modex_pixel(prev, px, py)
                        }));
                    }
                }
                x = x + 1;
            }
            y = y + 1;
        }
    }
}

/// The single-plane mask bit of the plane pixel `x` lives in.
pub open spec fn modex_plane_bit(x: int) -> u8 {
    if x % 4 == 0 {
        1
    } else if x % 4 == 1 {
        2
    } else if x % 4 == 2 {
        4
    } else {
        8
    }
}

/// In the mode-X register state with the plane mask narrowed to pixel
/// `x`'s plane, a write reaches that plane alone.
proof fn modex_write_facts(v: Vga, x: int)
    requires
        v.seq_reg(4) == 0x06,
        v.seq_reg(2) & 0x0F == modex_plane_bit(x),
        0 <= x,
    ensures
        forall|o: int| v.write_plane_enable(o) == modex_plane_bit(x),
        forall|p: int| 0 <= p < 4 ==> (bit8(modex_plane_bit(x), p) <==> p == x % 4),
{
    crate::vga::lemma_mask_table();
    crate::vga::lemma_low_bits(1);
    crate::vga::lemma_low_bits(2);
    crate::vga::lemma_low_bits(4);
    crate::vga::lemma_low_bits(8);
}


impl crate::writers::Screen for Graphics320x240x256 {
    open spec fn width_spec(&self) -> int {
        320
    }

    open spec fn height_spec(&self) -> int {
        240
    }

    open spec fn size_spec(&self) -> int {
        19200
    }

    fn get_width(&self) -> (r: usize) {
        320
    }

    fn get_height(&self) -> (r: usize) {
        240
    }

    fn get_size(&self) -> (r: usize) {
        19200
    }
}

impl crate::writers::GraphicsWriter<u8> for Graphics320x240x256 {
    open spec fn mode_ready(&self, vga: Vga) -> bool {
        mode_320x240_ready(vga)
    }

    fn set_mode(&self, vga: &mut Vga) {
        Graphics320x240x256::set_mode(self, vga);
    }

    fn clear_screen(&self, vga: &mut Vga, color: u8) {
        Graphics320x240x256::clear_screen(self, vga, color);
    }

    fn set_pixel(&self, vga: &mut Vga, x: usize, y: usize, color: u8) {
        Graphics320x240x256::set_pixel(self, vga, x, y, color);
    }

    fn draw_character(&self, vga: &mut Vga, x: usize, y: usize, character: char, color: u8) {
        Graphics320x240x256::draw_character(self, vga, x, y, character, color);
    }
}

impl crate::writers::PrimitiveDrawing<u8> for Graphics320x240x256 {
    fn draw_line(&self, vga: &mut Vga, start: Point<isize>, end: Point<isize>, color: u8) {
        Graphics320x240x256::draw_line(self, vga, start, end, color);
    }

    fn draw_rect(&self, vga: &mut Vga, p1: Point<usize>, p2: Point<usize>, color: u8) {
        Graphics320x240x256::draw_rect(self, vga, p1, p2, color);
    }
}

} // verus!
