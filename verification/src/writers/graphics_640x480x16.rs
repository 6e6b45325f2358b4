//! A pixel-oriented writer for the planar 16-color 640 by 480 mode.
//! Eight pixels share each byte address, one bit per plane, so a pixel
//! write is a cooperation between several registers: the bit mask
//! selects the pixel's bit, a dummy read loads the latches, and either
//! write mode 2 (single pixels) or write mode 0 with set/reset (lines)
//! spreads the color across the four planes.

use crate::colors::{color16_index, Color16};
use crate::configurations::mode_configuration;
use crate::drawing::bresenham::{bres_points, lemma_bresenham_shape, Bresenham};
use crate::drawing::{point_int, Point};
use crate::fonts::glyph_rows;
use crate::registers::{PlaneMask, WriteMode};
use crate::vga::{bit8, register_readback_holds, Vga, VideoMode, PLANE_SIZE};
use crate::writers::graphics_320x200x256::glyph_pixel;
use vstd::prelude::*;

verus! {

/// The register state the 640 by 480 mode's table programs, as far as
/// the memory path depends on it.  The write mode, set/reset, bit mask
/// and plane mask low bits are not pinned: the drawing preambles
/// reprogram them constantly.
pub open spec fn mode_640x480_ready(v: Vga) -> bool {
    &&& v.wf()
    &&& v.most_recent_video_mode == Some(VideoMode::Mode640x480x16)
    &&& v.seq_reg(4) == 0x06
    &&& v.seq_reg(2) & 0x0F == 0x0F
    &&& v.gfx_reg(0) & 0xF0 == 0x00
    &&& v.gfx_reg(1) & 0xF0 == 0x00
    &&& v.gfx_reg(3) == 0x00
    &&& v.gfx_reg(5) & 0xFC == 0x00
    &&& v.gfx_reg(6) == 0x05
}

/// The color nibble of the pixel at `(x, y)`: bit `7 - x % 8` of byte
/// `y * 80 + x / 8`, gathered across the four planes.
pub open spec fn planar16_pixel(v: Vga, x: int, y: int) -> u8 {
    let o = y * 80 + x / 8;
    let i = 7 - (x % 8);
    (if bit8(v.plane(0)[o], i) {
        1u8
    } else {
        0u8
    }) | (if bit8(v.plane(1)[o], i) {
        2u8
    } else {
        0u8
    }) | (if bit8(v.plane(2)[o], i) {
        4u8
    } else {
        0u8
    }) | (if bit8(v.plane(3)[o], i) {
        8u8
    } else {
        0u8
    })
}

/// All state but the planes, the latches, the plane mask (sequencer
/// register 2) and the drawing registers of the graphics controller
/// (set/reset 0, enable set/reset 1, mode 5, bit mask 8) is unchanged.
pub open spec fn planar16_state_frame(pre: Vga, post: Vga) -> bool {
    &&& post.general_registers == pre.general_registers
    &&& post.attribute_controller_registers == pre.attribute_controller_registers
    &&& post.crtc_controller_registers == pre.crtc_controller_registers
    &&& post.color_palette_registers == pre.color_palette_registers
    &&& post.most_recent_video_mode == pre.most_recent_video_mode
    &&& post.video_memory_start == pre.video_memory_start
    &&& post.linear == pre.linear
    &&& post.sequencer_registers.registers@.len() == pre.sequencer_registers.registers@.len()
    &&& forall|i: int| 0 <= i < 8 && i != 2 ==> post.seq_reg(i) == pre.seq_reg(i)
    &&& post.graphics_controller_registers.registers@.len()
        == pre.graphics_controller_registers.registers@.len()
    &&& forall|i: int|
        0 <= i < 25 && i != 0 && i != 1 && i != 5 && i != 8 ==> post.gfx_reg(i) == pre.gfx_reg(i)
}

/// The write path is set up so that a store of the color byte paints
/// the bits the bit mask opens with `color_index`: either write mode 2,
/// or write mode 0 with set/reset holding the color on every plane.
pub open spec fn pixel_write_ready(v: Vga, color_index: u8) -> bool {
    (v.gfx_reg(5) & 3 == 2) || (v.gfx_reg(5) & 3 == 0 && v.gfx_reg(1) & 0x0F == 0x0F && v.gfx_reg(
        0,
    ) & 0x0F == color_index)
}

/// A writer for the planar 16-color 640 by 480 graphics mode.
#[derive(Debug, Clone, Copy, PartialEq, Eq, Structural)]
pub struct Graphics640x480x16;

impl Graphics640x480x16 {
    /// A new writer.  The writer itself is stateless; every operation
    /// works on the adapter it is handed.
    pub fn new() -> (r: Graphics640x480x16)
        ensures
            r == Graphics640x480x16,
    {
        Graphics640x480x16
    }

    /// Programs the adapter to the 640 by 480 planar mode and reloads
    /// the default palette (some firmware corrupts the DAC on a mode
    /// switch).
    pub fn set_mode(&self, vga: &mut Vga)
        requires
            old(vga).wf(),
        ensures
            final(vga).wf(),
            register_readback_holds(*final(vga), mode_configuration(VideoMode::Mode640x480x16)),
            mode_640x480_ready(*final(vga)),
            final(vga).color_palette_registers.data@.len() == 768,
            forall|i: int|
                0 <= i < 768 ==> final(vga).color_palette_registers.data@[i]
                    == crate::colors::default_palette_byte(i),
            final(vga).plane(0) == old(vga).plane(0),
            final(vga).plane(1) == old(vga).plane(1),
            final(vga).plane(2) == old(vga).plane(2),
            final(vga).plane(3) == old(vga).plane(3),
            final(vga).video_memory_start == old(vga).video_memory_start,
            final(vga).linear == old(vga).linear,
    {
        vga.set_video_mode(VideoMode::Mode640x480x16);
        proof {
            let c = mode_configuration(VideoMode::Mode640x480x16);
            assert(c.sequencer_registers[2] == (2u8, 0x0Fu8));
            assert(c.sequencer_registers[4] == (4u8, 0x06u8));
            assert(c.graphics_controller_registers[0] == (0u8, 0x00u8));
            assert(c.graphics_controller_registers[1] == (1u8, 0x00u8));
            assert(c.graphics_controller_registers[3] == (3u8, 0x00u8));
            assert(c.graphics_controller_registers[5] == (5u8, 0x00u8));
            assert(c.graphics_controller_registers[6] == (6u8, 0x05u8));
            crate::vga::lemma_mask_table();
        }
        let palette = crate::colors::default_palette();
        vga.color_palette_registers.load_palette(&palette);
    }

    /// Establishes write mode 2 with an open bit mask and all planes
    /// enabled: the preamble for single-pixel and fill operations.
    pub fn set_write_mode_2(&self, vga: &mut Vga)
        requires
            mode_640x480_ready(*old(vga)),
        ensures
            mode_640x480_ready(*final(vga)),
            planar16_state_frame(*old(vga), *final(vga)),
            final(vga).plane(0) == old(vga).plane(0),
            final(vga).plane(1) == old(vga).plane(1),
            final(vga).plane(2) == old(vga).plane(2),
            final(vga).plane(3) == old(vga).plane(3),
            final(vga).latch0 == old(vga).latch0,
            final(vga).latch1 == old(vga).latch1,
            final(vga).latch2 == old(vga).latch2,
            final(vga).latch3 == old(vga).latch3,
            final(vga).gfx_reg(5) & 3 == 2,
            final(vga).gfx_reg(8) == 0xFF,
            final(vga).gfx_reg(0) == old(vga).gfx_reg(0),
            final(vga).gfx_reg(1) == old(vga).gfx_reg(1),
    {
        vga.graphics_controller_registers.set_write_mode(WriteMode::Mode2);
        vga.graphics_controller_registers.set_bit_mask(0xFF);
        vga.sequencer_registers.set_plane_mask(PlaneMask::all_planes());
        proof {
            crate::vga::lemma_rmw_write_mode(old(vga).gfx_reg(5), 2);
            crate::vga::lemma_rmw_low_nibble(old(vga).seq_reg(2), 0x0F);
        }
    }

    /// Establishes write mode 0 with `color` held in set/reset and
    /// set/reset enabled on every plane: the preamble for line drawing,
    /// where the hardware substitutes the color for each masked bit.
    pub fn set_write_mode_0(&self, vga: &mut Vga, color: Color16)
        requires
            mode_640x480_ready(*old(vga)),
        ensures
            mode_640x480_ready(*final(vga)),
            planar16_state_frame(*old(vga), *final(vga)),
            final(vga).plane(0) == old(vga).plane(0),
            final(vga).plane(1) == old(vga).plane(1),
            final(vga).plane(2) == old(vga).plane(2),
            final(vga).plane(3) == old(vga).plane(3),
            final(vga).latch0 == old(vga).latch0,
            final(vga).latch1 == old(vga).latch1,
            final(vga).latch2 == old(vga).latch2,
            final(vga).latch3 == old(vga).latch3,
            final(vga).gfx_reg(5) & 3 == 0,
            final(vga).gfx_reg(0) & 0x0F == color16_index(color),
            final(vga).gfx_reg(1) & 0x0F == 0x0F,
            final(vga).gfx_reg(8) == old(vga).gfx_reg(8),
            final(vga).seq_reg(2) == old(vga).seq_reg(2),
            pixel_write_ready(*final(vga), color16_index(color)),
    {
        vga.graphics_controller_registers.write_set_reset(color);
        vga.graphics_controller_registers.write_enable_set_reset(0xF);
        vga.graphics_controller_registers.set_write_mode(WriteMode::Mode0);
        proof {
            crate::vga::lemma_rmw_low_nibble(old(vga).gfx_reg(0), color16_index(color));
            crate::vga::lemma_rmw_low_nibble(old(vga).gfx_reg(1), 0x0F);
            crate::vga::lemma_rmw_write_mode(old(vga).gfx_reg(5), 0);
        }
    }

    /// Paints one pixel under an already established write path: sets
    /// the bit mask to the pixel's bit, primes the latches with a dummy
    /// read, and stores the color byte.
    fn _set_pixel(&self, vga: &mut Vga, x: usize, y: usize, color: Color16)
        requires
            mode_640x480_ready(*old(vga)),
            pixel_write_ready(*old(vga), color16_index(color)),
            x < 640,
            y < 480,
        ensures
            mode_640x480_ready(*final(vga)),
            planar16_state_frame(*old(vga), *final(vga)),
            final(vga).gfx_reg(5) == old(vga).gfx_reg(5),
            final(vga).gfx_reg(0) == old(vga).gfx_reg(0),
            final(vga).gfx_reg(1) == old(vga).gfx_reg(1),
            final(vga).seq_reg(2) == old(vga).seq_reg(2),
            pixel_write_ready(*final(vga), color16_index(color)),
            forall|px: int, py: int|
                #![trigger planar16_pixel(*final(vga), px, py)]
                0 <= px < 640 && 0 <= py < 480 ==> planar16_pixel(*final(vga), px, py) == (if px
                    == x && py == y {
                    color16_index(color)
                } else {
                    planar16_pixel(*old(vga), px, py)
                }),
    {
        let shift = (x & 7) as u8;
        proof {
            crate::vga::lemma_low3(x);
        }
        let pixel_mask = 0x80u8 >> shift;
        let offset = x / 8 + y * 80;
        proof {
            assert(x / 8 + y * 80 < 38400) by (nonlinear_arith)
                requires
                    x < 640,
                    y < 480,
            ;
        }
        vga.graphics_controller_registers.set_bit_mask(pixel_mask);
        let ghost primed = *vga;
        let _ = vga.vram_read(offset);
        let ghost loaded = *vga;
        proof {
            planar_write_facts(loaded);
            assert(loaded.gfx_reg(8) == pixel_mask);
        }
        let color_byte = color.to_u8();
        vga.vram_write(offset, color_byte);
        proof {
            let idx = color16_index(color);
            let xm = x % 8;
            crate::vga::lemma_low3(x);
            assert forall|j: int, p: int| 0 <= j < 8 && 0 <= p < 4 implies #[trigger] bit8(
                loaded.write_result(p, color_byte, loaded.latch(p)),
                j,
            ) == (if j == 7 - xm {
                bit8(idx, p)
            } else {
                bit8(loaded.latch(p), j)
            }) by {
                let ju = j as u8;
                assert(((0x80u8 >> shift) >> ju) & 1 == (if ju == 7 - shift {
                    1u8
                } else {
                    0u8
                })) by (bit_vector)
                    requires
                        shift < 8,
                        ju < 8,
                ;
                if loaded.gfx_reg(5) & 3 == 2 {
                    crate::vga::lemma_mode2_write_result(loaded, p, color_byte, loaded.latch(p), j);
                    assert(bit8(color_byte, p) == bit8(idx, p));
                } else {
                    crate::vga::lemma_set_reset_write_result(
                        loaded,
                        p,
                        color_byte,
                        loaded.latch(p),
                        j,
                    );
                    let g0 = loaded.gfx_reg(0);
                    let pu = p as u8;
                    assert((g0 >> pu) & 1 == ((g0 & 0x0F) >> pu) & 1) by (bit_vector)
                        requires
                            pu < 4,
                    ;
                }
            }
            assert forall|px: int, py: int|
                0 <= px < 640 && 0 <= py < 480 implies #[trigger] planar16_pixel(
                *final(vga),
                px,
                py,
            ) == (if px == x && py == y {
                idx
            } else {
                planar16_pixel(*old(vga), px, py)
            }) by {
                let o2 = py * 80 + px / 8;
                let i2 = 7 - (px % 8);
                assert(0 <= o2 < 38400 && 0 <= px / 8 < 80 && 0 <= px % 8 < 8 && px == 8 * (px
                    / 8) + px % 8) by (nonlinear_arith)
                    requires
                        0 <= px < 640,
                        0 <= py < 480,
                        o2 == py * 80 + px / 8,
                ;
                assert(0 <= x as int / 8 < 80 && 0 <= x as int % 8 < 8 && x as int == 8 * (
                x as int / 8) + x as int % 8) by (nonlinear_arith)
                    requires
                        x < 640,
                ;
                if o2 == offset {
                    assert(py == y && px / 8 == x as int / 8) by (nonlinear_arith)
                        requires
                            o2 == py * 80 + px / 8,
                            offset == x as int / 8 + y as int * 80,
                            0 <= px / 8 < 80,
                            0 <= x as int / 8 < 80,
                            0 <= py < 480,
                            y < 480,
                            o2 == offset,
                    ;
                    if i2 == 7 - xm {
                        assert(px % 8 == x as int % 8);
                        assert(px == x && py == y);
                    }
                }
                if px == x && py == y {
                    assert(o2 == offset && i2 == 7 - xm);
                    crate::vga::lemma_nibble_bits(idx);
                }
            }
        }
    }

    /// Sets the pixel at `(x, y)` to `color`, establishing write mode 2
    /// first.  Convenient for single pixels; for runs of pixels the
    /// line and fill operations set the mode up once.
    pub fn set_pixel(&self, vga: &mut Vga, x: usize, y: usize, color: Color16)
        requires
            mode_640x480_ready(*old(vga)),
            x < 640,
            y < 480,
        ensures
            mode_640x480_ready(*final(vga)),
            planar16_state_frame(*old(vga), *final(vga)),
            forall|px: int, py: int|
                #![trigger planar16_pixel(*final(vga), px, py)]
                0 <= px < 640 && 0 <= py < 480 ==> planar16_pixel(*final(vga), px, py) == (if px
                    == x && py == y {
                    color16_index(color)
                } else {
                    planar16_pixel(*old(vga), px, py)
                }),
    {
        self.set_write_mode_2(vga);
        let ghost mid = *vga;
        proof {
            assert(pixel_write_ready(mid, color16_index(color)));
            assert(forall|px: int, py: int| #[trigger]
                planar16_pixel(mid, px, py) == planar16_pixel(*old(vga), px, py));
        }
        self._set_pixel(vga, x, y, color);
    }

    /// Clears the screen: every pixel of every plane byte becomes
    /// `color`, through 38400 write-mode-2 stores with an open bit
    /// mask.
    pub fn clear_screen(&self, vga: &mut Vga, color: Color16)
        requires
            mode_640x480_ready(*old(vga)),
        ensures
            mode_640x480_ready(*final(vga)),
            planar16_state_frame(*old(vga), *final(vga)),
            forall|px: int, py: int|
                #![trigger planar16_pixel(*final(vga), px, py)]
                0 <= px < 640 && 0 <= py < 480 ==> planar16_pixel(*final(vga), px, py)
                    == color16_index(color),
            forall|p: int, o: int|
                0 <= p < 4 && 38400 <= o < PLANE_SIZE ==> final(vga).plane(p)[o] == old(vga).plane(
                    p,
                )[o],
    {
        self.set_write_mode_2(vga);
        let color_byte = color.to_u8();
        let mut o: usize = 0;
        while o < 38400
            invariant
                o <= 38400,
                mode_640x480_ready(*vga),
                planar16_state_frame(*old(vga), *vga),
                vga.gfx_reg(5) & 3 == 2,
                vga.gfx_reg(8) == 0xFF,
                color_byte == color16_index(color),
                forall|p: int, o2: int|
                    #![trigger vga.plane(p)[o2]]
                    0 <= p < 4 && 0 <= o2 < PLANE_SIZE ==> vga.plane(p)[o2] == (if o2 < o {
                        crate::vga::expand_bit(bit8(color16_index(color), p))
                    } else {
                        old(vga).plane(p)[o2]
                    }),
            decreases 38400 - o,
        {
            proof {
                planar_write_facts(*vga);
                crate::vga::lemma_merge_full_all();
            }
            vga.vram_write(o, color_byte);
            o = o + 1;
        }
        proof {
            assert forall|px: int, py: int|
                0 <= px < 640 && 0 <= py < 480 implies #[trigger] planar16_pixel(
                *final(vga),
                px,
                py,
            ) == color16_index(color) by {
                assert(0 <= py * 80 + px / 8 < 38400 && 0 <= 7 - (px % 8) < 8)
                    by (nonlinear_arith)
                    requires
                        0 <= px < 640,
                        0 <= py < 480,
                ;
                let idx = color16_index(color);
                let i2 = 7 - (px % 8);
                crate::vga::lemma_expand_table();
                assert(forall|p: int|
                    0 <= p < 4 ==> #[trigger] bit8(crate::vga::expand_bit(bit8(idx, p)), i2)
                        == bit8(idx, p));
                crate::vga::lemma_nibble_bits(idx);
            }
        }
    }

    /// Draws the 8 by 8 glyph of `character` with its top-left pixel at
    /// `(x, y)`: set glyph bits paint `color`, clear bits leave the
    /// frame buffer alone.
    pub fn draw_character(&self, vga: &mut Vga, x: usize, y: usize, character: char, color: Color16)
        requires
            mode_640x480_ready(*old(vga)),
            x + 8 <= 640,
            y + 8 <= 480,
        ensures
            mode_640x480_ready(*final(vga)),
            planar16_state_frame(*old(vga), *final(vga)),
            forall|px: int, py: int|
                #![trigger planar16_pixel(*final(vga), px, py)]
                0 <= px < 640 && 0 <= py < 480 ==> planar16_pixel(*final(vga), px, py) == (if x
                    <= px < x + 8 && y <= py < y + 8 && glyph_pixel(character, px - x, py - y) {
                    color16_index(color)
                } else {
                    planar16_pixel(*old(vga), px, py)
                }),
    {
        self.set_write_mode_2(vga);
        let glyph = crate::fonts::glyph_for(character);
        let mut row: usize = 0;
        while row < 8
            invariant
                row <= 8,
                x + 8 <= 640,
                y + 8 <= 480,
                glyph@ == glyph_rows(character),
                mode_640x480_ready(*vga),
                planar16_state_frame(*old(vga), *vga),
                vga.gfx_reg(5) & 3 == 2,
                forall|px: int, py: int|
                    #![trigger planar16_pixel(*vga, px, py)]
                    0 <= px < 640 && 0 <= py < 480 ==> planar16_pixel(*vga, px, py) == (if x <= px
                        < x + 8 && y <= py < y + row && glyph_pixel(character, px - x, py - y) {
                        color16_index(color)
                    } else {
                        planar16_pixel(*old(vga), px, py)
                    }),
            decreases 8 - row,
        {
            let byte = glyph[row];
            let mut bit: usize = 0;
            while bit < 8
                invariant
                    bit <= 8,
                    row < 8,
                    x + 8 <= 640,
                    y + 8 <= 480,
                    glyph@ == glyph_rows(character),
                    byte == glyph_rows(character)[row as int],
                    mode_640x480_ready(*vga),
                    planar16_state_frame(*old(vga), *vga),
                    vga.gfx_reg(5) & 3 == 2,
                    forall|px: int, py: int|
                        #![trigger planar16_pixel(*vga, px, py)]
                        0 <= px < 640 && 0 <= py < 480 ==> planar16_pixel(*vga, px, py) == (if x
                            <= px < x + 8 && ((y <= py < y + row) || (py == y + row && px < x
                            + bit)) && glyph_pixel(character, px - x, py - y) {
                            color16_index(color)
                        } else {
                            planar16_pixel(*old(vga), px, py)
                        }),
                decreases 8 - bit,
            {
                let set = byte & (1u8 << bit) != 0;
                proof {
                    let bt = bit as u8;
                    crate::vga::lemma_glyph_bit(byte, bt);
                    assert(set == glyph_pixel(character, bit as int, row as int));
                }
                let ghost prev = *vga;
                if set {
                    self._set_pixel(vga, x + bit, y + row, color);
                }
                proof {
                    assert forall|px: int, py: int|
                        0 <= px < 640 && 0 <= py < 480 implies #[trigger] planar16_pixel(
                        *vga,
                        px,
                        py,
                    ) == (if x <= px < x + 8 && ((y <= py < y + row) || (py == y + row && px < x
                        + bit + 1)) && glyph_pixel(character, px - x, py - y) {
                        color16_index(color)
                    } else {
                        planar16_pixel(*old(vga), px, py)
                    }) by {
                        assert(planar16_pixel(prev, px, py) == (if x <= px < x + 8 && ((y <= py < y
                            + row) || (py == y + row && px < x + bit)) && glyph_pixel(
                            character,
                            px - x,
                            py - y,
                        ) {
                            color16_index(color)
                        } else {
                            planar16_pixel(*old(vga), px, py)
                        }));
                        if set {
                            assert(planar16_pixel(*vga, px, py) == (if px == x + bit && py == y
                                + row {
                                color16_index(color)
                            } else {
                                planar16_pixel(prev, px, py)
                            }));
                        }
                    }
                }
                bit = bit + 1;
            }
            row = row + 1;
        }
    }

    /// Draws a line from `start` to `end` with `color`, through write
    /// mode 0 with set/reset: the mode is set up once and each point
    /// costs one bit-mask write, one dummy read and one store.
    pub fn draw_line(&self, vga: &mut Vga, start: Point<isize>, end: Point<isize>, color: Color16)
        requires
            mode_640x480_ready(*old(vga)),
            0 <= start.0 < 640,
            0 <= start.1 < 480,
            0 <= end.0 < 640,
            0 <= end.1 < 480,
        ensures
            mode_640x480_ready(*final(vga)),
            planar16_state_frame(*old(vga), *final(vga)),
            forall|px: int, py: int|
                #![trigger planar16_pixel(*final(vga), px, py)]
                0 <= px < 640 && 0 <= py < 480 ==> planar16_pixel(*final(vga), px, py) == (
                if bres_points(point_int(start), point_int(end)).contains((px, py)) {
                    color16_index(color)
                } else {
                    planar16_pixel(*old(vga), px, py)
                }),
    {
        self.set_write_mode_0(vga, color);
        let ghost full = bres_points(point_int(start), point_int(end));
        proof {
            lemma_bresenham_shape(point_int(start), point_int(end));
        }
        let mut walk = Bresenham::new(start, end);
        let ghost mut done: int = 0;
        while !walk.is_done()
            invariant
                mode_640x480_ready(*vga),
                planar16_state_frame(*old(vga), *vga),
                pixel_write_ready(*vga, color16_index(color)),
                walk.wf(),
                0 <= done <= full.len(),
                walk.remaining() =~= full.skip(done),
                forall|k: int|
                    #![trigger full[k]]
                    0 <= k < full.len() ==> 0 <= full[k].0 < 640 && 0 <= full[k].1 < 480,
                forall|px: int, py: int|
                    #![trigger planar16_pixel(*vga, px, py)]
                    0 <= px < 640 && 0 <= py < 480 ==> planar16_pixel(*vga, px, py) == (
                    if full.take(done).contains((px, py)) {
                        color16_index(color)
                    } else {
                        planar16_pixel(*old(vga), px, py)
                    }),
            decreases walk.remaining().len(),
        {
            let p = walk.next();
            proof {
                assert(full.skip(done)[0] == full[done]);
            }
            let point = p.unwrap();
            let ghost prev = *vga;
            proof {
                assert(point_int(point) == full[done]);
            }
            let px_u = point.0 as usize;
            let py_u = point.1 as usize;
            self._set_pixel(vga, px_u, py_u, color);
            proof {
                assert(px_u as int == full[done].0 && py_u as int == full[done].1);
                assert(full.take(done + 1) =~= full.take(done).push(full[done]));
                assert(full.skip(done).drop_first() =~= full.skip(done + 1));
                done = done + 1;
                assert forall|px: int, py: int|
                    0 <= px < 640 && 0 <= py < 480 implies #[trigger] planar16_pixel(
                    *vga,
                    px,
                    py,
                ) == (if full.take(done).contains((px, py)) {
                    color16_index(color)
                } else {
                    planar16_pixel(*old(vga), px, py)
                }) by {
                    assert(planar16_pixel(*vga, px, py) == (if px == px_u && py == py_u {
                        color16_index(color)
                    } else {
                        planar16_pixel(prev, px, py)
                    }));
                    if (px, py) == full[done - 1] {
                        assert(full.take(done)[done - 1] == (px, py));
                        assert(full.take(done).contains((px, py)));
                    } else {
                        assert(full.take(done).contains((px, py)) == full.take(done - 1).contains(
                            (px, py),
                        )) by {
                            if full.take(done - 1).contains((px, py)) {
                                let k = choose|k: int|
                                    0 <= k < full.take(done - 1).len() && #[trigger] full.take(
                                        done - 1,
                                    )[k] == (px, py);
                                assert(full.take(done)[k] == (px, py));
                            }
                            if full.take(done).contains((px, py)) {
                                let k = choose|k: int|
                                    0 <= k < full.take(done).len() && #[trigger] full.take(done)[k]
                                        == (px, py);
                                if k < done - 1 {
                                    assert(full.take(done - 1)[k] == (px, py));
                                }
                            }
                        }
                    }
                }
            }
        }
        proof {
            assert(full.take(done) =~= full);
        }
    }

    /// Fills the rectangle from `p1` (inclusive) to `p2` (exclusive)
    /// with `color`, pixel by pixel under write mode 2.
    pub fn draw_rect(&self, vga: &mut Vga, p1: Point<usize>, p2: Point<usize>, color: Color16)
        requires
            mode_640x480_ready(*old(vga)),
            p1.0 <= p2.0 <= 640,
            p1.1 <= p2.1 <= 480,
        ensures
            mode_640x480_ready(*final(vga)),
            planar16_state_frame(*old(vga), *final(vga)),
            forall|px: int, py: int|
                #![trigger planar16_pixel(*final(vga), px, py)]
                0 <= px < 640 && 0 <= py < 480 ==> planar16_pixel(*final(vga), px, py) == (if p1.0
                    <= px < p2.0 && p1.1 <= py < p2.1 {
                    color16_index(color)
                } else {
                    planar16_pixel(*old(vga), px, py)
                }),
    {
        self.set_write_mode_2(vga);
        let mut y = p1.1;
        while y < p2.1
            invariant
                p1.1 <= y <= p2.1,
                p1.0 <= p2.0 <= 640,
                p2.1 <= 480,
                mode_640x480_ready(*vga),
                planar16_state_frame(*old(vga), *vga),
                vga.gfx_reg(5) & 3 == 2,
                forall|px: int, py: int|
                    #![trigger planar16_pixel(*vga, px, py)]
                    0 <= px < 640 && 0 <= py < 480 ==> planar16_pixel(*vga, px, py) == (if p1.0
                        <= px < p2.0 && p1.1 <= py < y {
                        color16_index(color)
                    } else {
                        planar16_pixel(*old(vga), px, py)
                    }),
            decreases p2.1 - y,
        {
            let mut x = p1.0;
            while x < p2.0
                invariant
                    p1.0 <= x <= p2.0 <= 640,
                    p1.1 <= y < p2.1 <= 480,
                    mode_640x480_ready(*vga),
                    planar16_state_frame(*old(vga), *vga),
                    vga.gfx_reg(5) & 3 == 2,
                    forall|px: int, py: int|
                        #![trigger planar16_pixel(*vga, px, py)]
                        0 <= px < 640 && 0 <= py < 480 ==> planar16_pixel(*vga, px, py) == (if (p1.0
                            <= px < p2.0 && p1.1 <= py < y) || (py == y && p1.0 <= px < x) {
                            color16_index(color)
                        } else {
                            planar16_pixel(*old(vga), px, py)
                        }),
                decreases p2.0 - x,
            {
                let ghost prev = *vga;
                self._set_pixel(vga, x, y, color);
                proof {
                    assert forall|px: int, py: int|
                        0 <= px < 640 && 0 <= py < 480 implies #[trigger] planar16_pixel(
                        *vga,
                        px,
                        py,
                    ) == (if (p1.0 <= px < p2.0 && p1.1 <= py < y) || (py == y && p1.0 <= px < x
                        + 1) {
                        color16_index(color)
                    } else {
                        planar16_pixel(*old(vga), px, py)
                    }) by {
                        assert(planar16_pixel(*vga, px, py) == (if px == x && py == y {
                            color16_index(color)
                        } else {
                            planar16_pixel(prev, px, py)
                        }));
                    }
                }
                x = x + 1;
            }
            y = y + 1;
        }
    }
}

/// In the planar register state with all planes enabled, a write
/// reaches all four planes.
proof fn planar_write_facts(v: Vga)
    requires
        v.seq_reg(4) == 0x06,
        v.seq_reg(2) & 0x0F == 0x0F,
    ensures
        forall|o: int| v.write_plane_enable(o) == 0x0F,
        forall|p: int| 0 <= p < 4 ==> bit8(0x0F, p),
{
    crate::vga::lemma_mask_table();
    crate::vga::lemma_low_bits(0x0F);
}


impl crate::writers::Screen for Graphics640x480x16 {
    open spec fn width_spec(&self) -> int {
        640
    }

    open spec fn height_spec(&self) -> int {
        480
    }

    open spec fn size_spec(&self) -> int {
        38400
    }

    fn get_width(&self) -> (r: usize) {
        640
    }

    fn get_height(&self) -> (r: usize) {
        480
    }

    fn get_size(&self) -> (r: usize) {
        38400
    }
}

impl crate::writers::GraphicsWriter<Color16> for Graphics640x480x16 {
    open spec fn mode_ready(&self, vga: Vga) -> bool {
        mode_640x480_ready(vga)
    }

    fn set_mode(&self, vga: &mut Vga) {
        Graphics640x480x16::set_mode(self, vga);
    }

    fn clear_screen(&self, vga: &mut Vga, color: Color16) {
        Graphics640x480x16::clear_screen(self, vga, color);
    }

    fn set_pixel(&self, vga: &mut Vga, x: usize, y: usize, color: Color16) {
        Graphics640x480x16::set_pixel(self, vga, x, y, color);
    }

    fn draw_character(&self, vga: &mut Vga, x: usize, y: usize, character: char, color: Color16) {
        Graphics640x480x16::draw_character(self, vga, x, y, character, color);
    }
}

impl crate::writers::PrimitiveDrawing<Color16> for Graphics640x480x16 {
    fn draw_line(&self, vga: &mut Vga, start: Point<isize>, end: Point<isize>, color: Color16) {
        Graphics640x480x16::draw_line(self, vga, start, end, color);
    }

    fn draw_rect(&self, vga: &mut Vga, p1: Point<usize>, p2: Point<usize>, color: Color16) {
        Graphics640x480x16::draw_rect(self, vga, p1, p2, color);
    }
}

} // verus!
