//! A pixel-oriented writer for the packed 32-bpp 1280 by 800 mode,
//! which draws to an externally established linear frame buffer and
//! bypasses the planar memory path entirely.

use crate::drawing::bresenham::{
    bres_points, lemma_bresenham_axis_points, lemma_bresenham_shape, Bresenham,
};
use crate::drawing::{point_int, rect_outline_contains, Point};
use crate::fonts::glyph_rows;
use crate::vga::Vga;
use crate::writers::graphics_320x200x256::glyph_pixel;
use vstd::prelude::*;

verus! {

/// The linear writer needs only a well-formed adapter: its frame
/// buffer bypasses the register files.
pub open spec fn linear_mode_ready(vga: Vga) -> bool {
    vga.wf()
}

/// The 32-bpp pixel at `(x, y)` of the linear frame buffer.
pub open spec fn linear_pixel(v: Vga, x: int, y: int) -> u32 {
    v.linear@[1280 * y + x]
}

/// All linear pixels are unchanged but the frame buffer itself.
pub open spec fn same_but_linear(pre: Vga, post: Vga) -> bool {
    post == (Vga { linear: post.linear, ..pre })
}

/// A writer for the packed 32-bpp 1280 by 800 graphics mode.
#[derive(Debug, Clone, Copy, PartialEq, Eq, Structural)]
pub struct Graphics1280x800x256;

impl Graphics1280x800x256 {
    /// A new writer.  The writer itself is stateless; every operation
    /// works on the adapter it is handed.
    pub fn new() -> (r: Graphics1280x800x256)
        ensures
            r == Graphics1280x800x256,
    {
        Graphics1280x800x256
    }

    /// Reloads the default palette.  The linear frame buffer itself is
    /// established externally, so no register table is programmed here.
    pub fn set_mode(&self, vga: &mut Vga)
        requires
            old(vga).wf(),
        ensures
            final(vga).wf(),
            final(vga).color_palette_registers.data@.len() == 768,
            forall|i: int|
                0 <= i < 768 ==> final(vga).color_palette_registers.data@[i]
                    == crate::colors::default_palette_byte(i),
            *final(vga) == (Vga {
                color_palette_registers: final(vga).color_palette_registers,
                ..*old(vga)
            }),
    {
        let palette = crate::colors::default_palette();
        vga.color_palette_registers.load_palette(&palette);
    }

    /// Sets the pixel at `(x, y)` to the 32-bit `color`.
    pub fn set_pixel(&self, vga: &mut Vga, x: usize, y: usize, color: u32)
        requires
            old(vga).wf(),
            x < 1280,
            y < 800,
        ensures
            final(vga).wf(),
            same_but_linear(*old(vga), *final(vga)),
            forall|px: int, py: int|
                #![trigger linear_pixel(*final(vga), px, py)]
                0 <= px < 1280 && 0 <= py < 800 ==> linear_pixel(*final(vga), px, py) == (if px
                    == x && py == y {
                    color
                } else {
                    linear_pixel(*old(vga), px, py)
                }),
    {
        let offset = y * 1280 + x;
        vga.linear_write(offset, color);
        proof {
            assert forall|px: int, py: int|
                0 <= px < 1280 && 0 <= py < 800 implies #[trigger] linear_pixel(
                *final(vga),
                px,
                py,
            ) == (if px == x && py == y {
                color
            } else {
                linear_pixel(*old(vga), px, py)
            }) by {
                if !(px == x && py == y) {
                    assert(1280 * py + px != 1280 * y + x) by (nonlinear_arith)
                        requires
                            0 <= px < 1280,
                            0 <= py < 800,
                            x < 1280,
                            y < 800,
                            !(px == x as int && py == y as int),
                    ;
                }
            }
        }
    }

    /// Fills the rectangle from `p1` (inclusive) to `p2` (exclusive)
    /// with `color`.
    pub fn fill_rectangle(&self, vga: &mut Vga, p1: Point<usize>, p2: Point<usize>, color: u32)
        requires
            old(vga).wf(),
            p1.0 <= p2.0 <= 1280,
            p1.1 <= p2.1 <= 800,
        ensures
            final(vga).wf(),
            same_but_linear(*old(vga), *final(vga)),
            forall|px: int, py: int|
                #![trigger linear_pixel(*final(vga), px, py)]
                0 <= px < 1280 && 0 <= py < 800 ==> linear_pixel(*final(vga), px, py) == (if p1.0
                    <= px < p2.0 && p1.1 <= py < p2.1 {
                    color
                } else {
                    linear_pixel(*old(vga), px, py)
                }),
    {
        let mut y = p1.1;
        while y < p2.1
            invariant
                p1.1 <= y <= p2.1,
                p1.0 <= p2.0 <= 1280,
                p2.1 <= 800,
                vga.wf(),
                same_but_linear(*old(vga), *vga),
                forall|px: int, py: int|
                    #![trigger linear_pixel(*vga, px, py)]
                    0 <= px < 1280 && 0 <= py < 800 ==> linear_pixel(*vga, px, py) == (if p1.0
                        <= px < p2.0 && p1.1 <= py < y {
                        color
                    } else {
                        linear_pixel(*old(vga), px, py)
                    }),
            decreases p2.1 - y,
        {
            let mut x = p1.0;
            while x < p2.0
                invariant
                    p1.0 <= x <= p2.0 <= 1280,
                    p1.1 <= y < p2.1 <= 800,
                    vga.wf(),
                    same_but_linear(*old(vga), *vga),
                    forall|px: int, py: int|
                        #![trigger linear_pixel(*vga, px, py)]
                        0 <= px < 1280 && 0 <= py < 800 ==> linear_pixel(*vga, px, py) == (if (p1.0
                            <= px < p2.0 && p1.1 <= py < y) || (py == y && p1.0 <= px < x) {
                            color
                        } else {
                            linear_pixel(*old(vga), px, py)
                        }),
                decreases p2.0 - x,
            {
                let ghost prev = *vga;
                self.set_pixel(vga, x, y, color);
                proof {
                    assert forall|px: int, py: int|
                        0 <= px < 1280 && 0 <= py < 800 implies #[trigger] linear_pixel(
                        *vga,
                        px,
                        py,
                    ) == (if (p1.0 <= px < p2.0 && p1.1 <= py < y) || (py == y && p1.0 <= px < x
                        + 1) {
                        color
                    } else {
                        linear_pixel(*old(vga), px, py)
                    }) by {
                        assert(linear_pixel(*vga, px, py) == (if px == x && py == y {
                            color
                        } else {
                            linear_pixel(prev, px, py)
                        }));
                    }
                }
                x = x + 1;
            }
            y = y + 1;
        }
    }

    /// Clears the screen: every pixel becomes `color`.
    pub fn clear_screen(&self, vga: &mut Vga, color: u32)
        requires
            old(vga).wf(),
        ensures
            final(vga).wf(),
            same_but_linear(*old(vga), *final(vga)),
            forall|px: int, py: int|
                #![trigger linear_pixel(*final(vga), px, py)]
                0 <= px < 1280 && 0 <= py < 800 ==> linear_pixel(*final(vga), px, py) == color,
    {
        self.fill_rectangle(vga, (0, 0), (1280, 800), color);
    }

    /// Draws the 8 by 8 glyph of `character` with its top-left pixel at
    /// `(x, y)`.
    pub fn draw_character(&self, vga: &mut Vga, x: usize, y: usize, character: char, color: u32)
        requires
            old(vga).wf(),
            x + 8 <= 1280,
            y + 8 <= 800,
        ensures
            final(vga).wf(),
            same_but_linear(*old(vga), *final(vga)),
            forall|px: int, py: int|
                #![trigger linear_pixel(*final(vga), px, py)]
                0 <= px < 1280 && 0 <= py < 800 ==> linear_pixel(*final(vga), px, py) == (if x
                    <= px < x + 8 && y <= py < y + 8 && glyph_pixel(character, px - x, py - y) {
                    color
                } else {
                    linear_pixel(*old(vga), px, py)
                }),
    {
        let glyph = crate::fonts::glyph_for(character);
        let mut row: usize = 0;
        while row < 8
            invariant
                row <= 8,
                x + 8 <= 1280,
                y + 8 <= 800,
                glyph@ == glyph_rows(character),
                vga.wf(),
                same_but_linear(*old(vga), *vga),
                forall|px: int, py: int|
                    #![trigger linear_pixel(*vga, px, py)]
                    0 <= px < 1280 && 0 <= py < 800 ==> linear_pixel(*vga, px, py) == (if x <= px
                        < x + 8 && y <= py < y + row && glyph_pixel(character, px - x, py - y) {
                        color
                    } else {
                        linear_pixel(*old(vga), px, py)
                    }),
            decreases 8 - row,
        {
            let byte = glyph[row];
            let mut bit: usize = 0;
            while bit < 8
                invariant
                    bit <= 8,
                    row < 8,
                    x + 8 <= 1280,
                    y + 8 <= 800,
                    glyph@ == glyph_rows(character),
                    byte == glyph_rows(character)[row as int],
                    vga.wf(),
                    same_but_linear(*old(vga), *vga),
                    forall|px: int, py: int|
                        #![trigger linear_pixel(*vga, px, py)]
                        0 <= px < 1280 && 0 <= py < 800 ==> linear_pixel(*vga, px, py) == (if x
                            <= px < x + 8 && ((y <= py < y + row) || (py == y + row && px < x
                            + bit)) && glyph_pixel(character, px - x, py - y) {
                            color
                        } else {
                            linear_pixel(*old(vga), px, py)
                        }),
                decreases 8 - bit,
            {
                let set = byte & (1u8 << bit) != 0;
                proof {
                    let bt = bit as u8;
                    crate::vga::lemma_glyph_bit(byte, bt);
                    assert(set == glyph_pixel(character, bit as int, row as int));
                }
                let ghost prev = *vga;
                if set {
                    self.set_pixel(vga, x + bit, y + row, color);
                }
                proof {
                    assert forall|px: int, py: int|
                        0 <= px < 1280 && 0 <= py < 800 implies #[trigger] linear_pixel(
                        *vga,
                        px,
                        py,
                    ) == (if x <= px < x + 8 && ((y <= py < y + row) || (py == y + row && px < x
                        + bit + 1)) && glyph_pixel(character, px - x, py - y) {
                        color
                    } else {
                        linear_pixel(*old(vga), px, py)
                    }) by {
                        assert(linear_pixel(prev, px, py) == (if x <= px < x + 8 && ((y <= py < y
                            + row) || (py == y + row && px < x + bit)) && glyph_pixel(
                            character,
                            px - x,
                            py - y,
                        ) {
                            color
                        } else {
                            linear_pixel(*old(vga), px, py)
                        }));
                        if set {
                            assert(linear_pixel(*vga, px, py) == (if px == x + bit && py == y
                                + row {
                                color
                            } else {
                                linear_pixel(prev, px, py)
                            }));
                        }
                    }
                }
                bit = bit + 1;
            }
            row = row + 1;
        }
    }

    /// Draws a line from `start` to `end` with `color`: every point of
    /// the Bresenham walk is painted, nothing else moves.
    pub fn draw_line(&self, vga: &mut Vga, start: Point<isize>, end: Point<isize>, color: u32)
        requires
            old(vga).wf(),
            0 <= start.0 < 1280,
            0 <= start.1 < 800,
            0 <= end.0 < 1280,
            0 <= end.1 < 800,
        ensures
            final(vga).wf(),
            same_but_linear(*old(vga), *final(vga)),
            forall|px: int, py: int|
                #![trigger linear_pixel(*final(vga), px, py)]
                0 <= px < 1280 && 0 <= py < 800 ==> linear_pixel(*final(vga), px, py) == (
                if bres_points(point_int(start), point_int(end)).contains((px, py)) {
                    color
                } else {
                    linear_pixel(*old(vga), px, py)
                }),
    {
        let ghost full = bres_points(point_int(start), point_int(end));
        proof {
            lemma_bresenham_shape(point_int(start), point_int(end));
        }
        let mut walk = Bresenham::new(start, end);
        let ghost mut done: int = 0;
        while !walk.is_done()
            invariant
                vga.wf(),
                same_but_linear(*old(vga), *vga),
                walk.wf(),
                0 <= done <= full.len(),
                walk.remaining() =~= full.skip(done),
                forall|k: int|
                    #![trigger full[k]]
                    0 <= k < full.len() ==> 0 <= full[k].0 < 1280 && 0 <= full[k].1 < 800,
                forall|px: int, py: int|
                    #![trigger linear_pixel(*vga, px, py)]
                    0 <= px < 1280 && 0 <= py < 800 ==> linear_pixel(*vga, px, py) == (
                    if full.take(done).contains((px, py)) {
                        color
                    } else {
                        linear_pixel(*old(vga), px, py)
                    }),
            decreases walk.remaining().len(),
        {
            let p = walk.next();
            proof {
                assert(full.skip(done)[0] == full[done]);
            }
            let point = p.unwrap();
            let ghost prev = *vga;
            proof {
                assert(point_int(point) == full[done]);
            }
            let px_u = point.0 as usize;
            let py_u = point.1 as usize;
            self.set_pixel(vga, px_u, py_u, color);
            proof {
                assert(px_u as int == full[done].0 && py_u as int == full[done].1);
                assert(full.take(done + 1) =~= full.take(done).push(full[done]));
                assert(full.skip(done).drop_first() =~= full.skip(done + 1));
                done = done + 1;
                assert forall|px: int, py: int|
                    0 <= px < 1280 && 0 <= py < 800 implies #[trigger] linear_pixel(
                    *vga,
                    px,
                    py,
                ) == (if full.take(done).contains((px, py)) {
                    color
                } else {
                    linear_pixel(*old(vga), px, py)
                }) by {
                    assert(linear_pixel(*vga, px, py) == (if px == px_u && py == py_u {
                        color
                    } else {
                        linear_pixel(prev, px, py)
                    }));
                    if (px, py) == full[done - 1] {
                        assert(full.take(done)[done - 1] == (px, py));
                        assert(full.take(done).contains((px, py)));
                    } else {
                        assert(full.take(done).contains((px, py)) == full.take(done - 1).contains(
                            (px, py),
                        )) by {
                            if full.take(done - 1).contains((px, py)) {
                                let k = choose|k: int|
                                    0 <= k < full.take(done - 1).len() && #[trigger] full.take(
                                        done - 1,
                                    )[k] == (px, py);
                                assert(full.take(done)[k] == (px, py));
                            }
                            if full.take(done).contains((px, py)) {
                                let k = choose|k: int|
                                    0 <= k < full.take(done).len() && #[trigger] full.take(done)[k]
                                        == (px, py);
                                if k < done - 1 {
                                    assert(full.take(done - 1)[k] == (px, py));
                                }
                            }
                        }
                    }
                }
            }
        }
        proof {
            assert(full.take(done) =~= full);
        }
    }

    /// Draws the outline of `rectangle` with `color`: its four edges as
    /// Bresenham lines.  Every pixel on the outline is painted, nothing
    /// else moves.
    pub fn draw_rectangle(&self, vga: &mut Vga, rectangle: &crate::drawing::Rectangle, color: u32)
        requires
            old(vga).wf(),
            rectangle.width >= 1,
            rectangle.height >= 1,
            rectangle.x + rectangle.width < 1280,
            rectangle.y + rectangle.height < 800,
        ensures
            final(vga).wf(),
            same_but_linear(*old(vga), *final(vga)),
            forall|px: int, py: int|
                #![trigger linear_pixel(*final(vga), px, py)]
                0 <= px < 1280 && 0 <= py < 800 ==> linear_pixel(*final(vga), px, py) == (
                if rect_outline_contains(*rectangle, (px, py)) {
                    color
                } else {
                    linear_pixel(*old(vga), px, py)
                }),
    {
        let ghost l = rectangle.x as int;
        let ghost t = rectangle.y as int;
        let ghost rt = rectangle.x as int + rectangle.width as int;
        let ghost bm = rectangle.y as int + rectangle.height as int;
        let left = rectangle.x as isize;
        let top = rectangle.y as isize;
        let right = rectangle.right() as isize;
        let bottom = rectangle.bottom() as isize;
        proof {
            lemma_bresenham_axis_points((l, t), (l, bm));
            lemma_bresenham_axis_points((l, bm), (rt, bm));
            lemma_bresenham_axis_points((rt, bm), (rt, t));
            lemma_bresenham_axis_points((rt, t), (l, t));
        }
        self.draw_line(vga, (left, top), (left, bottom), color);
        let ghost s1 = *vga;
        self.draw_line(vga, (left, bottom), (right, bottom), color);
        let ghost s2 = *vga;
        self.draw_line(vga, (right, bottom), (right, top), color);
        let ghost s3 = *vga;
        self.draw_line(vga, (right, top), (left, top), color);
        proof {
            assert forall|px: int, py: int| 0 <= px < 1280 && 0 <= py < 800 implies #[trigger] linear_pixel(
                *vga,
                px,
                py,
            ) == (if rect_outline_contains(*rectangle, (px, py)) {
                color
            } else {
                linear_pixel(*old(vga), px, py)
            }) by {
                assert(linear_pixel(*vga, px, py) == (if bres_points((rt, t), (l, t)).contains(
                    (px, py),
                ) {
                    color
                } else {
                    linear_pixel(s3, px, py)
                }));
                assert(linear_pixel(s3, px, py) == (if bres_points((rt, bm), (rt, t)).contains(
                    (px, py),
                ) {
                    color
                } else {
                    linear_pixel(s2, px, py)
                }));
                assert(linear_pixel(s2, px, py) == (if bres_points((l, bm), (rt, bm)).contains(
                    (px, py),
                ) {
                    color
                } else {
                    linear_pixel(s1, px, py)
                }));
                assert(linear_pixel(s1, px, py) == (if bres_points((l, t), (l, bm)).contains(
                    (px, py),
                ) {
                    color
                } else {
                    linear_pixel(*old(vga), px, py)
                }));
            }
        }
    }
}


impl crate::writers::Screen for Graphics1280x800x256 {
    open spec fn width_spec(&self) -> int {
        1280
    }

    open spec fn height_spec(&self) -> int {
        800
    }

    open spec fn size_spec(&self) -> int {
        4096000
    }

    fn get_width(&self) -> (r: usize) {
        1280
    }

    fn get_height(&self) -> (r: usize) {
        800
    }

    fn get_size(&self) -> (r: usize) {
        4096000
    }
}

impl crate::writers::GraphicsWriter<u32> for Graphics1280x800x256 {
    open spec fn mode_ready(&self, vga: Vga) -> bool {
        linear_mode_ready(vga)
    }

    fn set_mode(&self, vga: &mut Vga) {
        Graphics1280x800x256::set_mode(self, vga);
    }

    fn clear_screen(&self, vga: &mut Vga, color: u32) {
        Graphics1280x800x256::clear_screen(self, vga, color);
    }

    fn set_pixel(&self, vga: &mut Vga, x: usize, y: usize, color: u32) {
        Graphics1280x800x256::set_pixel(self, vga, x, y, color);
    }

    fn draw_character(&self, vga: &mut Vga, x: usize, y: usize, character: char, color: u32) {
        Graphics1280x800x256::draw_character(self, vga, x, y, character, color);
    }
}

impl crate::writers::PrimitiveDrawing<u32> for Graphics1280x800x256 {
    fn draw_line(&self, vga: &mut Vga, start: Point<isize>, end: Point<isize>, color: u32) {
        Graphics1280x800x256::draw_line(self, vga, start, end, color);
    }

    fn draw_rect(&self, vga: &mut Vga, p1: Point<usize>, p2: Point<usize>, color: u32) {
        Graphics1280x800x256::fill_rectangle(self, vga, p1, p2, color);
    }
}

} // verus!
