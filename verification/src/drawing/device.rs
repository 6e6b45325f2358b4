//! A drawing-device abstraction for users of the graphics modes: a
//! screen size, the primitive operations, and a triangle rasterizer
//! derived from them via the edge function.

use super::Point;
use crate::vga::Vga;
use vstd::prelude::*;

verus! {

/// Coordinates handed to the triangle rasterizer stay below this
/// bound, so the edge function and its row accumulators fit a 32-bit
/// integer.
pub const TRIANGLE_COORDINATE_LIMIT: i32 = 0x2000;

/// Twice the signed area of the triangle `a`, `b`, `c`: positive when
/// `c` lies left of the directed edge from `a` to `b`.
pub open spec fn orient2d_spec(a: (int, int), b: (int, int), c: (int, int)) -> int {
    (b.0 - a.0) * (c.1 - a.1) - (b.1 - a.1) * (c.0 - a.0)
}

/// The edge function stays within an `i32` while every coordinate is
/// within the triangle limit.
proof fn lemma_orient2d_bound(a: (int, int), b: (int, int), c: (int, int))
    requires
        -0x2000 <= a.0 <= 0x2000,
        -0x2000 <= a.1 <= 0x2000,
        -0x2000 <= b.0 <= 0x2000,
        -0x2000 <= b.1 <= 0x2000,
        -0x2000 <= c.0 <= 0x2000,
        -0x2000 <= c.1 <= 0x2000,
    ensures
        -0x2000_0000 <= orient2d_spec(a, b, c) <= 0x2000_0000,
{
    assert(-0x2000_0000 <= (b.0 - a.0) * (c.1 - a.1) - (b.1 - a.1) * (c.0 - a.0) <= 0x2000_0000)
        by (nonlinear_arith)
        requires
            -0x4000 <= b.0 - a.0 <= 0x4000,
            -0x4000 <= c.1 - a.1 <= 0x4000,
            -0x4000 <= b.1 - a.1 <= 0x4000,
            -0x4000 <= c.0 - a.0 <= 0x4000,
    ;
}

/// Stepping the sample point right adds the edge's row coefficient.
proof fn lemma_orient2d_step_x(a: (int, int), b: (int, int), c: (int, int))
    ensures
        orient2d_spec(a, b, (c.0 + 1, c.1)) == orient2d_spec(a, b, c) + (a.1 - b.1),
{
    assert((b.0 - a.0) * (c.1 - a.1) - (b.1 - a.1) * (c.0 + 1 - a.0) == (b.0 - a.0) * (c.1 - a.1)
        - (b.1 - a.1) * (c.0 - a.0) + (a.1 - b.1)) by (nonlinear_arith);
}

/// Stepping the sample point down adds the edge's column coefficient.
proof fn lemma_orient2d_step_y(a: (int, int), b: (int, int), c: (int, int))
    ensures
        orient2d_spec(a, b, (c.0, c.1 + 1)) == orient2d_spec(a, b, c) + (b.0 - a.0),
{
    assert((b.0 - a.0) * (c.1 + 1 - a.1) - (b.1 - a.1) * (c.0 - a.0) == (b.0 - a.0) * (c.1 - a.1)
        - (b.1 - a.1) * (c.0 - a.0) + (b.0 - a.0)) by (nonlinear_arith);
}

/// The smallest of three integers.
pub open spec fn min3(a: int, b: int, c: int) -> int {
    if a <= b && a <= c {
        a
    } else if b <= c {
        b
    } else {
        c
    }
}

/// The largest of three integers.
pub open spec fn max3(a: int, b: int, c: int) -> int {
    if a >= b && a >= c {
        a
    } else if b >= c {
        b
    } else {
        c
    }
}

/// Whether the triangle rasterizer paints the sample `p`: inside the
/// triangle's bounding box, and on or left of all three directed edges
/// of the triangle `(v0, v1, v2)`.  The bounding box matters only for
/// degenerate triangles, whose edge functions vanish on a whole
/// half-plane or on the whole plane.
pub open spec fn triangle_sample_painted(
    v0: (int, int),
    v1: (int, int),
    v2: (int, int),
    p: (int, int),
) -> bool {
    &&& min3(v0.0, v1.0, v2.0) <= p.0 <= max3(v0.0, v1.0, v2.0)
    &&& min3(v0.1, v1.1, v2.1) <= p.1 <= max3(v0.1, v1.1, v2.1)
    &&& orient2d_spec(v1, v2, p) >= 0
    &&& orient2d_spec(v2, v0, p) >= 0
    &&& orient2d_spec(v0, v1, p) >= 0
}

/// The edge function of the directed edge `a` to `b`, evaluated at `c`.
pub fn orient2d(a: Point<i32>, b: Point<i32>, c: Point<i32>) -> (r: i32)
    requires
        -TRIANGLE_COORDINATE_LIMIT <= a.0 <= TRIANGLE_COORDINATE_LIMIT,
        -TRIANGLE_COORDINATE_LIMIT <= a.1 <= TRIANGLE_COORDINATE_LIMIT,
        -TRIANGLE_COORDINATE_LIMIT <= b.0 <= TRIANGLE_COORDINATE_LIMIT,
        -TRIANGLE_COORDINATE_LIMIT <= b.1 <= TRIANGLE_COORDINATE_LIMIT,
        -TRIANGLE_COORDINATE_LIMIT <= c.0 <= TRIANGLE_COORDINATE_LIMIT,
        -TRIANGLE_COORDINATE_LIMIT <= c.1 <= TRIANGLE_COORDINATE_LIMIT,
    ensures
        r == orient2d_spec(
            (a.0 as int, a.1 as int),
            (b.0 as int, b.1 as int),
            (c.0 as int, c.1 as int),
        ),
{
    let ab_x = b.0 - a.0;
    let ab_y = b.1 - a.1;
    let ac_x = c.0 - a.0;
    let ac_y = c.1 - a.1;
    proof {
        assert(ab_x * ac_y <= 0x1000_0000 && ab_x * ac_y >= -0x1000_0000 && ab_y * ac_x
            <= 0x1000_0000 && ab_y * ac_x >= -0x1000_0000) by (nonlinear_arith)
            requires
                -0x4000 <= ab_x <= 0x4000,
                -0x4000 <= ab_y <= 0x4000,
                -0x4000 <= ac_x <= 0x4000,
                -0x4000 <= ac_y <= 0x4000,
        ;
    }
    ab_x * ac_y - ab_y * ac_x
}

/// The smaller of two machine integers.
fn min_i32(a: i32, b: i32) -> (r: i32)
    ensures
        r == (if a <= b {
            a
        } else {
            b
        }),
{
    if a <= b {
        a
    } else {
        b
    }
}

/// The larger of two machine integers.
fn max_i32(a: i32, b: i32) -> (r: i32)
    ensures
        r == (if a >= b {
            a
        } else {
            b
        }),
{
    if a >= b {
        a
    } else {
        b
    }
}

/// A drawing device: a screen of known size with primitive drawing
/// operations, for users that bring their own mode or back buffer.
/// The triangle rasterizer is derived from `set_pixel` here.
pub trait Device<Color: Copy> {
    /// The screen width in pixels.
    spec fn width_spec(&self) -> int;

    /// The screen height in pixels.
    spec fn height_spec(&self) -> int;

    /// Whether the adapter is in a state this device can draw to.
    spec fn ready(&self, vga: Vga) -> bool;

    /// The color of the pixel at `(x, y)` on this device's screen, in
    /// the given adapter state.
    spec fn pixel(&self, vga: Vga, x: int, y: int) -> Color;

    /// The screen width.
    fn get_width(&self) -> (r: usize)
        ensures
            r == self.width_spec(),
    ;

    /// The screen height.
    fn get_height(&self) -> (r: usize)
        ensures
            r == self.height_spec(),
    ;

    /// Paints the pixel at `(x, y)` with `color`, leaving every other
    /// pixel alone.
    fn set_pixel(&self, vga: &mut Vga, x: usize, y: usize, color: Color)
        requires
            self.ready(*old(vga)),
            x < self.width_spec(),
            y < self.height_spec(),
        ensures
            self.ready(*final(vga)),
            forall|px: int, py: int|
                #![trigger self.pixel(*final(vga), px, py)]
                0 <= px < self.width_spec() && 0 <= py < self.height_spec() ==> self.pixel(
                    *final(vga),
                    px,
                    py,
                ) == (if px == x && py == y {
                    color
                } else {
                    self.pixel(*old(vga), px, py)
                }),
    ;

    /// Draws the 8 by 8 glyph of `character` at `(x, y)`.
    fn draw_character(&self, vga: &mut Vga, x: usize, y: usize, character: char, color: Color)
        requires
            self.ready(*old(vga)),
            x + 8 <= self.width_spec(),
            y + 8 <= self.height_spec(),
        ensures
            self.ready(*final(vga)),
    ;

    /// Draws a line from `start` to `end`.
    fn draw_line(&self, vga: &mut Vga, start: Point<isize>, end: Point<isize>, color: Color)
        requires
            self.ready(*old(vga)),
            0 <= start.0 < self.width_spec(),
            0 <= start.1 < self.height_spec(),
            0 <= end.0 < self.width_spec(),
            0 <= end.1 < self.height_spec(),
        ensures
            self.ready(*final(vga)),
    ;

    /// Pushes the drawn frame to the screen, for devices that draw to a
    /// back buffer first.
    fn present(&self, vga: &Vga);

    /// Rasterizes the triangle `(v0, v1, v2)` with `color`: walks the
    /// triangle's bounding box clipped to the screen and paints exactly
    /// the samples on or left of all three directed edges, carrying the
    /// three edge functions incrementally.  No other pixel moves.
    fn draw_triangle(&self, vga: &mut Vga, v0: Point<i32>, v1: Point<i32>, v2: Point<i32>, color: Color)
        requires
            self.ready(*old(vga)),
            0 < self.width_spec() <= TRIANGLE_COORDINATE_LIMIT,
            0 < self.height_spec() <= TRIANGLE_COORDINATE_LIMIT,
            -TRIANGLE_COORDINATE_LIMIT <= v0.0 <= TRIANGLE_COORDINATE_LIMIT,
            -TRIANGLE_COORDINATE_LIMIT <= v0.1 <= TRIANGLE_COORDINATE_LIMIT,
            -TRIANGLE_COORDINATE_LIMIT <= v1.0 <= TRIANGLE_COORDINATE_LIMIT,
            -TRIANGLE_COORDINATE_LIMIT <= v1.1 <= TRIANGLE_COORDINATE_LIMIT,
            -TRIANGLE_COORDINATE_LIMIT <= v2.0 <= TRIANGLE_COORDINATE_LIMIT,
            -TRIANGLE_COORDINATE_LIMIT <= v2.1 <= TRIANGLE_COORDINATE_LIMIT,
        ensures
            self.ready(*final(vga)),
            forall|px: int, py: int|
                #![trigger self.pixel(*final(vga), px, py)]
                0 <= px < self.width_spec() && 0 <= py < self.height_spec() ==> self.pixel(
                    *final(vga),
                    px,
                    py,
                ) == (if triangle_sample_painted(
                    (v0.0 as int, v0.1 as int),
                    (v1.0 as int, v1.1 as int),
                    (v2.0 as int, v2.1 as int),
                    (px, py),
                ) {
                    color
                } else {
                    self.pixel(*old(vga), px, py)
                }),
    {
        let ghost p0 = (v0.0 as int, v0.1 as int);
        let ghost p1 = (v1.0 as int, v1.1 as int);
        let ghost p2 = (v2.0 as int, v2.1 as int);
        let screen_width = self.get_width() as i32;
        let screen_height = self.get_height() as i32;
        let a01 = v0.1 - v1.1;
        let b01 = v1.0 - v0.0;
        let a12 = v1.1 - v2.1;
        let b12 = v2.0 - v1.0;
        let a20 = v2.1 - v0.1;
        let b20 = v0.0 - v2.0;

        let mut min_x = min_i32(v0.0, min_i32(v1.0, v2.0));
        let mut min_y = min_i32(v0.1, min_i32(v1.1, v2.1));
        let mut max_x = max_i32(v0.0, max_i32(v1.0, v2.0));
        let mut max_y = max_i32(v0.1, max_i32(v1.1, v2.1));

        let ghost bx0 = min3(p0.0, p1.0, p2.0);
        let ghost by0 = min3(p0.1, p1.1, p2.1);
        let ghost bx1 = max3(p0.0, p1.0, p2.0);
        let ghost by1 = max3(p0.1, p1.1, p2.1);
        proof {
            assert(min_x as int == bx0 && min_y as int == by0 && max_x as int == bx1 && max_y
                as int == by1);
        }

        min_x = max_i32(min_x, 0);
        min_y = max_i32(min_y, 0);
        max_x = min_i32(max_x, screen_width - 1);
        max_y = min_i32(max_y, screen_height - 1);

        let p = (min_x, min_y);
        let mut w0_row = orient2d(v1, v2, p);
        let mut w1_row = orient2d(v2, v0, p);
        let mut w2_row = orient2d(v0, v1, p);

        let mut y = min_y;
        while y <= max_y
            invariant
                self.ready(*vga),
                min_y <= y,
                0 <= min_x,
                min_x <= 0x2000,
                0 <= min_y,
                max_x < self.width_spec() <= 0x2000,
                max_y < self.height_spec() <= 0x2000,
                -0x2000 <= v0.0 <= 0x2000,
                -0x2000 <= v0.1 <= 0x2000,
                -0x2000 <= v1.0 <= 0x2000,
                -0x2000 <= v1.1 <= 0x2000,
                -0x2000 <= v2.0 <= 0x2000,
                -0x2000 <= v2.1 <= 0x2000,
                p0 == (v0.0 as int, v0.1 as int),
                p1 == (v1.0 as int, v1.1 as int),
                p2 == (v2.0 as int, v2.1 as int),
                bx0 == min3(p0.0, p1.0, p2.0),
                by0 == min3(p0.1, p1.1, p2.1),
                bx1 == max3(p0.0, p1.0, p2.0),
                by1 == max3(p0.1, p1.1, p2.1),
                min_x as int == (if bx0 >= 0 {
                    bx0
                } else {
                    0
                }),
                min_y as int == (if by0 >= 0 {
                    by0
                } else {
                    0
                }),
                max_x as int == (if bx1 <= self.width_spec() - 1 {
                    bx1
                } else {
                    self.width_spec() - 1
                }),
                max_y as int == (if by1 <= self.height_spec() - 1 {
                    by1
                } else {
                    self.height_spec() - 1
                }),
                a12 == v1.1 - v2.1,
                b12 == v2.0 - v1.0,
                a20 == v2.1 - v0.1,
                b20 == v0.0 - v2.0,
                a01 == v0.1 - v1.1,
                b01 == v1.0 - v0.0,
                w0_row == orient2d_spec(p1, p2, (min_x as int, y as int)),
                w1_row == orient2d_spec(p2, p0, (min_x as int, y as int)),
                w2_row == orient2d_spec(p0, p1, (min_x as int, y as int)),
                forall|px: int, py: int|
                    #![trigger self.pixel(*vga, px, py)]
                    0 <= px < self.width_spec() && 0 <= py < self.height_spec() ==> self.pixel(
                        *vga,
                        px,
                        py,
                    ) == (if triangle_sample_painted(p0, p1, p2, (px, py)) && py < y {
                        color
                    } else {
                        self.pixel(*old(vga), px, py)
                    }),
            decreases max_y + 1 - y,
        {
            let mut w0 = w0_row;
            let mut w1 = w1_row;
            let mut w2 = w2_row;

            let mut x = min_x;
            while x <= max_x
                invariant
                    self.ready(*vga),
                    min_x <= x,
                    0 <= min_x,
                    0 <= min_y,
                    min_y <= y <= max_y,
                    max_x < self.width_spec() <= 0x2000,
                    max_y < self.height_spec() <= 0x2000,
                    -0x2000 <= v0.0 <= 0x2000,
                    -0x2000 <= v0.1 <= 0x2000,
                    -0x2000 <= v1.0 <= 0x2000,
                    -0x2000 <= v1.1 <= 0x2000,
                    -0x2000 <= v2.0 <= 0x2000,
                    -0x2000 <= v2.1 <= 0x2000,
                    p0 == (v0.0 as int, v0.1 as int),
                    p1 == (v1.0 as int, v1.1 as int),
                    p2 == (v2.0 as int, v2.1 as int),
                    bx0 == min3(p0.0, p1.0, p2.0),
                    by0 == min3(p0.1, p1.1, p2.1),
                    bx1 == max3(p0.0, p1.0, p2.0),
                    by1 == max3(p0.1, p1.1, p2.1),
                    min_x as int == (if bx0 >= 0 {
                        bx0
                    } else {
                        0
                    }),
                    min_y as int == (if by0 >= 0 {
                        by0
                    } else {
                        0
                    }),
                    max_x as int == (if bx1 <= self.width_spec() - 1 {
                        bx1
                    } else {
                        self.width_spec() - 1
                    }),
                    max_y as int == (if by1 <= self.height_spec() - 1 {
                        by1
                    } else {
                        self.height_spec() - 1
                    }),
                    a12 == v1.1 - v2.1,
                    a20 == v2.1 - v0.1,
                    a01 == v0.1 - v1.1,
                    w0 == orient2d_spec(p1, p2, (x as int, y as int)),
                    w1 == orient2d_spec(p2, p0, (x as int, y as int)),
                    w2 == orient2d_spec(p0, p1, (x as int, y as int)),
                    forall|px: int, py: int|
                        #![trigger self.pixel(*vga, px, py)]
                        0 <= px < self.width_spec() && 0 <= py < self.height_spec() ==> self.pixel(
                            *vga,
                            px,
                            py,
                        ) == (if triangle_sample_painted(p0, p1, p2, (px, py)) && (py < y || (py
                            == y && px < x)) {
                            color
                        } else {
                            self.pixel(*old(vga), px, py)
                        }),
                decreases max_x + 1 - x,
            {
                let sample_covered = (w0 | w1 | w2) >= 0;
                proof {
                    assert(((w0 | w1 | w2) >= 0) == (w0 >= 0 && w1 >= 0 && w2 >= 0))
                        by (bit_vector);
                    assert(triangle_sample_painted(p0, p1, p2, (x as int, y as int))
                        == sample_covered);
                }
                let ghost prev = *vga;
                if sample_covered {
                    self.set_pixel(vga, x as usize, y as usize, color);
                }
                proof {
                    assert forall|px: int, py: int|
                        0 <= px < self.width_spec() && 0 <= py
                            < self.height_spec() implies #[trigger] self.pixel(*vga, px, py) == (
                    if triangle_sample_painted(p0, p1, p2, (px, py)) && (py < y || (py == y && px
                        < x + 1)) {
                        color
                    } else {
                        self.pixel(*old(vga), px, py)
                    }) by {
                        assert(self.pixel(prev, px, py) == (if triangle_sample_painted(
                            p0,
                            p1,
                            p2,
                            (px, py),
                        ) && (py < y || (py == y && px < x)) {
                            color
                        } else {
                            self.pixel(*old(vga), px, py)
                        }));
                        if sample_covered {
                            assert(self.pixel(*vga, px, py) == (if px == x && py == y {
                                color
                            } else {
                                self.pixel(prev, px, py)
                            }));
                        }
                    }
                }

                proof {
                    lemma_orient2d_step_x(p1, p2, (x as int, y as int));
                    lemma_orient2d_step_x(p2, p0, (x as int, y as int));
                    lemma_orient2d_step_x(p0, p1, (x as int, y as int));
                    lemma_orient2d_bound(p1, p2, (x as int + 1, y as int));
                    lemma_orient2d_bound(p2, p0, (x as int + 1, y as int));
                    lemma_orient2d_bound(p0, p1, (x as int + 1, y as int));
                }
                w0 = w0 + a12;
                w1 = w1 + a20;
                w2 = w2 + a01;
                x = x + 1;
            }

            proof {
                lemma_orient2d_step_y(p1, p2, (min_x as int, y as int));
                lemma_orient2d_step_y(p2, p0, (min_x as int, y as int));
                lemma_orient2d_step_y(p0, p1, (min_x as int, y as int));
                lemma_orient2d_bound(p1, p2, (min_x as int, y as int + 1));
                lemma_orient2d_bound(p2, p0, (min_x as int, y as int + 1));
                lemma_orient2d_bound(p0, p1, (min_x as int, y as int + 1));
            }
            w0_row = w0_row + b12;
            w1_row = w1_row + b20;
            w2_row = w2_row + b01;
            y = y + 1;
        }
    }
}

} // verus!
