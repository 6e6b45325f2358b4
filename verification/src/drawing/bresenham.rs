//! The Bresenham line walk: both endpoints are carried into the line's
//! own octant, where the walk steps right once per point and up whenever
//! the accumulated error demands it; every produced point is carried
//! back out.

use super::octant::{
    lemma_octant_canonical, lemma_octant_round_trip, major_delta, octant_from_spec, octant_of,
    octant_to_spec, Octant, COORDINATE_LIMIT,
};
use super::{point_int, Point};
use vstd::prelude::*;

verus! {

/// The points the canonical-octant walk emits from a given state:
/// columns `x` through `end_x`, stepping the row and charging the error
/// term exactly as the hardware loop does.
pub open spec fn bres_canonical_points(
    x: int,
    y: int,
    error: int,
    end_x: int,
    dx: int,
    dy: int,
) -> Seq<(int, int)>
    decreases
            (if x <= end_x {
                end_x + 1 - x
            } else {
                0
            }),
{
    if x > end_x {
        Seq::empty()
    } else if error >= 0 {
        seq![(x, y)] + bres_canonical_points(x + 1, y + 1, error - dx + dy, end_x, dx, dy)
    } else {
        seq![(x, y)] + bres_canonical_points(x + 1, y, error + dy, end_x, dx, dy)
    }
}

/// The full point sequence of a line from `start` to `end`.
pub open spec fn bres_points(start: (int, int), end: (int, int)) -> Seq<(int, int)> {
    let v = octant_of(start, end);
    let s = octant_to_spec(v, start);
    let e = octant_to_spec(v, end);
    let dx = e.0 - s.0;
    let dy = e.1 - s.1;
    bres_canonical_points(s.0, s.1, dy - dx, e.0, dx, dy).map_values(
        |p: (int, int)| octant_from_spec(v, p),
    )
}

/// Shape of the canonical walk, from any state that the walk's own
/// error discipline can reach: one point per remaining column, the
/// first at the current position, rows never stepping by more than one,
/// and the last row landing exactly on the line's endpoint.
proof fn lemma_bres_canonical_shape(x: int, y: int, error: int, x0: int, y0: int, dx: int, dy: int)
    requires
        0 <= dy <= dx,
        x0 <= x <= x0 + dx,
        error == (x - x0) * dy - (y - y0) * dx + dy - dx,
        error >= dy - dx,
        dx >= 1 ==> error <= dy - 1,
        dx == 0 ==> error <= dy,
        dx == 0 ==> y == y0,
    ensures
        ({
            let s = bres_canonical_points(x, y, error, x0 + dx, dx, dy);
            &&& s.len() == x0 + dx + 1 - x
            &&& s[0] == (x, y)
            &&& s[s.len() - 1] == (x0 + dx, y0 + dy)
            &&& forall|k: int| 0 <= k < s.len() ==> (#[trigger] s[k]).0 == x + k
            &&& forall|k: int|
                0 < k < s.len() ==> ((#[trigger] s[k]).1 == s[k - 1].1 || s[k].1 == s[k - 1].1
                    + 1)
            &&& forall|k: int| 0 <= k < s.len() ==> y <= (#[trigger] s[k]).1 <= y0 + dy
            &&& dx == dy ==> forall|k: int|
                0 < k < s.len() ==> (#[trigger] s[k]).1 == s[k - 1].1 + 1
        }),
    decreases x0 + dx - x,
{
    if dx >= 1 {
        assert(dx * (y - y0 - dy) <= 0) by (nonlinear_arith)
            requires
                0 <= dy <= dx,
                x0 <= x <= x0 + dx,
                error == (x - x0) * dy - (y - y0) * dx + dy - dx,
                error >= dy - dx,
        ;
        assert(y - y0 - dy <= 0) by (nonlinear_arith)
            requires
                dx >= 1,
                dx * (y - y0 - dy) <= 0,
        ;
    }
    assert(y <= y0 + dy);
    let end_x = x0 + dx;
    let s = bres_canonical_points(x, y, error, end_x, dx, dy);
    if x == end_x {
        // The last column: the error bounds pin the row to the endpoint.
        if dx >= 1 {
            assert(dx * (dy - (y - y0)) >= 0 && dx * (dy - (y - y0) - 1) <= -1)
                by (nonlinear_arith)
                requires
                    x == x0 + dx,
                    error == (x - x0) * dy - (y - y0) * dx + dy - dx,
                    error >= dy - dx,
                    error <= dy - 1,
            ;
            assert(dy - (y - y0) >= 0) by (nonlinear_arith)
                requires
                    dx >= 1,
                    dx * (dy - (y - y0)) >= 0,
            ;
            assert(dy - (y - y0) - 1 < 0) by (nonlinear_arith)
                requires
                    dx >= 1,
                    dx * (dy - (y - y0) - 1) <= -1,
            ;
        }
        assert(y == y0 + dy);
        if error >= 0 {
            assert(bres_canonical_points(x + 1, y + 1, error - dx + dy, end_x, dx, dy)
                =~= Seq::<(int, int)>::empty());
        } else {
            assert(bres_canonical_points(x + 1, y, error + dy, end_x, dx, dy)
                =~= Seq::<(int, int)>::empty());
        }
        assert(s =~= seq![(x, y)]);
    } else {
        let (y2, error2) = if error >= 0 {
            ((y + 1), (error - dx + dy))
        } else {
            (y, (error + dy))
        };
        assert(error2 == (x + 1 - x0) * dy - (y2 - y0) * dx + dy - dx) by (nonlinear_arith)
            requires
                error == (x - x0) * dy - (y - y0) * dx + dy - dx,
                (error >= 0 && y2 == y + 1 && error2 == error - dx + dy) || (error < 0 && y2 == y
                    && error2 == error + dy),
        ;
        assert(error2 >= dy - dx && error2 <= dy - 1) by (nonlinear_arith)
            requires
                0 <= dy <= dx,
                dx >= 1,
                error >= dy - dx,
                error <= dy - 1,
                (error >= 0 && error2 == error - dx + dy) || (error < 0 && error2 == error + dy),
        ;
        lemma_bres_canonical_shape(x + 1, y2, error2, x0, y0, dx, dy);
        let rest = bres_canonical_points(x + 1, y2, error2, end_x, dx, dy);
        assert(s == seq![(x, y)] + rest);
        assert(s.len() == 1 + rest.len());
        assert(s[s.len() - 1] == rest[rest.len() - 1]);
        assert(forall|k: int| 0 < k < s.len() ==> s[k] == rest[k - 1]);
        assert forall|k: int| 0 <= k < s.len() implies (#[trigger] s[k]).0 == x + k by {
            if k > 0 {
                assert(rest[k - 1].0 == x + 1 + (k - 1));
            }
        }
        assert forall|k: int| #![trigger s[k]] 0 < k < s.len() implies s[k].1 == s[k - 1].1
            || s[k].1 == s[k - 1].1 + 1 by {
            if k == 1 {
                assert(s[1] == rest[0]);
                assert(rest[0] == (x + 1, y2));
            } else {
                assert(s[k] == rest[k - 1] && s[k - 1] == rest[k - 2]);
            }
        }
        assert forall|k: int| 0 <= k < s.len() implies y <= (#[trigger] s[k]).1 <= y0 + dy by {
            if k > 0 {
                assert(y2 <= rest[k - 1].1 <= y0 + dy);
            }
        }
        if dx == dy {
            // A diagonal line: the error term never goes negative, so
            // the row steps with every column.
            assert(error >= 0);
            assert(y2 == y + 1);
            assert forall|k: int| #![trigger s[k]] 0 < k < s.len() implies s[k].1 == s[k - 1].1
                + 1 by {
                if k == 1 {
                    assert(s[1] == rest[0]);
                    assert(rest[0] == (x + 1, y2));
                } else {
                    assert(s[k] == rest[k - 1] && s[k - 1] == rest[k - 2]);
                }
            }
        }
    }
}

/// How many points a line has, and that it runs from its start to its
/// end in unit steps: `major_delta + 1` points, the first the start,
/// the last the end, and consecutive points moving by exactly one along
/// one axis and at most one along the other.
#[verifier::rlimit(80)]
pub proof fn lemma_bresenham_shape(start: (int, int), end: (int, int))
    ensures
        ({
            let s = bres_points(start, end);
            &&& s.len() == major_delta(start, end) + 1
            &&& s[0] == start
            &&& s[s.len() - 1] == end
            &&& forall|k: int|
                #![trigger s[k]]
                0 < k < s.len() ==> {
                    let ex = s[k].0 - s[k - 1].0;
                    let ey = s[k].1 - s[k - 1].1;
                    (ex == 1 || ex == -1 || ey == 1 || ey == -1) && -1 <= ex <= 1 && -1 <= ey <= 1
                }
            &&& forall|k: int|
                #![trigger s[k]]
                0 <= k < s.len() ==> ({
                    let lo_x = if start.0 <= end.0 {
                        start.0
                    } else {
                        end.0
                    };
                    let hi_x = if start.0 <= end.0 {
                        end.0
                    } else {
                        start.0
                    };
                    let lo_y = if start.1 <= end.1 {
                        start.1
                    } else {
                        end.1
                    };
                    let hi_y = if start.1 <= end.1 {
                        end.1
                    } else {
                        start.1
                    };
                    lo_x <= s[k].0 <= hi_x && lo_y <= s[k].1 <= hi_y
                })
        }),
{
    let v = octant_of(start, end);
    let cs = octant_to_spec(v, start);
    let ce = octant_to_spec(v, end);
    let dx = ce.0 - cs.0;
    let dy = ce.1 - cs.1;
    lemma_octant_canonical(start, end);
    lemma_bres_canonical_shape(cs.0, cs.1, dy - dx, cs.0, cs.1, dx, dy);
    let c = bres_canonical_points(cs.0, cs.1, dy - dx, ce.0, dx, dy);
    let s = bres_points(start, end);
    assert(s.len() == c.len());
    lemma_octant_round_trip(v, start);
    lemma_octant_round_trip(v, end);
    assert(s[0] == octant_from_spec(v, c[0]));
    assert(s[s.len() - 1] == octant_from_spec(v, c[c.len() - 1]));
    assert(c[c.len() - 1] == (cs.0 + dx, cs.1 + dy));
    assert((cs.0 + dx, cs.1 + dy) == ce);
    assert forall|k: int| #![trigger s[k]] 0 < k < s.len() implies {
        let ex = s[k].0 - s[k - 1].0;
        let ey = s[k].1 - s[k - 1].1;
        (ex == 1 || ex == -1 || ey == 1 || ey == -1) && -1 <= ex <= 1 && -1 <= ey <= 1
    } by {
        assert(s[k] == octant_from_spec(v, c[k]));
        assert(s[k - 1] == octant_from_spec(v, c[k - 1]));
        assert(c[k].0 == c[k - 1].0 + 1);
        assert(c[k].1 == c[k - 1].1 || c[k].1 == c[k - 1].1 + 1);
    }
    assert forall|k: int| #![trigger s[k]] 0 <= k < s.len() implies ({
        let lo_x = if start.0 <= end.0 {
            start.0
        } else {
            end.0
        };
        let hi_x = if start.0 <= end.0 {
            end.0
        } else {
            start.0
        };
        let lo_y = if start.1 <= end.1 {
            start.1
        } else {
            end.1
        };
        let hi_y = if start.1 <= end.1 {
            end.1
        } else {
            start.1
        };
        lo_x <= s[k].0 <= hi_x && lo_y <= s[k].1 <= hi_y
    }) by {
        assert(s[k] == octant_from_spec(v, c[k]));
        assert(c[k].0 == cs.0 + k);
        assert(cs.1 <= c[k].1 <= cs.1 + dy);
        assert(octant_from_spec(v, cs) == start);
        assert(octant_from_spec(v, ce) == end);
    }
}

/// Walking a line backwards yields as many points as walking it
/// forwards, and the endpoints change places: the reversed walk starts
/// where the forward walk ended and ends where it started.  The
/// interior points of the two walks may differ by one row or column
/// where the error term breaks a tie, so this is as much symmetry as
/// the walk has.
pub proof fn lemma_bresenham_reverse_endpoints(start: (int, int), end: (int, int))
    ensures
        bres_points(end, start).len() == bres_points(start, end).len(),
        bres_points(end, start)[0] == bres_points(start, end)[bres_points(start, end).len() - 1],
        bres_points(end, start)[bres_points(end, start).len() - 1] == bres_points(start, end)[0],
{
    lemma_bresenham_shape(start, end);
    lemma_bresenham_shape(end, start);
    assert(major_delta(end, start) == major_delta(start, end));
}

/// On an axis-aligned segment the walk has no freedom: the points it
/// emits are exactly the integer points of the segment.
pub proof fn lemma_bresenham_axis_points(start: (int, int), end: (int, int))
    requires
        start.0 == end.0 || start.1 == end.1,
    ensures
        forall|p: (int, int)|
            #![trigger bres_points(start, end).contains(p)]
            bres_points(start, end).contains(p) <==> ({
                let lo_x = if start.0 <= end.0 {
                    start.0
                } else {
                    end.0
                };
                let hi_x = if start.0 <= end.0 {
                    end.0
                } else {
                    start.0
                };
                let lo_y = if start.1 <= end.1 {
                    start.1
                } else {
                    end.1
                };
                let hi_y = if start.1 <= end.1 {
                    end.1
                } else {
                    start.1
                };
                lo_x <= p.0 <= hi_x && lo_y <= p.1 <= hi_y
            }),
{
    let v = octant_of(start, end);
    let cs = octant_to_spec(v, start);
    let ce = octant_to_spec(v, end);
    let dx = ce.0 - cs.0;
    let dy = ce.1 - cs.1;
    lemma_octant_canonical(start, end);
    assert(dy == 0);
    lemma_bres_canonical_shape(cs.0, cs.1, dy - dx, cs.0, cs.1, dx, dy);
    let c = bres_canonical_points(cs.0, cs.1, dy - dx, ce.0, dx, dy);
    let s = bres_points(start, end);
    lemma_octant_round_trip(v, start);
    lemma_octant_round_trip(v, end);
    assert forall|p: (int, int)|
        #![trigger bres_points(start, end).contains(p)]
        bres_points(start, end).contains(p) <==> ({
            let lo_x = if start.0 <= end.0 {
                start.0
            } else {
                end.0
            };
            let hi_x = if start.0 <= end.0 {
                end.0
            } else {
                start.0
            };
            let lo_y = if start.1 <= end.1 {
                start.1
            } else {
                end.1
            };
            let hi_y = if start.1 <= end.1 {
                end.1
            } else {
                start.1
            };
            lo_x <= p.0 <= hi_x && lo_y <= p.1 <= hi_y
        }) by {
        // Every emitted point lies on the segment: the canonical row is
        // pinned, so each point is the image of one canonical column.
        if s.contains(p) {
            let k = choose|k: int| 0 <= k < s.len() && s[k] == p;
            assert(c[k].0 == cs.0 + k && c[k].1 == cs.1);
            assert(s[k] == octant_from_spec(v, c[k]));
            assert(octant_from_spec(v, cs) == start);
            assert(octant_from_spec(v, (cs.0 + dx, cs.1)) == end);
        }
        // Every point of the segment is emitted: its canonical image
        // names the column the walk reaches it at.
        let q = octant_to_spec(v, p);
        let k = q.0 - cs.0;
        lemma_octant_round_trip(v, p);
        if ({
            let lo_x = if start.0 <= end.0 {
                start.0
            } else {
                end.0
            };
            let hi_x = if start.0 <= end.0 {
                end.0
            } else {
                start.0
            };
            let lo_y = if start.1 <= end.1 {
                start.1
            } else {
                end.1
            };
            let hi_y = if start.1 <= end.1 {
                end.1
            } else {
                start.1
            };
            lo_x <= p.0 <= hi_x && lo_y <= p.1 <= hi_y
        }) {
            assert(0 <= k < s.len() && q.1 == cs.1);
            assert(c[k] == (cs.0 + k, cs.1));
            assert(s[k] == octant_from_spec(v, c[k]));
            assert(s[k] == p);
            assert(s.contains(p));
        }
    }
}

/// Every step of the walk points toward the end: along each axis a
/// consecutive pair of points differs by zero or one in the end's
/// direction, never away from it, and along the dominant axis (the one
/// with the larger absolute delta) by exactly one.
pub proof fn lemma_bresenham_steps_toward_end(start: (int, int), end: (int, int))
    ensures
        ({
            let s = bres_points(start, end);
            let ax = if end.0 >= start.0 {
                end.0 - start.0
            } else {
                start.0 - end.0
            };
            let ay = if end.1 >= start.1 {
                end.1 - start.1
            } else {
                start.1 - end.1
            };
            forall|k: int|
                #![trigger s[k]]
                0 < k < s.len() ==> {
                    let sx = s[k].0 - s[k - 1].0;
                    let sy = s[k].1 - s[k - 1].1;
                    &&& (if start.0 <= end.0 {
                        sx == 0 || sx == 1
                    } else {
                        sx == 0 || sx == -1
                    })
                    &&& (if start.1 <= end.1 {
                        sy == 0 || sy == 1
                    } else {
                        sy == 0 || sy == -1
                    })
                    &&& (ax >= ay ==> sx == (if start.0 < end.0 {
                        1int
                    } else {
                        -1int
                    }))
                    &&& (ay >= ax ==> sy == (if start.1 < end.1 {
                        1int
                    } else {
                        -1int
                    }))
                }
        }),
{
    let v = octant_of(start, end);
    let cs = octant_to_spec(v, start);
    let ce = octant_to_spec(v, end);
    let dx = ce.0 - cs.0;
    let dy = ce.1 - cs.1;
    lemma_octant_canonical(start, end);
    lemma_bres_canonical_shape(cs.0, cs.1, dy - dx, cs.0, cs.1, dx, dy);
    let c = bres_canonical_points(cs.0, cs.1, dy - dx, ce.0, dx, dy);
    let s = bres_points(start, end);
    let ax = if end.0 >= start.0 {
        end.0 - start.0
    } else {
        start.0 - end.0
    };
    let ay = if end.1 >= start.1 {
        end.1 - start.1
    } else {
        start.1 - end.1
    };
    assert forall|k: int| #![trigger s[k]] 0 < k < s.len() implies {
        let sx = s[k].0 - s[k - 1].0;
        let sy = s[k].1 - s[k - 1].1;
        &&& (if start.0 <= end.0 {
            sx == 0 || sx == 1
        } else {
            sx == 0 || sx == -1
        })
        &&& (if start.1 <= end.1 {
            sy == 0 || sy == 1
        } else {
            sy == 0 || sy == -1
        })
        &&& (ax >= ay ==> sx == (if start.0 < end.0 {
            1int
        } else {
            -1int
        }))
        &&& (ay >= ax ==> sy == (if start.1 < end.1 {
            1int
        } else {
            -1int
        }))
    } by {
        assert(s[k] == octant_from_spec(v, c[k]));
        assert(s[k - 1] == octant_from_spec(v, c[k - 1]));
        assert(c[k].0 == cs.0 + k && c[k - 1].0 == cs.0 + k - 1);
        assert(c[k].1 == c[k - 1].1 || c[k].1 == c[k - 1].1 + 1);
        if dx == dy {
            assert(c[k].1 == c[k - 1].1 + 1);
        }
    }
}

/// A Bresenham walk in progress, fixed to the line's own octant.
#[derive(Debug)]
pub struct Bresenham {
    /// Current position, in octant space.
    pub point: Point<isize>,
    /// Last column to emit, in octant space.
    pub end_x: isize,
    /// The canonical horizontal delta of the line.
    pub delta_x: isize,
    /// The canonical vertical delta of the line.
    pub delta_y: isize,
    /// The accumulated error term.
    pub error: isize,
    /// The octant the walk runs in.
    pub octant: Octant,
}

impl Bresenham {
    /// The state stays within the ranges the walk itself can reach, so
    /// every step's arithmetic fits a machine integer.
    pub open spec fn wf(&self) -> bool {
        &&& self.octant.value < 8
        &&& 0 <= self.delta_y <= self.delta_x <= 2 * COORDINATE_LIMIT
        &&& -COORDINATE_LIMIT <= self.end_x <= COORDINATE_LIMIT
        &&& self.end_x - self.delta_x <= self.point.0 <= self.end_x + 1
        &&& -COORDINATE_LIMIT <= self.point.1
        &&& self.point.1 + (self.end_x + 1 - self.point.0) <= 4 * COORDINATE_LIMIT
        &&& self.delta_y - self.delta_x <= self.error <= self.delta_y
    }

    /// The points still to be emitted.
    pub open spec fn remaining(&self) -> Seq<(int, int)> {
        bres_canonical_points(
            self.point.0 as int,
            self.point.1 as int,
            self.error as int,
            self.end_x as int,
            self.delta_x as int,
            self.delta_y as int,
        ).map_values(|p: (int, int)| octant_from_spec(self.octant.value, p))
    }

    /// Starts a walk from `start` to `end`: picks the octant, carries
    /// both endpoints into it, and seeds the error term.
    pub fn new(start: Point<isize>, end: Point<isize>) -> (r: Bresenham)
        requires
            -COORDINATE_LIMIT <= start.0 <= COORDINATE_LIMIT,
            -COORDINATE_LIMIT <= start.1 <= COORDINATE_LIMIT,
            -COORDINATE_LIMIT <= end.0 <= COORDINATE_LIMIT,
            -COORDINATE_LIMIT <= end.1 <= COORDINATE_LIMIT,
        ensures
            r.wf(),
            r.remaining() == bres_points(point_int(start), point_int(end)),
    {
        proof {
            lemma_octant_canonical(point_int(start), point_int(end));
        }
        let octant = Octant::new(start, end);
        let start_c = octant.to(start);
        let end_c = octant.to(end);

        let delta_x = end_c.0 - start_c.0;
        let delta_y = end_c.1 - start_c.1;

        Bresenham {
            delta_x,
            delta_y,
            octant,
            point: start_c,
            end_x: end_c.0,
            error: delta_y - delta_x,
        }
    }

    /// Whether the walk has emitted its last point.
    pub fn is_done(&self) -> (r: bool)
        ensures
            r == (self.remaining().len() == 0),
    {
        self.point.0 > self.end_x
    }

    /// Emits the next point of the line, or `None` once the line is
    /// done.  Each call pops the front of `remaining`.
    pub fn next(&mut self) -> (r: Option<Point<isize>>)
        requires
            old(self).wf(),
        ensures
            final(self).wf(),
            final(self).octant == old(self).octant,
            final(self).delta_x == old(self).delta_x,
            final(self).delta_y == old(self).delta_y,
            final(self).end_x == old(self).end_x,
            old(self).remaining().len() == 0 ==> r is None && *final(self) == *old(self),
            old(self).remaining().len() > 0 ==> (r matches Some(p) && point_int(p) == old(
                self,
            ).remaining()[0]) && final(self).remaining() == old(self).remaining().drop_first(),
    {
        if self.point.0 <= self.end_x {
            let point = self.octant.from(self.point);

            if self.error >= 0 {
                self.point.1 = self.point.1 + 1;
                self.error = self.error - self.delta_x;
            }

            self.point.0 = self.point.0 + 1;
            self.error = self.error + self.delta_y;

            proof {
                let oldc = bres_canonical_points(
                    old(self).point.0 as int,
                    old(self).point.1 as int,
                    old(self).error as int,
                    old(self).end_x as int,
                    old(self).delta_x as int,
                    old(self).delta_y as int,
                );
                let newc = bres_canonical_points(
                    self.point.0 as int,
                    self.point.1 as int,
                    self.error as int,
                    self.end_x as int,
                    self.delta_x as int,
                    self.delta_y as int,
                );
                assert(oldc == seq![
                    (old(self).point.0 as int, old(self).point.1 as int),
                ] + newc);
                assert(oldc.drop_first() =~= newc);
                assert(self.remaining() =~= old(self).remaining().drop_first());
                assert(old(self).remaining()[0] == octant_from_spec(
                    old(self).octant.value,
                    (old(self).point.0 as int, old(self).point.1 as int),
                ));
            }
            Some(point)
        } else {
            proof {
                assert(old(self).remaining().len() == 0);
            }
            None
        }
    }
}

} // verus!
