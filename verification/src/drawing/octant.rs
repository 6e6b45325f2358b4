//! Octant transforms: the 2D plane is split into eight sectors so the
//! Bresenham walk only ever handles the canonical one, where the line
//! runs rightward with a shallow upward slope.

use super::{point_int, Point};
use vstd::prelude::*;

verus! {

/// Coordinates handed to the octant and line functions stay below this
/// bound, so the transforms never overflow a machine integer.
pub const COORDINATE_LIMIT: isize = 0x100_0000;

/// Which octant a line from `start` to `end` falls in: fold the lower
/// half-plane up, then the left half-plane right, then steep slopes
/// onto shallow ones.
pub open spec fn octant_of(start: (int, int), end: (int, int)) -> u8 {
    let dx = end.0 - start.0;
    let dy = end.1 - start.1;
    let fold1: (int, int, int) = if dy < 0 {
        (-dx, -dy, 4)
    } else {
        (dx, dy, 0)
    };
    let fold2: (int, int, int) = if fold1.0 < 0 {
        (fold1.1, -fold1.0, fold1.2 + 2)
    } else {
        fold1
    };
    if fold2.0 < fold2.1 {
        (fold2.2 + 1) as u8
    } else {
        fold2.2 as u8
    }
}

/// A point carried into octant `value`.
pub open spec fn octant_to_spec(value: u8, p: (int, int)) -> (int, int) {
    if value == 0 {
        (p.0, p.1)
    } else if value == 1 {
        (p.1, p.0)
    } else if value == 2 {
        (p.1, -p.0)
    } else if value == 3 {
        (-p.0, p.1)
    } else if value == 4 {
        (-p.0, -p.1)
    } else if value == 5 {
        (-p.1, -p.0)
    } else if value == 6 {
        (-p.1, p.0)
    } else {
        (p.0, -p.1)
    }
}

/// A point carried back out of octant `value`.
pub open spec fn octant_from_spec(value: u8, p: (int, int)) -> (int, int) {
    if value == 0 {
        (p.0, p.1)
    } else if value == 1 {
        (p.1, p.0)
    } else if value == 2 {
        (-p.1, p.0)
    } else if value == 3 {
        (-p.0, p.1)
    } else if value == 4 {
        (-p.0, -p.1)
    } else if value == 5 {
        (-p.1, -p.0)
    } else if value == 6 {
        (p.1, -p.0)
    } else {
        (p.0, -p.1)
    }
}

/// Carrying a point into an octant and back out returns it unchanged.
pub proof fn lemma_octant_round_trip(value: u8, p: (int, int))
    ensures
        octant_from_spec(value, octant_to_spec(value, p)) == p,
{
}

/// The larger of the two absolute deltas of a line.
pub open spec fn major_delta(start: (int, int), end: (int, int)) -> int {
    let ax = if end.0 >= start.0 {
        end.0 - start.0
    } else {
        start.0 - end.0
    };
    let ay = if end.1 >= start.1 {
        end.1 - start.1
    } else {
        start.1 - end.1
    };
    if ax >= ay {
        ax
    } else {
        ay
    }
}

/// The smaller of the two absolute deltas of a line.
pub open spec fn minor_delta(start: (int, int), end: (int, int)) -> int {
    let ax = if end.0 >= start.0 {
        end.0 - start.0
    } else {
        start.0 - end.0
    };
    let ay = if end.1 >= start.1 {
        end.1 - start.1
    } else {
        start.1 - end.1
    };
    if ax >= ay {
        ay
    } else {
        ax
    }
}

/// In its own octant every line is canonical: it runs rightward by the
/// larger absolute delta and upward by the smaller one.
pub proof fn lemma_octant_canonical(start: (int, int), end: (int, int))
    ensures
        octant_of(start, end) < 8,
        octant_to_spec(octant_of(start, end), end).0 - octant_to_spec(
            octant_of(start, end),
            start,
        ).0 == major_delta(start, end),
        octant_to_spec(octant_of(start, end), end).1 - octant_to_spec(
            octant_of(start, end),
            start,
        ).1 == minor_delta(start, end),
        minor_delta(start, end) >= 0,
        minor_delta(start, end) <= major_delta(start, end),
{
}

/// An octant of the plane, as picked for a line by `Octant::new`.
#[derive(Debug, Copy, Clone, PartialEq, Eq, Structural)]
pub struct Octant {
    /// The octant number, 0 through 7.
    pub value: u8,
}

impl Octant {
    /// The octant a line from `start` to `end` falls in.
    pub fn new(start: Point<isize>, end: Point<isize>) -> (r: Octant)
        requires
            -COORDINATE_LIMIT <= start.0 <= COORDINATE_LIMIT,
            -COORDINATE_LIMIT <= start.1 <= COORDINATE_LIMIT,
            -COORDINATE_LIMIT <= end.0 <= COORDINATE_LIMIT,
            -COORDINATE_LIMIT <= end.1 <= COORDINATE_LIMIT,
        ensures
            r.value == octant_of(point_int(start), point_int(end)),
            r.value < 8,
    {
        let mut value: u8 = 0;
        let mut dx = end.0 - start.0;
        let mut dy = end.1 - start.1;

        if dy < 0 {
            dx = -dx;
            dy = -dy;
            value += 4;
        }

        if dx < 0 {
            let tmp = dx;
            dx = dy;
            dy = -tmp;
            value += 2;
        }

        if dx < dy {
            value += 1;
        }

        Octant { value }
    }

    /// Carries a point into this octant.
    pub fn to(&self, point: Point<isize>) -> (r: Point<isize>)
        requires
            -COORDINATE_LIMIT <= point.0 <= COORDINATE_LIMIT,
            -COORDINATE_LIMIT <= point.1 <= COORDINATE_LIMIT,
        ensures
            point_int(r) == octant_to_spec(self.value, point_int(point)),
            -COORDINATE_LIMIT <= r.0 <= COORDINATE_LIMIT,
            -COORDINATE_LIMIT <= r.1 <= COORDINATE_LIMIT,
    {
        match self.value {
            0 => (point.0, point.1),
            1 => (point.1, point.0),
            2 => (point.1, -point.0),
            3 => (-point.0, point.1),
            4 => (-point.0, -point.1),
            5 => (-point.1, -point.0),
            6 => (-point.1, point.0),
            _ => (point.0, -point.1),
        }
    }

    /// Carries a point out of this octant.
    pub fn from(&self, point: Point<isize>) -> (r: Point<isize>)
        requires
            -0x4000_0000 <= point.0 <= 0x4000_0000,
            -0x4000_0000 <= point.1 <= 0x4000_0000,
        ensures
            point_int(r) == octant_from_spec(self.value, point_int(point)),
    {
        match self.value {
            0 => (point.0, point.1),
            1 => (point.1, point.0),
            2 => (-point.1, point.0),
            3 => (-point.0, point.1),
            4 => (-point.0, -point.1),
            5 => (-point.1, -point.0),
            6 => (point.1, -point.0),
            _ => (point.0, -point.1),
        }
    }
}

} // verus!
