//! Octants, rectangles and the triangle edge function.

use vga::drawing::device::orient2d;
use vga::drawing::{Octant, Rectangle};
use vga::registers::{PlaneMask, ReadPlane};

#[test]
fn octant_round_trip() {
    let points: [(isize, isize); 4] = [(3, 5), (-2, 7), (0, 0), (9, -4)];
    let lines: [((isize, isize), (isize, isize)); 4] = [
        ((0, 0), (5, 3)),
        ((0, 0), (3, 5)),
        ((0, 0), (-5, 3)),
        ((2, 2), (1, -7)),
    ];
    for (start, end) in lines {
        let octant = Octant::new(start, end);
        for p in points {
            assert_eq!(octant.from(octant.to(p)), p);
        }
    }
}

#[test]
fn octant_canonicalizes_the_line() {
    let lines: [((isize, isize), (isize, isize)); 5] = [
        ((0, 0), (5, 3)),
        ((0, 0), (3, 5)),
        ((4, 4), (-5, 3)),
        ((2, 2), (1, -7)),
        ((0, 0), (-4, -4)),
    ];
    for (start, end) in lines {
        let octant = Octant::new(start, end);
        let s = octant.to(start);
        let e = octant.to(end);
        let dx = e.0 - s.0;
        let dy = e.1 - s.1;
        assert!(0 <= dy && dy <= dx);
    }
}

#[test]
fn rectangle_edges() {
    let r = Rectangle::new(10, 20, 30, 40);
    assert_eq!(r.right(), 40);
    assert_eq!(r.bottom(), 60);
    assert_eq!(r.x, 10);
    assert_eq!(r.height, 40);
}

#[test]
fn orient2d_signs_and_value() {
    // Counter-clockwise triangle: positive area.
    assert_eq!(orient2d((0, 0), (4, 0), (0, 4)), 16);
    // Clockwise: negative.
    assert_eq!(orient2d((0, 0), (0, 4), (4, 0)), -16);
    // Collinear: zero.
    assert_eq!(orient2d((0, 0), (2, 2), (5, 5)), 0);
}

#[test]
fn plane_selectors_reject_high_numbers() {
    assert!(ReadPlane::try_from(3).is_ok());
    assert!(ReadPlane::try_from(4).is_err());
    assert_eq!(PlaneMask::try_from(2).unwrap().bits, 4);
    assert!(PlaneMask::try_from(4).is_err());
    assert!(PlaneMask::from_bits(0x0F).is_some());
    assert!(PlaneMask::from_bits(0x10).is_none());
}
