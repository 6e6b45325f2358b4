//! The Bresenham walk: exact point sequences, the point-count law on
//! samples, and endpoint symmetry under reversal.

use vga::drawing::Bresenham;

fn collect(start: (isize, isize), end: (isize, isize)) -> Vec<(isize, isize)> {
    let mut walk = Bresenham::new(start, end);
    let mut points = Vec::new();
    while let Some(p) = walk.next() {
        points.push(p);
    }
    points
}

#[test]
fn line_from_origin_to_5_3() {
    // The hardware-standard octant-0 sequence: the row steps up when
    // the accumulated error crosses zero, after the point is emitted.
    let points = collect((0, 0), (5, 3));
    assert_eq!(points, vec![(0, 0), (1, 0), (2, 1), (3, 1), (4, 2), (5, 3)]);
}

#[test]
fn point_count_is_major_delta_plus_one() {
    let cases: [((isize, isize), (isize, isize)); 6] = [
        ((0, 0), (5, 3)),
        ((10, 10), (10, 10)),
        ((3, 7), (-4, 9)),
        ((0, 0), (0, -6)),
        ((-5, -5), (5, 5)),
        ((100, 2), (0, 1)),
    ];
    for ((sx, sy), (ex, ey)) in cases {
        let points = collect((sx, sy), (ex, ey));
        let dx = (ex - sx).abs();
        let dy = (ey - sy).abs();
        let major = if dx >= dy { dx } else { dy };
        assert_eq!(points.len() as isize, major + 1);
        assert_eq!(points[0], (sx, sy));
        assert_eq!(points[points.len() - 1], (ex, ey));
        for k in 1..points.len() {
            let step_x = (points[k].0 - points[k - 1].0).abs();
            let step_y = (points[k].1 - points[k - 1].1).abs();
            assert!(step_x == 1 || step_y == 1);
            assert!(step_x <= 1 && step_y <= 1);
        }
    }
}

#[test]
fn reversal_swaps_endpoints_and_keeps_length() {
    let cases: [((isize, isize), (isize, isize)); 4] = [
        ((0, 0), (5, 3)),
        ((2, 9), (-3, -1)),
        ((0, 0), (7, 7)),
        ((4, 0), (0, 0)),
    ];
    for (start, end) in cases {
        let forward = collect(start, end);
        let backward = collect(end, start);
        assert_eq!(forward.len(), backward.len());
        assert_eq!(backward[0], forward[forward.len() - 1]);
        assert_eq!(backward[backward.len() - 1], forward[0]);
    }
}

#[test]
fn exact_reversal_holds_for_straight_and_diagonal_lines() {
    let cases: [((isize, isize), (isize, isize)); 3] = [
        ((0, 0), (6, 0)),
        ((2, -3), (2, 4)),
        ((1, 1), (5, 5)),
    ];
    for (start, end) in cases {
        let forward = collect(start, end);
        let mut backward = collect(end, start);
        backward.reverse();
        assert_eq!(forward, backward);
    }
}

#[test]
fn single_point_line() {
    let points = collect((7, -2), (7, -2));
    assert_eq!(points, vec![(7, -2)]);
}

#[test]
fn walk_reports_done_and_stays_done() {
    let mut walk = Bresenham::new((0, 0), (1, 0));
    assert!(!walk.is_done());
    assert_eq!(walk.next(), Some((0, 0)));
    assert_eq!(walk.next(), Some((1, 0)));
    assert!(walk.is_done());
    assert_eq!(walk.next(), None);
    assert_eq!(walk.next(), None);
}
