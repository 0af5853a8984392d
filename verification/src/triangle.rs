//! Where the corners of the triangle lie in a window that is drawn with
//! GDI or GDI+.

use vstd::prelude::*;

verus! {

/// A point in window coordinates.
#[derive(Clone, Copy, Debug, PartialEq, Eq, Structural)]
pub struct Point {
    pub x: i32,
    pub y: i32,
}

/// The quotient of `a` by a positive `b`, rounded toward zero.
pub open spec fn toward_zero(a: int, b: int) -> int {
    if a >= 0 {
        a / b
    } else {
        -((-a) / b)
    }
}

/// The corners of the triangle in a window of the given size: the top
/// corner in the middle, a quarter of the height down, and the two lower
/// corners a quarter of the width in from either side, three quarters of
/// the height down.
pub open spec fn corners(width: int, height: int) -> Seq<Point> {
    seq![
        Point { x: toward_zero(width, 2) as i32, y: toward_zero(height, 4) as i32 },
        Point { x: toward_zero(width * 3, 4) as i32, y: toward_zero(height * 3, 4) as i32 },
        Point { x: toward_zero(width, 4) as i32, y: toward_zero(height * 3, 4) as i32 },
    ]
}

/// The corners of the triangle, in the order top, lower right, lower
/// left.
pub fn triangle_points(width: i32, height: i32) -> (points: [Point; 3])
    requires
        i32::MIN <= width * 3 <= i32::MAX,
        i32::MIN <= height * 3 <= i32::MAX,
    ensures
        points@ == corners(width as int, height as int),
{
    let points = [
        Point { x: width / 2, y: height / 4 },
        Point { x: width * 3 / 4, y: height * 3 / 4 },
        Point { x: width / 4, y: height * 3 / 4 },
    ];
    assert(points@ =~= corners(width as int, height as int));
    points
}

} // verus!
