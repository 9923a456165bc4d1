//! Integer canvas geometry: positions and the inclusive proximity test used by the eraser.

use vstd::prelude::*;

verus! {

/// A position on the canvas, in whole canvas units (logical pixels of the overlay window).
#[derive(Clone, Copy, Debug, PartialEq, Eq, Structural)]
pub struct Point {
    pub x: i32,
    pub y: i32,
}

/// Squared Euclidean distance between two positions.
pub open spec fn dist_sq(a: Point, b: Point) -> int {
    (a.x - b.x) * (a.x - b.x) + (a.y - b.y) * (a.y - b.y)
}

/// Whether `p` lies within Euclidean distance `radius` of `center`, the rim included.
///
/// Both sides of `sqrt(dist_sq) <= radius` are non-negative, so comparing the squares is the
/// same statement without a square root.
pub open spec fn within(p: Point, center: Point, radius: u32) -> bool {
    dist_sq(p, center) <= radius * radius
}

/// Whether some position of `points` lies within `radius` of `center`.
pub open spec fn any_within(points: Seq<Point>, center: Point, radius: u32) -> bool {
    exists|i: int| 0 <= i < points.len() && within(#[trigger] points[i], center, radius)
}

impl Point {
    pub fn new(x: i32, y: i32) -> (p: Point)
        ensures
            p == (Point { x, y }),
    {
        Point { x, y }
    }

    /// Decides `within(self, center, radius)` in 128-bit arithmetic, which cannot overflow for
    /// 32-bit coordinates.
    pub fn is_within(&self, center: Point, radius: u32) -> (hit: bool)
        ensures
            hit == within(*self, center, radius),
    {
        let dx: i128 = self.x as i128 - center.x as i128;
        let dy: i128 = self.y as i128 - center.y as i128;
        let r: i128 = radius as i128;
        assert(dx * dx <= 0x1_0000_0000_0000_0000 && dx * dx >= 0) by (nonlinear_arith)
            requires
                -0x1_0000_0000 <= dx <= 0x1_0000_0000,
        ;
        assert(dy * dy <= 0x1_0000_0000_0000_0000 && dy * dy >= 0) by (nonlinear_arith)
            requires
                -0x1_0000_0000 <= dy <= 0x1_0000_0000,
        ;
        assert(r * r <= 0x1_0000_0000_0000_0000 && r * r >= 0) by (nonlinear_arith)
            requires
                0 <= r <= 0x1_0000_0000,
        ;
        dx * dx + dy * dy <= r * r
    }
}

/// Whether any position of `points` lies within `radius` of `center`.
pub fn any_point_within(points: &Vec<Point>, center: Point, radius: u32) -> (hit: bool)
    ensures
        hit == any_within(points@, center, radius),
{
    let mut i: usize = 0;
    while i < points.len()
        invariant
            i <= points.len(),
            forall|j: int| 0 <= j < i ==> !within(#[trigger] points@[j], center, radius),
        decreases points.len() - i,
    {
        if points[i].is_within(center, radius) {
            return true;
        }
        i += 1;
    }
    false
}

/// Copies a list of positions.
pub fn copy_points(points: &Vec<Point>) -> (copy: Vec<Point>)
    ensures
        copy@ == points@,
{
    let mut copy: Vec<Point> = Vec::new();
    let mut i: usize = 0;
    while i < points.len()
        invariant
            i <= points.len(),
            copy@ == points@.take(i as int),
        decreases points.len() - i,
    {
        copy.push(points[i]);
        i += 1;
    }
    copy
}

} // verus!
