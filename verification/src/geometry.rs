//! Pixel rectangles, the point-in-rectangle test, and rounding of a quotient
//! to the nearest whole pixel.

use vstd::prelude::*;

verus! {

/// Largest coordinate or extent that a rectangle keeps unchanged.
pub const MAX_EXTENT: i32 = 1073741823;

/// Smallest coordinate that a rectangle keeps unchanged.
pub const MIN_POSITION: i32 = -1073741824;

/// A coordinate pulled into `MIN_POSITION..=MAX_EXTENT`.
pub open spec fn clamped_position(v: int) -> int {
    if v > MAX_EXTENT {
        MAX_EXTENT as int
    } else if v < MIN_POSITION {
        MIN_POSITION as int
    } else {
        v
    }
}

/// An extent pulled into `1..=MAX_EXTENT`: a rectangle is never empty.
pub open spec fn clamped_size(v: int) -> int {
    if v == 0 {
        1
    } else if v > MAX_EXTENT {
        MAX_EXTENT as int
    } else {
        v
    }
}

/// The whole number nearest to `num / den`, a half rounded up.
pub open spec fn nearest(num: int, den: int) -> int {
    (2 * num + den) / (2 * den)
}

/// Pulls a coordinate into the range that rectangles and points accept.
pub fn clamp_position(v: i32) -> (c: i32)
    ensures
        c == clamped_position(v as int),
{
    if v > MAX_EXTENT {
        MAX_EXTENT
    } else if v < MIN_POSITION {
        MIN_POSITION
    } else {
        v
    }
}

/// Pulls an extent into the range that rectangles accept; zero becomes one.
pub fn clamp_size(v: u32) -> (c: u32)
    ensures
        c == clamped_size(v as int),
{
    if v == 0 {
        1
    } else if v > MAX_EXTENT as u32 {
        MAX_EXTENT as u32
    } else {
        v
    }
}

/// Divides and rounds to the nearest whole number, a half rounded up.
pub fn round_div(num: u32, den: u32) -> (q: u32)
    requires
        den > 0,
    ensures
        q == nearest(num as int, den as int),
{
    let twice: u64 = 2 * (num as u64) + den as u64;
    let by: u64 = 2 * (den as u64);
    let q: u64 = twice / by;
    assert(q <= num) by (nonlinear_arith)
        requires
            q == (2 * num + den) / (2 * den),
            den > 0,
            num >= 0,
    ;
    q as u32
}

/// An axis-aligned, non-empty rectangle in pixel space, its origin at the
/// upper left.
#[derive(Clone, Copy, Debug, PartialEq, Eq, Structural)]
pub struct Rect {
    pub x: i32,
    pub y: i32,
    pub width: u32,
    pub height: u32,
}

impl Rect {
    /// Every field lies in the range that clamping leaves unchanged.
    pub open spec fn wf(&self) -> bool {
        &&& MIN_POSITION <= self.x <= MAX_EXTENT
        &&& MIN_POSITION <= self.y <= MAX_EXTENT
        &&& 1 <= self.width <= MAX_EXTENT
        &&& 1 <= self.height <= MAX_EXTENT
    }

    /// The pixel `(px, py)` lies inside: the left and top edges belong to the
    /// rectangle, the right and bottom edges do not.
    pub open spec fn contains(&self, px: int, py: int) -> bool {
        &&& self.x <= px < self.x + self.width
        &&& self.y <= py < self.y + self.height
    }

    /// A rectangle from its origin and extents, each of them clamped.
    pub fn new(x: i32, y: i32, width: u32, height: u32) -> (r: Rect)
        ensures
            r.wf(),
            r.x == clamped_position(x as int),
            r.y == clamped_position(y as int),
            r.width == clamped_size(width as int),
            r.height == clamped_size(height as int),
    {
        Rect {
            x: clamp_position(x),
            y: clamp_position(y),
            width: clamp_size(width),
            height: clamp_size(height),
        }
    }

    /// The x-coordinate of the first pixel column right of the rectangle.
    pub fn right(&self) -> (r: i64)
        ensures
            r == self.x + self.width,
    {
        self.x as i64 + self.width as i64
    }

    /// The y-coordinate of the first pixel row below the rectangle.
    pub fn bottom(&self) -> (b: i64)
        ensures
            b == self.y + self.height,
    {
        self.y as i64 + self.height as i64
    }

    /// Whether the rectangle contains the point `(x, y)`, whose coordinates
    /// are clamped as a rectangle's origin is.
    pub fn contains_point(&self, x: i32, y: i32) -> (inside: bool)
        ensures
            inside == self.contains(clamped_position(x as int), clamped_position(y as int)),
    {
        let px: i64 = clamp_position(x) as i64;
        let py: i64 = clamp_position(y) as i64;
        let inside_x: bool = px >= self.x as i64 && px < self.right();
        inside_x && (py >= self.y as i64 && py < self.bottom())
    }
}

} // verus!
