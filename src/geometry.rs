//! Points, sizes and rectangles, and the integer arithmetic the viewport uses.
use vstd::prelude::*;
use vstd::arithmetic::div_mod::lemma_fundamental_div_mod;
use vstd::arithmetic::div_mod::lemma_fundamental_div_mod_converse;

verus! {

/// The largest magnitude a stored coordinate or a viewport extent may have.
/// Positions that would leave this range saturate at its edge.
pub const COORD_LIMIT: i64 = 0x100_0000_0000;

/// A point or a displacement, in screen or world units.
#[derive(Clone, Copy, Debug, PartialEq, Eq, Structural)]
pub struct Point {
    pub x: i64,
    pub y: i64,
}

/// The extent of a viewport, in screen units.
#[derive(Clone, Copy, Debug, PartialEq, Eq, Structural)]
pub struct Size {
    pub width: i64,
    pub height: i64,
}

/// An axis-aligned rectangle given by its top-left corner and its extent.
#[derive(Clone, Copy, Debug, PartialEq, Eq, Structural)]
pub struct Rect {
    pub x: i64,
    pub y: i64,
    pub width: i64,
    pub height: i64,
}

/// Whether `v` lies within the stored-coordinate range.
pub open spec fn in_coord_range(v: int) -> bool {
    -COORD_LIMIT <= v <= COORD_LIMIT
}

/// `v` moved to the nearest value of the stored-coordinate range.
pub open spec fn clamp_coord(v: int) -> int {
    if v < -COORD_LIMIT {
        -COORD_LIMIT as int
    } else if v > COORD_LIMIT {
        COORD_LIMIT as int
    } else {
        v
    }
}

impl Point {
    pub open spec fn wf(self) -> bool {
        in_coord_range(self.x as int) && in_coord_range(self.y as int)
    }

    pub fn new(x: i64, y: i64) -> (r: Point)
        ensures
            r.x == x,
            r.y == y,
    {
        Point { x, y }
    }
}

impl Size {
    /// Both extents are non-negative and within the coordinate range.
    pub open spec fn wf(self) -> bool {
        0 <= self.width <= COORD_LIMIT && 0 <= self.height <= COORD_LIMIT
    }

    pub fn new(width: i64, height: i64) -> (r: Size)
        ensures
            r.width == width,
            r.height == height,
    {
        Size { width, height }
    }
}

impl Rect {
    /// A viewport rectangle: its corner in range and its extent a valid size.
    pub open spec fn wf(self) -> bool {
        in_coord_range(self.x as int) && in_coord_range(self.y as int) && self.size().wf()
    }

    pub open spec fn size(self) -> Size {
        Size { width: self.width, height: self.height }
    }

    /// Containment, inclusive of all four edges.
    pub open spec fn contains_spec(self, p: Point) -> bool {
        self.x <= p.x <= self.x + self.width && self.y <= p.y <= self.y + self.height
    }

    /// Half-open containment: the left and top edges count, the right and
    /// bottom ones do not, so a rectangle of zero or negative extent covers
    /// no point.
    pub open spec fn covers_spec(self, p: Point) -> bool {
        self.x <= p.x < self.x + self.width && self.y <= p.y < self.y + self.height
    }

    pub fn new(x: i64, y: i64, width: i64, height: i64) -> (r: Rect)
        ensures
            r.x == x,
            r.y == y,
            r.width == width,
            r.height == height,
    {
        Rect { x, y, width, height }
    }

    /// Whether `p` lies in the rectangle, edges included.
    pub fn contains(&self, p: Point) -> (r: bool)
        ensures
            r == self.contains_spec(p),
    {
        let right = self.x as i128 + self.width as i128;
        let bottom = self.y as i128 + self.height as i128;
        self.x <= p.x && (p.x as i128) <= right && self.y <= p.y && (p.y as i128) <= bottom
    }

    /// Whether `p` lies in the rectangle, right and bottom edges excluded.
    pub fn covers(&self, p: Point) -> (r: bool)
        ensures
            r == self.covers_spec(p),
    {
        let right = self.x as i128 + self.width as i128;
        let bottom = self.y as i128 + self.height as i128;
        self.x <= p.x && (p.x as i128) < right && self.y <= p.y && (p.y as i128) < bottom
    }

    /// The extent of the rectangle.
    pub fn size_of(&self) -> (r: Size)
        ensures
            r == self.size(),
    {
        Size { width: self.width, height: self.height }
    }
}

/// Floor division by a positive divisor.
pub fn div_floor(a: i128, b: i128) -> (q: i128)
    requires
        b > 0,
        -0x1_0000_0000_0000_0000_0000_0000 <= a <= 0x1_0000_0000_0000_0000_0000_0000,
        b <= 0x1_0000_0000_0000_0000,
    ensures
        q == a / b,
        0 <= a ==> 0 <= q <= a,
        a < 0 ==> a <= q < 0,
{
    if a >= 0 {
        let q = a / b;
        proof {
            lemma_fundamental_div_mod(a as int, b as int);
            let r = a % b;
            assert(0 <= q <= a) by (nonlinear_arith)
                requires
                    a == b * q + r,
                    0 <= r < b,
                    0 <= a,
                    1 <= b,
            ;
        }
        q
    } else {
        let n: i128 = -a;
        let k: i128 = (n + b - 1) / b;
        proof {
            let r = (n + b - 1) % (b as int);
            lemma_fundamental_div_mod(n + b - 1, b as int);
            assert(k == (n + b - 1) / (b as int));
            assert(n + b - 1 == k * b + r) by (nonlinear_arith)
                requires
                    n + b - 1 == b * ((n + b - 1) / (b as int)) + r,
                    k == (n + b - 1) / (b as int),
            ;
            assert(a == (-k) * b + (k * b - n)) by (nonlinear_arith)
                requires
                    a == -n,
            ;
            assert(0 <= k * b - n < b) by (nonlinear_arith)
                requires
                    n + b - 1 == k * b + r,
                    0 <= r < b,
            ;
            lemma_fundamental_div_mod_converse(a as int, b as int, -k, k * b - n);
            assert(1 <= k <= n) by (nonlinear_arith)
                requires
                    n + b - 1 == k * b + r,
                    0 <= r < b,
                    1 <= n,
                    1 <= b,
            ;
        }
        -k
    }
}

/// `v` saturated into the stored-coordinate range.
pub fn saturate(v: i128) -> (r: i64)
    ensures
        r == clamp_coord(v as int),
        in_coord_range(r as int),
{
    if v < -(COORD_LIMIT as i128) {
        -COORD_LIMIT
    } else if v > COORD_LIMIT as i128 {
        COORD_LIMIT
    } else {
        v as i64
    }
}

} // verus!
