//! Fixed-point positions, offsets and rectangles.

use vstd::prelude::*;

verus! {

/// How many coordinate units make one logical point.
pub const UNITS_PER_POINT: i32 = 1000;

/// A position on screen, in coordinate units.
#[derive(Clone, Copy, Debug, PartialEq, Eq, Structural)]
pub struct Pos2 {
    pub x: i32,
    pub y: i32,
}

/// An offset or a size, in coordinate units.
#[derive(Clone, Copy, Debug, PartialEq, Eq, Structural)]
pub struct Vec2 {
    pub x: i32,
    pub y: i32,
}

/// An axis-aligned rectangle; both corners belong to it.
#[derive(Clone, Copy, Debug, PartialEq, Eq, Structural)]
pub struct Rect {
    pub min: Pos2,
    pub max: Pos2,
}

/// The larger of two coordinates.
pub open spec fn max_of(a: int, b: int) -> int {
    if a >= b { a } else { b }
}

/// The smaller of two coordinates.
pub open spec fn min_of(a: int, b: int) -> int {
    if a <= b { a } else { b }
}

/// The coordinate nearest to `v`.
pub open spec fn to_coord(v: int) -> i32 {
    if v < i32::MIN {
        i32::MIN
    } else if v > i32::MAX {
        i32::MAX
    } else {
        v as i32
    }
}

/// The coordinate nearest to `v`.
pub fn coord(v: i64) -> (c: i32)
    ensures
        c == to_coord(v as int),
{
    if v < i32::MIN as i64 {
        i32::MIN
    } else if v > i32::MAX as i64 {
        i32::MAX
    } else {
        v as i32
    }
}

impl Pos2 {
    pub fn new(x: i32, y: i32) -> (p: Pos2)
        ensures
            p.x == x,
            p.y == y,
    {
        Pos2 { x, y }
    }
}

impl Vec2 {
    pub fn new(x: i32, y: i32) -> (v: Vec2)
        ensures
            v.x == x,
            v.y == y,
    {
        Vec2 { x, y }
    }
}

impl Rect {
    pub fn from_min_max(min: Pos2, max: Pos2) -> (r: Rect)
        ensures
            r.min == min,
            r.max == max,
    {
        Rect { min, max }
    }

    /// Whether `p` lies in the rectangle grown by `dx` to the left and right
    /// and by `dy` to the top and bottom.
    pub open spec fn grown_contains(self, dx: int, dy: int, p: Pos2) -> bool {
        &&& self.min.x - dx <= p.x <= self.max.x + dx
        &&& self.min.y - dy <= p.y <= self.max.y + dy
    }

    /// Whether `p` lies in the rectangle.
    pub open spec fn spec_contains(self, p: Pos2) -> bool {
        self.grown_contains(0, 0, p)
    }

    /// Whether the two rectangles have a position in common.
    pub open spec fn spec_overlaps(self, other: Rect) -> bool {
        exists|p: Pos2| #[trigger] self.spec_contains(p) && other.spec_contains(p)
    }

    /// Whether the two rectangles have no position in common.
    pub open spec fn disjoint(self, other: Rect) -> bool {
        forall|p: Pos2| !(#[trigger] self.spec_contains(p) && other.spec_contains(p))
    }

    /// Whether the corners are in order, so that the rectangle holds a position.
    pub open spec fn spec_is_proper(self) -> bool {
        self.min.x <= self.max.x && self.min.y <= self.max.y
    }

    /// The rectangle of the positions that lie in both.
    pub open spec fn spec_intersect(self, other: Rect) -> Rect {
        Rect {
            min: Pos2 {
                x: max_of(self.min.x as int, other.min.x as int) as i32,
                y: max_of(self.min.y as int, other.min.y as int) as i32,
            },
            max: Pos2 {
                x: min_of(self.max.x as int, other.max.x as int) as i32,
                y: min_of(self.max.y as int, other.max.y as int) as i32,
            },
        }
    }

    /// The smallest rectangle that holds both.
    pub open spec fn spec_union(self, other: Rect) -> Rect {
        Rect {
            min: Pos2 {
                x: min_of(self.min.x as int, other.min.x as int) as i32,
                y: min_of(self.min.y as int, other.min.y as int) as i32,
            },
            max: Pos2 {
                x: max_of(self.max.x as int, other.max.x as int) as i32,
                y: max_of(self.max.y as int, other.max.y as int) as i32,
            },
        }
    }

    pub fn grown_has(self, dx: u16, dy: u16, p: Pos2) -> (inside: bool)
        ensures
            inside == self.grown_contains(dx as int, dy as int, p),
    {
        let gx: i64 = dx as i64;
        let gy: i64 = dy as i64;
        let (px, py): (i64, i64) = (p.x as i64, p.y as i64);
        self.min.x as i64 - gx <= px && px <= self.max.x as i64 + gx && self.min.y as i64 - gy
            <= py && py <= self.max.y as i64 + gy
    }

    #[verifier::when_used_as_spec(spec_contains)]
    pub fn contains(self, p: Pos2) -> (inside: bool)
        ensures
            inside == self.spec_contains(p),
    {
        self.grown_has(0, 0, p)
    }

    /// Whether the two rectangles have a position in common.
    #[verifier::when_used_as_spec(spec_overlaps)]
    pub fn overlaps(self, other: Rect) -> (shared: bool)
        ensures
            shared == self.spec_overlaps(other),
    {
        let x: i32 = if self.min.x >= other.min.x { self.min.x } else { other.min.x };
        let y: i32 = if self.min.y >= other.min.y { self.min.y } else { other.min.y };
        let shared = x <= self.max.x && x <= other.max.x && y <= self.max.y && y <= other.max.y;
        proof {
            if shared {
                let p = Pos2 { x, y };
                assert(self.spec_contains(p) && other.spec_contains(p));
            }
        }
        shared
    }

    #[verifier::when_used_as_spec(spec_intersect)]
    pub fn intersect(self, other: Rect) -> (r: Rect)
        ensures
            r == self.spec_intersect(other),
            forall|p: Pos2| r.spec_contains(p) <==> self.spec_contains(p) && other.spec_contains(p),
    {
        Rect {
            min: Pos2 {
                x: if self.min.x >= other.min.x { self.min.x } else { other.min.x },
                y: if self.min.y >= other.min.y { self.min.y } else { other.min.y },
            },
            max: Pos2 {
                x: if self.max.x <= other.max.x { self.max.x } else { other.max.x },
                y: if self.max.y <= other.max.y { self.max.y } else { other.max.y },
            },
        }
    }

    #[verifier::when_used_as_spec(spec_union)]
    pub fn union(self, other: Rect) -> (r: Rect)
        ensures
            r == self.spec_union(other),
    {
        Rect {
            min: Pos2 {
                x: if self.min.x <= other.min.x { self.min.x } else { other.min.x },
                y: if self.min.y <= other.min.y { self.min.y } else { other.min.y },
            },
            max: Pos2 {
                x: if self.max.x >= other.max.x { self.max.x } else { other.max.x },
                y: if self.max.y >= other.max.y { self.max.y } else { other.max.y },
            },
        }
    }

    /// The width in coordinate units; negative where the corners are swapped.
    pub fn width(self) -> (w: i64)
        ensures
            w == self.max.x - self.min.x,
    {
        self.max.x as i64 - self.min.x as i64
    }

    /// The height in coordinate units; negative where the corners are swapped.
    pub fn height(self) -> (h: i64)
        ensures
            h == self.max.y - self.min.y,
    {
        self.max.y as i64 - self.min.y as i64
    }
}

} // verus!
