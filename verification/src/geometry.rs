//! Collision geometry: axis-aligned rectangular bodies and the overlap test.

use vstd::prelude::*;

verus! {

/// A point or displacement in the plane. `x` grows to the right, `y` upward.
#[derive(Clone, Copy, Debug, PartialEq, Eq, Structural)]
pub struct Vec2 {
    pub x: i32,
    pub y: i32,
}

/// An axis-aligned rectangle, given by its centre and its half-extent.
#[derive(Clone, Copy, Debug, PartialEq, Eq, Structural)]
pub struct Body {
    pub center: Vec2,
    pub half: Vec2,
}

/// A side of a body.
#[derive(Clone, Copy, Debug, PartialEq, Eq, Structural)]
pub enum Side {
    Left,
    Right,
    Top,
    Bottom,
}

impl Side {
    /// The opposite side.
    pub open spec fn mirrored(self) -> Side {
        match self {
            Side::Left => Side::Right,
            Side::Right => Side::Left,
            Side::Top => Side::Bottom,
            Side::Bottom => Side::Top,
        }
    }

    /// Whether this is `Left` or `Right`.
    pub open spec fn is_horizontal(self) -> bool {
        self == Side::Left || self == Side::Right
    }

    /// Returns the opposite side.
    pub fn mirror(self) -> (m: Side)
        ensures
            m == self.mirrored(),
    {
        match self {
            Side::Left => Side::Right,
            Side::Right => Side::Left,
            Side::Top => Side::Bottom,
            Side::Bottom => Side::Top,
        }
    }
}

impl Body {
    /// A body has a positive extent along both axes.
    pub open spec fn wf(self) -> bool {
        self.half.x > 0 && self.half.y > 0
    }

    pub open spec fn min_x(self) -> int {
        self.center.x - self.half.x
    }

    pub open spec fn max_x(self) -> int {
        self.center.x + self.half.x
    }

    pub open spec fn min_y(self) -> int {
        self.center.y - self.half.y
    }

    pub open spec fn max_y(self) -> int {
        self.center.y + self.half.y
    }

    /// Whether the point `(x, y)` lies in the body, its border included.
    pub open spec fn covers(self, x: int, y: int) -> bool {
        self.min_x() <= x <= self.max_x() && self.min_y() <= y <= self.max_y()
    }

    /// Whether `inner` lies within this body; the borders may touch.
    pub open spec fn contains(self, inner: Body) -> bool {
        &&& self.min_x() <= inner.min_x()
        &&& inner.max_x() <= self.max_x()
        &&& self.min_y() <= inner.min_y()
        &&& inner.max_y() <= self.max_y()
    }

    /// Builds a body, or `None` unless both half-extents are positive.
    pub fn new(center: Vec2, half: Vec2) -> (b: Option<Body>)
        ensures
            b == if half.x > 0 && half.y > 0 {
                Some(Body { center, half })
            } else {
                None
            },
    {
        if half.x > 0 && half.y > 0 {
            Some(Body { center, half })
        } else {
            None
        }
    }

    /// The x coordinate of the left edge.
    pub fn left(&self) -> (e: i64)
        ensures
            e == self.min_x(),
    {
        self.center.x as i64 - self.half.x as i64
    }

    /// The x coordinate of the right edge.
    pub fn right(&self) -> (e: i64)
        ensures
            e == self.max_x(),
    {
        self.center.x as i64 + self.half.x as i64
    }

    /// The y coordinate of the bottom edge.
    pub fn bottom(&self) -> (e: i64)
        ensures
            e == self.min_y(),
    {
        self.center.y as i64 - self.half.y as i64
    }

    /// The y coordinate of the top edge.
    pub fn top(&self) -> (e: i64)
        ensures
            e == self.max_y(),
    {
        self.center.y as i64 + self.half.y as i64
    }

    /// Tells whether `inner` lies within this body.
    pub fn encloses(&self, inner: &Body) -> (r: bool)
        ensures
            r == self.contains(*inner),
    {
        self.left() <= inner.left() && inner.right() <= self.right()
            && self.bottom() <= inner.bottom() && inner.top() <= self.top()
    }
}

/// How far `a` reaches into `b` past the given side of `b`: the distance `a`
/// would have to retreat through that side to come clear of `b`.
pub open spec fn depth(a: Body, b: Body, side: Side) -> int {
    match side {
        Side::Left => a.max_x() - b.min_x(),
        Side::Right => b.max_x() - a.min_x(),
        Side::Bottom => a.max_y() - b.min_y(),
        Side::Top => b.max_y() - a.min_y(),
    }
}

/// Whether the interiors of `a` and `b` share a point. Bodies that merely
/// touch along an edge do not intersect.
pub open spec fn intersects(a: Body, b: Body) -> bool {
    &&& depth(a, b, Side::Left) > 0
    &&& depth(a, b, Side::Right) > 0
    &&& depth(a, b, Side::Bottom) > 0
    &&& depth(a, b, Side::Top) > 0
}

/// The side of `b` that `a` penetrates, if the two intersect: the side of
/// least depth. Among sides of equal depth a horizontal one wins over a
/// vertical one, `Left` over `Right` and `Bottom` over `Top`.
pub open spec fn collision_side(a: Body, b: Body) -> Option<Side> {
    let l = depth(a, b, Side::Left);
    let r = depth(a, b, Side::Right);
    let d = depth(a, b, Side::Bottom);
    let u = depth(a, b, Side::Top);
    if !intersects(a, b) {
        None
    } else if l <= r && l <= d && l <= u {
        Some(Side::Left)
    } else if r <= d && r <= u {
        Some(Side::Right)
    } else if d <= u {
        Some(Side::Bottom)
    } else {
        Some(Side::Top)
    }
}

/// Whether `a` and `b` intersect with their centres level along the axis of
/// least depth, so that neither of the two sides on that axis is nearer.
pub open spec fn centres_aligned(a: Body, b: Body) -> bool {
    match collision_side(a, b) {
        None => false,
        Some(s) => if s.is_horizontal() {
            a.center.x == b.center.x
        } else {
            a.center.y == b.center.y
        },
    }
}

/// Tests two bodies for overlap and names the side of `b` that `a` has
/// entered through.
pub fn overlap(a: &Body, b: &Body) -> (hit: Option<Side>)
    ensures
        hit == collision_side(*a, *b),
{
    let l: i64 = a.right() - b.left();
    let r: i64 = b.right() - a.left();
    let d: i64 = a.top() - b.bottom();
    let u: i64 = b.top() - a.bottom();
    if l <= 0 || r <= 0 || d <= 0 || u <= 0 {
        None
    } else if l <= r && l <= d && l <= u {
        Some(Side::Left)
    } else if r <= d && r <= u {
        Some(Side::Right)
    } else if d <= u {
        Some(Side::Bottom)
    } else {
        Some(Side::Top)
    }
}

/// Tells whether two bodies overlap.
pub fn overlaps(a: &Body, b: &Body) -> (hit: bool)
    ensures
        hit == intersects(*a, *b),
{
    overlap(a, b).is_some()
}

/// Detection is symmetric: `a` overlaps `b` exactly when `b` overlaps `a`.
pub proof fn lemma_overlap_symmetric(a: Body, b: Body)
    ensures
        intersects(a, b) == intersects(b, a),
        collision_side(a, b).is_some() == collision_side(b, a).is_some(),
        collision_side(a, b).is_some() == intersects(a, b),
{
}

/// Seen from the other body, the collision is on the opposite side, unless
/// the centres are level along the axis of least depth.
pub proof fn lemma_overlap_mirrored(a: Body, b: Body)
    requires
        !centres_aligned(a, b),
    ensures
        collision_side(b, a) == match collision_side(a, b) {
            Some(s) => Some(s.mirrored()),
            None => None,
        },
{
}

/// With the centres level along the axis of least depth, both bodies report
/// the same side.
pub proof fn lemma_overlap_aligned(a: Body, b: Body)
    requires
        centres_aligned(a, b),
    ensures
        collision_side(b, a) == collision_side(a, b),
{
}

/// The reported side is one of least depth, and every depth is positive.
pub proof fn lemma_side_is_shallowest(a: Body, b: Body, s: Side, t: Side)
    requires
        collision_side(a, b) == Some(s),
    ensures
        0 < depth(a, b, s) <= depth(a, b, t),
{
}

} // verus!
