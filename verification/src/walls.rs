//! The arena and its four walls.
//!
//! The arena is centred on the origin. Its interior is the screen shrunk by
//! a margin on every edge; a wall lies outside each edge of the interior, and
//! the walls on the left and right meet those above and below in the corners.

use vstd::prelude::*;
use crate::constants::{
    MAX_STEP, SCREEN_HEIGHT, SCREEN_WIDTH, UNITS_PER_PIXEL, WALL_MARGIN, WALL_THICKNESS,
};
use crate::geometry::{collision_side, overlap, Body, Side, Vec2};

verus! {

/// Largest screen dimension or wall thickness an arena accepts, in pixels.
pub const MAX_SCREEN: i32 = 100_000;

/// The dimensions of an arena, all in pixels.
#[derive(Clone, Copy, Debug, PartialEq, Eq, Structural)]
pub struct Arena {
    pub screen_width: i32,
    pub screen_height: i32,
    pub margin: i32,
    pub wall_thickness: i32,
}

/// Which axes a body was stopped on by the walls.
#[derive(Clone, Copy, Debug, PartialEq, Eq, Structural)]
pub struct Contact {
    pub horizontal: bool,
    pub vertical: bool,
}

impl Arena {
    /// The margin leaves an interior, the dimensions are within range, and a
    /// wall is thick enough that no body can cross half of it in one tick.
    pub open spec fn wf(self) -> bool {
        &&& 0 <= self.margin
        &&& 2 * self.margin < self.screen_width <= MAX_SCREEN
        &&& 2 * self.margin < self.screen_height <= MAX_SCREEN
        &&& self.wall_thickness <= MAX_SCREEN
        &&& MAX_STEP <= self.wall_thickness * (UNITS_PER_PIXEL / 2)
    }

    /// Half the width of the interior, in units.
    pub open spec fn half_width(self) -> int {
        (self.screen_width - 2 * self.margin) * (UNITS_PER_PIXEL / 2)
    }

    /// Half the height of the interior, in units.
    pub open spec fn half_height(self) -> int {
        (self.screen_height - 2 * self.margin) * (UNITS_PER_PIXEL / 2)
    }

    /// Half the thickness of a wall, in units.
    pub open spec fn wall_half(self) -> int {
        self.wall_thickness * (UNITS_PER_PIXEL / 2)
    }

    /// The wall along the given edge of the interior.
    pub open spec fn wall(self, edge: Side) -> Body {
        let w = self.half_width();
        let h = self.half_height();
        let t = self.wall_half();
        match edge {
            Side::Left => Body {
                center: Vec2 { x: (-w - t) as i32, y: 0 },
                half: Vec2 { x: t as i32, y: (h + 2 * t) as i32 },
            },
            Side::Right => Body {
                center: Vec2 { x: (w + t) as i32, y: 0 },
                half: Vec2 { x: t as i32, y: (h + 2 * t) as i32 },
            },
            Side::Top => Body {
                center: Vec2 { x: 0, y: (h + t) as i32 },
                half: Vec2 { x: (w + 2 * t) as i32, y: t as i32 },
            },
            Side::Bottom => Body {
                center: Vec2 { x: 0, y: (-h - t) as i32 },
                half: Vec2 { x: (w + 2 * t) as i32, y: t as i32 },
            },
        }
    }

    /// The four walls, in the order left, right, top, bottom.
    pub open spec fn wall_bodies(self) -> Seq<Body> {
        seq![
            self.wall(Side::Left),
            self.wall(Side::Right),
            self.wall(Side::Top),
            self.wall(Side::Bottom),
        ]
    }

    /// Whether `b` lies within the interior; it may touch the walls.
    pub open spec fn inside(self, b: Body) -> bool {
        &&& -self.half_width() <= b.min_x()
        &&& b.max_x() <= self.half_width()
        &&& -self.half_height() <= b.min_y()
        &&& b.max_y() <= self.half_height()
    }

    /// Whether a body with half-extent `half` fits into the interior.
    pub open spec fn fits(self, half: Vec2) -> bool {
        0 < half.x <= self.half_width() && 0 < half.y <= self.half_height()
    }

    /// Whether `b` fits into the interior and lies at most one tick's travel
    /// outside it.
    pub open spec fn within_reach(self, b: Body) -> bool {
        &&& self.fits(b.half)
        &&& -self.half_width() - MAX_STEP <= b.min_x()
        &&& b.max_x() <= self.half_width() + MAX_STEP
        &&& -self.half_height() - MAX_STEP <= b.min_y()
        &&& b.max_y() <= self.half_height() + MAX_STEP
    }

    /// `b` moved, along each axis on its own, by the least distance that
    /// brings it inside.
    pub open spec fn clamped(self, b: Body) -> Body {
        let x = if b.min_x() < -self.half_width() {
            -self.half_width() + b.half.x
        } else if b.max_x() > self.half_width() {
            self.half_width() - b.half.x
        } else {
            b.center.x as int
        };
        let y = if b.min_y() < -self.half_height() {
            -self.half_height() + b.half.y
        } else if b.max_y() > self.half_height() {
            self.half_height() - b.half.y
        } else {
            b.center.y as int
        };
        Body { center: Vec2 { x: x as i32, y: y as i32 }, half: b.half }
    }

    /// The axes along which `b` sticks out of the interior.
    pub open spec fn contact(self, b: Body) -> Contact {
        Contact {
            horizontal: b.min_x() < -self.half_width() || b.max_x() > self.half_width(),
            vertical: b.min_y() < -self.half_height() || b.max_y() > self.half_height(),
        }
    }

    /// The arena of the standard configuration.
    pub open spec fn standard_arena() -> Arena {
        Arena {
            screen_width: SCREEN_WIDTH,
            screen_height: SCREEN_HEIGHT,
            margin: WALL_MARGIN,
            wall_thickness: WALL_THICKNESS,
        }
    }

    /// Tells whether the dimensions are well-formed.
    pub fn is_valid(&self) -> (r: bool)
        ensures
            r == self.wf(),
    {
        0 <= self.margin && self.margin <= MAX_SCREEN && 2 * self.margin < self.screen_width
            && self.screen_width <= MAX_SCREEN && 2 * self.margin < self.screen_height
            && self.screen_height <= MAX_SCREEN && self.wall_thickness <= MAX_SCREEN && MAX_STEP
            / (UNITS_PER_PIXEL / 2) <= self.wall_thickness
    }

    /// Builds an arena, or `None` if the dimensions are not well-formed.
    pub fn new(screen_width: i32, screen_height: i32, margin: i32, wall_thickness: i32) -> (a:
        Option<Arena>)
        ensures
            a == if (Arena { screen_width, screen_height, margin, wall_thickness }).wf() {
                Some(Arena { screen_width, screen_height, margin, wall_thickness })
            } else {
                None
            },
    {
        let arena = Arena { screen_width, screen_height, margin, wall_thickness };
        if arena.is_valid() {
            Some(arena)
        } else {
            None
        }
    }

    /// Returns the arena of the standard configuration.
    pub fn standard() -> (a: Arena)
        ensures
            a == Arena::standard_arena(),
            a.wf(),
    {
        assert(WALL_THICKNESS * (UNITS_PER_PIXEL / 2) == 5_000);
        Arena {
            screen_width: SCREEN_WIDTH,
            screen_height: SCREEN_HEIGHT,
            margin: WALL_MARGIN,
            wall_thickness: WALL_THICKNESS,
        }
    }

    /// Half the width of the interior, in units.
    pub fn interior_half_width(&self) -> (w: i32)
        requires
            self.wf(),
        ensures
            w == self.half_width(),
    {
        (self.screen_width - 2 * self.margin) * (UNITS_PER_PIXEL / 2)
    }

    /// Half the height of the interior, in units.
    pub fn interior_half_height(&self) -> (h: i32)
        requires
            self.wf(),
        ensures
            h == self.half_height(),
    {
        (self.screen_height - 2 * self.margin) * (UNITS_PER_PIXEL / 2)
    }

    /// Builds the four walls, in the order left, right, top, bottom.
    pub fn walls(&self) -> (w: [Body; 4])
        requires
            self.wf(),
        ensures
            w@ == self.wall_bodies(),
    {
        let w: i32 = self.interior_half_width();
        let h: i32 = self.interior_half_height();
        let t: i32 = self.wall_thickness * (UNITS_PER_PIXEL / 2);
        let walls = [
            Body { center: Vec2 { x: -w - t, y: 0 }, half: Vec2 { x: t, y: h + 2 * t } },
            Body { center: Vec2 { x: w + t, y: 0 }, half: Vec2 { x: t, y: h + 2 * t } },
            Body { center: Vec2 { x: 0, y: h + t }, half: Vec2 { x: w + 2 * t, y: t } },
            Body { center: Vec2 { x: 0, y: -h - t }, half: Vec2 { x: w + 2 * t, y: t } },
        ];
        assert(walls@ =~= self.wall_bodies());
        walls
    }

    /// Tells whether `b` lies within the interior.
    pub fn holds(&self, b: &Body) -> (r: bool)
        requires
            self.wf(),
        ensures
            r == self.inside(*b),
    {
        let w: i64 = self.interior_half_width() as i64;
        let h: i64 = self.interior_half_height() as i64;
        -w <= b.left() && b.right() <= w && -h <= b.bottom() && b.top() <= h
    }
}

/// Where `body` comes to rest when it retreats from `wall` through the side
/// it entered by; a body that does not overlap the wall stays where it is.
pub open spec fn pushed_out(body: Body, wall: Body) -> Body {
    match collision_side(body, wall) {
        None => body,
        Some(Side::Left) => Body {
            center: Vec2 { x: (wall.min_x() - body.half.x) as i32, y: body.center.y },
            half: body.half,
        },
        Some(Side::Right) => Body {
            center: Vec2 { x: (wall.max_x() + body.half.x) as i32, y: body.center.y },
            half: body.half,
        },
        Some(Side::Bottom) => Body {
            center: Vec2 { x: body.center.x, y: (wall.min_y() - body.half.y) as i32 },
            half: body.half,
        },
        Some(Side::Top) => Body {
            center: Vec2 { x: body.center.x, y: (wall.max_y() + body.half.y) as i32 },
            half: body.half,
        },
    }
}

/// Whether every place that `body` could retreat to from `wall` has
/// coordinates that fit the machine's integers.
pub open spec fn can_retreat(body: Body, wall: Body) -> bool {
    &&& i32::MIN <= wall.min_x() - body.half.x
    &&& wall.max_x() + body.half.x <= i32::MAX
    &&& i32::MIN <= wall.min_y() - body.half.y
    &&& wall.max_y() + body.half.y <= i32::MAX
}

/// Moves `body` out of `wall` if the two overlap, through the side of the
/// wall that it entered by, and reports that side.
pub fn push_out(body: Body, wall: &Body) -> (r: (Body, Option<Side>))
    requires
        can_retreat(body, *wall),
    ensures
        r.0 == pushed_out(body, *wall),
        r.1 == collision_side(body, *wall),
{
    let hit = overlap(&body, wall);
    let mut center = body.center;
    match hit {
        None => {},
        Some(Side::Left) => {
            center.x = (wall.left() - body.half.x as i64) as i32;
        },
        Some(Side::Right) => {
            center.x = (wall.right() + body.half.x as i64) as i32;
        },
        Some(Side::Bottom) => {
            center.y = (wall.bottom() - body.half.y as i64) as i32;
        },
        Some(Side::Top) => {
            center.y = (wall.top() + body.half.y as i64) as i32;
        },
    }
    (Body { center, half: body.half }, hit)
}

impl Arena {
    /// Stops `body` at the walls: tests it against each wall in turn and
    /// moves it out of those it has entered. Reports the axes it was stopped
    /// on.
    pub fn confine(&self, walls: &[Body; 4], body: Body) -> (r: (Body, Contact))
        requires
            self.wf(),
            walls@ == self.wall_bodies(),
            self.within_reach(body),
        ensures
            r.0 == self.clamped(body),
            r.1 == self.contact(body),
            self.inside(r.0),
    {
        proof {
            lemma_interior_size(*self);
        }
        assert(walls@[0] == self.wall(Side::Left));
        assert(walls@[1] == self.wall(Side::Right));
        assert(walls@[2] == self.wall(Side::Top));
        assert(walls@[3] == self.wall(Side::Bottom));
        let (b1, left) = push_out(body, &walls[0]);
        let (b2, right) = push_out(b1, &walls[1]);
        let (b3, top) = push_out(b2, &walls[2]);
        let (b4, bottom) = push_out(b3, &walls[3]);
        (b4, Contact { horizontal: left.is_some() || right.is_some(), vertical: top.is_some()
            || bottom.is_some() })
    }
}

/// Builds the four walls of the standard arena, in the order left, right,
/// top, bottom.
pub fn spawn_walls() -> (w: [Body; 4])
    ensures
        w@ == Arena::standard_arena().wall_bodies(),
{
    Arena::standard().walls()
}

/// The inner faces of the walls bound a rectangle, centred on the origin, of
/// the screen's size less the margin on every edge.
pub proof fn lemma_interior_size(arena: Arena)
    requires
        arena.wf(),
    ensures
        arena.wall(Side::Right).min_x() - arena.wall(Side::Left).max_x() == (arena.screen_width
            - 2 * arena.margin) * UNITS_PER_PIXEL,
        arena.wall(Side::Top).min_y() - arena.wall(Side::Bottom).max_y() == (arena.screen_height
            - 2 * arena.margin) * UNITS_PER_PIXEL,
        arena.wall(Side::Left).max_x() == -arena.half_width(),
        arena.wall(Side::Right).min_x() == arena.half_width(),
        arena.wall(Side::Bottom).max_y() == -arena.half_height(),
        arena.wall(Side::Top).min_y() == arena.half_height(),
        forall|edge: Side| (#[trigger] arena.wall(edge)).wf(),
{
    assert forall|edge: Side| (#[trigger] arena.wall(edge)).wf() by {
        match edge {
            Side::Left => {},
            Side::Right => {},
            Side::Top => {},
            Side::Bottom => {},
        }
    }
}

/// The walls enclose the interior exactly: of the frame that the walls span,
/// a point lies in some wall if and only if it is not strictly inside the
/// interior.
pub proof fn lemma_walls_enclose_interior(arena: Arena, x: int, y: int)
    requires
        arena.wf(),
        -arena.half_width() - 2 * arena.wall_half() <= x <= arena.half_width() + 2
            * arena.wall_half(),
        -arena.half_height() - 2 * arena.wall_half() <= y <= arena.half_height() + 2
            * arena.wall_half(),
    ensures
        (exists|edge: Side| (#[trigger] arena.wall(edge)).covers(x, y)) <==> !(-arena.half_width()
            < x < arena.half_width() && -arena.half_height() < y < arena.half_height()),
{
    let strictly_inside = -arena.half_width() < x < arena.half_width() && -arena.half_height()
        < y < arena.half_height();
    if strictly_inside {
        assert forall|edge: Side| !(#[trigger] arena.wall(edge)).covers(x, y) by {
            match edge {
                Side::Left => {},
                Side::Right => {},
                Side::Top => {},
                Side::Bottom => {},
            }
        }
    } else if x <= -arena.half_width() {
        assert(arena.wall(Side::Left).covers(x, y));
    } else if x >= arena.half_width() {
        assert(arena.wall(Side::Right).covers(x, y));
    } else if y >= arena.half_height() {
        assert(arena.wall(Side::Top).covers(x, y));
    } else {
        assert(arena.wall(Side::Bottom).covers(x, y));
    }
}

/// A body within the frame that the walls span lies inside the interior if
/// and only if it overlaps none of the walls.
pub proof fn lemma_inside_iff_clear_of_walls(arena: Arena, b: Body)
    requires
        arena.wf(),
        b.wf(),
        -arena.half_width() - 2 * arena.wall_half() <= b.min_x(),
        b.max_x() <= arena.half_width() + 2 * arena.wall_half(),
        -arena.half_height() - 2 * arena.wall_half() <= b.min_y(),
        b.max_y() <= arena.half_height() + 2 * arena.wall_half(),
    ensures
        arena.inside(b) <==> forall|edge: Side|
            collision_side(b, #[trigger] arena.wall(edge)).is_none(),
{
    if arena.inside(b) {
        assert forall|edge: Side| collision_side(b, #[trigger] arena.wall(edge)).is_none() by {
            match edge {
                Side::Left => {},
                Side::Right => {},
                Side::Top => {},
                Side::Bottom => {},
            }
        }
    } else if b.min_x() < -arena.half_width() {
        assert(collision_side(b, arena.wall(Side::Left)).is_some());
    } else if b.max_x() > arena.half_width() {
        assert(collision_side(b, arena.wall(Side::Right)).is_some());
    } else if b.max_y() > arena.half_height() {
        assert(collision_side(b, arena.wall(Side::Top)).is_some());
    } else {
        assert(collision_side(b, arena.wall(Side::Bottom)).is_some());
    }
}

} // verus!
