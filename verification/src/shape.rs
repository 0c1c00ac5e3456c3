//! Shape descriptors and the color palette.

use vstd::prelude::*;

use crate::consts::COORD_MAX;
use crate::engine::{convex_hull_ok, hull_ok};
use crate::fx::{ring_has_extent, Vec2Fx};

verus! {

/// Radius of the default small circle used when a malformed or degenerate
/// shape must be absorbed instead of failing, in milli-units.
pub const FALLBACK_RADIUS: i64 = 5_000;

/// Whether a vertex ring is usable as a convex-hull collider: enough
/// in-range vertices, and the engine's hull builder accepts it.
pub open spec fn polygon_viable(vs: Seq<Vec2Fx>) -> bool {
    &&& vs.len() >= 3
    &&& forall|i: int| 0 <= i < vs.len() ==> (#[trigger] vs[i]).within(COORD_MAX)
    &&& ring_has_extent(vs)
    &&& hull_ok(vs)
}

/// A closed set of 2D primitive shapes, used both for collision geometry
/// and as a drawing hint. Immutable after construction; lengths are in
/// milli-units.
#[derive(Clone, Debug, PartialEq, Eq)]
pub enum Shape {
    Circle { radius: i64 },
    Rectangle { half_x: i64, half_y: i64 },
    ConvexPolygon { vertices: Vec<Vec2Fx> },
}

impl Shape {
    /// Well-formedness: every length positive and small enough for the
    /// engine boundary, and a polygon has at least three vertices.
    pub open spec fn wf(self) -> bool {
        match self {
            Shape::Circle { radius } => 1 <= radius <= COORD_MAX,
            Shape::Rectangle { half_x, half_y } => 1 <= half_x <= COORD_MAX && 1 <= half_y
                <= COORD_MAX,
            Shape::ConvexPolygon { vertices } => vertices.len() >= 3 && ring_has_extent(vertices@)
                && forall|i: int| 0 <= i < vertices.len() ==> (#[trigger] vertices[i]).within(
                COORD_MAX,
            ),
        }
    }

    pub fn circle(radius: i64) -> (s: Shape)
        requires
            1 <= radius <= COORD_MAX,
        ensures
            s == (Shape::Circle { radius }),
            s.wf(),
    {
        Shape::Circle { radius }
    }

    pub fn rectangle(half_x: i64, half_y: i64) -> (s: Shape)
        requires
            1 <= half_x <= COORD_MAX,
            1 <= half_y <= COORD_MAX,
        ensures
            s == (Shape::Rectangle { half_x, half_y }),
            s.wf(),
    {
        Shape::Rectangle { half_x, half_y }
    }


    /// A convex polygon from an ordered vertex ring, checked against the
    /// engine's own hull builder: a ring the engine would refuse — too few
    /// vertices, out of range, all vertices coinciding, or degenerate —
    /// falls back to the default small circle, so the stored descriptor
    /// always matches a collider the engine accepts.
    pub fn polygon(vertices: Vec<Vec2Fx>) -> (s: Shape)
        ensures
            polygon_viable(vertices@) ==> s == (Shape::ConvexPolygon { vertices }),
            !polygon_viable(vertices@) ==> s == (Shape::Circle { radius: FALLBACK_RADIUS }),
            s.wf(),
    {
        if vertices.len() < 3 {
            return Shape::Circle { radius: FALLBACK_RADIUS };
        }
        let first = vertices[0];
        let mut distinct = false;
        let mut i: usize = 0;
        while i < vertices.len()
            invariant
                0 <= i <= vertices.len(),
                vertices.len() >= 1,
                first == vertices@[0],
                forall|j: int| 0 <= j < i ==> (#[trigger] vertices@[j]).within(COORD_MAX),
                distinct == exists|j: int| 0 <= j < i && (#[trigger] vertices@[j]) != vertices@[0],
            decreases vertices.len() - i,
        {
            let v = vertices[i];
            if v.x < -COORD_MAX || v.x > COORD_MAX || v.y < -COORD_MAX || v.y > COORD_MAX {
                return Shape::Circle { radius: FALLBACK_RADIUS };
            }
            if v != first {
                distinct = true;
            }
            i += 1;
        }
        if distinct && convex_hull_ok(&vertices) {
            Shape::ConvexPolygon { vertices }
        } else {
            Shape::Circle { radius: FALLBACK_RADIUS }
        }
    }
}

/// The fixed color palette that spawned entities draw from.
#[derive(Clone, Copy, Debug, PartialEq, Eq, Structural)]
pub enum Hue {
    Red,
    Green,
    Blue,
    Yellow,
    Orange,
    Gray,
    SkyBlue,
    Lime,
    White,
    LightGray,
}

/// The palette entry for a sampled index, cycling through the eight hues
/// used for random coloring.
pub open spec fn spec_palette(ix: u64) -> Hue {
    let k = ix % 8;
    if k == 0 {
        Hue::Red
    } else if k == 1 {
        Hue::Green
    } else if k == 2 {
        Hue::Blue
    } else if k == 3 {
        Hue::Yellow
    } else if k == 4 {
        Hue::Orange
    } else if k == 5 {
        Hue::Gray
    } else if k == 6 {
        Hue::SkyBlue
    } else {
        Hue::Lime
    }
}

pub fn palette_color(ix: u64) -> (c: Hue)
    ensures
        c == spec_palette(ix),
{
    let k = ix % 8;
    if k == 0 {
        Hue::Red
    } else if k == 1 {
        Hue::Green
    } else if k == 2 {
        Hue::Blue
    } else if k == 3 {
        Hue::Yellow
    } else if k == 4 {
        Hue::Orange
    } else if k == 5 {
        Hue::Gray
    } else if k == 6 {
        Hue::SkyBlue
    } else {
        Hue::Lime
    }
}

} // verus!
