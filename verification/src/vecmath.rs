//! Integer 2D/3D vectors: positions carry a draw-order layer in `z`,
//! displacements act on `x` and `y` only. Squared planar distance is the
//! basis of the reach test, so the boundary case `distance == reach` is
//! exact.

use vstd::prelude::*;

use crate::config::COORD_LIMIT;

verus! {

/// A planar displacement, in world units.
#[derive(Clone, Copy, PartialEq, Eq, Structural, Debug)]
pub struct Vec2 {
    pub x: i64,
    pub y: i64,
}

/// A world position; `z` encodes the draw-order layer, not physical depth.
#[derive(Clone, Copy, PartialEq, Eq, Structural, Debug)]
pub struct Vec3 {
    pub x: i64,
    pub y: i64,
    pub z: i64,
}

impl Vec2 {
    /// Both components are zero.
    pub open spec fn is_zero(self) -> bool {
        self.x == 0 && self.y == 0
    }

    /// Executable test matching `is_zero`.
    pub fn eq_zero(&self) -> (r: bool)
        ensures
            r == self.is_zero(),
    {
        self.x == 0 && self.y == 0
    }
}

impl Vec3 {
    /// The planar part of the position.
    pub open spec fn xy(self) -> Vec2 {
        Vec2 { x: self.x, y: self.y }
    }

    /// Both planar coordinates have magnitude at most `COORD_LIMIT`.
    pub open spec fn coords_small(self) -> bool {
        &&& -COORD_LIMIT <= self.x <= COORD_LIMIT
        &&& -COORD_LIMIT <= self.y <= COORD_LIMIT
    }

    /// The position shifted by a displacement; the layer is untouched.
    pub fn translated(&self, d: Vec2) -> (r: Vec3)
        requires
            i64::MIN <= self.x + d.x <= i64::MAX,
            i64::MIN <= self.y + d.y <= i64::MAX,
        ensures
            r.x == self.x + d.x,
            r.y == self.y + d.y,
            r.z == self.z,
    {
        Vec3 { x: self.x + d.x, y: self.y + d.y, z: self.z }
    }
}

/// Squared planar distance between two points.
pub open spec fn dist_sq(a: Vec2, b: Vec2) -> int {
    (a.x - b.x) * (a.x - b.x) + (a.y - b.y) * (a.y - b.y)
}

/// The planar distance between the two positions is at most `reach`,
/// stated over squares so the comparison is exact on integers and
/// boundary-inclusive.
pub open spec fn within_reach(a: Vec3, t: Vec3, reach: int) -> bool {
    dist_sq(a.xy(), t.xy()) <= reach * reach
}

/// Executable squared planar distance.
pub fn dist_sq_xy(a: &Vec3, b: &Vec3) -> (r: i64)
    requires
        a.coords_small(),
        b.coords_small(),
    ensures
        r == dist_sq(a.xy(), b.xy()),
{
    let dx = a.x - b.x;
    let dy = a.y - b.y;
    proof {
        assert(dx * dx <= 4000000000000000000 && dx * dx >= 0) by (nonlinear_arith)
            requires
                -2000000000 <= dx <= 2000000000,
        ;
        assert(dy * dy <= 4000000000000000000 && dy * dy >= 0) by (nonlinear_arith)
            requires
                -2000000000 <= dy <= 2000000000,
        ;
    }
    dx * dx + dy * dy
}

/// Being within reach bounds each planar offset componentwise: from
/// `dist_sq <= reach * reach` and `reach >= 0` each of `|t.x - a.x|`
/// and `|t.y - a.y|` is at most `reach`.
pub proof fn lemma_within_reach_componentwise(a: Vec3, t: Vec3, reach: int)
    requires
        within_reach(a, t, reach),
        reach >= 0,
    ensures
        -reach <= t.x - a.x <= reach,
        -reach <= t.y - a.y <= reach,
{
    let dx = a.x - t.x;
    let dy = a.y - t.y;
    assert(dx * dx + dy * dy <= reach * reach);
    assert(-reach <= dx <= reach && -reach <= dy <= reach) by (nonlinear_arith)
        requires
            dx * dx + dy * dy <= reach * reach,
            reach >= 0,
    ;
}

} // verus!
