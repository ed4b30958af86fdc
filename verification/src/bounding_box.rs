//! Axis-aligned boxes and the geometry that collision resolution builds on.
//!
//! A body is described by three vectors: its reference corner `pos`, its `size`
//! and its velocity `vel`. Everything else is derived from them. The edges lie
//! at `pos - size` and `pos + size`: for edge tests the size is a half-extent
//! around the reference corner, while the centre lies at `pos + size / 2` and
//! the point test uses the rectangle from `pos` to `pos + size`.
use crate::fixed::{fx_div, fx_mul, sat_add, sat_sub, signum, ONE, TWO};
use crate::vec2::{vec2, Vec2};
use vstd::prelude::*;

verus! {

/// A plain box: reference corner, size and velocity.
#[derive(Debug, Default, Clone, Copy, PartialEq, Eq, Structural)]
pub struct AABB {
    pub pos: Vec2,
    pub size: Vec2,
    pub vel: Vec2,
}

impl AABB {
    /// The centre: `pos + size / 2`.
    pub open spec fn centre(self) -> Vec2 {
        self.pos.plus(self.size.shrink(TWO))
    }

    /// The left edge: `pos.x - size.x`.
    pub open spec fn left(self) -> i64 {
        sat_sub(self.pos.x, self.size.x)
    }

    /// The right edge: `pos.x + size.x`.
    pub open spec fn right(self) -> i64 {
        sat_add(self.pos.x, self.size.x)
    }

    /// The bottom edge: `pos.y + size.y`.
    pub open spec fn bottom(self) -> i64 {
        sat_add(self.pos.y, self.size.y)
    }

    /// The top edge: `pos.y - size.y`.
    pub open spec fn top(self) -> i64 {
        sat_sub(self.pos.y, self.size.y)
    }

    /// Two boxes overlap unless an edge of one lies strictly beyond the
    /// opposite edge of the other.
    pub open spec fn overlaps(self, other: AABB) -> bool {
        !(self.left() > other.right() || self.right() < other.left() || self.bottom()
            < other.top() || self.top() > other.bottom())
    }

    /// The point that stands for this box when it moves horizontally against
    /// something with velocity `other_vel`: the centre, moved by half the width
    /// in the direction of the relative horizontal velocity.
    pub open spec fn sample_x(self, other_vel: Vec2) -> Vec2 {
        Vec2 {
            x: sat_add(
                self.centre().x,
                fx_mul(fx_div(self.size.x, TWO), signum(sat_sub(self.vel.x, other_vel.x))),
            ),
            y: self.centre().y,
        }
    }

    /// The point that stands for this box when it moves vertically against
    /// something with velocity `other_vel`: the centre, moved by half the height
    /// in the direction of the relative vertical velocity.
    pub open spec fn sample_y(self, other_vel: Vec2) -> Vec2 {
        Vec2 {
            x: self.centre().x,
            y: sat_add(
                self.centre().y,
                fx_mul(fx_div(self.size.y, TWO), signum(sat_sub(self.vel.y, other_vel.y))),
            ),
        }
    }

    /// The midpoints of the four sides: right, left, upper (greater y), lower.
    pub open spec fn samples(self) -> Seq<Vec2> {
        seq![
            Vec2 { x: sat_add(self.centre().x, fx_div(self.size.x, TWO)), y: self.centre().y },
            Vec2 { x: sat_sub(self.centre().x, fx_div(self.size.x, TWO)), y: self.centre().y },
            Vec2 { x: self.centre().x, y: sat_add(self.centre().y, fx_div(self.size.y, TWO)) },
            Vec2 { x: self.centre().x, y: sat_sub(self.centre().y, fx_div(self.size.y, TWO)) },
        ]
    }

    /// Whether `point` lies strictly inside the rectangle from `pos` to
    /// `pos + size`.
    pub open spec fn contains(self, point: Vec2) -> bool {
        let far = self.pos.plus(self.size);
        self.pos.x < point.x && far.x > point.x && self.pos.y < point.y && far.y > point.y
    }

    /// How far a point that arrives with `velocity` has entered this box, if it
    /// is inside at all. On each axis the depth is measured from the edge that
    /// the point came through: the far edge where the velocity relative to the
    /// box is negative, the near edge otherwise.
    pub open spec fn penetration(self, point: Vec2, velocity: Vec2) -> Option<Vec2> {
        let rel = velocity.minus(self.vel);
        let far = self.pos.plus(self.size);
        if self.contains(point) {
            Some(
                Vec2 {
                    x: if rel.x < 0 {
                        sat_sub(far.x, point.x)
                    } else {
                        sat_sub(point.x, self.pos.x)
                    },
                    y: if rel.y < 0 {
                        sat_sub(far.y, point.y)
                    } else {
                        sat_sub(point.y, self.pos.y)
                    },
                },
            )
        } else {
            None
        }
    }
}

/// What every physical body offers: its reference corner, its size and its
/// velocity. The derived operations are the same for all bodies.
pub trait BoundingBox {
    /// The box that this body occupies.
    spec fn bounds(&self) -> AABB;

    /// The reference corner.
    fn pos(&self) -> (r: Vec2)
        ensures
            r == self.bounds().pos,
    ;

    /// The size.
    fn size(&self) -> (r: Vec2)
        ensures
            r == self.bounds().size,
    ;

    /// The velocity.
    fn vel(&self) -> (r: Vec2)
        ensures
            r == self.bounds().vel,
    ;

    /// The centre of the box.
    fn centre_pos(&self) -> (r: Vec2)
        ensures
            r == self.bounds().centre(),
    {
        self.pos().plus(self.size().shrink(TWO))
    }

    /// The left edge.
    fn left_edge(&self) -> (r: i64)
        ensures
            r == self.bounds().left(),
    {
        sat_sub(self.pos().x, self.size().x)
    }

    /// The right edge.
    fn right_edge(&self) -> (r: i64)
        ensures
            r == self.bounds().right(),
    {
        sat_add(self.pos().x, self.size().x)
    }

    /// The bottom edge, which has the greater y.
    fn bottom_edge(&self) -> (r: i64)
        ensures
            r == self.bounds().bottom(),
    {
        sat_add(self.pos().y, self.size().y)
    }

    /// The top edge, which has the lesser y.
    fn top_edge(&self) -> (r: i64)
        ensures
            r == self.bounds().top(),
    {
        sat_sub(self.pos().y, self.size().y)
    }

    /// A copy of the body's box, for tests against other bodies.
    fn aabb(&self) -> (r: AABB)
        ensures
            r == self.bounds(),
    {
        AABB { pos: self.pos(), size: self.size(), vel: self.vel() }
    }

    /// Whether this box and `other` overlap.
    fn collides(&self, other: &AABB) -> (r: bool)
        ensures
            r == self.bounds().overlaps(*other),
    {
        let right = self.left_edge() > sat_add(other.pos.x, other.size.x);
        let left = self.right_edge() < sat_sub(other.pos.x, other.size.x);
        let up = self.bottom_edge() < sat_sub(other.pos.y, other.size.y);
        let down = self.top_edge() > sat_add(other.pos.y, other.size.y);
        !(right || left || up || down)
    }

    /// The sample point for horizontal collisions.
    fn collision_point_x(&self, other_vel: Vec2) -> (r: Vec2)
        ensures
            r == self.bounds().sample_x(other_vel),
    {
        let c = self.centre_pos();
        let half = fx_div(self.size().x, TWO);
        vec2(sat_add(c.x, fx_mul(half, signum(sat_sub(self.vel().x, other_vel.x)))), c.y)
    }

    /// The sample point for vertical collisions.
    fn collision_point_y(&self, other_vel: Vec2) -> (r: Vec2)
        ensures
            r == self.bounds().sample_y(other_vel),
    {
        let c = self.centre_pos();
        let half = fx_div(self.size().y, TWO);
        vec2(c.x, sat_add(c.y, fx_mul(half, signum(sat_sub(self.vel().y, other_vel.y)))))
    }

    /// The midpoints of the four sides.
    fn all_collision_points(&self) -> (r: [Vec2; 4])
        ensures
            r@ == self.bounds().samples(),
    {
        let c = self.centre_pos();
        let half_x = fx_div(self.size().x, TWO);
        let half_y = fx_div(self.size().y, TWO);
        let r = [
            vec2(sat_add(c.x, half_x), c.y),
            vec2(sat_sub(c.x, half_x), c.y),
            vec2(c.x, sat_add(c.y, half_y)),
            vec2(c.x, sat_sub(c.y, half_y)),
        ];
        assert(r@ =~= self.bounds().samples());
        r
    }

    /// Tests a point that arrives with `velocity` against this box and returns
    /// how far it has entered, if it is inside.
    fn point_collides(&self, point: Vec2, velocity: Vec2) -> (r: Option<Vec2>)
        ensures
            r == self.bounds().penetration(point, velocity),
    {
        let p = point;
        let v = velocity.minus(self.vel());
        let a = self.pos();
        let b = self.pos().plus(self.size());
        if a.x < p.x && b.x > p.x && a.y < p.y && b.y > p.y {
            Some(
                vec2(
                    if v.x < 0 {
                        sat_sub(b.x, p.x)
                    } else {
                        sat_sub(p.x, a.x)
                    },
                    if v.y < 0 {
                        sat_sub(b.y, p.y)
                    } else {
                        sat_sub(p.y, a.y)
                    },
                ),
            )
        } else {
            None
        }
    }
}

impl BoundingBox for AABB {
    open spec fn bounds(&self) -> AABB {
        *self
    }

    fn pos(&self) -> (r: Vec2) {
        self.pos
    }

    fn size(&self) -> (r: Vec2) {
        self.size
    }

    fn vel(&self) -> (r: Vec2) {
        self.vel
    }
}

/// Overlap does not depend on the order of the two boxes.
pub proof fn collides_symmetric(a: AABB, b: AABB)
    ensures
        a.overlaps(b) == b.overlaps(a),
{
}

/// A point is reported as colliding exactly when it lies strictly inside the
/// box, whatever the velocity.
pub proof fn penetration_iff_contains(b: AABB, point: Vec2, velocity: Vec2)
    ensures
        b.penetration(point, velocity).is_some() == b.contains(point),
{
}

/// The box from (0, 0) with the size (1, 1) reports the point (0.5, 0.5) as
/// colliding and the point (1.5, 0.5) as not colliding, whatever its own
/// velocity and that of the point.
pub proof fn unit_box_point_tests(vel: Vec2, velocity: Vec2)
    ensures
        (AABB { pos: Vec2 { x: 0, y: 0 }, size: Vec2 { x: ONE, y: ONE }, vel }).penetration(
            Vec2 { x: 500_000, y: 500_000 },
            velocity,
        ).is_some(),
        (AABB { pos: Vec2 { x: 0, y: 0 }, size: Vec2 { x: ONE, y: ONE }, vel }).penetration(
            Vec2 { x: 1_500_000, y: 500_000 },
            velocity,
        ).is_none(),
{
}

} // verus!
