//! Platforms: the bodies that do not move.
use crate::bounding_box::{BoundingBox, AABB};
use crate::fixed::{fx_div, sat_sub, ONE, TWO};
use crate::movement::{spec_body, spec_hit_x, Motion, Obstacle};
use crate::vec2::Vec2;
use crate::vertex::{at_once, quad, spec_make_quad, uniform, Vertex, PLATFORM_LAYER};
use vstd::prelude::*;

verus! {

/// A platform, given by its centre and its size. It never moves: its velocity
/// is zero.
#[derive(Debug, Default, Clone, Copy, PartialEq, Eq, Structural)]
pub struct Platform {
    pub centre_pos: Vec2,
    pub size: Vec2,
}

impl BoundingBox for Platform {
    open spec fn bounds(&self) -> AABB {
        AABB {
            pos: self.centre_pos.minus(self.size.shrink(TWO)),
            size: self.size,
            vel: Vec2::zero(),
        }
    }

    fn pos(&self) -> (r: Vec2) {
        self.centre_pos.minus(self.size.shrink(TWO))
    }

    fn size(&self) -> (r: Vec2) {
        self.size
    }

    fn vel(&self) -> (r: Vec2) {
        Vec2::zero()
    }
}

impl Platform {
    /// The colour of the platform: black while the player has all its hit
    /// points, and the redder the fewer it has left.
    pub open spec fn spec_colour(player_hp_frac: i64) -> [i64; 4] {
        [fx_div(sat_sub(ONE, player_hp_frac), TWO), 0i64, 0i64, 1_000_000i64]
    }

    /// What is drawn of the platform: a rectangle of one colour that does not
    /// shine.
    pub open spec fn vertices(self, player_hp_frac: i64) -> Seq<Vertex> {
        let c = Self::spec_colour(player_hp_frac);
        let none = [0i64, 0i64, 0i64, 0i64];
        let never = [0i64, 0i64, 0i64];
        spec_make_quad(
            self.bounds().pos,
            PLATFORM_LAYER,
            self.size,
            [c, c, c, c],
            [none, none, none, none],
            [never, never, never, never],
            0,
            never,
        )
    }

    /// Adds the platform to the vertices to draw. Its colour depends on the
    /// share of its hit points that the player has left.
    pub fn render(&self, v: &mut Vec<Vertex>, player_hp_frac: i64)
        ensures
            final(v)@ == old(v)@ + self.vertices(player_hp_frac),
    {
        let never = at_once(0);
        quad(
            v,
            self.pos(),
            PLATFORM_LAYER,
            self.size(),
            uniform([fx_div(sat_sub(ONE, player_hp_frac), TWO), 0, 0, 1_000_000]),
            uniform([0, 0, 0, 0]),
            [never, never, never, never],
            0,
            never,
        );
    }
}

/// What is drawn of the platforms: each of them, in order.
pub open spec fn platforms_vertices(platforms: Seq<Platform>, player_hp_frac: i64) -> Seq<Vertex>
    decreases platforms.len(),
{
    if platforms.len() == 0 {
        Seq::empty()
    } else {
        platforms_vertices(platforms.drop_last(), player_hp_frac) + platforms.last().vertices(
            player_hp_frac,
        )
    }
}

/// A body that a horizontal collision with a platform has pushed back has a
/// horizontal velocity of exactly zero, as the platform has.
pub proof fn platform_stops_horizontal_motion(m: Motion, size: Vec2, platform: Platform)
    requires
        platform.bounds().penetration(
            spec_body(m, size).sample_x(platform.bounds().vel),
            m.vel,
        ).is_some(),
    ensures
        spec_hit_x(m, size, Obstacle { bounds: platform.bounds(), is_enemy: false }).vel.x == 0,
        spec_hit_x(m, size, Obstacle { bounds: platform.bounds(), is_enemy: false }).vel.x
            == platform.bounds().vel.x,
{
}

} // verus!
