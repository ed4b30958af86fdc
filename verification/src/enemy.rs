//! Enemies: bodies that pursue the player.
use crate::bounding_box::{BoundingBox, AABB};
use crate::fixed::{fx_div, fx_mul, sat_add, sat_sub, NEG_ONE, ONE, TWO};
use crate::movement::{
    drag, gravity, push_x, push_y, spec_drag, spec_gravity, spec_push_x, spec_push_y,
    spec_sweep_x, spec_sweep_y, sweep_x, sweep_y, Motion, Obstacle, NEVER_GROUNDED,
};
use crate::platform::Platform;
use crate::player::Player;
use crate::rand_gen::{advanced_by, output, seeded, spec_fraction, RandGen};
use crate::uniforms::UniformData;
use crate::vec2::{vec2, Vec2};
use crate::vertex::{at_once, quad, spec_make_quad, uniform, Vertex, ENEMY_LAYER};
use vstd::prelude::*;

verus! {

/// The width of an enemy: 0.08.
pub const ENEMY_WIDTH: i64 = 80_000;

/// The height of an enemy: 0.15.
pub const ENEMY_HEIGHT: i64 = 150_000;

/// How long after it last stood on something an enemy still moves at full
/// speed: 1.1.
pub const ENEMY_FOOTING: i64 = 1_100_000;

/// The acceleration of an enemy with footing: 0.0025.
pub const ENEMY_SPEED: i64 = 2_500;

/// The acceleration of an enemy in the air: 0.00125.
pub const ENEMY_AIR_SPEED: i64 = 1_250;

/// How many steps the generator makes before it gives an enemy's random
/// share.
pub const JITTER_SKIP: usize = 100;

/// The length of time that one unit of an enemy's seed stands for: 0.01.
pub const SEED_GRAIN: i64 = 10_000;

/// An enemy.
#[derive(Debug, Clone, Copy, PartialEq, Eq, Structural)]
pub struct Enemy {
    pub centre_pos: Vec2,
    pub vel: Vec2,
    /// When the enemy last stood on something.
    pub grounded: i64,
    /// When the enemy was made.
    pub start_time: i64,
}

/// The obstacles that a moving body meets, in the order in which it meets them:
/// the enemies first, then the platforms.
pub open spec fn spec_obstacles(enemies: Seq<Enemy>, platforms: Seq<Platform>) -> Seq<Obstacle> {
    Seq::new(enemies.len(), |i: int| Obstacle { bounds: enemies[i].bounds(), is_enemy: true })
        + Seq::new(
        platforms.len(),
        |i: int| Obstacle { bounds: platforms[i].bounds(), is_enemy: false },
    )
}

/// Lists the obstacles that a moving body meets: the enemies first, then the
/// platforms.
pub fn obstacles(enemies: &Vec<Enemy>, platforms: &Vec<Platform>) -> (r: Vec<Obstacle>)
    ensures
        r@ == spec_obstacles(enemies@, platforms@),
{
    let mut r: Vec<Obstacle> = Vec::new();
    let mut i: usize = 0;
    while i < enemies.len()
        invariant
            i <= enemies.len(),
            r@ == Seq::new(
                i as nat,
                |k: int| Obstacle { bounds: enemies@[k].bounds(), is_enemy: true },
            ),
        decreases enemies.len() - i,
    {
        r.push(Obstacle { bounds: enemies[i].aabb(), is_enemy: true });
        i += 1;
        assert(r@ =~= Seq::new(
            i as nat,
            |k: int| Obstacle { bounds: enemies@[k].bounds(), is_enemy: true },
        ));
    }
    let ghost first = r@;
    let mut j: usize = 0;
    while j < platforms.len()
        invariant
            j <= platforms.len(),
            r@ == first + Seq::new(
                j as nat,
                |k: int| Obstacle { bounds: platforms@[k].bounds(), is_enemy: false },
            ),
        decreases platforms.len() - j,
    {
        r.push(Obstacle { bounds: platforms[j].aabb(), is_enemy: false });
        j += 1;
        assert(r@ =~= first + Seq::new(
            j as nat,
            |k: int| Obstacle { bounds: platforms@[k].bounds(), is_enemy: false },
        ));
    }
    r
}

impl BoundingBox for Enemy {
    open spec fn bounds(&self) -> AABB {
        AABB {
            pos: self.centre_pos.minus(Enemy::spec_extent().shrink(TWO)),
            size: Enemy::spec_extent(),
            vel: self.vel,
        }
    }

    fn pos(&self) -> (r: Vec2) {
        self.centre_pos.minus(self.size().shrink(TWO))
    }

    fn size(&self) -> (r: Vec2) {
        vec2(ENEMY_WIDTH, ENEMY_HEIGHT)
    }

    fn vel(&self) -> (r: Vec2) {
        self.vel
    }
}

impl Enemy {
    /// The size of every enemy.
    pub open spec fn spec_extent() -> Vec2 {
        Vec2 { x: ENEMY_WIDTH, y: ENEMY_HEIGHT }
    }

    /// An enemy made at time `now`: at the origin, at rest, never grounded.
    pub open spec fn spec_new(now: i64) -> Enemy {
        Enemy {
            centre_pos: Vec2::zero(),
            vel: Vec2::zero(),
            grounded: NEVER_GROUNDED,
            start_time: now,
        }
    }

    /// The acceleration of the enemy at time `now`: full while it has footing,
    /// half in the air.
    pub open spec fn spec_move_speed(&self, now: i64) -> i64 {
        if sat_sub(now, self.grounded) < ENEMY_FOOTING {
            ENEMY_SPEED
        } else {
            ENEMY_AIR_SPEED
        }
    }

    /// The direction in which the enemy pursues a player at `player_x`: right
    /// where the player is further right, left otherwise.
    pub open spec fn spec_heading(&self, player_x: i64) -> i64 {
        if player_x > self.centre_pos.x {
            ONE
        } else {
            NEG_ONE
        }
    }

    /// The enemy after one tick at time `now`, with the player at `player_x`,
    /// among the other enemies and the platforms.
    pub open spec fn spec_step(
        self,
        player_x: i64,
        platforms: Seq<Platform>,
        others: Seq<Enemy>,
        now: i64,
    ) -> Enemy {
        let obs = spec_obstacles(others, platforms);
        let size = Enemy::spec_extent();
        let start = Motion {
            centre_pos: self.centre_pos,
            vel: self.vel,
            grounded: self.grounded,
            damaged: false,
        };
        let accel = fx_mul(self.spec_heading(player_x), self.spec_move_speed(now));
        let across = spec_sweep_x(spec_push_x(start, accel), size, obs);
        let down = spec_sweep_y(spec_push_y(spec_gravity(across)), size, obs, now);
        let end = spec_drag(down);
        Enemy {
            centre_pos: end.centre_pos,
            vel: end.vel,
            grounded: end.grounded,
            start_time: self.start_time,
        }
    }

    /// The seed of the enemy's random share: the hundredths of a time unit
    /// that had passed when it was made, and zero for a time before zero.
    pub open spec fn spec_seed(&self) -> u64 {
        if self.start_time < 0 {
            0
        } else {
            (self.start_time / SEED_GRAIN) as u64
        }
    }

    /// The enemy's random share, from zero to `ONE`: what a generator with the
    /// enemy's seed gives after `JITTER_SKIP` steps.
    pub open spec fn spec_jitter(&self) -> i64 {
        spec_fraction(output(advanced_by(seeded(self.spec_seed()), JITTER_SKIP as nat)))
    }

    /// The rate at which the enemy shines: `0.03 * (7 + 3 * jitter) / 10`, from
    /// 0.021 to 0.03.
    pub open spec fn spec_shine_rate(&self) -> i64 {
        fx_div(
            fx_mul(30_000, sat_add(7_000_000, fx_mul(3_000_000, self.spec_jitter()))),
            10_000_000,
        )
    }

    /// The time between the starts of the shine at one corner and the next:
    /// `0.2 / shine_rate`.
    pub open spec fn spec_shine_gap(&self) -> i64 {
        fx_div(200_000, self.spec_shine_rate())
    }

    /// What is drawn of the enemy: a dark purple rectangle that shines pink, at
    /// a rate of its own, from a start time that is later from corner to corner
    /// by the shine gap.
    pub open spec fn vertices(self) -> Seq<Vertex> {
        let t = self.start_time;
        let r = self.spec_shine_gap();
        let c = [300_000i64, 100_000i64, 300_000i64, 1_000_000i64];
        let s = [1_000_000i64, 300_000i64, 1_000_000i64, 500_000i64];
        let t1 = sat_add(t, r);
        let t2 = sat_add(t, fx_mul(r, TWO));
        let t3 = sat_add(t, fx_mul(r, 3_000_000));
        spec_make_quad(
            self.bounds().pos,
            ENEMY_LAYER,
            Enemy::spec_extent(),
            [c, c, c, c],
            [s, s, s, s],
            [[t, t, t], [t1, t1, t1], [t2, t2, t2], [t3, t3, t3]],
            self.spec_shine_rate(),
            [0i64, 0i64, 0i64],
        )
    }

    /// Makes an enemy at the time that `uniforms` shows.
    pub fn new(uniforms: &UniformData) -> (r: Enemy)
        ensures
            r == Enemy::spec_new(uniforms.time),
    {
        Enemy {
            centre_pos: Vec2::zero(),
            vel: Vec2::zero(),
            grounded: NEVER_GROUNDED,
            start_time: uniforms.time,
        }
    }

    /// The acceleration of the enemy at time `now`.
    #[verifier::when_used_as_spec(spec_move_speed)]
    pub fn move_speed(&self, now: i64) -> (r: i64)
        ensures
            r == self.spec_move_speed(now),
    {
        if sat_sub(now, self.grounded) < ENEMY_FOOTING {
            ENEMY_SPEED
        } else {
            ENEMY_AIR_SPEED
        }
    }

    /// Moves the enemy by one tick: toward the player, against the other enemies
    /// first and the platforms second.
    pub fn do_movement(
        &mut self,
        player: &Player,
        platforms: &Vec<Platform>,
        enemies: &Vec<Enemy>,
        uniforms: &UniformData,
    )
        ensures
            *final(self) == old(self).spec_step(
                player.centre_pos.x,
                platforms@,
                enemies@,
                uniforms.time,
            ),
    {
        let now = uniforms.time;
        let obs = obstacles(enemies, platforms);
        let size = self.size();
        let mut m = Motion {
            centre_pos: self.centre_pos,
            vel: self.vel,
            grounded: self.grounded,
            damaged: false,
        };
        let movement_x = if player.centre_pos.x > self.centre_pos.x {
            ONE
        } else {
            NEG_ONE
        };
        m = push_x(m, fx_mul(movement_x, self.move_speed(now)));
        m = sweep_x(m, size, &obs);
        m = gravity(m);
        m = push_y(m);
        m = sweep_y(m, size, &obs, now);
        m = drag(m);
        self.centre_pos = m.centre_pos;
        self.vel = m.vel;
        self.grounded = m.grounded;
    }

    /// The seed of the enemy's random share.
    #[verifier::when_used_as_spec(spec_seed)]
    pub fn seed(&self) -> (r: u64)
        ensures
            r == self.spec_seed(),
    {
        if self.start_time < 0 {
            0
        } else {
            (self.start_time / SEED_GRAIN) as u64
        }
    }

    /// The enemy's random share. It depends on nothing but the time at which
    /// the enemy was made.
    #[verifier::when_used_as_spec(spec_jitter)]
    pub fn jitter(&self) -> (r: i64)
        ensures
            r == self.spec_jitter(),
            0 <= r <= ONE,
    {
        let mut gen = RandGen::new(self.seed());
        let mut skipped = gen.skip(JITTER_SKIP);
        skipped.fraction()
    }

    /// The rate at which the enemy shines.
    #[verifier::when_used_as_spec(spec_shine_rate)]
    pub fn shine_rate(&self) -> (r: i64)
        ensures
            r == self.spec_shine_rate(),
            21_000 <= r <= 30_000,
    {
        fx_div(fx_mul(30_000, sat_add(7_000_000, fx_mul(3_000_000, self.jitter()))), 10_000_000)
    }

    /// Adds the enemy to the vertices to draw.
    pub fn render(&self, v: &mut Vec<Vertex>)
        ensures
            final(v)@ == old(v)@ + self.vertices(),
    {
        let t = self.start_time;
        let shine_rate = self.shine_rate();
        let r = fx_div(200_000, shine_rate);
        let start_time = [
            at_once(t),
            at_once(sat_add(t, r)),
            at_once(sat_add(t, fx_mul(r, TWO))),
            at_once(sat_add(t, fx_mul(r, 3_000_000))),
        ];
        quad(
            v,
            self.pos(),
            ENEMY_LAYER,
            self.size(),
            uniform([300_000, 100_000, 300_000, 1_000_000]),
            uniform([1_000_000, 300_000, 1_000_000, 500_000]),
            start_time,
            shine_rate,
            at_once(0),
        );
    }
}

/// What is drawn of the enemies: each of them, in order.
pub open spec fn enemies_vertices(enemies: Seq<Enemy>) -> Seq<Vertex>
    decreases enemies.len(),
{
    if enemies.len() == 0 {
        Seq::empty()
    } else {
        enemies_vertices(enemies.drop_last()) + enemies.last().vertices()
    }
}

} // verus!
