//! The player.
use crate::bounding_box::{BoundingBox, AABB};
use crate::enemy::{obstacles, spec_obstacles, Enemy};
use crate::fixed::{fx_mul, lemma_mul_by_unit, sat_add, sat_sub, ONE, TWO};
use crate::movement::{
    drag, gravity, horizontal_rest_lasts, jump, lemma_rest_stays_rest, push_x, push_y,
    spec_drag, spec_gravity, spec_jump, spec_push_x, spec_push_y, spec_sweep_x, spec_sweep_y,
    sweep_x, sweep_y, Motion, Obstacle, DRAG_X, DRAG_Y, GRAVITY, NEVER_GROUNDED,
};
use crate::platform::Platform;
use crate::trail::{trail_after, trail_vertices, update_trail, Trail};
use crate::uniforms::{follow, UniformData};
use crate::vec2::{vec2, Vec2};
use crate::vertex::{at_once, quad, spec_make_quad, uniform, Vertex, PLAYER_LAYER};
use vstd::prelude::*;

verus! {

/// The width of the player: 0.1.
pub const PLAYER_WIDTH: i64 = 100_000;

/// The height of the player: 0.2.
pub const PLAYER_HEIGHT: i64 = 200_000;

/// The acceleration of a player with footing: 0.005.
pub const PLAYER_SPEED: i64 = 5_000;

/// The acceleration of a player in the air: 0.0025.
pub const PLAYER_AIR_SPEED: i64 = 2_500;

/// The vertical speed that a jump adds: 0.13.
pub const JUMP_VEL: i64 = 130_000;

/// The hit points of a fresh player: 30.
pub const MAX_HP: i64 = 30_000_000;

/// How long after it last stood on something the player may still jump, and
/// still moves at full speed: 5.
pub const GROUNDED_LIMIT: i64 = 5_000_000;

/// The hit points that the player regains in every tick: 0.05.
pub const REGEN: i64 = 50_000;

/// The hit points that the player loses in a tick in which an enemy hurts it: 1.
pub const DAMAGE: i64 = 1_000_000;

/// The index in `movement` of the flag for moving right.
pub const MOVE_RIGHT: usize = 0;

/// The index in `movement` of the flag for moving left.
pub const MOVE_LEFT: usize = 1;

/// The index in `movement` of the flag for jumping.
pub const JUMP: usize = 2;

/// The player.
#[derive(Debug)]
pub struct Player {
    pub centre_pos: Vec2,
    pub vel: Vec2,
    /// The held controls: right, left, jump, and one that is not used.
    pub movement: [bool; 4],
    /// When the player last stood on something.
    pub grounded: i64,
    /// The hit points.
    pub hp: i64,
    /// Where the player has been, newest first.
    pub trail: Vec<Trail>,
}

/// The player as a mathematical value.
pub ghost struct PlayerView {
    pub centre_pos: Vec2,
    pub vel: Vec2,
    pub movement: Seq<bool>,
    pub grounded: i64,
    pub hp: i64,
    pub trail: Seq<Trail>,
}

impl View for Player {
    type V = PlayerView;

    open spec fn view(&self) -> PlayerView {
        PlayerView {
            centre_pos: self.centre_pos,
            vel: self.vel,
            movement: self.movement@,
            grounded: self.grounded,
            hp: self.hp,
            trail: self.trail@,
        }
    }
}

/// A control as a factor: `ONE` while held, zero otherwise.
pub open spec fn spec_held(flag: bool) -> i64 {
    if flag {
        ONE
    } else {
        0
    }
}

/// A control as a factor: `ONE` while held, zero otherwise.
#[verifier::when_used_as_spec(spec_held)]
pub fn held(flag: bool) -> (r: i64)
    ensures
        r == spec_held(flag),
{
    if flag {
        ONE
    } else {
        0
    }
}

impl PlayerView {
    /// The fresh player: at the origin, at rest, never grounded, with no
    /// control held, with full hit points and no trail.
    pub open spec fn fresh() -> PlayerView {
        PlayerView {
            centre_pos: Vec2::zero(),
            vel: Vec2::zero(),
            movement: seq![false, false, false, false],
            grounded: NEVER_GROUNDED,
            hp: MAX_HP,
            trail: Seq::empty(),
        }
    }

    /// The size of the player.
    pub open spec fn extent() -> Vec2 {
        Vec2 { x: PLAYER_WIDTH, y: PLAYER_HEIGHT }
    }

    /// The box of the player.
    pub open spec fn bounds(self) -> AABB {
        AABB {
            pos: self.centre_pos.minus(Self::extent().shrink(TWO)),
            size: Self::extent(),
            vel: self.vel,
        }
    }

    /// The acceleration of the player at time `now`: full while it stood on
    /// something less than `GROUNDED_LIMIT` ago, half otherwise.
    pub open spec fn move_speed(self, now: i64) -> i64 {
        if sat_sub(now, self.grounded) < GROUNDED_LIMIT {
            PLAYER_SPEED
        } else {
            PLAYER_AIR_SPEED
        }
    }

    /// The direction that the controls ask for: right minus left.
    pub open spec fn steering(self) -> i64 {
        sat_sub(
            spec_held(self.movement[MOVE_RIGHT as int]),
            spec_held(self.movement[MOVE_LEFT as int]),
        )
    }

    /// The player's motion after the horizontal step and the horizontal
    /// collisions of a tick at time `now`. Enemies come before platforms.
    pub open spec fn across(
        self,
        platforms: Seq<Platform>,
        enemies: Seq<Enemy>,
        now: i64,
    ) -> Motion {
        let start = Motion {
            centre_pos: self.centre_pos,
            vel: self.vel,
            grounded: self.grounded,
            damaged: false,
        };
        let accel = fx_mul(self.steering(), self.move_speed(now));
        spec_sweep_x(spec_push_x(start, accel), Self::extent(), spec_obstacles(enemies, platforms))
    }

    /// The player's motion after a whole tick at time `now`: after the
    /// horizontal step and collisions come gravity and the jump, the vertical
    /// step and collisions, and drag.
    pub open spec fn moved(
        self,
        platforms: Seq<Platform>,
        enemies: Seq<Enemy>,
        now: i64,
    ) -> Motion {
        let risen = spec_jump(
            spec_gravity(self.across(platforms, enemies, now)),
            self.movement[JUMP as int],
            now,
            GROUNDED_LIMIT,
            JUMP_VEL,
        );
        spec_drag(
            spec_sweep_y(
                spec_push_y(risen),
                Self::extent(),
                spec_obstacles(enemies, platforms),
                now,
            ),
        )
    }

    /// The hit points after a tick: `REGEN` more, and `DAMAGE` less if an enemy
    /// has hurt the player, however many enemies did. Healing has no upper
    /// limit: the hit points may exceed `MAX_HP`.
    pub open spec fn healed(self, damaged: bool) -> i64 {
        let hp = sat_add(self.hp, REGEN);
        if damaged {
            sat_sub(hp, DAMAGE)
        } else {
            hp
        }
    }

    /// What is drawn of the player: its box, white and without shine, then its
    /// trail.
    pub open spec fn vertices(self) -> Seq<Vertex> {
        let white = [1_000_000i64, 1_000_000i64, 1_000_000i64, 1_000_000i64];
        let none = [0i64, 0i64, 0i64, 0i64];
        let never = [0i64, 0i64, 0i64];
        spec_make_quad(
            self.bounds().pos,
            PLAYER_LAYER,
            Self::extent(),
            [white, white, white, white],
            [none, none, none, none],
            [never, never, never, never],
            0,
            never,
        ) + trail_vertices(self.trail)
    }

    /// The player after one tick at time `now`.
    pub open spec fn step(
        self,
        platforms: Seq<Platform>,
        enemies: Seq<Enemy>,
        now: i64,
    ) -> PlayerView {
        let end = self.moved(platforms, enemies, now);
        PlayerView {
            centre_pos: end.centre_pos,
            vel: end.vel,
            movement: self.movement,
            grounded: end.grounded,
            hp: self.healed(end.damaged),
            trail: trail_after(self.trail, self.centre_pos, end.centre_pos, now),
        }
    }
}

impl BoundingBox for Player {
    open spec fn bounds(&self) -> AABB {
        self@.bounds()
    }

    fn pos(&self) -> (r: Vec2) {
        self.centre_pos.minus(self.size().shrink(TWO))
    }

    fn size(&self) -> (r: Vec2) {
        vec2(PLAYER_WIDTH, PLAYER_HEIGHT)
    }

    fn vel(&self) -> (r: Vec2) {
        self.vel
    }
}

impl Player {
    /// A fresh player.
    pub fn new() -> (r: Player)
        ensures
            r@ == PlayerView::fresh(),
    {
        let r = Player {
            centre_pos: Vec2::zero(),
            vel: Vec2::zero(),
            movement: [false, false, false, false],
            grounded: NEVER_GROUNDED,
            hp: MAX_HP,
            trail: Vec::new(),
        };
        assert(r.movement@ =~= seq![false, false, false, false]);
        r
    }

    /// The acceleration of the player at time `now`.
    pub fn move_speed(&self, now: i64) -> (r: i64)
        ensures
            r == self@.move_speed(now),
    {
        if sat_sub(now, self.grounded) < GROUNDED_LIMIT {
            PLAYER_SPEED
        } else {
            PLAYER_AIR_SPEED
        }
    }

    /// The vertical speed that a jump adds.
    pub fn jump_vel(&self) -> (r: i64)
        ensures
            r == JUMP_VEL,
    {
        JUMP_VEL
    }

    /// The hit points of a fresh player.
    pub fn max_hp(&self) -> (r: i64)
        ensures
            r == MAX_HP,
    {
        MAX_HP
    }

    /// How long after it last stood on something the player may still jump.
    pub fn grounded_limit(&self) -> (r: i64)
        ensures
            r == GROUNDED_LIMIT,
    {
        GROUNDED_LIMIT
    }

    /// Moves the player by one tick at the time that `uniforms` shows, against
    /// the enemies first and the platforms second; heals and hurts it; records
    /// the move in the trail; and lets the camera follow.
    pub fn do_movement(
        &mut self,
        platforms: &Vec<Platform>,
        enemies: &Vec<Enemy>,
        uniforms: &mut UniformData,
    )
        ensures
            final(self)@ == old(self)@.step(platforms@, enemies@, old(uniforms).time),
            final(uniforms).time == old(uniforms).time,
            final(uniforms).cam_pos == follow(old(uniforms).cam_pos, final(self).centre_pos),
    {
        let now = uniforms.time;
        let old_pos = self.centre_pos;
        let obs = obstacles(enemies, platforms);
        let size = self.size();
        let mut m = Motion {
            centre_pos: self.centre_pos,
            vel: self.vel,
            grounded: self.grounded,
            damaged: false,
        };
        let movement_x = sat_sub(held(self.movement[MOVE_RIGHT]), held(self.movement[MOVE_LEFT]));
        m = push_x(m, fx_mul(movement_x, self.move_speed(now)));
        m = sweep_x(m, size, &obs);
        m = gravity(m);
        m = jump(m, self.movement[JUMP], now, self.grounded_limit(), self.jump_vel());
        m = push_y(m);
        m = sweep_y(m, size, &obs, now);
        m = drag(m);
        self.centre_pos = m.centre_pos;
        self.vel = m.vel;
        self.grounded = m.grounded;
        self.hp = sat_add(self.hp, REGEN);
        if m.damaged {
            self.hp = sat_sub(self.hp, DAMAGE);
        }
        update_trail(&mut self.trail, old_pos, self.centre_pos, now);
        uniforms.follow_player(self.centre_pos);
    }

    /// Adds the player and its trail to the vertices to draw.
    pub fn render(&self, v: &mut Vec<Vertex>)
        ensures
            final(v)@ == old(v)@ + self@.vertices(),
    {
        let never = at_once(0);
        quad(
            v,
            self.pos(),
            PLAYER_LAYER,
            self.size(),
            uniform([1_000_000, 1_000_000, 1_000_000, 1_000_000]),
            uniform([0, 0, 0, 0]),
            [never, never, never, never],
            0,
            never,
        );
        let ghost head = v@;
        let mut i: usize = 0;
        while i < self.trail.len()
            invariant
                i <= self.trail.len(),
                v@ == head + trail_vertices(self.trail@.take(i as int)),
            decreases self.trail.len() - i,
        {
            assert(self.trail@.take(i + 1).drop_last() =~= self.trail@.take(i as int));
            self.trail[i].render(v);
            i += 1;
            assert(v@ =~= head + trail_vertices(self.trail@.take(i as int)));
        }
        assert(self.trail@.take(i as int) =~= self.trail@);
        assert(v@ =~= old(v)@ + self@.vertices());
    }
}

/// A player that the horizontal collisions of a tick have brought to rest
/// horizontally, as a platform does, ends the tick with a horizontal velocity
/// of exactly zero.
pub proof fn stopped_player_stays_stopped(
    p: PlayerView,
    platforms: Seq<Platform>,
    enemies: Seq<Enemy>,
    now: i64,
)
    requires
        p.across(platforms, enemies, now).vel.x == 0,
    ensures
        p.step(platforms, enemies, now).vel.x == 0,
{
    horizontal_rest_lasts(
        p.across(platforms, enemies, now),
        PlayerView::extent(),
        spec_obstacles(enemies, platforms),
        p.movement[JUMP as int],
        now,
        GROUNDED_LIMIT,
        JUMP_VEL,
    );
}

/// Whether a scalar lies within a thousand million units of zero, where sums
/// and differences of a few scalars are exact.
pub open spec fn in_world(v: i64) -> bool {
    -1_000_000_000_000_000 <= v <= 1_000_000_000_000_000
}

/// A player that stands still on a platform keeps standing. If it is at rest,
/// holds no control, and its lower face lies on the upper face of the only
/// platform, with its centre above the platform, then after a tick it is where
/// it was, it is at rest, it was last grounded now, and it has healed by
/// `REGEN`.
pub proof fn standing_is_stable(p: PlayerView, pl: Platform, now: i64)
    requires
        p.movement.len() == 4,
        !p.movement[MOVE_RIGHT as int],
        !p.movement[MOVE_LEFT as int],
        !p.movement[JUMP as int],
        p.vel == Vec2::spec_zero(),
        in_world(p.centre_pos.x),
        in_world(p.centre_pos.y),
        in_world(pl.centre_pos.x),
        in_world(pl.centre_pos.y),
        in_world(pl.size.x),
        in_world(pl.size.y),
        pl.size.y > 2 * GRAVITY,
        p.bounds().pos.y == pl.bounds().pos.y + pl.size.y,
        pl.bounds().pos.x < p.centre_pos.x < pl.bounds().pos.x + pl.size.x,
    ensures
        p.step(seq![pl], Seq::empty(), now).centre_pos == p.centre_pos,
        p.step(seq![pl], Seq::empty(), now).vel == Vec2::spec_zero(),
        p.step(seq![pl], Seq::empty(), now).grounded == now,
        p.step(seq![pl], Seq::empty(), now).hp == sat_add(p.hp, REGEN),
{
    let obs = spec_obstacles(Seq::<Enemy>::empty(), seq![pl]);
    assert(obs =~= seq![Obstacle { bounds: pl.bounds(), is_enemy: false }]);
    let size = PlayerView::extent();
    let start = Motion {
        centre_pos: p.centre_pos,
        vel: p.vel,
        grounded: p.grounded,
        damaged: false,
    };
    lemma_mul_by_unit(50_000);
    lemma_mul_by_unit(100_000);
    lemma_mul_by_unit(GRAVITY);
    // No control is held, so nothing accelerates the player, and its side does
    // not reach into the platform below it.
    assert(fx_mul(0, p.move_speed(now)) == 0);
    assert(spec_sweep_x(start, size, obs.drop_last()) == start);
    assert(spec_sweep_x(start, size, obs) == start);
    // Gravity pulls the lower face into the platform, which pushes it back.
    let fallen = spec_push_y(spec_gravity(start));
    assert(spec_sweep_y(fallen, size, obs.drop_last(), now) == fallen);
    let landed = spec_sweep_y(fallen, size, obs, now);
    assert(landed.centre_pos == p.centre_pos);
    assert(landed.vel == Vec2::spec_zero());
    assert(landed.grounded == now);
    lemma_rest_stays_rest(-GRAVITY as i64, DRAG_X);
    lemma_rest_stays_rest(0, DRAG_Y);
}
impl Default for Player {
    /// A fresh player.
    fn default() -> (r: Player)
        ensures
            r@ == PlayerView::fresh(),
    {
        Player::new()
    }
}

/// In one tick the player loses `DAMAGE` at most once: its hit points after the
/// tick are those before plus `REGEN`, less `DAMAGE` exactly if some enemy has
/// hurt it, whatever the number of enemies in contact.
pub proof fn damage_at_most_once(
    p: PlayerView,
    platforms: Seq<Platform>,
    enemies: Seq<Enemy>,
    now: i64,
)
    ensures
        p.step(platforms, enemies, now).hp == (if p.moved(platforms, enemies, now).damaged {
            sat_sub(sat_add(p.hp, REGEN), DAMAGE)
        } else {
            sat_add(p.hp, REGEN)
        }),
        p.step(platforms, enemies, now).hp >= sat_sub(sat_add(p.hp, REGEN), DAMAGE),
{
}

} // verus!
