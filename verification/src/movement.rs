//! The movement integrator that the player and the enemies share.
//!
//! One tick moves a body in a fixed order: the horizontal step, the horizontal
//! collisions, gravity (and a jump), the vertical step, the vertical collisions,
//! and drag. Collisions are tested with one sample point per axis, against every
//! obstacle in the order of the list.
use crate::bounding_box::{BoundingBox, AABB};
use crate::fixed::{fx_div, fx_min, fx_mul, sat_abs, sat_add, sat_sub, signum, ONE, TWO};
use crate::vec2::Vec2;
use vstd::prelude::*;

verus! {

/// The downward acceleration per tick: 0.004.
pub const GRAVITY: i64 = 4_000;

/// The horizontal drag coefficient: 15.
pub const DRAG_X: i64 = 15_000_000;

/// The vertical drag coefficient: 2.
pub const DRAG_Y: i64 = 2_000_000;

/// The part of the speed of an impact that friction takes from the speed along
/// the surface: 0.5.
pub const FRICTION: i64 = 500_000;

/// The value of `grounded` for a body that has never stood on anything: a time
/// further in the past than any other.
pub const NEVER_GROUNDED: i64 = i64::MIN;

/// The part of a moving body that the integrator changes.
#[derive(Debug, Clone, Copy, PartialEq, Eq, Structural)]
pub struct Motion {
    /// The centre of the body.
    pub centre_pos: Vec2,
    /// Its velocity.
    pub vel: Vec2,
    /// When it last stood on something.
    pub grounded: i64,
    /// Whether an enemy has hurt it in this tick.
    pub damaged: bool,
}

/// Something that a moving body can run into.
#[derive(Debug, Clone, Copy, PartialEq, Eq, Structural)]
pub struct Obstacle {
    /// The box of the obstacle.
    pub bounds: AABB,
    /// Whether contact with it hurts.
    pub is_enemy: bool,
}

/// The box of a body of the given size whose centre and velocity are those of
/// `m`.
pub open spec fn spec_body(m: Motion, size: Vec2) -> AABB {
    AABB { pos: m.centre_pos.minus(size.shrink(TWO)), size, vel: m.vel }
}

/// What is lost of the speed `along` a surface when the body meets it with the
/// relative speed `diff`: the friction share of `diff`, but no more than there
/// is.
pub open spec fn spec_bleed(along: i64, diff: i64) -> i64 {
    sat_sub(along, fx_mul(signum(along), fx_min(fx_mul(sat_abs(diff), FRICTION), sat_abs(along))))
}

/// The horizontal step: the velocity gains `accel`, then the body moves by its
/// velocity.
pub open spec fn spec_push_x(m: Motion, accel: i64) -> Motion {
    let vx = sat_add(m.vel.x, accel);
    Motion {
        centre_pos: Vec2 { x: sat_add(m.centre_pos.x, vx), y: m.centre_pos.y },
        vel: Vec2 { x: vx, y: m.vel.y },
        ..m
    }
}

/// The horizontal collision with one obstacle. Where the sample point is inside
/// the obstacle, the body is pushed back out against its relative velocity, loses
/// vertical speed to friction and takes over the obstacle's horizontal velocity;
/// an enemy hurts.
pub open spec fn spec_hit_x(m: Motion, size: Vec2, ob: Obstacle) -> Motion {
    let p = spec_body(m, size).sample_x(ob.bounds.vel);
    match ob.bounds.penetration(p, m.vel) {
        None => m,
        Some(correction) => {
            let diff = sat_sub(m.vel.x, ob.bounds.vel.x);
            Motion {
                centre_pos: Vec2 {
                    x: sat_sub(m.centre_pos.x, fx_mul(signum(diff), correction.x)),
                    y: m.centre_pos.y,
                },
                vel: Vec2 { x: ob.bounds.vel.x, y: spec_bleed(m.vel.y, diff) },
                grounded: m.grounded,
                damaged: m.damaged || ob.is_enemy,
            }
        },
    }
}

/// The horizontal collisions with all obstacles, in the order of the list.
pub open spec fn spec_sweep_x(m: Motion, size: Vec2, obs: Seq<Obstacle>) -> Motion
    decreases obs.len(),
{
    if obs.len() == 0 {
        m
    } else {
        spec_hit_x(spec_sweep_x(m, size, obs.drop_last()), size, obs.last())
    }
}

/// Gravity: the vertical velocity loses `GRAVITY`.
pub open spec fn spec_gravity(m: Motion) -> Motion {
    Motion { vel: Vec2 { x: m.vel.x, y: sat_sub(m.vel.y, GRAVITY) }, ..m }
}

/// Whether a body that last stood on something at `grounded` may still jump at
/// `now`: less than `limit` has passed.
pub open spec fn spec_can_jump(grounded: i64, now: i64, limit: i64) -> bool {
    sat_sub(now, grounded) < limit
}

/// The jump. Where the jump is held and the body may still jump, the vertical
/// velocity gains `jump_vel` and `grounded` is set to `-limit`, so that the
/// jump cannot be repeated before the body has landed again.
pub open spec fn spec_jump(m: Motion, held: bool, now: i64, limit: i64, jump_vel: i64) -> Motion {
    if spec_can_jump(m.grounded, now, limit) && held {
        Motion {
            vel: Vec2 { x: m.vel.x, y: sat_add(m.vel.y, jump_vel) },
            grounded: sat_sub(0, limit),
            ..m
        }
    } else {
        m
    }
}

/// The vertical step: the body moves by its vertical velocity.
pub open spec fn spec_push_y(m: Motion) -> Motion {
    Motion { centre_pos: Vec2 { x: m.centre_pos.x, y: sat_add(m.centre_pos.y, m.vel.y) }, ..m }
}

/// The vertical collision with one obstacle. Where the sample point is inside
/// the obstacle: a body that moves down relative to the obstacle has landed, and
/// `grounded` becomes `now`; otherwise an enemy hurts. The body is pushed back
/// out, loses horizontal speed to friction and takes over the obstacle's
/// vertical velocity.
pub open spec fn spec_hit_y(m: Motion, size: Vec2, ob: Obstacle, now: i64) -> Motion {
    let p = spec_body(m, size).sample_y(ob.bounds.vel);
    match ob.bounds.penetration(p, m.vel) {
        None => m,
        Some(correction) => {
            let diff = sat_sub(m.vel.y, ob.bounds.vel.y);
            let landing = diff < 0;
            Motion {
                centre_pos: Vec2 {
                    x: m.centre_pos.x,
                    y: sat_sub(m.centre_pos.y, fx_mul(signum(diff), correction.y)),
                },
                vel: Vec2 { x: spec_bleed(m.vel.x, diff), y: ob.bounds.vel.y },
                grounded: if landing {
                    now
                } else {
                    m.grounded
                },
                damaged: m.damaged || (!landing && ob.is_enemy),
            }
        },
    }
}

/// The vertical collisions with all obstacles, in the order of the list.
pub open spec fn spec_sweep_y(m: Motion, size: Vec2, obs: Seq<Obstacle>, now: i64) -> Motion
    decreases obs.len(),
{
    if obs.len() == 0 {
        m
    } else {
        spec_hit_y(spec_sweep_y(m, size, obs.drop_last(), now), size, obs.last(), now)
    }
}

/// The speed `v` after drag with the coefficient `k`: `v / (|v| * k + 1)`.
pub open spec fn spec_slowed(v: i64, k: i64) -> i64 {
    fx_div(v, sat_add(fx_mul(sat_abs(v), k), ONE))
}

/// Drag, on each axis by itself.
pub open spec fn spec_drag(m: Motion) -> Motion {
    Motion { vel: Vec2 { x: spec_slowed(m.vel.x, DRAG_X), y: spec_slowed(m.vel.y, DRAG_Y) }, ..m }
}

/// The box of a body of the given size that moves as `m` says.
#[verifier::when_used_as_spec(spec_body)]
pub fn body(m: Motion, size: Vec2) -> (r: AABB)
    ensures
        r == spec_body(m, size),
{
    AABB { pos: m.centre_pos.minus(size.shrink(TWO)), size, vel: m.vel }
}

/// Takes from the speed `along` a surface what friction costs at the relative
/// speed `diff`.
#[verifier::when_used_as_spec(spec_bleed)]
pub fn bleed(along: i64, diff: i64) -> (r: i64)
    ensures
        r == spec_bleed(along, diff),
{
    sat_sub(along, fx_mul(signum(along), fx_min(fx_mul(sat_abs(diff), FRICTION), sat_abs(along))))
}

/// Accelerates the body horizontally by `accel` and moves it.
#[verifier::when_used_as_spec(spec_push_x)]
pub fn push_x(m: Motion, accel: i64) -> (r: Motion)
    ensures
        r == spec_push_x(m, accel),
{
    let mut r = m;
    r.vel.x = sat_add(r.vel.x, accel);
    r.centre_pos.x = sat_add(r.centre_pos.x, r.vel.x);
    r
}

/// Resolves the horizontal collision of the body with one obstacle.
#[verifier::when_used_as_spec(spec_hit_x)]
pub fn hit_x(m: Motion, size: Vec2, ob: Obstacle) -> (r: Motion)
    ensures
        r == spec_hit_x(m, size, ob),
{
    let mut r = m;
    let p = body(m, size).collision_point_x(ob.bounds.vel);
    if let Some(correction) = ob.bounds.point_collides(p, m.vel) {
        if ob.is_enemy {
            r.damaged = true;
        }
        let diff = m.vel.minus(ob.bounds.vel).x;
        r.centre_pos.x = sat_sub(r.centre_pos.x, fx_mul(signum(diff), correction.x));
        r.vel.y = bleed(r.vel.y, diff);
        r.vel.x = ob.bounds.vel.x;
    }
    r
}

/// Resolves the horizontal collisions of the body with all obstacles, first to
/// last.
pub fn sweep_x(m: Motion, size: Vec2, obs: &Vec<Obstacle>) -> (r: Motion)
    ensures
        r == spec_sweep_x(m, size, obs@),
{
    let mut r = m;
    let mut i: usize = 0;
    while i < obs.len()
        invariant
            i <= obs.len(),
            r == spec_sweep_x(m, size, obs@.take(i as int)),
        decreases obs.len() - i,
    {
        assert(obs@.take(i + 1).drop_last() =~= obs@.take(i as int));
        r = hit_x(r, size, obs[i]);
        i += 1;
    }
    assert(obs@.take(i as int) =~= obs@);
    r
}

/// Applies gravity.
#[verifier::when_used_as_spec(spec_gravity)]
pub fn gravity(m: Motion) -> (r: Motion)
    ensures
        r == spec_gravity(m),
{
    let mut r = m;
    r.vel.y = sat_sub(r.vel.y, GRAVITY);
    r
}

/// Whether a body that was last grounded at `grounded` may still jump at `now`.
#[verifier::when_used_as_spec(spec_can_jump)]
pub fn can_jump(grounded: i64, now: i64, limit: i64) -> (r: bool)
    ensures
        r == spec_can_jump(grounded, now, limit),
{
    sat_sub(now, grounded) < limit
}

/// Lets the body jump if the jump is held and it may still jump.
#[verifier::when_used_as_spec(spec_jump)]
pub fn jump(m: Motion, held: bool, now: i64, limit: i64, jump_vel: i64) -> (r: Motion)
    ensures
        r == spec_jump(m, held, now, limit, jump_vel),
{
    let mut r = m;
    if can_jump(m.grounded, now, limit) && held {
        r.vel.y = sat_add(r.vel.y, jump_vel);
        r.grounded = sat_sub(0, limit);
    }
    r
}

/// Moves the body vertically.
#[verifier::when_used_as_spec(spec_push_y)]
pub fn push_y(m: Motion) -> (r: Motion)
    ensures
        r == spec_push_y(m),
{
    let mut r = m;
    r.centre_pos.y = sat_add(r.centre_pos.y, r.vel.y);
    r
}

/// Resolves the vertical collision of the body with one obstacle.
#[verifier::when_used_as_spec(spec_hit_y)]
pub fn hit_y(m: Motion, size: Vec2, ob: Obstacle, now: i64) -> (r: Motion)
    ensures
        r == spec_hit_y(m, size, ob, now),
{
    let mut r = m;
    let p = body(m, size).collision_point_y(ob.bounds.vel);
    if let Some(correction) = ob.bounds.point_collides(p, m.vel) {
        let diff = m.vel.minus(ob.bounds.vel).y;
        if diff < 0 {
            r.grounded = now;
        } else if ob.is_enemy {
            r.damaged = true;
        }
        r.centre_pos.y = sat_sub(r.centre_pos.y, fx_mul(signum(diff), correction.y));
        r.vel.x = bleed(r.vel.x, diff);
        r.vel.y = ob.bounds.vel.y;
    }
    r
}

/// Resolves the vertical collisions of the body with all obstacles, first to
/// last.
pub fn sweep_y(m: Motion, size: Vec2, obs: &Vec<Obstacle>, now: i64) -> (r: Motion)
    ensures
        r == spec_sweep_y(m, size, obs@, now),
{
    let mut r = m;
    let mut i: usize = 0;
    while i < obs.len()
        invariant
            i <= obs.len(),
            r == spec_sweep_y(m, size, obs@.take(i as int), now),
        decreases obs.len() - i,
    {
        assert(obs@.take(i + 1).drop_last() =~= obs@.take(i as int));
        r = hit_y(r, size, obs[i], now);
        i += 1;
    }
    assert(obs@.take(i as int) =~= obs@);
    r
}

/// The divisor of drag is never below `ONE`.
pub proof fn lemma_drag_divisor(v: i64, k: i64)
    requires
        k >= 0,
    ensures
        sat_add(fx_mul(sat_abs(v), k), ONE) >= ONE,
{
    let a: int = sat_abs(v) as int;
    let kk: int = k as int;
    assert(a * kk >= 0) by (nonlinear_arith)
        requires
            a >= 0,
            kk >= 0,
    ;
}

/// Slows the speed `v` by drag with the coefficient `k`. The divisor must not
/// be zero; with a coefficient that is not negative it never is.
#[verifier::when_used_as_spec(spec_slowed)]
pub fn slowed(v: i64, k: i64) -> (r: i64)
    requires
        sat_add(fx_mul(sat_abs(v), k), ONE) != 0,
    ensures
        r == spec_slowed(v, k),
{
    fx_div(v, sat_add(fx_mul(sat_abs(v), k), ONE))
}

/// Applies drag to both axes.
#[verifier::when_used_as_spec(spec_drag)]
pub fn drag(m: Motion) -> (r: Motion)
    ensures
        r == spec_drag(m),
{
    proof {
        lemma_drag_divisor(m.vel.x, DRAG_X);
        lemma_drag_divisor(m.vel.y, DRAG_Y);
    }
    let mut r = m;
    r.vel.x = slowed(m.vel.x, DRAG_X);
    r.vel.y = slowed(m.vel.y, DRAG_Y);
    r
}

/// A body that a horizontal collision has pushed back moves horizontally as
/// the obstacle does.
pub proof fn horizontal_hit_couples_velocity(m: Motion, size: Vec2, ob: Obstacle)
    requires
        ob.bounds.penetration(spec_body(m, size).sample_x(ob.bounds.vel), m.vel).is_some(),
    ensures
        spec_hit_x(m, size, ob).vel.x == ob.bounds.vel.x,
        ob.bounds.vel.x == 0 ==> spec_hit_x(m, size, ob).vel.x == 0,
{
}

/// A body that a vertical collision has pushed back moves vertically as the
/// obstacle does.
pub proof fn vertical_hit_couples_velocity(m: Motion, size: Vec2, ob: Obstacle, now: i64)
    requires
        ob.bounds.penetration(spec_body(m, size).sample_y(ob.bounds.vel), m.vel).is_some(),
    ensures
        spec_hit_y(m, size, ob, now).vel.y == ob.bounds.vel.y,
        ob.bounds.vel.y == 0 ==> spec_hit_y(m, size, ob, now).vel.y == 0,
{
}

/// Friction and drag take nothing from a speed of zero.
pub proof fn lemma_rest_stays_rest(diff: i64, k: i64)
    requires
        k >= 0,
    ensures
        spec_bleed(0, diff) == 0,
        spec_slowed(0, k) == 0,
{
    let a: int = sat_abs(diff) as int;
    let f: int = FRICTION as int;
    assert(a * f >= 0) by (nonlinear_arith)
        requires
            a >= 0,
            f >= 0,
    ;
    lemma_drag_divisor(0, k);
}

/// The vertical collisions leave a body that is horizontally at rest
/// horizontally at rest.
pub proof fn sweep_y_keeps_horizontal_rest(m: Motion, size: Vec2, obs: Seq<Obstacle>, now: i64)
    requires
        m.vel.x == 0,
    ensures
        spec_sweep_y(m, size, obs, now).vel.x == 0,
    decreases obs.len(),
{
    if obs.len() > 0 {
        sweep_y_keeps_horizontal_rest(m, size, obs.drop_last(), now);
        let before = spec_sweep_y(m, size, obs.drop_last(), now);
        lemma_rest_stays_rest(sat_sub(before.vel.y, obs.last().bounds.vel.y), 0);
    }
}

/// A body that is horizontally at rest after the horizontal collisions, as it is
/// after meeting a platform, is horizontally at rest at the end of the tick:
/// neither gravity, a jump, the vertical step and collisions nor drag move it
/// sideways.
pub proof fn horizontal_rest_lasts(
    m: Motion,
    size: Vec2,
    obs: Seq<Obstacle>,
    held: bool,
    now: i64,
    limit: i64,
    jump_vel: i64,
)
    requires
        m.vel.x == 0,
    ensures
        spec_drag(
            spec_sweep_y(
                spec_push_y(spec_jump(spec_gravity(m), held, now, limit, jump_vel)),
                size,
                obs,
                now,
            ),
        ).vel.x == 0,
        spec_drag(spec_sweep_y(spec_push_y(spec_gravity(m)), size, obs, now)).vel.x == 0,
{
    sweep_y_keeps_horizontal_rest(
        spec_push_y(spec_jump(spec_gravity(m), held, now, limit, jump_vel)),
        size,
        obs,
        now,
    );
    sweep_y_keeps_horizontal_rest(spec_push_y(spec_gravity(m)), size, obs, now);
    lemma_rest_stays_rest(0, DRAG_X);
}

/// A held jump succeeds exactly while less than `limit` has passed since the
/// body last stood on something. When it succeeds, the vertical velocity gains
/// `jump_vel` and `grounded` becomes `-limit`; when it does not, or the jump is
/// not held, nothing changes.
pub proof fn jump_window(m: Motion, held: bool, now: i64, limit: i64, jump_vel: i64)
    requires
        limit > i64::MIN,
    ensures
        spec_can_jump(m.grounded, now, limit) <==> now - m.grounded < limit,
        held && now - m.grounded < limit ==> spec_jump(m, held, now, limit, jump_vel) == (Motion {
            vel: Vec2 { x: m.vel.x, y: sat_add(m.vel.y, jump_vel) },
            grounded: sat_sub(0, limit),
            ..m
        }),
        !held || now - m.grounded >= limit ==> spec_jump(m, held, now, limit, jump_vel) == m,
{
}

/// With a limit of 5, a jump that is held 4.9 after the body last stood on
/// something succeeds and leaves `grounded` negative; held 5.1 after, it does
/// nothing.
pub proof fn coyote_time(m: Motion, jump_vel: i64)
    requires
        m.grounded + 5_100_000 <= i64::MAX,
    ensures
        spec_jump(m, true, (m.grounded + 4_900_000) as i64, 5_000_000, jump_vel).vel.y == sat_add(
            m.vel.y,
            jump_vel,
        ),
        spec_jump(m, true, (m.grounded + 4_900_000) as i64, 5_000_000, jump_vel).grounded < 0,
        spec_jump(m, true, (m.grounded + 5_100_000) as i64, 5_000_000, jump_vel) == m,
{
}

} // verus!
