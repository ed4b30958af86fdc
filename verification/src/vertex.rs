//! Vertices: what the simulation hands to the display.
//!
//! Rendering is a projection of the state: it changes nothing, and lists the
//! vertices of two triangles for every rectangle that is to be drawn, in
//! drawing order. A vertex has its place, its colour, the colour and the rate
//! of its shine, and the times that the shine is counted from. Colours are red,
//! green, blue and opacity, each from zero to `ONE`.
use crate::fixed::{fx_mul, sat_add, ONE};
use crate::vec2::{vec2, Vec2, Vec3};
use vstd::prelude::*;

verus! {

/// The layer of platforms, the furthest from the eye.
pub const PLATFORM_LAYER: usize = 0;

/// The layer of enemies.
pub const ENEMY_LAYER: usize = 1;

/// The layer of the trail.
pub const TRAIL_LAYER: usize = 10;

/// The layer of the player, the nearest to the eye.
pub const PLAYER_LAYER: usize = 100;

/// The depth of one layer: a ten-thousandth.
pub const LAYER_DEPTH: i64 = 100;

/// One corner of a triangle.
#[derive(Debug, Default, Clone, Copy, PartialEq, Eq)]
pub struct Vertex {
    pub pos: Vec3,
    pub color: [i64; 4],
    pub shine_color: [i64; 4],
    pub start_time: [i64; 3],
    pub shine_rate: i64,
    pub shine_bias: [i64; 3],
}

/// The depth at which layer `z` is drawn: `z / 10000`, clamped.
pub open spec fn spec_get_z(z: usize) -> i64 {
    if z * LAYER_DEPTH > i64::MAX {
        i64::MAX
    } else {
        (z * LAYER_DEPTH) as i64
    }
}

/// The corners of the rectangle at `pos` with the given size, in the order
/// (0, 0), (0, 1), (1, 0), (1, 1) of their offsets.
pub open spec fn spec_quad_corners(pos: Vec2, size: Vec2) -> Seq<Vec2> {
    seq![
        pos.plus(size.times(Vec2 { x: 0, y: 0 })),
        pos.plus(size.times(Vec2 { x: 0, y: ONE })),
        pos.plus(size.times(Vec2 { x: ONE, y: 0 })),
        pos.plus(size.times(Vec2 { x: ONE, y: ONE })),
    ]
}

/// The two triangles of a quad: of the corners 0 to 3, the corners 0, 1, 3 and
/// 0, 3, 2.
pub open spec fn spec_quadify<T>(x: Seq<T>) -> Seq<T> {
    seq![x[0], x[1], x[3], x[0], x[3], x[2]]
}

/// The vertices of the rectangle at `pos` with the given size on layer `z`:
/// two triangles, of corners that have each a colour, a shine colour and start
/// times of their own and share the rate and the bias of the shine.
#[verifier::opaque]
pub open spec fn spec_make_quad(
    pos: Vec2,
    z: usize,
    size: Vec2,
    color: [[i64; 4]; 4],
    shine_color: [[i64; 4]; 4],
    start_time: [[i64; 3]; 4],
    shine_rate: i64,
    shine_bias: [i64; 3],
) -> Seq<Vertex> {
    spec_quadify(
        Seq::new(
            4,
            |i: int|
                Vertex {
                    pos: spec_quad_corners(pos, size)[i].spec_extend(spec_get_z(z)),
                    color: color[i],
                    shine_color: shine_color[i],
                    start_time: start_time[i],
                    shine_rate,
                    shine_bias,
                },
        ),
    )
}

/// The depth at which layer `z` is drawn.
#[verifier::when_used_as_spec(spec_get_z)]
pub fn get_z(z: usize) -> (r: i64)
    ensures
        r == spec_get_z(z),
{
    let wide: u128 = z as u128 * LAYER_DEPTH as u128;
    if wide > i64::MAX as u128 {
        i64::MAX
    } else {
        wide as i64
    }
}

/// The corners of the rectangle at `pos` with the given size.
pub fn quad_corners(pos: Vec2, size: Vec2) -> (r: [Vec2; 4])
    ensures
        r@ == spec_quad_corners(pos, size),
{
    let r = [
        pos.plus(size.times(vec2(0, 0))),
        pos.plus(size.times(vec2(0, ONE))),
        pos.plus(size.times(vec2(ONE, 0))),
        pos.plus(size.times(vec2(ONE, ONE))),
    ];
    assert(r@ =~= spec_quad_corners(pos, size));
    r
}

/// Splits a quad into its two triangles.
pub fn quadify<T: Copy>(x: [T; 4]) -> (r: [T; 6])
    ensures
        r@ == spec_quadify(x@),
{
    let r = [x[0], x[1], x[3], x[0], x[3], x[2]];
    assert(r@ =~= spec_quadify(x@));
    r
}

/// Makes the vertices of a rectangle.
pub fn make_quad(
    pos: Vec2,
    z: usize,
    size: Vec2,
    color: [[i64; 4]; 4],
    shine_color: [[i64; 4]; 4],
    start_time: [[i64; 3]; 4],
    shine_rate: i64,
    shine_bias: [i64; 3],
) -> (r: [Vertex; 6])
    ensures
        r@ == spec_make_quad(
            pos,
            z,
            size,
            color,
            shine_color,
            start_time,
            shine_rate,
            shine_bias,
        ),
{
    reveal(spec_make_quad);
    let corners = quad_corners(pos, size);
    let depth = get_z(z);
    let r = [
        Vertex {
            pos: corners[0].extend(depth),
            color: color[0],
            shine_color: shine_color[0],
            start_time: start_time[0],
            shine_rate,
            shine_bias,
        },
        Vertex {
            pos: corners[1].extend(depth),
            color: color[1],
            shine_color: shine_color[1],
            start_time: start_time[1],
            shine_rate,
            shine_bias,
        },
        Vertex {
            pos: corners[2].extend(depth),
            color: color[2],
            shine_color: shine_color[2],
            start_time: start_time[2],
            shine_rate,
            shine_bias,
        },
        Vertex {
            pos: corners[3].extend(depth),
            color: color[3],
            shine_color: shine_color[3],
            start_time: start_time[3],
            shine_rate,
            shine_bias,
        },
    ];
    assert(r@ =~= Seq::new(
        4,
        |i: int|
            Vertex {
                pos: spec_quad_corners(pos, size)[i].spec_extend(spec_get_z(z)),
                color: color[i],
                shine_color: shine_color[i],
                start_time: start_time[i],
                shine_rate,
                shine_bias,
            },
    ));
    quadify(r)
}

/// Adds the six vertices of two triangles to the vertices to draw.
pub fn push_triangles(v: &mut Vec<Vertex>, triangles: [Vertex; 6])
    ensures
        final(v)@ == old(v)@ + triangles@,
{
    v.push(triangles[0]);
    v.push(triangles[1]);
    v.push(triangles[2]);
    v.push(triangles[3]);
    v.push(triangles[4]);
    v.push(triangles[5]);
    assert(v@ =~= old(v)@ + triangles@);
}

/// Adds the vertices of a rectangle to the vertices to draw.
pub fn quad(
    v: &mut Vec<Vertex>,
    pos: Vec2,
    z: usize,
    size: Vec2,
    color: [[i64; 4]; 4],
    shine_color: [[i64; 4]; 4],
    start_time: [[i64; 3]; 4],
    shine_rate: i64,
    shine_bias: [i64; 3],
)
    ensures
        final(v)@ == old(v)@ + spec_make_quad(
            pos,
            z,
            size,
            color,
            shine_color,
            start_time,
            shine_rate,
            shine_bias,
        ),
{
    push_triangles(
        v,
        make_quad(pos, z, size, color, shine_color, start_time, shine_rate, shine_bias),
    );
}

/// The same colour for each of the four corners.
pub fn uniform(c: [i64; 4]) -> (r: [[i64; 4]; 4])
    ensures
        r == [c, c, c, c],
{
    [c, c, c, c]
}

/// The same start time for each of the three parts of the shine.
pub fn at_once(t: i64) -> (r: [i64; 3])
    ensures
        r == [t, t, t],
{
    [t, t, t]
}

/// The corners of a rectangle are its own corner, and that corner moved by the
/// width, by the height, and by both.
pub proof fn quad_corners_span_the_rectangle(pos: Vec2, size: Vec2)
    ensures
        spec_quad_corners(pos, size)[0] == pos,
        spec_quad_corners(pos, size)[1] == (Vec2 { x: pos.x, y: sat_add(pos.y, size.y) }),
        spec_quad_corners(pos, size)[2] == (Vec2 { x: sat_add(pos.x, size.x), y: pos.y }),
        spec_quad_corners(pos, size)[3] == pos.plus(size),
{
    crate::fixed::lemma_mul_by_unit(size.x);
    crate::fixed::lemma_mul_by_unit(size.y);
    assert(fx_mul(size.x, 0) == 0) by (nonlinear_arith);
    assert(fx_mul(size.y, 0) == 0) by (nonlinear_arith);
}

} // verus!
