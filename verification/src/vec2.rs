//! Two-dimensional fixed-point vectors.
use crate::fixed::{
    clamp, fx_div, fx_mul, isqrt, sat_abs, sat_add, sat_neg, sat_sub, spec_fx_div, spec_fx_mul,
    spec_isqrt, spec_sat_abs, spec_sat_add, spec_sat_neg, spec_sat_sub,
};
use vstd::prelude::*;

verus! {

/// A point or a displacement in the plane, in fixed-point coordinates.
#[derive(Debug, Default, Clone, Copy, PartialEq, Eq, Structural)]
pub struct Vec2 {
    pub x: i64,
    pub y: i64,
}

/// A point in space, in fixed-point coordinates: a point of the plane with a
/// depth.
#[derive(Debug, Default, Clone, Copy, PartialEq, Eq, Structural)]
pub struct Vec3 {
    pub x: i64,
    pub y: i64,
    pub z: i64,
}

/// The vector with the given coordinates.
pub fn vec3(x: i64, y: i64, z: i64) -> (r: Vec3)
    ensures
        r == (Vec3 { x, y, z }),
{
    Vec3 { x, y, z }
}

/// The vector with the given coordinates.
pub fn vec2(x: i64, y: i64) -> (r: Vec2)
    ensures
        r == (Vec2 { x, y }),
{
    Vec2 { x, y }
}

impl Vec2 {
    /// The zero vector.
    pub open spec fn spec_zero() -> Vec2 {
        Vec2 { x: 0, y: 0 }
    }

    /// The sum, coordinate by coordinate.
    pub open spec fn spec_plus(self, other: Vec2) -> Vec2 {
        Vec2 { x: spec_sat_add(self.x, other.x), y: spec_sat_add(self.y, other.y) }
    }

    /// The difference, coordinate by coordinate.
    pub open spec fn spec_minus(self, other: Vec2) -> Vec2 {
        Vec2 { x: spec_sat_sub(self.x, other.x), y: spec_sat_sub(self.y, other.y) }
    }

    /// The absolute value of each coordinate.
    pub open spec fn spec_abs(self) -> Vec2 {
        Vec2 { x: spec_sat_abs(self.x), y: spec_sat_abs(self.y) }
    }

    /// Each coordinate multiplied by the scalar `k`.
    pub open spec fn spec_scale(self, k: i64) -> Vec2 {
        Vec2 { x: spec_fx_mul(self.x, k), y: spec_fx_mul(self.y, k) }
    }

    /// Each coordinate divided by the scalar `k`.
    pub open spec fn spec_shrink(self, k: i64) -> Vec2
        recommends
            k != 0,
    {
        Vec2 { x: spec_fx_div(self.x, k), y: spec_fx_div(self.y, k) }
    }

    /// The product, coordinate by coordinate.
    pub open spec fn spec_times(self, other: Vec2) -> Vec2 {
        Vec2 { x: spec_fx_mul(self.x, other.x), y: spec_fx_mul(self.y, other.y) }
    }

    /// The quotient, coordinate by coordinate.
    pub open spec fn spec_over(self, other: Vec2) -> Vec2
        recommends
            other.x != 0,
            other.y != 0,
    {
        Vec2 { x: spec_fx_div(self.x, other.x), y: spec_fx_div(self.y, other.y) }
    }

    /// The length: the square root of `x * x + y * y`, rounded down and clamped.
    pub open spec fn spec_length(self) -> i64 {
        clamp(spec_isqrt((self.x * self.x + self.y * self.y) as nat) as int)
    }

    /// The vector of length one in the same direction: each coordinate divided
    /// by the length.
    pub open spec fn spec_normalize(self) -> Vec2
        recommends
            self.spec_length() != 0,
    {
        self.spec_shrink(self.spec_length())
    }

    /// The vector turned a quarter to the left: `(-y, x)`.
    pub open spec fn spec_turned(self) -> Vec2 {
        Vec2 { x: spec_sat_neg(self.y), y: self.x }
    }

    /// The point in space above this point at depth `z`.
    pub open spec fn spec_extend(self, z: i64) -> Vec3 {
        Vec3 { x: self.x, y: self.y, z }
    }

    /// The zero vector.
    #[verifier::when_used_as_spec(spec_zero)]
    pub fn zero() -> (r: Vec2)
        ensures
            r == Self::spec_zero(),
    {
        Vec2 { x: 0, y: 0 }
    }

    /// Adds two vectors.
    #[verifier::when_used_as_spec(spec_plus)]
    pub fn plus(self, other: Vec2) -> (r: Vec2)
        ensures
            r == self.spec_plus(other),
    {
        Vec2 { x: sat_add(self.x, other.x), y: sat_add(self.y, other.y) }
    }

    /// Subtracts `other` from this vector.
    #[verifier::when_used_as_spec(spec_minus)]
    pub fn minus(self, other: Vec2) -> (r: Vec2)
        ensures
            r == self.spec_minus(other),
    {
        Vec2 { x: sat_sub(self.x, other.x), y: sat_sub(self.y, other.y) }
    }

    /// Takes the absolute value of each coordinate.
    #[verifier::when_used_as_spec(spec_abs)]
    pub fn abs(self) -> (r: Vec2)
        ensures
            r == self.spec_abs(),
    {
        Vec2 { x: sat_abs(self.x), y: sat_abs(self.y) }
    }

    /// Multiplies each coordinate by `k`.
    #[verifier::when_used_as_spec(spec_scale)]
    pub fn scale(self, k: i64) -> (r: Vec2)
        ensures
            r == self.spec_scale(k),
    {
        Vec2 { x: fx_mul(self.x, k), y: fx_mul(self.y, k) }
    }

    /// Divides each coordinate by `k`.
    #[verifier::when_used_as_spec(spec_shrink)]
    pub fn shrink(self, k: i64) -> (r: Vec2)
        requires
            k != 0,
        ensures
            r == self.spec_shrink(k),
    {
        Vec2 { x: fx_div(self.x, k), y: fx_div(self.y, k) }
    }

    /// Multiplies two vectors coordinate by coordinate.
    #[verifier::when_used_as_spec(spec_times)]
    pub fn times(self, other: Vec2) -> (r: Vec2)
        ensures
            r == self.spec_times(other),
    {
        Vec2 { x: fx_mul(self.x, other.x), y: fx_mul(self.y, other.y) }
    }

    /// Divides this vector by `other` coordinate by coordinate.
    #[verifier::when_used_as_spec(spec_over)]
    pub fn over(self, other: Vec2) -> (r: Vec2)
        requires
            other.x != 0,
            other.y != 0,
        ensures
            r == self.spec_over(other),
    {
        Vec2 { x: fx_div(self.x, other.x), y: fx_div(self.y, other.y) }
    }

    /// The length of the vector.
    #[verifier::when_used_as_spec(spec_length)]
    pub fn length(self) -> (r: i64)
        ensures
            r == self.spec_length(),
            r == 0 <==> self == Vec2::spec_zero(),
    {
        let x: i128 = self.x as i128;
        let y: i128 = self.y as i128;
        assert(0 <= x * x <= 0x4000_0000_0000_0000_0000_0000_0000_0000) by (nonlinear_arith)
            requires
                -0x8000_0000_0000_0000 <= x <= 0x8000_0000_0000_0000,
        ;
        assert(0 <= y * y <= 0x4000_0000_0000_0000_0000_0000_0000_0000) by (nonlinear_arith)
            requires
                -0x8000_0000_0000_0000 <= y <= 0x8000_0000_0000_0000,
        ;
        assert(x != 0 ==> x * x >= 1) by (nonlinear_arith);
        assert(y != 0 ==> y * y >= 1) by (nonlinear_arith);
        assert(x == 0 ==> x * x == 0) by (nonlinear_arith);
        assert(y == 0 ==> y * y == 0) by (nonlinear_arith);
        let squares: u128 = (x * x) as u128 + (y * y) as u128;
        let root = isqrt(squares);
        assert(root == 0 <==> squares == 0) by (nonlinear_arith)
            requires
                root * root <= squares < (root + 1) * (root + 1),
        ;
        if root > i64::MAX as u64 {
            i64::MAX
        } else {
            root as i64
        }
    }

    /// Scales the vector to length one.
    #[verifier::when_used_as_spec(spec_normalize)]
    pub fn normalize(self) -> (r: Vec2)
        requires
            self != Vec2::spec_zero(),
        ensures
            r == self.spec_normalize(),
    {
        self.shrink(self.length())
    }

    /// Turns the vector a quarter to the left.
    #[verifier::when_used_as_spec(spec_turned)]
    pub fn turned(self) -> (r: Vec2)
        ensures
            r == self.spec_turned(),
    {
        Vec2 { x: sat_neg(self.y), y: self.x }
    }

    /// Gives the point a depth.
    #[verifier::when_used_as_spec(spec_extend)]
    pub fn extend(self, z: i64) -> (r: Vec3)
        ensures
            r == self.spec_extend(z),
    {
        Vec3 { x: self.x, y: self.y, z }
    }
}

} // verus!
