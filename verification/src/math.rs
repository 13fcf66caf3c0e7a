//! Fixed-point scalars and small vectors.
//!
//! Every geometric quantity in this crate — positions, sizes, pivots,
//! texture coordinates, colors — is a signed 64-bit fixed-point number
//! with denominator [`FX_ONE`]: the value `v` stands for the real number
//! `v / FX_ONE`. Whole coordinates are exact multiples of `FX_ONE`, and a
//! pivot or texture coordinate in the unit range lies between `0` and
//! `FX_ONE`. The host converts these to the floating-point values its
//! device expects when it performs an upload.

use vstd::prelude::*;

verus! {

/// The fixed-point representation of the real number one.
pub const FX_ONE: i64 = 65536;

/// Largest magnitude a coordinate or size may have.
///
/// Keeping coordinates within this bound keeps every product and sum the
/// rectangle-corner arithmetic forms inside the `i64` range.
pub const MAX_COORD: i64 = 0x2000_0000_0000;

/// A 2D vector of fixed-point scalars.
#[derive(Clone, Copy, PartialEq, Eq, Structural, Debug)]
pub struct Vec2Fx {
    pub x: i64,
    pub y: i64,
}

/// A 3D vector of fixed-point scalars.
#[derive(Clone, Copy, PartialEq, Eq, Structural, Debug)]
pub struct Vec3Fx {
    pub x: i64,
    pub y: i64,
    pub z: i64,
}

/// A 4D vector of fixed-point scalars; also used as an RGBA color.
#[derive(Clone, Copy, PartialEq, Eq, Structural, Debug)]
pub struct Vec4Fx {
    pub x: i64,
    pub y: i64,
    pub z: i64,
    pub w: i64,
}

impl Vec2Fx {
    pub fn new(x: i64, y: i64) -> (r: Self)
        ensures
            r == (Vec2Fx { x, y }),
    {
        Vec2Fx { x, y }
    }

    /// The vector (0, 0).
    pub fn zero() -> (r: Self)
        ensures
            r == (Vec2Fx { x: 0, y: 0 }),
    {
        Vec2Fx { x: 0, y: 0 }
    }

    /// The vector (1, 1).
    pub fn one() -> (r: Self)
        ensures
            r == (Vec2Fx { x: FX_ONE as i64, y: FX_ONE as i64 }),
    {
        Vec2Fx { x: FX_ONE, y: FX_ONE }
    }
}

impl Vec3Fx {
    pub fn new(x: i64, y: i64, z: i64) -> (r: Self)
        ensures
            r == (Vec3Fx { x, y, z }),
    {
        Vec3Fx { x, y, z }
    }

    /// The vector (0, 0, 0).
    pub fn zero() -> (r: Self)
        ensures
            r == (Vec3Fx { x: 0, y: 0, z: 0 }),
    {
        Vec3Fx { x: 0, y: 0, z: 0 }
    }
}

impl Vec4Fx {
    pub fn new(x: i64, y: i64, z: i64, w: i64) -> (r: Self)
        ensures
            r == (Vec4Fx { x, y, z, w }),
    {
        Vec4Fx { x, y, z, w }
    }

    /// The vector (0, 0, 0, 0).
    pub fn zero() -> (r: Self)
        ensures
            r == (Vec4Fx { x: 0, y: 0, z: 0, w: 0 }),
    {
        Vec4Fx { x: 0, y: 0, z: 0, w: 0 }
    }

    /// The vector (1, 1, 1, 1).
    pub fn one() -> (r: Self)
        ensures
            r == (Vec4Fx {
                x: FX_ONE as i64,
                y: FX_ONE as i64,
                z: FX_ONE as i64,
                w: FX_ONE as i64,
            }),
    {
        Vec4Fx { x: FX_ONE, y: FX_ONE, z: FX_ONE, w: FX_ONE }
    }
}

/// Scale `a` by the unit-range factor `f`: the fixed-point product
/// `a · f`, exact whenever the real product is a multiple of `1 / FX_ONE`.
pub fn fx_scale(a: i64, f: i64) -> (r: i64)
    requires
        0 <= a <= MAX_COORD,
        0 <= f <= FX_ONE,
    ensures
        r == (a * f) / (FX_ONE as int),
        0 <= r <= a,
{
    proof {
        lemma_fx_scale_bounds(a as int, f as int);
    }
    (a * f) / FX_ONE
}

/// The quotient `(a · f) / FX_ONE` stays between `0` and `a` whenever
/// `a` is a bounded coordinate and `f` lies in the unit range.
pub proof fn lemma_fx_scale_bounds(a: int, f: int)
    requires
        0 <= a <= MAX_COORD,
        0 <= f <= FX_ONE,
    ensures
        0 <= (a * f) / (FX_ONE as int) <= a,
        a * f <= MAX_COORD * FX_ONE,
{
    assert(a * f >= 0) by (nonlinear_arith)
        requires
            a >= 0,
            f >= 0,
    ;
    assert(a * f <= a * FX_ONE) by (nonlinear_arith)
        requires
            a >= 0,
            f <= FX_ONE,
    ;
    assert(a * FX_ONE <= MAX_COORD * FX_ONE) by (nonlinear_arith)
        requires
            a <= MAX_COORD,
            FX_ONE > 0,
    ;
    assert((a * f) / (FX_ONE as int) >= 0) by (nonlinear_arith)
        requires
            a * f >= 0,
    ;
    assert((a * f) / (FX_ONE as int) <= a) by (nonlinear_arith)
        requires
            a * f <= a * FX_ONE,
            a >= 0,
    ;
}

} // verus!
