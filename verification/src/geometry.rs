//! Affine-transform and shape-matrix algebra.
//!
//! A [`SpotShape`] is a 2x2 linear map deforming the unit-radius isotropic
//! spot footprint; a [`Transform`] is a 2x3 affine map (linear part plus
//! translation) applied as the view transform to all spot positions.  All
//! operations are pure and return new values; coefficients live in the
//! fixed-point domain of [`crate::fixed`].

use vstd::arithmetic::div_mod::lemma_fundamental_div_mod;
use vstd::prelude::*;

use crate::fixed::{
    fx_mul, lemma_fx_mul_one, lemma_fx_mul_zero, lemma_trunc_div_exact, sat_add, sat_sub,
    spec_fx_mul, spec_sat_add, spec_sat_sub, FX_ONE,
};
use crate::trig::{sin_cos_deg, spec_cos_deg, spec_sin_deg};

verus! {

/// 2D point coordinates `(X, Y)` in fixed-point canvas units.
pub type Point = (i64, i64);

/// 2D displacement coordinates `(X, Y)` in fixed-point canvas units.
pub type Vector = (i64, i64);

/// Construction error: an initializer value of an unrecognized shape.
#[derive(Clone, Copy, Debug, PartialEq, Eq, Hash, Structural)]
pub enum InitError {
    /// The nested-row initializer does not describe a 2x2 or 2x3 matrix.
    InvalidInitializer,
}

/// Spot shape definition matrix.
///
/// A unit sized circular spot is deformed using this 2x2 transform matrix.
#[derive(Clone, Copy, Debug, PartialEq, Eq, Structural)]
pub struct SpotShape {
    /// a11 - X dimension
    pub xx: i64,
    /// a12 - XY skew
    pub xy: i64,
    /// a21 - YX skew
    pub yx: i64,
    /// a22 - Y dimension
    pub yy: i64,
}

/// 2D affine transformation definition matrix.
///
/// Contains a 2x3 linear transform matrix to be applied to homogeneous
/// coordinates internally.
#[derive(Clone, Copy, Debug, PartialEq, Eq, Structural)]
pub struct Transform {
    /// a11 - X scale
    pub xx: i64,
    /// a12 - XY shear
    pub xy: i64,
    /// a21 - YX shear
    pub yx: i64,
    /// a22 - Y scale
    pub yy: i64,
    /// a13 - X translation
    pub tx: i64,
    /// a23 - Y translation
    pub ty: i64,
}

/// The unit (identity) spot shape.
pub open spec fn spec_shape_identity() -> SpotShape {
    SpotShape { xx: FX_ONE, xy: 0, yx: 0, yy: FX_ONE }
}

/// A shape uniformly scaled by `k`.
pub open spec fn spec_shape_scale(s: SpotShape, k: int) -> SpotShape {
    SpotShape {
        xx: spec_fx_mul(s.xx as int, k) as i64,
        xy: spec_fx_mul(s.xy as int, k) as i64,
        yx: spec_fx_mul(s.yx as int, k) as i64,
        yy: spec_fx_mul(s.yy as int, k) as i64,
    }
}

/// A shape stretched by `kx` and `ky` along the X and Y axes.
pub open spec fn spec_shape_stretch(s: SpotShape, kx: int, ky: int) -> SpotShape {
    SpotShape {
        xx: spec_fx_mul(s.xx as int, kx) as i64,
        xy: spec_fx_mul(s.xy as int, kx) as i64,
        yx: spec_fx_mul(s.yx as int, ky) as i64,
        yy: spec_fx_mul(s.yy as int, ky) as i64,
    }
}

/// A shape rotated counter-clockwise by `phi` fixed-point degrees.
pub open spec fn spec_shape_rotate(s: SpotShape, phi: int) -> SpotShape {
    let c = spec_cos_deg(phi);
    let n = spec_sin_deg(phi);
    SpotShape {
        xx: spec_sat_sub(spec_fx_mul(c, s.xx as int), spec_fx_mul(n, s.yx as int)) as i64,
        yx: spec_sat_add(spec_fx_mul(c, s.yx as int), spec_fx_mul(n, s.xx as int)) as i64,
        xy: spec_sat_sub(spec_fx_mul(c, s.xy as int), spec_fx_mul(n, s.yy as int)) as i64,
        yy: spec_sat_add(spec_fx_mul(c, s.yy as int), spec_fx_mul(n, s.xy as int)) as i64,
    }
}

/// The identity view transform.
pub open spec fn spec_transform_identity() -> Transform {
    Transform { xx: FX_ONE, xy: 0, yx: 0, yy: FX_ONE, tx: 0, ty: 0 }
}

/// A transform translated by a shift vector.
pub open spec fn spec_transform_translate(t: Transform, shift: Vector) -> Transform {
    Transform {
        tx: spec_sat_add(t.tx as int, shift.0 as int) as i64,
        ty: spec_sat_add(t.ty as int, shift.1 as int) as i64,
        ..t
    }
}

/// A transform uniformly scaled by `k`: the scaling acts on the linear
/// 2x2 part only, the translation column is unaffected.
pub open spec fn spec_transform_scale(t: Transform, k: int) -> Transform {
    Transform {
        xx: spec_fx_mul(t.xx as int, k) as i64,
        xy: spec_fx_mul(t.xy as int, k) as i64,
        yx: spec_fx_mul(t.yx as int, k) as i64,
        yy: spec_fx_mul(t.yy as int, k) as i64,
        ..t
    }
}

/// A transform stretched by `kx` and `ky` along the X and Y axes: the
/// stretch acts on the linear 2x2 part only, the translation column is
/// unaffected.
pub open spec fn spec_transform_stretch(t: Transform, kx: int, ky: int) -> Transform {
    Transform {
        xx: spec_fx_mul(t.xx as int, kx) as i64,
        xy: spec_fx_mul(t.xy as int, kx) as i64,
        yx: spec_fx_mul(t.yx as int, ky) as i64,
        yy: spec_fx_mul(t.yy as int, ky) as i64,
        ..t
    }
}

/// A transform rotated counter-clockwise by `phi` fixed-point degrees:
/// the rotation acts on the linear 2x2 part only, the translation column
/// is unaffected.
pub open spec fn spec_transform_rotate(t: Transform, phi: int) -> Transform {
    let c = spec_cos_deg(phi);
    let n = spec_sin_deg(phi);
    Transform {
        xx: spec_sat_sub(spec_fx_mul(c, t.xx as int), spec_fx_mul(n, t.yx as int)) as i64,
        yx: spec_sat_add(spec_fx_mul(c, t.yx as int), spec_fx_mul(n, t.xx as int)) as i64,
        xy: spec_sat_sub(spec_fx_mul(c, t.xy as int), spec_fx_mul(n, t.yy as int)) as i64,
        yy: spec_sat_add(spec_fx_mul(c, t.yy as int), spec_fx_mul(n, t.xy as int)) as i64,
        ..t
    }
}

/// The composition `[t][a]`: apply `a` first, then the outer `t`.
pub open spec fn spec_compose(a: Transform, t: Transform) -> Transform {
    Transform {
        xx: spec_sat_add(
            spec_fx_mul(a.xx as int, t.xx as int),
            spec_fx_mul(a.yx as int, t.xy as int),
        ) as i64,
        xy: spec_sat_add(
            spec_fx_mul(a.xy as int, t.xx as int),
            spec_fx_mul(a.yy as int, t.xy as int),
        ) as i64,
        yx: spec_sat_add(
            spec_fx_mul(a.yx as int, t.yy as int),
            spec_fx_mul(a.xx as int, t.yx as int),
        ) as i64,
        yy: spec_sat_add(
            spec_fx_mul(a.yy as int, t.yy as int),
            spec_fx_mul(a.xy as int, t.yx as int),
        ) as i64,
        tx: spec_sat_add(
            spec_sat_add(
                spec_fx_mul(a.tx as int, t.xx as int),
                spec_fx_mul(a.ty as int, t.xy as int),
            ),
            t.tx as int,
        ) as i64,
        ty: spec_sat_add(
            spec_sat_add(
                spec_fx_mul(a.ty as int, t.yy as int),
                spec_fx_mul(a.tx as int, t.yx as int),
            ),
            t.ty as int,
        ) as i64,
    }
}

/// The affine image of a point under a transform.
pub open spec fn spec_apply(t: Transform, p: (int, int)) -> (int, int) {
    (
        spec_sat_add(
            spec_sat_add(spec_fx_mul(p.0, t.xx as int), spec_fx_mul(p.1, t.xy as int)),
            t.tx as int,
        ),
        spec_sat_add(
            spec_sat_add(spec_fx_mul(p.1, t.yy as int), spec_fx_mul(p.0, t.yx as int)),
            t.ty as int,
        ),
    )
}

impl Default for SpotShape {
    /// Returns the default unit-sized circular shape.
    fn default() -> (r: SpotShape)
        ensures
            r == spec_shape_identity(),
    {
        SpotShape { xx: FX_ONE, xy: 0, yx: 0, yy: FX_ONE }
    }
}

impl SpotShape {
    /// Linearly scales the spot shape by a single scalar factor.
    pub fn scale(&self, k: i64) -> (r: SpotShape)
        ensures
            r == spec_shape_scale(*self, k as int),
    {
        SpotShape {
            xx: fx_mul(self.xx, k),
            xy: fx_mul(self.xy, k),
            yx: fx_mul(self.yx, k),
            yy: fx_mul(self.yy, k),
        }
    }

    /// Linearly stretches the spot shape in X and Y directions.
    pub fn stretch(&self, kx: i64, ky: i64) -> (r: SpotShape)
        ensures
            r == spec_shape_stretch(*self, kx as int, ky as int),
    {
        SpotShape {
            xx: fx_mul(self.xx, kx),
            xy: fx_mul(self.xy, kx),
            yx: fx_mul(self.yx, ky),
            yy: fx_mul(self.yy, ky),
        }
    }

    /// Rotates the spot shape counter-clockwise by `phi` fixed-point degrees.
    pub fn rotate(&self, phi: i64) -> (r: SpotShape)
        ensures
            r == spec_shape_rotate(*self, phi as int),
    {
        let (n, c): (i64, i64) = sin_cos_deg(phi);
        SpotShape {
            xx: sat_sub(fx_mul(c, self.xx), fx_mul(n, self.yx)),
            yx: sat_add(fx_mul(c, self.yx), fx_mul(n, self.xx)),
            xy: sat_sub(fx_mul(c, self.xy), fx_mul(n, self.yy)),
            yy: sat_add(fx_mul(c, self.yy), fx_mul(n, self.xy)),
        }
    }

    /// Builds a shape from a nested-row matrix initializer.
    ///
    /// Accepts exactly two rows of two coefficients each; any other row
    /// structure is rejected as an unrecognized initializer.
    pub fn from_rows(rows: &Vec<Vec<i64>>) -> (r: Result<SpotShape, InitError>)
        ensures
            (rows@.len() == 2 && rows@[0]@.len() == 2 && rows@[1]@.len() == 2) ==> r == Ok::<
                SpotShape,
                InitError,
            >(
                SpotShape {
                    xx: rows@[0]@[0],
                    xy: rows@[0]@[1],
                    yx: rows@[1]@[0],
                    yy: rows@[1]@[1],
                },
            ),
            !(rows@.len() == 2 && rows@[0]@.len() == 2 && rows@[1]@.len() == 2) ==> r == Err::<
                SpotShape,
                InitError,
            >(InitError::InvalidInitializer),
    {
        if rows.len() == 2 && rows[0].len() == 2 && rows[1].len() == 2 {
            Ok(
                SpotShape {
                    xx: rows[0][0],
                    xy: rows[0][1],
                    yx: rows[1][0],
                    yy: rows[1][1],
                },
            )
        } else {
            Err(InitError::InvalidInitializer)
        }
    }
}

impl Default for Transform {
    /// Returns the default identity transform.
    fn default() -> (r: Transform)
        ensures
            r == spec_transform_identity(),
    {
        Transform { xx: FX_ONE, xy: 0, yx: 0, yy: FX_ONE, tx: 0, ty: 0 }
    }
}

impl Transform {
    /// Linearly translates the output coordinates by a shift vector.
    pub fn translate(&self, shift: Vector) -> (r: Transform)
        ensures
            r == spec_transform_translate(*self, shift),
    {
        Transform {
            tx: sat_add(self.tx, shift.0),
            ty: sat_add(self.ty, shift.1),
            ..*self
        }
    }

    /// Linearly scales the coordinates by a single scalar factor.
    ///
    /// Acts on the linear 2x2 part only; the translation column is
    /// unaffected unless the scaling is composed afterward.
    pub fn scale(&self, k: i64) -> (r: Transform)
        ensures
            r == spec_transform_scale(*self, k as int),
    {
        Transform {
            xx: fx_mul(self.xx, k),
            xy: fx_mul(self.xy, k),
            yx: fx_mul(self.yx, k),
            yy: fx_mul(self.yy, k),
            ..*self
        }
    }

    /// Linearly stretches the coordinates in X and Y directions.
    ///
    /// Acts on the linear 2x2 part only; the translation column is
    /// unaffected unless the stretch is composed afterward.
    pub fn stretch(&self, kx: i64, ky: i64) -> (r: Transform)
        ensures
            r == spec_transform_stretch(*self, kx as int, ky as int),
    {
        Transform {
            xx: fx_mul(self.xx, kx),
            xy: fx_mul(self.xy, kx),
            yx: fx_mul(self.yx, ky),
            yy: fx_mul(self.yy, ky),
            ..*self
        }
    }

    /// Rotates the coordinates counter-clockwise by `phi` fixed-point
    /// degrees.
    ///
    /// Acts on the linear 2x2 part only; the translation column is
    /// unaffected unless the rotation is composed afterward.
    pub fn rotate(&self, phi: i64) -> (r: Transform)
        ensures
            r == spec_transform_rotate(*self, phi as int),
    {
        let (n, c): (i64, i64) = sin_cos_deg(phi);
        Transform {
            xx: sat_sub(fx_mul(c, self.xx), fx_mul(n, self.yx)),
            yx: sat_add(fx_mul(c, self.yx), fx_mul(n, self.xx)),
            xy: sat_sub(fx_mul(c, self.xy), fx_mul(n, self.yy)),
            yy: sat_add(fx_mul(c, self.yy), fx_mul(n, self.xy)),
            ..*self
        }
    }

    /// Composes the coordinate transformation with an outer transformation.
    ///
    /// In the matrix multiplication form: `[t][self]`.
    pub fn compose(&self, t: &Transform) -> (r: Transform)
        ensures
            r == spec_compose(*self, *t),
    {
        Transform {
            xx: sat_add(fx_mul(self.xx, t.xx), fx_mul(self.yx, t.xy)),
            xy: sat_add(fx_mul(self.xy, t.xx), fx_mul(self.yy, t.xy)),
            yx: sat_add(fx_mul(self.yx, t.yy), fx_mul(self.xx, t.yx)),
            yy: sat_add(fx_mul(self.yy, t.yy), fx_mul(self.xy, t.yx)),
            tx: sat_add(sat_add(fx_mul(self.tx, t.xx), fx_mul(self.ty, t.xy)), t.tx),
            ty: sat_add(sat_add(fx_mul(self.ty, t.yy), fx_mul(self.tx, t.yx)), t.ty),
        }
    }

    /// Transforms 2D point coordinates using the affine transformation matrix.
    pub fn apply(&self, p: Point) -> (r: Point)
        ensures
            (r.0 as int, r.1 as int) == spec_apply(*self, (p.0 as int, p.1 as int)),
    {
        (
            sat_add(sat_add(fx_mul(p.0, self.xx), fx_mul(p.1, self.xy)), self.tx),
            sat_add(sat_add(fx_mul(p.1, self.yy), fx_mul(p.0, self.yx)), self.ty),
        )
    }

    /// Builds a transform from a nested-row matrix initializer.
    ///
    /// Accepts two rows of two coefficients (a linear map with no
    /// translation) or two rows of three coefficients (a full affine map);
    /// any other row structure is rejected as an unrecognized initializer.
    pub fn from_rows(rows: &Vec<Vec<i64>>) -> (r: Result<Transform, InitError>)
        ensures
            (rows@.len() == 2 && rows@[0]@.len() == 2 && rows@[1]@.len() == 2) ==> r == Ok::<
                Transform,
                InitError,
            >(
                Transform {
                    xx: rows@[0]@[0],
                    xy: rows@[0]@[1],
                    yx: rows@[1]@[0],
                    yy: rows@[1]@[1],
                    tx: 0,
                    ty: 0,
                },
            ),
            (rows@.len() == 2 && rows@[0]@.len() == 3 && rows@[1]@.len() == 3) ==> r == Ok::<
                Transform,
                InitError,
            >(
                Transform {
                    xx: rows@[0]@[0],
                    xy: rows@[0]@[1],
                    tx: rows@[0]@[2],
                    yx: rows@[1]@[0],
                    yy: rows@[1]@[1],
                    ty: rows@[1]@[2],
                },
            ),
            !(rows@.len() == 2 && ((rows@[0]@.len() == 2 && rows@[1]@.len() == 2) || (
            rows@[0]@.len() == 3 && rows@[1]@.len() == 3))) ==> r == Err::<
                Transform,
                InitError,
            >(InitError::InvalidInitializer),
    {
        if rows.len() == 2 && rows[0].len() == 2 && rows[1].len() == 2 {
            Ok(
                Transform {
                    xx: rows[0][0],
                    xy: rows[0][1],
                    yx: rows[1][0],
                    yy: rows[1][1],
                    tx: 0,
                    ty: 0,
                },
            )
        } else if rows.len() == 2 && rows[0].len() == 3 && rows[1].len() == 3 {
            Ok(
                Transform {
                    xx: rows[0][0],
                    xy: rows[0][1],
                    tx: rows[0][2],
                    yx: rows[1][0],
                    yy: rows[1][1],
                    ty: rows[1][2],
                },
            )
        } else {
            Err(InitError::InvalidInitializer)
        }
    }
}

/// Law: the identity transform is both a left and a right identity of
/// composition, for every transform.
pub proof fn lemma_compose_identity(t: Transform)
    ensures
        spec_compose(spec_transform_identity(), t) == t,
        spec_compose(t, spec_transform_identity()) == t,
{
    lemma_fx_mul_one(t.xx as int);
    lemma_fx_mul_one(t.xy as int);
    lemma_fx_mul_one(t.yx as int);
    lemma_fx_mul_one(t.yy as int);
    lemma_fx_mul_one(t.tx as int);
    lemma_fx_mul_one(t.ty as int);
    lemma_fx_mul_zero(t.xx as int);
    lemma_fx_mul_zero(t.xy as int);
    lemma_fx_mul_zero(t.yx as int);
    lemma_fx_mul_zero(t.yy as int);
    lemma_fx_mul_zero(t.tx as int);
    lemma_fx_mul_zero(t.ty as int);
    lemma_fx_mul_zero(FX_ONE as int);
}

/// Law: scaling a shape by one whole unit returns the shape unchanged.
pub proof fn lemma_scale_one(s: SpotShape)
    ensures
        spec_shape_scale(s, FX_ONE as int) == s,
{
    lemma_fx_mul_one(s.xx as int);
    lemma_fx_mul_one(s.xy as int);
    lemma_fx_mul_one(s.yx as int);
    lemma_fx_mul_one(s.yy as int);
}

/// One coefficient of the two-step against one-step scaling law.
proof fn lemma_scale_entry(e: int, a: int, b: int)
    requires
        i64::MIN <= e <= i64::MAX,
        i64::MIN <= a <= i64::MAX,
        i64::MIN <= b <= i64::MAX,
        a % (FX_ONE as int) == 0,
        b % (FX_ONE as int) == 0,
        i64::MIN <= e * (a / (FX_ONE as int)) <= i64::MAX,
        i64::MIN <= e * (a / (FX_ONE as int)) * (b / (FX_ONE as int)) <= i64::MAX,
        i64::MIN <= (a / (FX_ONE as int)) * (b / (FX_ONE as int)) * (FX_ONE as int) <= i64::MAX,
    ensures
        spec_fx_mul(spec_fx_mul(e, a), b) == spec_fx_mul(e, spec_fx_mul(a, b)),
{
    let s = FX_ONE as int;
    let ja = a / s;
    let jb = b / s;
    lemma_fundamental_div_mod(a, s);
    lemma_fundamental_div_mod(b, s);
    assert(a == ja * s);
    assert(b == jb * s);
    assert(e * a == (e * ja) * s) by (nonlinear_arith)
        requires
            a == ja * s,
    ;
    lemma_trunc_div_exact(e * ja, s);
    assert(spec_fx_mul(e, a) == e * ja);
    assert((e * ja) * b == (e * ja * jb) * s) by (nonlinear_arith)
        requires
            b == jb * s,
    ;
    lemma_trunc_div_exact(e * ja * jb, s);
    assert(spec_fx_mul(spec_fx_mul(e, a), b) == e * ja * jb);
    assert(a * b == (ja * jb * s) * s) by (nonlinear_arith)
        requires
            a == ja * s,
            b == jb * s,
    ;
    lemma_trunc_div_exact(ja * jb * s, s);
    assert(spec_fx_mul(a, b) == ja * jb * s);
    assert(e * (ja * jb * s) == (e * ja * jb) * s) by (nonlinear_arith);
    lemma_trunc_div_exact(e * ja * jb, s);
    assert(spec_fx_mul(e, spec_fx_mul(a, b)) == e * ja * jb);
}

/// Law: scaling a shape by `a` and then by `b` equals scaling it once by the
/// fixed-point product of `a` and `b`, whenever `a` and `b` are whole-unit
/// factors and no intermediate coefficient saturates.
pub proof fn lemma_scale_scale(s: SpotShape, a: i64, b: i64)
    requires
        a as int % (FX_ONE as int) == 0,
        b as int % (FX_ONE as int) == 0,
        i64::MIN <= s.xx * (a / FX_ONE) <= i64::MAX,
        i64::MIN <= s.xy * (a / FX_ONE) <= i64::MAX,
        i64::MIN <= s.yx * (a / FX_ONE) <= i64::MAX,
        i64::MIN <= s.yy * (a / FX_ONE) <= i64::MAX,
        i64::MIN <= s.xx * (a / FX_ONE) * (b / FX_ONE) <= i64::MAX,
        i64::MIN <= s.xy * (a / FX_ONE) * (b / FX_ONE) <= i64::MAX,
        i64::MIN <= s.yx * (a / FX_ONE) * (b / FX_ONE) <= i64::MAX,
        i64::MIN <= s.yy * (a / FX_ONE) * (b / FX_ONE) <= i64::MAX,
        i64::MIN <= (a / FX_ONE) * (b / FX_ONE) * (FX_ONE as int) <= i64::MAX,
    ensures
        spec_shape_scale(spec_shape_scale(s, a as int), b as int) == spec_shape_scale(
            s,
            spec_fx_mul(a as int, b as int),
        ),
{
    lemma_scale_entry(s.xx as int, a as int, b as int);
    lemma_scale_entry(s.xy as int, a as int, b as int);
    lemma_scale_entry(s.yx as int, a as int, b as int);
    lemma_scale_entry(s.yy as int, a as int, b as int);
}

} // verus!
