//! Vectors, quaternions and affine transforms over fixed-point scalars.
//!
//! A [`TransformInternal`] is a translation, a unit rotation and a uniform
//! scale, composed parent-then-child exactly as an affine transform
//! concatenation: the parent's rotation and scale apply to the child's
//! translation before the parent's translation is added. Every operation is
//! defined by a spec function and mirrored bit-for-bit by its executable
//! counterpart.

use vstd::prelude::*;
use vstd::arithmetic::div_mod::{lemma_div_multiples_vanish, lemma_div_of0};

use crate::fixed::{
    fx_div, fx_mul, sat_add, sat_sub, spec_fx_div, spec_fx_mul, spec_sat_add, spec_sat_sub, UNIT,
};

verus! {

/// A three-component vector of fixed-point scalars.
#[derive(Clone, Copy, Debug, PartialEq, Eq, Hash, Structural)]
pub struct Vector3 {
    /// Component along the x axis.
    pub x: i64,
    /// Component along the y axis.
    pub y: i64,
    /// Component along the z axis.
    pub z: i64,
}

impl Vector3 {
    /// The zero vector.
    pub open spec fn zero_spec() -> Vector3 {
        Vector3 { x: 0, y: 0, z: 0 }
    }

    /// Build a vector from its components.
    pub fn new(x: i64, y: i64, z: i64) -> (r: Vector3)
        ensures
            r == (Vector3 { x, y, z }),
    {
        Vector3 { x, y, z }
    }

    /// The zero vector.
    pub fn zero() -> (r: Vector3)
        ensures
            r == Vector3::zero_spec(),
    {
        Vector3 { x: 0, y: 0, z: 0 }
    }
}

/// A rotation, stored as a quaternion of fixed-point scalars.
///
/// A quaternion of unit length denotes a pure rotation; the algebra below is
/// defined for every value, with saturation standing in for overflow.
#[derive(Clone, Copy, Debug, PartialEq, Eq, Hash, Structural)]
pub struct Quaternion {
    /// Scalar part.
    pub w: i64,
    /// First imaginary part.
    pub x: i64,
    /// Second imaginary part.
    pub y: i64,
    /// Third imaginary part.
    pub z: i64,
}

impl Quaternion {
    /// The identity rotation.
    pub open spec fn identity_spec() -> Quaternion {
        Quaternion { w: UNIT, x: 0, y: 0, z: 0 }
    }

    /// Build a quaternion from its components.
    pub fn new(w: i64, x: i64, y: i64, z: i64) -> (r: Quaternion)
        ensures
            r == (Quaternion { w, x, y, z }),
    {
        Quaternion { w, x, y, z }
    }

    /// The identity rotation.
    pub fn identity() -> (r: Quaternion)
        ensures
            r == Quaternion::identity_spec(),
    {
        Quaternion { w: UNIT, x: 0, y: 0, z: 0 }
    }
}

/// The image of `v` under the rotation `q`, by the standard expansion
/// `v + w*t + q x t` where `t = 2 * (q x v)`.
pub open spec fn rotate_spec(q: Quaternion, v: Vector3) -> Vector3 {
    let cx = spec_sat_sub(
        spec_fx_mul(q.y as int, v.z as int),
        spec_fx_mul(q.z as int, v.y as int),
    );
    let cy = spec_sat_sub(
        spec_fx_mul(q.z as int, v.x as int),
        spec_fx_mul(q.x as int, v.z as int),
    );
    let cz = spec_sat_sub(
        spec_fx_mul(q.x as int, v.y as int),
        spec_fx_mul(q.y as int, v.x as int),
    );
    let tx = spec_sat_add(cx, cx);
    let ty = spec_sat_add(cy, cy);
    let tz = spec_sat_add(cz, cz);
    let ux = spec_sat_sub(spec_fx_mul(q.y as int, tz), spec_fx_mul(q.z as int, ty));
    let uy = spec_sat_sub(spec_fx_mul(q.z as int, tx), spec_fx_mul(q.x as int, tz));
    let uz = spec_sat_sub(spec_fx_mul(q.x as int, ty), spec_fx_mul(q.y as int, tx));
    Vector3 {
        x: spec_sat_add(v.x as int, spec_sat_add(spec_fx_mul(q.w as int, tx), ux)) as i64,
        y: spec_sat_add(v.y as int, spec_sat_add(spec_fx_mul(q.w as int, ty), uy)) as i64,
        z: spec_sat_add(v.z as int, spec_sat_add(spec_fx_mul(q.w as int, tz), uz)) as i64,
    }
}

/// Rotate `v` by `q`.
pub fn rotate(q: Quaternion, v: Vector3) -> (r: Vector3)
    ensures
        r == rotate_spec(q, v),
{
    let cx = sat_sub(fx_mul(q.y, v.z), fx_mul(q.z, v.y));
    let cy = sat_sub(fx_mul(q.z, v.x), fx_mul(q.x, v.z));
    let cz = sat_sub(fx_mul(q.x, v.y), fx_mul(q.y, v.x));
    let tx = sat_add(cx, cx);
    let ty = sat_add(cy, cy);
    let tz = sat_add(cz, cz);
    let ux = sat_sub(fx_mul(q.y, tz), fx_mul(q.z, ty));
    let uy = sat_sub(fx_mul(q.z, tx), fx_mul(q.x, tz));
    let uz = sat_sub(fx_mul(q.x, ty), fx_mul(q.y, tx));
    Vector3 {
        x: sat_add(v.x, sat_add(fx_mul(q.w, tx), ux)),
        y: sat_add(v.y, sat_add(fx_mul(q.w, ty), uy)),
        z: sat_add(v.z, sat_add(fx_mul(q.w, tz), uz)),
    }
}

/// The Hamilton product of `a` and `b`.
pub open spec fn quat_mul_spec(a: Quaternion, b: Quaternion) -> Quaternion {
    Quaternion {
        w: spec_sat_sub(
            spec_sat_sub(
                spec_sat_sub(
                    spec_fx_mul(a.w as int, b.w as int),
                    spec_fx_mul(a.x as int, b.x as int),
                ),
                spec_fx_mul(a.y as int, b.y as int),
            ),
            spec_fx_mul(a.z as int, b.z as int),
        ) as i64,
        x: spec_sat_sub(
            spec_sat_add(
                spec_sat_add(
                    spec_fx_mul(a.w as int, b.x as int),
                    spec_fx_mul(a.x as int, b.w as int),
                ),
                spec_fx_mul(a.y as int, b.z as int),
            ),
            spec_fx_mul(a.z as int, b.y as int),
        ) as i64,
        y: spec_sat_add(
            spec_sat_add(
                spec_sat_sub(
                    spec_fx_mul(a.w as int, b.y as int),
                    spec_fx_mul(a.x as int, b.z as int),
                ),
                spec_fx_mul(a.y as int, b.w as int),
            ),
            spec_fx_mul(a.z as int, b.x as int),
        ) as i64,
        z: spec_sat_add(
            spec_sat_sub(
                spec_sat_add(
                    spec_fx_mul(a.w as int, b.z as int),
                    spec_fx_mul(a.x as int, b.y as int),
                ),
                spec_fx_mul(a.y as int, b.x as int),
            ),
            spec_fx_mul(a.z as int, b.w as int),
        ) as i64,
    }
}

/// Multiply two quaternions.
pub fn quat_mul(a: Quaternion, b: Quaternion) -> (r: Quaternion)
    ensures
        r == quat_mul_spec(a, b),
{
    Quaternion {
        w: sat_sub(
            sat_sub(sat_sub(fx_mul(a.w, b.w), fx_mul(a.x, b.x)), fx_mul(a.y, b.y)),
            fx_mul(a.z, b.z),
        ),
        x: sat_sub(
            sat_add(sat_add(fx_mul(a.w, b.x), fx_mul(a.x, b.w)), fx_mul(a.y, b.z)),
            fx_mul(a.z, b.y),
        ),
        y: sat_add(
            sat_add(sat_sub(fx_mul(a.w, b.y), fx_mul(a.x, b.z)), fx_mul(a.y, b.w)),
            fx_mul(a.z, b.x),
        ),
        z: sat_add(
            sat_sub(sat_add(fx_mul(a.w, b.z), fx_mul(a.x, b.y)), fx_mul(a.y, b.x)),
            fx_mul(a.z, b.w),
        ),
    }
}

/// The local or world transform of a scene node: translation, rotation and
/// uniform scale, relative to the parent (or to the world origin).
#[derive(Clone, Copy, Debug, PartialEq, Eq, Hash, Structural)]
pub struct TransformInternal {
    /// Translation.
    pub disp: Vector3,
    /// Rotation.
    pub rot: Quaternion,
    /// Uniform scale factor.
    pub scale: i64,
}

/// The composition `p`-then-`c`: the parent's rotation and scale apply to
/// the child's translation before the parent's translation is added, the
/// rotations multiply, and the scales multiply.
pub open spec fn concat_spec(p: TransformInternal, c: TransformInternal) -> TransformInternal {
    let rotated = rotate_spec(p.rot, c.disp);
    TransformInternal {
        disp: Vector3 {
            x: spec_sat_add(
                p.disp.x as int,
                spec_fx_mul(p.scale as int, rotated.x as int),
            ) as i64,
            y: spec_sat_add(
                p.disp.y as int,
                spec_fx_mul(p.scale as int, rotated.y as int),
            ) as i64,
            z: spec_sat_add(
                p.disp.z as int,
                spec_fx_mul(p.scale as int, rotated.z as int),
            ) as i64,
        },
        rot: quat_mul_spec(p.rot, c.rot),
        scale: spec_fx_mul(p.scale as int, c.scale as int) as i64,
    }
}

impl TransformInternal {
    /// The identity transform.
    pub open spec fn one_spec() -> TransformInternal {
        TransformInternal {
            disp: Vector3::zero_spec(),
            rot: Quaternion::identity_spec(),
            scale: UNIT,
        }
    }

    /// The identity transform.
    pub fn one() -> (r: TransformInternal)
        ensures
            r == TransformInternal::one_spec(),
    {
        TransformInternal {
            disp: Vector3::zero(),
            rot: Quaternion::identity(),
            scale: UNIT,
        }
    }

    /// Compose `self` (the parent) with `other` (the child).
    pub fn concat(&self, other: &TransformInternal) -> (r: TransformInternal)
        ensures
            r == concat_spec(*self, *other),
    {
        let rotated = rotate(self.rot, other.disp);
        TransformInternal {
            disp: Vector3 {
                x: sat_add(self.disp.x, fx_mul(self.scale, rotated.x)),
                y: sat_add(self.disp.y, fx_mul(self.scale, rotated.y)),
                z: sat_add(self.disp.z, fx_mul(self.scale, rotated.z)),
            },
            rot: quat_mul(self.rot, other.rot),
            scale: fx_mul(self.scale, other.scale),
        }
    }
}

/// The inverse of a transform: the reciprocal scale, the conjugate
/// rotation (which inverts a unit rotation), and the translation that
/// undoes the original one under both.
pub open spec fn inverse_spec(t: TransformInternal) -> TransformInternal
    recommends
        t.scale != 0,
{
    let scale = spec_fx_div(UNIT as int, t.scale as int);
    let rot = Quaternion {
        w: t.rot.w,
        x: spec_sat_sub(0, t.rot.x as int) as i64,
        y: spec_sat_sub(0, t.rot.y as int) as i64,
        z: spec_sat_sub(0, t.rot.z as int) as i64,
    };
    let rotated = rotate_spec(rot, t.disp);
    TransformInternal {
        disp: Vector3 {
            x: spec_sat_sub(0, spec_fx_mul(scale, rotated.x as int)) as i64,
            y: spec_sat_sub(0, spec_fx_mul(scale, rotated.y as int)) as i64,
            z: spec_sat_sub(0, spec_fx_mul(scale, rotated.z as int)) as i64,
        },
        rot,
        scale: scale as i64,
    }
}

impl TransformInternal {
    /// The transform undoing this one, as far as the fixed-point grid
    /// allows.
    pub fn inverse(&self) -> (r: TransformInternal)
        requires
            self.scale != 0,
        ensures
            r == inverse_spec(*self),
    {
        let scale = fx_div(UNIT, self.scale);
        let rot = Quaternion {
            w: self.rot.w,
            x: sat_sub(0, self.rot.x),
            y: sat_sub(0, self.rot.y),
            z: sat_sub(0, self.rot.z),
        };
        let rotated = rotate(rot, self.disp);
        TransformInternal {
            disp: Vector3 {
                x: sat_sub(0, fx_mul(scale, rotated.x)),
                y: sat_sub(0, fx_mul(scale, rotated.y)),
                z: sat_sub(0, fx_mul(scale, rotated.z)),
            },
            rot,
            scale,
        }
    }
}

/// Multiplying by the fixed-point unit is the identity.
pub proof fn lemma_fx_mul_unit(s: int)
    requires
        i64::MIN <= s <= i64::MAX,
    ensures
        spec_fx_mul(UNIT as int, s) == s,
        spec_fx_mul(s, UNIT as int) == s,
{
    if s >= 0 {
        lemma_div_multiples_vanish(s, UNIT as int);
    } else {
        lemma_div_multiples_vanish(-s, UNIT as int);
    }
}

/// Multiplying by zero gives zero.
pub proof fn lemma_fx_mul_zero(s: int)
    ensures
        spec_fx_mul(0, s) == 0,
        spec_fx_mul(s, 0) == 0,
{
    lemma_div_of0(UNIT as int);
}

/// Rotating by the identity quaternion leaves a vector unchanged.
pub proof fn lemma_rotate_identity(v: Vector3)
    ensures
        rotate_spec(Quaternion::identity_spec(), v) == v,
{
    lemma_fx_mul_zero(v.x as int);
    lemma_fx_mul_zero(v.y as int);
    lemma_fx_mul_zero(v.z as int);
    lemma_fx_mul_zero(UNIT as int);
}

/// Rotating the zero vector gives the zero vector.
pub proof fn lemma_rotate_zero(q: Quaternion)
    ensures
        rotate_spec(q, Vector3::zero_spec()) == Vector3::zero_spec(),
{
    lemma_fx_mul_zero(q.w as int);
    lemma_fx_mul_zero(q.x as int);
    lemma_fx_mul_zero(q.y as int);
    lemma_fx_mul_zero(q.z as int);
}

/// The identity quaternion is a left and right unit of the Hamilton product.
pub proof fn lemma_quat_mul_identity(q: Quaternion)
    ensures
        quat_mul_spec(Quaternion::identity_spec(), q) == q,
        quat_mul_spec(q, Quaternion::identity_spec()) == q,
{
    lemma_fx_mul_unit(q.w as int);
    lemma_fx_mul_unit(q.x as int);
    lemma_fx_mul_unit(q.y as int);
    lemma_fx_mul_unit(q.z as int);
    lemma_fx_mul_zero(q.w as int);
    lemma_fx_mul_zero(q.x as int);
    lemma_fx_mul_zero(q.y as int);
    lemma_fx_mul_zero(q.z as int);
}

/// The identity transform is a left and right unit of composition.
pub proof fn lemma_concat_one(t: TransformInternal)
    ensures
        concat_spec(TransformInternal::one_spec(), t) == t,
        concat_spec(t, TransformInternal::one_spec()) == t,
{
    lemma_rotate_identity(t.disp);
    lemma_rotate_zero(t.rot);
    lemma_quat_mul_identity(t.rot);
    lemma_fx_mul_unit(t.scale as int);
    lemma_fx_mul_unit(t.disp.x as int);
    lemma_fx_mul_unit(t.disp.y as int);
    lemma_fx_mul_unit(t.disp.z as int);
    lemma_fx_mul_zero(t.scale as int);
}

} // verus!
