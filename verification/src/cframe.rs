//! Rigid-transform algebra: vectors, rotation matrices and coordinate
//! frames over IEEE-754 single-precision bit patterns.
//!
//! Every arithmetic contract is stated up to [`f32_sim`]: the result is
//! pinned down exactly except for the payload of a NaN component.  The
//! trigonometric steps (`cos`, `sin`) have platform-specific precision, so
//! the functions that need them promise only the shape of their result:
//! there exist cosine and sine patterns from which the output was built by
//! the exact algebra.

use crate::fbits::{
    add_bits, cos_bits, div_bits, f32_sim, fadd, fdiv, fmul, fsub, lemma_fadd_congruent,
    lemma_fdiv_congruent, lemma_fmul_congruent, lemma_fsub_congruent, mul_bits, sin_bits, sub_bits,
};
use vstd::prelude::*;

verus! {

/// The bit pattern of 1.0.
pub const ONE_BITS: u32 = 0x3f80_0000;

/// A 3-vector of single-precision bit patterns.
#[derive(Clone, Copy, PartialEq, Eq, Structural, Debug)]
pub struct Vector3 {
    pub x: u32,
    pub y: u32,
    pub z: u32,
}

/// A 2-vector of single-precision bit patterns.
#[derive(Clone, Copy, PartialEq, Eq, Structural, Debug)]
pub struct Vector2 {
    pub x: u32,
    pub y: u32,
}

/// A rotation matrix stored as three rows.
#[derive(Clone, Copy, PartialEq, Eq, Structural, Debug)]
pub struct Matrix3 {
    pub x: Vector3,
    pub y: Vector3,
    pub z: Vector3,
}

/// A rigid transform: a position and a rotation matrix.
#[derive(Clone, Copy, PartialEq, Eq, Structural, Debug)]
pub struct CFrame {
    pub position: Vector3,
    pub orientation: Matrix3,
}

/// Componentwise [`f32_sim`].
pub open spec fn vec3_sim(a: Vector3, b: Vector3) -> bool {
    &&& f32_sim(a.x, b.x)
    &&& f32_sim(a.y, b.y)
    &&& f32_sim(a.z, b.z)
}

/// Componentwise [`f32_sim`] on matrices.
pub open spec fn mat3_sim(a: Matrix3, b: Matrix3) -> bool {
    &&& vec3_sim(a.x, b.x)
    &&& vec3_sim(a.y, b.y)
    &&& vec3_sim(a.z, b.z)
}

/// Componentwise [`f32_sim`] on rigid transforms.
pub open spec fn cframe_sim(a: CFrame, b: CFrame) -> bool {
    &&& vec3_sim(a.position, b.position)
    &&& mat3_sim(a.orientation, b.orientation)
}

/// The zero vector (both zeroes have pattern 0 here).
pub open spec fn spec_v3_zero() -> Vector3 {
    Vector3 { x: 0, y: 0, z: 0 }
}

/// Unit vector along the vertical axis.
pub open spec fn spec_v3_up() -> Vector3 {
    Vector3 { x: 0, y: ONE_BITS, z: 0 }
}

/// Unit vector along the depth axis.
pub open spec fn spec_v3_back() -> Vector3 {
    Vector3 { x: 0, y: 0, z: ONE_BITS }
}

/// Unit vector along the lateral axis.
pub open spec fn spec_v3_right() -> Vector3 {
    Vector3 { x: ONE_BITS, y: 0, z: 0 }
}

/// The identity rotation.
pub open spec fn spec_m3_identity() -> Matrix3 {
    Matrix3 { x: spec_v3_right(), y: spec_v3_up(), z: spec_v3_back() }
}

/// Left-associated product sum `((a1*b1) + (a2*b2)) + (a3*b3)`, the shape
/// every matrix entry and dot product below takes.
pub open spec fn spec_dot3(a1: u32, a2: u32, a3: u32, b1: u32, b2: u32, b3: u32) -> u32 {
    fadd(fadd(fmul(a1, b1), fmul(a2, b2)), fmul(a3, b3))
}

impl Vector3 {
    /// Componentwise sum.
    pub open spec fn spec_add(self, b: Vector3) -> Vector3 {
        Vector3 { x: fadd(self.x, b.x), y: fadd(self.y, b.y), z: fadd(self.z, b.z) }
    }

    /// Componentwise difference.
    pub open spec fn spec_sub(self, b: Vector3) -> Vector3 {
        Vector3 { x: fsub(self.x, b.x), y: fsub(self.y, b.y), z: fsub(self.z, b.z) }
    }

    /// Scaling by one scalar pattern.
    pub open spec fn spec_mult(self, i: u32) -> Vector3 {
        Vector3 { x: fmul(self.x, i), y: fmul(self.y, i), z: fmul(self.z, i) }
    }

    /// Componentwise product.
    pub open spec fn spec_mult_vec(self, b: Vector3) -> Vector3 {
        Vector3 { x: fmul(self.x, b.x), y: fmul(self.y, b.y), z: fmul(self.z, b.z) }
    }

    /// Cross product, each component a difference of two products.
    pub open spec fn spec_cross(self, b: Vector3) -> Vector3 {
        Vector3 {
            x: fsub(fmul(self.y, b.z), fmul(b.y, self.z)),
            y: fsub(fmul(self.z, b.x), fmul(b.z, self.x)),
            z: fsub(fmul(self.x, b.y), fmul(b.x, self.y)),
        }
    }

    /// Dot product.
    pub open spec fn spec_dot(self, b: Vector3) -> u32 {
        spec_dot3(self.x, self.y, self.z, b.x, b.y, b.z)
    }

    /// Division of every component by the squared magnitude.  A zero
    /// vector divides by zero and yields non-finite components; callers
    /// must not normalize a zero vector.
    pub open spec fn spec_normalize(self) -> Vector3 {
        let m = self.spec_dot(self);
        Vector3 { x: fdiv(self.x, m), y: fdiv(self.y, m), z: fdiv(self.z, m) }
    }

    /// Rotation of `self` (normalized) applied to `axis` with the given
    /// cosine and sine patterns: `axis*c + unit*(axis.dot(unit)*(1-c)) +
    /// (unit x axis)*s`.
    pub open spec fn spec_axis_angle_parts(self, axis: Vector3, c: u32, s: u32) -> Vector3 {
        let unit = self.spec_normalize();
        let a1 = axis.spec_mult(c);
        let a2 = unit.spec_mult(fmul(axis.spec_dot(unit), fsub(ONE_BITS, c)));
        let a3 = unit.spec_cross(axis).spec_mult(s);
        a1.spec_add(a2.spec_add(a3))
    }

    #[allow(non_snake_case)]
    pub fn UP() -> (r: Vector3)
        ensures
            r == spec_v3_up(),
    {
        Vector3 { x: 0, y: ONE_BITS, z: 0 }
    }

    #[allow(non_snake_case)]
    pub fn BACK() -> (r: Vector3)
        ensures
            r == spec_v3_back(),
    {
        Vector3 { x: 0, y: 0, z: ONE_BITS }
    }

    #[allow(non_snake_case)]
    pub fn RIGHT() -> (r: Vector3)
        ensures
            r == spec_v3_right(),
    {
        Vector3 { x: ONE_BITS, y: 0, z: 0 }
    }

    pub fn add(&self, b: Vector3) -> (r: Vector3)
        ensures
            vec3_sim(r, self.spec_add(b)),
    {
        Vector3 {
            x: add_bits(self.x, b.x),
            y: add_bits(self.y, b.y),
            z: add_bits(self.z, b.z),
        }
    }

    pub fn sub(&self, b: Vector3) -> (r: Vector3)
        ensures
            vec3_sim(r, self.spec_sub(b)),
    {
        Vector3 {
            x: sub_bits(self.x, b.x),
            y: sub_bits(self.y, b.y),
            z: sub_bits(self.z, b.z),
        }
    }

    pub fn mult(&self, i: u32) -> (r: Vector3)
        ensures
            vec3_sim(r, self.spec_mult(i)),
    {
        Vector3 {
            x: mul_bits(self.x, i),
            y: mul_bits(self.y, i),
            z: mul_bits(self.z, i),
        }
    }

    pub fn mult_vec(&self, b: Vector3) -> (r: Vector3)
        ensures
            vec3_sim(r, self.spec_mult_vec(b)),
    {
        Vector3 {
            x: mul_bits(self.x, b.x),
            y: mul_bits(self.y, b.y),
            z: mul_bits(self.z, b.z),
        }
    }

    pub fn cross(&self, b: Vector3) -> (r: Vector3)
        ensures
            vec3_sim(r, self.spec_cross(b)),
    {
        Vector3 {
            x: sub_bits(mul_bits(self.y, b.z), mul_bits(b.y, self.z)),
            y: sub_bits(mul_bits(self.z, b.x), mul_bits(b.z, self.x)),
            z: sub_bits(mul_bits(self.x, b.y), mul_bits(b.x, self.y)),
        }
    }

    pub fn dot(&self, b: Vector3) -> (r: u32)
        ensures
            f32_sim(r, self.spec_dot(b)),
    {
        add_bits(add_bits(mul_bits(self.x, b.x), mul_bits(self.y, b.y)), mul_bits(self.z, b.z))
    }

    pub fn normalize(&self) -> (r: Vector3)
        ensures
            vec3_sim(r, self.spec_normalize()),
    {
        let m = self.dot(Vector3 { x: self.x, y: self.y, z: self.z });
        proof {
            lemma_fdiv_congruent(self.x, self.x, m, self.spec_dot(*self));
            lemma_fdiv_congruent(self.y, self.y, m, self.spec_dot(*self));
            lemma_fdiv_congruent(self.z, self.z, m, self.spec_dot(*self));
        }
        Vector3 {
            x: div_bits(self.x, m),
            y: div_bits(self.y, m),
            z: div_bits(self.z, m),
        }
    }

    /// Rotates `axis` about the direction of `self` by the angle pattern
    /// `t`.  The cosine and sine of `t` are computed by the platform, so
    /// the contract only promises that some cosine and sine patterns
    /// produced the result through the exact algebra of
    /// [`Vector3::spec_axis_angle_parts`].
    pub fn axis_angle(&self, axis: Vector3, t: u32) -> (r: Vector3)
        ensures
            exists|c: u32, s: u32| vec3_sim(r, self.spec_axis_angle_parts(axis, c, s)),
    {
        let c = cos_bits(t);
        let s = sin_bits(t);
        let r = self.axis_angle_with(axis, c, s);
        proof {
            assert(vec3_sim(r, self.spec_axis_angle_parts(axis, c, s)));
        }
        r
    }

    /// The rotation algebra with the cosine and sine patterns supplied by
    /// the caller; exact up to NaN payloads.
    pub fn axis_angle_with(&self, axis: Vector3, c: u32, s: u32) -> (r: Vector3)
        ensures
            vec3_sim(r, self.spec_axis_angle_parts(axis, c, s)),
    {
        let unit = self.normalize();
        let ghost unit_s = self.spec_normalize();

        let a1 = axis.mult(c);

        let d = axis.dot(unit);
        let oc = sub_bits(ONE_BITS, c);
        let f = mul_bits(d, oc);
        proof {
            lemma_v3_dot_congruent(axis, axis, unit, unit_s);
            lemma_fmul_congruent(d, axis.spec_dot(unit_s), oc, fsub(ONE_BITS, c));
        }
        let a2 = unit.mult(f);
        proof {
            lemma_v3_mult_congruent(unit, unit_s, f, fmul(axis.spec_dot(unit_s), fsub(ONE_BITS, c)));
        }

        let cr = unit.cross(axis);
        proof {
            lemma_v3_cross_congruent(unit, unit_s, axis, axis);
        }
        let a3 = cr.mult(s);
        proof {
            lemma_v3_mult_congruent(cr, unit_s.spec_cross(axis), s, s);
        }

        let inner = a2.add(a3);
        let ghost a2_s = unit_s.spec_mult(fmul(axis.spec_dot(unit_s), fsub(ONE_BITS, c)));
        let ghost a3_s = unit_s.spec_cross(axis).spec_mult(s);
        proof {
            lemma_v3_add_congruent(a2, a2_s, a3, a3_s);
        }
        let r = a1.add(inner);
        proof {
            lemma_v3_add_congruent(a1, axis.spec_mult(c), inner, a2_s.spec_add(a3_s));
        }
        r
    }
}

impl Vector2 {
    /// Dot product.
    pub open spec fn spec_dot(self, b: Vector2) -> u32 {
        fadd(fmul(self.x, b.x), fmul(self.y, b.y))
    }

    /// Division of both components by the squared magnitude, as with
    /// [`Vector3::spec_normalize`].
    pub open spec fn spec_normalize(self) -> Vector2 {
        let m = self.spec_dot(self);
        Vector2 { x: fdiv(self.x, m), y: fdiv(self.y, m) }
    }

    pub fn dot(&self, b: Vector2) -> (r: u32)
        ensures
            f32_sim(r, self.spec_dot(b)),
    {
        add_bits(mul_bits(self.x, b.x), mul_bits(self.y, b.y))
    }

    pub fn normalize(&self) -> (r: Vector2)
        ensures
            f32_sim(r.x, self.spec_normalize().x),
            f32_sim(r.y, self.spec_normalize().y),
    {
        let m = self.dot(Vector2 { x: self.x, y: self.y });
        proof {
            lemma_fdiv_congruent(self.x, self.x, m, self.spec_dot(*self));
            lemma_fdiv_congruent(self.y, self.y, m, self.spec_dot(*self));
        }
        Vector2 { x: div_bits(self.x, m), y: div_bits(self.y, m) }
    }
}

/// The matrix whose columns are the three rotated basis vectors.
pub open spec fn mat3_from_axis_vectors(rv: Vector3, uv: Vector3, bv: Vector3) -> Matrix3 {
    Matrix3 {
        x: Vector3 { x: rv.x, y: uv.x, z: bv.x },
        y: Vector3 { x: rv.y, y: uv.y, z: bv.y },
        z: Vector3 { x: rv.z, y: uv.z, z: bv.z },
    }
}

/// `out` is a possible result of rotating `axis` about `v` by some angle:
/// some cosine and sine patterns produce it through the exact algebra.
pub open spec fn is_axis_angle_of(out: Vector3, v: Vector3, axis: Vector3) -> bool {
    exists|c: u32, s: u32| vec3_sim(out, v.spec_axis_angle_parts(axis, c, s))
}

/// `cf` is a possible result of [`CFrame::from_axis_angle`] about `axis`:
/// a rotation-only transform whose matrix columns are three axis-angle
/// results for the canonical basis vectors.
pub open spec fn is_axis_rotation_of(cf: CFrame, axis: Vector3) -> bool {
    &&& cf.position == spec_v3_zero()
    &&& exists|rv: Vector3, uv: Vector3, bv: Vector3|
        {
            &&& is_axis_angle_of(rv, axis, spec_v3_right())
            &&& is_axis_angle_of(uv, axis, spec_v3_up())
            &&& is_axis_angle_of(bv, axis, spec_v3_back())
            &&& cf.orientation == mat3_from_axis_vectors(rv, uv, bv)
        }
}

/// `cf` is a possible result of [`CFrame::angles`]: the product of three
/// basis-axis rotations, composed left to right.
pub open spec fn is_angles_of(cf: CFrame) -> bool {
    exists|cfx: CFrame, cfy: CFrame, cfz: CFrame, t: CFrame|
        {
            &&& is_axis_rotation_of(cfx, spec_v3_right())
            &&& is_axis_rotation_of(cfy, spec_v3_up())
            &&& is_axis_rotation_of(cfz, spec_v3_back())
            &&& cframe_sim(t, spec_cf_mult(cfx, cfy))
            &&& cframe_sim(cf, spec_cf_mult(t, cfz))
        }
}

/// Composition of rigid transforms: position `A.rot * B.pos + A.pos` and
/// rotation `A.rot * B.rot`, every entry the left-associated product sum
/// of [`spec_dot3`].
pub open spec fn spec_cf_mult(a: CFrame, b: CFrame) -> CFrame {
    let m = a.orientation;
    let n = b.orientation;
    let p = b.position;
    CFrame {
        position: Vector3 {
            x: fadd(spec_dot3(m.x.x, m.x.y, m.x.z, p.x, p.y, p.z), a.position.x),
            y: fadd(spec_dot3(m.y.x, m.y.y, m.y.z, p.x, p.y, p.z), a.position.y),
            z: fadd(spec_dot3(m.z.x, m.z.y, m.z.z, p.x, p.y, p.z), a.position.z),
        },
        orientation: Matrix3 {
            x: Vector3 {
                x: spec_dot3(m.x.x, m.x.y, m.x.z, n.x.x, n.y.x, n.z.x),
                y: spec_dot3(m.x.x, m.x.y, m.x.z, n.x.y, n.y.y, n.z.y),
                z: spec_dot3(m.x.x, m.x.y, m.x.z, n.x.z, n.y.z, n.z.z),
            },
            y: Vector3 {
                x: spec_dot3(m.y.x, m.y.y, m.y.z, n.x.x, n.y.x, n.z.x),
                y: spec_dot3(m.y.x, m.y.y, m.y.z, n.x.y, n.y.y, n.z.y),
                z: spec_dot3(m.y.x, m.y.y, m.y.z, n.x.z, n.y.z, n.z.z),
            },
            z: Vector3 {
                x: spec_dot3(m.z.x, m.z.y, m.z.z, n.x.x, n.y.x, n.z.x),
                y: spec_dot3(m.z.x, m.z.y, m.z.z, n.x.y, n.y.y, n.z.y),
                z: spec_dot3(m.z.x, m.z.y, m.z.z, n.x.z, n.y.z, n.z.z),
            },
        },
    }
}

/// Left-associated product sum, the executable counterpart of
/// [`spec_dot3`].
fn dot3_bits(a1: u32, a2: u32, a3: u32, b1: u32, b2: u32, b3: u32) -> (r: u32)
    ensures
        f32_sim(r, spec_dot3(a1, a2, a3, b1, b2, b3)),
{
    let p1 = mul_bits(a1, b1);
    let p2 = mul_bits(a2, b2);
    let p3 = mul_bits(a3, b3);
    let s = add_bits(p1, p2);
    proof {
        lemma_fadd_congruent(p1, fmul(a1, b1), p2, fmul(a2, b2));
    }
    let t = add_bits(s, p3);
    proof {
        lemma_fadd_congruent(s, fadd(fmul(a1, b1), fmul(a2, b2)), p3, fmul(a3, b3));
    }
    t
}

impl Default for Matrix3 {
    /// The identity rotation.
    fn default() -> (r: Matrix3)
        ensures
            r == spec_m3_identity(),
    {
        Matrix3 { x: Vector3::RIGHT(), y: Vector3::UP(), z: Vector3::BACK() }
    }
}

impl Default for CFrame {
    /// The identity transform: zero position, identity rotation.
    fn default() -> (r: CFrame)
        ensures
            r == (CFrame { position: spec_v3_zero(), orientation: spec_m3_identity() }),
    {
        CFrame {
            position: Vector3 { x: 0, y: 0, z: 0 },
            orientation: Matrix3::default(),
        }
    }
}

impl CFrame {
    /// The transform rebuilt from the first 12 of a component row: three
    /// position patterns, then the rotation rows.
    pub fn from_components(c: &[u32]) -> (r: CFrame)
        requires
            c@.len() >= 12,
        ensures
            r.position == (Vector3 { x: c@[0], y: c@[1], z: c@[2] }),
            r.orientation == (Matrix3 {
                x: Vector3 { x: c@[3], y: c@[4], z: c@[5] },
                y: Vector3 { x: c@[6], y: c@[7], z: c@[8] },
                z: Vector3 { x: c@[9], y: c@[10], z: c@[11] },
            }),
    {
        CFrame {
            position: Vector3 { x: c[0], y: c[1], z: c[2] },
            orientation: Matrix3 {
                x: Vector3 { x: c[3], y: c[4], z: c[5] },
                y: Vector3 { x: c[6], y: c[7], z: c[8] },
                z: Vector3 { x: c[9], y: c[10], z: c[11] },
            },
        }
    }

    /// The 16-component row: position, the three rotation rows, and the
    /// constant bottom row `0 0 0 1`.
    pub fn components(&self) -> (r: [u32; 16])
        ensures
            r@ =~= seq![
                self.position.x, self.position.y, self.position.z,
                self.orientation.x.x, self.orientation.x.y, self.orientation.x.z,
                self.orientation.y.x, self.orientation.y.y, self.orientation.y.z,
                self.orientation.z.x, self.orientation.z.y, self.orientation.z.z,
                0u32, 0u32, 0u32, ONE_BITS,
            ],
    {
        let m = self.orientation;
        let a = self.position;
        [
            a.x, a.y, a.z, m.x.x, m.x.y, m.x.z, m.y.x, m.y.y, m.y.z, m.z.x, m.z.y, m.z.z, 0u32,
            0u32, 0u32, ONE_BITS,
        ]
    }

    /// A translation-only transform.
    pub fn from_xyz(x: u32, y: u32, z: u32) -> (r: CFrame)
        ensures
            r == (CFrame { position: Vector3 { x, y, z }, orientation: spec_m3_identity() }),
    {
        CFrame { position: Vector3 { x, y, z }, orientation: Matrix3::default() }
    }

    /// A rotation-only transform about `axis` by the angle pattern
    /// `theta`, assembled from three axis-angle rotations of the basis
    /// vectors.  The trigonometric patterns are platform-computed, so the
    /// contract promises the shape [`is_axis_rotation_of`].
    pub fn from_axis_angle(axis: Vector3, theta: u32) -> (ret: CFrame)
        ensures
            is_axis_rotation_of(ret, axis),
    {
        let r = axis.axis_angle(Vector3::RIGHT(), theta);
        let u = axis.axis_angle(Vector3::UP(), theta);
        let b = axis.axis_angle(Vector3::BACK(), theta);
        let ret = CFrame {
            position: Vector3 { x: 0, y: 0, z: 0 },
            orientation: Matrix3 {
                x: Vector3 { x: r.x, y: u.x, z: b.x },
                y: Vector3 { x: r.y, y: u.y, z: b.y },
                z: Vector3 { x: r.z, y: u.z, z: b.z },
            },
        };
        proof {
            assert(ret.orientation == mat3_from_axis_vectors(r, u, b));
            assert(is_axis_rotation_of(ret, axis));
        }
        ret
    }

    /// The product of rotations about the three basis axes by the three
    /// angle patterns, composed as `rx * ry * rz`.
    pub fn angles(x: u32, y: u32, z: u32) -> (ret: CFrame)
        ensures
            is_angles_of(ret),
    {
        let cfx = CFrame::from_axis_angle(Vector3::RIGHT(), x);
        let cfy = CFrame::from_axis_angle(Vector3::UP(), y);
        let cfz = CFrame::from_axis_angle(Vector3::BACK(), z);
        let t = cfx.mult(cfy);
        let ret = t.mult(cfz);
        proof {
            assert(is_angles_of(ret));
        }
        ret
    }

    /// Composition `self * b`, exact up to NaN payloads.
    pub fn mult(&self, b: CFrame) -> (ret: CFrame)
        ensures
            cframe_sim(ret, spec_cf_mult(*self, b)),
    {
        let m = self.orientation;
        let n = b.orientation;
        let p = b.position;
        let a = self.position;

        let px = dot3_bits(m.x.x, m.x.y, m.x.z, p.x, p.y, p.z);
        let py = dot3_bits(m.y.x, m.y.y, m.y.z, p.x, p.y, p.z);
        let pz = dot3_bits(m.z.x, m.z.y, m.z.z, p.x, p.y, p.z);
        let x = add_bits(px, a.x);
        let y = add_bits(py, a.y);
        let z = add_bits(pz, a.z);
        proof {
            lemma_fadd_congruent(px, spec_dot3(m.x.x, m.x.y, m.x.z, p.x, p.y, p.z), a.x, a.x);
            lemma_fadd_congruent(py, spec_dot3(m.y.x, m.y.y, m.y.z, p.x, p.y, p.z), a.y, a.y);
            lemma_fadd_congruent(pz, spec_dot3(m.z.x, m.z.y, m.z.z, p.x, p.y, p.z), a.z, a.z);
        }

        CFrame {
            position: Vector3 { x, y, z },
            orientation: Matrix3 {
                x: Vector3 {
                    x: dot3_bits(m.x.x, m.x.y, m.x.z, n.x.x, n.y.x, n.z.x),
                    y: dot3_bits(m.x.x, m.x.y, m.x.z, n.x.y, n.y.y, n.z.y),
                    z: dot3_bits(m.x.x, m.x.y, m.x.z, n.x.z, n.y.z, n.z.z),
                },
                y: Vector3 {
                    x: dot3_bits(m.y.x, m.y.y, m.y.z, n.x.x, n.y.x, n.z.x),
                    y: dot3_bits(m.y.x, m.y.y, m.y.z, n.x.y, n.y.y, n.z.y),
                    z: dot3_bits(m.y.x, m.y.y, m.y.z, n.x.z, n.y.z, n.z.z),
                },
                z: Vector3 {
                    x: dot3_bits(m.z.x, m.z.y, m.z.z, n.x.x, n.y.x, n.z.x),
                    y: dot3_bits(m.z.x, m.z.y, m.z.z, n.x.y, n.y.y, n.z.y),
                    z: dot3_bits(m.z.x, m.z.y, m.z.z, n.x.z, n.y.z, n.z.z),
                },
            },
        }
    }
}

/// [`Vector3::spec_add`] respects [`vec3_sim`].
pub proof fn lemma_v3_add_congruent(a1: Vector3, a2: Vector3, b1: Vector3, b2: Vector3)
    requires
        vec3_sim(a1, a2),
        vec3_sim(b1, b2),
    ensures
        a1.spec_add(b1) == a2.spec_add(b2),
{
    lemma_fadd_congruent(a1.x, a2.x, b1.x, b2.x);
    lemma_fadd_congruent(a1.y, a2.y, b1.y, b2.y);
    lemma_fadd_congruent(a1.z, a2.z, b1.z, b2.z);
}

/// [`Vector3::spec_mult`] respects [`vec3_sim`] and [`f32_sim`].
pub proof fn lemma_v3_mult_congruent(a1: Vector3, a2: Vector3, i1: u32, i2: u32)
    requires
        vec3_sim(a1, a2),
        f32_sim(i1, i2),
    ensures
        a1.spec_mult(i1) == a2.spec_mult(i2),
{
    lemma_fmul_congruent(a1.x, a2.x, i1, i2);
    lemma_fmul_congruent(a1.y, a2.y, i1, i2);
    lemma_fmul_congruent(a1.z, a2.z, i1, i2);
}

/// [`Vector3::spec_cross`] respects [`vec3_sim`].
pub proof fn lemma_v3_cross_congruent(a1: Vector3, a2: Vector3, b1: Vector3, b2: Vector3)
    requires
        vec3_sim(a1, a2),
        vec3_sim(b1, b2),
    ensures
        a1.spec_cross(b1) == a2.spec_cross(b2),
{
    lemma_fmul_congruent(a1.y, a2.y, b1.z, b2.z);
    lemma_fmul_congruent(b1.y, b2.y, a1.z, a2.z);
    lemma_fsub_congruent(fmul(a1.y, b1.z), fmul(a2.y, b2.z), fmul(b1.y, a1.z), fmul(b2.y, a2.z));
    lemma_fmul_congruent(a1.z, a2.z, b1.x, b2.x);
    lemma_fmul_congruent(b1.z, b2.z, a1.x, a2.x);
    lemma_fsub_congruent(fmul(a1.z, b1.x), fmul(a2.z, b2.x), fmul(b1.z, a1.x), fmul(b2.z, a2.x));
    lemma_fmul_congruent(a1.x, a2.x, b1.y, b2.y);
    lemma_fmul_congruent(b1.x, b2.x, a1.y, a2.y);
    lemma_fsub_congruent(fmul(a1.x, b1.y), fmul(a2.x, b2.y), fmul(b1.x, a1.y), fmul(b2.x, a2.y));
}

/// [`Vector3::spec_dot`] respects [`vec3_sim`].
pub proof fn lemma_v3_dot_congruent(a1: Vector3, a2: Vector3, b1: Vector3, b2: Vector3)
    requires
        vec3_sim(a1, a2),
        vec3_sim(b1, b2),
    ensures
        a1.spec_dot(b1) == a2.spec_dot(b2),
{
    lemma_fmul_congruent(a1.x, a2.x, b1.x, b2.x);
    lemma_fmul_congruent(a1.y, a2.y, b1.y, b2.y);
    lemma_fmul_congruent(a1.z, a2.z, b1.z, b2.z);
    lemma_fadd_congruent(
        fmul(a1.x, b1.x),
        fmul(a2.x, b2.x),
        fmul(a1.y, b1.y),
        fmul(a2.y, b2.y),
    );
    lemma_fadd_congruent(
        fadd(fmul(a1.x, b1.x), fmul(a1.y, b1.y)),
        fadd(fmul(a2.x, b2.x), fmul(a2.y, b2.y)),
        fmul(a1.z, b1.z),
        fmul(a2.z, b2.z),
    );
}

} // verus!
