//! Fixed-point affine transforms.
//!
//! Camera and portal transforms are 4x4 matrices over signed 16.16
//! fixed-point scalars; entry `mRC` is row `R`, column `C`. The surrounding
//! layer converts to and from its floating-point matrices at the boundary;
//! everything computed here — products, rigid inverses, point transforms —
//! is exact integer arithmetic with an explicit range check, so a result
//! that would leave the representable range is reported rather than
//! wrapped. Each operation's result equals a total specification function,
//! so chains of operations stay fully determined in contracts.
use vstd::prelude::*;

verus! {

/// The fixed-point unit: 1.0 is stored as this many raw ticks.
pub const FP_ONE: i64 = 65536;

/// Largest magnitude a matrix entry or coordinate may take. Keeping every
/// operand within this bound keeps all intermediate products inside i128.
pub const ENTRY_LIMIT: i64 = 0x4000_0000_0000_0000;

/// A 4x4 fixed-point matrix; `mRC` is row `R`, column `C`. For an affine
/// transform the last column holds the translation and the bottom row is
/// `(0, 0, 0, 1)`.
#[derive(Copy, Clone, Debug, PartialEq, Eq, Structural)]
pub struct Mat4 {
    pub m00: i64, pub m01: i64, pub m02: i64, pub m03: i64,
    pub m10: i64, pub m11: i64, pub m12: i64, pub m13: i64,
    pub m20: i64, pub m21: i64, pub m22: i64, pub m23: i64,
    pub m30: i64, pub m31: i64, pub m32: i64, pub m33: i64,
}

/// A fixed-point point or direction in 3-space.
#[derive(Copy, Clone, Debug, PartialEq, Eq, Structural)]
pub struct Vec3Fx {
    pub x: i64,
    pub y: i64,
    pub z: i64,
}

/// `x` is small enough to stand in a matrix or coordinate.
pub open spec fn entry_fits(x: int) -> bool {
    -ENTRY_LIMIT <= x <= ENTRY_LIMIT
}

/// Scale a raw double-width product back to fixed point, rounding toward
/// zero.
pub open spec fn scale_fx(s: int) -> int {
    if s >= 0 {
        s / (FP_ONE as int)
    } else {
        -((-s) / (FP_ONE as int))
    }
}

/// The scaled dot product of two rows of four fixed-point scalars.
pub open spec fn dot4(a0: int, a1: int, a2: int, a3: int, b0: int, b1: int, b2: int, b3: int) -> int {
    scale_fx(a0 * b0 + a1 * b1 + a2 * b2 + a3 * b3)
}

impl Mat4 {
    /// All entries within range.
    pub open spec fn wf(self) -> bool {
        &&& entry_fits(self.m00 as int) && entry_fits(self.m01 as int)
            && entry_fits(self.m02 as int) && entry_fits(self.m03 as int)
        &&& entry_fits(self.m10 as int) && entry_fits(self.m11 as int)
            && entry_fits(self.m12 as int) && entry_fits(self.m13 as int)
        &&& entry_fits(self.m20 as int) && entry_fits(self.m21 as int)
            && entry_fits(self.m22 as int) && entry_fits(self.m23 as int)
        &&& entry_fits(self.m30 as int) && entry_fits(self.m31 as int)
            && entry_fits(self.m32 as int) && entry_fits(self.m33 as int)
    }

    /// The identity transform.
    pub open spec fn identity_spec() -> Mat4 {
        Mat4 {
            m00: FP_ONE, m01: 0, m02: 0, m03: 0,
            m10: 0, m11: FP_ONE, m12: 0, m13: 0,
            m20: 0, m21: 0, m22: FP_ONE, m23: 0,
            m30: 0, m31: 0, m32: 0, m33: FP_ONE,
        }
    }

    pub fn identity() -> (r: Mat4)
        ensures
            r == Mat4::identity_spec(),
            r.wf(),
    {
        Mat4 {
            m00: FP_ONE, m01: 0, m02: 0, m03: 0,
            m10: 0, m11: FP_ONE, m12: 0, m13: 0,
            m20: 0, m21: 0, m22: FP_ONE, m23: 0,
            m30: 0, m31: 0, m32: 0, m33: FP_ONE,
        }
    }

    /// A pure translation by `(x, y, z)`.
    pub fn translation(x: i64, y: i64, z: i64) -> (r: Mat4)
        ensures
            r == (Mat4 {
                m00: FP_ONE, m01: 0, m02: 0, m03: x,
                m10: 0, m11: FP_ONE, m12: 0, m13: y,
                m20: 0, m21: 0, m22: FP_ONE, m23: z,
                m30: 0, m31: 0, m32: 0, m33: FP_ONE,
            }),
    {
        Mat4 {
            m00: FP_ONE, m01: 0, m02: 0, m03: x,
            m10: 0, m11: FP_ONE, m12: 0, m13: y,
            m20: 0, m21: 0, m22: FP_ONE, m23: z,
            m30: 0, m31: 0, m32: 0, m33: FP_ONE,
        }
    }
}

impl Vec3Fx {
    /// All coordinates within range.
    pub open spec fn wf(self) -> bool {
        entry_fits(self.x as int) && entry_fits(self.y as int) && entry_fits(self.z as int)
    }

    pub fn new(x: i64, y: i64, z: i64) -> (r: Vec3Fx)
        ensures
            r == (Vec3Fx { x, y, z }),
    {
        Vec3Fx { x, y, z }
    }
}

/// The product `a * b`, entrywise; meaningful where `mul_fits` holds.
pub open spec fn mat_mul_spec(a: Mat4, b: Mat4) -> Mat4 {
    Mat4 {
        m00: dot4(a.m00 as int, a.m01 as int, a.m02 as int, a.m03 as int, b.m00 as int, b.m10 as int, b.m20 as int, b.m30 as int) as i64,
        m01: dot4(a.m00 as int, a.m01 as int, a.m02 as int, a.m03 as int, b.m01 as int, b.m11 as int, b.m21 as int, b.m31 as int) as i64,
        m02: dot4(a.m00 as int, a.m01 as int, a.m02 as int, a.m03 as int, b.m02 as int, b.m12 as int, b.m22 as int, b.m32 as int) as i64,
        m03: dot4(a.m00 as int, a.m01 as int, a.m02 as int, a.m03 as int, b.m03 as int, b.m13 as int, b.m23 as int, b.m33 as int) as i64,
        m10: dot4(a.m10 as int, a.m11 as int, a.m12 as int, a.m13 as int, b.m00 as int, b.m10 as int, b.m20 as int, b.m30 as int) as i64,
        m11: dot4(a.m10 as int, a.m11 as int, a.m12 as int, a.m13 as int, b.m01 as int, b.m11 as int, b.m21 as int, b.m31 as int) as i64,
        m12: dot4(a.m10 as int, a.m11 as int, a.m12 as int, a.m13 as int, b.m02 as int, b.m12 as int, b.m22 as int, b.m32 as int) as i64,
        m13: dot4(a.m10 as int, a.m11 as int, a.m12 as int, a.m13 as int, b.m03 as int, b.m13 as int, b.m23 as int, b.m33 as int) as i64,
        m20: dot4(a.m20 as int, a.m21 as int, a.m22 as int, a.m23 as int, b.m00 as int, b.m10 as int, b.m20 as int, b.m30 as int) as i64,
        m21: dot4(a.m20 as int, a.m21 as int, a.m22 as int, a.m23 as int, b.m01 as int, b.m11 as int, b.m21 as int, b.m31 as int) as i64,
        m22: dot4(a.m20 as int, a.m21 as int, a.m22 as int, a.m23 as int, b.m02 as int, b.m12 as int, b.m22 as int, b.m32 as int) as i64,
        m23: dot4(a.m20 as int, a.m21 as int, a.m22 as int, a.m23 as int, b.m03 as int, b.m13 as int, b.m23 as int, b.m33 as int) as i64,
        m30: dot4(a.m30 as int, a.m31 as int, a.m32 as int, a.m33 as int, b.m00 as int, b.m10 as int, b.m20 as int, b.m30 as int) as i64,
        m31: dot4(a.m30 as int, a.m31 as int, a.m32 as int, a.m33 as int, b.m01 as int, b.m11 as int, b.m21 as int, b.m31 as int) as i64,
        m32: dot4(a.m30 as int, a.m31 as int, a.m32 as int, a.m33 as int, b.m02 as int, b.m12 as int, b.m22 as int, b.m32 as int) as i64,
        m33: dot4(a.m30 as int, a.m31 as int, a.m32 as int, a.m33 as int, b.m03 as int, b.m13 as int, b.m23 as int, b.m33 as int) as i64,
    }
}

/// Every entry of `a * b` stays representable.
pub open spec fn mul_fits(a: Mat4, b: Mat4) -> bool {
    &&& entry_fits(dot4(a.m00 as int, a.m01 as int, a.m02 as int, a.m03 as int, b.m00 as int, b.m10 as int, b.m20 as int, b.m30 as int))
    &&& entry_fits(dot4(a.m00 as int, a.m01 as int, a.m02 as int, a.m03 as int, b.m01 as int, b.m11 as int, b.m21 as int, b.m31 as int))
    &&& entry_fits(dot4(a.m00 as int, a.m01 as int, a.m02 as int, a.m03 as int, b.m02 as int, b.m12 as int, b.m22 as int, b.m32 as int))
    &&& entry_fits(dot4(a.m00 as int, a.m01 as int, a.m02 as int, a.m03 as int, b.m03 as int, b.m13 as int, b.m23 as int, b.m33 as int))
    &&& entry_fits(dot4(a.m10 as int, a.m11 as int, a.m12 as int, a.m13 as int, b.m00 as int, b.m10 as int, b.m20 as int, b.m30 as int))
    &&& entry_fits(dot4(a.m10 as int, a.m11 as int, a.m12 as int, a.m13 as int, b.m01 as int, b.m11 as int, b.m21 as int, b.m31 as int))
    &&& entry_fits(dot4(a.m10 as int, a.m11 as int, a.m12 as int, a.m13 as int, b.m02 as int, b.m12 as int, b.m22 as int, b.m32 as int))
    &&& entry_fits(dot4(a.m10 as int, a.m11 as int, a.m12 as int, a.m13 as int, b.m03 as int, b.m13 as int, b.m23 as int, b.m33 as int))
    &&& entry_fits(dot4(a.m20 as int, a.m21 as int, a.m22 as int, a.m23 as int, b.m00 as int, b.m10 as int, b.m20 as int, b.m30 as int))
    &&& entry_fits(dot4(a.m20 as int, a.m21 as int, a.m22 as int, a.m23 as int, b.m01 as int, b.m11 as int, b.m21 as int, b.m31 as int))
    &&& entry_fits(dot4(a.m20 as int, a.m21 as int, a.m22 as int, a.m23 as int, b.m02 as int, b.m12 as int, b.m22 as int, b.m32 as int))
    &&& entry_fits(dot4(a.m20 as int, a.m21 as int, a.m22 as int, a.m23 as int, b.m03 as int, b.m13 as int, b.m23 as int, b.m33 as int))
    &&& entry_fits(dot4(a.m30 as int, a.m31 as int, a.m32 as int, a.m33 as int, b.m00 as int, b.m10 as int, b.m20 as int, b.m30 as int))
    &&& entry_fits(dot4(a.m30 as int, a.m31 as int, a.m32 as int, a.m33 as int, b.m01 as int, b.m11 as int, b.m21 as int, b.m31 as int))
    &&& entry_fits(dot4(a.m30 as int, a.m31 as int, a.m32 as int, a.m33 as int, b.m02 as int, b.m12 as int, b.m22 as int, b.m32 as int))
    &&& entry_fits(dot4(a.m30 as int, a.m31 as int, a.m32 as int, a.m33 as int, b.m03 as int, b.m13 as int, b.m23 as int, b.m33 as int))
}

/// `a * b` if every entry stays representable.
pub open spec fn checked_mul(a: Mat4, b: Mat4) -> Option<Mat4> {
    if mul_fits(a, b) {
        Some(mat_mul_spec(a, b))
    } else {
        None
    }
}

/// The rigid inverse, entrywise: transposed rotation block, negated
/// transposed-rotation-times-translation column, affine bottom row.
/// It is the true inverse only of a rigid transform.
pub open spec fn rigid_inverse_spec(m: Mat4) -> Mat4 {
    Mat4 {
        m00: m.m00, m01: m.m10, m02: m.m20,
        m03: (-dot4(m.m00 as int, m.m10 as int, m.m20 as int, 0, m.m03 as int, m.m13 as int, m.m23 as int, 0)) as i64,
        m10: m.m01, m11: m.m11, m12: m.m21,
        m13: (-dot4(m.m01 as int, m.m11 as int, m.m21 as int, 0, m.m03 as int, m.m13 as int, m.m23 as int, 0)) as i64,
        m20: m.m02, m21: m.m12, m22: m.m22,
        m23: (-dot4(m.m02 as int, m.m12 as int, m.m22 as int, 0, m.m03 as int, m.m13 as int, m.m23 as int, 0)) as i64,
        m30: 0, m31: 0, m32: 0, m33: FP_ONE,
    }
}

/// The inverse's translation column stays representable.
pub open spec fn rigid_inverse_fits(m: Mat4) -> bool {
    &&& entry_fits(dot4(m.m00 as int, m.m10 as int, m.m20 as int, 0, m.m03 as int, m.m13 as int, m.m23 as int, 0))
    &&& entry_fits(dot4(m.m01 as int, m.m11 as int, m.m21 as int, 0, m.m03 as int, m.m13 as int, m.m23 as int, 0))
    &&& entry_fits(dot4(m.m02 as int, m.m12 as int, m.m22 as int, 0, m.m03 as int, m.m13 as int, m.m23 as int, 0))
}

/// The rigid inverse if its translation stays representable.
pub open spec fn checked_rigid_inverse(m: Mat4) -> Option<Mat4> {
    if rigid_inverse_fits(m) {
        Some(rigid_inverse_spec(m))
    } else {
        None
    }
}

/// `m` applied to the homogeneous point `(p, 1)`, coordinatewise; the
/// bottom row is not consulted.
pub open spec fn transform_spec(m: Mat4, p: Vec3Fx) -> Vec3Fx {
    Vec3Fx {
        x: dot4(m.m00 as int, m.m01 as int, m.m02 as int, m.m03 as int, p.x as int, p.y as int, p.z as int, FP_ONE as int) as i64,
        y: dot4(m.m10 as int, m.m11 as int, m.m12 as int, m.m13 as int, p.x as int, p.y as int, p.z as int, FP_ONE as int) as i64,
        z: dot4(m.m20 as int, m.m21 as int, m.m22 as int, m.m23 as int, p.x as int, p.y as int, p.z as int, FP_ONE as int) as i64,
    }
}

/// The transformed point stays representable.
pub open spec fn transform_fits(m: Mat4, p: Vec3Fx) -> bool {
    &&& entry_fits(dot4(m.m00 as int, m.m01 as int, m.m02 as int, m.m03 as int, p.x as int, p.y as int, p.z as int, FP_ONE as int))
    &&& entry_fits(dot4(m.m10 as int, m.m11 as int, m.m12 as int, m.m13 as int, p.x as int, p.y as int, p.z as int, FP_ONE as int))
    &&& entry_fits(dot4(m.m20 as int, m.m21 as int, m.m22 as int, m.m23 as int, p.x as int, p.y as int, p.z as int, FP_ONE as int))
}

/// The transformed point if it stays representable.
pub open spec fn checked_transform(m: Mat4, p: Vec3Fx) -> Option<Vec3Fx> {
    if transform_fits(m, p) {
        Some(transform_spec(m, p))
    } else {
        None
    }
}

/// A product of two in-range operands stays within i128.
proof fn lemma_product_bound(x: int, y: int)
    requires
        -ENTRY_LIMIT <= x <= ENTRY_LIMIT,
        -ENTRY_LIMIT <= y <= ENTRY_LIMIT,
    ensures
        -0x1000_0000_0000_0000_0000_0000_0000_0000 <= x * y
            <= 0x1000_0000_0000_0000_0000_0000_0000_0000,
{
    assert(-0x1000_0000_0000_0000_0000_0000_0000_0000 <= x * y
        <= 0x1000_0000_0000_0000_0000_0000_0000_0000) by (nonlinear_arith)
        requires
            -0x4000_0000_0000_0000 <= x <= 0x4000_0000_0000_0000,
            -0x4000_0000_0000_0000 <= y <= 0x4000_0000_0000_0000,
    ;
}

/// One raw product, in double width.
fn wide_mul(x: i64, y: i64) -> (r: i128)
    requires
        entry_fits(x as int),
        entry_fits(y as int),
    ensures
        r == x as int * y as int,
        -0x1000_0000_0000_0000_0000_0000_0000_0000 <= r
            <= 0x1000_0000_0000_0000_0000_0000_0000_0000,
{
    proof {
        lemma_product_bound(x as int, y as int);
    }
    x as i128 * y as i128
}

/// Scale a raw sum back to fixed point, rounding toward zero; reports a
/// result out of range instead of wrapping.
fn scale_checked(sum: i128) -> (r: Option<i64>)
    requires
        -0x4000_0000_0000_0000_0000_0000_0000_0000 <= sum
            <= 0x4000_0000_0000_0000_0000_0000_0000_0000,
    ensures
        r is Some <==> entry_fits(scale_fx(sum as int)),
        r matches Some(v) ==> v == scale_fx(sum as int),
{
    let neg = sum < 0;
    let mag: u128 = if neg {
        (-sum) as u128
    } else {
        sum as u128
    };
    let q: u128 = mag / (FP_ONE as u128);
    if q > ENTRY_LIMIT as u128 {
        None
    } else {
        let v: i64 = if neg {
            -(q as i64)
        } else {
            q as i64
        };
        Some(v)
    }
}

/// The scaled dot product of a row of `a`-entries with a column of
/// `b`-entries, or nothing if it leaves the representable range.
fn dot4_checked(a0: i64, a1: i64, a2: i64, a3: i64, b0: i64, b1: i64, b2: i64, b3: i64) -> (r:
    Option<i64>)
    requires
        entry_fits(a0 as int) && entry_fits(a1 as int) && entry_fits(a2 as int) && entry_fits(a3 as int),
        entry_fits(b0 as int) && entry_fits(b1 as int) && entry_fits(b2 as int) && entry_fits(b3 as int),
    ensures
        r is Some <==> entry_fits(dot4(a0 as int, a1 as int, a2 as int, a3 as int, b0 as int, b1 as int, b2 as int, b3 as int)),
        r matches Some(v) ==> v == dot4(a0 as int, a1 as int, a2 as int, a3 as int, b0 as int, b1 as int, b2 as int, b3 as int),
{
    let p0 = wide_mul(a0, b0);
    let p1 = wide_mul(a1, b1);
    let p2 = wide_mul(a2, b2);
    let p3 = wide_mul(a3, b3);
    scale_checked(p0 + p1 + p2 + p3)
}

/// Fixed-point matrix product `a * b`: the exact rounded-toward-zero
/// product, or nothing if any entry would leave the representable range;
/// never a wrapped or clamped value.
pub fn mat_mul(a: &Mat4, b: &Mat4) -> (r: Option<Mat4>)
    requires
        a.wf(),
        b.wf(),
    ensures
        r == checked_mul(*a, *b),
        r matches Some(m) ==> m.wf(),
{
    let r0 = (a.m00, a.m01, a.m02, a.m03);
    let r1 = (a.m10, a.m11, a.m12, a.m13);
    let r2 = (a.m20, a.m21, a.m22, a.m23);
    let r3 = (a.m30, a.m31, a.m32, a.m33);
    let c0 = (b.m00, b.m10, b.m20, b.m30);
    let c1 = (b.m01, b.m11, b.m21, b.m31);
    let c2 = (b.m02, b.m12, b.m22, b.m32);
    let c3 = (b.m03, b.m13, b.m23, b.m33);
    let m00 = match dot4_checked(r0.0, r0.1, r0.2, r0.3, c0.0, c0.1, c0.2, c0.3) { Some(v) => v, None => { return None } };
    let m01 = match dot4_checked(r0.0, r0.1, r0.2, r0.3, c1.0, c1.1, c1.2, c1.3) { Some(v) => v, None => { return None } };
    let m02 = match dot4_checked(r0.0, r0.1, r0.2, r0.3, c2.0, c2.1, c2.2, c2.3) { Some(v) => v, None => { return None } };
    let m03 = match dot4_checked(r0.0, r0.1, r0.2, r0.3, c3.0, c3.1, c3.2, c3.3) { Some(v) => v, None => { return None } };
    let m10 = match dot4_checked(r1.0, r1.1, r1.2, r1.3, c0.0, c0.1, c0.2, c0.3) { Some(v) => v, None => { return None } };
    let m11 = match dot4_checked(r1.0, r1.1, r1.2, r1.3, c1.0, c1.1, c1.2, c1.3) { Some(v) => v, None => { return None } };
    let m12 = match dot4_checked(r1.0, r1.1, r1.2, r1.3, c2.0, c2.1, c2.2, c2.3) { Some(v) => v, None => { return None } };
    let m13 = match dot4_checked(r1.0, r1.1, r1.2, r1.3, c3.0, c3.1, c3.2, c3.3) { Some(v) => v, None => { return None } };
    let m20 = match dot4_checked(r2.0, r2.1, r2.2, r2.3, c0.0, c0.1, c0.2, c0.3) { Some(v) => v, None => { return None } };
    let m21 = match dot4_checked(r2.0, r2.1, r2.2, r2.3, c1.0, c1.1, c1.2, c1.3) { Some(v) => v, None => { return None } };
    let m22 = match dot4_checked(r2.0, r2.1, r2.2, r2.3, c2.0, c2.1, c2.2, c2.3) { Some(v) => v, None => { return None } };
    let m23 = match dot4_checked(r2.0, r2.1, r2.2, r2.3, c3.0, c3.1, c3.2, c3.3) { Some(v) => v, None => { return None } };
    let m30 = match dot4_checked(r3.0, r3.1, r3.2, r3.3, c0.0, c0.1, c0.2, c0.3) { Some(v) => v, None => { return None } };
    let m31 = match dot4_checked(r3.0, r3.1, r3.2, r3.3, c1.0, c1.1, c1.2, c1.3) { Some(v) => v, None => { return None } };
    let m32 = match dot4_checked(r3.0, r3.1, r3.2, r3.3, c2.0, c2.1, c2.2, c2.3) { Some(v) => v, None => { return None } };
    let m33 = match dot4_checked(r3.0, r3.1, r3.2, r3.3, c3.0, c3.1, c3.2, c3.3) { Some(v) => v, None => { return None } };
    Some(Mat4 { m00, m01, m02, m03, m10, m11, m12, m13, m20, m21, m22, m23, m30, m31, m32, m33 })
}

/// Inverse of a rigid transform (orthonormal rotation block plus
/// translation): the rotation block is transposed and the translation
/// becomes minus the transposed rotation applied to it.
pub fn rigid_inverse(m: &Mat4) -> (r: Option<Mat4>)
    requires
        m.wf(),
    ensures
        r == checked_rigid_inverse(*m),
        r matches Some(inv) ==> inv.wf(),
{
    let t0 = match dot4_checked(m.m00, m.m10, m.m20, 0, m.m03, m.m13, m.m23, 0) {
        Some(v) => v,
        None => { return None },
    };
    let t1 = match dot4_checked(m.m01, m.m11, m.m21, 0, m.m03, m.m13, m.m23, 0) {
        Some(v) => v,
        None => { return None },
    };
    let t2 = match dot4_checked(m.m02, m.m12, m.m22, 0, m.m03, m.m13, m.m23, 0) {
        Some(v) => v,
        None => { return None },
    };
    Some(
        Mat4 {
            m00: m.m00, m01: m.m10, m02: m.m20, m03: -t0,
            m10: m.m01, m11: m.m11, m12: m.m21, m13: -t1,
            m20: m.m02, m21: m.m12, m22: m.m22, m23: -t2,
            m30: 0, m31: 0, m32: 0, m33: FP_ONE,
        },
    )
}

/// Apply an affine transform to a point (homogeneous coordinate 1; the
/// bottom row is not consulted).
pub fn transform_point(m: &Mat4, p: Vec3Fx) -> (r: Option<Vec3Fx>)
    requires
        m.wf(),
        p.wf(),
    ensures
        r == checked_transform(*m, p),
        r matches Some(q) ==> q.wf(),
{
    let x = match dot4_checked(m.m00, m.m01, m.m02, m.m03, p.x, p.y, p.z, FP_ONE) {
        Some(v) => v,
        None => { return None },
    };
    let y = match dot4_checked(m.m10, m.m11, m.m12, m.m13, p.x, p.y, p.z, FP_ONE) {
        Some(v) => v,
        None => { return None },
    };
    let z = match dot4_checked(m.m20, m.m21, m.m22, m.m23, p.x, p.y, p.z, FP_ONE) {
        Some(v) => v,
        None => { return None },
    };
    Some(Vec3Fx { x, y, z })
}

/// Scaling the fixed-point unit times `v` gives back exactly `v`.
proof fn lemma_scale_fp_one(v: int)
    ensures
        scale_fx(FP_ONE as int * v) == v,
{
    if v >= 0 {
        vstd::arithmetic::div_mod::lemma_div_multiples_vanish(v, FP_ONE as int);
    } else {
        vstd::arithmetic::div_mod::lemma_div_multiples_vanish(-v, FP_ONE as int);
        assert(-(FP_ONE as int * v) == FP_ONE as int * (-v)) by (nonlinear_arith);
    }
}

/// A product whose every entry stays representable is a well-formed matrix.
pub proof fn lemma_mul_spec_wf(a: Mat4, b: Mat4)
    requires
        mul_fits(a, b),
    ensures
        mat_mul_spec(a, b).wf(),
{
}

/// The identity transform is its own rigid inverse.
pub proof fn lemma_identity_inverse()
    ensures
        checked_rigid_inverse(Mat4::identity_spec()) == Some(Mat4::identity_spec()),
{
}

/// The identity transform moves no point.
pub proof fn lemma_identity_transform(p: Vec3Fx)
    requires
        p.wf(),
    ensures
        checked_transform(Mat4::identity_spec(), p) == Some(p),
{
    lemma_scale_fp_one(p.x as int);
    lemma_scale_fp_one(p.y as int);
    lemma_scale_fp_one(p.z as int);
}

/// Multiplying by the identity on the left changes nothing: the product is
/// exact, entry for entry.
pub proof fn lemma_identity_mul(m: Mat4)
    requires
        m.wf(),
    ensures
        checked_mul(Mat4::identity_spec(), m) == Some(m),
{
    lemma_scale_fp_one(m.m00 as int);
    lemma_scale_fp_one(m.m01 as int);
    lemma_scale_fp_one(m.m02 as int);
    lemma_scale_fp_one(m.m03 as int);
    lemma_scale_fp_one(m.m10 as int);
    lemma_scale_fp_one(m.m11 as int);
    lemma_scale_fp_one(m.m12 as int);
    lemma_scale_fp_one(m.m13 as int);
    lemma_scale_fp_one(m.m20 as int);
    lemma_scale_fp_one(m.m21 as int);
    lemma_scale_fp_one(m.m22 as int);
    lemma_scale_fp_one(m.m23 as int);
    lemma_scale_fp_one(m.m30 as int);
    lemma_scale_fp_one(m.m31 as int);
    lemma_scale_fp_one(m.m32 as int);
    lemma_scale_fp_one(m.m33 as int);
}

} // verus!
