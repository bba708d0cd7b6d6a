//! Fixed-point vectors and the four-by-four transform matrix.

use vstd::prelude::*;
use crate::fx::{fx_ok, fx_add_s, fx_sub_s, fx_mul_s, fx_div_s, sat_s, tdiv_s, sqrt_s, iabs, FP,
    fx_add, fx_sub, fx_mul, fx_div, tdiv128, sat128, isqrt128};

verus! {

#[derive(Clone, Copy, PartialEq, Eq, Structural, Debug)]
pub struct Fx2 {
    pub x: i64,
    pub y: i64,
}

#[derive(Clone, Copy, PartialEq, Eq, Structural, Debug)]
pub struct Fx3 {
    pub x: i64,
    pub y: i64,
    pub z: i64,
}

#[derive(Clone, Copy, PartialEq, Eq, Structural, Debug)]
pub struct Fx4 {
    pub x: i64,
    pub y: i64,
    pub z: i64,
    pub w: i64,
}

pub open spec fn fx2_ok(v: Fx2) -> bool {
    fx_ok(v.x as int) && fx_ok(v.y as int)
}

pub open spec fn fx3_ok(v: Fx3) -> bool {
    fx_ok(v.x as int) && fx_ok(v.y as int) && fx_ok(v.z as int)
}

pub open spec fn fx4_ok(v: Fx4) -> bool {
    fx_ok(v.x as int) && fx_ok(v.y as int) && fx_ok(v.z as int) && fx_ok(v.w as int)
}

impl Fx2 {
    pub open spec fn zero_s() -> Fx2 {
        Fx2 { x: 0, y: 0 }
    }

    pub fn new(x: i64, y: i64) -> (r: Fx2)
        ensures
            r == (Fx2 { x, y }),
    {
        Fx2 { x, y }
    }

    pub fn zero() -> (r: Fx2)
        ensures
            r == Fx2::zero_s(),
            fx2_ok(r),
    {
        Fx2 { x: 0, y: 0 }
    }
}

impl Fx3 {
    pub open spec fn zero_s() -> Fx3 {
        Fx3 { x: 0, y: 0, z: 0 }
    }

    pub fn new(x: i64, y: i64, z: i64) -> (r: Fx3)
        ensures
            r == (Fx3 { x, y, z }),
    {
        Fx3 { x, y, z }
    }

    pub fn zero() -> (r: Fx3)
        ensures
            r == Fx3::zero_s(),
            fx3_ok(r),
    {
        Fx3 { x: 0, y: 0, z: 0 }
    }

    pub open spec fn splat_s(v: i64) -> Fx3 {
        Fx3 { x: v, y: v, z: v }
    }

    pub fn splat(v: i64) -> (r: Fx3)
        ensures
            r == Fx3::splat_s(v),
    {
        Fx3 { x: v, y: v, z: v }
    }

    pub open spec fn add_s(self, o: Fx3) -> Fx3 {
        Fx3 {
            x: fx_add_s(self.x as int, o.x as int) as i64,
            y: fx_add_s(self.y as int, o.y as int) as i64,
            z: fx_add_s(self.z as int, o.z as int) as i64,
        }
    }

    pub fn add(self, o: Fx3) -> (r: Fx3)
        requires
            fx3_ok(self),
            fx3_ok(o),
        ensures
            r == self.add_s(o),
            fx3_ok(r),
    {
        Fx3 { x: fx_add(self.x, o.x), y: fx_add(self.y, o.y), z: fx_add(self.z, o.z) }
    }

    pub open spec fn sub_s(self, o: Fx3) -> Fx3 {
        Fx3 {
            x: fx_sub_s(self.x as int, o.x as int) as i64,
            y: fx_sub_s(self.y as int, o.y as int) as i64,
            z: fx_sub_s(self.z as int, o.z as int) as i64,
        }
    }

    pub fn sub(self, o: Fx3) -> (r: Fx3)
        requires
            fx3_ok(self),
            fx3_ok(o),
        ensures
            r == self.sub_s(o),
            fx3_ok(r),
    {
        Fx3 { x: fx_sub(self.x, o.x), y: fx_sub(self.y, o.y), z: fx_sub(self.z, o.z) }
    }

    /// Componentwise product, the color product.
    pub open spec fn mul_s(self, o: Fx3) -> Fx3 {
        Fx3 {
            x: fx_mul_s(self.x as int, o.x as int) as i64,
            y: fx_mul_s(self.y as int, o.y as int) as i64,
            z: fx_mul_s(self.z as int, o.z as int) as i64,
        }
    }

    pub fn mul(self, o: Fx3) -> (r: Fx3)
        requires
            fx3_ok(self),
            fx3_ok(o),
        ensures
            r == self.mul_s(o),
            fx3_ok(r),
    {
        Fx3 { x: fx_mul(self.x, o.x), y: fx_mul(self.y, o.y), z: fx_mul(self.z, o.z) }
    }

    pub open spec fn scale_s(self, s: i64) -> Fx3 {
        Fx3 {
            x: fx_mul_s(self.x as int, s as int) as i64,
            y: fx_mul_s(self.y as int, s as int) as i64,
            z: fx_mul_s(self.z as int, s as int) as i64,
        }
    }

    pub fn scale(self, s: i64) -> (r: Fx3)
        requires
            fx3_ok(self),
            fx_ok(s as int),
        ensures
            r == self.scale_s(s),
            fx3_ok(r),
    {
        Fx3 { x: fx_mul(self.x, s), y: fx_mul(self.y, s), z: fx_mul(self.z, s) }
    }

    pub open spec fn neg_s(self) -> Fx3 {
        Fx3 { x: (sat_s(-self.x) as i64), y: (sat_s(-self.y) as i64), z: (sat_s(-self.z) as i64) }
    }

    pub fn neg(self) -> (r: Fx3)
        requires
            fx3_ok(self),
        ensures
            r == self.neg_s(),
            fx3_ok(r),
    {
        Fx3 { x: -self.x, y: -self.y, z: -self.z }
    }

    pub open spec fn dot_s(self, o: Fx3) -> int {
        sat_s(
            tdiv_s(
                self.x * o.x + self.y * o.y + self.z * o.z,
                FP as int,
            ),
        )
    }

    pub fn dot(self, o: Fx3) -> (r: i64)
        requires
            fx3_ok(self),
            fx3_ok(o),
        ensures
            r == self.dot_s(o),
            fx_ok(r as int),
    {
        proof {
            assert(iabs(self.x * o.x) <= 0x100000000000000000000int && iabs(self.y * o.y)
                <= 0x100000000000000000000int && iabs(self.z * o.z)
                <= 0x100000000000000000000int) by (nonlinear_arith)
                requires
                    fx3_ok(self),
                    fx3_ok(o),
            ;
        }
        let s: i128 = (self.x as i128) * (o.x as i128) + (self.y as i128) * (o.y as i128) + (
        self.z as i128) * (o.z as i128);
        let q = tdiv128(s, FP as i128);
        sat128(q)
    }

    /// The squared length in raw units: the sum of squared raw components.
    pub open spec fn len2_raw_s(self) -> int {
        self.x * self.x + self.y * self.y + self.z * self.z
    }

    /// The direction of `self` at unit length; the zero vector stays zero,
    /// so that degenerate inputs stay deterministic and never abort.
    pub open spec fn normalize_s(self) -> Fx3 {
        let l = sqrt_s(self.len2_raw_s());
        if l == 0 {
            Fx3::zero_s()
        } else {
            Fx3 {
                x: fx_div_s(self.x as int, l) as i64,
                y: fx_div_s(self.y as int, l) as i64,
                z: fx_div_s(self.z as int, l) as i64,
            }
        }
    }

    pub fn normalize(self) -> (r: Fx3)
        requires
            fx3_ok(self),
        ensures
            r == self.normalize_s(),
            fx3_ok(r),
    {
        proof {
            assert(0 <= self.x * self.x <= 0x100000000000000000000int && 0 <= self.y * self.y
                <= 0x100000000000000000000int && 0 <= self.z * self.z
                <= 0x100000000000000000000int) by (nonlinear_arith)
                requires
                    fx3_ok(self),
            ;
        }
        let l2: i128 = (self.x as i128) * (self.x as i128) + (self.y as i128) * (self.y as i128)
            + (self.z as i128) * (self.z as i128);
        let l: u128 = isqrt128(l2 as u128);
        proof {
            assert(l * l <= l2);
            assert(l <= 0x20000000000int) by (nonlinear_arith)
                requires
                    l * l <= 0x400000000000000000000int,
                    l >= 0,
            ;
        }
        if l == 0 {
            Fx3::zero()
        } else {
            let li: i64 = l as i64;
            Fx3 { x: fx_div(self.x, li), y: fx_div(self.y, li), z: fx_div(self.z, li) }
        }
    }
}

impl Fx4 {
    pub open spec fn zero_s() -> Fx4 {
        Fx4 { x: 0, y: 0, z: 0, w: 0 }
    }

    pub fn new(x: i64, y: i64, z: i64, w: i64) -> (r: Fx4)
        ensures
            r == (Fx4 { x, y, z, w }),
    {
        Fx4 { x, y, z, w }
    }

    pub fn zero() -> (r: Fx4)
        ensures
            r == Fx4::zero_s(),
            fx4_ok(r),
    {
        Fx4 { x: 0, y: 0, z: 0, w: 0 }
    }

    pub open spec fn xyz_s(self) -> Fx3 {
        Fx3 { x: self.x, y: self.y, z: self.z }
    }

    pub fn xyz(self) -> (r: Fx3)
        ensures
            r == self.xyz_s(),
    {
        Fx3 { x: self.x, y: self.y, z: self.z }
    }

    pub open spec fn add_s(self, o: Fx4) -> Fx4 {
        Fx4 {
            x: fx_add_s(self.x as int, o.x as int) as i64,
            y: fx_add_s(self.y as int, o.y as int) as i64,
            z: fx_add_s(self.z as int, o.z as int) as i64,
            w: fx_add_s(self.w as int, o.w as int) as i64,
        }
    }

    pub fn add(self, o: Fx4) -> (r: Fx4)
        requires
            fx4_ok(self),
            fx4_ok(o),
        ensures
            r == self.add_s(o),
            fx4_ok(r),
    {
        Fx4 {
            x: fx_add(self.x, o.x),
            y: fx_add(self.y, o.y),
            z: fx_add(self.z, o.z),
            w: fx_add(self.w, o.w),
        }
    }

    pub open spec fn scale_s(self, s: i64) -> Fx4 {
        Fx4 {
            x: fx_mul_s(self.x as int, s as int) as i64,
            y: fx_mul_s(self.y as int, s as int) as i64,
            z: fx_mul_s(self.z as int, s as int) as i64,
            w: fx_mul_s(self.w as int, s as int) as i64,
        }
    }

    pub fn scale(self, s: i64) -> (r: Fx4)
        requires
            fx4_ok(self),
            fx_ok(s as int),
        ensures
            r == self.scale_s(s),
            fx4_ok(r),
    {
        Fx4 {
            x: fx_mul(self.x, s),
            y: fx_mul(self.y, s),
            z: fx_mul(self.z, s),
            w: fx_mul(self.w, s),
        }
    }
}

/// A row-major four-by-four fixed-point matrix: `m<r><c>` is row `r`,
/// column `c`.
#[derive(Clone, Copy, PartialEq, Eq, Structural, Debug)]
pub struct FxMat4 {
    pub m00: i64,
    pub m01: i64,
    pub m02: i64,
    pub m03: i64,
    pub m10: i64,
    pub m11: i64,
    pub m12: i64,
    pub m13: i64,
    pub m20: i64,
    pub m21: i64,
    pub m22: i64,
    pub m23: i64,
    pub m30: i64,
    pub m31: i64,
    pub m32: i64,
    pub m33: i64,
}

pub open spec fn mat_ok(m: FxMat4) -> bool {
    &&& fx_ok(m.m00 as int) && fx_ok(m.m01 as int) && fx_ok(m.m02 as int) && fx_ok(m.m03 as int)
    &&& fx_ok(m.m10 as int) && fx_ok(m.m11 as int) && fx_ok(m.m12 as int) && fx_ok(m.m13 as int)
    &&& fx_ok(m.m20 as int) && fx_ok(m.m21 as int) && fx_ok(m.m22 as int) && fx_ok(m.m23 as int)
    &&& fx_ok(m.m30 as int) && fx_ok(m.m31 as int) && fx_ok(m.m32 as int) && fx_ok(m.m33 as int)
}

/// A saturating four-term fixed-point dot product, associated as two pairs.
pub open spec fn dot4_s(a0: int, a1: int, a2: int, a3: int, b0: int, b1: int, b2: int, b3: int) -> int {
    fx_add_s(
        fx_add_s(fx_mul_s(a0, b0), fx_mul_s(a1, b1)),
        fx_add_s(fx_mul_s(a2, b2), fx_mul_s(a3, b3)),
    )
}

pub fn dot4(a0: i64, a1: i64, a2: i64, a3: i64, b0: i64, b1: i64, b2: i64, b3: i64) -> (r: i64)
    requires
        fx_ok(a0 as int),
        fx_ok(a1 as int),
        fx_ok(a2 as int),
        fx_ok(a3 as int),
        fx_ok(b0 as int),
        fx_ok(b1 as int),
        fx_ok(b2 as int),
        fx_ok(b3 as int),
    ensures
        r == dot4_s(a0 as int, a1 as int, a2 as int, a3 as int, b0 as int, b1 as int, b2 as int, b3 as int),
        fx_ok(r as int),
{
    fx_add(fx_add(fx_mul(a0, b0), fx_mul(a1, b1)), fx_add(fx_mul(a2, b2), fx_mul(a3, b3)))
}

impl FxMat4 {
    pub open spec fn identity_s() -> FxMat4 {
        FxMat4 {
            m00: FP,
            m01: 0,
            m02: 0,
            m03: 0,
            m10: 0,
            m11: FP,
            m12: 0,
            m13: 0,
            m20: 0,
            m21: 0,
            m22: FP,
            m23: 0,
            m30: 0,
            m31: 0,
            m32: 0,
            m33: FP,
        }
    }

    pub fn identity() -> (r: FxMat4)
        ensures
            r == FxMat4::identity_s(),
            mat_ok(r),
    {
        FxMat4 {
            m00: FP,
            m01: 0,
            m02: 0,
            m03: 0,
            m10: 0,
            m11: FP,
            m12: 0,
            m13: 0,
            m20: 0,
            m21: 0,
            m22: FP,
            m23: 0,
            m30: 0,
            m31: 0,
            m32: 0,
            m33: FP,
        }
    }

    /// The matrix product `self * o`, each entry a saturating fixed-point
    /// dot product of a row of `self` with a column of `o`.
    pub open spec fn mul_s(self, o: FxMat4) -> FxMat4 {
        FxMat4 {
            m00: dot4_s(self.m00 as int, self.m01 as int, self.m02 as int, self.m03 as int, o.m00 as int, o.m10 as int, o.m20 as int, o.m30 as int) as i64,
            m01: dot4_s(self.m00 as int, self.m01 as int, self.m02 as int, self.m03 as int, o.m01 as int, o.m11 as int, o.m21 as int, o.m31 as int) as i64,
            m02: dot4_s(self.m00 as int, self.m01 as int, self.m02 as int, self.m03 as int, o.m02 as int, o.m12 as int, o.m22 as int, o.m32 as int) as i64,
            m03: dot4_s(self.m00 as int, self.m01 as int, self.m02 as int, self.m03 as int, o.m03 as int, o.m13 as int, o.m23 as int, o.m33 as int) as i64,
            m10: dot4_s(self.m10 as int, self.m11 as int, self.m12 as int, self.m13 as int, o.m00 as int, o.m10 as int, o.m20 as int, o.m30 as int) as i64,
            m11: dot4_s(self.m10 as int, self.m11 as int, self.m12 as int, self.m13 as int, o.m01 as int, o.m11 as int, o.m21 as int, o.m31 as int) as i64,
            m12: dot4_s(self.m10 as int, self.m11 as int, self.m12 as int, self.m13 as int, o.m02 as int, o.m12 as int, o.m22 as int, o.m32 as int) as i64,
            m13: dot4_s(self.m10 as int, self.m11 as int, self.m12 as int, self.m13 as int, o.m03 as int, o.m13 as int, o.m23 as int, o.m33 as int) as i64,
            m20: dot4_s(self.m20 as int, self.m21 as int, self.m22 as int, self.m23 as int, o.m00 as int, o.m10 as int, o.m20 as int, o.m30 as int) as i64,
            m21: dot4_s(self.m20 as int, self.m21 as int, self.m22 as int, self.m23 as int, o.m01 as int, o.m11 as int, o.m21 as int, o.m31 as int) as i64,
            m22: dot4_s(self.m20 as int, self.m21 as int, self.m22 as int, self.m23 as int, o.m02 as int, o.m12 as int, o.m22 as int, o.m32 as int) as i64,
            m23: dot4_s(self.m20 as int, self.m21 as int, self.m22 as int, self.m23 as int, o.m03 as int, o.m13 as int, o.m23 as int, o.m33 as int) as i64,
            m30: dot4_s(self.m30 as int, self.m31 as int, self.m32 as int, self.m33 as int, o.m00 as int, o.m10 as int, o.m20 as int, o.m30 as int) as i64,
            m31: dot4_s(self.m30 as int, self.m31 as int, self.m32 as int, self.m33 as int, o.m01 as int, o.m11 as int, o.m21 as int, o.m31 as int) as i64,
            m32: dot4_s(self.m30 as int, self.m31 as int, self.m32 as int, self.m33 as int, o.m02 as int, o.m12 as int, o.m22 as int, o.m32 as int) as i64,
            m33: dot4_s(self.m30 as int, self.m31 as int, self.m32 as int, self.m33 as int, o.m03 as int, o.m13 as int, o.m23 as int, o.m33 as int) as i64,
        }
    }

    pub fn mul(self, o: FxMat4) -> (r: FxMat4)
        requires
            mat_ok(self),
            mat_ok(o),
        ensures
            r == self.mul_s(o),
            mat_ok(r),
    {
        FxMat4 {
            m00: dot4(self.m00, self.m01, self.m02, self.m03, o.m00, o.m10, o.m20, o.m30),
            m01: dot4(self.m00, self.m01, self.m02, self.m03, o.m01, o.m11, o.m21, o.m31),
            m02: dot4(self.m00, self.m01, self.m02, self.m03, o.m02, o.m12, o.m22, o.m32),
            m03: dot4(self.m00, self.m01, self.m02, self.m03, o.m03, o.m13, o.m23, o.m33),
            m10: dot4(self.m10, self.m11, self.m12, self.m13, o.m00, o.m10, o.m20, o.m30),
            m11: dot4(self.m10, self.m11, self.m12, self.m13, o.m01, o.m11, o.m21, o.m31),
            m12: dot4(self.m10, self.m11, self.m12, self.m13, o.m02, o.m12, o.m22, o.m32),
            m13: dot4(self.m10, self.m11, self.m12, self.m13, o.m03, o.m13, o.m23, o.m33),
            m20: dot4(self.m20, self.m21, self.m22, self.m23, o.m00, o.m10, o.m20, o.m30),
            m21: dot4(self.m20, self.m21, self.m22, self.m23, o.m01, o.m11, o.m21, o.m31),
            m22: dot4(self.m20, self.m21, self.m22, self.m23, o.m02, o.m12, o.m22, o.m32),
            m23: dot4(self.m20, self.m21, self.m22, self.m23, o.m03, o.m13, o.m23, o.m33),
            m30: dot4(self.m30, self.m31, self.m32, self.m33, o.m00, o.m10, o.m20, o.m30),
            m31: dot4(self.m30, self.m31, self.m32, self.m33, o.m01, o.m11, o.m21, o.m31),
            m32: dot4(self.m30, self.m31, self.m32, self.m33, o.m02, o.m12, o.m22, o.m32),
            m33: dot4(self.m30, self.m31, self.m32, self.m33, o.m03, o.m13, o.m23, o.m33),
        }
    }

    /// The product of the matrix with a four-component column vector.
    pub open spec fn mul_vec4_s(self, v: Fx4) -> Fx4 {
        Fx4 {
            x: dot4_s(self.m00 as int, self.m01 as int, self.m02 as int, self.m03 as int, v.x as int, v.y as int, v.z as int, v.w as int) as i64,
            y: dot4_s(self.m10 as int, self.m11 as int, self.m12 as int, self.m13 as int, v.x as int, v.y as int, v.z as int, v.w as int) as i64,
            z: dot4_s(self.m20 as int, self.m21 as int, self.m22 as int, self.m23 as int, v.x as int, v.y as int, v.z as int, v.w as int) as i64,
            w: dot4_s(self.m30 as int, self.m31 as int, self.m32 as int, self.m33 as int, v.x as int, v.y as int, v.z as int, v.w as int) as i64,
        }
    }

    pub fn mul_vec4(self, v: Fx4) -> (r: Fx4)
        requires
            mat_ok(self),
            fx4_ok(v),
        ensures
            r == self.mul_vec4_s(v),
            fx4_ok(r),
    {
        Fx4 {
            x: dot4(self.m00, self.m01, self.m02, self.m03, v.x, v.y, v.z, v.w),
            y: dot4(self.m10, self.m11, self.m12, self.m13, v.x, v.y, v.z, v.w),
            z: dot4(self.m20, self.m21, self.m22, self.m23, v.x, v.y, v.z, v.w),
            w: dot4(self.m30, self.m31, self.m32, self.m33, v.x, v.y, v.z, v.w),
        }
    }
}

} // verus!
