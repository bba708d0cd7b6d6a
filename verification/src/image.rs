//! A decoded image and its texture sampler: nearest and a four-tap
//! neighbor-averaging blend over one- to four-channel byte buffers.

use vstd::prelude::*;
use crate::fx::{fx_ok, fx_add_s, fx_sub_s, fx_mul_s, sat_s, tdiv_s, FP, FP_HALF, fx_add, fx_sub,
    fx_mul, tdiv128, sat128};
use crate::geom::{Fx4, fx4_ok};

verus! {

/// The largest accepted texture side.
pub const MAX_TEX_DIM: usize = 16384;

/// A row-major byte image of `width * height * channel_count` bytes.
#[derive(Clone)]
pub struct Image {
    pub data: Vec<u8>,
    pub width: usize,
    pub height: usize,
    pub channel_count: usize,
}

/// A texel byte as a fixed-point channel value: the byte divided by 255.99,
/// rounded toward zero at the fixed-point scale.
pub open spec fn chan_fx_s(b: int) -> int {
    (b * 6553600) / 25599
}

/// The texel column of a normalized coordinate: the coordinate scaled by the
/// width, truncated with saturation at zero, then wrapped modulo one less
/// than the width.  The wrap at `width - 1` drops the last column from the
/// wrap range; it is kept as the sampler's addressing rule.
pub open spec fn texel_s(u: int, dim: int) -> int {
    if u <= 0 {
        0int % (dim - 1)
    } else {
        ((u * dim) / (FP as int)) % (dim - 1)
    }
}

impl Image {
    pub open spec fn wf(self) -> bool {
        &&& 2 <= self.width <= MAX_TEX_DIM
        &&& 2 <= self.height <= MAX_TEX_DIM
        &&& 1 <= self.channel_count <= 4
        &&& self.data@.len() == self.width * self.height * self.channel_count
    }

    /// A checked constructor: the buffer length must match the dimensions
    /// and the channel count, the channel count must be one to four, and
    /// each side must be at least two, the least the addressing rule admits.
    pub fn new(data: Vec<u8>, width: usize, height: usize, channel_count: usize) -> (r: Image)
        requires
            2 <= width <= MAX_TEX_DIM,
            2 <= height <= MAX_TEX_DIM,
            1 <= channel_count <= 4,
            data@.len() == width * height * channel_count,
        ensures
            r.wf(),
            r == (Image { data, width, height, channel_count }),
    {
        Image { data, width, height, channel_count }
    }

    /// The byte index of the first channel of the addressed texel.
    pub open spec fn texel_base_s(self, u: int, v: int) -> int {
        (texel_s(v, self.height as int) * self.width + texel_s(u, self.width as int))
            * self.channel_count
    }

    /// The decoded texel under nearest addressing: missing channels decode
    /// as zero.
    pub open spec fn get_pixel_s(self, u: int, v: int) -> Fx4 {
        let base = self.texel_base_s(u, v);
        Fx4 {
            x: chan_fx_s(self.data@[base] as int) as i64,
            y: if self.channel_count >= 2 {
                chan_fx_s(self.data@[base + 1] as int) as i64
            } else {
                0
            },
            z: if self.channel_count >= 3 {
                chan_fx_s(self.data@[base + 2] as int) as i64
            } else {
                0
            },
            w: if self.channel_count >= 4 {
                chan_fx_s(self.data@[base + 3] as int) as i64
            } else {
                0
            },
        }
    }

    pub fn get_pixel(&self, u: i64, v: i64) -> (r: Fx4)
        requires
            self.wf(),
            fx_ok(u as int),
            fx_ok(v as int),
        ensures
            r == self.get_pixel_s(u as int, v as int),
            fx4_ok(r),
            0 <= r.x <= FP && 0 <= r.y <= FP && 0 <= r.z <= FP && 0 <= r.w <= FP,
    {
        let tx: usize = texel_coord(u, self.width);
        let ty: usize = texel_coord(v, self.height);
        proof {
            lemma_texel_in_bounds(
                self.width as int,
                self.height as int,
                self.channel_count as int,
                tx as int,
                ty as int,
            );
        }
        let base: usize = (ty * self.width + tx) * self.channel_count;
        let c0: i64 = chan_fx(self.data[base]);
        let c1: i64 = if self.channel_count >= 2 {
            chan_fx(self.data[base + 1])
        } else {
            0
        };
        let c2: i64 = if self.channel_count >= 3 {
            chan_fx(self.data[base + 2])
        } else {
            0
        };
        let c3: i64 = if self.channel_count >= 4 {
            chan_fx(self.data[base + 3])
        } else {
            0
        };
        Fx4 { x: c0, y: c1, z: c2, w: c3 }
    }

    /// One texel step in each normalized direction: the reciprocal of a
    /// dimension at fixed-point scale, rounded toward zero.
    pub open spec fn inv_dim_s(dim: int) -> int {
        (FP as int) / dim
    }

    /// The sampler's blended read: four texels one step away in each
    /// diagonal direction, averaged into side interpolants, blended by the
    /// fractional texel offset, and the two blends averaged.  This
    /// neighbor-averaging rule is the sampler's own; it is not the standard
    /// four-tap bilinear filter, and it is kept exactly as specified here.
    pub open spec fn sample_bilinear_s(self, u: int, v: int) -> Fx4 {
        let iw = Self::inv_dim_s(self.width as int);
        let ih = Self::inv_dim_s(self.height as int);
        let tl = self.get_pixel_s(fx_sub_s(u, iw), fx_sub_s(v, ih));
        let bl = self.get_pixel_s(fx_sub_s(u, iw), fx_add_s(v, ih));
        let br = self.get_pixel_s(fx_add_s(u, iw), fx_add_s(v, ih));
        let tr = self.get_pixel_s(fx_add_s(u, iw), fx_sub_s(v, ih));
        let right = fx4_scale_s(fx4_add_s(br, tr), FP_HALF as int);
        let left = fx4_scale_s(fx4_add_s(bl, tl), FP_HALF as int);
        let top = fx4_scale_s(fx4_add_s(tr, tl), FP_HALF as int);
        let bottom = fx4_scale_s(fx4_add_s(br, bl), FP_HALF as int);
        let sx = fx_mul_s(u, (self.width * FP) as int);
        let sy = fx_mul_s(v, (self.height * FP) as int);
        let xd = fx_sub_s(sx, tdiv_s(sx, FP as int) * (FP as int));
        let yd = fx_sub_s(sy, tdiv_s(sy, FP as int) * (FP as int));
        fx4_scale_s(fx4_add_s(fx4_lerp_s(left, right, xd), fx4_lerp_s(top, bottom, yd)), FP_HALF as int)
    }

    /// Nearest or blended sampling.
    pub open spec fn sample_pixel_s(self, u: int, v: int, bilinear: bool) -> Fx4 {
        if bilinear {
            self.sample_bilinear_s(u, v)
        } else {
            self.get_pixel_s(u, v)
        }
    }

    pub fn sample_pixel(&self, u: i64, v: i64, bilinear: bool) -> (r: Fx4)
        requires
            self.wf(),
            fx_ok(u as int),
            fx_ok(v as int),
        ensures
            r == self.sample_pixel_s(u as int, v as int, bilinear),
            fx4_ok(r),
    {
        if bilinear {
            let iw: i64 = ((FP as u64) / (self.width as u64)) as i64;
            let ih: i64 = ((FP as u64) / (self.height as u64)) as i64;
            assert(iw == Self::inv_dim_s(self.width as int));
            assert(ih == Self::inv_dim_s(self.height as int));
            let tl = self.get_pixel(fx_sub(u, iw), fx_sub(v, ih));
            let bl = self.get_pixel(fx_sub(u, iw), fx_add(v, ih));
            let br = self.get_pixel(fx_add(u, iw), fx_add(v, ih));
            let tr = self.get_pixel(fx_add(u, iw), fx_sub(v, ih));
            let right = fx4_scale(fx4_add(br, tr), FP_HALF);
            let left = fx4_scale(fx4_add(bl, tl), FP_HALF);
            let top = fx4_scale(fx4_add(tr, tl), FP_HALF);
            let bottom = fx4_scale(fx4_add(br, bl), FP_HALF);
            let wfp: i64 = (self.width as i64) * (FP as i64);
            let hfp: i64 = (self.height as i64) * (FP as i64);
            let sx = fx_mul(u, wfp);
            let sy = fx_mul(v, hfp);
            let xw = tdiv128(sx as i128, FP as i128);
            let yw = tdiv128(sy as i128, FP as i128);
            let xd = fx_sub(sx, (xw as i64) * FP);
            let yd = fx_sub(sy, (yw as i64) * FP);
            fx4_scale(fx4_add(fx4_lerp(left, right, xd), fx4_lerp(top, bottom, yd)), FP_HALF)
        } else {
            self.get_pixel(u, v)
        }
    }
}

/// Componentwise saturating sum.
pub open spec fn fx4_add_s(a: Fx4, b: Fx4) -> Fx4 {
    Fx4 {
        x: fx_add_s(a.x as int, b.x as int) as i64,
        y: fx_add_s(a.y as int, b.y as int) as i64,
        z: fx_add_s(a.z as int, b.z as int) as i64,
        w: fx_add_s(a.w as int, b.w as int) as i64,
    }
}

pub fn fx4_add(a: Fx4, b: Fx4) -> (r: Fx4)
    requires
        fx4_ok(a),
        fx4_ok(b),
    ensures
        r == fx4_add_s(a, b),
        fx4_ok(r),
{
    Fx4 { x: fx_add(a.x, b.x), y: fx_add(a.y, b.y), z: fx_add(a.z, b.z), w: fx_add(a.w, b.w) }
}

/// Componentwise fixed-point scaling.
pub open spec fn fx4_scale_s(a: Fx4, s: int) -> Fx4 {
    Fx4 {
        x: fx_mul_s(a.x as int, s) as i64,
        y: fx_mul_s(a.y as int, s) as i64,
        z: fx_mul_s(a.z as int, s) as i64,
        w: fx_mul_s(a.w as int, s) as i64,
    }
}

pub fn fx4_scale(a: Fx4, s: i64) -> (r: Fx4)
    requires
        fx4_ok(a),
        fx_ok(s as int),
    ensures
        r == fx4_scale_s(a, s as int),
        fx4_ok(r),
{
    Fx4 { x: fx_mul(a.x, s), y: fx_mul(a.y, s), z: fx_mul(a.z, s), w: fx_mul(a.w, s) }
}

/// Componentwise linear blend `a + (b - a) * t`.
pub open spec fn fx4_lerp_s(a: Fx4, b: Fx4, t: int) -> Fx4 {
    Fx4 {
        x: fx_add_s(a.x as int, fx_mul_s(fx_sub_s(b.x as int, a.x as int), t)) as i64,
        y: fx_add_s(a.y as int, fx_mul_s(fx_sub_s(b.y as int, a.y as int), t)) as i64,
        z: fx_add_s(a.z as int, fx_mul_s(fx_sub_s(b.z as int, a.z as int), t)) as i64,
        w: fx_add_s(a.w as int, fx_mul_s(fx_sub_s(b.w as int, a.w as int), t)) as i64,
    }
}

pub fn fx4_lerp(a: Fx4, b: Fx4, t: i64) -> (r: Fx4)
    requires
        fx4_ok(a),
        fx4_ok(b),
        fx_ok(t as int),
    ensures
        r == fx4_lerp_s(a, b, t as int),
        fx4_ok(r),
{
    Fx4 {
        x: fx_add(a.x, fx_mul(fx_sub(b.x, a.x), t)),
        y: fx_add(a.y, fx_mul(fx_sub(b.y, a.y), t)),
        z: fx_add(a.z, fx_mul(fx_sub(b.z, a.z), t)),
        w: fx_add(a.w, fx_mul(fx_sub(b.w, a.w), t)),
    }
}

/// The texel coordinate along one axis.
fn texel_coord(u: i64, dim: usize) -> (r: usize)
    requires
        fx_ok(u as int),
        2 <= dim <= MAX_TEX_DIM,
    ensures
        r == texel_s(u as int, dim as int),
        r < dim - 1,
{
    if u <= 0 {
        0
    } else {
        proof {
            assert(u * dim <= 0x40000000000000int) by (nonlinear_arith)
                requires
                    0 < u <= 1099511627776,
                    dim <= 16384,
            ;
        }
        let p: u128 = (u as u128) * (dim as u128);
        let q: u128 = p / (FP as u128);
        let m: u128 = q % ((dim - 1) as u128);
        m as usize
    }
}

/// A channel byte decoded to fixed point.
fn chan_fx(b: u8) -> (r: i64)
    ensures
        r == chan_fx_s(b as int),
        0 <= r <= FP,
{
    ((b as u64 * 6553600) / 25599) as i64
}

/// The last channel byte of the addressed texel stays within the buffer.
proof fn lemma_texel_in_bounds(w: int, h: int, c: int, tx: int, ty: int)
    requires
        2 <= w,
        2 <= h,
        1 <= c <= 4,
        0 <= tx < w - 1,
        0 <= ty < h - 1,
    ensures
        0 <= ty * w + tx,
        0 <= (ty * w + tx) * c,
        (ty * w + tx) * c + c <= w * h * c,
        w <= 16384 && h <= 16384 ==> ty * w + tx <= 268435456 && w * h * c <= 1073741824,
{
    assert(0 <= ty * w + tx && 0 <= (ty * w + tx) * c && (ty * w + tx) * c + c <= w * h * c && (
    w <= 16384 && h <= 16384 ==> ty * w + tx <= 268435456 && w * h * c
        <= 1073741824)) by (nonlinear_arith)
        requires
            2 <= w,
            2 <= h,
            1 <= c <= 4,
            0 <= tx < w - 1,
            0 <= ty < h - 1,
    ;
}

} // verus!
