//! A two-dimensional pixel buffer: the render target for colors, and the
//! pipeline's depth store.

use vstd::prelude::*;

verus! {

/// The largest accepted render-target side, which keeps all screen-space
/// fixed-point coordinates within exact integer range.
pub const MAX_DIM: usize = 16384;

/// A row-major buffer of one 32-bit cell per pixel.
pub struct FrameBuffer {
    pub data: Vec<u32>,
    pub width: usize,
    pub height: usize,
}

impl FrameBuffer {
    pub open spec fn wf(self) -> bool {
        &&& self.data@.len() == self.width * self.height
        &&& self.width <= MAX_DIM
        &&& self.height <= MAX_DIM
    }

    /// The cell at column `x` of row `y`.
    pub open spec fn at_s(self, x: int, y: int) -> u32 {
        self.data@[y * self.width + x]
    }

    /// A fresh buffer holds zero in every cell: a new depth target starts at
    /// the near plane, not at the far sentinel, and must be cleared before
    /// use as a depth store.
    pub fn new(width: usize, height: usize) -> (r: FrameBuffer)
        requires
            width <= MAX_DIM,
            height <= MAX_DIM,
        ensures
            r.wf(),
            r.width == width,
            r.height == height,
            forall|x: int, y: int|
                0 <= x < width && 0 <= y < height ==> r.at_s(x, y) == 0u32,
    {
        proof {
            assert(width * height <= MAX_DIM * MAX_DIM) by (nonlinear_arith)
                requires
                    width <= MAX_DIM,
                    height <= MAX_DIM,
            ;
        }
        let n: usize = width * height;
        let mut data: Vec<u32> = Vec::new();
        let mut i: usize = 0;
        while i < n
            invariant
                i <= n,
                data@.len() == i,
                forall|k: int| 0 <= k < i ==> data@[k] == 0u32,
            decreases n - i,
        {
            data.push(0);
            i = i + 1;
        }
        let r = FrameBuffer { data, width, height };
        proof {
            assert forall|x: int, y: int|
                0 <= x < width && 0 <= y < height implies r.at_s(x, y) == 0u32 by {
                lemma_index_in_range(width as int, height as int, x, y);
            }
        }
        r
    }

    /// Every cell becomes `value`.
    pub fn clear(&mut self, value: u32)
        requires
            old(self).wf(),
        ensures
            final(self).wf(),
            final(self).width == old(self).width,
            final(self).height == old(self).height,
            forall|x: int, y: int|
                0 <= x < old(self).width && 0 <= y < old(self).height ==> final(self).at_s(x, y)
                    == value,
    {
        let n: usize = self.data.len();
        let mut i: usize = 0;
        while i < n
            invariant
                i <= n,
                self.data@.len() == n,
                self.width == old(self).width,
                self.height == old(self).height,
                n == self.width * self.height,
                self.width <= MAX_DIM,
                self.height <= MAX_DIM,
                forall|k: int| 0 <= k < i ==> self.data@[k] == value,
            decreases n - i,
        {
            self.data.set(i, value);
            i = i + 1;
        }
        proof {
            assert forall|x: int, y: int|
                0 <= x < old(self).width && 0 <= y < old(self).height implies self.at_s(x, y)
                == value by {
                lemma_index_in_range(self.width as int, self.height as int, x, y);
            }
        }
    }

    pub fn set_pixel(&mut self, x: usize, y: usize, value: u32)
        requires
            old(self).wf(),
            x < old(self).width,
            y < old(self).height,
        ensures
            final(self).wf(),
            final(self).width == old(self).width,
            final(self).height == old(self).height,
            final(self).data@ == old(self).data@.update(
                y * old(self).width + x,
                value,
            ),
            final(self).at_s(x as int, y as int) == value,
            forall|i: int, j: int|
                0 <= i < old(self).width && 0 <= j < old(self).height && !(i == x && j == y)
                    ==> final(self).at_s(i, j) == old(self).at_s(i, j),
    {
        proof {
            lemma_index_in_range(self.width as int, self.height as int, x as int, y as int);
        }
        let idx: usize = y * self.width + x;
        self.data.set(idx, value);
        proof {
            assert forall|i: int, j: int|
                0 <= i < old(self).width && 0 <= j < old(self).height && !(i == x && j == y)
                    implies self.at_s(i, j) == old(self).at_s(i, j) by {
                lemma_index_in_range(self.width as int, self.height as int, i, j);
                lemma_index_injective(self.width as int, i, j, x as int, y as int);
            }
        }
    }

    pub fn get_pixel(&mut self, x: usize, y: usize) -> (r: u32)
        requires
            old(self).wf(),
            x < old(self).width,
            y < old(self).height,
        ensures
            *final(self) == *old(self),
            r == old(self).at_s(x as int, y as int),
    {
        proof {
            lemma_index_in_range(self.width as int, self.height as int, x as int, y as int);
        }
        let idx: usize = y * self.width + x;
        self.data[idx]
    }

    pub fn iter(&self) -> core::slice::Iter<'_, u32> {
        self.data.iter()
    }

    pub fn width(&self) -> (r: usize)
        ensures
            r == self.width,
    {
        self.width
    }

    pub fn height(&self) -> (r: usize)
        ensures
            r == self.height,
    {
        self.height
    }
}

/// A row-major index stays within the buffer.
pub proof fn lemma_index_in_range(w: int, h: int, x: int, y: int)
    requires
        0 <= x < w <= MAX_DIM,
        0 <= y < h <= MAX_DIM,
    ensures
        0 <= y * w + x < w * h,
        w * h <= 268435456,
{
    assert(y * w + x < w * h && w * h <= 268435456) by (nonlinear_arith)
        requires
            0 <= x < w <= 16384,
            0 <= y < h <= 16384,
    ;
    assert(y * w >= 0) by (nonlinear_arith)
        requires
            y >= 0,
            w > 0,
    ;
}

/// Distinct pixel coordinates use distinct row-major indices.
pub proof fn lemma_index_injective(w: int, x1: int, y1: int, x2: int, y2: int)
    requires
        0 <= x1 < w,
        0 <= x2 < w,
        0 <= y1,
        0 <= y2,
        !(x1 == x2 && y1 == y2),
    ensures
        y1 * w + x1 != y2 * w + x2,
{
    assert(y1 * w + x1 != y2 * w + x2) by (nonlinear_arith)
        requires
            0 <= x1 < w,
            0 <= x2 < w,
            0 <= y1,
            0 <= y2,
            !(x1 == x2 && y1 == y2),
    ;
}

} // verus!
