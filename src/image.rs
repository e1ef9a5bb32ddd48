//! The image a render fills: pixels arrive one at a time, row by row from the
//! top, each row from the left.

use vstd::prelude::*;
use crate::ppm::{Pixel, encode_ppm, ppm_bytes};

verus! {

/// Index of the pixel at `row`, `col` in row-major order.
pub open spec fn index_of(width: nat, row: nat, col: nat) -> nat {
    row * width + col
}

/// Row of the `k`-th pixel in row-major order.
pub open spec fn row_of(width: nat, k: nat) -> nat {
    k / width
}

/// Column of the `k`-th pixel in row-major order.
pub open spec fn col_of(width: nat, k: nat) -> nat {
    k % width
}

/// Row-major order is a bijection between the first `width * height` indices
/// and the positions of a `width` by `height` grid.
pub proof fn lemma_row_major(width: nat, height: nat, k: nat)
    requires
        k < width * height,
    ensures
        width > 0,
        row_of(width, k) < height,
        col_of(width, k) < width,
        index_of(width, row_of(width, k), col_of(width, k)) == k,
{
    assert(width > 0) by (nonlinear_arith)
        requires
            k < width * height,
    ;
    vstd::arithmetic::div_mod::lemma_fundamental_div_mod(k as int, width as int);
    vstd::arithmetic::div_mod::lemma_multiply_divide_lt(k as int, width as int, height as int);
    vstd::arithmetic::div_mod::lemma_mod_bound(k as int, width as int);
    vstd::arithmetic::mul::lemma_mul_is_commutative(width as int, (k / width) as int);
}

/// An image of `width` by `height` pixels, filled in row-major order.
pub struct Image {
    width: usize,
    height: usize,
    pixels: Vec<Pixel>,
}

impl Image {
    pub closed spec fn spec_width(&self) -> nat {
        self.width as nat
    }

    pub closed spec fn spec_height(&self) -> nat {
        self.height as nat
    }

    /// The pixels filled so far, in row-major order.
    pub closed spec fn spec_pixels(&self) -> Seq<Pixel> {
        self.pixels@
    }

    /// The pixel count fits in `usize` and no more pixels are held than it.
    pub closed spec fn wf(&self) -> bool {
        &&& self.width * self.height <= usize::MAX
        &&& self.pixels@.len() <= self.width * self.height
    }

    pub open spec fn spec_complete(&self) -> bool {
        self.spec_pixels().len() == self.spec_width() * self.spec_height()
    }

    /// An empty image; `None` when its pixel count does not fit in `usize`.
    pub fn new(width: usize, height: usize) -> (r: Option<Image>)
        ensures
            r is Some <==> width * height <= usize::MAX,
            r matches Some(img) ==> {
                &&& img.wf()
                &&& img.spec_width() == width
                &&& img.spec_height() == height
                &&& img.spec_pixels() == Seq::<Pixel>::empty()
            },
    {
        match width.checked_mul(height) {
            None => None,
            Some(_) => Some(Image { width, height, pixels: Vec::new() }),
        }
    }

    pub fn width(&self) -> (r: usize)
        ensures
            r == self.spec_width(),
    {
        self.width
    }

    pub fn height(&self) -> (r: usize)
        ensures
            r == self.spec_height(),
    {
        self.height
    }

    /// Whether every pixel has been filled.
    pub fn is_complete(&self) -> (r: bool)
        requires
            self.wf(),
        ensures
            r == self.spec_complete(),
    {
        self.pixels.len() == self.width * self.height
    }

    /// Row and column of the next pixel to fill, or `None` once complete.
    pub fn next_position(&self) -> (r: Option<(usize, usize)>)
        requires
            self.wf(),
        ensures
            r is None <==> self.spec_complete(),
            r matches Some((row, col)) ==> {
                &&& row == row_of(self.spec_width(), self.spec_pixels().len())
                &&& col == col_of(self.spec_width(), self.spec_pixels().len())
                &&& row < self.spec_height()
                &&& col < self.spec_width()
            },
    {
        let k = self.pixels.len();
        if k == self.width * self.height {
            None
        } else {
            proof {
                lemma_row_major(self.width as nat, self.height as nat, k as nat);
            }
            Some((k / self.width, k % self.width))
        }
    }

    /// Fills the next pixel.
    pub fn push(&mut self, p: Pixel)
        requires
            old(self).wf(),
            !old(self).spec_complete(),
        ensures
            final(self).wf(),
            final(self).spec_width() == old(self).spec_width(),
            final(self).spec_height() == old(self).spec_height(),
            final(self).spec_pixels() == old(self).spec_pixels().push(p),
    {
        self.pixels.push(p);
    }

    /// The pixel at `row`, `col`, or `None` where it is outside the image or
    /// not filled yet.
    pub fn pixel(&self, row: usize, col: usize) -> (r: Option<Pixel>)
        requires
            self.wf(),
        ensures
            r is Some <==> row < self.spec_height() && col < self.spec_width() && index_of(
                self.spec_width(),
                row as nat,
                col as nat,
            ) < self.spec_pixels().len(),
            r matches Some(p) ==> p == self.spec_pixels()[index_of(
                self.spec_width(),
                row as nat,
                col as nat,
            ) as int],
    {
        if row >= self.height || col >= self.width {
            return None;
        }
        proof {
            assert(row * self.width + col < self.width * self.height) by (nonlinear_arith)
                requires
                    row < self.height,
                    col < self.width,
            ;
        }
        let k = row * self.width + col;
        if k < self.pixels.len() {
            Some(self.pixels[k])
        } else {
            None
        }
    }

    /// The image in the plain-text pixel format, once complete.
    pub fn to_ppm(&self) -> (r: Option<Vec<u8>>)
        requires
            self.wf(),
        ensures
            r is Some <==> self.spec_complete(),
            r matches Some(v) ==> v@ == ppm_bytes(
                self.spec_width(),
                self.spec_height(),
                self.spec_pixels(),
            ),
    {
        encode_ppm(self.width, self.height, &self.pixels)
    }
}

} // verus!
