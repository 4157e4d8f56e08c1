//! The pixel grid of a rendered image and the order in which its pixels are
//! emitted.
//!
//! Pixel `(i, j)` has column `i` counted from the left and row `j` counted
//! from the bottom, since the viewport's `v` coordinate grows upward. Output
//! runs over rows from `height - 1` down to `0`, and within a row over
//! columns from `0` up, so the first pixel emitted is the top-left one.
use vstd::prelude::*;

verus! {

/// The column of the `k`-th pixel emitted.
pub open spec fn scan_column(width: nat, k: nat) -> nat
    recommends
        width > 0,
{
    k % width
}

/// The row of the `k`-th pixel emitted.
pub open spec fn scan_row(width: nat, height: nat, k: nat) -> int
    recommends
        width > 0,
{
    height - 1 - (k / width) as int
}

/// The place of pixel `(i, j)` in the order of emission.
pub open spec fn emission_index(width: nat, height: nat, i: nat, j: nat) -> int {
    (height - 1 - j) * width + i
}

/// A grid of at least two columns and two rows: sample positions divide by
/// `width - 1` and `height - 1`.
#[derive(Clone, Copy, Debug, PartialEq, Eq, Structural)]
pub struct Raster {
    width: u32,
    height: u32,
}

impl Raster {
    pub closed spec fn wf(self) -> bool {
        self.width >= 2 && self.height >= 2
    }

    pub closed spec fn spec_width(self) -> nat {
        self.width as nat
    }

    pub closed spec fn spec_height(self) -> nat {
        self.height as nat
    }

    /// A grid of `width` by `height` pixels; `None` when either is under two.
    pub fn new(width: u32, height: u32) -> (r: Option<Raster>)
        ensures
            r is Some <==> width >= 2 && height >= 2,
            r matches Some(g) ==> g.wf() && g.spec_width() == width && g.spec_height() == height,
    {
        if width >= 2 && height >= 2 {
            Some(Raster { width, height })
        } else {
            None
        }
    }

    pub fn width(&self) -> (r: u32)
        ensures
            r == self.spec_width(),
    {
        self.width
    }

    pub fn height(&self) -> (r: u32)
        ensures
            r == self.spec_height(),
    {
        self.height
    }

    /// The number of pixels.
    pub fn pixel_count(&self) -> (r: u64)
        ensures
            r == self.spec_width() * self.spec_height(),
    {
        assert(self.width as int * self.height as int <= 0xffff_ffff_ffff_ffff) by (nonlinear_arith)
            requires
                self.width <= 0xffff_ffff,
                self.height <= 0xffff_ffff,
        ;
        self.width as u64 * self.height as u64
    }

    /// The column and row of the `k`-th pixel emitted.
    pub fn pixel_at(&self, k: u64) -> (r: (u32, u32))
        requires
            self.wf(),
            k < self.spec_width() * self.spec_height(),
        ensures
            r.0 == scan_column(self.spec_width(), k as nat),
            r.1 == scan_row(self.spec_width(), self.spec_height(), k as nat),
    {
        let w = self.width as u64;
        assert(k / w < self.height) by (nonlinear_arith)
            requires
                k < w * self.height,
                w > 0,
        ;
        let row_from_top = k / w;
        let i = (k % w) as u32;
        let j = self.height - 1 - row_from_top as u32;
        (i, j)
    }

    /// The place of pixel `(i, j)` in the order of emission.
    pub fn emitted_at(&self, i: u32, j: u32) -> (r: u64)
        requires
            self.wf(),
            i < self.spec_width(),
            j < self.spec_height(),
        ensures
            r == emission_index(self.spec_width(), self.spec_height(), i as nat, j as nat),
    {
        let w = self.width as u64;
        let rows_above = (self.height - 1 - j) as u64;
        assert(rows_above * w + i < w * self.height && w * self.height <= 0xffff_ffff_ffff_ffff)
            by (nonlinear_arith)
            requires
                rows_above < self.height,
                i < w,
                w <= 0xffff_ffff,
                self.height <= 0xffff_ffff,
        ;
        rows_above * w + i as u64
    }
}

/// Emission visits every pixel of the grid exactly once: the `k`-th pixel
/// emitted lies in the grid and is emitted at place `k`, and each pixel of
/// the grid is the one emitted at its place.
pub proof fn lemma_scan_order_is_bijective(width: nat, height: nat, k: nat, i: nat, j: nat)
    requires
        width > 0,
        height > 0,
    ensures
        k < width * height ==> {
            &&& scan_column(width, k) < width
            &&& 0 <= scan_row(width, height, k) < height
            &&& emission_index(width, height, scan_column(width, k), scan_row(width, height, k) as nat)
                == k
        },
        i < width && j < height ==> {
            &&& 0 <= emission_index(width, height, i, j) < width * height
            &&& scan_column(width, emission_index(width, height, i, j) as nat) == i
            &&& scan_row(width, height, emission_index(width, height, i, j) as nat) == j
        },
{
    if k < width * height {
        assert(k / width < height && k == (k / width) * width + k % width) by (nonlinear_arith)
            requires
                k < width * height,
                width > 0,
        ;
    }
    if i < width && j < height {
        let q = (height - 1 - j) as nat;
        assert(0 <= q * width + i < width * height) by (nonlinear_arith)
            requires
                q < height,
                i < width,
        ;
        vstd::arithmetic::div_mod::lemma_fundamental_div_mod_converse(
            (q * width + i) as int,
            width as int,
            q as int,
            i as int,
        );
    }
}

} // verus!
