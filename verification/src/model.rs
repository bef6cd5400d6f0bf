//! The mathematical model of the filter: its state as plain sequences and
//! integers, the geometry of the image and of the window, and the relations
//! that the operations establish.

use vstd::prelude::*;
use crate::kernel_size::half_of;
use crate::kernel_size::valid_kernel_size;

verus! {

/// The number of entries of the table indexed by intensity difference.
pub const INTENSITY_LUT_LEN: usize = 256;

/// The number of entries of that table which a rebuild computes; the last
/// entry keeps the value it had.
pub const INTENSITY_LUT_BUILT: usize = 255;

/// The number of entries of the table indexed by the position in the window.
pub const SPATIAL_LUT_LEN: usize = 255;

/// One cell of a window as the averaging function sees it: the weight for the
/// cell's position, the weight for the cell's intensity difference to the
/// central pixel, and the cell's intensity.
#[derive(Debug, PartialEq)]
pub struct Tap<W> {
    pub spatial: W,
    pub intensity: W,
    pub pixel: u8,
}

/// The state of a filter.
pub struct FilterModel<W> {
    pub kernel_size: int,
    pub half_kernel_size: int,
    pub intensity_lut: Seq<W>,
    pub spatial_lut: Seq<W>,
    pub image_width: int,
    pub image_height: int,
    pub input_data: Seq<u8>,
    pub output_data: Seq<u8>,
}

/// The absolute difference of two intensities.
pub open spec fn abs_difference(a: u8, b: u8) -> int {
    if a >= b {
        a - b
    } else {
        b - a
    }
}

/// The number of entries at the front of the spatial table that a rebuild
/// computes for a window of radius `half`: one for each pair of offsets in
/// `[-half, half)`, as far as the table reaches.
pub open spec fn filled_entries(half: int) -> int {
    if (2 * half) * (2 * half) > SPATIAL_LUT_LEN as int {
        SPATIAL_LUT_LEN as int
    } else {
        (2 * half) * (2 * half)
    }
}

/// The row offset that entry `k` of the spatial table stands for.
pub open spec fn offset_row(half: int, k: int) -> int {
    k / (2 * half) - half
}

/// The column offset that entry `k` of the spatial table stands for.
pub open spec fn offset_column(half: int, k: int) -> int {
    k % (2 * half) - half
}

/// `after` is `before` rebuilt by `weight` for `sigma`: entry `d` below
/// `INTENSITY_LUT_BUILT` is a result of `weight(sigma, d)`, the last entry is
/// kept.
pub open spec fn intensity_lut_built<W, F: Fn(u8, u8) -> W>(
    before: Seq<W>,
    after: Seq<W>,
    sigma: u8,
    weight: F,
) -> bool {
    &&& after.len() == before.len()
    &&& forall|d: int|
        0 <= d < after.len() ==> if d < INTENSITY_LUT_BUILT {
            call_ensures(weight, (sigma, d as u8), #[trigger] after[d])
        } else {
            after[d] == before[d]
        }
}

/// `after` is `before` rebuilt by `weight` for `sigma` and a window of radius
/// `half`: entry `k` of the filled prefix is a result of `weight` on `sigma`
/// and the offsets that `k` stands for, every later entry is kept.
pub open spec fn spatial_lut_built<W, F: Fn(u8, i8, i8) -> W>(
    before: Seq<W>,
    after: Seq<W>,
    half: int,
    sigma: u8,
    weight: F,
) -> bool {
    &&& after.len() == before.len()
    &&& forall|k: int|
        0 <= k < after.len() ==> if k < filled_entries(half) {
            call_ensures(
                weight,
                (sigma, offset_row(half, k) as i8, offset_column(half, k) as i8),
                #[trigger] after[k],
            )
        } else {
            after[k] == before[k]
        }
}

/// `value` is a result of `average` on a vector that holds `taps`.
pub open spec fn averages_to<W, F: Fn(Vec<Tap<W>>) -> u8>(
    average: F,
    taps: Seq<Tap<W>>,
    value: u8,
) -> bool {
    exists|v: Vec<Tap<W>>| v@ == taps && #[trigger] call_ensures(average, (v,), value)
}

/// `average` gives one value for one window, whatever vector holds it.
pub open spec fn deterministic<W, F: Fn(Vec<Tap<W>>) -> u8>(average: F) -> bool {
    forall|u: Vec<Tap<W>>, v: Vec<Tap<W>>, a: u8, b: u8|
        u@ == v@ && #[trigger] call_ensures(average, (u,), a) && #[trigger] call_ensures(
            average,
            (v,),
            b,
        ) ==> a == b
}

impl<W> FilterModel<W> {
    /// The invariant of a filter.
    pub open spec fn wf(self) -> bool {
        &&& valid_kernel_size(self.kernel_size)
        &&& self.half_kernel_size == half_of(self.kernel_size)
        &&& self.intensity_lut.len() == INTENSITY_LUT_LEN
        &&& self.spatial_lut.len() == SPATIAL_LUT_LEN
        &&& 0 <= self.image_width
        &&& 0 <= self.image_height
        &&& self.image_width * self.image_height <= u32::MAX
        &&& self.input_data.len() == self.image_width * self.image_height
        &&& self.output_data.len() == self.image_width * self.image_height
    }

    /// The row of the pixel at linear index `p`.
    pub open spec fn row_of(self, p: int) -> int {
        p / self.image_width
    }

    /// The column of the pixel at linear index `p`.
    pub open spec fn column_of(self, p: int) -> int {
        p % self.image_width
    }

    /// Whether the pixel at `p` is at least the window's radius away from
    /// every edge of the image. Only such pixels are filtered.
    pub open spec fn interior(self, p: int) -> bool {
        &&& 0 <= p < self.input_data.len()
        &&& self.half_kernel_size <= self.row_of(p) < self.image_height - self.half_kernel_size
        &&& self.half_kernel_size <= self.column_of(p) < self.image_width
            - self.half_kernel_size
    }

    /// The linear index of the top-left cell of the window around `p`.
    pub open spec fn window_anchor(self, p: int) -> int {
        p - self.half_kernel_size * self.image_width - self.half_kernel_size
    }

    /// The linear index of cell `k` of the window anchored at `start`, the
    /// cells counted row by row.
    pub open spec fn window_cell(self, start: int, k: int) -> int {
        start + (k / self.kernel_size) * self.image_width + k % self.kernel_size
    }

    /// Whether every cell of the window anchored at `start` is in the buffer.
    pub open spec fn window_in_image(self, start: int) -> bool {
        0 <= start && start + (self.kernel_size - 1) * self.image_width + (self.kernel_size - 1)
            < self.input_data.len()
    }

    /// Whether the spatial table has an entry for every cell of the window.
    pub open spec fn window_in_table(self) -> bool {
        self.kernel_size * self.kernel_size <= self.spatial_lut.len()
    }

    /// Whether the image has a pixel that is at least the window's radius
    /// away from every edge.
    pub open spec fn has_interior(self) -> bool {
        2 * self.half_kernel_size < self.image_width && 2 * self.half_kernel_size
            < self.image_height
    }

    /// Whether a pass of the filter is defined: it has no window to gather,
    /// or the table of weights by position has an entry for each of its
    /// cells.
    pub open spec fn runnable(self) -> bool {
        self.window_in_table() || !self.has_interior()
    }

    /// Cell `k` of the window anchored at `start`, for a central pixel of
    /// intensity `central`.
    pub open spec fn tap(self, start: int, central: u8, k: int) -> Tap<W> {
        let pixel = self.input_data[self.window_cell(start, k)];
        Tap {
            spatial: self.spatial_lut[k],
            intensity: self.intensity_lut[abs_difference(pixel, central)],
            pixel,
        }
    }

    /// The cells of the window anchored at `start`, row by row.
    pub open spec fn window_taps(self, start: int, central: u8) -> Seq<Tap<W>> {
        Seq::new((self.kernel_size * self.kernel_size) as nat, |k: int| self.tap(start, central, k))
    }

    /// The window of the interior pixel at `p`.
    pub open spec fn window_of(self, p: int) -> Seq<Tap<W>> {
        self.window_taps(self.window_anchor(p), self.input_data[p])
    }

    /// `taps` is the window of the interior pixel at `p`.
    pub open spec fn is_window_of(self, p: int, taps: Seq<Tap<W>>) -> bool {
        self.interior(p) && taps == self.window_of(p)
    }

    /// This state with another output buffer.
    pub open spec fn with_output(self, output_data: Seq<u8>) -> Self {
        FilterModel { output_data, ..self }
    }

    /// `output` is the output buffer in the middle of a pass over this
    /// state, row by row: at the interior pixels above row `row`, and at
    /// those of row `row` left of column `column`, it holds a result of
    /// `average` on the pixel's window; everywhere else it holds what the
    /// output buffer held before the pass.
    pub open spec fn run_progress<F: Fn(Vec<Tap<W>>) -> u8>(
        self,
        output: Seq<u8>,
        row: int,
        column: int,
        average: F,
    ) -> bool {
        forall|p: int|
            0 <= p < self.output_data.len() ==> if self.interior(p) && (self.row_of(p) < row || (
            self.row_of(p) == row && self.column_of(p) < column)) {
                averages_to(average, self.window_of(p), #[trigger] output[p])
            } else {
                output[p] == self.output_data[p]
            }
    }

    /// `after` is this state after one pass of the filter with `average`:
    /// the output at every interior pixel is a result of `average` on that
    /// pixel's window, the output at every other pixel is what it was, and
    /// nothing else has changed.
    pub open spec fn run_outcome<F: Fn(Vec<Tap<W>>) -> u8>(self, after: Self, average: F) -> bool {
        &&& after == self.with_output(after.output_data)
        &&& after.output_data.len() == self.output_data.len()
        &&& forall|p: int|
            0 <= p < self.output_data.len() ==> if self.interior(p) {
                averages_to(average, self.window_of(p), #[trigger] after.output_data[p])
            } else {
                after.output_data[p] == self.output_data[p]
            }
    }

    /// The pixel in row `row` and column `column`, both at least the
    /// window's radius away from the edges, is interior: its linear index,
    /// the anchor of its window and the whole window lie in the buffer.
    pub proof fn lemma_interior_pixel(self, row: int, column: int)
        requires
            self.wf(),
            self.half_kernel_size <= row < self.image_height - self.half_kernel_size,
            self.half_kernel_size <= column < self.image_width - self.half_kernel_size,
        ensures
            0 <= row * self.image_width + column < self.input_data.len(),
            self.row_of(row * self.image_width + column) == row,
            self.column_of(row * self.image_width + column) == column,
            self.interior(row * self.image_width + column),
            self.half_kernel_size * self.image_width + self.half_kernel_size <= row
                * self.image_width + column,
            self.window_in_image(self.window_anchor(row * self.image_width + column)),
    {
        let w = self.image_width;
        let h = self.half_kernel_size;
        let p = row * w + column;
        assert(self.kernel_size - 1 == 2 * h);
        assert(0 <= row * w && (row + h + 1) * w <= self.image_height * w && h * w <= row * w
            && (row + h) * w == row * w + h * w && (row + h + 1) * w == (row + h) * w + w
            && (2 * h) * w == h * w + h * w) by (nonlinear_arith)
            requires
                0 <= h <= row,
                row + h + 1 <= self.image_height,
                0 < w,
        ;
        vstd::arithmetic::div_mod::lemma_fundamental_div_mod_converse(p, w, row, column);
    }
}

} // verus!
