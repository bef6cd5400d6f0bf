//! The filter: its buffers, its tables, and the operations on them.

use vstd::prelude::*;
use crate::kernel_size::half_of;
use crate::kernel_size::MAX_KERNEL_SIZE;
use crate::kernel_size::MIN_KERNEL_SIZE;
use crate::kernel_size::mapped_kernel_size;
use crate::kernel_size::valid_kernel_size;
use crate::model::averages_to;
use crate::model::filled_entries;
use crate::model::intensity_lut_built;
use crate::model::offset_column;
use crate::model::offset_row;
use crate::model::spatial_lut_built;
use crate::model::FilterModel;
use crate::model::Tap;
use crate::model::INTENSITY_LUT_BUILT;
use crate::model::INTENSITY_LUT_LEN;
use crate::model::SPATIAL_LUT_LEN;

verus! {

/// A bilateral filter over one image of fixed size, with weights of type `W`.
pub struct BilateralFilter<W> {
    kernel_size: u8,
    half_kernel_size: u8,
    intensity_lut: Vec<W>,
    spatial_lut: Vec<W>,
    image_width: u32,
    image_height: u32,
    input_data: Vec<u8>,
    output_data: Vec<u8>,
}

impl<W> View for BilateralFilter<W> {
    type V = FilterModel<W>;

    closed spec fn view(&self) -> FilterModel<W> {
        FilterModel {
            kernel_size: self.kernel_size as int,
            half_kernel_size: self.half_kernel_size as int,
            intensity_lut: self.intensity_lut@,
            spatial_lut: self.spatial_lut@,
            image_width: self.image_width as int,
            image_height: self.image_height as int,
            input_data: self.input_data@,
            output_data: self.output_data@,
        }
    }
}

/// A vector that holds `value` `count` times.
fn repeated<T: Copy>(value: T, count: usize) -> (v: Vec<T>)
    ensures
        v@ == Seq::new(count as nat, |i: int| value),
{
    let mut v: Vec<T> = Vec::new();
    let mut n: usize = 0;
    while n < count
        invariant
            n <= count,
            v@ == Seq::new(n as nat, |i: int| value),
        decreases count - n,
    {
        v.push(value);
        n += 1;
        assert(v@ =~= Seq::new(n as nat, |i: int| value));
    }
    v
}

impl<W: Copy> BilateralFilter<W> {
    /// The invariant of the filter, stated on its model.
    pub open spec fn wf(&self) -> bool {
        self@.wf()
    }

    /// A filter for images of `image_width` by `image_height` pixels: both
    /// buffers hold zeros, the window has side three and radius one, and both
    /// tables hold `zero` throughout.
    pub fn new(image_width: u32, image_height: u32, zero: W) -> (filter: Self)
        requires
            image_width * image_height <= u32::MAX,
        ensures
            filter.wf(),
            filter@ == (FilterModel {
                kernel_size: 3,
                half_kernel_size: 1,
                intensity_lut: Seq::new(INTENSITY_LUT_LEN as nat, |i: int| zero),
                spatial_lut: Seq::new(SPATIAL_LUT_LEN as nat, |i: int| zero),
                image_width: image_width as int,
                image_height: image_height as int,
                input_data: Seq::new((image_width * image_height) as nat, |i: int| 0u8),
                output_data: Seq::new((image_width * image_height) as nat, |i: int| 0u8),
            }),
    {
        let pixels: u64 = (image_width as u64) * (image_height as u64);
        let input_data: Vec<u8> = repeated(0u8, pixels as usize);
        let output_data: Vec<u8> = repeated(0u8, pixels as usize);
        BilateralFilter {
            kernel_size: 3,
            half_kernel_size: 1,
            intensity_lut: repeated(zero, INTENSITY_LUT_LEN),
            spatial_lut: repeated(zero, SPATIAL_LUT_LEN),
            image_width,
            image_height,
            input_data,
            output_data,
        }
    }

    /// The side of the window.
    pub fn kernel_size(&self) -> (size: u8)
        ensures
            size == self@.kernel_size,
    {
        self.kernel_size
    }

    /// The radius of the window.
    pub fn half_kernel_size(&self) -> (half: u8)
        ensures
            half == self@.half_kernel_size,
    {
        self.half_kernel_size
    }

    /// The width of the image in pixels.
    pub fn image_width(&self) -> (width: u32)
        ensures
            width == self@.image_width,
    {
        self.image_width
    }

    /// The height of the image in pixels.
    pub fn image_height(&self) -> (height: u32)
        ensures
            height == self@.image_height,
    {
        self.image_height
    }

    /// The table of weights by intensity difference.
    pub fn intensity_lut(&self) -> (lut: &Vec<W>)
        ensures
            lut@ == self@.intensity_lut,
    {
        &self.intensity_lut
    }

    /// The table of weights by position in the window.
    pub fn spatial_lut(&self) -> (lut: &Vec<W>)
        ensures
            lut@ == self@.spatial_lut,
    {
        &self.spatial_lut
    }

    /// The input buffer, row by row.
    pub fn input_data(&self) -> (data: &Vec<u8>)
        ensures
            data@ == self@.input_data,
    {
        &self.input_data
    }

    /// The output buffer, row by row.
    pub fn output_data(&self) -> (data: &Vec<u8>)
        ensures
            data@ == self@.output_data,
    {
        &self.output_data
    }

    /// Replaces the input buffer by `data` where `data` has one byte for each
    /// pixel of the image, and says whether it did.
    pub fn set_input_data(&mut self, data: Vec<u8>) -> (replaced: bool)
        requires
            old(self).wf(),
        ensures
            final(self).wf(),
            replaced == (data@.len() == old(self)@.input_data.len()),
            replaced ==> final(self)@ == (FilterModel { input_data: data@, ..old(self)@ }),
            !replaced ==> final(self)@ == old(self)@,
    {
        if data.len() == self.input_data.len() {
            self.input_data = data;
            true
        } else {
            false
        }
    }

    /// The window side for a spatial spread: `floor(1.95 * spatial)`, lowered
    /// by one where that is even, and never below three.
    pub fn calculate_kernel_size(&self, spatial: u8) -> (size: u8)
        ensures
            size == mapped_kernel_size(spatial as int),
            valid_kernel_size(size as int),
    {
        let scaled: u32 = 195 * (spatial as u32) / 100;
        let capped: u32 = if scaled > MAX_KERNEL_SIZE as u32 {
            MAX_KERNEL_SIZE as u32
        } else {
            scaled
        };
        let odd: u32 = if capped % 2 == 0 && capped > 0 {
            capped - 1
        } else {
            capped
        };
        if odd < MIN_KERNEL_SIZE as u32 {
            MIN_KERNEL_SIZE
        } else {
            odd as u8
        }
    }

    /// Sets the side of the window, and its radius with it.
    pub fn set_kernel_size(&mut self, value: u8)
        requires
            old(self).wf(),
            valid_kernel_size(value as int),
        ensures
            final(self).wf(),
            final(self)@ == (FilterModel {
                kernel_size: value as int,
                half_kernel_size: half_of(value as int),
                ..old(self)@
            }),
    {
        self.kernel_size = value;
        self.half_kernel_size = value / 2;
    }

    /// Whether the table of weights by position has an entry for every cell
    /// of the window, as `run` needs it.
    pub fn window_fits_table(&self) -> (fits: bool)
        requires
            self.wf(),
        ensures
            fits == self@.window_in_table(),
    {
        let side: usize = self.kernel_size as usize;
        assert(side * side <= 255 * 255) by (nonlinear_arith)
            requires
                0 <= side <= 255,
        ;
        side * side <= self.spatial_lut.len()
    }

    /// Whether the image has a pixel that is at least the window's radius
    /// away from every edge. Where it has none, `run` changes nothing.
    pub fn has_interior(&self) -> (has: bool)
        ensures
            has == self@.has_interior(),
    {
        let reach: u32 = 2 * (self.half_kernel_size as u32);
        reach < self.image_width && reach < self.image_height
    }

    /// Whether every cell of the window anchored at `start_position` lies in
    /// the input buffer, as `kernel` needs it.
    pub fn window_fits_image(&self, start_position: u32) -> (fits: bool)
        requires
            self.wf(),
        ensures
            fits == self@.window_in_image(start_position as int),
    {
        let reach: u64 = (self.kernel_size as u64) - 1;
        let width: u64 = self.image_width as u64;
        assert(0 <= reach * width <= 254 * 0xffff_ffff) by (nonlinear_arith)
            requires
                0 <= reach <= 254,
                0 <= width <= 0xffff_ffff,
        ;
        (start_position as u64) + reach * width + reach < (self.input_data.len() as u64)
    }

    /// Rebuilds the table of weights by intensity difference: entry `d`
    /// becomes `weight(sigma, d)` for every `d` below `INTENSITY_LUT_BUILT`;
    /// the last entry keeps its value.
    pub fn calculate_intensity_lut<F: Fn(u8, u8) -> W>(&mut self, sigma: u8, weight: &F)
        requires
            old(self).wf(),
            forall|d: u8| d < INTENSITY_LUT_BUILT ==> call_requires(*weight, (sigma, d)),
        ensures
            final(self).wf(),
            final(self)@ == (FilterModel {
                intensity_lut: final(self)@.intensity_lut,
                ..old(self)@
            }),
            intensity_lut_built(
                old(self)@.intensity_lut,
                final(self)@.intensity_lut,
                sigma,
                *weight,
            ),
    {
        let mut d: u8 = 0;
        while (d as usize) < INTENSITY_LUT_BUILT
            invariant
                self.wf(),
                d <= INTENSITY_LUT_BUILT,
                forall|e: u8| e < INTENSITY_LUT_BUILT ==> call_requires(*weight, (sigma, e)),
                self@ == (FilterModel { intensity_lut: self@.intensity_lut, ..old(self)@ }),
                forall|e: int|
                    0 <= e < INTENSITY_LUT_LEN ==> if e < d {
                        call_ensures(*weight, (sigma, e as u8), #[trigger] self@.intensity_lut[e])
                    } else {
                        self@.intensity_lut[e] == old(self)@.intensity_lut[e]
                    },
            decreases INTENSITY_LUT_BUILT - d,
        {
            let w: W = weight(sigma, d);
            self.intensity_lut[d as usize] = w;
            d += 1;
        }
    }

    /// Rebuilds the front of the table of weights by position, for the
    /// current radius `h` of the window: entry `k` becomes `weight(sigma, i,
    /// j)` where `(i, j)` is the `k`-th pair of offsets in `[-h, h)`, the
    /// pairs counted row by row. Entries behind the last pair, or behind the
    /// end of the table, keep their values.
    pub fn calculate_gauss_spatial_lut<F: Fn(u8, i8, i8) -> W>(&mut self, sigma: u8, weight: &F)
        requires
            old(self).wf(),
            forall|i: i8, j: i8|
                -old(self)@.half_kernel_size <= i < old(self)@.half_kernel_size
                    && -old(self)@.half_kernel_size <= j < old(self)@.half_kernel_size
                    ==> call_requires(*weight, (sigma, i, j)),
        ensures
            final(self).wf(),
            final(self)@ == (FilterModel {
                spatial_lut: final(self)@.spatial_lut,
                ..old(self)@
            }),
            spatial_lut_built(
                old(self)@.spatial_lut,
                final(self)@.spatial_lut,
                old(self)@.half_kernel_size,
                sigma,
                *weight,
            ),
    {
        let half: i32 = self.half_kernel_size as i32;
        let side: i32 = 2 * half;
        assert(0 <= side * side <= 254 * 254) by (nonlinear_arith)
            requires
                0 <= side <= 254,
        ;
        let cells: i32 = side * side;
        let filled: i32 = if cells > SPATIAL_LUT_LEN as i32 {
            SPATIAL_LUT_LEN as i32
        } else {
            cells
        };
        let mut k: i32 = 0;
        while k < filled
            invariant
                self.wf(),
                0 <= k <= filled,
                filled == filled_entries(half as int),
                half == old(self)@.half_kernel_size,
                side == 2 * half,
                1 <= half <= 127,
                forall|i: i8, j: i8|
                    -half <= i < half && -half <= j < half ==> call_requires(
                        *weight,
                        (sigma, i, j),
                    ),
                self@ == (FilterModel { spatial_lut: self@.spatial_lut, ..old(self)@ }),
                forall|e: int|
                    0 <= e < SPATIAL_LUT_LEN ==> if e < k {
                        call_ensures(
                            *weight,
                            (
                                sigma,
                                offset_row(half as int, e) as i8,
                                offset_column(half as int, e) as i8,
                            ),
                            #[trigger] self@.spatial_lut[e],
                        )
                    } else {
                        self@.spatial_lut[e] == old(self)@.spatial_lut[e]
                    },
            decreases filled - k,
        {
            let row: i32 = k / side - half;
            let column: i32 = k % side - half;
            assert(-half <= row < half) by (nonlinear_arith)
                requires
                    row == k / side - half,
                    0 <= k < side * side,
                    side == 2 * half,
                    half >= 1,
            ;
            let w: W = weight(sigma, row as i8, column as i8);
            self.spatial_lut[k as usize] = w;
            k += 1;
        }
    }

    /// Gathers the cells of the window anchored at `start_position`, row by
    /// row: for each cell its weight by position, its weight by intensity
    /// difference to `central_pixel`, and its intensity.
    pub fn window_taps(&self, start_position: u32, central_pixel: u8) -> (taps: Vec<Tap<W>>)
        requires
            self.wf(),
            self@.window_in_table(),
            self@.window_in_image(start_position as int),
        ensures
            taps@ == self@.window_taps(start_position as int, central_pixel),
            taps@.len() == self@.kernel_size * self@.kernel_size,
    {
        let side: u64 = self.kernel_size as u64;
        let width: u64 = self.image_width as u64;
        let start: u64 = start_position as u64;
        let cells: u64 = side * side;
        let mut taps: Vec<Tap<W>> = Vec::new();
        let mut k: u64 = 0;
        while k < cells
            invariant
                self.wf(),
                self@.window_in_table(),
                self@.window_in_image(start as int),
                side == self@.kernel_size,
                width == self@.image_width,
                cells == side * side,
                0 <= k <= cells,
                taps@.len() == k,
                forall|e: int|
                    0 <= e < k ==> #[trigger] taps@[e] == self@.tap(start as int, central_pixel, e),
            decreases cells - k,
        {
            let row: u64 = k / side;
            let column: u64 = k % side;
            assert(row <= side - 1 && row * width <= (side - 1) * width) by (nonlinear_arith)
                requires
                    row == k / side,
                    0 <= k < side * side,
                    side >= 3,
                    width >= 0,
            ;
            let index: u64 = start + row * width + column;
            let pixel: u8 = self.input_data[index as usize];
            let difference: u8 = if pixel >= central_pixel {
                pixel - central_pixel
            } else {
                central_pixel - pixel
            };
            taps.push(
                Tap {
                    spatial: self.spatial_lut[k as usize],
                    intensity: self.intensity_lut[difference as usize],
                    pixel,
                },
            );
            k += 1;
        }
        assert(taps@ =~= self@.window_taps(start_position as int, central_pixel));
        taps
    }

    /// The filtered value of one pixel: `average` applied to the window
    /// anchored at `start_position`, for a central pixel of intensity
    /// `central_pixel`.
    pub fn kernel<F: Fn(Vec<Tap<W>>) -> u8>(
        &self,
        start_position: u32,
        central_pixel: u8,
        average: &F,
    ) -> (value: u8)
        requires
            self.wf(),
            self@.window_in_table(),
            self@.window_in_image(start_position as int),
            forall|v: Vec<Tap<W>>|
                v@ == self@.window_taps(start_position as int, central_pixel) ==> call_requires(
                    *average,
                    (v,),
                ),
        ensures
            averages_to(
                *average,
                self@.window_taps(start_position as int, central_pixel),
                value,
            ),
    {
        let taps: Vec<Tap<W>> = self.window_taps(start_position, central_pixel);
        average(taps)
    }

    /// Sets the window for the spatial spread `spatial` and rebuilds both
    /// tables: the one by intensity difference for `intensity`, then the one
    /// by position for `spatial` and the new radius.
    pub fn set_sigma<FI: Fn(u8, u8) -> W, FS: Fn(u8, i8, i8) -> W>(
        &mut self,
        spatial: u8,
        intensity: u8,
        intensity_weight: &FI,
        spatial_weight: &FS,
    )
        requires
            old(self).wf(),
            forall|d: u8|
                d < INTENSITY_LUT_BUILT ==> call_requires(*intensity_weight, (intensity, d)),
            forall|i: i8, j: i8|
                -half_of(mapped_kernel_size(spatial as int)) <= i < half_of(
                    mapped_kernel_size(spatial as int),
                ) && -half_of(mapped_kernel_size(spatial as int)) <= j < half_of(
                    mapped_kernel_size(spatial as int),
                ) ==> call_requires(*spatial_weight, (spatial, i, j)),
        ensures
            final(self).wf(),
            final(self)@ == (FilterModel {
                kernel_size: mapped_kernel_size(spatial as int),
                half_kernel_size: half_of(mapped_kernel_size(spatial as int)),
                intensity_lut: final(self)@.intensity_lut,
                spatial_lut: final(self)@.spatial_lut,
                ..old(self)@
            }),
            intensity_lut_built(
                old(self)@.intensity_lut,
                final(self)@.intensity_lut,
                intensity,
                *intensity_weight,
            ),
            spatial_lut_built(
                old(self)@.spatial_lut,
                final(self)@.spatial_lut,
                half_of(mapped_kernel_size(spatial as int)),
                spatial,
                *spatial_weight,
            ),
    {
        let size: u8 = self.calculate_kernel_size(spatial);
        self.set_kernel_size(size);
        self.calculate_intensity_lut(intensity, intensity_weight);
        self.calculate_gauss_spatial_lut(spatial, spatial_weight);
    }

    /// Filters the image: the output at every interior pixel becomes
    /// `average` applied to that pixel's window of the input. Pixels nearer
    /// to an edge than the window's radius are not processed: the output
    /// there keeps the value it had. Where the image has interior pixels, the
    /// table of weights by position must have an entry for each cell of the
    /// window.
    pub fn run<F: Fn(Vec<Tap<W>>) -> u8>(&mut self, average: &F)
        requires
            old(self).wf(),
            old(self)@.runnable(),
            forall|p: int, v: Vec<Tap<W>>| #[trigger]
                old(self)@.is_window_of(p, v@) ==> call_requires(*average, (v,)),
        ensures
            final(self).wf(),
            old(self)@.run_outcome(final(self)@, *average),
    {
        let ghost before = self@;
        let half: u64 = self.half_kernel_size as u64;
        let width: u64 = self.image_width as u64;
        let height: u64 = self.image_height as u64;
        if height < half || width < half {
            return ;
        }
        let end_height: u64 = height - half;
        let end_width: u64 = width - half;
        let mut i: u64 = half;
        while i < end_height
            invariant
                self.wf(),
                before.wf(),
                before.runnable(),
                before == old(self)@,
                self@ == before.with_output(self@.output_data),
                half == before.half_kernel_size,
                width == before.image_width,
                height == before.image_height,
                half <= width,
                half <= height,
                end_height == height - half,
                end_width == width - half,
                half <= i,
                forall|p: int, v: Vec<Tap<W>>| #[trigger]
                    before.is_window_of(p, v@) ==> call_requires(*average, (v,)),
                before.run_progress(self@.output_data, i as int, 0, *average),
            decreases end_height - i,
        {
            let mut j: u64 = half;
            while j < end_width
                invariant
                    self.wf(),
                    before.wf(),
                    before.runnable(),
                    before == old(self)@,
                    self@ == before.with_output(self@.output_data),
                    half == before.half_kernel_size,
                    width == before.image_width,
                    height == before.image_height,
                    half <= width,
                    half <= height,
                    end_height == height - half,
                    end_width == width - half,
                    half <= i < end_height,
                    half <= j,
                    forall|p: int, v: Vec<Tap<W>>| #[trigger]
                        before.is_window_of(p, v@) ==> call_requires(*average, (v,)),
                    before.run_progress(self@.output_data, i as int, j as int, *average),
                decreases end_width - j,
            {
                proof {
                    before.lemma_interior_pixel(i as int, j as int);
                }
                let central_pixel_index: u64 = i * width + j;
                let top_left_kernel_index: u64 = central_pixel_index - half * width - half;
                let central_pixel: u8 = self.input_data[central_pixel_index as usize];
                proof {
                    let taps = self@.window_taps(top_left_kernel_index as int, central_pixel);
                    assert(taps =~= before.window_of(central_pixel_index as int));
                    assert forall|v: Vec<Tap<W>>| v@ == taps implies call_requires(
                        *average,
                        (v,),
                    ) by {
                        assert(before.is_window_of(central_pixel_index as int, v@));
                    }
                }
                let value: u8 = self.kernel(top_left_kernel_index as u32, central_pixel, average);
                let ghost prior = self@.output_data;
                self.output_data[central_pixel_index as usize] = value;
                j += 1;
                proof {
                    let q = central_pixel_index as int;
                    assert(averages_to(*average, before.window_of(q), value));
                    assert(self@.output_data =~= prior.update(q, value));
                    assert forall|p: int| 0 <= p < before.output_data.len() implies (if before.interior(
                        p,
                    ) && (before.row_of(p) < i || (before.row_of(p) == i && before.column_of(p)
                        < j)) {
                        averages_to(*average, before.window_of(p), #[trigger] self@.output_data[p])
                    } else {
                        self@.output_data[p] == before.output_data[p]
                    }) by {
                        if p != q {
                            assert(self@.output_data[p] == prior[p]);
                            vstd::arithmetic::div_mod::lemma_fundamental_div_mod(
                                p,
                                before.image_width,
                            );
                            vstd::arithmetic::mul::lemma_mul_is_commutative(
                                before.image_width,
                                p / before.image_width,
                            );
                        }
                    }
                }
            }
            i += 1;
        }
    }
}

} // verus!
