//! Laws that relate several operations of the filter.

use vstd::prelude::*;
use crate::kernel_size::mapped_kernel_size;
use crate::kernel_size::valid_kernel_size;
use crate::model::averages_to;
use crate::model::deterministic;
use crate::model::filled_entries;
use crate::model::offset_column;
use crate::model::offset_row;
use crate::model::spatial_lut_built;
use crate::model::FilterModel;
use crate::model::Tap;

verus! {

/// The window side never shrinks when the spatial spread grows, and it is
/// odd and at least three for every spread.
pub proof fn lemma_kernel_size_monotonic(a: u8, b: u8)
    requires
        a <= b,
    ensures
        mapped_kernel_size(a as int) <= mapped_kernel_size(b as int),
        valid_kernel_size(mapped_kernel_size(a as int)),
        valid_kernel_size(mapped_kernel_size(b as int)),
{
}

/// The image has an interior pixel exactly where both its sides are longer
/// than twice the window's radius; the nearest one to the top-left corner
/// then lies the radius away from the top and from the left edge.
pub proof fn lemma_interior_exists_iff_has_interior<W>(model: FilterModel<W>)
    requires
        model.wf(),
    ensures
        model.has_interior() <==> exists|p: int| #[trigger] model.interior(p),
        model.has_interior() ==> model.interior(
            model.half_kernel_size * model.image_width + model.half_kernel_size,
        ),
{
    if model.has_interior() {
        model.lemma_interior_pixel(model.half_kernel_size, model.half_kernel_size);
    }
}

/// A pass of the filter leaves the output untouched at every pixel that is
/// nearer to an edge of the image than the window's radius, whatever the
/// image, the window and the averaging function are.
pub proof fn lemma_border_untouched<W, F: Fn(Vec<Tap<W>>) -> u8>(
    before: FilterModel<W>,
    after: FilterModel<W>,
    average: F,
    p: int,
)
    requires
        before.wf(),
        before.run_outcome(after, average),
        0 <= p < before.output_data.len(),
        before.row_of(p) < before.half_kernel_size || before.row_of(p) >= before.image_height
            - before.half_kernel_size || before.column_of(p) < before.half_kernel_size
            || before.column_of(p) >= before.image_width - before.half_kernel_size,
    ensures
        after.output_data[p] == before.output_data[p],
{
}

/// Two passes in succession, with the input and the configuration unchanged
/// and an averaging function that gives one value for one window, end in the
/// same state: the second pass changes nothing.
pub proof fn lemma_second_run_changes_nothing<W, F: Fn(Vec<Tap<W>>) -> u8>(
    first: FilterModel<W>,
    second: FilterModel<W>,
    third: FilterModel<W>,
    average: F,
)
    requires
        first.wf(),
        deterministic(average),
        first.run_outcome(second, average),
        second.run_outcome(third, average),
    ensures
        third == second,
{
    assert forall|p: int| 0 <= p < second.output_data.len() implies third.output_data[p]
        == second.output_data[p] by {
        assert(second.interior(p) == first.interior(p));
        if first.interior(p) {
            assert(second.window_of(p) =~= first.window_of(p));
            assert(averages_to(average, first.window_of(p), second.output_data[p]));
            assert(averages_to(average, first.window_of(p), third.output_data[p]));
        }
    }
    assert(third.output_data =~= second.output_data);
}

/// The window and the table of weights by position do not line up: a window
/// has `kernel_size * kernel_size` cells and cell `k` takes entry `k` of the
/// table, while a rebuild fills `(2 * half_kernel_size)^2` entries, which is
/// fewer. The cells up to that number take what the rebuild computed for the
/// offsets that their position stands for; the cells behind it take what the
/// table held before the rebuild.
pub proof fn lemma_window_reads_past_filled_entries<W, F: Fn(u8, i8, i8) -> W>(
    before: FilterModel<W>,
    after: FilterModel<W>,
    sigma: u8,
    weight: F,
    start: int,
    central: u8,
)
    requires
        after.wf(),
        after.window_in_table(),
        spatial_lut_built(
            before.spatial_lut,
            after.spatial_lut,
            after.half_kernel_size,
            sigma,
            weight,
        ),
    ensures
        after.window_taps(start, central).len() == after.kernel_size * after.kernel_size,
        filled_entries(after.half_kernel_size) == (2 * after.half_kernel_size) * (2
            * after.half_kernel_size),
        filled_entries(after.half_kernel_size) < after.kernel_size * after.kernel_size,
        forall|k: int|
            0 <= k < filled_entries(after.half_kernel_size) ==> call_ensures(
                weight,
                (
                    sigma,
                    offset_row(after.half_kernel_size, k) as i8,
                    offset_column(after.half_kernel_size, k) as i8,
                ),
                #[trigger] after.window_taps(start, central)[k].spatial,
            ),
        forall|k: int|
            filled_entries(after.half_kernel_size) <= k < after.kernel_size * after.kernel_size
                ==> #[trigger] after.window_taps(start, central)[k].spatial
                == before.spatial_lut[k],
{
    let side = after.kernel_size;
    let half = after.half_kernel_size;
    assert(side == 2 * half + 1);
    assert((2 * half) * (2 * half) < side * side) by (nonlinear_arith)
        requires
            side == 2 * half + 1,
            half >= 1,
    ;
    assert forall|k: int| 0 <= k < side * side implies #[trigger] after.window_taps(
        start,
        central,
    )[k].spatial == after.spatial_lut[k] by {}
}

} // verus!
