//! The mapping from a spatial spread to the side of the square window.

use vstd::prelude::*;

verus! {

/// The smallest window side the filter ever uses.
pub const MIN_KERNEL_SIZE: u8 = 3;

/// The largest odd window side that fits the 8-bit range.
pub const MAX_KERNEL_SIZE: u8 = 255;

/// `floor(1.95 * sigma)`, cut off at the top of the 8-bit range.
pub open spec fn scaled_spread(sigma: int) -> int {
    if 195 * sigma / 100 > 255 {
        255
    } else {
        195 * sigma / 100
    }
}

/// The window side for a spatial spread: `floor(1.95 * sigma)`, lowered by
/// one where that is even, and never below three.
pub open spec fn mapped_kernel_size(sigma: int) -> int {
    let scaled = scaled_spread(sigma);
    let odd = if scaled % 2 == 0 {
        scaled - 1
    } else {
        scaled
    };
    if odd < 3 {
        3
    } else {
        odd
    }
}

/// Half of a window side, rounded down: the radius of the window.
pub open spec fn half_of(kernel_size: int) -> int {
    kernel_size / 2
}

/// What every window side of the filter fulfils: odd and at least three.
pub open spec fn valid_kernel_size(kernel_size: int) -> bool {
    3 <= kernel_size <= 255 && kernel_size % 2 == 1
}

} // verus!
