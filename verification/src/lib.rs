//! An edge-preserving smoothing filter (a bilateral filter) for single-channel
//! 8-bit images.
//!
//! The filter owns an input and an output buffer, a window size derived from a
//! spatial spread parameter, and two tables of weights: one indexed by the
//! absolute intensity difference of two pixels, one indexed by the position of
//! a cell in the scan of the window. The library is generic over the type `W`
//! of a weight and never computes with weights itself: callers hand in the
//! functions that produce a weight and that average a window, and the
//! contracts say exactly which arguments those functions are called with and
//! where their results go.

pub mod kernel_size;
pub mod model;
pub mod filter;
pub mod laws;

pub use filter::BilateralFilter;
pub use model::FilterModel;
pub use model::Tap;
