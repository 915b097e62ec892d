//! Raw progress bar styles.

use vstd::prelude::*;

verus! {

/// A progress bar style as it is written in a theme.
pub struct ProgressBar {
    /// Name of the background color.
    pub background: String,
    /// Name of the bar color.
    pub bar: String,
    /// The corner radius, as the bits of an `f32`.
    pub radius: u32,
}

} // verus!
