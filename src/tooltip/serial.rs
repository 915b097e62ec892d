//! Raw tooltip styles.

use vstd::prelude::*;

verus! {

/// A tooltip style as it is written in a theme.
pub struct Tooltip {
    /// Name of the background color.
    pub background: String,
    /// Name of the text color.
    pub text: String,
    /// Name of the border.
    pub border: String,
}

} // verus!
