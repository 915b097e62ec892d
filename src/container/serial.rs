//! Raw container styles.

use vstd::prelude::*;

verus! {

/// A container style as it is written in a theme.
pub struct Container {
    /// Name of the color.
    pub color: String,
    /// Name of the border.
    pub border: String,
}

} // verus!
