//! Raw border definition.

use vstd::prelude::*;

verus! {

/// A border as it is written in a theme: its color by name.
pub struct Border {
    /// Name of the border color.
    pub color: String,
    /// Corner radius, as the bits of an `f32`.
    pub radius: u32,
    /// Line width, as the bits of an `f32`.
    pub width: u32,
}

} // verus!
