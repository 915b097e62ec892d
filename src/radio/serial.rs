//! Raw radio button styles: active and hovered states.

use vstd::prelude::*;
use crate::resolve::{Component as Part, CompositeDef, NoExtra};

verus! {

/// A raw radio button state.
pub struct RadioState {
    /// Name of the background color.
    pub background: String,
    /// Name of the dot color.
    pub dotcolor: String,
    /// Name of the label color, where the label has a color of its own.
    pub textcolor: Option<String>,
    /// Name of the border.
    pub border: String,
}

/// A raw radio button definition: the active and hovered states in that order.
pub type Radio = CompositeDef<RadioState, NoExtra>;

/// One part of a raw radio button definition.
pub type Component = Part<RadioState>;

} // verus!
