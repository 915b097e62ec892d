//! Raw scrollbar styles: active, hovered and dragging states.

use vstd::prelude::*;
use crate::resolve::{Component as Part, CompositeDef, NoExtra};

verus! {

/// A raw scrollbar state.
pub struct State {
    /// Name of the color.
    pub color: String,
    /// Name of the border.
    pub border: String,
    /// Name of the scroller color.
    pub scolor: String,
    /// Name of the scroller border.
    pub sborder: String,
}

/// A raw scrollbar definition: the active, hovered and dragging states in that order.
pub type Scrollable = CompositeDef<State, NoExtra>;

/// One part of a raw scrollbar definition.
pub type Component = Part<State>;

} // verus!
