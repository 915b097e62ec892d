//! Raw checkbox styles: active and hovered states.

use vstd::prelude::*;
use crate::resolve::{Component as Part, CompositeDef, NoExtra};

verus! {

/// A raw checkbox state.
pub struct CheckboxState {
    /// Name of the background color.
    pub background: String,
    /// Name of the checkmark color.
    pub checkmark: String,
    /// Name of the label color, where the label has a color of its own.
    pub textcolor: Option<String>,
    /// Name of the border.
    pub border: String,
}

/// A raw checkbox definition: the active and hovered states in that order.
pub type Checkbox = CompositeDef<CheckboxState, NoExtra>;

/// One part of a raw checkbox definition.
pub type Component = Part<CheckboxState>;

} // verus!
