//! Raw button styles: active, hovered, pressed and disabled states.

use vstd::prelude::*;
use crate::resolve::{Component as Part, CompositeDef, NoExtra};

verus! {

/// A raw button state.
pub struct State {
    /// Name of the background color.
    pub background: String,
    /// Name of the text color.
    pub text: String,
    /// Name of the border.
    pub border: String,
}

/// A raw button definition: the active, hovered, pressed and disabled states in that order.
pub type Button = CompositeDef<State, NoExtra>;

/// One part of a raw button definition.
pub type Component = Part<State>;

} // verus!
