//! Raw text input styles: active, hovered, focused and disabled states, and the text colors.

use vstd::prelude::*;
use crate::resolve::{Component as Part, CompositeDef};

verus! {

/// A raw text input state.
pub struct State {
    /// Name of the background color.
    pub background: String,
    /// Name of the border.
    pub border: String,
    /// Name of the icon color.
    pub icon: String,
}

/// The raw text colors of a text input.
pub struct Colors {
    /// Name of the placeholder color.
    pub placeholder: String,
    /// Name of the value color.
    pub value: String,
    /// Name of the selection color.
    pub selection: String,
    /// Name of the text color when disabled.
    pub disabled: String,
}

/// A raw text input definition: the active, hovered, focused and disabled states in that order, and the text colors.
pub type TextInput = CompositeDef<State, Colors>;

/// One part of a raw text input definition.
pub type Component = Part<State>;

/// One part of a raw text input definition.
pub type ColorsComponent = Part<Colors>;

} // verus!
