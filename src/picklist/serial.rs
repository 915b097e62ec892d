//! Raw pick list styles: active and hovered states, and the menu.

use vstd::prelude::*;
use crate::resolve::{Component as Part, CompositeDef};

verus! {

/// A raw pick list state.
pub struct State {
    /// Name of the background color.
    pub background: String,
    /// Name of the text color.
    pub text: String,
    /// Name of the placeholder color.
    pub placeholder: String,
    /// Name of the border.
    pub border: String,
    /// Name of the handle color.
    pub handle: String,
}

/// A raw pick list menu.
pub struct Menu {
    /// Name of the background color.
    pub background: String,
    /// Name of the text color.
    pub text: String,
    /// Name of the border.
    pub border: String,
    /// Name of the background color of the selected item.
    pub sbackground: String,
    /// Name of the text color of the selected item.
    pub stext: String,
}

/// A raw pick list definition: the active and hovered states in that order, and the menu.
pub type Picklist = CompositeDef<State, Menu>;

/// One part of a raw pick list definition.
pub type StateComponent = Part<State>;

/// One part of a raw pick list definition.
pub type MenuComponent = Part<Menu>;

} // verus!
