//! Raw pane grid styles: the picked and hovered split lines, and the hovered region.

use vstd::prelude::*;
use crate::resolve::{Component as Part, CompositeDef};

verus! {

/// A raw split line.
pub struct State {
    /// Name of the color.
    pub color: String,
    /// The line width, as the bits of an `f32`.
    pub width: u32,
}

/// A raw hovered region.
pub struct Hovered {
    /// Name of the background color.
    pub background: String,
    /// Name of the border.
    pub border: String,
}

/// A raw pane grid definition: the picked and hovered split lines in that order, and the hovered region.
pub type PaneGrid = CompositeDef<State, Hovered>;

/// One part of a raw pane grid definition.
pub type LineComponent = Part<State>;

/// One part of a raw pane grid definition.
pub type HoveredComponent = Part<Hovered>;

} // verus!
