//! Radio button styles: active and hovered states.

pub mod serial;

use vstd::prelude::*;
use crate::border::Border;
use crate::color::Color;
use crate::resolve::{Build, Composite, find_optional, optional_color, optional_handle, NoExtra};
use crate::table::{Table, find};

verus! {

/// A resolved radio button state.
#[derive(Clone, Copy, Debug, PartialEq, Eq, Structural)]
pub struct State {
    /// Handle of the background color in the color table.
    pub background: usize,
    /// Handle of the dot color in the color table.
    pub dotcolor: usize,
    /// Handle of the label color in the color table, where the label has a color of its own.
    pub textcolor: Option<usize>,
    /// Handle of the border in the border table.
    pub border: usize,
}

impl View for State {
    type V = State;

    open spec fn view(&self) -> State {
        *self
    }
}

impl Build for serial::RadioState {
    type Value = State;

    open spec fn spec_build(
        &self,
        colors: Seq<(Seq<char>, Color)>,
        borders: Seq<(Seq<char>, Border)>,
    ) -> Option<State> {
        match (find(colors, self.background@), find(colors, self.dotcolor@), find_optional(colors, self.textcolor), find(borders, self.border@)) {
            (Some(background), Some(dotcolor), Some(textcolor), Some(border)) => Some(State { background: background as usize, dotcolor: dotcolor as usize, textcolor: optional_handle(textcolor), border: border as usize }),
            _ => None,
        }
    }

    fn build(&self, colors: &Table<Color>, borders: &Table<Border>) -> (r: Option<State>) {
        let background = match colors.find(&self.background) {
            Some(h) => h,
            None => {
                return None;
            },
        };
        let dotcolor = match colors.find(&self.dotcolor) {
            Some(h) => h,
            None => {
                return None;
            },
        };
        let textcolor = match optional_color(colors, &self.textcolor) {
            Some(h) => h,
            None => {
                return None;
            },
        };
        let border = match borders.find(&self.border) {
            Some(h) => h,
            None => {
                return None;
            },
        };
        Some(State { background, dotcolor, textcolor, border })
    }
}

/// A resolved radio button style: the active and hovered states in that order.
pub type Radio = Composite<State, NoExtra>;

} // verus!
