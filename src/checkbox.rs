//! Checkbox styles: active and hovered states.

pub mod serial;

use vstd::prelude::*;
use crate::border::Border;
use crate::color::Color;
use crate::resolve::{Build, Composite, find_optional, optional_color, optional_handle, NoExtra};
use crate::table::{Table, find};

verus! {

/// A resolved checkbox state.
#[derive(Clone, Copy, Debug, PartialEq, Eq, Structural)]
pub struct State {
    /// Handle of the background color in the color table.
    pub background: usize,
    /// Handle of the checkmark color in the color table.
    pub checkmark: usize,
    /// Handle of the label color in the color table, where the label has a color of its own.
    pub textcolor: Option<usize>,
    /// Handle of the border in the border table.
    pub border: usize,
}

impl View for State {
    type V = State;

    open spec fn view(&self) -> State {
        *self
    }
}

impl Build for serial::CheckboxState {
    type Value = State;

    open spec fn spec_build(
        &self,
        colors: Seq<(Seq<char>, Color)>,
        borders: Seq<(Seq<char>, Border)>,
    ) -> Option<State> {
        match (find(colors, self.background@), find(colors, self.checkmark@), find_optional(colors, self.textcolor), find(borders, self.border@)) {
            (Some(background), Some(checkmark), Some(textcolor), Some(border)) => Some(State { background: background as usize, checkmark: checkmark as usize, textcolor: optional_handle(textcolor), border: border as usize }),
            _ => None,
        }
    }

    fn build(&self, colors: &Table<Color>, borders: &Table<Border>) -> (r: Option<State>) {
        let background = match colors.find(&self.background) {
            Some(h) => h,
            None => {
                return None;
            },
        };
        let checkmark = match colors.find(&self.checkmark) {
            Some(h) => h,
            None => {
                return None;
            },
        };
        let textcolor = match optional_color(colors, &self.textcolor) {
            Some(h) => h,
            None => {
                return None;
            },
        };
        let border = match borders.find(&self.border) {
            Some(h) => h,
            None => {
                return None;
            },
        };
        Some(State { background, checkmark, textcolor, border })
    }
}

/// A resolved checkbox style: the active and hovered states in that order.
pub type Checkbox = Composite<State, NoExtra>;

} // verus!
