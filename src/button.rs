//! Button styles: active, hovered, pressed and disabled states.

pub mod serial;

use vstd::prelude::*;
use crate::border::Border;
use crate::color::Color;
use crate::resolve::{Build, Composite, NoExtra};
use crate::table::{Table, find};

verus! {

/// A resolved button state.
#[derive(Clone, Copy, Debug, PartialEq, Eq, Structural)]
pub struct State {
    /// Handle of the background color in the color table.
    pub background: usize,
    /// Handle of the text color in the color table.
    pub text: usize,
    /// Handle of the border in the border table.
    pub border: usize,
}

impl View for State {
    type V = State;

    open spec fn view(&self) -> State {
        *self
    }
}

impl Build for serial::State {
    type Value = State;

    open spec fn spec_build(
        &self,
        colors: Seq<(Seq<char>, Color)>,
        borders: Seq<(Seq<char>, Border)>,
    ) -> Option<State> {
        match (find(colors, self.background@), find(colors, self.text@), find(borders, self.border@)) {
            (Some(background), Some(text), Some(border)) => Some(State { background: background as usize, text: text as usize, border: border as usize }),
            _ => None,
        }
    }

    fn build(&self, colors: &Table<Color>, borders: &Table<Border>) -> (r: Option<State>) {
        let background = match colors.find(&self.background) {
            Some(h) => h,
            None => {
                return None;
            },
        };
        let text = match colors.find(&self.text) {
            Some(h) => h,
            None => {
                return None;
            },
        };
        let border = match borders.find(&self.border) {
            Some(h) => h,
            None => {
                return None;
            },
        };
        Some(State { background, text, border })
    }
}

/// A resolved button style: the active, hovered, pressed and disabled states in that order.
pub type Button = Composite<State, NoExtra>;

} // verus!
