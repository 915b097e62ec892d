//! Scrollbar styles: active, hovered and dragging states.

pub mod serial;

use vstd::prelude::*;
use crate::border::Border;
use crate::color::Color;
use crate::resolve::{Build, Composite, NoExtra};
use crate::table::{Table, find};

verus! {

/// A resolved scrollbar state.
#[derive(Clone, Copy, Debug, PartialEq, Eq, Structural)]
pub struct State {
    /// Handle of the color in the color table.
    pub color: usize,
    /// Handle of the border in the border table.
    pub border: usize,
    /// Handle of the scroller color in the color table.
    pub scolor: usize,
    /// Handle of the scroller border in the border table.
    pub sborder: usize,
}

impl View for State {
    type V = State;

    open spec fn view(&self) -> State {
        *self
    }
}

impl Build for serial::State {
    type Value = State;

    open spec fn spec_build(
        &self,
        colors: Seq<(Seq<char>, Color)>,
        borders: Seq<(Seq<char>, Border)>,
    ) -> Option<State> {
        match (find(colors, self.color@), find(borders, self.border@), find(colors, self.scolor@), find(borders, self.sborder@)) {
            (Some(color), Some(border), Some(scolor), Some(sborder)) => Some(State { color: color as usize, border: border as usize, scolor: scolor as usize, sborder: sborder as usize }),
            _ => None,
        }
    }

    fn build(&self, colors: &Table<Color>, borders: &Table<Border>) -> (r: Option<State>) {
        let color = match colors.find(&self.color) {
            Some(h) => h,
            None => {
                return None;
            },
        };
        let border = match borders.find(&self.border) {
            Some(h) => h,
            None => {
                return None;
            },
        };
        let scolor = match colors.find(&self.scolor) {
            Some(h) => h,
            None => {
                return None;
            },
        };
        let sborder = match borders.find(&self.sborder) {
            Some(h) => h,
            None => {
                return None;
            },
        };
        Some(State { color, border, scolor, sborder })
    }
}

/// A resolved scrollbar style: the active, hovered and dragging states in that order.
pub type Scrollable = Composite<State, NoExtra>;

} // verus!
