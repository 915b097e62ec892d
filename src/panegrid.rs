//! Pane grid styles: the picked and hovered split lines, and the hovered region.

pub mod serial;

use vstd::prelude::*;
use crate::border::Border;
use crate::color::Color;
use crate::resolve::{Build, Composite};
use crate::table::{Table, find};

verus! {

/// A resolved split line.
#[derive(Clone, Copy, Debug, PartialEq, Eq, Structural)]
pub struct State {
    /// Handle of the color in the color table.
    pub color: usize,
    /// The line width, as the bits of an `f32`.
    pub width: u32,
}

impl View for State {
    type V = State;

    open spec fn view(&self) -> State {
        *self
    }
}

impl Build for serial::State {
    type Value = State;

    open spec fn spec_build(
        &self,
        colors: Seq<(Seq<char>, Color)>,
        borders: Seq<(Seq<char>, Border)>,
    ) -> Option<State> {
        match (find(colors, self.color@),) {
            (Some(color),) => Some(State { color: color as usize, width: self.width }),
            _ => None,
        }
    }

    fn build(&self, colors: &Table<Color>, borders: &Table<Border>) -> (r: Option<State>) {
        let color = match colors.find(&self.color) {
            Some(h) => h,
            None => {
                return None;
            },
        };
        Some(State { color, width: self.width })
    }
}

/// A resolved hovered region.
#[derive(Clone, Copy, Debug, PartialEq, Eq, Structural)]
pub struct Hovered {
    /// Handle of the background color in the color table.
    pub background: usize,
    /// Handle of the border in the border table.
    pub border: usize,
}

impl View for Hovered {
    type V = Hovered;

    open spec fn view(&self) -> Hovered {
        *self
    }
}

impl Build for serial::Hovered {
    type Value = Hovered;

    open spec fn spec_build(
        &self,
        colors: Seq<(Seq<char>, Color)>,
        borders: Seq<(Seq<char>, Border)>,
    ) -> Option<Hovered> {
        match (find(colors, self.background@), find(borders, self.border@)) {
            (Some(background), Some(border)) => Some(Hovered { background: background as usize, border: border as usize }),
            _ => None,
        }
    }

    fn build(&self, colors: &Table<Color>, borders: &Table<Border>) -> (r: Option<Hovered>) {
        let background = match colors.find(&self.background) {
            Some(h) => h,
            None => {
                return None;
            },
        };
        let border = match borders.find(&self.border) {
            Some(h) => h,
            None => {
                return None;
            },
        };
        Some(Hovered { background, border })
    }
}

/// A resolved pane grid style: the picked and hovered split lines in that order, and the hovered region.
pub type PaneGrid = Composite<State, Hovered>;

} // verus!
