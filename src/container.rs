//! Container styles.

pub mod serial;

use vstd::prelude::*;
use crate::border::Border;
use crate::color::Color;
use crate::resolve::{Build};
use crate::table::{Table, find};

verus! {

/// A resolved container style.
#[derive(Clone, Copy, Debug, PartialEq, Eq, Structural)]
pub struct Container {
    /// Handle of the color in the color table.
    pub color: usize,
    /// Handle of the border in the border table.
    pub border: usize,
}

impl View for Container {
    type V = Container;

    open spec fn view(&self) -> Container {
        *self
    }
}

impl Build for serial::Container {
    type Value = Container;

    open spec fn spec_build(
        &self,
        colors: Seq<(Seq<char>, Color)>,
        borders: Seq<(Seq<char>, Border)>,
    ) -> Option<Container> {
        match (find(colors, self.color@), find(borders, self.border@)) {
            (Some(color), Some(border)) => Some(Container { color: color as usize, border: border as usize }),
            _ => None,
        }
    }

    fn build(&self, colors: &Table<Color>, borders: &Table<Border>) -> (r: Option<Container>) {
        let color = match colors.find(&self.color) {
            Some(h) => h,
            None => {
                return None;
            },
        };
        let border = match borders.find(&self.border) {
            Some(h) => h,
            None => {
                return None;
            },
        };
        Some(Container { color, border })
    }
}

} // verus!
