//! Tooltip styles.

pub mod serial;

use vstd::prelude::*;
use crate::border::Border;
use crate::color::Color;
use crate::resolve::{Build};
use crate::table::{Table, find};

verus! {

/// A resolved tooltip style.
#[derive(Clone, Copy, Debug, PartialEq, Eq, Structural)]
pub struct Tooltip {
    /// Handle of the background color in the color table.
    pub background: usize,
    /// Handle of the text color in the color table.
    pub text: usize,
    /// Handle of the border in the border table.
    pub border: usize,
}

impl View for Tooltip {
    type V = Tooltip;

    open spec fn view(&self) -> Tooltip {
        *self
    }
}

impl Build for serial::Tooltip {
    type Value = Tooltip;

    open spec fn spec_build(
        &self,
        colors: Seq<(Seq<char>, Color)>,
        borders: Seq<(Seq<char>, Border)>,
    ) -> Option<Tooltip> {
        match (find(colors, self.background@), find(colors, self.text@), find(borders, self.border@)) {
            (Some(background), Some(text), Some(border)) => Some(Tooltip { background: background as usize, text: text as usize, border: border as usize }),
            _ => None,
        }
    }

    fn build(&self, colors: &Table<Color>, borders: &Table<Border>) -> (r: Option<Tooltip>) {
        let background = match colors.find(&self.background) {
            Some(h) => h,
            None => {
                return None;
            },
        };
        let text = match colors.find(&self.text) {
            Some(h) => h,
            None => {
                return None;
            },
        };
        let border = match borders.find(&self.border) {
            Some(h) => h,
            None => {
                return None;
            },
        };
        Some(Tooltip { background, text, border })
    }
}

} // verus!
