//! Progress bar styles.

pub mod serial;

use vstd::prelude::*;
use crate::border::Border;
use crate::color::Color;
use crate::resolve::{Build};
use crate::table::{Table, find};

verus! {

/// A resolved progress bar style.
#[derive(Clone, Copy, Debug, PartialEq, Eq, Structural)]
pub struct ProgressBar {
    /// Handle of the background color in the color table.
    pub background: usize,
    /// Handle of the bar color in the color table.
    pub bar: usize,
    /// The corner radius, as the bits of an `f32`.
    pub radius: u32,
}

impl View for ProgressBar {
    type V = ProgressBar;

    open spec fn view(&self) -> ProgressBar {
        *self
    }
}

impl Build for serial::ProgressBar {
    type Value = ProgressBar;

    open spec fn spec_build(
        &self,
        colors: Seq<(Seq<char>, Color)>,
        borders: Seq<(Seq<char>, Border)>,
    ) -> Option<ProgressBar> {
        match (find(colors, self.background@), find(colors, self.bar@)) {
            (Some(background), Some(bar)) => Some(ProgressBar { background: background as usize, bar: bar as usize, radius: self.radius }),
            _ => None,
        }
    }

    fn build(&self, colors: &Table<Color>, borders: &Table<Border>) -> (r: Option<ProgressBar>) {
        let background = match colors.find(&self.background) {
            Some(h) => h,
            None => {
                return None;
            },
        };
        let bar = match colors.find(&self.bar) {
            Some(h) => h,
            None => {
                return None;
            },
        };
        Some(ProgressBar { background, bar, radius: self.radius })
    }
}

} // verus!
