//! Borders: a color, a corner radius and a line width.

pub mod serial;

use vstd::prelude::*;
use crate::color::Color;
use crate::resolve::Build;
use crate::table::{Table, find};

verus! {

/// A resolved border.
#[derive(Clone, Copy, Debug, PartialEq, Eq, Structural)]
pub struct Border {
    /// Handle of the border color in the color table.
    pub color: usize,
    /// Corner radius, as the bits of an `f32`.
    pub radius: u32,
    /// Line width, as the bits of an `f32`.
    pub width: u32,
}

impl View for Border {
    type V = Border;

    open spec fn view(&self) -> Border {
        *self
    }
}

impl Build for serial::Border {
    type Value = Border;

    /// Borders depend on colors alone.
    open spec fn spec_build(
        &self,
        colors: Seq<(Seq<char>, Color)>,
        borders: Seq<(Seq<char>, Border)>,
    ) -> Option<Border> {
        match find(colors, self.color@) {
            Some(c) => Some(Border { color: c as usize, radius: self.radius, width: self.width }),
            None => None,
        }
    }

    fn build(&self, colors: &Table<Color>, borders: &Table<Border>) -> (r: Option<Border>) {
        match colors.find(&self.color) {
            Some(c) => Some(Border { color: c, radius: self.radius, width: self.width }),
            None => None,
        }
    }
}

} // verus!
