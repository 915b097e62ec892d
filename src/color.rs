//! Colors: the leaves that every other style refers to.

use vstd::prelude::*;
use crate::border::Border;
use crate::resolve::Build;
use crate::table::Table;

verus! {

/// The bit pattern of the `f32` value `1.0`: a fully opaque alpha.
pub const OPAQUE: u32 = 0x3F80_0000;

/// A color: red, green and blue channels, and the alpha channel carried as
/// the bit pattern of an `f32`, so that it is stored and compared exactly.
#[derive(Clone, Copy, Debug, PartialEq, Eq, Structural)]
pub struct Color {
    /// Red channel.
    pub r: u8,
    /// Green channel.
    pub g: u8,
    /// Blue channel.
    pub b: u8,
    /// Alpha channel, as the bits of an `f32`.
    pub a: u32,
}

impl View for Color {
    type V = Color;

    open spec fn view(&self) -> Color {
        *self
    }
}

impl Color {
    /// Creates a new color.
    pub fn new(r: u8, g: u8, b: u8, a: u32) -> (c: Color)
        ensures
            c == (Color { r, g, b, a }),
    {
        Color { r, g, b, a }
    }

    /// Opaque black.
    pub fn black() -> (c: Color)
        ensures
            c == (Color { r: 0, g: 0, b: 0, a: OPAQUE }),
    {
        Color { r: 0, g: 0, b: 0, a: OPAQUE }
    }

    /// Opaque red.
    pub fn red() -> (c: Color)
        ensures
            c == (Color { r: 255, g: 0, b: 0, a: OPAQUE }),
    {
        Color { r: 255, g: 0, b: 0, a: OPAQUE }
    }

    /// Opaque blue.
    pub fn blue() -> (c: Color)
        ensures
            c == (Color { r: 0, g: 0, b: 255, a: OPAQUE }),
    {
        Color { r: 0, g: 0, b: 255, a: OPAQUE }
    }

    /// Opaque white.
    pub fn white() -> (c: Color)
        ensures
            c == (Color { r: 255, g: 255, b: 255, a: OPAQUE }),
    {
        Color { r: 255, g: 255, b: 255, a: OPAQUE }
    }
}

impl Build for Color {
    type Value = Color;

    /// A color is given inline and refers to nothing.
    open spec fn spec_build(
        &self,
        colors: Seq<(Seq<char>, Color)>,
        borders: Seq<(Seq<char>, Border)>,
    ) -> Option<Color> {
        Some(*self)
    }

    fn build(&self, colors: &Table<Color>, borders: &Table<Border>) -> (r: Option<Color>) {
        Some(*self)
    }
}

impl Default for Color {
    /// Opaque black.
    fn default() -> (c: Color)
        ensures
            c == (Color { r: 0, g: 0, b: 0, a: OPAQUE }),
    {
        Color::black()
    }
}

} // verus!
