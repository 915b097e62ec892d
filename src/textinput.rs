//! Text input styles: active, hovered, focused and disabled states, and the text colors.

pub mod serial;

use vstd::prelude::*;
use crate::border::Border;
use crate::color::Color;
use crate::resolve::{Build, Composite};
use crate::table::{Table, find};

verus! {

/// A resolved text input state.
#[derive(Clone, Copy, Debug, PartialEq, Eq, Structural)]
pub struct State {
    /// Handle of the background color in the color table.
    pub background: usize,
    /// Handle of the border in the border table.
    pub border: usize,
    /// Handle of the icon color in the color table.
    pub icon: usize,
}

impl View for State {
    type V = State;

    open spec fn view(&self) -> State {
        *self
    }
}

impl Build for serial::State {
    type Value = State;

    open spec fn spec_build(
        &self,
        colors: Seq<(Seq<char>, Color)>,
        borders: Seq<(Seq<char>, Border)>,
    ) -> Option<State> {
        match (find(colors, self.background@), find(borders, self.border@), find(colors, self.icon@)) {
            (Some(background), Some(border), Some(icon)) => Some(State { background: background as usize, border: border as usize, icon: icon as usize }),
            _ => None,
        }
    }

    fn build(&self, colors: &Table<Color>, borders: &Table<Border>) -> (r: Option<State>) {
        let background = match colors.find(&self.background) {
            Some(h) => h,
            None => {
                return None;
            },
        };
        let border = match borders.find(&self.border) {
            Some(h) => h,
            None => {
                return None;
            },
        };
        let icon = match colors.find(&self.icon) {
            Some(h) => h,
            None => {
                return None;
            },
        };
        Some(State { background, border, icon })
    }
}

/// The resolved text colors of a text input.
#[derive(Clone, Copy, Debug, PartialEq, Eq, Structural)]
pub struct Colors {
    /// Handle of the placeholder color in the color table.
    pub placeholder: usize,
    /// Handle of the value color in the color table.
    pub value: usize,
    /// Handle of the selection color in the color table.
    pub selection: usize,
    /// Handle of the text color when disabled in the color table.
    pub disabled: usize,
}

impl View for Colors {
    type V = Colors;

    open spec fn view(&self) -> Colors {
        *self
    }
}

impl Build for serial::Colors {
    type Value = Colors;

    open spec fn spec_build(
        &self,
        colors: Seq<(Seq<char>, Color)>,
        borders: Seq<(Seq<char>, Border)>,
    ) -> Option<Colors> {
        match (find(colors, self.placeholder@), find(colors, self.value@), find(colors, self.selection@), find(colors, self.disabled@)) {
            (Some(placeholder), Some(value), Some(selection), Some(disabled)) => Some(Colors { placeholder: placeholder as usize, value: value as usize, selection: selection as usize, disabled: disabled as usize }),
            _ => None,
        }
    }

    fn build(&self, colors: &Table<Color>, borders: &Table<Border>) -> (r: Option<Colors>) {
        let placeholder = match colors.find(&self.placeholder) {
            Some(h) => h,
            None => {
                return None;
            },
        };
        let value = match colors.find(&self.value) {
            Some(h) => h,
            None => {
                return None;
            },
        };
        let selection = match colors.find(&self.selection) {
            Some(h) => h,
            None => {
                return None;
            },
        };
        let disabled = match colors.find(&self.disabled) {
            Some(h) => h,
            None => {
                return None;
            },
        };
        Some(Colors { placeholder, value, selection, disabled })
    }
}

/// A resolved text input style: the active, hovered, focused and disabled states in that order, and the text colors.
pub type TextInput = Composite<State, Colors>;

} // verus!
