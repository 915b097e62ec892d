//! Pick list styles: active and hovered states, and the menu.

pub mod serial;

use vstd::prelude::*;
use crate::border::Border;
use crate::color::Color;
use crate::resolve::{Build, Composite};
use crate::table::{Table, find};

verus! {

/// A resolved pick list state.
#[derive(Clone, Copy, Debug, PartialEq, Eq, Structural)]
pub struct State {
    /// Handle of the background color in the color table.
    pub background: usize,
    /// Handle of the text color in the color table.
    pub text: usize,
    /// Handle of the placeholder color in the color table.
    pub placeholder: usize,
    /// Handle of the border in the border table.
    pub border: usize,
    /// Handle of the handle color in the color table.
    pub handle: usize,
}

impl View for State {
    type V = State;

    open spec fn view(&self) -> State {
        *self
    }
}

impl Build for serial::State {
    type Value = State;

    open spec fn spec_build(
        &self,
        colors: Seq<(Seq<char>, Color)>,
        borders: Seq<(Seq<char>, Border)>,
    ) -> Option<State> {
        match (find(colors, self.background@), find(colors, self.text@), find(colors, self.placeholder@), find(borders, self.border@), find(colors, self.handle@)) {
            (Some(background), Some(text), Some(placeholder), Some(border), Some(handle)) => Some(State { background: background as usize, text: text as usize, placeholder: placeholder as usize, border: border as usize, handle: handle as usize }),
            _ => None,
        }
    }

    fn build(&self, colors: &Table<Color>, borders: &Table<Border>) -> (r: Option<State>) {
        let background = match colors.find(&self.background) {
            Some(h) => h,
            None => {
                return None;
            },
        };
        let text = match colors.find(&self.text) {
            Some(h) => h,
            None => {
                return None;
            },
        };
        let placeholder = match colors.find(&self.placeholder) {
            Some(h) => h,
            None => {
                return None;
            },
        };
        let border = match borders.find(&self.border) {
            Some(h) => h,
            None => {
                return None;
            },
        };
        let handle = match colors.find(&self.handle) {
            Some(h) => h,
            None => {
                return None;
            },
        };
        Some(State { background, text, placeholder, border, handle })
    }
}

/// A resolved pick list menu.
#[derive(Clone, Copy, Debug, PartialEq, Eq, Structural)]
pub struct Menu {
    /// Handle of the background color in the color table.
    pub background: usize,
    /// Handle of the text color in the color table.
    pub text: usize,
    /// Handle of the border in the border table.
    pub border: usize,
    /// Handle of the background color of the selected item in the color table.
    pub sbackground: usize,
    /// Handle of the text color of the selected item in the color table.
    pub stext: usize,
}

impl View for Menu {
    type V = Menu;

    open spec fn view(&self) -> Menu {
        *self
    }
}

impl Build for serial::Menu {
    type Value = Menu;

    open spec fn spec_build(
        &self,
        colors: Seq<(Seq<char>, Color)>,
        borders: Seq<(Seq<char>, Border)>,
    ) -> Option<Menu> {
        match (find(colors, self.background@), find(colors, self.text@), find(borders, self.border@), find(colors, self.sbackground@), find(colors, self.stext@)) {
            (Some(background), Some(text), Some(border), Some(sbackground), Some(stext)) => Some(Menu { background: background as usize, text: text as usize, border: border as usize, sbackground: sbackground as usize, stext: stext as usize }),
            _ => None,
        }
    }

    fn build(&self, colors: &Table<Color>, borders: &Table<Border>) -> (r: Option<Menu>) {
        let background = match colors.find(&self.background) {
            Some(h) => h,
            None => {
                return None;
            },
        };
        let text = match colors.find(&self.text) {
            Some(h) => h,
            None => {
                return None;
            },
        };
        let border = match borders.find(&self.border) {
            Some(h) => h,
            None => {
                return None;
            },
        };
        let sbackground = match colors.find(&self.sbackground) {
            Some(h) => h,
            None => {
                return None;
            },
        };
        let stext = match colors.find(&self.stext) {
            Some(h) => h,
            None => {
                return None;
            },
        };
        Some(Menu { background, text, border, sbackground, stext })
    }
}

/// A resolved pick list style: the active and hovered states in that order, and the menu.
pub type Picklist = Composite<State, Menu>;

} // verus!
