//! A raw theme: every definition of one load, keyed by name.

use vstd::prelude::*;
use crate::border::serial::Border;
use crate::button::serial::Button;
use crate::checkbox::serial::Checkbox;
use crate::color::Color;
use crate::container::serial::Container;
use crate::panegrid::serial::PaneGrid;
use crate::picklist::serial::Picklist;
use crate::progressbar::serial::ProgressBar;
use crate::radio::serial::Radio;
use crate::scrollable::serial::Scrollable;
use crate::textinput::serial::TextInput;
use crate::tooltip::serial::Tooltip;

verus! {

/// The definitions of a theme, each category as a list of named entries.
pub struct Theme {
    /// Name of this theme.
    pub name: String,
    /// Brief description of this theme.
    pub description: String,
    /// Border definitions.
    pub border: Vec<(String, Border)>,
    /// Button definitions.
    pub button: Vec<(String, Button)>,
    /// Checkbox definitions.
    pub checkbox: Vec<(String, Checkbox)>,
    /// Colors.
    pub color: Vec<(String, Color)>,
    /// Container definitions.
    pub container: Vec<(String, Container)>,
    /// Pane grid definitions.
    pub panegrid: Vec<(String, PaneGrid)>,
    /// Pick list definitions.
    pub picklist: Vec<(String, Picklist)>,
    /// Progress bar definitions.
    pub progressbar: Vec<(String, ProgressBar)>,
    /// Radio button definitions.
    pub radio: Vec<(String, Radio)>,
    /// Scrollbar definitions.
    pub scrollable: Vec<(String, Scrollable)>,
    /// Text input definitions.
    pub textinput: Vec<(String, TextInput)>,
    /// Tooltip definitions.
    pub tooltip: Vec<(String, Tooltip)>,
}

impl Theme {
    /// The number of definitions over all categories.
    pub open spec fn size(&self) -> nat {
        self.border@.len() + self.button@.len() + self.checkbox@.len() + self.color@.len()
            + self.container@.len() + self.panegrid@.len() + self.picklist@.len()
            + self.progressbar@.len() + self.radio@.len() + self.scrollable@.len()
            + self.textinput@.len() + self.tooltip@.len()
    }
}

} // verus!
