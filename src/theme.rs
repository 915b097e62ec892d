//! The registry of resolved styles, and the load that builds it.

pub mod serial;

use vstd::prelude::*;
use crate::border::Border;
use crate::button::Button;
use crate::checkbox::Checkbox;
use crate::color::Color;
use crate::container::Container;
use crate::panegrid::PaneGrid;
use crate::picklist::Picklist;
use crate::progressbar::ProgressBar;
use crate::radio::Radio;
use crate::resolve::{Fallback, MAX_PASSES};
use crate::scrollable::Scrollable;
use crate::sweep::{
    resolve_leaves, spec_final_failures, spec_leaf_failures, spec_leaf_tier, spec_passes,
    spec_sweep_failures, sweep,
};
use crate::table::Table;
use crate::textinput::TextInput;
use crate::tooltip::Tooltip;

verus! {

/// The resolved styles of a theme, each category a table keyed by name.
pub struct Theme {
    /// Name of this theme.
    pub name: String,
    /// Brief description of this theme.
    pub description: String,
    /// Resolved borders.
    pub border: Table<Border>,
    /// Resolved buttons.
    pub button: Table<Button>,
    /// Resolved checkboxes.
    pub checkbox: Table<Checkbox>,
    /// Resolved colors.
    pub color: Table<Color>,
    /// Resolved containers.
    pub container: Table<Container>,
    /// Resolved pane grids.
    pub panegrid: Table<PaneGrid>,
    /// Resolved pick lists.
    pub picklist: Table<Picklist>,
    /// Resolved progress bars.
    pub progressbar: Table<ProgressBar>,
    /// Resolved radio buttons.
    pub radio: Table<Radio>,
    /// Resolved scrollbars.
    pub scrollable: Table<Scrollable>,
    /// Resolved text inputs.
    pub textinput: Table<TextInput>,
    /// Resolved tooltips.
    pub tooltip: Table<Tooltip>,
}

/// The model of a registry: its name, description and the view of each table.
pub struct ThemeView {
    /// Name of the theme.
    pub name: Seq<char>,
    /// Description of the theme.
    pub description: Seq<char>,
    /// The borders.
    pub border: Seq<(Seq<char>, <Border as View>::V)>,
    /// The buttons.
    pub button: Seq<(Seq<char>, <Button as View>::V)>,
    /// The checkboxes.
    pub checkbox: Seq<(Seq<char>, <Checkbox as View>::V)>,
    /// The colors.
    pub color: Seq<(Seq<char>, <Color as View>::V)>,
    /// The containers.
    pub container: Seq<(Seq<char>, <Container as View>::V)>,
    /// The pane grids.
    pub panegrid: Seq<(Seq<char>, <PaneGrid as View>::V)>,
    /// The pick lists.
    pub picklist: Seq<(Seq<char>, <Picklist as View>::V)>,
    /// The progress bars.
    pub progressbar: Seq<(Seq<char>, <ProgressBar as View>::V)>,
    /// The radio buttons.
    pub radio: Seq<(Seq<char>, <Radio as View>::V)>,
    /// The scrollbars.
    pub scrollable: Seq<(Seq<char>, <Scrollable as View>::V)>,
    /// The text inputs.
    pub textinput: Seq<(Seq<char>, <TextInput as View>::V)>,
    /// The tooltips.
    pub tooltip: Seq<(Seq<char>, <Tooltip as View>::V)>,
}

impl View for Theme {
    type V = ThemeView;

    open spec fn view(&self) -> ThemeView {
        ThemeView {
            name: self.name@,
            description: self.description@,
            border: self.border@,
            button: self.button@,
            checkbox: self.checkbox@,
            color: self.color@,
            container: self.container@,
            panegrid: self.panegrid@,
            picklist: self.picklist@,
            progressbar: self.progressbar@,
            radio: self.radio@,
            scrollable: self.scrollable@,
            textinput: self.textinput@,
            tooltip: self.tooltip@,
        }
    }
}

/// The model of an empty registry.
pub open spec fn empty_view() -> ThemeView {
    ThemeView {
        name: Seq::empty(),
        description: Seq::empty(),
        border: Seq::empty(),
        button: Seq::empty(),
        checkbox: Seq::empty(),
        color: Seq::empty(),
        container: Seq::empty(),
        panegrid: Seq::empty(),
        picklist: Seq::empty(),
        progressbar: Seq::empty(),
        radio: Seq::empty(),
        scrollable: Seq::empty(),
        textinput: Seq::empty(),
        tooltip: Seq::empty(),
    }
}

/// The colors after loading `raw` into a registry modelled by `t`.
pub open spec fn loaded_colors(raw: serial::Theme, t: ThemeView) -> Seq<(Seq<char>, Color)> {
    spec_leaf_tier(raw.color@, Seq::empty(), Seq::empty(), t.color)
}

/// The borders after loading `raw` into `t`: they depend on colors alone.
pub open spec fn loaded_borders(raw: serial::Theme, t: ThemeView) -> Seq<(Seq<char>, Border)> {
    spec_leaf_tier(raw.border@, loaded_colors(raw, t), Seq::empty(), t.border)
}

/// The registry after loading `raw` into `t`. Leaf tiers come first, each
/// after the ones it depends on; each composite category then gets
/// `MAX_PASSES` sweeps. Scrollbars chain dragging to hovered to active; every
/// other composite category falls back on its first set state.
pub open spec fn spec_load(raw: serial::Theme, t: ThemeView) -> ThemeView {
    let c = loaded_colors(raw, t);
    let b = loaded_borders(raw, t);
    ThemeView {
        name: raw.name@,
        description: raw.description@,
        color: c,
        border: b,
        progressbar: spec_leaf_tier(raw.progressbar@, c, b, t.progressbar),
        container: spec_leaf_tier(raw.container@, c, b, t.container),
        tooltip: spec_leaf_tier(raw.tooltip@, c, b, t.tooltip),
        button: spec_passes(MAX_PASSES as nat, raw.button@, Fallback::Flat, c, b, t.button),
        panegrid: spec_passes(MAX_PASSES as nat, raw.panegrid@, Fallback::Flat, c, b, t.panegrid),
        picklist: spec_passes(MAX_PASSES as nat, raw.picklist@, Fallback::Flat, c, b, t.picklist),
        scrollable: spec_passes(MAX_PASSES as nat, raw.scrollable@, Fallback::Chained, c, b, t.scrollable),
        textinput: spec_passes(MAX_PASSES as nat, raw.textinput@, Fallback::Flat, c, b, t.textinput),
        checkbox: spec_passes(MAX_PASSES as nat, raw.checkbox@, Fallback::Flat, c, b, t.checkbox),
        radio: spec_passes(MAX_PASSES as nat, raw.radio@, Fallback::Flat, c, b, t.radio),
    }
}

/// The number of failures that loading `raw` into `t` reports: every leaf
/// definition that did not build, and every composite definition that still
/// failed in the last sweep.
pub open spec fn load_failures(raw: serial::Theme, t: ThemeView) -> nat {
    let c = loaded_colors(raw, t);
    let b = loaded_borders(raw, t);
    spec_leaf_failures(raw.color@, Seq::empty(), Seq::empty())
        + spec_leaf_failures(raw.border@, c, Seq::empty())
        + spec_leaf_failures(raw.progressbar@, c, b)
        + spec_leaf_failures(raw.container@, c, b)
        + spec_leaf_failures(raw.tooltip@, c, b)
        + spec_final_failures(MAX_PASSES as nat, raw.button@, Fallback::Flat, c, b, t.button)
        + spec_final_failures(MAX_PASSES as nat, raw.panegrid@, Fallback::Flat, c, b, t.panegrid)
        + spec_final_failures(MAX_PASSES as nat, raw.picklist@, Fallback::Flat, c, b, t.picklist)
        + spec_final_failures(MAX_PASSES as nat, raw.scrollable@, Fallback::Chained, c, b, t.scrollable)
        + spec_final_failures(MAX_PASSES as nat, raw.textinput@, Fallback::Flat, c, b, t.textinput)
        + spec_final_failures(MAX_PASSES as nat, raw.checkbox@, Fallback::Flat, c, b, t.checkbox)
        + spec_final_failures(MAX_PASSES as nat, raw.radio@, Fallback::Flat, c, b, t.radio)
}

impl Theme {
    /// Creates an empty theme.
    pub fn new() -> (r: Theme)
        ensures
            r@ == empty_view(),
    {
        let r = Theme {
            name: String::new(),
            description: String::new(),
            border: Table::new(),
            button: Table::new(),
            checkbox: Table::new(),
            color: Table::new(),
            container: Table::new(),
            panegrid: Table::new(),
            picklist: Table::new(),
            progressbar: Table::new(),
            radio: Table::new(),
            scrollable: Table::new(),
            textinput: Table::new(),
            tooltip: Table::new(),
        };
        assert(r@ =~= empty_view());
        r
    }

    /// Resolves the definitions of `theme` into this registry and returns the
    /// number of failures. Entries that resolve replace earlier ones of the
    /// same name; nothing is removed.
    pub fn parse(&mut self, theme: &serial::Theme) -> (r: Result<usize, ()>)
        requires
            theme.size() <= usize::MAX,
        ensures
            final(self)@ == spec_load(*theme, old(self)@),
            r == Ok::<usize, ()>(load_failures(*theme, old(self)@) as usize),
            load_failures(*theme, old(self)@) <= theme.size(),
    {
        let ghost before = self@;
        self.name = theme.name.clone();
        self.description = theme.description.clone();

        // Leaves, each tier after the ones it depends on.
        let no_colors: Table<Color> = Table::new();
        let no_borders: Table<Border> = Table::new();
        let mut failed: usize = resolve_leaves(&theme.color, &no_colors, &no_borders, &mut self.color);
        failed = failed + resolve_leaves(&theme.border, &self.color, &no_borders, &mut self.border);
        failed = failed + resolve_leaves(&theme.progressbar, &self.color, &self.border, &mut self.progressbar);
        failed = failed + resolve_leaves(&theme.container, &self.color, &self.border, &mut self.container);
        failed = failed + resolve_leaves(&theme.tooltip, &self.color, &self.border, &mut self.tooltip);

        // Composites: a bounded number of sweeps, so that an entry that
        // inherits from one later in its list, or along a chain, resolves.
        let mut last_button: usize = 0;
        let mut last_panegrid: usize = 0;
        let mut last_picklist: usize = 0;
        let mut last_scrollable: usize = 0;
        let mut last_textinput: usize = 0;
        let mut last_checkbox: usize = 0;
        let mut last_radio: usize = 0;
        let mut pass: usize = 0;
        while pass < MAX_PASSES
            invariant
                pass <= MAX_PASSES,
                theme.size() <= usize::MAX,
                self.name@ == theme.name@,
                self.description@ == theme.description@,
                self.color@ == loaded_colors(*theme, before),
                self.border@ == loaded_borders(*theme, before),
                self.progressbar@ == spec_leaf_tier(theme.progressbar@, self.color@, self.border@, before.progressbar),
                self.container@ == spec_leaf_tier(theme.container@, self.color@, self.border@, before.container),
                self.tooltip@ == spec_leaf_tier(theme.tooltip@, self.color@, self.border@, before.tooltip),
                failed == spec_leaf_failures(theme.color@, Seq::empty(), Seq::empty())
                    + spec_leaf_failures(theme.border@, self.color@, Seq::empty())
                    + spec_leaf_failures(theme.progressbar@, self.color@, self.border@)
                    + spec_leaf_failures(theme.container@, self.color@, self.border@)
                    + spec_leaf_failures(theme.tooltip@, self.color@, self.border@),
                failed <= theme.color@.len() + theme.border@.len() + theme.progressbar@.len() + theme.container@.len() + theme.tooltip@.len(),
                self.button@ == spec_passes(pass as nat, theme.button@, Fallback::Flat, self.color@, self.border@, before.button),
                pass > 0 ==> last_button == spec_sweep_failures(theme.button@, Fallback::Flat, self.color@, self.border@, spec_passes((pass - 1) as nat, theme.button@, Fallback::Flat, self.color@, self.border@, before.button)),
                last_button <= theme.button@.len(),
                self.panegrid@ == spec_passes(pass as nat, theme.panegrid@, Fallback::Flat, self.color@, self.border@, before.panegrid),
                pass > 0 ==> last_panegrid == spec_sweep_failures(theme.panegrid@, Fallback::Flat, self.color@, self.border@, spec_passes((pass - 1) as nat, theme.panegrid@, Fallback::Flat, self.color@, self.border@, before.panegrid)),
                last_panegrid <= theme.panegrid@.len(),
                self.picklist@ == spec_passes(pass as nat, theme.picklist@, Fallback::Flat, self.color@, self.border@, before.picklist),
                pass > 0 ==> last_picklist == spec_sweep_failures(theme.picklist@, Fallback::Flat, self.color@, self.border@, spec_passes((pass - 1) as nat, theme.picklist@, Fallback::Flat, self.color@, self.border@, before.picklist)),
                last_picklist <= theme.picklist@.len(),
                self.scrollable@ == spec_passes(pass as nat, theme.scrollable@, Fallback::Chained, self.color@, self.border@, before.scrollable),
                pass > 0 ==> last_scrollable == spec_sweep_failures(theme.scrollable@, Fallback::Chained, self.color@, self.border@, spec_passes((pass - 1) as nat, theme.scrollable@, Fallback::Chained, self.color@, self.border@, before.scrollable)),
                last_scrollable <= theme.scrollable@.len(),
                self.textinput@ == spec_passes(pass as nat, theme.textinput@, Fallback::Flat, self.color@, self.border@, before.textinput),
                pass > 0 ==> last_textinput == spec_sweep_failures(theme.textinput@, Fallback::Flat, self.color@, self.border@, spec_passes((pass - 1) as nat, theme.textinput@, Fallback::Flat, self.color@, self.border@, before.textinput)),
                last_textinput <= theme.textinput@.len(),
                self.checkbox@ == spec_passes(pass as nat, theme.checkbox@, Fallback::Flat, self.color@, self.border@, before.checkbox),
                pass > 0 ==> last_checkbox == spec_sweep_failures(theme.checkbox@, Fallback::Flat, self.color@, self.border@, spec_passes((pass - 1) as nat, theme.checkbox@, Fallback::Flat, self.color@, self.border@, before.checkbox)),
                last_checkbox <= theme.checkbox@.len(),
                self.radio@ == spec_passes(pass as nat, theme.radio@, Fallback::Flat, self.color@, self.border@, before.radio),
                pass > 0 ==> last_radio == spec_sweep_failures(theme.radio@, Fallback::Flat, self.color@, self.border@, spec_passes((pass - 1) as nat, theme.radio@, Fallback::Flat, self.color@, self.border@, before.radio)),
                last_radio <= theme.radio@.len(),
            decreases MAX_PASSES - pass,
        {
            last_button = sweep(&theme.button, Fallback::Flat, &self.color, &self.border, &mut self.button);
            last_panegrid = sweep(&theme.panegrid, Fallback::Flat, &self.color, &self.border, &mut self.panegrid);
            last_picklist = sweep(&theme.picklist, Fallback::Flat, &self.color, &self.border, &mut self.picklist);
            last_scrollable = sweep(&theme.scrollable, Fallback::Chained, &self.color, &self.border, &mut self.scrollable);
            last_textinput = sweep(&theme.textinput, Fallback::Flat, &self.color, &self.border, &mut self.textinput);
            last_checkbox = sweep(&theme.checkbox, Fallback::Flat, &self.color, &self.border, &mut self.checkbox);
            last_radio = sweep(&theme.radio, Fallback::Flat, &self.color, &self.border, &mut self.radio);
            pass = pass + 1;
        }
        failed = failed + last_button;
        failed = failed + last_panegrid;
        failed = failed + last_picklist;
        failed = failed + last_scrollable;
        failed = failed + last_textinput;
        failed = failed + last_checkbox;
        failed = failed + last_radio;
        assert(self@ =~= spec_load(*theme, before));
        assert(failed == load_failures(*theme, before));
        Ok(failed)
    }

    /// Loads `raw` into a new registry: the registry and the number of
    /// failures.
    pub fn load(raw: &serial::Theme) -> (r: (Theme, usize))
        requires
            raw.size() <= usize::MAX,
        ensures
            r.0@ == spec_load(*raw, empty_view()),
            r.1 == load_failures(*raw, empty_view()),
    {
        let mut t = Theme::new();
        let r = t.parse(raw);
        match r {
            Ok(n) => (t, n),
            Err(()) => (t, 0),
        }
    }
}

} // verus!
