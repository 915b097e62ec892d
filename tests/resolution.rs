use painter::border::serial::Border as BorderDef;
use painter::button;
use painter::color::{Color, OPAQUE};
use painter::resolve::{resolve, Component, CompositeDef, Fallback, NoExtra, ResolveError, MAX_PASSES};
use painter::table::Table;
use painter::theme::serial::Theme as RawTheme;
use painter::theme::Theme;

fn raw_theme() -> RawTheme {
    RawTheme {
        name: "test".to_string(),
        description: "a theme for tests".to_string(),
        border: Vec::new(),
        button: Vec::new(),
        checkbox: Vec::new(),
        color: Vec::new(),
        container: Vec::new(),
        panegrid: Vec::new(),
        picklist: Vec::new(),
        progressbar: Vec::new(),
        radio: Vec::new(),
        scrollable: Vec::new(),
        textinput: Vec::new(),
        tooltip: Vec::new(),
    }
}

/// Colors "black" and "white", and a border "thin" in black.
fn with_leaves() -> RawTheme {
    let mut raw = raw_theme();
    raw.color.push(("black".to_string(), Color::black()));
    raw.color.push(("white".to_string(), Color::white()));
    raw.border.push((
        "thin".to_string(),
        BorderDef { color: "black".to_string(), radius: 0, width: 0x3F80_0000 },
    ));
    raw
}

fn state(background: &str, text: &str, border: &str) -> Component<button::serial::State> {
    Component::Defined(button::serial::State {
        background: background.to_string(),
        text: text.to_string(),
        border: border.to_string(),
    })
}

fn inherit(name: &str) -> Component<button::serial::State> {
    Component::Inherited(name.to_string())
}

fn button_def(states: Vec<Component<button::serial::State>>) -> button::serial::Button {
    CompositeDef { states, extra: Component::Defined(NoExtra) }
}

fn all_inherit(name: &str) -> button::serial::Button {
    button_def(vec![inherit(name), inherit(name), inherit(name), inherit(name)])
}

fn inline_button() -> button::serial::Button {
    button_def(vec![
        state("white", "black", "thin"),
        state("black", "white", "thin"),
        Component::Unset,
        Component::Unset,
    ])
}

fn has_button(t: &Theme, name: &str) -> bool {
    t.button.find(&name.to_string()).is_some()
}

#[test]
fn colors_and_borders_resolve_in_tiers() {
    let (t, failed) = Theme::load(&with_leaves());
    assert_eq!(failed, 0);
    assert_eq!(t.color.len(), 2);
    let border = t.border.get(&"thin".to_string()).unwrap();
    assert_eq!(border.color, t.color.find(&"black".to_string()).unwrap());
    assert_eq!(border.width, 0x3F80_0000);
    assert_eq!(*t.color.value(border.color), Color::black());
    assert_eq!(t.name, "test");
    assert_eq!(t.description, "a theme for tests");
}

#[test]
fn border_with_missing_color_fails() {
    let mut raw = with_leaves();
    raw.border.push((
        "red".to_string(),
        BorderDef { color: "red".to_string(), radius: 0, width: 0 },
    ));
    let (t, failed) = Theme::load(&raw);
    assert_eq!(failed, 1);
    assert!(t.border.get(&"red".to_string()).is_none());
    assert!(t.border.get(&"thin".to_string()).is_some());
}

#[test]
fn loading_twice_gives_the_same_registry() {
    let mut raw = with_leaves();
    raw.button.push(("a".to_string(), all_inherit("b")));
    raw.button.push(("b".to_string(), inline_button()));
    raw.button.push(("c".to_string(), all_inherit("d")));
    let (t1, f1) = Theme::load(&raw);
    let (t2, f2) = Theme::load(&raw);
    assert_eq!(f1, f2);
    assert_eq!(t1.button.len(), t2.button.len());
    for i in 0..t1.button.len() {
        assert_eq!(t1.button.name(i), t2.button.name(i));
        assert_eq!(t1.button.value(i).states, t2.button.value(i).states);
    }
    assert_eq!(t1.color.len(), t2.color.len());
    assert_eq!(t1.border.len(), t2.border.len());
}

#[test]
fn forward_reference_resolves() {
    let mut raw = with_leaves();
    raw.button.push(("a".to_string(), all_inherit("b")));
    raw.button.push(("b".to_string(), inline_button()));
    let (t, failed) = Theme::load(&raw);
    assert_eq!(failed, 0);
    let a = t.button.get(&"a".to_string()).unwrap();
    let b = t.button.get(&"b".to_string()).unwrap();
    assert_eq!(a.states, b.states);
}

/// Names `link0` .. `link{depth-1}`: `link0` is inline, each other link
/// inherits from the one before. Listed deepest first, so one sweep resolves
/// one more link.
fn chain(depth: usize) -> RawTheme {
    let mut raw = with_leaves();
    for i in (0..depth).rev() {
        let def = if i == 0 { inline_button() } else { all_inherit(&format!("link{}", i - 1)) };
        raw.button.push((format!("link{}", i), def));
    }
    raw
}

#[test]
fn chain_as_deep_as_the_pass_bound_resolves() {
    let (t, failed) = Theme::load(&chain(MAX_PASSES));
    assert_eq!(failed, 0);
    for i in 0..MAX_PASSES {
        assert!(has_button(&t, &format!("link{}", i)));
    }
}

#[test]
fn chain_one_deeper_than_the_pass_bound_leaves_the_deepest_out() {
    let (t, failed) = Theme::load(&chain(MAX_PASSES + 1));
    assert_eq!(failed, 1);
    for i in 0..MAX_PASSES {
        assert!(has_button(&t, &format!("link{}", i)));
    }
    assert!(!has_button(&t, &format!("link{}", MAX_PASSES)));
}

#[test]
fn cycle_never_resolves() {
    let mut raw = with_leaves();
    raw.button.push(("a".to_string(), all_inherit("b")));
    raw.button.push(("b".to_string(), all_inherit("a")));
    let (t, failed) = Theme::load(&raw);
    assert!(failed >= 2);
    assert_eq!(failed, 2);
    assert!(!has_button(&t, "a"));
    assert!(!has_button(&t, "b"));
}

#[test]
fn unset_states_copy_the_active_state() {
    let mut raw = with_leaves();
    raw.button.push((
        "x".to_string(),
        button_def(vec![state("white", "black", "thin"), Component::Unset, Component::Unset, Component::Unset]),
    ));
    let (t, failed) = Theme::load(&raw);
    assert_eq!(failed, 0);
    let x = t.button.get(&"x".to_string()).unwrap();
    assert_eq!(x.states.len(), 4);
    for i in 1..4 {
        assert_eq!(x.states[i], x.states[0]);
    }
    let white = t.color.find(&"white".to_string()).unwrap();
    assert_eq!(x.states[0].background, white);
}

#[test]
fn flat_fallback_uses_the_first_set_state() {
    let mut raw = with_leaves();
    raw.button.push((
        "x".to_string(),
        button_def(vec![Component::Unset, Component::Unset, state("black", "white", "thin"), Component::Unset]),
    ));
    let (t, _) = Theme::load(&raw);
    let x = t.button.get(&"x".to_string()).unwrap();
    let black = t.color.find(&"black".to_string()).unwrap();
    for i in 0..4 {
        assert_eq!(x.states[i].background, black);
    }
}

#[test]
fn all_unset_entry_is_absent() {
    let mut raw = with_leaves();
    raw.button.push((
        "x".to_string(),
        button_def(vec![Component::Unset, Component::Unset, Component::Unset, Component::Unset]),
    ));
    let (t, failed) = Theme::load(&raw);
    assert_eq!(failed, 1);
    assert!(!has_button(&t, "x"));
}

#[test]
fn missing_leaf_fails_permanently() {
    let mut raw = with_leaves();
    raw.button.push((
        "x".to_string(),
        button_def(vec![state("no-such-color", "black", "thin"), Component::Unset, Component::Unset, Component::Unset]),
    ));
    let (t, failed) = Theme::load(&raw);
    assert_eq!(failed, 1);
    assert!(!has_button(&t, "x"));
}

#[test]
fn shared_color_has_one_handle() {
    let mut raw = with_leaves();
    raw.button.push(("a".to_string(), inline_button()));
    raw.button.push((
        "b".to_string(),
        button_def(vec![state("white", "white", "thin"), Component::Unset, Component::Unset, Component::Unset]),
    ));
    let (t, _) = Theme::load(&raw);
    let a = t.button.get(&"a".to_string()).unwrap();
    let b = t.button.get(&"b".to_string()).unwrap();
    assert_eq!(a.states[0].background, b.states[0].background);
    assert_eq!(*t.color.value(a.states[0].background), Color::white());
}

#[test]
fn later_definition_of_a_name_replaces_the_earlier() {
    let mut raw = with_leaves();
    raw.color.push(("black".to_string(), Color::new(1, 2, 3, OPAQUE)));
    let (t, failed) = Theme::load(&raw);
    assert_eq!(failed, 0);
    assert_eq!(t.color.len(), 2);
    assert_eq!(*t.color.get(&"black".to_string()).unwrap(), Color::new(1, 2, 3, OPAQUE));
}

#[test]
fn parse_into_a_loaded_theme_keeps_earlier_entries() {
    let mut raw = with_leaves();
    raw.button.push(("a".to_string(), inline_button()));
    let mut t = Theme::new();
    assert_eq!(t.parse(&raw), Ok(0));
    let mut second = with_leaves();
    second.button.push(("b".to_string(), all_inherit("a")));
    assert_eq!(t.parse(&second), Ok(0));
    assert!(has_button(&t, "a"));
    assert!(has_button(&t, "b"));
}

#[test]
fn resolve_reports_each_error() {
    let (t, _) = Theme::load(&with_leaves());
    let own: Table<button::Button> = Table::new();
    let missing = button_def(vec![state("none", "black", "thin"), Component::Unset, Component::Unset, Component::Unset]);
    let inherited = all_inherit("nobody");
    let unset = button_def(vec![Component::Unset, Component::Unset, Component::Unset, Component::Unset]);
    assert_eq!(
        resolve(&missing, Fallback::Flat, &t.color, &t.border, &own).err(),
        Some(ResolveError::MissingLeafReference)
    );
    assert_eq!(
        resolve(&inherited, Fallback::Flat, &t.color, &t.border, &own).err(),
        Some(ResolveError::UnresolvedInheritance)
    );
    assert_eq!(
        resolve(&unset, Fallback::Flat, &t.color, &t.border, &own).err(),
        Some(ResolveError::AllStatesUnset)
    );
}
