use painter::border::serial::Border as BorderDef;
use painter::checkbox;
use painter::color::{Color, OPAQUE};
use painter::container;
use painter::panegrid;
use painter::picklist;
use painter::progressbar;
use painter::resolve::{fallback, Component, CompositeDef, Fallback, NoExtra};
use painter::scrollable;
use painter::textinput;
use painter::theme::serial::Theme as RawTheme;
use painter::theme::Theme;
use painter::tooltip;

fn leaves() -> RawTheme {
    let mut raw = RawTheme {
        name: String::new(),
        description: String::new(),
        border: Vec::new(),
        button: Vec::new(),
        checkbox: Vec::new(),
        color: Vec::new(),
        container: Vec::new(),
        panegrid: Vec::new(),
        picklist: Vec::new(),
        progressbar: Vec::new(),
        radio: Vec::new(),
        scrollable: Vec::new(),
        textinput: Vec::new(),
        tooltip: Vec::new(),
    };
    raw.color.push(("red".to_string(), Color::red()));
    raw.color.push(("blue".to_string(), Color::blue()));
    raw.color.push(("half".to_string(), Color::new(10, 20, 30, 0x3F00_0000)));
    raw.border.push((
        "edge".to_string(),
        BorderDef { color: "blue".to_string(), radius: 0x4000_0000, width: OPAQUE },
    ));
    raw
}

fn handle(t: &Theme, name: &str) -> usize {
    t.color.find(&name.to_string()).unwrap()
}

#[test]
fn fallback_flat_and_chained() {
    let s = vec![Some(1u8), None, Some(3u8), None];
    assert_eq!(fallback(&s, Fallback::Flat), Some(vec![1, 1, 3, 1]));
    assert_eq!(fallback(&s, Fallback::Chained), Some(vec![1, 1, 3, 3]));
    let t = vec![None, Some(2u8), None];
    assert_eq!(fallback(&t, Fallback::Flat), Some(vec![2, 2, 2]));
    assert_eq!(fallback(&t, Fallback::Chained), Some(vec![2, 2, 2]));
    let none: Vec<Option<u8>> = vec![None, None];
    assert_eq!(fallback(&none, Fallback::Flat), None);
    assert_eq!(fallback(&none, Fallback::Chained), None);
}

#[test]
fn leaf_styles_resolve() {
    let mut raw = leaves();
    raw.container.push(("box".to_string(), container::serial::Container { color: "red".to_string(), border: "edge".to_string() }));
    raw.tooltip.push((
        "tip".to_string(),
        tooltip::serial::Tooltip { background: "blue".to_string(), text: "red".to_string(), border: "edge".to_string() },
    ));
    raw.progressbar.push((
        "bar".to_string(),
        progressbar::serial::ProgressBar { background: "half".to_string(), bar: "red".to_string(), radius: 7 },
    ));
    raw.container.push(("bad".to_string(), container::serial::Container { color: "red".to_string(), border: "none".to_string() }));
    let (t, failed) = Theme::load(&raw);
    assert_eq!(failed, 1);
    let b = t.container.get(&"box".to_string()).unwrap();
    assert_eq!(b.color, handle(&t, "red"));
    assert_eq!(b.border, t.border.find(&"edge".to_string()).unwrap());
    let tip = t.tooltip.get(&"tip".to_string()).unwrap();
    assert_eq!(tip.background, handle(&t, "blue"));
    assert_eq!(tip.text, handle(&t, "red"));
    let bar = t.progressbar.get(&"bar".to_string()).unwrap();
    assert_eq!(bar.background, handle(&t, "half"));
    assert_eq!(bar.radius, 7);
    assert_eq!(t.color.value(bar.background).a, 0x3F00_0000);
    assert!(t.container.get(&"bad".to_string()).is_none());
}

fn scroll_state(color: &str) -> Component<scrollable::serial::State> {
    Component::Defined(scrollable::serial::State {
        color: color.to_string(),
        border: "edge".to_string(),
        scolor: color.to_string(),
        sborder: "edge".to_string(),
    })
}

#[test]
fn scrollbar_dragging_falls_back_to_hovered() {
    let mut raw = leaves();
    raw.scrollable.push((
        "s".to_string(),
        CompositeDef { states: vec![scroll_state("red"), scroll_state("blue"), Component::Unset], extra: Component::Defined(NoExtra) },
    ));
    let (t, failed) = Theme::load(&raw);
    assert_eq!(failed, 0);
    let s = t.scrollable.get(&"s".to_string()).unwrap();
    assert_eq!(s.states[2].color, handle(&t, "blue"));
    assert_eq!(s.states[0].color, handle(&t, "red"));
}

fn pick_state(background: &str) -> Component<picklist::serial::State> {
    Component::Defined(picklist::serial::State {
        background: background.to_string(),
        text: "red".to_string(),
        placeholder: "half".to_string(),
        border: "edge".to_string(),
        handle: "blue".to_string(),
    })
}

fn menu() -> picklist::serial::Menu {
    picklist::serial::Menu {
        background: "blue".to_string(),
        text: "red".to_string(),
        border: "edge".to_string(),
        sbackground: "red".to_string(),
        stext: "blue".to_string(),
    }
}

#[test]
fn picklist_menu_is_inherited() {
    let mut raw = leaves();
    raw.picklist.push((
        "child".to_string(),
        CompositeDef { states: vec![Component::Inherited("base".to_string()), Component::Unset], extra: Component::Inherited("base".to_string()) },
    ));
    raw.picklist.push((
        "base".to_string(),
        CompositeDef { states: vec![pick_state("red"), pick_state("blue")], extra: Component::Defined(menu()) },
    ));
    raw.picklist.push((
        "menuless".to_string(),
        CompositeDef { states: vec![pick_state("red"), Component::Unset], extra: Component::Unset },
    ));
    let (t, failed) = Theme::load(&raw);
    assert_eq!(failed, 1);
    let child = t.picklist.get(&"child".to_string()).unwrap();
    let base = t.picklist.get(&"base".to_string()).unwrap();
    assert_eq!(child.extra, base.extra);
    assert_eq!(child.extra.sbackground, handle(&t, "red"));
    assert_eq!(child.states[0], base.states[0]);
    assert_eq!(child.states[1], base.states[0]);
    assert!(t.picklist.get(&"menuless".to_string()).is_none());
}

#[test]
fn panegrid_needs_its_region() {
    let mut raw = leaves();
    let line = Component::Defined(panegrid::serial::State { color: "red".to_string(), width: OPAQUE });
    let region = panegrid::serial::Hovered { background: "blue".to_string(), border: "edge".to_string() };
    raw.panegrid.push((
        "grid".to_string(),
        CompositeDef { states: vec![line, Component::Unset], extra: Component::Defined(region) },
    ));
    let line2 = Component::Defined(panegrid::serial::State { color: "red".to_string(), width: OPAQUE });
    raw.panegrid.push((
        "open".to_string(),
        CompositeDef { states: vec![Component::Unset, line2], extra: Component::Unset },
    ));
    let (t, failed) = Theme::load(&raw);
    assert_eq!(failed, 1);
    let g = t.panegrid.get(&"grid".to_string()).unwrap();
    assert_eq!(g.states[1].color, handle(&t, "red"));
    assert_eq!(g.states[1].width, OPAQUE);
    assert_eq!(g.extra.background, handle(&t, "blue"));
    assert!(t.panegrid.get(&"open".to_string()).is_none());
}

#[test]
fn textinput_disabled_inherits_its_own_state() {
    let mut raw = leaves();
    let st = |bg: &str| {
        Component::Defined(textinput::serial::State { background: bg.to_string(), border: "edge".to_string(), icon: "red".to_string() })
    };
    let colors = textinput::serial::Colors {
        placeholder: "half".to_string(),
        value: "red".to_string(),
        selection: "blue".to_string(),
        disabled: "half".to_string(),
    };
    raw.textinput.push((
        "base".to_string(),
        CompositeDef { states: vec![st("red"), st("red"), st("red"), st("blue")], extra: Component::Defined(colors) },
    ));
    raw.textinput.push((
        "child".to_string(),
        CompositeDef {
            states: vec![Component::Unset, Component::Unset, Component::Unset, Component::Inherited("base".to_string())],
            extra: Component::Inherited("base".to_string()),
        },
    ));
    let (t, failed) = Theme::load(&raw);
    assert_eq!(failed, 0);
    let child = t.textinput.get(&"child".to_string()).unwrap();
    assert_eq!(child.states[3].background, handle(&t, "blue"));
    assert_eq!(child.states[0].background, handle(&t, "blue"));
    assert_eq!(child.extra.selection, handle(&t, "blue"));
}

#[test]
fn checkbox_label_color_is_optional() {
    let mut raw = leaves();
    let with_label = checkbox::serial::CheckboxState {
        background: "red".to_string(),
        checkmark: "blue".to_string(),
        textcolor: Some("half".to_string()),
        border: "edge".to_string(),
    };
    let without = checkbox::serial::CheckboxState {
        background: "red".to_string(),
        checkmark: "blue".to_string(),
        textcolor: None,
        border: "edge".to_string(),
    };
    let missing = checkbox::serial::CheckboxState {
        background: "red".to_string(),
        checkmark: "blue".to_string(),
        textcolor: Some("green".to_string()),
        border: "edge".to_string(),
    };
    raw.checkbox.push(("a".to_string(), CompositeDef { states: vec![Component::Defined(with_label), Component::Defined(without)], extra: Component::Defined(NoExtra) }));
    raw.checkbox.push(("b".to_string(), CompositeDef { states: vec![Component::Defined(missing), Component::Unset], extra: Component::Defined(NoExtra) }));
    let (t, failed) = Theme::load(&raw);
    assert_eq!(failed, 1);
    let a = t.checkbox.get(&"a".to_string()).unwrap();
    assert_eq!(a.states[0].textcolor, Some(handle(&t, "half")));
    assert_eq!(a.states[1].textcolor, None);
    assert!(t.checkbox.get(&"b".to_string()).is_none());
}

#[test]
fn radio_resolves_like_checkbox() {
    let mut raw = leaves();
    let st = painter::radio::serial::RadioState {
        background: "blue".to_string(),
        dotcolor: "red".to_string(),
        textcolor: None,
        border: "edge".to_string(),
    };
    raw.radio.push(("r".to_string(), CompositeDef { states: vec![Component::Unset, Component::Defined(st)], extra: Component::Defined(NoExtra) }));
    let (t, failed) = Theme::load(&raw);
    assert_eq!(failed, 0);
    let r = t.radio.get(&"r".to_string()).unwrap();
    assert_eq!(r.states[0].dotcolor, handle(&t, "red"));
    assert_eq!(r.states[0], r.states[1]);
}

#[test]
fn color_constructors() {
    assert_eq!(Color::default(), Color::black());
    assert_eq!(Color::new(255, 0, 0, OPAQUE), Color::red());
    assert_eq!(Color::white().g, 255);
    assert_eq!(Color::blue().b, 255);
    assert_eq!(OPAQUE, 1.0f32.to_bits());
}
