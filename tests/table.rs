use painter::color::Color;
use painter::table::Table;
use painter::theme::Theme;

#[test]
fn insert_appends_new_names_and_replaces_in_place() {
    let mut t: Table<Color> = Table::new();
    assert_eq!(t.len(), 0);
    t.insert("a".to_string(), Color::red());
    t.insert("b".to_string(), Color::blue());
    t.insert("a".to_string(), Color::white());
    assert_eq!(t.len(), 2);
    assert_eq!(t.find(&"a".to_string()), Some(0));
    assert_eq!(t.find(&"b".to_string()), Some(1));
    assert_eq!(t.find(&"c".to_string()), None);
    assert_eq!(*t.value(0), Color::white());
    assert_eq!(t.name(1), "b");
    assert_eq!(t.get(&"b".to_string()), Some(&Color::blue()));
    assert_eq!(t.get(&"c".to_string()), None);
}

#[test]
fn new_theme_is_empty() {
    let t = Theme::new();
    assert_eq!(t.name, "");
    assert_eq!(t.description, "");
    assert_eq!(t.color.len(), 0);
    assert_eq!(t.border.len(), 0);
    assert_eq!(t.button.len(), 0);
    assert_eq!(t.checkbox.len(), 0);
    assert_eq!(t.container.len(), 0);
    assert_eq!(t.panegrid.len(), 0);
    assert_eq!(t.picklist.len(), 0);
    assert_eq!(t.progressbar.len(), 0);
    assert_eq!(t.radio.len(), 0);
    assert_eq!(t.scrollable.len(), 0);
    assert_eq!(t.textinput.len(), 0);
    assert_eq!(t.tooltip.len(), 0);
}
