use ccf_gpui_widgets::theme::Theme;
use ccf_gpui_widgets::widgets::checkbox::{Checkbox, CheckboxEvent};
use ccf_gpui_widgets::widgets::checkbox_group::{CheckboxGroup, CheckboxGroupEvent};
use ccf_gpui_widgets::widgets::collapsible::{Collapsible, CollapsibleEvent};
use ccf_gpui_widgets::widgets::dropdown::{Dropdown, DropdownEvent};

fn strings(v: &[&str]) -> Vec<String> {
    v.iter().map(|s| s.to_string()).collect()
}

fn change_of(e: Option<DropdownEvent>) -> Option<String> {
    match e {
        Some(DropdownEvent::Change(s)) => Some(s),
        _ => None,
    }
}

#[test]
fn checkbox_toggles_and_announces_changes() {
    let mut c = Checkbox::new().label("Accept").theme(Theme::dark());
    assert!(!c.is_checked());
    assert_eq!(c.set_checked(false), None);
    assert_eq!(c.set_checked(true), Some(CheckboxEvent::Change(true)));
    assert_eq!(c.toggle(), CheckboxEvent::Change(false));
    assert_eq!(c.key_down("space"), Some(CheckboxEvent::Change(true)));
    assert_eq!(c.key_down("enter"), Some(CheckboxEvent::Change(false)));
    assert_eq!(c.key_down("a"), None);
    assert_eq!(c.click(), Some(CheckboxEvent::Change(true)));
    c.set_enabled(false);
    assert!(!c.is_enabled());
    assert_eq!(c.key_down("space"), None);
    assert_eq!(c.click(), None);
    assert!(c.is_checked());
    c.set_label("Other");
    c.clear_label();
    let d = Checkbox::new().with_checked(true).with_enabled(false);
    assert!(d.is_checked() && !d.is_enabled());
}

#[test]
fn collapsible_reacts_only_when_interactive() {
    let mut s = Collapsible::new("Advanced");
    assert_eq!(s.title(), "Advanced");
    assert!(!s.is_collapsed() && s.is_enabled() && s.is_collapsible());
    assert_eq!(s.key_down("down"), None);
    assert_eq!(s.key_down("up"), Some(CollapsibleEvent::Change(true)));
    assert_eq!(s.key_down("up"), None);
    assert_eq!(s.key_down("space"), Some(CollapsibleEvent::Change(false)));
    assert_eq!(s.click(), Some(CollapsibleEvent::Change(true)));
    assert_eq!(s.set_collapsed(true), None);
    assert_eq!(s.set_collapsed(false), Some(CollapsibleEvent::Change(false)));
    assert_eq!(s.toggle(), CollapsibleEvent::Change(true));
    s.set_collapsible(false);
    assert_eq!(s.key_down("enter"), None);
    assert_eq!(s.click(), None);
    s.set_collapsible(true);
    s.set_enabled(false);
    assert_eq!(s.click(), None);
    let t = Collapsible::new("x").with_collapsed(true).collapsible(false).with_enabled(false).theme(Theme::light());
    assert!(t.is_collapsed() && !t.is_collapsible() && !t.is_enabled());
}

#[test]
fn dropdown_selection_stops_at_the_ends() {
    let mut d = Dropdown::new().choices(strings(&["a", "b", "c"]));
    assert_eq!(d.selected(), "a");
    assert_eq!(d.select_previous().is_none(), true);
    assert_eq!(change_of(d.select_next()), Some("b".to_string()));
    assert_eq!(change_of(d.select_by_offset(5)), Some("c".to_string()));
    assert_eq!(d.selected_index(), 2);
    assert!(d.select_next().is_none());
    assert_eq!(change_of(d.select_by_offset(-10)), Some("a".to_string()));
    assert_eq!(change_of(d.set_selected_index(99)), Some("c".to_string()));
    assert!(d.set_selected_index(2).is_none());
}

#[test]
fn dropdown_builders_and_menu() {
    let d = Dropdown::new().choices(strings(&["x", "y"])).with_selected_index(7);
    assert_eq!(d.selected_index(), 1);
    let d = d.selected_value("x");
    assert_eq!(d.selected_index(), 0);
    let mut d = d.selected_value("nope").theme(Theme::dark());
    assert_eq!(d.selected_index(), 0);
    assert!(!d.is_open());
    assert!(matches!(d.toggle(), DropdownEvent::Open));
    assert!(d.is_open());
    let (a, b) = d.pick(1);
    assert_eq!(change_of(Some(a)), Some("y".to_string()));
    assert!(matches!(b, DropdownEvent::Close));
    assert!(!d.is_open());
    assert!(d.close().is_none());
    d.toggle();
    assert!(matches!(d.close(), Some(DropdownEvent::Close)));
    d.toggle();
    d.focus_lost();
    assert!(!d.is_open());
    d.toggle();
    assert!(matches!(d.press_outside(), DropdownEvent::Close));
    assert!(matches!(d.toggle(), DropdownEvent::Open));
    assert!(matches!(d.toggle(), DropdownEvent::Close));
    let empty = Dropdown::new();
    assert_eq!(empty.selected(), "");
}

fn selection_of(e: CheckboxGroupEvent) -> Vec<String> {
    match e {
        CheckboxGroupEvent::Change(v) => v,
    }
}

#[test]
fn checkbox_group_reports_sorted_selection() {
    let g = CheckboxGroup::new()
        .choices(strings(&["pear", "apple", "fig"]))
        .with_selected(strings(&["pear", "fig", "pear", "Apple"]));
    assert_eq!(g.get_selected(), strings(&["Apple", "fig", "pear"]));
    assert!(g.is_selected("fig"));
    assert!(!g.is_selected("apple"));
    let mut g = g;
    assert_eq!(selection_of(g.toggle_choice("pear".to_string())), strings(&["Apple", "fig"]));
    assert_eq!(selection_of(g.toggle_choice("apple".to_string())), strings(&["Apple", "apple", "fig"]));
    assert_eq!(selection_of(g.set_selected(strings(&["é", "e", "z"]))), strings(&["e", "z", "é"]));
}

#[test]
fn checkbox_group_keyboard_and_clicks() {
    let mut g = CheckboxGroup::new().choices(strings(&["a", "b", "c"]));
    assert_eq!(g.highlight_index(), 0);
    assert!(g.key_down("up").is_none());
    assert_eq!(g.highlight_index(), 2);
    assert!(g.key_down("down").is_none());
    assert_eq!(g.highlight_index(), 0);
    assert!(g.key_down("down").is_none());
    assert_eq!(selection_of(g.key_down("space").unwrap()), strings(&["b"]));
    assert_eq!(selection_of(g.click_choice(2).unwrap()), strings(&["b", "c"]));
    assert_eq!(g.highlight_index(), 2);
    assert!(g.key_down("x").is_none());
    g.set_enabled(false);
    assert!(!g.is_enabled());
    assert!(g.key_down("space").is_none());
    assert!(g.click_choice(0).is_none());
    assert_eq!(g.get_selected(), strings(&["b", "c"]));
    let theme = Theme::dark();
    assert_eq!(g.checkbox_colors(&theme, true), (theme.disabled_text, theme.disabled_text, theme.disabled_bg));
    let g = g.with_enabled(true).theme(theme);
    assert_eq!(g.checkbox_colors(&theme, false), (theme.bg_input, theme.border_checkbox, 0));
    assert_eq!(g.checkbox_colors(&theme, true), (theme.accent, theme.border_checkbox, theme.bg_white));
}
