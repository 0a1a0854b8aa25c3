use ccf_gpui_widgets::theme::Theme;
use ccf_gpui_widgets::widgets::radio_group::{RadioGroup, RadioGroupEvent};
use ccf_gpui_widgets::widgets::segmented_control::{
    SegmentOption, SegmentedControl, SegmentedControlEvent,
};
use ccf_gpui_widgets::widgets::selection::{element_name_for, StringItem};
use ccf_gpui_widgets::widgets::sidebar_nav::{SidebarNav, SidebarNavEvent};

fn strings(v: &[&str]) -> Vec<String> {
    v.iter().map(|s| s.to_string()).collect()
}

fn radio_value(e: Option<RadioGroupEvent<StringItem>>) -> Option<String> {
    e.map(|RadioGroupEvent::Change(i)| i.into_value())
}

#[test]
fn string_item_names_and_conversions() {
    let item = StringItem::from("Large Size".to_string());
    assert_eq!(item.value(), "Large Size");
    assert_eq!(item.label(), "Large Size");
    assert_eq!(item.id_name(), "item_large_size");
    assert_eq!(item.to_string(), "Large Size");
    assert_eq!(item.clone(), item);
    assert_ne!(StringItem::new("a"), StringItem::new("b"));
    assert_eq!(element_name_for("x_", "A B c"), "x_a_b_c");
}

#[test]
fn radio_group_choices_and_values() {
    let mut g = RadioGroup::new().choices(strings(&["small", "medium", "large"]));
    assert_eq!(g.selected_value(), "small");
    assert_eq!(g.selected_index(), 0);
    let g2 = RadioGroup::new().choices(strings(&["a", "b"])).with_selected_value("b");
    assert_eq!(g2.selected_value(), "b");
    assert_eq!(g2.highlight_index(), 1);
    assert_eq!(radio_value(g.set_selected_value("large")), Some("large".to_string()));
    assert_eq!(g.selected_index(), 2);
    assert_eq!(radio_value(g.set_selected_value("large")), None);
    assert_eq!(radio_value(g.set_selected_value("huge")), None);
    assert_eq!(g.selected_value(), "large");
}

#[test]
fn radio_group_keyboard_wraps_and_selects() {
    let mut g = RadioGroup::new().choices(strings(&["a", "b", "c"])).theme(Theme::dark());
    assert_eq!(radio_value(g.key_down("up")), Some("c".to_string()));
    assert_eq!(radio_value(g.key_down("down")), Some("a".to_string()));
    assert_eq!(radio_value(g.key_down("down")), Some("b".to_string()));
    assert_eq!(radio_value(g.key_down("space")), None);
    assert_eq!(radio_value(g.key_down("x")), None);
    assert_eq!(radio_value(g.click_item(2)), Some("c".to_string()));
    assert_eq!(g.highlight_index(), 2);
    g.set_enabled(false);
    assert!(!g.is_enabled());
    assert_eq!(radio_value(g.key_down("up")), None);
    assert_eq!(radio_value(g.click_item(0)), None);
    assert_eq!(g.selected().value(), "c");
}

#[test]
fn radio_group_generic_items() {
    let items = vec![StringItem::new("x"), StringItem::new("y")];
    let mut g = RadioGroup::new_with_items(items.clone(), StringItem::new("y"));
    assert_eq!(g.highlight_index(), 1);
    assert_eq!(g.selected_index(), 1);
    let outside = RadioGroup::new_with_items(items.clone(), StringItem::new("z"));
    assert_eq!(outside.selected_index(), 0);
    assert_eq!(radio_value(g.set_selected(StringItem::new("x"))), Some("x".to_string()));
    assert_eq!(radio_value(g.set_selected(StringItem::new("nope"))), None);
    assert_eq!(radio_value(g.set_selected_index(1)), Some("y".to_string()));
    assert_eq!(radio_value(g.set_selected_index(1)), None);
    assert_eq!(radio_value(g.set_selected_index(9)), None);
    let g = g.with_items(vec![StringItem::new("p"), StringItem::new("q")]);
    assert_eq!(g.selected().value(), "p");
    let g = g.with_selected(StringItem::new("q")).with_enabled(true);
    assert_eq!(g.selected().value(), "q");
    let g = g.with_selected_index(0);
    assert_eq!(g.selected().value(), "p");
}

fn seg_value(e: Option<SegmentedControlEvent<SegmentOption>>) -> Option<String> {
    e.map(|SegmentedControlEvent::Change(o)| o.value)
}

#[test]
fn segmented_control_options() {
    let mut c = SegmentedControl::new().options(vec![("s", "Small"), ("m", "Medium"), ("l", "Large")]);
    assert_eq!(c.selected_value(), "s");
    assert_eq!(c.selected().label, "Small");
    assert_eq!(seg_value(c.key_down("right")), Some("m".to_string()));
    assert_eq!(seg_value(c.key_down("left")), Some("s".to_string()));
    assert_eq!(seg_value(c.key_down("left")), Some("l".to_string()));
    assert_eq!(seg_value(c.set_selected_value("m")), Some("m".to_string()));
    assert_eq!(seg_value(c.set_selected_value("m")), None);
    assert_eq!(seg_value(c.click_item(0)), Some("s".to_string()));
    assert_eq!(c.selected_index(), 0);
    let c = c.with_selected_value("l");
    assert_eq!(c.highlight_index(), 2);
    let o = SegmentOption::new("Big One", "Big");
    assert_eq!(o.id_name(), "segment_big_one");
    assert_eq!(o.label_text(), "Big");
    let c2 = SegmentedControl::new().with_options(vec![o.clone(), SegmentOption::from_parts("x", "X")]);
    assert_eq!(c2.selected(), &o);
}

fn nav_value(e: Option<SidebarNavEvent<StringItem>>) -> Option<String> {
    e.map(|SidebarNavEvent::Select(i)| i.into_value())
}

#[test]
fn sidebar_wraps_both_ways() {
    let items = vec![StringItem::new("home"), StringItem::new("files"), StringItem::new("about")];
    let mut nav = SidebarNav::new(items, StringItem::new("home")).theme(Theme::light());
    assert_eq!(nav_value(nav.select_previous()), Some("about".to_string()));
    assert_eq!(nav_value(nav.select_next()), Some("home".to_string()));
    assert_eq!(nav_value(nav.step(true)), Some("files".to_string()));
    assert_eq!(nav_value(nav.click_item(2)), Some("about".to_string()));
    nav.set_selected(StringItem::new("elsewhere"));
    assert_eq!(nav_value(nav.select_next()), Some("files".to_string()));
    nav.set_enabled(false);
    assert!(!nav.is_enabled());
    assert_eq!(nav_value(nav.step(true)), None);
    assert_eq!(nav_value(nav.click_item(0)), None);
    assert_eq!(nav.selected_item().value(), "files");
    let mut empty: SidebarNav<StringItem> = SidebarNav::new(Vec::new(), StringItem::new("x")).with_enabled(true);
    assert_eq!(nav_value(empty.select_next()), None);
}

#[test]
fn segmented_click_on_a_repeated_segment_selects_the_first_equal_one() {
    let mut c = SegmentedControl::new().options(vec![("a", "A"), ("b", "B"), ("a", "A")]);
    assert_eq!(seg_value(c.key_down("right")), Some("b".to_string()));
    assert_eq!(seg_value(c.click_item(2)), Some("a".to_string()));
    assert_eq!(c.highlight_index(), 0);
    assert_eq!(seg_value(c.click_item(0)), None);
    let mut off = SegmentedControl::new().options(vec![("x", "X"), ("y", "Y")]).with_enabled(false);
    assert_eq!(seg_value(off.click_item(1)), None);
    assert_eq!(off.selected_value(), "x");
}
