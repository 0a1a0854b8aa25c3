//! Segmented control: horizontal segments with exactly one selected
//!
//! Generic over the item type; for simple value/label selections use
//! `SegmentedControl<SegmentOption>` through `options()`. The keyboard moves a
//! highlight left and right (wrapping around) and selects the highlighted segment
//! as it goes.
use vstd::prelude::*;
use vstd::std_specs::cmp::PartialEqSpec;
use crate::theme::Theme;
use crate::utils::text::str_equal;
use crate::widgets::selection::{
    element_name, element_name_for, first_equal, position_of_item, step_down, step_up, wrap_down,
    wrap_up,
};

verus! {

/// Events emitted by SegmentedControl
#[derive(Clone, Debug)]
pub enum SegmentedControlEvent<T> {
    /// Selected item changed
    Change(T),
}

/// A segmented control as plain values.
pub struct SegmentedControlModel<T> {
    pub items: Seq<T>,
    pub selected: T,
    pub highlight_index: nat,
    pub custom_theme: Option<Theme>,
    pub enabled: bool,
}

impl<T> SegmentedControlModel<T> {
    pub open spec fn with_highlight(self, h: nat) -> SegmentedControlModel<T> {
        SegmentedControlModel { highlight_index: h, ..self }
    }

    pub open spec fn with_selected(self, s: T) -> SegmentedControlModel<T> {
        SegmentedControlModel { selected: s, ..self }
    }
}

/// The outcome of selecting the highlighted item of `base`: nothing happens when there is no
/// such item or it equals the selection; otherwise a clone of it becomes the selection and a
/// clone of that is announced.
pub open spec fn selects_highlighted<T: Clone + PartialEq>(
    base: SegmentedControlModel<T>,
    f: SegmentedControlModel<T>,
    r: Option<SegmentedControlEvent<T>>,
) -> bool {
    let h = base.highlight_index as int;
    if h >= base.items.len() {
        f == base && r is None
    } else {
        ||| {
            &&& f == base
            &&& r is None
            &&& T::obeys_eq_spec() ==> base.selected.eq_spec(&base.items[h])
        }
        ||| {
            &&& r matches Some(SegmentedControlEvent::Change(v)) && cloned(f.selected, v)
            &&& cloned(base.items[h], f.selected)
            &&& f == base.with_selected(f.selected)
            &&& T::obeys_eq_spec() ==> !base.selected.eq_spec(&base.items[h])
        }
    }
}

/// The index of the first item equal to `x`, or 0 when there is none.
pub open spec fn index_or_first<T: PartialEq>(items: Seq<T>, x: T) -> nat {
    match first_equal(items, x) {
        Some(i) => i as nat,
        None => 0,
    }
}

/// Segmented control widget state
pub struct SegmentedControl<T> {
    items: Vec<T>,
    selected: T,
    highlight_index: usize,
    custom_theme: Option<Theme>,
    enabled: bool,
}

impl<T> View for SegmentedControl<T> {
    type V = SegmentedControlModel<T>;

    closed spec fn view(&self) -> SegmentedControlModel<T> {
        SegmentedControlModel {
            items: self.items@,
            selected: self.selected,
            highlight_index: self.highlight_index as nat,
            custom_theme: self.custom_theme,
            enabled: self.enabled,
        }
    }
}

/// A single option in the segmented control
///
/// Use with `options()` builder for simple value/label pair selections.
#[derive(Debug)]
pub struct SegmentOption {
    /// The value (used for identification and events)
    pub value: String,
    /// The display label
    pub label: String,
}

impl Clone for SegmentOption {
    fn clone(&self) -> (r: Self)
        ensures
            r.value@ == self.value@,
            r.label@ == self.label@,
    {
        Self { value: self.value.clone(), label: self.label.clone() }
    }
}

impl PartialEq for SegmentOption {
    fn eq(&self, other: &Self) -> (r: bool) {
        str_equal(self.value.as_str(), other.value.as_str()) && str_equal(
            self.label.as_str(),
            other.label.as_str(),
        )
    }
}

impl vstd::std_specs::cmp::PartialEqSpecImpl for SegmentOption {
    open spec fn obeys_eq_spec() -> bool {
        true
    }

    open spec fn eq_spec(&self, other: &Self) -> bool {
        self.value@ == other.value@ && self.label@ == other.label@
    }
}

impl SegmentOption {
    /// Create a new option
    pub fn new<V: Into<String>, L: Into<String>>(value: V, label: L) -> (r: Self)
        ensures
            call_ensures(V::into, (value,), r.value),
            call_ensures(L::into, (label,), r.label),
    {
        Self { value: value.into(), label: label.into() }
    }

    /// An option with the given value and label.
    pub fn from_parts(value: &str, label: &str) -> (r: Self)
        ensures
            r.value@ == value@,
            r.label@ == label@,
    {
        Self { value: value.to_owned(), label: label.to_owned() }
    }

    /// The display label.
    pub fn label_text(&self) -> (r: String)
        ensures
            r@ == self.label@,
    {
        self.label.clone()
    }

    /// The option's element name: `segment_` and the value lowercased, spaces made underscores.
    pub fn id_name(&self) -> (r: String)
        ensures
            r@ == element_name("segment_"@, self.value@),
    {
        element_name_for("segment_", self.value.as_str())
    }
}

/// The values of a list of options.
pub open spec fn option_values(items: Seq<SegmentOption>) -> Seq<Seq<char>> {
    items.map_values(|o: SegmentOption| o.value@)
}

/// The index of the first option whose value is `v`, if there is one.
pub open spec fn first_value(items: Seq<SegmentOption>, v: Seq<char>) -> Option<int> {
    crate::utils::text::position_of(option_values(items), v)
}

/// The index of the first option whose value is `value`.
fn position_of_value(items: &Vec<SegmentOption>, value: &str) -> (r: Option<usize>)
    ensures
        r matches Some(i) ==> first_value(items@, value@) == Some(i as int) && i < items.len()
            && items@[i as int].value@ == value@,
        r is None ==> first_value(items@, value@) is None,
{
    let ghost s = option_values(items@);
    let n = items.len();
    let mut i: usize = 0;
    while i < n
        invariant
            n == items.len(),
            s == option_values(items@),
            i <= n,
            forall|j: int| 0 <= j < i ==> s[j] != value@,
        decreases n - i,
    {
        if str_equal(items[i].value.as_str(), value) {
            proof {
                assert(s[i as int] == value@);
                let c = choose|k: int|
                    0 <= k < s.len() && s[k] == value@ && forall|j: int| 0 <= j < k ==> s[j] != value@;
                assert(0 <= c < s.len() && s[c] == value@ && forall|j: int|
                    0 <= j < c ==> s[j] != value@);
                if c < i {
                    assert(s[c] != value@);
                } else if c > i {
                    assert(s[i as int] != value@);
                }
            }
            return Some(i);
        }
        i = i + 1;
    }
    None
}

impl SegmentedControl<SegmentOption> {
    /// Create a new segmented control for option selections: no options, an empty selection
    pub fn new() -> (r: Self)
        ensures
            r@.items.len() == 0,
            r@.selected.value@.len() == 0,
            r@.selected.label@.len() == 0,
            r@.highlight_index == 0,
            r@.custom_theme is None,
            r@.enabled,
    {
        Self {
            items: Vec::new(),
            selected: SegmentOption { value: String::new(), label: String::new() },
            highlight_index: 0,
            custom_theme: None,
            enabled: true,
        }
    }

    /// Set options from (value, label) pairs (builder pattern); while nothing is selected
    /// the first option becomes the selection.
    pub fn options(self, options: Vec<(&str, &str)>) -> (r: Self)
        ensures
            r@.items.len() == options.len(),
            forall|i: int|
                0 <= i < options.len() ==> (#[trigger] r@.items[i]).value@ == options@[i].0@
                    && r@.items[i].label@ == options@[i].1@,
            options.len() > 0 && self@.selected.value@.len() == 0 ==> r@.selected.value@
                == options@[0].0@ && r@.selected.label@ == options@[0].1@,
            !(options.len() > 0 && self@.selected.value@.len() == 0) ==> r@.selected
                == self@.selected,
            r@.highlight_index == self@.highlight_index,
            r@.custom_theme == self@.custom_theme,
            r@.enabled == self@.enabled,
    {
        let mut items: Vec<SegmentOption> = Vec::new();
        let n = options.len();
        let mut k: usize = 0;
        while k < n
            invariant
                n == options.len(),
                k <= n,
                items.len() == k,
                forall|i: int|
                    0 <= i < k ==> (#[trigger] items@[i]).value@ == options@[i].0@
                        && items@[i].label@ == options@[i].1@,
            decreases n - k,
        {
            let (v, l) = options[k];
            items.push(SegmentOption::from_parts(v, l));
            k = k + 1;
        }
        self.with_options(items)
    }

    /// Set options (builder pattern); while nothing is selected the first option becomes
    /// the selection.
    pub fn with_options(self, options: Vec<SegmentOption>) -> (r: Self)
        ensures
            r@.items == options@,
            options.len() > 0 && self@.selected.value@.len() == 0 ==> r@.selected.value@
                == options@[0].value@ && r@.selected.label@ == options@[0].label@,
            !(options.len() > 0 && self@.selected.value@.len() == 0) ==> r@.selected
                == self@.selected,
            r@.highlight_index == self@.highlight_index,
            r@.custom_theme == self@.custom_theme,
            r@.enabled == self@.enabled,
    {
        let mut this = self;
        this.items = options;
        if this.items.len() > 0 && this.selected.value.as_str().is_empty() {
            this.selected = this.items[0].clone();
        }
        this
    }

    /// Set selected value by string (builder pattern); an unknown value changes nothing
    pub fn with_selected_value(self, value: &str) -> (r: Self)
        ensures
            first_value(self@.items, value@) matches Some(i) ==> r@ == self@.with_selected(
                r@.selected,
            ).with_highlight(i as nat) && r@.selected.value@ == value@ && r@.selected.label@
                == self@.items[i].label@,
            first_value(self@.items, value@) is None ==> r@ == self@,
    {
        let mut this = self;
        if let Some(index) = position_of_value(&this.items, value) {
            this.selected = this.items[index].clone();
            this.highlight_index = index;
        }
        this
    }

    /// Set selected by value programmatically; a change is announced
    pub fn set_selected_value(&mut self, value: &str) -> (r: Option<
        SegmentedControlEvent<SegmentOption>,
    >)
        ensures
            first_value(old(self)@.items, value@) matches Some(i) ==> old(self)@.selected.value@
                != value@ ==> {
                &&& final(self)@ == old(self)@.with_selected(final(self)@.selected).with_highlight(
                    i as nat,
                )
                &&& final(self)@.selected.value@ == value@
                &&& final(self)@.selected.label@ == old(self)@.items[i].label@
                &&& r matches Some(SegmentedControlEvent::Change(v)) && v.value@ == value@
            },
            first_value(old(self)@.items, value@) is None || old(self)@.selected.value@ == value@
                ==> final(self)@ == old(self)@ && r is None,
    {
        if let Some(index) = position_of_value(&self.items, value) {
            if !str_equal(self.selected.value.as_str(), value) {
                self.selected = self.items[index].clone();
                self.highlight_index = index;
                return Some(SegmentedControlEvent::Change(self.selected.clone()));
            }
        }
        None
    }

    /// Get the selected value as a string
    pub fn selected_value(&self) -> (r: &str)
        ensures
            r@ == self@.selected.value@,
    {
        self.selected.value.as_str()
    }
}

impl<T: Clone + PartialEq> SegmentedControl<T> {
    /// Create a new segmented control with items and initial selection; the highlight starts on
    /// the selected item (the first when it is not among the items)
    pub fn new_with_items(items: Vec<T>, selected: T) -> (r: Self)
        ensures
            r@.items == items@,
            r@.selected == selected,
            r@.custom_theme is None,
            r@.enabled,
            r@.highlight_index < items.len() || r@.highlight_index == 0,
            T::obeys_eq_spec() ==> r@.highlight_index == index_or_first(items@, selected),
    {
        let highlight_index = match position_of_item(&items, &selected) {
            Some(i) => i,
            None => 0,
        };
        Self { items, selected, highlight_index, custom_theme: None, enabled: true }
    }

    /// Set items (builder pattern); when there are any, the first becomes the selection
    pub fn with_items(self, items: Vec<T>) -> (r: Self)
        ensures
            r@.items == items@,
            items.len() > 0 ==> cloned(items@[0], r@.selected) && r@.highlight_index == 0,
            items.len() == 0 ==> r@.selected == self@.selected && r@.highlight_index
                == self@.highlight_index,
            r@.custom_theme == self@.custom_theme,
            r@.enabled == self@.enabled,
    {
        let mut this = self;
        this.items = items;
        if this.items.len() > 0 {
            this.selected = this.items[0].clone();
            this.highlight_index = 0;
        }
        this
    }

    /// Set selected item (builder pattern); an item not in the list changes nothing
    pub fn with_selected(self, item: T) -> (r: Self)
        ensures
            T::obeys_eq_spec() ==> match first_equal(self@.items, item) {
                Some(i) => r@ == self@.with_selected(item).with_highlight(i as nat),
                None => r@ == self@,
            },
    {
        let mut this = self;
        if let Some(index) = position_of_item(&this.items, &item) {
            this.selected = item;
            this.highlight_index = index;
        }
        this
    }

    /// Set selected by index (builder pattern); an index past the end changes nothing
    pub fn with_selected_index(self, index: usize) -> (r: Self)
        ensures
            index < self@.items.len() ==> r@ == self@.with_selected(r@.selected).with_highlight(
                index as nat,
            ) && cloned(self@.items[index as int], r@.selected),
            index >= self@.items.len() ==> r@ == self@,
    {
        let mut this = self;
        if index < this.items.len() {
            this.selected = this.items[index].clone();
            this.highlight_index = index;
        }
        this
    }

    /// Set custom theme (builder pattern)
    pub fn theme(self, theme: Theme) -> (r: Self)
        ensures
            r@ == (SegmentedControlModel { custom_theme: Some(theme), ..self@ }),
    {
        let mut this = self;
        this.custom_theme = Some(theme);
        this
    }

    /// Set enabled state (builder pattern)
    pub fn with_enabled(self, enabled: bool) -> (r: Self)
        ensures
            r@ == (SegmentedControlModel { enabled, ..self@ }),
    {
        let mut this = self;
        this.enabled = enabled;
        this
    }

    /// Get the currently selected item
    pub fn selected(&self) -> (r: &T)
        ensures
            *r == self@.selected,
    {
        &self.selected
    }

    /// Get the currently selected index (0 when the selection is not among the items)
    pub fn selected_index(&self) -> (r: usize)
        ensures
            r < self@.items.len() || r == 0,
            T::obeys_eq_spec() ==> r == index_or_first(self@.items, self@.selected),
    {
        match position_of_item(&self.items, &self.selected) {
            Some(i) => i,
            None => 0,
        }
    }

    /// The highlighted item's index.
    pub fn highlight_index(&self) -> (r: usize)
        ensures
            r == self@.highlight_index,
    {
        self.highlight_index
    }

    /// Set selected item programmatically; a change to an item of the list is announced
    pub fn set_selected(&mut self, item: T) -> (r: Option<SegmentedControlEvent<T>>)
        ensures
            T::obeys_eq_spec() ==> match first_equal(old(self)@.items, item) {
                Some(i) => if old(self)@.selected.eq_spec(&item) {
                    final(self)@ == old(self)@ && r is None
                } else {
                    &&& final(self)@ == old(self)@.with_selected(item).with_highlight(i as nat)
                    &&& r matches Some(SegmentedControlEvent::Change(v)) && cloned(item, v)
                },
                None => final(self)@ == old(self)@ && r is None,
            },
    {
        if let Some(index) = position_of_item(&self.items, &item) {
            if self.selected != item {
                self.selected = item;
                self.highlight_index = index;
                return Some(SegmentedControlEvent::Change(self.selected.clone()));
            }
        }
        None
    }

    /// Set selected by index programmatically; a change is announced
    pub fn set_selected_index(&mut self, index: usize) -> (r: Option<SegmentedControlEvent<T>>)
        ensures
            index >= old(self)@.items.len() ==> final(self)@ == old(self)@ && r is None,
            index < old(self)@.items.len() ==> {
                ||| (final(self)@ == old(self)@ && r is None)
                ||| {
                    &&& cloned(old(self)@.items[index as int], final(self)@.selected)
                    &&& final(self)@ == old(self)@.with_selected(final(self)@.selected).with_highlight(
                        index as nat,
                    )
                    &&& r matches Some(SegmentedControlEvent::Change(v)) && cloned(final(self)@.selected, v)
                }
            },
            index < old(self)@.items.len() && T::obeys_eq_spec() ==> exists|c: T|
                #[trigger] cloned(old(self)@.items[index as int], c) && if old(self)@.selected.eq_spec(&c) {
                    final(self)@ == old(self)@ && r is None
                } else {
                    &&& final(self)@ == old(self)@.with_selected(c).with_highlight(index as nat)
                    &&& r matches Some(SegmentedControlEvent::Change(v)) && cloned(c, v)
                },
    {
        if index < self.items.len() {
            let item = self.items[index].clone();
            assert(cloned(self@.items[index as int], item));
            if self.selected != item {
                self.selected = item;
                self.highlight_index = index;
                return Some(SegmentedControlEvent::Change(self.selected.clone()));
            }
        }
        None
    }

    /// Check if the segmented control is enabled
    pub fn is_enabled(&self) -> (r: bool)
        ensures
            r == self@.enabled,
    {
        self.enabled
    }

    /// Set enabled state programmatically
    pub fn set_enabled(&mut self, enabled: bool)
        ensures
            final(self)@ == (SegmentedControlModel { enabled, ..old(self)@ }),
    {
        self.enabled = enabled;
    }

    /// Select the highlighted item; a change is announced.
    fn select_by_index(&mut self) -> (r: Option<SegmentedControlEvent<T>>)
        ensures
            selects_highlighted(old(self)@, final(self)@, r),
    {
        if self.highlight_index < self.items.len() {
            if self.selected != self.items[self.highlight_index] {
                self.selected = self.items[self.highlight_index].clone();
                return Some(SegmentedControlEvent::Change(self.selected.clone()));
            }
        }
        None
    }

    /// A key press while focused (Tab having been handled by focus navigation): Left and Right
    /// move the highlight, wrapping around, and select the highlighted item; Space selects
    /// it. A disabled group ignores keys.
    pub fn key_down(&mut self, key: &str) -> (r: Option<SegmentedControlEvent<T>>)
        ensures
            !old(self)@.enabled ==> final(self)@ == old(self)@ && r is None,
            old(self)@.enabled && key@ == "left"@ ==> selects_highlighted(
                old(self)@.with_highlight(wrap_up(old(self)@.highlight_index, old(self)@.items.len())),
                final(self)@,
                r,
            ),
            old(self)@.enabled && key@ == "right"@ ==> selects_highlighted(
                old(self)@.with_highlight(
                    wrap_down(old(self)@.highlight_index, old(self)@.items.len()),
                ),
                final(self)@,
                r,
            ),
            old(self)@.enabled && key@ == "space"@ ==> selects_highlighted(old(self)@, final(self)@, r),
            key@ != "left"@ && key@ != "right"@ && key@ != "space"@ ==> final(self)@ == old(self)@
                && r is None,
    {
        if !self.enabled {
            return None;
        }
        proof {
            reveal_strlit("left");
            reveal_strlit("right");
            reveal_strlit("space");
            assert("left"@.len() == 4 && "right"@.len() == 5 && "space"@.len() == 5);
            assert("right"@[0] != "space"@[0]);
        }
        let n = self.items.len();
        if str_equal(key, "left") {
            self.highlight_index = step_up(self.highlight_index, n);
            self.select_by_index()
        } else if str_equal(key, "right") {
            self.highlight_index = step_down(self.highlight_index, n);
            self.select_by_index()
        } else if str_equal(key, "space") {
            self.select_by_index()
        } else {
            None
        }
    }

    /// A press on segment `index` of an enabled control looks for the first segment equal to a
    /// clone of it, highlights that one and selects it; where none is equal, the press changes
    /// nothing.
    pub fn click_item(&mut self, index: usize) -> (r: Option<SegmentedControlEvent<T>>)
        requires
            index < old(self)@.items.len(),
        ensures
            !old(self)@.enabled ==> final(self)@ == old(self)@ && r is None,
            old(self)@.enabled ==> (final(self)@ == old(self)@ && r is None) || exists|h: nat|
                h < old(self)@.items.len() && selects_highlighted(
                    old(self)@.with_highlight(h),
                    final(self)@,
                    r,
                ),
            old(self)@.enabled && T::obeys_eq_spec() ==> exists|c: T|
                #[trigger] cloned(old(self)@.items[index as int], c) && match first_equal(
                    old(self)@.items,
                    c,
                ) {
                    Some(i) => selects_highlighted(
                        old(self)@.with_highlight(i as nat),
                        final(self)@,
                        r,
                    ),
                    None => final(self)@ == old(self)@ && r is None,
                },
    {
        if !self.enabled {
            return None;
        }
        let item = self.items[index].clone();
        assert(cloned(old(self)@.items[index as int], item));
        match position_of_item(&self.items, &item) {
            Some(h) => {
                self.highlight_index = h;
                assert(self@ == old(self)@.with_highlight(h as nat));
                let r = self.select_by_index();
                assert(selects_highlighted(old(self)@.with_highlight(h as nat), final(self)@, r));
                r
            },
            None => None,
        }
    }
}

} // verus!
