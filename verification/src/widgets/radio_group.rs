//! Radio group: a list of items with exactly one selected
//!
//! Generic over the item type; for simple string selections use
//! `RadioGroup<StringItem>` through `choices()`. The keyboard moves a highlight
//! up and down (wrapping around) and selects the highlighted item as it goes.
use vstd::prelude::*;
use vstd::std_specs::cmp::PartialEqSpec;
use crate::theme::Theme;
use crate::utils::text::{str_equal, texts};
use crate::widgets::selection::{
    first_equal, position_of_item, step_down, step_up, wrap_down, wrap_up, StringItem,
};

verus! {

/// Events emitted by RadioGroup
#[derive(Clone, Debug)]
pub enum RadioGroupEvent<T> {
    /// Selected item changed
    Change(T),
}

/// A radio group as plain values.
pub struct RadioGroupModel<T> {
    pub items: Seq<T>,
    pub selected: T,
    pub highlight_index: nat,
    pub custom_theme: Option<Theme>,
    pub enabled: bool,
}

impl<T> RadioGroupModel<T> {
    pub open spec fn with_highlight(self, h: nat) -> RadioGroupModel<T> {
        RadioGroupModel { highlight_index: h, ..self }
    }

    pub open spec fn with_selected(self, s: T) -> RadioGroupModel<T> {
        RadioGroupModel { selected: s, ..self }
    }
}

/// The outcome of selecting the highlighted item of `base`: nothing happens when there is no
/// such item or it equals the selection; otherwise a clone of it becomes the selection and a
/// clone of that is announced.
pub open spec fn selects_highlighted<T: Clone + PartialEq>(
    base: RadioGroupModel<T>,
    f: RadioGroupModel<T>,
    r: Option<RadioGroupEvent<T>>,
) -> bool {
    let h = base.highlight_index as int;
    if h >= base.items.len() {
        f == base && r is None
    } else {
        ||| {
            &&& f == base
            &&& r is None
            &&& T::obeys_eq_spec() ==> base.selected.eq_spec(&base.items[h])
        }
        ||| {
            &&& r matches Some(RadioGroupEvent::Change(v)) && cloned(f.selected, v)
            &&& cloned(base.items[h], f.selected)
            &&& f == base.with_selected(f.selected)
            &&& T::obeys_eq_spec() ==> !base.selected.eq_spec(&base.items[h])
        }
    }
}

/// The index of the first item equal to `x`, or 0 when there is none.
pub open spec fn index_or_first<T: PartialEq>(items: Seq<T>, x: T) -> nat {
    match first_equal(items, x) {
        Some(i) => i as nat,
        None => 0,
    }
}

/// Radio group widget state
pub struct RadioGroup<T> {
    items: Vec<T>,
    selected: T,
    highlight_index: usize,
    custom_theme: Option<Theme>,
    enabled: bool,
}

impl<T> View for RadioGroup<T> {
    type V = RadioGroupModel<T>;

    closed spec fn view(&self) -> RadioGroupModel<T> {
        RadioGroupModel {
            items: self.items@,
            selected: self.selected,
            highlight_index: self.highlight_index as nat,
            custom_theme: self.custom_theme,
            enabled: self.enabled,
        }
    }
}

impl RadioGroup<StringItem> {
    /// Create a new radio group for string selections: no items, an empty selection
    pub fn new() -> (r: Self)
        ensures
            r@.items.len() == 0,
            r@.selected@.len() == 0,
            r@.highlight_index == 0,
            r@.custom_theme is None,
            r@.enabled,
    {
        Self {
            items: Vec::new(),
            selected: StringItem::of(String::new()),
            highlight_index: 0,
            custom_theme: None,
            enabled: true,
        }
    }

    /// Set choices from strings (builder pattern); while nothing is selected the first
    /// choice becomes the selection.
    pub fn choices(self, choices: Vec<String>) -> (r: Self)
        ensures
            r@.items.map_values(|i: StringItem| i@) == texts(choices@),
            choices.len() > 0 && self@.selected@.len() == 0 ==> r@.selected@ == choices@[0]@,
            !(choices.len() > 0 && self@.selected@.len() == 0) ==> r@.selected == self@.selected,
            r@.highlight_index == self@.highlight_index,
            r@.custom_theme == self@.custom_theme,
            r@.enabled == self@.enabled,
    {
        let mut this = self;
        let mut items: Vec<StringItem> = Vec::new();
        let n = choices.len();
        let mut k: usize = 0;
        while k < n
            invariant
                n == choices.len(),
                k <= n,
                items@.map_values(|i: StringItem| i@) == texts(choices@).take(k as int),
            decreases n - k,
        {
            let ghost before = items@;
            let item = StringItem::of(choices[k].clone());
            assert(item@ == texts(choices@)[k as int]);
            items.push(item);
            assert(items@ == before.push(item));
            assert(items@.map_values(|i: StringItem| i@) =~= before.map_values(|i: StringItem| i@).push(item@));
            assert(texts(choices@).take(k + 1) =~= texts(choices@).take(k as int).push(texts(choices@)[k as int]));
            k = k + 1;
        }
        assert(texts(choices@).take(n as int) =~= texts(choices@));
        this.items = items;
        if this.items.len() > 0 && this.selected.value().is_empty() {
            this.selected = this.items[0].clone();
            assert(this.items@[0]@ == texts(choices@)[0]);
        }
        this
    }

    /// Set selected value by string (builder pattern); an unknown value changes nothing
    pub fn with_selected_value(self, value: &str) -> (r: Self)
        ensures
            first_string(self@.items, value@) matches Some(i) ==> r@ == self@.with_selected(
                r@.selected,
            ).with_highlight(i as nat) && r@.selected@ == value@,
            first_string(self@.items, value@) is None ==> r@ == self@,
    {
        let mut this = self;
        if let Some(index) = position_of_value(&this.items, value) {
            this.selected = this.items[index].clone();
            this.highlight_index = index;
        }
        this
    }

    /// Set selected by string value programmatically; a change is announced
    pub fn set_selected_value(&mut self, value: &str) -> (r: Option<RadioGroupEvent<StringItem>>)
        ensures
            first_string(old(self)@.items, value@) matches Some(i) ==> old(self)@.selected@
                != value@ ==> {
                &&& final(self)@ == old(self)@.with_selected(final(self)@.selected).with_highlight(
                    i as nat,
                )
                &&& final(self)@.selected@ == value@
                &&& r matches Some(RadioGroupEvent::Change(v)) && v@ == value@
            },
            first_string(old(self)@.items, value@) is None || old(self)@.selected@ == value@
                ==> final(self)@ == old(self)@ && r is None,
    {
        if let Some(index) = position_of_value(&self.items, value) {
            if !str_equal(self.selected.value(), value) {
                self.selected = self.items[index].clone();
                self.highlight_index = index;
                return Some(RadioGroupEvent::Change(self.selected.clone()));
            }
        }
        None
    }

    /// Get the selected value as a string
    pub fn selected_value(&self) -> (r: &str)
        ensures
            r@ == self@.selected@,
    {
        self.selected.value()
    }
}

/// The index of the first item whose value is `v`, if there is one.
pub open spec fn first_string(items: Seq<StringItem>, v: Seq<char>) -> Option<int> {
    crate::utils::text::position_of(items.map_values(|i: StringItem| i@), v)
}

/// The index of the first item whose value is `value`.
fn position_of_value(items: &Vec<StringItem>, value: &str) -> (r: Option<usize>)
    ensures
        r matches Some(i) ==> first_string(items@, value@) == Some(i as int) && i < items.len()
            && items@[i as int]@ == value@,
        r is None ==> first_string(items@, value@) is None,
{
    let ghost s = items@.map_values(|i: StringItem| i@);
    let n = items.len();
    let mut i: usize = 0;
    while i < n
        invariant
            n == items.len(),
            s == items@.map_values(|i: StringItem| i@),
            i <= n,
            forall|j: int| 0 <= j < i ==> s[j] != value@,
        decreases n - i,
    {
        if str_equal(items[i].value(), value) {
            proof {
                assert(s[i as int] == value@);
                let c = choose|k: int|
                    0 <= k < s.len() && s[k] == value@ && forall|j: int| 0 <= j < k ==> s[j] != value@;
                assert(0 <= c < s.len() && s[c] == value@ && forall|j: int|
                    0 <= j < c ==> s[j] != value@);
                if c < i {
                    assert(s[c] != value@);
                } else if c > i {
                    assert(s[i as int] != value@);
                }
            }
            return Some(i);
        }
        i = i + 1;
    }
    None
}

impl<T: Clone + PartialEq> RadioGroup<T> {
    /// Create a new radio group with items and initial selection; the highlight starts on
    /// the selected item (the first when it is not among the items)
    pub fn new_with_items(items: Vec<T>, selected: T) -> (r: Self)
        ensures
            r@.items == items@,
            r@.selected == selected,
            r@.custom_theme is None,
            r@.enabled,
            r@.highlight_index < items.len() || r@.highlight_index == 0,
            T::obeys_eq_spec() ==> r@.highlight_index == index_or_first(items@, selected),
    {
        let highlight_index = match position_of_item(&items, &selected) {
            Some(i) => i,
            None => 0,
        };
        Self { items, selected, highlight_index, custom_theme: None, enabled: true }
    }

    /// Set items (builder pattern); when there are any, the first becomes the selection
    pub fn with_items(self, items: Vec<T>) -> (r: Self)
        ensures
            r@.items == items@,
            items.len() > 0 ==> cloned(items@[0], r@.selected) && r@.highlight_index == 0,
            items.len() == 0 ==> r@.selected == self@.selected && r@.highlight_index
                == self@.highlight_index,
            r@.custom_theme == self@.custom_theme,
            r@.enabled == self@.enabled,
    {
        let mut this = self;
        this.items = items;
        if this.items.len() > 0 {
            this.selected = this.items[0].clone();
            this.highlight_index = 0;
        }
        this
    }

    /// Set selected item (builder pattern); an item not in the list changes nothing
    pub fn with_selected(self, item: T) -> (r: Self)
        ensures
            T::obeys_eq_spec() ==> match first_equal(self@.items, item) {
                Some(i) => r@ == self@.with_selected(item).with_highlight(i as nat),
                None => r@ == self@,
            },
    {
        let mut this = self;
        if let Some(index) = position_of_item(&this.items, &item) {
            this.selected = item;
            this.highlight_index = index;
        }
        this
    }

    /// Set selected by index (builder pattern); an index past the end changes nothing
    pub fn with_selected_index(self, index: usize) -> (r: Self)
        ensures
            index < self@.items.len() ==> r@ == self@.with_selected(r@.selected).with_highlight(
                index as nat,
            ) && cloned(self@.items[index as int], r@.selected),
            index >= self@.items.len() ==> r@ == self@,
    {
        let mut this = self;
        if index < this.items.len() {
            this.selected = this.items[index].clone();
            this.highlight_index = index;
        }
        this
    }

    /// Set custom theme (builder pattern)
    pub fn theme(self, theme: Theme) -> (r: Self)
        ensures
            r@ == (RadioGroupModel { custom_theme: Some(theme), ..self@ }),
    {
        let mut this = self;
        this.custom_theme = Some(theme);
        this
    }

    /// Set enabled state (builder pattern)
    pub fn with_enabled(self, enabled: bool) -> (r: Self)
        ensures
            r@ == (RadioGroupModel { enabled, ..self@ }),
    {
        let mut this = self;
        this.enabled = enabled;
        this
    }

    /// Get the currently selected item
    pub fn selected(&self) -> (r: &T)
        ensures
            *r == self@.selected,
    {
        &self.selected
    }

    /// Get the currently selected index (0 when the selection is not among the items)
    pub fn selected_index(&self) -> (r: usize)
        ensures
            r < self@.items.len() || r == 0,
            T::obeys_eq_spec() ==> r == index_or_first(self@.items, self@.selected),
    {
        match position_of_item(&self.items, &self.selected) {
            Some(i) => i,
            None => 0,
        }
    }

    /// The highlighted item's index.
    pub fn highlight_index(&self) -> (r: usize)
        ensures
            r == self@.highlight_index,
    {
        self.highlight_index
    }

    /// Set selected item programmatically; a change to an item of the list is announced
    pub fn set_selected(&mut self, item: T) -> (r: Option<RadioGroupEvent<T>>)
        ensures
            T::obeys_eq_spec() ==> match first_equal(old(self)@.items, item) {
                Some(i) => if old(self)@.selected.eq_spec(&item) {
                    final(self)@ == old(self)@ && r is None
                } else {
                    &&& final(self)@ == old(self)@.with_selected(item).with_highlight(i as nat)
                    &&& r matches Some(RadioGroupEvent::Change(v)) && cloned(item, v)
                },
                None => final(self)@ == old(self)@ && r is None,
            },
    {
        if let Some(index) = position_of_item(&self.items, &item) {
            if self.selected != item {
                self.selected = item;
                self.highlight_index = index;
                return Some(RadioGroupEvent::Change(self.selected.clone()));
            }
        }
        None
    }

    /// Set selected by index programmatically; a change is announced
    pub fn set_selected_index(&mut self, index: usize) -> (r: Option<RadioGroupEvent<T>>)
        ensures
            index >= old(self)@.items.len() ==> final(self)@ == old(self)@ && r is None,
            index < old(self)@.items.len() ==> {
                ||| (final(self)@ == old(self)@ && r is None)
                ||| {
                    &&& cloned(old(self)@.items[index as int], final(self)@.selected)
                    &&& final(self)@ == old(self)@.with_selected(final(self)@.selected).with_highlight(
                        index as nat,
                    )
                    &&& r matches Some(RadioGroupEvent::Change(v)) && cloned(final(self)@.selected, v)
                }
            },
            index < old(self)@.items.len() && T::obeys_eq_spec() ==> exists|c: T|
                #[trigger] cloned(old(self)@.items[index as int], c) && if old(self)@.selected.eq_spec(&c) {
                    final(self)@ == old(self)@ && r is None
                } else {
                    &&& final(self)@ == old(self)@.with_selected(c).with_highlight(index as nat)
                    &&& r matches Some(RadioGroupEvent::Change(v)) && cloned(c, v)
                },
    {
        if index < self.items.len() {
            let item = self.items[index].clone();
            assert(cloned(self@.items[index as int], item));
            if self.selected != item {
                self.selected = item;
                self.highlight_index = index;
                return Some(RadioGroupEvent::Change(self.selected.clone()));
            }
        }
        None
    }

    /// Check if the radio group is enabled
    pub fn is_enabled(&self) -> (r: bool)
        ensures
            r == self@.enabled,
    {
        self.enabled
    }

    /// Set enabled state programmatically
    pub fn set_enabled(&mut self, enabled: bool)
        ensures
            final(self)@ == (RadioGroupModel { enabled, ..old(self)@ }),
    {
        self.enabled = enabled;
    }

    /// Select the highlighted item; a change is announced.
    fn select_by_index(&mut self) -> (r: Option<RadioGroupEvent<T>>)
        ensures
            selects_highlighted(old(self)@, final(self)@, r),
    {
        if self.highlight_index < self.items.len() {
            if self.selected != self.items[self.highlight_index] {
                self.selected = self.items[self.highlight_index].clone();
                return Some(RadioGroupEvent::Change(self.selected.clone()));
            }
        }
        None
    }

    /// A key press while focused (Tab having been handled by focus navigation): Up and Down
    /// move the highlight, wrapping around, and select the highlighted item; Space selects
    /// it. A disabled group ignores keys.
    pub fn key_down(&mut self, key: &str) -> (r: Option<RadioGroupEvent<T>>)
        ensures
            !old(self)@.enabled ==> final(self)@ == old(self)@ && r is None,
            old(self)@.enabled && key@ == "up"@ ==> selects_highlighted(
                old(self)@.with_highlight(wrap_up(old(self)@.highlight_index, old(self)@.items.len())),
                final(self)@,
                r,
            ),
            old(self)@.enabled && key@ == "down"@ ==> selects_highlighted(
                old(self)@.with_highlight(
                    wrap_down(old(self)@.highlight_index, old(self)@.items.len()),
                ),
                final(self)@,
                r,
            ),
            old(self)@.enabled && key@ == "space"@ ==> selects_highlighted(old(self)@, final(self)@, r),
            key@ != "up"@ && key@ != "down"@ && key@ != "space"@ ==> final(self)@ == old(self)@
                && r is None,
    {
        if !self.enabled {
            return None;
        }
        proof {
            reveal_strlit("up");
            reveal_strlit("down");
            reveal_strlit("space");
            assert("up"@.len() == 2 && "down"@.len() == 4 && "space"@.len() == 5);
        }
        let n = self.items.len();
        if str_equal(key, "up") {
            self.highlight_index = step_up(self.highlight_index, n);
            self.select_by_index()
        } else if str_equal(key, "down") {
            self.highlight_index = step_down(self.highlight_index, n);
            self.select_by_index()
        } else if str_equal(key, "space") {
            self.select_by_index()
        } else {
            None
        }
    }

    /// A click on item `index` of an enabled group selects a clone of it, highlights it and
    /// announces it.
    pub fn click_item(&mut self, index: usize) -> (r: Option<RadioGroupEvent<T>>)
        requires
            index < old(self)@.items.len(),
        ensures
            !old(self)@.enabled ==> final(self)@ == old(self)@ && r is None,
            old(self)@.enabled ==> {
                &&& cloned(old(self)@.items[index as int], final(self)@.selected)
                &&& final(self)@ == old(self)@.with_selected(final(self)@.selected).with_highlight(
                    index as nat,
                )
                &&& r matches Some(RadioGroupEvent::Change(v)) && cloned(
                    old(self)@.items[index as int],
                    v,
                )
            },
    {
        if !self.enabled {
            return None;
        }
        self.selected = self.items[index].clone();
        self.highlight_index = index;
        Some(RadioGroupEvent::Change(self.items[index].clone()))
    }
}

} // verus!
