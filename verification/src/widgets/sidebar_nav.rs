//! Sidebar navigation: a vertical list of items with one selected
//!
//! Up and Down move the selection, wrapping around at either end.
use vstd::prelude::*;
use vstd::std_specs::cmp::PartialEqSpec;
use crate::theme::Theme;
use crate::widgets::selection::{
    first_equal, lemma_first_equal_unique, lemma_string_item_cloned, position_of_item, wrap_down,
    wrap_up, StringItem,
};

verus! {

/// Events emitted by SidebarNav
#[derive(Clone, Debug)]
pub enum SidebarNavEvent<T> {
    /// An item was selected
    Select(T),
}

/// A sidebar as plain values.
pub struct SidebarNavModel<T> {
    pub items: Seq<T>,
    pub selected: T,
    pub custom_theme: Option<Theme>,
    pub enabled: bool,
}

/// The outcome of a step: with no items nothing happens; otherwise, from the index `cur` of
/// the selection (the first equal item, or 0 when it is not among the items), a clone of
/// the item at `step(cur)` becomes the selection and a clone of that is announced.
pub open spec fn steps_to<T: Clone + PartialEq>(
    m: SidebarNavModel<T>,
    f: SidebarNavModel<T>,
    r: Option<SidebarNavEvent<T>>,
    forward: bool,
) -> bool {
    if m.items.len() == 0 {
        f == m && r is None
    } else {
        exists|cur: nat|
            #![trigger wrap_down(cur, m.items.len())]
            #![trigger wrap_up(cur, m.items.len())]
            {
                let next = if forward {
                    wrap_down(cur, m.items.len())
                } else {
                    wrap_up(cur, m.items.len())
                };
                &&& cur < m.items.len()
                &&& T::obeys_eq_spec() ==> cur == match first_equal(m.items, m.selected) {
                    Some(i) => i as nat,
                    None => 0,
                }
                &&& cloned(m.items[next as int], f.selected)
                &&& f == (SidebarNavModel { selected: f.selected, ..m })
                &&& r matches Some(SidebarNavEvent::Select(v)) && cloned(f.selected, v)
            }
    }
}

/// Generic sidebar navigation widget state
pub struct SidebarNav<T> {
    items: Vec<T>,
    selected: T,
    custom_theme: Option<Theme>,
    enabled: bool,
}

impl<T> View for SidebarNav<T> {
    type V = SidebarNavModel<T>;

    closed spec fn view(&self) -> SidebarNavModel<T> {
        SidebarNavModel {
            items: self.items@,
            selected: self.selected,
            custom_theme: self.custom_theme,
            enabled: self.enabled,
        }
    }
}

impl<T: Clone + PartialEq> SidebarNav<T> {
    /// Create a new sidebar nav with the given items and selected item
    pub fn new(items: Vec<T>, selected: T) -> (r: Self)
        ensures
            r@ == (SidebarNavModel { items: items@, selected, custom_theme: None, enabled: true }),
    {
        Self { items, selected, custom_theme: None, enabled: true }
    }

    /// Set a custom theme for this widget
    pub fn theme(self, theme: Theme) -> (r: Self)
        ensures
            r@ == (SidebarNavModel { custom_theme: Some(theme), ..self@ }),
    {
        let mut this = self;
        this.custom_theme = Some(theme);
        this
    }

    /// Set enabled state (builder pattern)
    pub fn with_enabled(self, enabled: bool) -> (r: Self)
        ensures
            r@ == (SidebarNavModel { enabled, ..self@ }),
    {
        let mut this = self;
        this.enabled = enabled;
        this
    }

    /// Get the currently selected item
    pub fn selected_item(&self) -> (r: &T)
        ensures
            *r == self@.selected,
    {
        &self.selected
    }

    /// Set the selected item (without an announcement)
    pub fn set_selected(&mut self, item: T)
        ensures
            final(self)@ == (SidebarNavModel { selected: item, ..old(self)@ }),
    {
        self.selected = item;
    }

    /// Check if the sidebar is enabled
    pub fn is_enabled(&self) -> (r: bool)
        ensures
            r == self@.enabled,
    {
        self.enabled
    }

    /// Set enabled state programmatically
    pub fn set_enabled(&mut self, enabled: bool)
        ensures
            final(self)@ == (SidebarNavModel { enabled, ..old(self)@ }),
    {
        self.enabled = enabled;
    }

    /// The index of the selection among the items, or 0 when it is not one of them.
    fn current_index(&self) -> (r: usize)
        requires
            self@.items.len() > 0,
        ensures
            r < self@.items.len(),
            T::obeys_eq_spec() ==> r == match first_equal(self@.items, self@.selected) {
                Some(i) => i as nat,
                None => 0,
            },
    {
        match position_of_item(&self.items, &self.selected) {
            Some(i) => i,
            None => 0,
        }
    }

    /// Select the previous item (wraps around)
    pub fn select_previous(&mut self) -> (r: Option<SidebarNavEvent<T>>)
        ensures
            steps_to(old(self)@, final(self)@, r, false),
    {
        let n = self.items.len();
        if n == 0 {
            return None;
        }
        let current_index = self.current_index();
        let new_index = if current_index == 0 {
            n - 1
        } else {
            current_index - 1
        };
        self.selected = self.items[new_index].clone();
        let r = Some(SidebarNavEvent::Select(self.selected.clone()));
        assert(new_index == wrap_up(current_index as nat, old(self)@.items.len()));
        r
    }

    /// Select the next item (wraps around)
    pub fn select_next(&mut self) -> (r: Option<SidebarNavEvent<T>>)
        ensures
            steps_to(old(self)@, final(self)@, r, true),
    {
        let n = self.items.len();
        if n == 0 {
            return None;
        }
        let current_index = self.current_index();
        let new_index = if current_index >= n - 1 {
            0
        } else {
            current_index + 1
        };
        self.selected = self.items[new_index].clone();
        let r = Some(SidebarNavEvent::Select(self.selected.clone()));
        assert(new_index == wrap_down(current_index as nat, old(self)@.items.len()));
        r
    }

    /// The keyboard's previous/next actions, which an enabled sidebar follows.
    pub fn step(&mut self, forward: bool) -> (r: Option<SidebarNavEvent<T>>)
        ensures
            !old(self)@.enabled ==> final(self)@ == old(self)@ && r is None,
            old(self)@.enabled ==> steps_to(old(self)@, final(self)@, r, forward),
    {
        if !self.enabled {
            return None;
        }
        if forward {
            self.select_next()
        } else {
            self.select_previous()
        }
    }

    /// A click on item `index` of an enabled sidebar selects a clone of it and announces it.
    pub fn click_item(&mut self, index: usize) -> (r: Option<SidebarNavEvent<T>>)
        requires
            index < old(self)@.items.len(),
        ensures
            !old(self)@.enabled ==> final(self)@ == old(self)@ && r is None,
            old(self)@.enabled ==> {
                &&& cloned(old(self)@.items[index as int], final(self)@.selected)
                &&& final(self)@ == (SidebarNavModel { selected: final(self)@.selected, ..old(self)@ })
                &&& r matches Some(SidebarNavEvent::Select(v)) && cloned(
                    old(self)@.items[index as int],
                    v,
                )
            },
    {
        if !self.enabled {
            return None;
        }
        self.selected = self.items[index].clone();
        Some(SidebarNavEvent::Select(self.items[index].clone()))
    }
}

/// In a sidebar of distinct string items whose selection is one of them, a step forward and a
/// step back return to the item selected at first.
pub proof fn law_step_forward_then_back(
    m: SidebarNavModel<StringItem>,
    f1: SidebarNavModel<StringItem>,
    r1: Option<SidebarNavEvent<StringItem>>,
    f2: SidebarNavModel<StringItem>,
    r2: Option<SidebarNavEvent<StringItem>>,
    k: int,
)
    requires
        steps_to(m, f1, r1, true),
        steps_to(f1, f2, r2, false),
        forall|i: int, j: int|
            0 <= i < m.items.len() && 0 <= j < m.items.len() && i != j ==> (#[trigger] m.items[i])@
                != (#[trigger] m.items[j])@,
        0 <= k < m.items.len(),
        m.items[k]@ == m.selected@,
    ensures
        f2.selected@ == m.selected@,
{
    let n = m.items.len();
    assert forall|j: int| 0 <= j < n && j != k implies !(#[trigger] m.items[j]).eq_spec(&m.selected) by {
        assert(m.items[j]@ != m.items[k]@);
    }
    lemma_first_equal_unique(m.items, m.selected, k);
    let cur0 = choose|cur: nat|
        #![trigger wrap_down(cur, m.items.len())]
        #![trigger wrap_up(cur, m.items.len())]
        {
            let next = wrap_down(cur, m.items.len());
            &&& cur < m.items.len()
            &&& StringItem::obeys_eq_spec() ==> cur == match first_equal(m.items, m.selected) {
                Some(i) => i as nat,
                None => 0,
            }
            &&& cloned(m.items[next as int], f1.selected)
            &&& f1 == (SidebarNavModel { selected: f1.selected, ..m })
            &&& r1 matches Some(SidebarNavEvent::Select(v)) && cloned(f1.selected, v)
        };
    assert(cur0 == k);
    let d = wrap_down(k as nat, n);
    lemma_string_item_cloned(m.items[d as int], f1.selected);
    assert forall|j: int| 0 <= j < n && j != d implies !(#[trigger] f1.items[j]).eq_spec(&f1.selected) by {
        assert(m.items[j]@ != m.items[d as int]@);
    }
    lemma_first_equal_unique(f1.items, f1.selected, d as int);
    let cur1 = choose|cur: nat|
        #![trigger wrap_down(cur, f1.items.len())]
        #![trigger wrap_up(cur, f1.items.len())]
        {
            let next = wrap_up(cur, f1.items.len());
            &&& cur < f1.items.len()
            &&& StringItem::obeys_eq_spec() ==> cur == match first_equal(f1.items, f1.selected) {
                Some(i) => i as nat,
                None => 0,
            }
            &&& cloned(f1.items[next as int], f2.selected)
            &&& f2 == (SidebarNavModel { selected: f2.selected, ..f1 })
            &&& r2 matches Some(SidebarNavEvent::Select(v)) && cloned(f2.selected, v)
        };
    assert(cur1 == d);
    crate::widgets::selection::law_wrap_round_trip(k as nat, n);
    lemma_string_item_cloned(f1.items[wrap_up(d, n) as int], f2.selected);
}

} // verus!
