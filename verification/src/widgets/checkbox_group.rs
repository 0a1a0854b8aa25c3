//! Checkbox group: several choices, any number of them selected
//!
//! The selection is a set of choice values; it is reported in sorted order. The
//! keyboard moves a highlight up and down (wrapping around) and Space toggles the
//! highlighted choice.
use vstd::prelude::*;
use crate::theme::Theme;
use crate::utils::text::{
    lemma_text_lt_total, lemma_text_lt_transitive, str_equal, text_less, text_lt, texts,
};

verus! {

/// Events emitted by CheckboxGroup
#[derive(Clone, Debug)]
pub enum CheckboxGroupEvent {
    /// Selection changed (contains all currently selected values)
    Change(Vec<String>),
}

/// Each text comes before the next: sorted, and no text twice.
pub open spec fn sorted_strict(s: Seq<Seq<char>>) -> bool {
    forall|i: int, j: int| 0 <= i < j < s.len() ==> text_lt(#[trigger] s[i], #[trigger] s[j])
}

/// A checkbox group as plain values.
pub struct CheckboxGroupModel {
    pub choices: Seq<Seq<char>>,
    pub selected: Set<Seq<char>>,
    pub highlight_index: nat,
    pub custom_theme: Option<Theme>,
    pub enabled: bool,
}

impl CheckboxGroupModel {
    /// `choice` added to the selection if it was not in it, removed if it was.
    pub open spec fn toggled(self, choice: Seq<char>) -> CheckboxGroupModel {
        CheckboxGroupModel {
            selected: if self.selected.contains(choice) {
                self.selected.remove(choice)
            } else {
                self.selected.insert(choice)
            },
            ..self
        }
    }

    /// The highlight one choice up, from the first to the last.
    pub open spec fn highlight_up(self) -> nat {
        if self.highlight_index > 0 {
            (self.highlight_index - 1) as nat
        } else if self.choices.len() > 0 {
            (self.choices.len() - 1) as nat
        } else {
            self.highlight_index
        }
    }

    /// The highlight one choice down, from the last to the first.
    pub open spec fn highlight_down(self) -> nat {
        if self.highlight_index + 1 < self.choices.len() {
            self.highlight_index + 1
        } else {
            0
        }
    }
}

/// An event reports the selection `sel` when it lists its values in sorted order, each once.
pub open spec fn reports(e: CheckboxGroupEvent, sel: Set<Seq<char>>) -> bool {
    match e {
        CheckboxGroupEvent::Change(v) => {
            &&& sorted_strict(texts(v@))
            &&& forall|t: Seq<char>| texts(v@).contains(t) <==> sel.contains(t)
        },
    }
}

/// The texts of a list as a set.
pub open spec fn text_set(v: Seq<String>) -> Set<Seq<char>> {
    Set::new(|t: Seq<char>| texts(v).contains(t))
}

proof fn lemma_contains_push(s: Seq<Seq<char>>, x: Seq<char>)
    ensures
        forall|t: Seq<char>| #[trigger] s.push(x).contains(t) <==> (s.contains(t) || t == x),
{
    assert forall|t: Seq<char>| #[trigger] s.push(x).contains(t) <==> (s.contains(t) || t == x) by {
        if s.contains(t) {
            let i = choose|i: int| 0 <= i < s.len() && s[i] == t;
            assert(s.push(x)[i] == t);
        }
        if t == x {
            assert(s.push(x)[s.len() as int] == t);
        }
        if s.push(x).contains(t) && t != x {
            let i = choose|i: int| 0 <= i < s.push(x).len() && s.push(x)[i] == t;
            assert(s[i] == t);
        }
    }
}

proof fn lemma_contains_insert(s: Seq<Seq<char>>, p: int, x: Seq<char>)
    requires
        0 <= p <= s.len(),
    ensures
        forall|t: Seq<char>| #[trigger] s.insert(p, x).contains(t) <==> (s.contains(t) || t == x),
{
    let u = s.insert(p, x);
    assert forall|t: Seq<char>| #[trigger] u.contains(t) <==> (s.contains(t) || t == x) by {
        if s.contains(t) {
            let i = choose|i: int| 0 <= i < s.len() && s[i] == t;
            if i < p {
                assert(u[i] == t);
            } else {
                assert(u[i + 1] == t);
            }
        }
        if t == x {
            assert(u[p] == t);
        }
        if u.contains(t) && t != x {
            let i = choose|i: int| 0 <= i < u.len() && u[i] == t;
            if i < p {
                assert(s[i] == t);
            } else {
                assert(s[i - 1] == t);
            }
        }
    }
}

/// The first index of the sorted `out` whose text does not come before `x`.
fn insertion_point(out: &Vec<String>, x: &str) -> (p: usize)
    ensures
        p <= out.len(),
        forall|j: int| 0 <= j < p ==> text_lt(#[trigger] texts(out@)[j], x@),
        p < out.len() ==> !text_lt(texts(out@)[p as int], x@),
{
    let n = out.len();
    let mut p: usize = 0;
    while p < n
        invariant
            n == out.len(),
            p <= n,
            forall|j: int| 0 <= j < p ==> text_lt(#[trigger] texts(out@)[j], x@),
        decreases n - p,
    {
        if !text_less(out[p].as_str(), x) {
            return p;
        }
        p = p + 1;
    }
    p
}

/// The texts of `v` in sorted order, each once.
fn sorted_unique(v: &Vec<String>) -> (r: Vec<String>)
    ensures
        sorted_strict(texts(r@)),
        forall|t: Seq<char>| texts(r@).contains(t) <==> texts(v@).contains(t),
{
    let mut out: Vec<String> = Vec::new();
    let n = v.len();
    let mut k: usize = 0;
    while k < n
        invariant
            n == v.len(),
            k <= n,
            sorted_strict(texts(out@)),
            forall|t: Seq<char>| texts(out@).contains(t) <==> texts(v@).take(k as int).contains(t),
        decreases n - k,
    {
        let x = &v[k];
        let ghost xs = x@;
        let ghost old_out = texts(out@);
        let p = insertion_point(&out, x.as_str());
        assert(texts(v@).take(k + 1) =~= texts(v@).take(k as int).push(xs));
        if p < out.len() && str_equal(out[p].as_str(), x.as_str()) {
            proof {
                lemma_contains_push(texts(v@).take(k as int), xs);
                assert(old_out[p as int] == xs);
                assert(old_out.contains(xs));
            }
        } else {
            out.insert(p, x.clone());
            let ghost new_out = texts(out@);
            assert(new_out =~= old_out.insert(p as int, xs));
            proof {
                if p < old_out.len() {
                    lemma_text_lt_total(old_out[p as int], xs);
                }
                assert forall|i: int, j: int|
                    0 <= i < j < new_out.len() implies text_lt(
                    #[trigger] new_out[i],
                    #[trigger] new_out[j],
                ) by {
                    if j < p {
                        assert(text_lt(old_out[i], old_out[j]));
                    } else if j == p {
                        assert(text_lt(old_out[i], xs));
                    } else if i < p {
                        assert(text_lt(old_out[i], xs));
                        assert(text_lt(xs, old_out[p as int]));
                        if j - 1 > p {
                            assert(text_lt(old_out[p as int], old_out[j - 1]));
                            lemma_text_lt_transitive(xs, old_out[p as int], old_out[j - 1]);
                        }
                        lemma_text_lt_transitive(old_out[i], xs, old_out[j - 1]);
                    } else if i == p {
                        assert(text_lt(xs, old_out[p as int]));
                        if j - 1 > p {
                            assert(text_lt(old_out[p as int], old_out[j - 1]));
                            lemma_text_lt_transitive(xs, old_out[p as int], old_out[j - 1]);
                        }
                    } else {
                        assert(text_lt(old_out[i - 1], old_out[j - 1]));
                    }
                }
                lemma_contains_push(texts(v@).take(k as int), xs);
                lemma_contains_insert(old_out, p as int, xs);
            }
        }
        k = k + 1;
    }
    assert(texts(v@).take(n as int) =~= texts(v@));
    out
}

/// Checkbox group widget state
pub struct CheckboxGroup {
    choices: Vec<String>,
    selected: Vec<String>,
    highlight_index: usize,
    custom_theme: Option<Theme>,
    enabled: bool,
}

impl View for CheckboxGroup {
    type V = CheckboxGroupModel;

    closed spec fn view(&self) -> CheckboxGroupModel {
        CheckboxGroupModel {
            choices: texts(self.choices@),
            selected: text_set(self.selected@),
            highlight_index: self.highlight_index as nat,
            custom_theme: self.custom_theme,
            enabled: self.enabled,
        }
    }
}

impl CheckboxGroup {
    /// Create a new checkbox group: no choices, nothing selected, enabled
    pub fn new() -> (r: Self)
        ensures
            r@ == (CheckboxGroupModel {
                choices: Seq::empty(),
                selected: Set::empty(),
                highlight_index: 0,
                custom_theme: None,
                enabled: true,
            }),
    {
        let r = Self {
            choices: Vec::new(),
            selected: Vec::new(),
            highlight_index: 0,
            custom_theme: None,
            enabled: true,
        };
        assert(r@.choices =~= Seq::<Seq<char>>::empty());
        assert(r@.selected =~= Set::<Seq<char>>::empty());
        r
    }

    /// Set choices (builder pattern)
    pub fn choices(self, choices: Vec<String>) -> (r: Self)
        ensures
            r@ == (CheckboxGroupModel { choices: texts(choices@), ..self@ }),
    {
        let mut this = self;
        this.choices = choices;
        this
    }

    /// Set initially selected values (builder pattern)
    pub fn with_selected(self, selected: Vec<String>) -> (r: Self)
        ensures
            r@ == (CheckboxGroupModel { selected: text_set(selected@), ..self@ }),
    {
        let mut this = self;
        this.selected = selected;
        this
    }

    /// Set custom theme (builder pattern)
    pub fn theme(self, theme: Theme) -> (r: Self)
        ensures
            r@ == (CheckboxGroupModel { custom_theme: Some(theme), ..self@ }),
    {
        let mut this = self;
        this.custom_theme = Some(theme);
        this
    }

    /// Set enabled state (builder pattern)
    pub fn with_enabled(self, enabled: bool) -> (r: Self)
        ensures
            r@ == (CheckboxGroupModel { enabled, ..self@ }),
    {
        let mut this = self;
        this.enabled = enabled;
        this
    }

    /// Get the currently selected values (sorted)
    pub fn get_selected(&self) -> (r: Vec<String>)
        ensures
            reports(CheckboxGroupEvent::Change(r), self@.selected),
    {
        sorted_unique(&self.selected)
    }

    /// Check if a specific value is selected
    pub fn is_selected(&self, value: &str) -> (r: bool)
        ensures
            r == self@.selected.contains(value@),
    {
        let ghost s = texts(self.selected@);
        let n = self.selected.len();
        let mut i: usize = 0;
        while i < n
            invariant
                n == self.selected.len(),
                s == texts(self.selected@),
                i <= n,
                forall|j: int| 0 <= j < i ==> s[j] != value@,
            decreases n - i,
        {
            if str_equal(self.selected[i].as_str(), value) {
                assert(s[i as int] == value@);
                return true;
            }
            i = i + 1;
        }
        false
    }

    /// Set selected values programmatically; the new selection is announced.
    pub fn set_selected(&mut self, selected: Vec<String>) -> (r: CheckboxGroupEvent)
        ensures
            final(self)@ == (CheckboxGroupModel { selected: text_set(selected@), ..old(self)@ }),
            reports(r, final(self)@.selected),
    {
        self.selected = selected;
        CheckboxGroupEvent::Change(self.get_selected())
    }

    /// Check if the checkbox group is enabled
    pub fn is_enabled(&self) -> (r: bool)
        ensures
            r == self@.enabled,
    {
        self.enabled
    }

    /// Set enabled state programmatically
    pub fn set_enabled(&mut self, enabled: bool)
        ensures
            final(self)@ == (CheckboxGroupModel { enabled, ..old(self)@ }),
    {
        self.enabled = enabled;
    }

    /// The highlighted choice's index.
    pub fn highlight_index(&self) -> (r: usize)
        ensures
            r == self@.highlight_index,
    {
        self.highlight_index
    }

    /// Add `choice` to the selection, or remove it if it is selected; the new selection is
    /// announced.
    pub fn toggle_choice(&mut self, choice: String) -> (r: CheckboxGroupEvent)
        ensures
            final(self)@ == old(self)@.toggled(choice@),
            reports(r, final(self)@.selected),
    {
        let ghost c = choice@;
        if self.is_selected(choice.as_str()) {
            let ghost old_sel = texts(self.selected@);
            let mut kept: Vec<String> = Vec::new();
            let n = self.selected.len();
            let mut i: usize = 0;
            while i < n
                invariant
                    n == self.selected.len(),
                    old_sel == texts(self.selected@),
                    c == choice@,
                    i <= n,
                    forall|t: Seq<char>|
                        texts(kept@).contains(t) <==> (old_sel.take(i as int).contains(t) && t
                            != c),
                decreases n - i,
            {
                let ghost before = texts(kept@);
                assert(old_sel.take(i + 1) =~= old_sel.take(i as int).push(old_sel[i as int]));
                proof {
                    lemma_contains_push(old_sel.take(i as int), old_sel[i as int]);
                    lemma_contains_push(before, old_sel[i as int]);
                }
                assert(old_sel[i as int] == self.selected@[i as int]@);
                let keep = !str_equal(self.selected[i].as_str(), choice.as_str());
                if keep {
                    kept.push(self.selected[i].clone());
                    assert(texts(kept@) =~= before.push(old_sel[i as int]));
                }
                assert(keep ==> texts(kept@) == before.push(old_sel[i as int]));
                assert(!keep ==> texts(kept@) == before && old_sel[i as int] == c);
                assert forall|t: Seq<char>|
                    texts(kept@).contains(t) <==> (old_sel.take(i + 1).contains(t) && t != c) by {
                    assert(old_sel.take(i as int).push(old_sel[i as int]).contains(t) <==> (
                    old_sel.take(i as int).contains(t) || t == old_sel[i as int]));
                    if old_sel[i as int] != c {
                        assert(before.push(old_sel[i as int]).contains(t) <==> (before.contains(t)
                            || t == old_sel[i as int]));
                    }
                }
                i = i + 1;
            }
            assert(old_sel.take(n as int) =~= old_sel);
            self.selected = kept;
            assert(text_set(self.selected@) =~= text_set(old(self).selected@).remove(c));
        } else {
            let ghost before = texts(self.selected@);
            self.selected.push(choice);
            assert(texts(self.selected@) =~= before.push(c));
            proof {
                lemma_contains_push(before, c);
            }
            assert(text_set(self.selected@) =~= text_set(old(self).selected@).insert(c));
        }
        CheckboxGroupEvent::Change(self.get_selected())
    }

    /// A key press while focused (Tab having been handled by focus navigation): Up and Down
    /// move the highlight, wrapping around at the ends, and Space toggles the highlighted
    /// choice. A disabled group ignores keys.
    pub fn key_down(&mut self, key: &str) -> (r: Option<CheckboxGroupEvent>)
        ensures
            !old(self)@.enabled ==> final(self)@ == old(self)@ && r is None,
            old(self)@.enabled && key@ == "up"@ ==> final(self)@ == (CheckboxGroupModel {
                highlight_index: old(self)@.highlight_up(),
                ..old(self)@
            }) && r is None,
            old(self)@.enabled && key@ == "down"@ ==> final(self)@ == (CheckboxGroupModel {
                highlight_index: old(self)@.highlight_down(),
                ..old(self)@
            }) && r is None,
            old(self)@.enabled && key@ == "space"@ ==> {
                let h = old(self)@.highlight_index;
                if h < old(self)@.choices.len() {
                    &&& final(self)@ == old(self)@.toggled(old(self)@.choices[h as int])
                    &&& r matches Some(e) && reports(e, final(self)@.selected)
                } else {
                    final(self)@ == old(self)@ && r is None
                }
            },
            key@ != "up"@ && key@ != "down"@ && key@ != "space"@ ==> final(self)@ == old(self)@
                && r is None,
    {
        if !self.enabled {
            return None;
        }
        proof {
            reveal_strlit("up");
            reveal_strlit("down");
            reveal_strlit("space");
            assert("up"@.len() == 2 && "down"@.len() == 4 && "space"@.len() == 5);
        }
        let n = self.choices.len();
        if str_equal(key, "up") {
            if self.highlight_index > 0 {
                self.highlight_index = self.highlight_index - 1;
            } else if n > 0 {
                self.highlight_index = n - 1;
            }
            None
        } else if str_equal(key, "down") {
            if n > 0 && self.highlight_index < n - 1 {
                self.highlight_index = self.highlight_index + 1;
            } else {
                self.highlight_index = 0;
            }
            None
        } else if str_equal(key, "space") {
            if self.highlight_index < n {
                let choice = self.choices[self.highlight_index].clone();
                Some(self.toggle_choice(choice))
            } else {
                None
            }
        } else {
            None
        }
    }

    /// A click on choice `index` of an enabled group highlights it and toggles it.
    pub fn click_choice(&mut self, index: usize) -> (r: Option<CheckboxGroupEvent>)
        requires
            index < old(self)@.choices.len(),
        ensures
            !old(self)@.enabled ==> final(self)@ == old(self)@ && r is None,
            old(self)@.enabled ==> {
                &&& final(self)@ == (CheckboxGroupModel {
                    highlight_index: index as nat,
                    ..old(self)@
                }).toggled(old(self)@.choices[index as int])
                &&& r matches Some(e) && reports(e, final(self)@.selected)
            },
    {
        if !self.enabled {
            return None;
        }
        self.highlight_index = index;
        let choice = self.choices[index].clone();
        Some(self.toggle_choice(choice))
    }

    /// The colours of a choice's box (background, border, check mark) for its state.
    pub fn checkbox_colors(&self, theme: &Theme, is_selected: bool) -> (r: (u32, u32, u32))
        ensures
            r == (if self@.enabled {
                if is_selected {
                    (theme.accent, theme.border_checkbox, theme.bg_white)
                } else {
                    (theme.bg_input, theme.border_checkbox, 0u32)
                }
            } else if is_selected {
                (theme.disabled_text, theme.disabled_text, theme.disabled_bg)
            } else {
                (theme.disabled_bg, theme.disabled_text, 0u32)
            }),
    {
        if self.enabled {
            if is_selected {
                (theme.accent, theme.border_checkbox, theme.bg_white)
            } else {
                (theme.bg_input, theme.border_checkbox, 0)
            }
        } else if is_selected {
            (theme.disabled_text, theme.disabled_text, theme.disabled_bg)
        } else {
            (theme.disabled_bg, theme.disabled_text, 0)
        }
    }
}

/// Toggling a choice twice restores the selection.
pub proof fn law_toggle_twice(m: CheckboxGroupModel, choice: Seq<char>)
    ensures
        m.toggled(choice).toggled(choice).selected == m.selected,
{
    if m.selected.contains(choice) {
        assert(m.selected.remove(choice).insert(choice) =~= m.selected);
    } else {
        assert(m.selected.insert(choice).remove(choice) =~= m.selected);
    }
}

/// Moving the highlight down and back up returns it to where it was, for a highlight on
/// one of the choices.
pub proof fn law_highlight_round_trip(m: CheckboxGroupModel)
    requires
        m.highlight_index < m.choices.len(),
    ensures
        (CheckboxGroupModel { highlight_index: m.highlight_down(), ..m }).highlight_up()
            == m.highlight_index,
        m.highlight_down() < m.choices.len(),
        m.highlight_up() < m.choices.len(),
{
}

} // verus!
