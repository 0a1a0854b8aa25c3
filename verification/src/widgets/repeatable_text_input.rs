//! Repeatable text input: a list of text entries with add and remove buttons
//!
//! The list never holds fewer entries than its minimum (at least one); its value
//! is the list of non-empty entries.
use vstd::prelude::*;
use crate::theme::Theme;
use crate::utils::text::texts;

verus! {

/// Events emitted by RepeatableTextInput
#[derive(Clone, Debug)]
pub enum RepeatableTextInputEvent {
    /// The non-empty values changed
    Change(Vec<String>),
    /// A new entry was added at the given index
    EntryAdded(usize),
    /// An entry was removed from the given index
    EntryRemoved(usize),
}

/// Where focus goes after an entry is removed with its focused remove button.
#[derive(Clone, Copy, Debug, PartialEq, Eq, Structural)]
pub enum RemovalFocus {
    /// The removed button did not have focus: nothing moves.
    Unchanged,
    /// No remove buttons are left: the first entry's input.
    FirstEntry,
    /// The remove button of the entry at this index.
    RemoveButton(usize),
}

/// How a press of an add or remove button reaches the widget: through the button's key
/// binding (Enter or Space while it has focus), or as a click, which such a key press also
/// produces right after.
#[derive(Clone, Copy, Debug, PartialEq, Eq, Structural)]
pub enum Activation {
    KeyBinding,
    Click,
}

/// Whether an activation by `how` acts, given whether a key binding has just acted: the
/// click that a handled key press produces is swallowed, so that one press acts once.
pub open spec fn activation_acts(how: Activation, just_handled: bool) -> bool {
    how == Activation::KeyBinding || !just_handled
}

/// The non-empty texts, in order.
pub open spec fn nonempty_texts(s: Seq<Seq<char>>) -> Seq<Seq<char>> {
    s.filter(|t: Seq<char>| t.len() > 0)
}

/// The initial values, with empty entries added up to `min`.
pub open spec fn padded(values: Seq<Seq<char>>, min: nat) -> Seq<Seq<char>> {
    if values.len() < min {
        values + Seq::new((min - values.len()) as nat, |i: int| Seq::<char>::empty())
    } else {
        values
    }
}

/// Whether the entry at `index` of `len` entries may be removed: one that exists, while
/// more than `min` remain.
pub open spec fn removable(len: nat, min: nat, index: int) -> bool {
    len > min && 0 <= index < len
}

/// Where focus goes after removing entry `index`, leaving `remaining` entries.
pub open spec fn focus_after_removal(had_focus: bool, remaining: nat, min: nat, index: int) -> RemovalFocus {
    if !had_focus {
        RemovalFocus::Unchanged
    } else if remaining <= min {
        RemovalFocus::FirstEntry
    } else if index > 0 {
        RemovalFocus::RemoveButton((index - 1) as usize)
    } else {
        RemovalFocus::RemoveButton(0)
    }
}

/// Decide where focus goes after removing entry `index`, leaving `remaining` entries.
pub fn removal_focus(had_focus: bool, remaining: usize, min: usize, index: usize) -> (r: RemovalFocus)
    ensures
        r == focus_after_removal(had_focus, remaining as nat, min as nat, index as int),
{
    if !had_focus {
        RemovalFocus::Unchanged
    } else if remaining <= min {
        RemovalFocus::FirstEntry
    } else if index > 0 {
        RemovalFocus::RemoveButton(index - 1)
    } else {
        RemovalFocus::RemoveButton(0)
    }
}

/// The non-empty strings of `v`, in order.
pub fn nonempty_values(v: &Vec<String>) -> (r: Vec<String>)
    ensures
        texts(r@) == nonempty_texts(texts(v@)),
{
    let mut out: Vec<String> = Vec::new();
    let n = v.len();
    let mut i: usize = 0;
    while i < n
        invariant
            n == v.len(),
            i <= n,
            texts(out@) == nonempty_texts(texts(v@).take(i as int)),
        decreases n - i,
    {
        let ghost before = texts(out@);
        proof {
            reveal(Seq::filter);
            assert(texts(v@).take(i + 1).drop_last() =~= texts(v@).take(i as int));
            assert(texts(v@).take(i + 1).last() == v@[i as int]@);
        }
        if !v[i].as_str().is_empty() {
            out.push(v[i].clone());
            assert(texts(out@) =~= before.push(v@[i as int]@));
        }
        i = i + 1;
    }
    assert(texts(v@).take(n as int) =~= texts(v@));
    out
}

/// `values` with empty strings added until there are `min` of them.
pub fn pad_values(values: Vec<String>, min: usize) -> (r: Vec<String>)
    ensures
        texts(r@) == padded(texts(values@), min as nat),
{
    let mut v = values;
    let ghost start = texts(v@);
    let n = v.len();
    if n >= min {
        return v;
    }
    let mut k: usize = n;
    while k < min
        invariant
            n <= k <= min,
            n == start.len(),
            texts(v@) == start + Seq::new((k - n) as nat, |i: int| Seq::<char>::empty()),
        decreases min - k,
    {
        let ghost before = texts(v@);
        v.push(String::new());
        assert(texts(v@) =~= before.push(Seq::<char>::empty()));
        k = k + 1;
        assert(texts(v@) =~= start + Seq::new((k - n) as nat, |i: int| Seq::<char>::empty()));
    }
    v
}

/// A repeatable text input as plain values.
pub struct RepeatableTextInputModel {
    pub placeholder: Option<Seq<char>>,
    pub initial_values: Seq<Seq<char>>,
    pub entries: Seq<Seq<char>>,
    pub initialized: bool,
    pub min_entries: nat,
    pub custom_theme: Option<Theme>,
    pub enabled: bool,
    pub action_just_handled: bool,
}

impl RepeatableTextInputModel {
    /// The list after its add button was activated by `how` (a disabled list has no active
    /// buttons).
    pub open spec fn add_activated(self, how: Activation) -> RepeatableTextInputModel {
        if !self.enabled {
            self
        } else if activation_acts(how, self.action_just_handled) {
            RepeatableTextInputModel {
                entries: self.entries.push(Seq::empty()),
                action_just_handled: how == Activation::KeyBinding,
                ..self
            }
        } else {
            RepeatableTextInputModel { action_just_handled: false, ..self }
        }
    }

    /// The list after the remove button of entry `index` was activated by `how`.
    pub open spec fn remove_activated(self, how: Activation, index: int) -> RepeatableTextInputModel {
        if !self.enabled {
            self
        } else if activation_acts(how, self.action_just_handled) {
            RepeatableTextInputModel {
                entries: if removable(self.entries.len(), self.min_entries, index) {
                    self.entries.remove(index)
                } else {
                    self.entries
                },
                action_just_handled: how == Activation::KeyBinding,
                ..self
            }
        } else {
            RepeatableTextInputModel { action_just_handled: false, ..self }
        }
    }
}

/// Repeatable text input widget state: the text of each entry
pub struct RepeatableTextInput {
    placeholder: Option<String>,
    initial_values: Vec<String>,
    entries: Vec<String>,
    initialized: bool,
    min_entries: usize,
    custom_theme: Option<Theme>,
    enabled: bool,
    action_just_handled: bool,
}

impl View for RepeatableTextInput {
    type V = RepeatableTextInputModel;

    closed spec fn view(&self) -> RepeatableTextInputModel {
        RepeatableTextInputModel {
            placeholder: match self.placeholder {
                Some(p) => Some(p@),
                None => None,
            },
            initial_values: texts(self.initial_values@),
            entries: texts(self.entries@),
            initialized: self.initialized,
            min_entries: self.min_entries as nat,
            custom_theme: self.custom_theme,
            enabled: self.enabled,
            action_just_handled: self.action_just_handled,
        }
    }
}

impl RepeatableTextInput {
    /// Create a new repeatable text input (minimum one entry)
    pub fn new() -> (r: Self)
        ensures
            r@ == (RepeatableTextInputModel {
                placeholder: None,
                initial_values: Seq::empty(),
                entries: Seq::empty(),
                initialized: false,
                min_entries: 1,
                custom_theme: None,
                enabled: true,
                action_just_handled: false,
            }),
    {
        let r = Self {
            placeholder: None,
            initial_values: Vec::new(),
            entries: Vec::new(),
            initialized: false,
            min_entries: 1,
            custom_theme: None,
            enabled: true,
            action_just_handled: false,
        };
        assert(r@.initial_values =~= Seq::<Seq<char>>::empty());
        assert(r@.entries =~= Seq::<Seq<char>>::empty());
        r
    }

    /// Set initial values
    pub fn with_values(self, values: Vec<String>) -> (r: Self)
        ensures
            r@ == (RepeatableTextInputModel { initial_values: texts(values@), ..self@ }),
    {
        let mut this = self;
        this.initial_values = values;
        this
    }

    /// Set placeholder text for each input
    pub fn placeholder(self, text: &str) -> (r: Self)
        ensures
            r@ == (RepeatableTextInputModel { placeholder: Some(text@), ..self@ }),
    {
        let mut this = self;
        this.placeholder = Some(text.to_owned());
        this
    }

    /// Set minimum number of entries (default: 1); at least 1
    pub fn min_entries(self, min: usize) -> (r: Self)
        ensures
            r@ == (RepeatableTextInputModel {
                min_entries: if min < 1 {
                    1
                } else {
                    min as nat
                },
                ..self@
            }),
    {
        let mut this = self;
        this.min_entries = if min < 1 {
            1
        } else {
            min
        };
        this
    }

    /// Set a custom theme for this widget
    pub fn theme(self, theme: Theme) -> (r: Self)
        ensures
            r@ == (RepeatableTextInputModel { custom_theme: Some(theme), ..self@ }),
    {
        let mut this = self;
        this.custom_theme = Some(theme);
        this
    }

    /// Set enabled state (builder pattern)
    pub fn with_enabled(self, enabled: bool) -> (r: Self)
        ensures
            r@ == (RepeatableTextInputModel { enabled, ..self@ }),
    {
        let mut this = self;
        this.enabled = enabled;
        this
    }

    /// Check if the widget is enabled
    pub fn is_enabled(&self) -> (r: bool)
        ensures
            r == self@.enabled,
    {
        self.enabled
    }

    /// Set enabled state programmatically
    pub fn set_enabled(&mut self, enabled: bool)
        ensures
            final(self)@ == (RepeatableTextInputModel { enabled, ..old(self)@ }),
    {
        self.enabled = enabled;
    }

    /// Get all non-empty values
    pub fn values(&self) -> (r: Vec<String>)
        ensures
            texts(r@) == nonempty_texts(self@.entries),
    {
        nonempty_values(&self.entries)
    }

    /// The number of entries.
    pub fn entry_count(&self) -> (r: usize)
        ensures
            r == self@.entries.len(),
    {
        self.entries.len()
    }

    /// The text of entry `index`.
    pub fn entry(&self, index: usize) -> (r: &str)
        requires
            index < self@.entries.len(),
        ensures
            r@ == self@.entries[index as int],
    {
        self.entries[index].as_str()
    }

    /// Create the entries from the initial values on first use, padded with empty entries
    /// to the minimum; later calls change nothing.
    pub fn initialize_entries(&mut self)
        ensures
            old(self)@.initialized ==> final(self)@ == old(self)@,
            !old(self)@.initialized ==> final(self)@ == (RepeatableTextInputModel {
                initial_values: Seq::empty(),
                entries: old(self)@.entries + padded(
                    old(self)@.initial_values,
                    old(self)@.min_entries,
                ),
                initialized: true,
                ..old(self)@
            }),
    {
        if self.initialized {
            return;
        }
        self.initialized = true;
        let mut values: Vec<String> = Vec::new();
        std::mem::swap(&mut values, &mut self.initial_values);
        let values = pad_values(values, self.min_entries);
        let ghost before = texts(self.entries@);
        let mut values = values;
        self.entries.append(&mut values);
        assert(texts(self.entries@) =~= before + padded(
            old(self)@.initial_values,
            old(self)@.min_entries,
        ));
        assert(texts(self.initial_values@) =~= Seq::<Seq<char>>::empty());
    }

    /// Add an empty entry at the end; its index and the values are announced.
    pub fn add_entry(&mut self) -> (r: (RepeatableTextInputEvent, RepeatableTextInputEvent))
        ensures
            final(self)@ == (RepeatableTextInputModel {
                entries: old(self)@.entries.push(Seq::empty()),
                ..old(self)@
            }),
            r.0 matches RepeatableTextInputEvent::EntryAdded(i) && i == old(self)@.entries.len(),
            r.1 matches RepeatableTextInputEvent::Change(v) && texts(v@) == nonempty_texts(
                final(self)@.entries,
            ),
    {
        let index = self.entries.len();
        let ghost before = texts(self.entries@);
        self.entries.push(String::new());
        assert(texts(self.entries@) =~= before.push(Seq::<char>::empty()));
        (RepeatableTextInputEvent::EntryAdded(index), RepeatableTextInputEvent::Change(self.values()))
    }

    /// Remove entry `index` when more than the minimum remain; `had_focus` tells whether its
    /// remove button had focus. The removal is announced with the new values, and the
    /// place focus moves to is returned.
    pub fn remove_entry(&mut self, index: usize, had_focus: bool) -> (r: Option<
        (RepeatableTextInputEvent, RepeatableTextInputEvent, RemovalFocus),
    >)
        ensures
            !removable(old(self)@.entries.len(), old(self)@.min_entries, index as int)
                ==> final(self)@ == old(self)@ && r is None,
            removable(old(self)@.entries.len(), old(self)@.min_entries, index as int) ==> {
                &&& final(self)@ == (RepeatableTextInputModel {
                    entries: old(self)@.entries.remove(index as int),
                    ..old(self)@
                })
                &&& r matches Some((removed, change, focus)) && {
                    &&& removed matches RepeatableTextInputEvent::EntryRemoved(i) && i == index
                    &&& change matches RepeatableTextInputEvent::Change(v) && texts(v@)
                        == nonempty_texts(final(self)@.entries)
                    &&& focus == focus_after_removal(
                        had_focus,
                        final(self)@.entries.len(),
                        old(self)@.min_entries,
                        index as int,
                    )
                }
            },
    {
        if self.entries.len() > self.min_entries && index < self.entries.len() {
            let ghost before = texts(self.entries@);
            self.entries.remove(index);
            assert(texts(self.entries@) =~= before.remove(index as int));
            let focus = removal_focus(had_focus, self.entries.len(), self.min_entries, index);
            Some(
                (
                    RepeatableTextInputEvent::EntryRemoved(index),
                    RepeatableTextInputEvent::Change(self.values()),
                    focus,
                ),
            )
        } else {
            None
        }
    }

    /// The add button was activated by `how`: on an enabled list the entry is added and
    /// announced, unless this is the click that follows a key press already handled.
    pub fn activate_add(&mut self, how: Activation) -> (r: Option<
        (RepeatableTextInputEvent, RepeatableTextInputEvent),
    >)
        ensures
            final(self)@ == old(self)@.add_activated(how),
            r is Some <==> old(self)@.enabled && activation_acts(how, old(self)@.action_just_handled),
            r matches Some((added, change)) ==> {
                &&& added matches RepeatableTextInputEvent::EntryAdded(i) && i
                    == old(self)@.entries.len()
                &&& change matches RepeatableTextInputEvent::Change(v) && texts(v@)
                    == nonempty_texts(final(self)@.entries)
            },
    {
        if !self.enabled {
            return None;
        }
        if how == Activation::Click && self.action_just_handled {
            self.action_just_handled = false;
            return None;
        }
        self.action_just_handled = how == Activation::KeyBinding;
        Some(self.add_entry())
    }

    /// The remove button of entry `index` was activated by `how` (`had_focus`: whether it
    /// had focus): on an enabled list the entry is removed as `remove_entry` does, unless
    /// this is the click that follows a key press already handled.
    pub fn activate_remove(&mut self, how: Activation, index: usize, had_focus: bool) -> (r: Option<
        (RepeatableTextInputEvent, RepeatableTextInputEvent, RemovalFocus),
    >)
        ensures
            final(self)@ == old(self)@.remove_activated(how, index as int),
            r is Some <==> old(self)@.enabled && activation_acts(how, old(self)@.action_just_handled)
                && removable(old(self)@.entries.len(), old(self)@.min_entries, index as int),
            r matches Some((removed, change, focus)) ==> {
                &&& removed matches RepeatableTextInputEvent::EntryRemoved(i) && i == index
                &&& change matches RepeatableTextInputEvent::Change(v) && texts(v@)
                    == nonempty_texts(final(self)@.entries)
                &&& focus == focus_after_removal(
                    had_focus,
                    final(self)@.entries.len(),
                    old(self)@.min_entries,
                    index as int,
                )
            },
    {
        if !self.enabled {
            return None;
        }
        if how == Activation::Click && self.action_just_handled {
            self.action_just_handled = false;
            return None;
        }
        self.action_just_handled = how == Activation::KeyBinding;
        self.remove_entry(index, had_focus)
    }

    /// Entry `index` was edited to `text`; the values are announced.
    pub fn set_entry(&mut self, index: usize, text: &str) -> (r: RepeatableTextInputEvent)
        requires
            index < old(self)@.entries.len(),
        ensures
            final(self)@ == (RepeatableTextInputModel {
                entries: old(self)@.entries.update(index as int, text@),
                ..old(self)@
            }),
            r matches RepeatableTextInputEvent::Change(v) && texts(v@) == nonempty_texts(
                final(self)@.entries,
            ),
    {
        let ghost before = texts(self.entries@);
        self.entries.set(index, text.to_owned());
        assert(texts(self.entries@) =~= before.update(index as int, text@));
        RepeatableTextInputEvent::Change(self.values())
    }
}

/// The list never shrinks below its minimum: after initialisation there are at least
/// `min` entries, and a removal that goes ahead leaves at least `min`.
pub proof fn law_minimum_entries_kept(values: Seq<Seq<char>>, min: nat, len: nat, index: int)
    ensures
        padded(values, min).len() >= min,
        padded(values, min).len() >= values.len(),
        removable(len, min, index) ==> len - 1 >= min,
{
}

/// One press of Enter or Space on the focused add button (its key binding, then the click
/// it also produces) adds exactly one entry and leaves nothing pending; a click on its own
/// adds one entry too.
pub proof fn law_add_press_acts_once(m: RepeatableTextInputModel)
    requires
        m.enabled,
    ensures
        m.add_activated(Activation::KeyBinding).add_activated(Activation::Click) == (
        RepeatableTextInputModel {
            entries: m.entries.push(Seq::empty()),
            action_just_handled: false,
            ..m
        }),
        !m.action_just_handled ==> m.add_activated(Activation::Click) == (RepeatableTextInputModel {
            entries: m.entries.push(Seq::empty()),
            ..m
        }),
{
}

/// One press of Enter or Space on the focused remove button of entry `index` removes at
/// most that one entry (none when the minimum would be broken) and leaves nothing pending.
pub proof fn law_remove_press_acts_once(m: RepeatableTextInputModel, index: int)
    requires
        m.enabled,
    ensures
        m.remove_activated(Activation::KeyBinding, index).remove_activated(Activation::Click, index)
            == (RepeatableTextInputModel {
            entries: if removable(m.entries.len(), m.min_entries, index) {
                m.entries.remove(index)
            } else {
                m.entries
            },
            action_just_handled: false,
            ..m
        }),
{
}

} // verus!
