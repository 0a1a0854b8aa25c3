//! Repeatable directory picker: a list of directory pickers with add and remove buttons
//!
//! Every entry shares the list's configuration; the list never holds fewer
//! entries than its minimum, and its value is the list of non-empty paths.
use vstd::prelude::*;
use crate::theme::Theme;
use crate::utils::text::texts;
use crate::widgets::directory_picker::{
    directory_validation, DirectoryPicker, DirectoryPickerEvent, DirectoryPickerModel,
    DirectoryPickerValidation,
};
use crate::widgets::path_display::ValidationDisplay;
use crate::widgets::repeatable_text_input::{nonempty_texts, padded, removable};

verus! {

/// Events emitted by RepeatableDirectoryPicker
#[derive(Clone, Debug)]
pub enum RepeatableDirectoryPickerEvent {
    /// Values changed (includes all current values)
    Change(Vec<String>),
    /// A new entry was added at the given index
    EntryAdded(usize),
    /// An entry was removed from the given index
    EntryRemoved(usize),
}

/// A repeatable directory picker as plain values.
pub struct RepeatableDirectoryPickerModel {
    pub placeholder: Option<Seq<char>>,
    pub browse_shortcut_enabled: bool,
    pub validation_display: ValidationDisplay,
    pub initial_values: Seq<Seq<char>>,
    pub entries: Seq<DirectoryPickerModel>,
    pub initialized: bool,
    pub min_entries: nat,
    pub custom_theme: Option<Theme>,
    pub enabled: bool,
}

impl RepeatableDirectoryPickerModel {
    /// A new entry holding `value`, configured like the list.
    pub open spec fn entry_for(self, value: Seq<char>) -> DirectoryPickerModel {
        DirectoryPickerModel {
            value,
            placeholder: self.placeholder,
            custom_theme: self.custom_theme,
            browse_shortcut_enabled: self.browse_shortcut_enabled,
            validation_display: self.validation_display,
            enabled: self.enabled,
            is_editing: false,
            pending_refocus: false,
        }
    }

    /// The entries' paths.
    pub open spec fn paths(self) -> Seq<Seq<char>> {
        self.entries.map_values(|e: DirectoryPickerModel| e.value)
    }
}

/// Whether `vs` is a possible outcome of validating each of `entries` against the disk.
pub open spec fn validations_of(entries: Seq<DirectoryPickerModel>, vs: Seq<DirectoryPickerValidation>) -> bool {
    &&& vs.len() == entries.len()
    &&& forall|i: int|
        0 <= i < vs.len() ==> {
            &&& (entries[i].value.len() == 0 <==> #[trigger] vs[i] == DirectoryPickerValidation::Empty)
            &&& entries[i].value.len() > 0 ==> exists|d: bool, f: bool|
                vs[i] == directory_validation(d, f)
        }
}

/// Every verdict is either an empty entry or an existing directory.
pub open spec fn all_usable(vs: Seq<DirectoryPickerValidation>) -> bool {
    forall|i: int|
        0 <= i < vs.len() ==> #[trigger] vs[i] == DirectoryPickerValidation::Empty || vs[i]
            == DirectoryPickerValidation::Valid
}

/// Whether every verdict is an empty entry or an existing directory.
pub fn all_entries_usable(vs: &Vec<DirectoryPickerValidation>) -> (r: bool)
    ensures
        r == all_usable(vs@),
{
    let n = vs.len();
    let mut i: usize = 0;
    while i < n
        invariant
            n == vs.len(),
            i <= n,
            forall|j: int|
                0 <= j < i ==> #[trigger] vs@[j] == DirectoryPickerValidation::Empty || vs@[j]
                    == DirectoryPickerValidation::Valid,
        decreases n - i,
    {
        let ok = match &vs[i] {
            DirectoryPickerValidation::Empty | DirectoryPickerValidation::Valid => true,
            _ => false,
        };
        if !ok {
            return false;
        }
        i = i + 1;
    }
    true
}

/// Repeatable directory picker widget state
pub struct RepeatableDirectoryPicker {
    placeholder: Option<String>,
    browse_shortcut_enabled: bool,
    validation_display: ValidationDisplay,
    initial_values: Vec<String>,
    entries: Vec<DirectoryPicker>,
    initialized: bool,
    min_entries: usize,
    custom_theme: Option<Theme>,
    enabled: bool,
}

pub open spec fn entry_models(v: Seq<DirectoryPicker>) -> Seq<DirectoryPickerModel> {
    v.map_values(|e: DirectoryPicker| e@)
}

impl View for RepeatableDirectoryPicker {
    type V = RepeatableDirectoryPickerModel;

    closed spec fn view(&self) -> RepeatableDirectoryPickerModel {
        RepeatableDirectoryPickerModel {
            placeholder: match self.placeholder {
                Some(p) => Some(p@),
                None => None,
            },
            browse_shortcut_enabled: self.browse_shortcut_enabled,
            validation_display: self.validation_display,
            initial_values: texts(self.initial_values@),
            entries: entry_models(self.entries@),
            initialized: self.initialized,
            min_entries: self.min_entries as nat,
            custom_theme: self.custom_theme,
            enabled: self.enabled,
        }
    }
}

impl RepeatableDirectoryPicker {
    /// Create a new repeatable directory picker (minimum one entry)
    pub fn new() -> (r: Self)
        ensures
            r@ == (RepeatableDirectoryPickerModel {
                placeholder: None,
                browse_shortcut_enabled: true,
                validation_display: ValidationDisplay::Full,
                initial_values: Seq::empty(),
                entries: Seq::empty(),
                initialized: false,
                min_entries: 1,
                custom_theme: None,
                enabled: true,
            }),
    {
        let r = Self {
            placeholder: None,
            browse_shortcut_enabled: true,
            validation_display: ValidationDisplay::Full,
            initial_values: Vec::new(),
            entries: Vec::new(),
            initialized: false,
            min_entries: 1,
            custom_theme: None,
            enabled: true,
        };
        assert(r@.initial_values =~= Seq::<Seq<char>>::empty());
        assert(r@.entries =~= Seq::<DirectoryPickerModel>::empty());
        r
    }

    /// Set initial values
    pub fn with_values(self, values: Vec<String>) -> (r: Self)
        ensures
            r@ == (RepeatableDirectoryPickerModel { initial_values: texts(values@), ..self@ }),
    {
        let mut this = self;
        this.initial_values = values;
        this
    }

    /// Set placeholder text for each picker
    pub fn placeholder(self, text: &str) -> (r: Self)
        ensures
            r@ == (RepeatableDirectoryPickerModel { placeholder: Some(text@), ..self@ }),
    {
        let mut this = self;
        this.placeholder = Some(text.to_owned());
        this
    }

    /// Enable or disable the browse shortcut for each picker
    pub fn browse_shortcut(self, enabled: bool) -> (r: Self)
        ensures
            r@ == (RepeatableDirectoryPickerModel { browse_shortcut_enabled: enabled, ..self@ }),
    {
        let mut this = self;
        this.browse_shortcut_enabled = enabled;
        this
    }

    /// Set how validation feedback is displayed for each picker
    pub fn validation_display(self, display: ValidationDisplay) -> (r: Self)
        ensures
            r@ == (RepeatableDirectoryPickerModel { validation_display: display, ..self@ }),
    {
        let mut this = self;
        this.validation_display = display;
        this
    }

    /// Set minimum number of entries (default: 1); at least 1
    pub fn min_entries(self, min: usize) -> (r: Self)
        ensures
            r@ == (RepeatableDirectoryPickerModel {
                min_entries: if min < 1 {
                    1
                } else {
                    min as nat
                },
                ..self@
            }),
    {
        let mut this = self;
        this.min_entries = if min < 1 {
            1
        } else {
            min
        };
        this
    }

    /// Set a custom theme for this widget
    pub fn theme(self, theme: Theme) -> (r: Self)
        ensures
            r@ == (RepeatableDirectoryPickerModel { custom_theme: Some(theme), ..self@ }),
    {
        let mut this = self;
        this.custom_theme = Some(theme);
        this
    }

    /// Set enabled state (builder pattern)
    pub fn with_enabled(self, enabled: bool) -> (r: Self)
        ensures
            r@ == (RepeatableDirectoryPickerModel { enabled, ..self@ }),
    {
        let mut this = self;
        this.enabled = enabled;
        this
    }

    /// Check if the widget is enabled
    pub fn is_enabled(&self) -> (r: bool)
        ensures
            r == self@.enabled,
    {
        self.enabled
    }

    /// Set enabled state programmatically, for the list and each of its pickers
    pub fn set_enabled(&mut self, enabled: bool)
        ensures
            final(self)@ == (RepeatableDirectoryPickerModel {
                enabled,
                entries: Seq::new(
                    old(self)@.entries.len(),
                    |i: int| DirectoryPickerModel { enabled, ..old(self)@.entries[i] },
                ),
                ..old(self)@
            }),
    {
        self.enabled = enabled;
        let mut entries: Vec<DirectoryPicker> = Vec::new();
        std::mem::swap(&mut entries, &mut self.entries);
        let ghost start = entry_models(entries@);
        let n = entries.len();
        let mut k: usize = 0;
        while k < n
            invariant
                k <= n,
                n == entries.len(),
                n == start.len(),
                forall|i: int| 0 <= i < k ==> #[trigger] entry_models(entries@)[i]
                    == (DirectoryPickerModel { enabled, ..start[i] }),
                forall|i: int| k <= i < n ==> #[trigger] entry_models(entries@)[i] == start[i],
            decreases n - k,
        {
            let ghost before = entries@;
            assert(entry_models(before)[k as int] == start[k as int]);
            assert(before[k as int]@ == start[k as int]);
            entries[k].set_enabled(enabled);
            assert(entries@[k as int]@ == (DirectoryPickerModel { enabled, ..before[k as int]@ }));
            assert(entries@ == before.update(k as int, entries@[k as int]));
            assert(entry_models(entries@) =~= entry_models(before).update(
                k as int,
                DirectoryPickerModel { enabled, ..start[k as int] },
            ));
            k = k + 1;
        }
        assert(entry_models(entries@) =~= Seq::new(
            n as nat,
            |i: int| DirectoryPickerModel { enabled, ..start[i] },
        ));
        std::mem::swap(&mut entries, &mut self.entries);
    }

    /// A new picker holding `value`, configured like the list.
    fn create_entry(&self, value: &str) -> (r: DirectoryPicker)
        ensures
            r@ == self@.entry_for(value@),
    {
        let mut p = DirectoryPicker::new().browse_shortcut(self.browse_shortcut_enabled)
            .validation_display(self.validation_display).with_enabled(self.enabled);
        if let Some(ph) = &self.placeholder {
            p = p.placeholder(ph.as_str());
        }
        if let Some(th) = self.custom_theme {
            p = p.theme(th);
        }
        p.with_value(value)
    }

    /// The pickers of the list.
    pub fn entries(&self) -> (r: &[DirectoryPicker])
        ensures
            entry_models(r@) == self@.entries,
    {
        self.entries.as_slice()
    }

    /// Create the entries from the initial values on first use, padded with empty entries
    /// to the minimum; later calls change nothing.
    pub fn initialize_entries(&mut self)
        ensures
            old(self)@.initialized ==> final(self)@ == old(self)@,
            !old(self)@.initialized ==> final(self)@ == (RepeatableDirectoryPickerModel {
                initial_values: Seq::empty(),
                entries: old(self)@.entries + padded(
                    old(self)@.initial_values,
                    old(self)@.min_entries,
                ).map_values(|v: Seq<char>| old(self)@.entry_for(v)),
                initialized: true,
                ..old(self)@
            }),
    {
        if self.initialized {
            return;
        }
        self.initialized = true;
        let mut values: Vec<String> = Vec::new();
        std::mem::swap(&mut values, &mut self.initial_values);
        let values = crate::widgets::repeatable_text_input::pad_values(values, self.min_entries);
        let ghost pv = texts(values@);
        let ghost start = entry_models(self.entries@);
        let ghost m = old(self)@;
        let n = values.len();
        let mut k: usize = 0;
        assert(texts(self.initial_values@) =~= Seq::<Seq<char>>::empty());
        assert(start + pv.take(0).map_values(|v: Seq<char>| m.entry_for(v)) =~= start);
        while k < n
            invariant
                k <= n,
                n == values.len(),
                pv == texts(values@),
                self@ == (RepeatableDirectoryPickerModel {
                    initial_values: Seq::empty(),
                    entries: start + pv.take(k as int).map_values(|v: Seq<char>| m.entry_for(v)),
                    initialized: true,
                    ..m
                }),
            decreases n - k,
        {
            let entry = self.create_entry(values[k].as_str());
            let ghost before = self.entries@;
            self.entries.push(entry);
            assert(entry_models(self.entries@) =~= entry_models(before).push(entry@));
            assert(pv.take(k + 1).map_values(|v: Seq<char>| m.entry_for(v)) =~= pv.take(
                k as int,
            ).map_values(|v: Seq<char>| m.entry_for(v)).push(m.entry_for(pv[k as int])));
            k = k + 1;
        }
        assert(pv.take(n as int) =~= pv);
    }

    /// Add an empty picker at the end; its index and the values are announced.
    pub fn add_entry(&mut self) -> (r: (RepeatableDirectoryPickerEvent, RepeatableDirectoryPickerEvent))
        ensures
            final(self)@ == (RepeatableDirectoryPickerModel {
                entries: old(self)@.entries.push(old(self)@.entry_for(Seq::empty())),
                ..old(self)@
            }),
            r.0 matches RepeatableDirectoryPickerEvent::EntryAdded(i) && i == old(self)@.entries.len(),
            r.1 matches RepeatableDirectoryPickerEvent::Change(v) && texts(v@) == nonempty_texts(
                final(self)@.paths(),
            ),
    {
        let index = self.entries.len();
        proof {
            reveal_strlit("");
            assert(""@ =~= Seq::<char>::empty());
        }
        let entry = self.create_entry("");
        let ghost before = self.entries@;
        self.entries.push(entry);
        assert(entry_models(self.entries@) =~= entry_models(before).push(entry@));
        (RepeatableDirectoryPickerEvent::EntryAdded(index), RepeatableDirectoryPickerEvent::Change(self.values()))
    }

    /// Remove picker `index` when more than the minimum remain; the removal is announced
    /// with the new values.
    pub fn remove_entry(&mut self, index: usize) -> (r: Option<
        (RepeatableDirectoryPickerEvent, RepeatableDirectoryPickerEvent),
    >)
        ensures
            !removable(old(self)@.entries.len(), old(self)@.min_entries, index as int)
                ==> final(self)@ == old(self)@ && r is None,
            removable(old(self)@.entries.len(), old(self)@.min_entries, index as int) ==> {
                &&& final(self)@ == (RepeatableDirectoryPickerModel {
                    entries: old(self)@.entries.remove(index as int),
                    ..old(self)@
                })
                &&& r matches Some((removed, change)) && {
                    &&& removed matches RepeatableDirectoryPickerEvent::EntryRemoved(i) && i == index
                    &&& change matches RepeatableDirectoryPickerEvent::Change(v) && texts(v@)
                        == nonempty_texts(final(self)@.paths())
                }
            },
    {
        if self.entries.len() > self.min_entries && index < self.entries.len() {
            let ghost before = self.entries@;
            self.entries.remove(index);
            assert(entry_models(self.entries@) =~= entry_models(before).remove(index as int));
            Some(
                (
                    RepeatableDirectoryPickerEvent::EntryRemoved(index),
                    RepeatableDirectoryPickerEvent::Change(self.values()),
                ),
            )
        } else {
            None
        }
    }

    /// Picker `index` was given the path `path`; when that changes it, the values are
    /// announced.
    pub fn set_entry_value(&mut self, index: usize, path: &str) -> (r: Option<
        RepeatableDirectoryPickerEvent,
    >)
        requires
            index < old(self)@.entries.len(),
        ensures
            final(self)@ == (RepeatableDirectoryPickerModel {
                entries: old(self)@.entries.update(
                    index as int,
                    DirectoryPickerModel { value: path@, ..old(self)@.entries[index as int] },
                ),
                ..old(self)@
            }),
            r is Some <==> old(self)@.entries[index as int].value != path@,
            r matches Some(RepeatableDirectoryPickerEvent::Change(v)) ==> texts(v@) == nonempty_texts(
                final(self)@.paths(),
            ),
            r matches Some(e) ==> e is Change,
    {
        let ghost before = self.entries@;
        let changed = self.entries[index].set_value(path);
        assert(entry_models(self.entries@) =~= entry_models(before).update(
            index as int,
            DirectoryPickerModel { value: path@, ..before[index as int]@ },
        ));
        match changed {
            Some(DirectoryPickerEvent::Change(_)) => Some(RepeatableDirectoryPickerEvent::Change(self.values())),
            None => None,
        }
    }

    /// Validate all entries and return their validation states
    pub fn validate_all(&self) -> (r: Vec<DirectoryPickerValidation>)
        ensures
            validations_of(self@.entries, r@),
    {
        let mut out: Vec<DirectoryPickerValidation> = Vec::new();
        let n = self.entries.len();
        let mut i: usize = 0;
        while i < n
            invariant
                n == self.entries.len(),
                i <= n,
                validations_of(self@.entries.take(i as int), out@),
            decreases n - i,
        {
            let v = self.entries[i].validate();
            let ghost before = out@;
            let ghost t0 = self@.entries.take(i as int);
            let ghost t1 = self@.entries.take(i + 1);
            out.push(v);
            assert(self.entries@[i as int]@ == self@.entries[i as int]);
            assert(t1 =~= t0.push(self@.entries[i as int]));
            assert(out@ =~= before.push(v));
            assert forall|j: int| 0 <= j < out@.len() implies {
                &&& (t1[j].value.len() == 0 <==> #[trigger] out@[j] == DirectoryPickerValidation::Empty)
                &&& t1[j].value.len() > 0 ==> exists|d: bool, f: bool|
                    out@[j] == #[trigger] directory_validation(d, f)
            } by {
                if j < i {
                    assert(out@[j] == before[j]);
                    assert(t1[j] == t0[j]);
                }
            }
            i = i + 1;
        }
        assert(self@.entries.take(n as int) =~= self@.entries);
        out
    }

    /// Returns true if all non-empty entries are valid
    pub fn is_all_valid(&self) -> (r: bool)
        ensures
            exists|vs: Seq<DirectoryPickerValidation>| validations_of(self@.entries, vs) && r
                == all_usable(vs),
    {
        let vs = self.validate_all();
        all_entries_usable(&vs)
    }

    /// Get all non-empty values
    pub fn values(&self) -> (r: Vec<String>)
        ensures
            texts(r@) == nonempty_texts(self@.paths()),
    {
        let mut out: Vec<String> = Vec::new();
        let n = self.entries.len();
        let ghost ps = self@.paths();
        let mut i: usize = 0;
        while i < n
            invariant
                n == self.entries.len(),
                ps == self@.paths(),
                i <= n,
                texts(out@) == nonempty_texts(ps.take(i as int)),
            decreases n - i,
        {
            let ghost before = texts(out@);
            proof {
                reveal(Seq::filter);
                assert(ps.take(i + 1).drop_last() =~= ps.take(i as int));
                assert(ps.take(i + 1).last() == self.entries@[i as int]@.value);
            }
            let v = self.entries[i].value();
            if !v.is_empty() {
                out.push(v.to_owned());
                assert(texts(out@) =~= before.push(self.entries@[i as int]@.value));
            }
            i = i + 1;
        }
        assert(ps.take(n as int) =~= ps);
        out
    }
}

} // verus!
