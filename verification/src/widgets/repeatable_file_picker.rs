//! Repeatable file picker: a list of file pickers with add and remove buttons
//!
//! Every entry shares the list's configuration (mode, extensions, missing
//! directory policy, display); the list never holds fewer entries than its
//! minimum, and its value is the list of non-empty paths.
use vstd::prelude::*;
use crate::theme::Theme;
use crate::utils::path::proper_prefix;
use crate::utils::text::texts;
use crate::widgets::file_picker::{
    accepts, file_validation, file_verdict_ok, FileMode, FilePicker, FilePickerEvent, FilePickerModel,
    FilePickerValidation, MissingDirectories,
};
use crate::widgets::path_display::ValidationDisplay;
use crate::widgets::repeatable_text_input::{
    activation_acts, focus_after_removal, nonempty_texts, padded, removable, removal_focus,
    Activation, RemovalFocus,
};

verus! {

/// Events emitted by RepeatableFilePicker
#[derive(Clone, Debug)]
pub enum RepeatableFilePickerEvent {
    /// Values changed (includes all current values)
    Change(Vec<String>),
    /// A new entry was added at the given index
    EntryAdded(usize),
    /// An entry was removed from the given index
    EntryRemoved(usize),
}

/// A repeatable file picker as plain values.
pub struct RepeatableFilePickerModel {
    pub placeholder: Option<Seq<char>>,
    pub extensions: Seq<Seq<char>>,
    pub mode: FileMode,
    pub missing_directories: MissingDirectories,
    pub browse_shortcut_enabled: bool,
    pub validation_display: ValidationDisplay,
    pub initial_values: Seq<Seq<char>>,
    pub entries: Seq<FilePickerModel>,
    pub initialized: bool,
    pub min_entries: nat,
    pub custom_theme: Option<Theme>,
    pub enabled: bool,
    pub action_just_handled: bool,
}

impl RepeatableFilePickerModel {
    /// A new entry holding `value`, configured like the list.
    pub open spec fn entry_for(self, value: Seq<char>) -> FilePickerModel {
        FilePickerModel {
            value,
            placeholder: self.placeholder,
            extensions: self.extensions,
            mode: self.mode,
            missing_directories: self.missing_directories,
            custom_theme: self.custom_theme,
            browse_shortcut_enabled: self.browse_shortcut_enabled,
            validation_display: self.validation_display,
            enabled: self.enabled,
            is_editing: false,
            pending_refocus: false,
        }
    }

    /// The list after its add button was activated by `how` (a disabled list has no active
    /// buttons).
    pub open spec fn add_activated(self, how: Activation) -> RepeatableFilePickerModel {
        if !self.enabled {
            self
        } else if activation_acts(how, self.action_just_handled) {
            RepeatableFilePickerModel {
                entries: self.entries.push(self.entry_for(Seq::empty())),
                action_just_handled: how == Activation::KeyBinding,
                ..self
            }
        } else {
            RepeatableFilePickerModel { action_just_handled: false, ..self }
        }
    }

    /// The list after the remove button of entry `index` was activated by `how`.
    pub open spec fn remove_activated(self, how: Activation, index: int) -> RepeatableFilePickerModel {
        if !self.enabled {
            self
        } else if activation_acts(how, self.action_just_handled) {
            RepeatableFilePickerModel {
                entries: if removable(self.entries.len(), self.min_entries, index) {
                    self.entries.remove(index)
                } else {
                    self.entries
                },
                action_just_handled: how == Activation::KeyBinding,
                ..self
            }
        } else {
            RepeatableFilePickerModel { action_just_handled: false, ..self }
        }
    }

    /// The entries' paths.
    pub open spec fn paths(self) -> Seq<Seq<char>> {
        self.entries.map_values(|e: FilePickerModel| e.value)
    }
}

/// Whether `vs` is a possible outcome of validating each of `entries` against the disk.
pub open spec fn validations_of(entries: Seq<FilePickerModel>, vs: Seq<FilePickerValidation>) -> bool {
    &&& vs.len() == entries.len()
    &&& forall|i: int|
        0 <= i < vs.len() ==> {
            &&& (entries[i].value.len() == 0 <==> #[trigger] vs[i] == FilePickerValidation::Empty)
            &&& file_verdict_ok(entries[i].value, entries[i].mode, entries[i].missing_directories, vs[i])
        }
}

/// Every verdict is either an empty entry or one the picker accepts.
pub open spec fn all_usable(vs: Seq<FilePickerValidation>) -> bool {
    forall|i: int| 0 <= i < vs.len() ==> #[trigger] vs[i] == FilePickerValidation::Empty || accepts(vs[i])
}

/// Whether every verdict is an empty entry or one the picker accepts.
pub fn all_entries_usable(vs: &Vec<FilePickerValidation>) -> (r: bool)
    ensures
        r == all_usable(vs@),
{
    let n = vs.len();
    let mut i: usize = 0;
    while i < n
        invariant
            n == vs.len(),
            i <= n,
            forall|j: int| 0 <= j < i ==> #[trigger] vs@[j] == FilePickerValidation::Empty
                || accepts(vs@[j]),
        decreases n - i,
    {
        let ok = match &vs[i] {
            FilePickerValidation::Empty | FilePickerValidation::Valid
            | FilePickerValidation::WillOverwrite | FilePickerValidation::WillCreatePath => true,
            _ => false,
        };
        if !ok {
            return false;
        }
        i = i + 1;
    }
    true
}

/// Repeatable file picker widget state
pub struct RepeatableFilePicker {
    placeholder: Option<String>,
    extensions: Vec<String>,
    mode: FileMode,
    missing_directories: MissingDirectories,
    browse_shortcut_enabled: bool,
    validation_display: ValidationDisplay,
    initial_values: Vec<String>,
    entries: Vec<FilePicker>,
    initialized: bool,
    min_entries: usize,
    custom_theme: Option<Theme>,
    enabled: bool,
    action_just_handled: bool,
}

pub open spec fn entry_models(v: Seq<FilePicker>) -> Seq<FilePickerModel> {
    v.map_values(|e: FilePicker| e@)
}

impl View for RepeatableFilePicker {
    type V = RepeatableFilePickerModel;

    closed spec fn view(&self) -> RepeatableFilePickerModel {
        RepeatableFilePickerModel {
            placeholder: match self.placeholder {
                Some(p) => Some(p@),
                None => None,
            },
            extensions: texts(self.extensions@),
            mode: self.mode,
            missing_directories: self.missing_directories,
            browse_shortcut_enabled: self.browse_shortcut_enabled,
            validation_display: self.validation_display,
            initial_values: texts(self.initial_values@),
            entries: entry_models(self.entries@),
            initialized: self.initialized,
            min_entries: self.min_entries as nat,
            custom_theme: self.custom_theme,
            enabled: self.enabled,
            action_just_handled: self.action_just_handled,
        }
    }
}

/// A copy of a list of strings.
fn copy_strings(v: &Vec<String>) -> (r: Vec<String>)
    ensures
        texts(r@) == texts(v@),
{
    let r = v.clone();
    assert forall|i: int| 0 <= i < v.len() implies r@[i] == v@[i] by {
        assert(cloned::<String>(v[i], r[i]));
    }
    assert(texts(r@) =~= texts(v@));
    r
}

/// The texts held by the `Some`s of `ans`, in order.
pub open spec fn present_texts(ans: Seq<Option<Seq<char>>>) -> Seq<Seq<char>>
    decreases ans.len(),
{
    if ans.len() == 0 {
        Seq::empty()
    } else {
        present_texts(ans.drop_last()) + match ans.last() {
            Some(d) => seq![d],
            None => Seq::empty(),
        }
    }
}

/// Whether `d` is a possible answer of `directory_to_create` for an entry `e`: a non-empty
/// proper start of its path when it saves into missing directories that are to be created,
/// nothing when it does not or has no path.
pub open spec fn creation_answer(e: FilePickerModel, d: Option<Seq<char>>) -> bool {
    &&& (d matches Some(x) ==> e.needs_directory_creation() && proper_prefix(x, e.value) && x.len()
        > 0)
    &&& (!e.needs_directory_creation() || e.value.len() == 0 ==> d is None)
}

impl RepeatableFilePicker {
    /// Create a new repeatable file picker (opening files, minimum one entry)
    pub fn new() -> (r: Self)
        ensures
            r@ == (RepeatableFilePickerModel {
                placeholder: None,
                extensions: Seq::empty(),
                mode: FileMode::Open,
                missing_directories: MissingDirectories::Error,
                browse_shortcut_enabled: true,
                validation_display: ValidationDisplay::Full,
                initial_values: Seq::empty(),
                entries: Seq::empty(),
                initialized: false,
                min_entries: 1,
                custom_theme: None,
                enabled: true,
                action_just_handled: false,
            }),
    {
        let r = Self {
            placeholder: None,
            extensions: Vec::new(),
            mode: FileMode::Open,
            missing_directories: MissingDirectories::Error,
            browse_shortcut_enabled: true,
            validation_display: ValidationDisplay::Full,
            initial_values: Vec::new(),
            entries: Vec::new(),
            initialized: false,
            min_entries: 1,
            custom_theme: None,
            enabled: true,
            action_just_handled: false,
        };
        assert(r@.extensions =~= Seq::<Seq<char>>::empty());
        assert(r@.initial_values =~= Seq::<Seq<char>>::empty());
        assert(r@.entries =~= Seq::<FilePickerModel>::empty());
        r
    }

    /// Set initial values
    pub fn with_values(self, values: Vec<String>) -> (r: Self)
        ensures
            r@ == (RepeatableFilePickerModel { initial_values: texts(values@), ..self@ }),
    {
        let mut this = self;
        this.initial_values = values;
        this
    }

    /// Set placeholder text for each picker
    pub fn placeholder(self, text: &str) -> (r: Self)
        ensures
            r@ == (RepeatableFilePickerModel { placeholder: Some(text@), ..self@ }),
    {
        let mut this = self;
        this.placeholder = Some(text.to_owned());
        this
    }

    /// Set file extensions filter for each picker
    pub fn extensions(self, exts: Vec<String>) -> (r: Self)
        ensures
            r@ == (RepeatableFilePickerModel { extensions: texts(exts@), ..self@ }),
    {
        let mut this = self;
        this.extensions = exts;
        this
    }

    /// Set file mode for each picker
    pub fn mode(self, mode: FileMode) -> (r: Self)
        ensures
            r@ == (RepeatableFilePickerModel { mode, ..self@ }),
    {
        let mut this = self;
        this.mode = mode;
        this
    }

    /// Set missing directories handling for each picker
    pub fn missing_directories(self, handling: MissingDirectories) -> (r: Self)
        ensures
            r@ == (RepeatableFilePickerModel { missing_directories: handling, ..self@ }),
    {
        let mut this = self;
        this.missing_directories = handling;
        this
    }

    /// Enable or disable the browse shortcut for each picker
    pub fn browse_shortcut(self, enabled: bool) -> (r: Self)
        ensures
            r@ == (RepeatableFilePickerModel { browse_shortcut_enabled: enabled, ..self@ }),
    {
        let mut this = self;
        this.browse_shortcut_enabled = enabled;
        this
    }

    /// Set how validation feedback is displayed for each picker
    pub fn validation_display(self, display: ValidationDisplay) -> (r: Self)
        ensures
            r@ == (RepeatableFilePickerModel { validation_display: display, ..self@ }),
    {
        let mut this = self;
        this.validation_display = display;
        this
    }

    /// Set minimum number of entries (default: 1); at least 1
    pub fn min_entries(self, min: usize) -> (r: Self)
        ensures
            r@ == (RepeatableFilePickerModel {
                min_entries: if min < 1 {
                    1
                } else {
                    min as nat
                },
                ..self@
            }),
    {
        let mut this = self;
        this.min_entries = if min < 1 {
            1
        } else {
            min
        };
        this
    }

    /// Set a custom theme for this widget
    pub fn theme(self, theme: Theme) -> (r: Self)
        ensures
            r@ == (RepeatableFilePickerModel { custom_theme: Some(theme), ..self@ }),
    {
        let mut this = self;
        this.custom_theme = Some(theme);
        this
    }

    /// Set enabled state (builder pattern)
    pub fn with_enabled(self, enabled: bool) -> (r: Self)
        ensures
            r@ == (RepeatableFilePickerModel { enabled, ..self@ }),
    {
        let mut this = self;
        this.enabled = enabled;
        this
    }

    /// Check if the widget is enabled
    pub fn is_enabled(&self) -> (r: bool)
        ensures
            r == self@.enabled,
    {
        self.enabled
    }

    /// Set enabled state programmatically, for the list and each of its pickers
    pub fn set_enabled(&mut self, enabled: bool)
        ensures
            final(self)@ == (RepeatableFilePickerModel {
                enabled,
                entries: Seq::new(
                    old(self)@.entries.len(),
                    |i: int| FilePickerModel { enabled, ..old(self)@.entries[i] },
                ),
                ..old(self)@
            }),
    {
        self.enabled = enabled;
        let mut entries: Vec<FilePicker> = Vec::new();
        std::mem::swap(&mut entries, &mut self.entries);
        let ghost start = entry_models(entries@);
        let n = entries.len();
        let mut k: usize = 0;
        while k < n
            invariant
                k <= n,
                n == entries.len(),
                n == start.len(),
                forall|i: int| 0 <= i < k ==> #[trigger] entry_models(entries@)[i]
                    == (FilePickerModel { enabled, ..start[i] }),
                forall|i: int| k <= i < n ==> #[trigger] entry_models(entries@)[i] == start[i],
            decreases n - k,
        {
            let ghost before = entries@;
            assert(entry_models(before)[k as int] == start[k as int]);
            assert(before[k as int]@ == start[k as int]);
            entries[k].set_enabled(enabled);
            assert(entries@[k as int]@ == (FilePickerModel { enabled, ..before[k as int]@ }));
            assert(entries@ == before.update(k as int, entries@[k as int]));
            assert(entry_models(entries@) =~= entry_models(before).update(
                k as int,
                FilePickerModel { enabled, ..start[k as int] },
            ));
            k = k + 1;
        }
        assert(entry_models(entries@) =~= Seq::new(
            n as nat,
            |i: int| FilePickerModel { enabled, ..start[i] },
        ));
        std::mem::swap(&mut entries, &mut self.entries);
    }

    /// A new picker holding `value`, configured like the list.
    fn create_entry(&self, value: &str) -> (r: FilePicker)
        ensures
            r@ == self@.entry_for(value@),
    {
        let mode = match self.mode {
            FileMode::Open => FileMode::Open,
            FileMode::Save => FileMode::Save,
        };
        let missing = match self.missing_directories {
            MissingDirectories::Error => MissingDirectories::Error,
            MissingDirectories::Okay => MissingDirectories::Okay,
            MissingDirectories::Create => MissingDirectories::Create,
        };
        let mut p = FilePicker::new().mode(mode).extensions(copy_strings(&self.extensions))
            .missing_directories(missing).browse_shortcut(self.browse_shortcut_enabled)
            .validation_display(self.validation_display).with_enabled(self.enabled);
        if let Some(ph) = &self.placeholder {
            p = p.placeholder(ph.as_str());
        }
        if let Some(th) = self.custom_theme {
            p = p.theme(th);
        }
        p.with_value(value)
    }

    /// The pickers of the list.
    pub fn entries(&self) -> (r: &[FilePicker])
        ensures
            entry_models(r@) == self@.entries,
    {
        self.entries.as_slice()
    }

    /// Create the entries from the initial values on first use, padded with empty entries
    /// to the minimum; later calls change nothing.
    pub fn initialize_entries(&mut self)
        ensures
            old(self)@.initialized ==> final(self)@ == old(self)@,
            !old(self)@.initialized ==> final(self)@ == (RepeatableFilePickerModel {
                initial_values: Seq::empty(),
                entries: old(self)@.entries + padded(
                    old(self)@.initial_values,
                    old(self)@.min_entries,
                ).map_values(|v: Seq<char>| old(self)@.entry_for(v)),
                initialized: true,
                ..old(self)@
            }),
    {
        if self.initialized {
            return;
        }
        self.initialized = true;
        let mut values: Vec<String> = Vec::new();
        std::mem::swap(&mut values, &mut self.initial_values);
        let values = crate::widgets::repeatable_text_input::pad_values(values, self.min_entries);
        let ghost pv = texts(values@);
        let ghost start = entry_models(self.entries@);
        let ghost m = old(self)@;
        let n = values.len();
        let mut k: usize = 0;
        assert(texts(self.initial_values@) =~= Seq::<Seq<char>>::empty());
        assert(start + pv.take(0).map_values(|v: Seq<char>| m.entry_for(v)) =~= start);
        while k < n
            invariant
                k <= n,
                n == values.len(),
                pv == texts(values@),
                self@ == (RepeatableFilePickerModel {
                    initial_values: Seq::empty(),
                    entries: start + pv.take(k as int).map_values(|v: Seq<char>| m.entry_for(v)),
                    initialized: true,
                    ..m
                }),
            decreases n - k,
        {
            let entry = self.create_entry(values[k].as_str());
            let ghost before = self.entries@;
            self.entries.push(entry);
            assert(entry_models(self.entries@) =~= entry_models(before).push(entry@));
            assert(pv.take(k + 1).map_values(|v: Seq<char>| m.entry_for(v)) =~= pv.take(
                k as int,
            ).map_values(|v: Seq<char>| m.entry_for(v)).push(m.entry_for(pv[k as int])));
            k = k + 1;
        }
        assert(pv.take(n as int) =~= pv);
    }

    /// Add an empty picker at the end; its index and the values are announced.
    pub fn add_entry(&mut self) -> (r: (RepeatableFilePickerEvent, RepeatableFilePickerEvent))
        ensures
            final(self)@ == (RepeatableFilePickerModel {
                entries: old(self)@.entries.push(old(self)@.entry_for(Seq::empty())),
                ..old(self)@
            }),
            r.0 matches RepeatableFilePickerEvent::EntryAdded(i) && i == old(self)@.entries.len(),
            r.1 matches RepeatableFilePickerEvent::Change(v) && texts(v@) == nonempty_texts(
                final(self)@.paths(),
            ),
    {
        let index = self.entries.len();
        proof {
            reveal_strlit("");
            assert(""@ =~= Seq::<char>::empty());
        }
        let entry = self.create_entry("");
        let ghost before = self.entries@;
        self.entries.push(entry);
        assert(entry_models(self.entries@) =~= entry_models(before).push(entry@));
        (RepeatableFilePickerEvent::EntryAdded(index), RepeatableFilePickerEvent::Change(self.values()))
    }

    /// Remove picker `index` when more than the minimum remain; `had_focus` tells whether
    /// its remove button had focus. The removal is announced with the new values, and the
    /// place focus moves to is returned.
    pub fn remove_entry(&mut self, index: usize, had_focus: bool) -> (r: Option<
        (RepeatableFilePickerEvent, RepeatableFilePickerEvent, RemovalFocus),
    >)
        ensures
            !removable(old(self)@.entries.len(), old(self)@.min_entries, index as int)
                ==> final(self)@ == old(self)@ && r is None,
            removable(old(self)@.entries.len(), old(self)@.min_entries, index as int) ==> {
                &&& final(self)@ == (RepeatableFilePickerModel {
                    entries: old(self)@.entries.remove(index as int),
                    ..old(self)@
                })
                &&& r matches Some((removed, change, focus)) && {
                    &&& removed matches RepeatableFilePickerEvent::EntryRemoved(i) && i == index
                    &&& change matches RepeatableFilePickerEvent::Change(v) && texts(v@)
                        == nonempty_texts(final(self)@.paths())
                    &&& focus == focus_after_removal(
                        had_focus,
                        final(self)@.entries.len(),
                        old(self)@.min_entries,
                        index as int,
                    )
                }
            },
    {
        if self.entries.len() > self.min_entries && index < self.entries.len() {
            let ghost before = self.entries@;
            self.entries.remove(index);
            assert(entry_models(self.entries@) =~= entry_models(before).remove(index as int));
            let focus = removal_focus(had_focus, self.entries.len(), self.min_entries, index);
            Some(
                (
                    RepeatableFilePickerEvent::EntryRemoved(index),
                    RepeatableFilePickerEvent::Change(self.values()),
                    focus,
                ),
            )
        } else {
            None
        }
    }


    /// The add button was activated by `how`: on an enabled list the entry is added and
    /// announced, unless this is the click that follows a key press already handled.
    pub fn activate_add(&mut self, how: Activation) -> (r: Option<
        (RepeatableFilePickerEvent, RepeatableFilePickerEvent),
    >)
        ensures
            final(self)@ == old(self)@.add_activated(how),
            r is Some <==> old(self)@.enabled && activation_acts(how, old(self)@.action_just_handled),
            r matches Some((added, change)) ==> {
                &&& added matches RepeatableFilePickerEvent::EntryAdded(i) && i
                    == old(self)@.entries.len()
                &&& change matches RepeatableFilePickerEvent::Change(v) && texts(v@)
                    == nonempty_texts(final(self)@.paths())
            },
    {
        if !self.enabled {
            return None;
        }
        if how == Activation::Click && self.action_just_handled {
            self.action_just_handled = false;
            return None;
        }
        self.action_just_handled = how == Activation::KeyBinding;
        Some(self.add_entry())
    }

    /// The remove button of entry `index` was activated by `how` (`had_focus`: whether it
    /// had focus): on an enabled list the entry is removed as `remove_entry` does, unless
    /// this is the click that follows a key press already handled.
    pub fn activate_remove(&mut self, how: Activation, index: usize, had_focus: bool) -> (r: Option<
        (RepeatableFilePickerEvent, RepeatableFilePickerEvent, RemovalFocus),
    >)
        ensures
            final(self)@ == old(self)@.remove_activated(how, index as int),
            r is Some <==> old(self)@.enabled && activation_acts(how, old(self)@.action_just_handled)
                && removable(old(self)@.entries.len(), old(self)@.min_entries, index as int),
            r matches Some((removed, change, focus)) ==> {
                &&& removed matches RepeatableFilePickerEvent::EntryRemoved(i) && i == index
                &&& change matches RepeatableFilePickerEvent::Change(v) && texts(v@)
                    == nonempty_texts(final(self)@.paths())
                &&& focus == focus_after_removal(
                    had_focus,
                    final(self)@.entries.len(),
                    old(self)@.min_entries,
                    index as int,
                )
            },
    {
        if !self.enabled {
            return None;
        }
        if how == Activation::Click && self.action_just_handled {
            self.action_just_handled = false;
            return None;
        }
        self.action_just_handled = how == Activation::KeyBinding;
        self.remove_entry(index, had_focus)
    }

    /// Picker `index` was given the path `path`; when that changes it, the values are
    /// announced.
    pub fn set_entry_value(&mut self, index: usize, path: &str) -> (r: Option<
        RepeatableFilePickerEvent,
    >)
        requires
            index < old(self)@.entries.len(),
        ensures
            final(self)@ == (RepeatableFilePickerModel {
                entries: old(self)@.entries.update(
                    index as int,
                    FilePickerModel { value: path@, ..old(self)@.entries[index as int] },
                ),
                ..old(self)@
            }),
            r is Some <==> old(self)@.entries[index as int].value != path@,
            r matches Some(RepeatableFilePickerEvent::Change(v)) ==> texts(v@) == nonempty_texts(
                final(self)@.paths(),
            ),
            r matches Some(e) ==> e is Change,
    {
        let ghost before = self.entries@;
        let changed = self.entries[index].set_value(path);
        assert(entry_models(self.entries@) =~= entry_models(before).update(
            index as int,
            FilePickerModel { value: path@, ..before[index as int]@ },
        ));
        match changed {
            Some(FilePickerEvent::Change(_)) => Some(RepeatableFilePickerEvent::Change(self.values())),
            None => None,
        }
    }

    /// Validate all entries and return their validation states
    pub fn validate_all(&self) -> (r: Vec<FilePickerValidation>)
        ensures
            validations_of(self@.entries, r@),
    {
        let mut out: Vec<FilePickerValidation> = Vec::new();
        let n = self.entries.len();
        let mut i: usize = 0;
        while i < n
            invariant
                n == self.entries.len(),
                i <= n,
                validations_of(self@.entries.take(i as int), out@),
            decreases n - i,
        {
            let v = self.entries[i].validate();
            let ghost before = out@;
            let ghost t0 = self@.entries.take(i as int);
            let ghost t1 = self@.entries.take(i + 1);
            out.push(v);
            assert(self.entries@[i as int]@ == self@.entries[i as int]);
            assert(t1 =~= t0.push(self@.entries[i as int]));
            assert(out@ =~= before.push(v));
            assert forall|j: int| 0 <= j < out@.len() implies {
                &&& (t1[j].value.len() == 0 <==> #[trigger] out@[j] == FilePickerValidation::Empty)
                &&& file_verdict_ok(t1[j].value, t1[j].mode, t1[j].missing_directories, out@[j])
            } by {
                if j < i {
                    assert(out@[j] == before[j]);
                    assert(t1[j] == t0[j]);
                }
            }
            i = i + 1;
        }
        assert(self@.entries.take(n as int) =~= self@.entries);
        out
    }

    /// Returns true if all non-empty entries are valid
    pub fn is_all_valid(&self) -> (r: bool)
        ensures
            exists|vs: Seq<FilePickerValidation>| validations_of(self@.entries, vs) && r
                == all_usable(vs),
    {
        let vs = self.validate_all();
        all_entries_usable(&vs)
    }

    /// Returns all directories that need to be created (for Save mode with
    /// MissingDirectories::Create): the missing parents of the entries, in order, one at
    /// most per entry, each what `FilePicker::directory_to_create` gives for its entry.
    pub fn directories_to_create(&self) -> (r: Vec<String>)
        ensures
            exists|ans: Seq<Option<Seq<char>>>|
                {
                    &&& ans.len() == self@.entries.len()
                    &&& forall|i: int|
                        0 <= i < ans.len() ==> creation_answer(
                            #[trigger] self@.entries[i],
                            ans[i],
                        )
                    &&& texts(r@) == present_texts(ans)
                },
            (forall|i: int| 0 <= i < self@.entries.len() ==> !(#[trigger] self@.entries[i]).needs_directory_creation())
                ==> r.len() == 0,
    {
        let mut out: Vec<String> = Vec::new();
        let n = self.entries.len();
        let mut i: usize = 0;
        let ghost mut ans: Seq<Option<Seq<char>>> = Seq::empty();
        while i < n
            invariant
                n == self.entries.len(),
                n == self@.entries.len(),
                i <= n,
                ans.len() == i,
                forall|k: int|
                    0 <= k < i ==> creation_answer(#[trigger] self@.entries[k], ans[k]),
                texts(out@) == present_texts(ans),
                (forall|k: int| 0 <= k < i ==> !(#[trigger] self@.entries[k]).needs_directory_creation())
                    ==> out.len() == 0,
            decreases n - i,
        {
            assert(self.entries@[i as int]@ == self@.entries[i as int]);
            let ghost before_ans = ans;
            let ghost before_out = out@;
            match self.entries[i].directory_to_create() {
                Some(d) => {
                    proof {
                        ans = ans.push(Some(d@));
                    }
                    out.push(d);
                    assert(texts(out@) =~= texts(before_out).push(out@[out.len() - 1]@));
                },
                None => {
                    proof {
                        ans = ans.push(None);
                    }
                },
            }
            assert(ans.drop_last() =~= before_ans);
            i = i + 1;
        }
        out
    }

    /// Get all non-empty values
    pub fn values(&self) -> (r: Vec<String>)
        ensures
            texts(r@) == nonempty_texts(self@.paths()),
    {
        let mut out: Vec<String> = Vec::new();
        let n = self.entries.len();
        let ghost ps = self@.paths();
        let mut i: usize = 0;
        while i < n
            invariant
                n == self.entries.len(),
                ps == self@.paths(),
                i <= n,
                texts(out@) == nonempty_texts(ps.take(i as int)),
            decreases n - i,
        {
            let ghost before = texts(out@);
            proof {
                reveal(Seq::filter);
                assert(ps.take(i + 1).drop_last() =~= ps.take(i as int));
                assert(ps.take(i + 1).last() == self.entries@[i as int]@.value);
            }
            let v = self.entries[i].value();
            if !v.is_empty() {
                out.push(v.to_owned());
                assert(texts(out@) =~= before.push(self.entries@[i as int]@.value));
            }
            i = i + 1;
        }
        assert(ps.take(n as int) =~= ps);
        out
    }
}

/// One press of Enter or Space on the focused add button (its key binding, then the click
/// it also produces) adds exactly one entry and leaves nothing pending.
pub proof fn law_add_press_acts_once(m: RepeatableFilePickerModel)
    requires
        m.enabled,
    ensures
        m.add_activated(Activation::KeyBinding).add_activated(Activation::Click) == (
        RepeatableFilePickerModel {
            entries: m.entries.push(m.entry_for(Seq::empty())),
            action_just_handled: false,
            ..m
        }),
{
}

/// One press of Enter or Space on the focused remove button of entry `index` removes at
/// most that one entry (none when the minimum would be broken) and leaves nothing pending.
pub proof fn law_remove_press_acts_once(m: RepeatableFilePickerModel, index: int)
    requires
        m.enabled,
    ensures
        m.remove_activated(Activation::KeyBinding, index).remove_activated(Activation::Click, index)
            == (RepeatableFilePickerModel {
            entries: if removable(m.entries.len(), m.min_entries, index) {
                m.entries.remove(index)
            } else {
                m.entries
            },
            action_just_handled: false,
            ..m
        }),
{
}

} // verus!
