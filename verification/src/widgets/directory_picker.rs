//! Directory path validation for the directory picker
use vstd::prelude::*;
use crate::theme::Theme;
use crate::utils::path::{
    last_part, parent_of_ok, parent_text, plain_path,
    lemma_prefix_trans, parse_path_in, parsed_ok, path_exists, path_file_name, path_is_dir, path_is_file,
    path_parent, proper_prefix, PathInfo, PathModel,
};
use crate::utils::text::{str_equal, texts};
use crate::widgets::file_picker::{
    default_placeholder, existing_then_missing, opt_string_view, opt_view, owned_cwd,
    placeholder_or_default, start_directory_ok,
};
use crate::widgets::path_display::{DisplayModel, PathDisplayInfo, ValidationDisplay};

verus! {

/// Validation state for DirectoryPicker
#[derive(Clone, Debug, PartialEq, Eq, Structural)]
pub enum DirectoryPickerValidation {
    /// No path entered
    Empty,
    /// Path exists and is a directory
    Valid,
    /// Path does not exist
    PathDoesNotExist,
    /// Path points to a file instead of a directory
    IsFile,
}

/// The verdict on a non-empty path, given whether it is a directory and whether it is a file.
pub open spec fn directory_validation(is_dir: bool, is_file: bool) -> DirectoryPickerValidation {
    if is_dir {
        DirectoryPickerValidation::Valid
    } else if is_file {
        DirectoryPickerValidation::IsFile
    } else {
        DirectoryPickerValidation::PathDoesNotExist
    }
}

/// Decide the verdict on a non-empty path from the file system's answers.
pub fn classify_directory_path(is_dir: bool, is_file: bool) -> (r: DirectoryPickerValidation)
    ensures
        r == directory_validation(is_dir, is_file),
{
    if is_dir {
        DirectoryPickerValidation::Valid
    } else if is_file {
        DirectoryPickerValidation::IsFile
    } else {
        DirectoryPickerValidation::PathDoesNotExist
    }
}

/// Validate a directory path
///
/// This is a standalone function that can be used without a DirectoryPicker instance,
/// useful for validation logic and testing.
pub fn validate_directory_path(path: &str) -> (r: DirectoryPickerValidation)
    ensures
        (path@.len() == 0) <==> (r == DirectoryPickerValidation::Empty),
        path@.len() > 0 ==> exists|is_dir: bool, is_file: bool|
            r == directory_validation(is_dir, is_file),
{
    if path.is_empty() {
        return DirectoryPickerValidation::Empty;
    }
    let is_dir = path_is_dir(path);
    let is_file = if is_dir {
        false
    } else {
        path_is_file(path)
    };
    let r = classify_directory_path(is_dir, is_file);
    proof {
        assert(r == directory_validation(is_dir, is_file));
    }
    r
}

// ============================================================================
// The picker
// ============================================================================

/// The folder a path dropped on a directory picker stands for, given whether it is a
/// directory, whether it is a file, and its parent: a directory itself, a file's parent,
/// and nothing otherwise or where that folder is empty.
pub open spec fn folder_of_drop(
    path: Seq<char>,
    is_dir: bool,
    is_file: bool,
    parent: Option<Seq<char>>,
) -> Option<Seq<char>> {
    let f = if is_dir {
        Some(path)
    } else if is_file {
        parent
    } else {
        None
    };
    match f {
        Some(q) => if q.len() > 0 {
            Some(q)
        } else {
            None
        },
        None => None,
    }
}

/// The folder a dropped path stands for, from the file system's answers whether it is a
/// directory and whether it is a file, and the path's parent.
pub fn dropped_folder<'a>(
    path: &'a str,
    is_dir: bool,
    is_file: bool,
    parent: Option<&'a str>,
) -> (r: Option<&'a str>)
    ensures
        opt_view(r) == folder_of_drop(path@, is_dir, is_file, opt_view(parent)),
{
    let f = if is_dir {
        Some(path)
    } else if is_file {
        parent
    } else {
        None
    };
    match f {
        Some(q) => if q.is_empty() {
            None
        } else {
            Some(q)
        },
        None => None,
    }
}

/// Events emitted by DirectoryPicker
#[derive(Clone, Debug)]
pub enum DirectoryPickerEvent {
    /// Directory path changed
    Change(String),
}

/// How a directory picker shows the path `p`: the existing part in muted text, then the
/// missing suffix, if any, marked as an error.
pub open spec fn directory_path_display(p: PathModel, theme: Theme, vd: ValidationDisplay) -> DisplayModel {
    if p.full.len() == 0 {
        DisplayModel::empty()
    } else {
        existing_then_missing(p, vd, theme, theme.error, "path does not exist"@)
    }
}

/// A directory picker's settings and value as plain values.
pub struct DirectoryPickerModel {
    pub value: Seq<char>,
    pub placeholder: Option<Seq<char>>,
    pub custom_theme: Option<Theme>,
    pub browse_shortcut_enabled: bool,
    pub validation_display: ValidationDisplay,
    pub enabled: bool,
    pub is_editing: bool,
    pub pending_refocus: bool,
}

/// Directory picker: the selected directory and how it shows validation.
pub struct DirectoryPicker {
    value: String,
    placeholder: Option<String>,
    custom_theme: Option<Theme>,
    browse_shortcut_enabled: bool,
    validation_display: ValidationDisplay,
    enabled: bool,
    is_editing: bool,
    pending_refocus: bool,
}

impl View for DirectoryPicker {
    type V = DirectoryPickerModel;

    closed spec fn view(&self) -> DirectoryPickerModel {
        DirectoryPickerModel {
            value: self.value@,
            placeholder: match self.placeholder {
                Some(p) => Some(p@),
                None => None,
            },
            custom_theme: self.custom_theme,
            browse_shortcut_enabled: self.browse_shortcut_enabled,
            validation_display: self.validation_display,
            enabled: self.enabled,
            is_editing: self.is_editing,
            pending_refocus: self.pending_refocus,
        }
    }
}

/// The path an entry of a chain of parents is the parent of: the value for the first,
/// the entry before otherwise.
pub open spec fn chain_prev(value: Seq<char>, anc: Seq<Seq<char>>, k: int) -> Seq<char> {
    if k == 0 {
        value
    } else {
        anc[k - 1]
    }
}

/// `anc` are successive parents of `value`, as far as the path syntax is known: each a
/// shorter start of the one before, and for a plain final component the text before it.
pub open spec fn ancestors_ok(value: Seq<char>, anc: Seq<Seq<char>>) -> bool {
    &&& forall|k: int| 0 <= k < anc.len() ==> proper_prefix(#[trigger] anc[k], chain_prev(value, anc, k))
    &&& forall|k: int|
        0 <= k < anc.len() && plain_path(chain_prev(value, anc, k)) ==> parent_text(
            #[trigger] anc[k],
            chain_prev(value, anc, k),
        )
}

/// The first of the parents `anc` from index `k` on that is non-empty and that the file
/// system has (`ans`); `cwd` when there is none.
pub open spec fn first_existing_folder(
    anc: Seq<Seq<char>>,
    ans: Seq<bool>,
    k: int,
    cwd: Option<Seq<char>>,
) -> Option<Seq<char>>
    decreases anc.len() - k,
{
    if k < 0 || k >= anc.len() {
        cwd
    } else if ans[k] && anc[k].len() > 0 {
        Some(anc[k])
    } else {
        first_existing_folder(anc, ans, k + 1, cwd)
    }
}

/// The folder a directory dialog opens in for a picker holding `value`, from what the file
/// system answered: whether the value exists (`value_exists`), and whether each of its
/// parents `anc` exists (`ans`).
pub open spec fn directory_dialog_start(
    value: Seq<char>,
    value_exists: bool,
    anc: Seq<Seq<char>>,
    ans: Seq<bool>,
    cwd: Option<Seq<char>>,
) -> Option<Seq<char>> {
    if value.len() == 0 {
        cwd
    } else if value_exists {
        Some(value)
    } else {
        first_existing_folder(anc, ans, 0, cwd)
    }
}

/// `d` is where a directory dialog opens for `value` on some answers of the file system
/// about the value and its successive parents.
pub open spec fn directory_dialog_start_ok(value: Seq<char>, cwd: Option<Seq<char>>, d: Option<Seq<char>>) -> bool {
    exists|value_exists: bool, anc: Seq<Seq<char>>, ans: Seq<bool>|
        {
            &&& anc.len() == ans.len()
            &&& ancestors_ok(value, anc)
            &&& value.len() > 0 && !value_exists && plain_path(value) ==> anc.len() > 0
            &&& d == directory_dialog_start(value, value_exists, anc, ans, cwd)
        }
}

/// Witnesses `directory_dialog_start_ok` from the answers gathered.
proof fn lemma_dialog_start_ok(
    value: Seq<char>,
    value_exists: bool,
    anc: Seq<Seq<char>>,
    ans: Seq<bool>,
    cwd: Option<Seq<char>>,
)
    requires
        anc.len() == ans.len(),
        ancestors_ok(value, anc),
        value.len() > 0 && !value_exists && plain_path(value) ==> anc.len() > 0,
    ensures
        directory_dialog_start_ok(value, cwd, directory_dialog_start(value, value_exists, anc, ans, cwd)),
        start_directory_ok(directory_dialog_start(value, value_exists, anc, ans, cwd), value, cwd),
{
    lemma_first_existing_folder(value, anc, ans, 0, cwd);
}

/// Every entry of a chain of parents is a shorter start of the value.
proof fn lemma_ancestors_shorter(value: Seq<char>, anc: Seq<Seq<char>>, k: int)
    requires
        ancestors_ok(value, anc),
        0 <= k < anc.len(),
    ensures
        proper_prefix(anc[k], value),
    decreases k,
{
    assert(proper_prefix(anc[k], chain_prev(value, anc, k)));
    if k > 0 {
        lemma_ancestors_shorter(value, anc, k - 1);
        lemma_prefix_trans(anc[k], anc[k - 1], value);
    }
}

/// The first existing parent from `k` on is the working directory or a non-empty, shorter
/// start of the value.
proof fn lemma_first_existing_folder(
    value: Seq<char>,
    anc: Seq<Seq<char>>,
    ans: Seq<bool>,
    k: int,
    cwd: Option<Seq<char>>,
)
    requires
        ancestors_ok(value, anc),
        anc.len() == ans.len(),
        0 <= k,
    ensures
        first_existing_folder(anc, ans, k, cwd) == cwd || (first_existing_folder(anc, ans, k, cwd)
            matches Some(x) && x.len() > 0 && proper_prefix(x, value)),
    decreases anc.len() - k,
{
    if k < anc.len() {
        if ans[k] && anc[k].len() > 0 {
            lemma_ancestors_shorter(value, anc, k);
        } else {
            lemma_first_existing_folder(value, anc, ans, k + 1, cwd);
        }
    }
}

/// The folder a directory dialog opens in, decided from the file system's answers: whether
/// the value exists, and whether each of its parents `ancestors` exists (`answers`).
pub fn directory_dialog_start_from(
    value: &str,
    value_exists: bool,
    ancestors: &Vec<String>,
    answers: &Vec<bool>,
    cwd: Option<&str>,
) -> (r: Option<String>)
    requires
        ancestors.len() == answers.len(),
    ensures
        opt_string_view(r) == directory_dialog_start(
            value@,
            value_exists,
            texts(ancestors@),
            answers@,
            opt_view(cwd),
        ),
{
    if value.is_empty() {
        return owned_cwd(cwd);
    }
    if value_exists {
        return Some(value.to_owned());
    }
    let ghost anc = texts(ancestors@);
    let n = ancestors.len();
    let mut i: usize = 0;
    while i < n
        invariant
            n == ancestors.len(),
            n == answers.len(),
            anc == texts(ancestors@),
            i <= n,
            value@.len() > 0,
            !value_exists,
            first_existing_folder(anc, answers@, i as int, opt_view(cwd)) == first_existing_folder(
                anc,
                answers@,
                0,
                opt_view(cwd),
            ),
        decreases n - i,
    {
        assert(anc[i as int] == ancestors@[i as int]@);
        if answers[i] && !ancestors[i].as_str().is_empty() {
            let r = ancestors[i].as_str().to_owned();
            assert(answers@[i as int] && anc[i as int].len() > 0);
            assert(first_existing_folder(anc, answers@, i as int, opt_view(cwd)) == Some(anc[i as int]));
            return Some(r);
        }
        i = i + 1;
    }
    owned_cwd(cwd)
}

impl DirectoryPicker {
    /// Create a new directory picker
    pub fn new() -> (r: Self)
        ensures
            r@ == (DirectoryPickerModel {
                value: Seq::empty(),
                placeholder: None,
                custom_theme: None,
                browse_shortcut_enabled: true,
                validation_display: ValidationDisplay::Full,
                enabled: true,
                is_editing: false,
                pending_refocus: false,
            }),
    {
        Self {
            value: String::new(),
            placeholder: None,
            custom_theme: None,
            browse_shortcut_enabled: true,
            validation_display: ValidationDisplay::Full,
            enabled: true,
            is_editing: false,
            pending_refocus: false,
        }
    }

    /// Set initial value (builder pattern)
    pub fn with_value(self, path: &str) -> (r: Self)
        ensures
            r@ == (DirectoryPickerModel { value: path@, ..self@ }),
    {
        let mut this = self;
        this.value = path.to_owned();
        this
    }

    /// Set placeholder text (builder pattern)
    pub fn placeholder(self, text: &str) -> (r: Self)
        ensures
            r@ == (DirectoryPickerModel { placeholder: Some(text@), ..self@ }),
    {
        let mut this = self;
        this.placeholder = Some(text.to_owned());
        this
    }

    /// Set custom theme (builder pattern)
    pub fn theme(self, theme: Theme) -> (r: Self)
        ensures
            r@ == (DirectoryPickerModel { custom_theme: Some(theme), ..self@ }),
    {
        let mut this = self;
        this.custom_theme = Some(theme);
        this
    }

    /// Enable or disable the Cmd+O / Ctrl+O browse shortcut (builder pattern)
    pub fn browse_shortcut(self, enabled: bool) -> (r: Self)
        ensures
            r@ == (DirectoryPickerModel { browse_shortcut_enabled: enabled, ..self@ }),
    {
        let mut this = self;
        this.browse_shortcut_enabled = enabled;
        this
    }

    /// Set how validation feedback is displayed (builder pattern)
    pub fn validation_display(self, display: ValidationDisplay) -> (r: Self)
        ensures
            r@ == (DirectoryPickerModel { validation_display: display, ..self@ }),
    {
        let mut this = self;
        this.validation_display = display;
        this
    }

    /// Set whether the widget is enabled (builder pattern)
    pub fn with_enabled(self, enabled: bool) -> (r: Self)
        ensures
            r@ == (DirectoryPickerModel { enabled, ..self@ }),
    {
        let mut this = self;
        this.enabled = enabled;
        this
    }

    /// Get the current directory path
    pub fn value(&self) -> (r: &str)
        ensures
            r@ == self@.value,
    {
        self.value.as_str()
    }

    /// Set value programmatically; a changed value is announced.
    pub fn set_value(&mut self, path: &str) -> (r: Option<DirectoryPickerEvent>)
        ensures
            final(self)@ == (DirectoryPickerModel { value: path@, ..old(self)@ }),
            r is Some <==> old(self)@.value != path@,
            r matches Some(DirectoryPickerEvent::Change(v)) ==> v@ == path@,
    {
        if str_equal(self.value.as_str(), path) {
            None
        } else {
            self.value = path.to_owned();
            Some(DirectoryPickerEvent::Change(path.to_owned()))
        }
    }

    /// Whether the path is being edited as text
    pub fn is_editing(&self) -> (r: bool)
        ensures
            r == self@.is_editing,
    {
        self.is_editing
    }

    /// A click on the field or the edit button, or the button's activation key: an enabled
    /// picker starts editing, and the text field is to open with the current value
    /// (returned). A disabled picker ignores it.
    pub fn start_editing(&mut self) -> (r: Option<String>)
        ensures
            !old(self)@.enabled ==> final(self)@ == old(self)@ && r is None,
            old(self)@.enabled ==> final(self)@ == (DirectoryPickerModel {
                is_editing: true,
                ..old(self)@
            }) && (r matches Some(t) && t@ == old(self)@.value),
    {
        if !self.enabled {
            return None;
        }
        self.is_editing = true;
        Some(self.value.clone())
    }

    /// Editing ended on the path `full_path` (the edited text, parsed): the value becomes
    /// it, announced when it changed.
    pub fn commit_edit(&mut self, full_path: &str) -> (r: Option<DirectoryPickerEvent>)
        ensures
            final(self)@ == (DirectoryPickerModel {
                value: full_path@,
                is_editing: false,
                ..old(self)@
            }),
            r is Some <==> old(self)@.value != full_path@,
            r matches Some(DirectoryPickerEvent::Change(v)) ==> v@ == full_path@,
    {
        self.is_editing = false;
        self.set_value(full_path)
    }

    /// Enter in the text field, or the field losing focus, with `text` in it (relative paths
    /// are read against the working directory `cwd`): the text is parsed and the full path
    /// committed.
    pub fn finish_editing(&mut self, text: &str, cwd: Option<&str>) -> (r: Option<
        DirectoryPickerEvent,
    >)
        ensures
            final(self)@ == (DirectoryPickerModel {
                value: final(self)@.value,
                is_editing: false,
                ..old(self)@
            }),
            exists|m: PathModel| parsed_ok(text@, opt_view(cwd), m) && final(self)@.value == m.full,
            text@.len() == 0 ==> final(self)@.value.len() == 0,
            r is Some <==> old(self)@.value != final(self)@.value,
            r matches Some(DirectoryPickerEvent::Change(v)) ==> v@ == final(self)@.value,
    {
        let info = parse_path_in(text, cwd);
        self.commit_edit(info.full_path.as_str())
    }

    /// Escape in the text field: editing is abandoned with the value kept, and the edit
    /// button is to take focus again on the next render.
    pub fn cancel_editing(&mut self)
        ensures
            final(self)@ == (DirectoryPickerModel {
                is_editing: false,
                pending_refocus: true,
                ..old(self)@
            }),
    {
        self.is_editing = false;
        self.pending_refocus = true;
    }

    /// Found at render: the text field lost focus while editing, holding `text`. Editing
    /// ends and the value becomes the parsed path, without an announcement. Outside
    /// editing nothing changes.
    pub fn edit_focus_lost(&mut self, text: &str, cwd: Option<&str>)
        ensures
            !old(self)@.is_editing ==> final(self)@ == old(self)@,
            old(self)@.is_editing ==> final(self)@ == (DirectoryPickerModel {
                value: final(self)@.value,
                is_editing: false,
                ..old(self)@
            }),
            old(self)@.is_editing ==> exists|m: PathModel|
                parsed_ok(text@, opt_view(cwd), m) && final(self)@.value == m.full,
            old(self)@.is_editing && text@.len() == 0 ==> final(self)@.value.len() == 0,
    {
        if self.is_editing {
            self.is_editing = false;
            let info = parse_path_in(text, cwd);
            self.value = info.full_path;
        }
    }

    /// Whether the edit button is to take focus on this render (after Escape); the request
    /// is consumed.
    pub fn take_pending_refocus(&mut self) -> (r: bool)
        ensures
            r == old(self)@.pending_refocus,
            final(self)@ == (DirectoryPickerModel { pending_refocus: false, ..old(self)@ }),
    {
        let r = self.pending_refocus;
        self.pending_refocus = false;
        r
    }

    /// A path dropped on an enabled picker: a directory is taken as it is, a file for the
    /// folder it is in; the folder becomes the value, announced when it changed. Anything
    /// else, an empty folder, and any drop on a disabled picker, change nothing. The file
    /// system is asked whether the path is a directory, then whether it is a file.
    pub fn drop_path(&mut self, path: &str) -> (r: Option<DirectoryPickerEvent>)
        ensures
            !old(self)@.enabled ==> final(self)@ == old(self)@ && r is None,
            old(self)@.enabled ==> exists|is_dir: bool, is_file: bool, parent: Option<Seq<char>>|
                parent_of_ok(path@, parent) && match #[trigger] folder_of_drop(
                    path@,
                    is_dir,
                    is_file,
                    parent,
                ) {
                    Some(f) => {
                        &&& final(self)@ == (DirectoryPickerModel { value: f, ..old(self)@ })
                        &&& r is Some <==> old(self)@.value != f
                        &&& r matches Some(DirectoryPickerEvent::Change(v)) ==> v@ == f
                    },
                    None => final(self)@ == old(self)@ && r is None,
                },
            r is Some <==> old(self)@.value != final(self)@.value,
            r matches Some(DirectoryPickerEvent::Change(v)) ==> v@ == final(self)@.value,
    {
        if !self.enabled {
            return None;
        }
        let is_dir = path_is_dir(path);
        let is_file = if is_dir {
            false
        } else {
            path_is_file(path)
        };
        let parent = path_parent(path);
        assert(parent_of_ok(path@, opt_view(parent)));
        let folder = dropped_folder(path, is_dir, is_file, parent);
        match folder {
            Some(f) => self.set_value(f),
            None => None,
        }
    }

    /// The folder the directory dialog opens in: the value when the file system has it,
    /// otherwise the nearest non-empty folder above it that the file system has; failing
    /// those, or without a value, the working directory `cwd`. The file system is asked
    /// whether the value exists, and then about its successive parents.
    pub fn dialog_start_directory(&self, cwd: Option<&str>) -> (r: Option<String>)
        ensures
            start_directory_ok(opt_string_view(r), self@.value, opt_view(cwd)),
            self@.value.len() == 0 ==> opt_string_view(r) == opt_view(cwd),
            directory_dialog_start_ok(self@.value, opt_view(cwd), opt_string_view(r)),
    {
        let value = self.value.as_str();
        let mut ancestors: Vec<String> = Vec::new();
        let mut answers: Vec<bool> = Vec::new();
        if value.is_empty() {
            let r = directory_dialog_start_from(value, false, &ancestors, &answers, cwd);
            proof {
                assert(texts(ancestors@) =~= Seq::<Seq<char>>::empty());
                lemma_dialog_start_ok(self@.value, false, texts(ancestors@), answers@, opt_view(cwd));
            }
            return r;
        }
        if path_exists(value) {
            let r = directory_dialog_start_from(value, true, &ancestors, &answers, cwd);
            proof {
                assert(texts(ancestors@) =~= Seq::<Seq<char>>::empty());
                lemma_dialog_start_ok(self@.value, true, texts(ancestors@), answers@, opt_view(cwd));
            }
            return r;
        }
        let mut current = value.to_owned();
        let mut searching = true;
        while searching
            invariant
                value@ == self@.value,
                value@.len() > 0,
                ancestors.len() == answers.len(),
                ancestors_ok(value@, texts(ancestors@)),
                ancestors.len() == 0 ==> current@ == value@,
                ancestors.len() > 0 ==> current@ == ancestors@[ancestors.len() - 1]@,
                current@ == value@ || proper_prefix(current@, value@),
                !searching ==> (plain_path(value@) ==> ancestors.len() > 0),
            decreases current@.len() + if searching { 1int } else { 0int },
        {
            let ghost before = texts(ancestors@);
            match path_parent(current.as_str()) {
                None => {
                    proof {
                        if plain_path(value@) && ancestors.len() == 0 {
                            assert(false);
                        }
                    }
                    searching = false;
                },
                Some(p) => {
                    let next = p.to_owned();
                    let exists_here = if next.as_str().is_empty() {
                        false
                    } else {
                        path_exists(next.as_str())
                    };
                    proof {
                        lemma_prefix_trans(next@, current@, value@);
                    }
                    ancestors.push(next.clone());
                    answers.push(exists_here);
                    proof {
                        assert(texts(ancestors@) =~= before.push(next@));
                        let a = texts(ancestors@);
                        assert forall|k: int| 0 <= k < a.len() implies proper_prefix(
                            #[trigger] a[k],
                            chain_prev(value@, a, k),
                        ) by {
                            if k < before.len() {
                                assert(a[k] == before[k]);
                                assert(chain_prev(value@, a, k) == chain_prev(value@, before, k));
                            }
                        }
                        assert forall|k: int|
                            0 <= k < a.len() && plain_path(chain_prev(value@, a, k)) implies parent_text(
                            #[trigger] a[k],
                            chain_prev(value@, a, k),
                        ) by {
                            if k < before.len() {
                                assert(a[k] == before[k]);
                                assert(chain_prev(value@, a, k) == chain_prev(value@, before, k));
                            }
                        }
                    }
                    if exists_here {
                        searching = false;
                    }
                    current = next;
                },
            }
        }
        let r = directory_dialog_start_from(value, false, &ancestors, &answers, cwd);
        proof {
            lemma_dialog_start_ok(self@.value, false, texts(ancestors@), answers@, opt_view(cwd));
        }
        r
    }

    /// What a browse (the button, its activation key, or Cmd+O) hands to the directory
    /// dialog: nothing for a disabled picker; otherwise the folder to open in.
    pub fn browse_request(&self, cwd: Option<&str>) -> (r: Option<Option<String>>)
        ensures
            !self@.enabled ==> r is None,
            self@.enabled ==> (r matches Some(d) && start_directory_ok(
                opt_string_view(d),
                self@.value,
                opt_view(cwd),
            ) && directory_dialog_start_ok(self@.value, opt_view(cwd), opt_string_view(d))),
    {
        if !self.enabled {
            return None;
        }
        Some(self.dialog_start_directory(cwd))
    }

    /// Whether Cmd+O / Ctrl+O opens the dialog: the shortcut and the picker are enabled.
    pub fn browse_shortcut_active(&self) -> (r: bool)
        ensures
            r == (self@.browse_shortcut_enabled && self@.enabled),
    {
        self.browse_shortcut_enabled && self.enabled
    }

    /// The folder name shown above the path: the value's final component (none without a
    /// value).
    pub fn display_name(&self) -> (r: Option<String>)
        ensures
            self@.value.len() == 0 ==> r is None,
            r matches Some(n) ==> n@.len() > 0,
            plain_path(self@.value) ==> r is Some && r.unwrap()@ == last_part(self@.value),
    {
        if self.value.as_str().is_empty() {
            return None;
        }
        match path_file_name(self.value.as_str()) {
            Some(n) => Some(n.to_owned()),
            None => None,
        }
    }

    /// The placeholder shown without a value: the one set, or the default prompt.
    pub fn placeholder_text(&self) -> (r: String)
        ensures
            self@.placeholder matches Some(p) ==> r@ == p,
            self@.placeholder is None ==> r@ == default_placeholder(),
    {
        placeholder_or_default(&self.placeholder)
    }

    /// Validate the current path and return the validation state
    pub fn validate(&self) -> (r: DirectoryPickerValidation)
        ensures
            (self@.value.len() == 0) <==> (r == DirectoryPickerValidation::Empty),
            self@.value.len() > 0 ==> exists|is_dir: bool, is_file: bool|
                r == directory_validation(is_dir, is_file),
    {
        validate_directory_path(self.value.as_str())
    }

    /// Returns whether the widget is enabled
    pub fn is_enabled(&self) -> (r: bool)
        ensures
            r == self@.enabled,
    {
        self.enabled
    }

    /// Set whether the widget is enabled
    pub fn set_enabled(&mut self, enabled: bool)
        ensures
            final(self)@ == (DirectoryPickerModel { enabled, ..old(self)@ }),
    {
        self.enabled = enabled;
    }

    /// Returns true if the current path is an existing directory
    pub fn is_valid(&self) -> (r: bool)
        ensures
            self@.value.len() == 0 ==> !r,
            self@.value.len() > 0 ==> exists|is_dir: bool, is_file: bool|
                r == (directory_validation(is_dir, is_file) == DirectoryPickerValidation::Valid),
    {
        self.validate() == DirectoryPickerValidation::Valid
    }

    /// How the path is shown: the existing part muted, a missing suffix as an error.
    pub fn compute_path_display(
        &self,
        path_info: &PathInfo,
        theme: &Theme,
        validation_display: &ValidationDisplay,
    ) -> (r: PathDisplayInfo)
        ensures
            r@ == directory_path_display(path_info@, *theme, *validation_display),
    {
        let mut info = PathDisplayInfo::new();
        if path_info.full_path.as_str().is_empty() {
            return info;
        }
        info.add_segment(path_info.existing_canonical.as_str(), theme.text_muted);
        if !path_info.fully_exists() {
            let color = if validation_display.shows_colors() {
                theme.error
            } else {
                theme.text_muted
            };
            info.add_path_prefix(path_info.non_existing_suffix.as_str(), color);
            if validation_display.shows_message() {
                info.set_explanation("path does not exist", theme.error);
            }
        }
        info
    }
}

} // verus!
