//! File path validation for the file picker
//!
//! The picker's modes and policies, and the validation of a typed path against
//! the file system.
use std::str::FromStr;
use vstd::prelude::*;
use crate::theme::Theme;
use crate::utils::path::{
    lemma_bare_name_parent, last_part, parent_of_ok, parent_text, plain_path,
    parse_path_in, parsed_ok, path_exists, path_file_name, path_is_dir, path_is_file, path_parent,
    proper_prefix, PathInfo, PathModel,
};
use crate::utils::text::{lowercase, str_equal, to_lowercase};
use crate::widgets::path_display::{DisplayModel, PathDisplayInfo, ValidationDisplay};

verus! {

/// File picker modes
#[derive(Clone, Debug, PartialEq, Eq, Structural)]
pub enum FileMode {
    /// Select existing files only (default)
    Open,
    /// Select output file location (file may not exist)
    Save,
}

impl Default for FileMode {
    fn default() -> (r: Self)
        ensures
            r == FileMode::Open,
    {
        FileMode::Open
    }
}

/// The mode a name selects: `save` in any case selects `Save`, anything else `Open`.
pub open spec fn file_mode_named(s: Seq<char>) -> FileMode {
    if lowercase(s) == seq!['s', 'a', 'v', 'e'] {
        FileMode::Save
    } else {
        FileMode::Open
    }
}

impl FileMode {
    /// The mode named by `s` (case-insensitive); unknown names give `Open`.
    pub fn from_name(s: &str) -> (r: Self)
        ensures
            r == file_mode_named(s@),
    {
        let lower = to_lowercase(s);
        proof {
            reveal_strlit("save");
            assert("save"@ =~= seq!['s', 'a', 'v', 'e']);
        }
        if str_equal(lower.as_str(), "save") {
            FileMode::Save
        } else {
            FileMode::Open
        }
    }
}

/// How to handle missing parent directories
#[derive(Clone, Debug, PartialEq, Eq, Structural)]
pub enum MissingDirectories {
    /// Show error if parent directory is missing (default)
    Error,
    /// Allow missing directories (CLI handles it)
    Okay,
    /// Create missing parent directories on run
    Create,
}

impl Default for MissingDirectories {
    fn default() -> (r: Self)
        ensures
            r == MissingDirectories::Error,
    {
        MissingDirectories::Error
    }
}

/// The policy a name selects: `okay` and `create` in any case, anything else `Error`.
pub open spec fn missing_directories_named(s: Seq<char>) -> MissingDirectories {
    if lowercase(s) == seq!['o', 'k', 'a', 'y'] {
        MissingDirectories::Okay
    } else if lowercase(s) == seq!['c', 'r', 'e', 'a', 't', 'e'] {
        MissingDirectories::Create
    } else {
        MissingDirectories::Error
    }
}

impl MissingDirectories {
    /// The policy named by `s` (case-insensitive); unknown names give `Error`.
    pub fn from_name(s: &str) -> (r: Self)
        ensures
            r == missing_directories_named(s@),
    {
        let lower = to_lowercase(s);
        proof {
            reveal_strlit("okay");
            reveal_strlit("create");
            assert("okay"@ =~= seq!['o', 'k', 'a', 'y']);
            assert("create"@ =~= seq!['c', 'r', 'e', 'a', 't', 'e']);
        }
        if str_equal(lower.as_str(), "okay") {
            MissingDirectories::Okay
        } else if str_equal(lower.as_str(), "create") {
            MissingDirectories::Create
        } else {
            MissingDirectories::Error
        }
    }
}

impl FromStr for FileMode {
    type Err = std::convert::Infallible;

    fn from_str(s: &str) -> Result<Self, Self::Err> {
        Ok(FileMode::from_name(s))
    }
}

impl FromStr for MissingDirectories {
    type Err = std::convert::Infallible;

    fn from_str(s: &str) -> Result<Self, Self::Err> {
        Ok(MissingDirectories::from_name(s))
    }
}

/// Validation state for FilePicker
#[derive(Clone, Debug, PartialEq, Eq, Structural)]
pub enum FilePickerValidation {
    /// No path entered
    Empty,
    /// Path exists and is a file (Open mode) or will be created (Save mode with existing parent)
    Valid,
    /// Open mode: path does not exist
    PathDoesNotExist,
    /// Path points to a directory instead of a file
    IsDirectory,
    /// Save mode: file exists and will be overwritten
    WillOverwrite,
    /// Save mode: parent directory does not exist (with MissingDirectories::Error)
    ParentDoesNotExist,
    /// Save mode: directories will be created (with MissingDirectories::Create or Okay)
    WillCreatePath,
}

/// The verdict on a non-empty path, given what the file system says of it: whether it is
/// a directory, whether it is a file, and whether its parent directory is there.
pub open spec fn file_validation(
    is_dir: bool,
    is_file: bool,
    parent_present: bool,
    mode: FileMode,
    missing: MissingDirectories,
) -> FilePickerValidation {
    if is_dir {
        FilePickerValidation::IsDirectory
    } else {
        match mode {
            FileMode::Open => if is_file {
                FilePickerValidation::Valid
            } else {
                FilePickerValidation::PathDoesNotExist
            },
            FileMode::Save => if is_file {
                FilePickerValidation::WillOverwrite
            } else if parent_present {
                FilePickerValidation::Valid
            } else {
                match missing {
                    MissingDirectories::Error => FilePickerValidation::ParentDoesNotExist,
                    _ => FilePickerValidation::WillCreatePath,
                }
            },
        }
    }
}

/// Decide the verdict on a non-empty path from the file system's answers.
pub fn classify_file_path(
    is_dir: bool,
    is_file: bool,
    parent_present: bool,
    mode: &FileMode,
    missing_directories: &MissingDirectories,
) -> (r: FilePickerValidation)
    ensures
        r == file_validation(is_dir, is_file, parent_present, *mode, *missing_directories),
{
    if is_dir {
        return FilePickerValidation::IsDirectory;
    }
    match mode {
        FileMode::Open => {
            if is_file {
                FilePickerValidation::Valid
            } else {
                FilePickerValidation::PathDoesNotExist
            }
        },
        FileMode::Save => {
            if is_file {
                FilePickerValidation::WillOverwrite
            } else if parent_present {
                FilePickerValidation::Valid
            } else {
                match missing_directories {
                    MissingDirectories::Error => FilePickerValidation::ParentDoesNotExist,
                    MissingDirectories::Create | MissingDirectories::Okay => {
                        FilePickerValidation::WillCreatePath
                    },
                }
            }
        },
    }
}

/// Whether the parent of a path to save to counts as there: the path has a parent, and the
/// file system has it (`on_disk`) or it is empty (a bare name, saved in the working
/// directory).
pub open spec fn parent_counts(parent: Option<Seq<char>>, on_disk: bool) -> bool {
    match parent {
        Some(q) => on_disk || q.len() == 0,
        None => false,
    }
}

/// Decide whether the parent of a path to save to counts as there, from that parent and the
/// file system's answer whether it exists.
pub fn parent_present_from(parent: Option<&str>, on_disk: bool) -> (r: bool)
    ensures
        r == parent_counts(opt_view(parent), on_disk),
{
    match parent {
        Some(p) => on_disk || p.is_empty(),
        None => false,
    }
}

/// `r` is a verdict on `path` that the file system can give: `Empty` for the empty path;
/// otherwise the verdict from some answers whether the path is a directory and whether it is
/// a file, with the parent that `Path::parent` gives and some answer whether that parent
/// exists.
pub open spec fn file_verdict_ok(
    path: Seq<char>,
    mode: FileMode,
    missing: MissingDirectories,
    r: FilePickerValidation,
) -> bool {
    if path.len() == 0 {
        r == FilePickerValidation::Empty
    } else {
        exists|is_dir: bool, is_file: bool, parent: Option<Seq<char>>, parent_exists: bool|
            parent_of_ok(path, parent) && r == #[trigger] file_validation(
                is_dir,
                is_file,
                parent_counts(parent, parent_exists),
                mode,
                missing,
            )
    }
}

/// Validate a file path for the given mode and missing directories policy
///
/// This is a standalone function that can be used without a FilePicker instance,
/// useful for validation logic and testing. A bare file name to save is never reported as
/// missing its directory: it is saved in the working directory.
pub fn validate_file_path(
    path: &str,
    mode: &FileMode,
    missing_directories: &MissingDirectories,
) -> (r: FilePickerValidation)
    ensures
        (path@.len() == 0) <==> (r == FilePickerValidation::Empty),
        file_verdict_ok(path@, *mode, *missing_directories, r),
        path@.len() > 0 && plain_path(path@) && !path@.contains('/') && *mode == FileMode::Save
            ==> r != FilePickerValidation::ParentDoesNotExist && r
            != FilePickerValidation::WillCreatePath,
{
    if path.is_empty() {
        return FilePickerValidation::Empty;
    }
    // Check if path points to a directory (invalid for file picker)
    let is_dir = path_is_dir(path);
    let is_file = if is_dir {
        false
    } else {
        path_is_file(path)
    };
    // The parent, and whether it exists (only asked when saving a new file)
    let parent = path_parent(path);
    let parent_exists = if !is_dir && !is_file && *mode == FileMode::Save {
        match parent {
            Some(p) => path_exists(p),
            None => false,
        }
    } else {
        false
    };
    let parent_present = parent_present_from(parent, parent_exists);
    let r = classify_file_path(is_dir, is_file, parent_present, mode, missing_directories);
    proof {
        let pv = opt_view(parent);
        assert(parent_of_ok(path@, pv));
        assert(r == file_validation(is_dir, is_file, parent_counts(pv, parent_exists), *mode, *missing_directories));
        if plain_path(path@) && !path@.contains('/') {
            lemma_bare_name_parent(path@, pv);
        }
    }
    r
}

/// A directory is never accepted as a file; opening never reports overwrites or creation;
/// saving never reports a missing file; and creating or leaving missing directories to
/// the caller are judged alike.
pub proof fn law_file_validation(
    is_dir: bool,
    is_file: bool,
    parent_present: bool,
    mode: FileMode,
    missing: MissingDirectories,
)
    ensures
        is_dir ==> file_validation(is_dir, is_file, parent_present, mode, missing)
            == FilePickerValidation::IsDirectory,
        mode == FileMode::Open ==> {
            let v = file_validation(is_dir, is_file, parent_present, mode, missing);
            v == FilePickerValidation::IsDirectory || v == FilePickerValidation::Valid || v
                == FilePickerValidation::PathDoesNotExist
        },
        mode == FileMode::Save ==> file_validation(is_dir, is_file, parent_present, mode, missing)
            != FilePickerValidation::PathDoesNotExist,
        file_validation(is_dir, is_file, parent_present, mode, MissingDirectories::Create)
            == file_validation(is_dir, is_file, parent_present, mode, MissingDirectories::Okay),
        file_validation(is_dir, is_file, parent_present, mode, missing)
            != FilePickerValidation::Empty,
{
}

// ============================================================================
// Path display
// ============================================================================

/// The colour a status is shown in: its own when colours are shown, muted otherwise.
pub open spec fn tint(vd: ValidationDisplay, theme: Theme, color: u32) -> u32 {
    if vd.colors() {
        color
    } else {
        theme.text_muted
    }
}

/// The explanation `msg` in `color`, when messages are shown.
pub open spec fn explain_if(d: DisplayModel, vd: ValidationDisplay, msg: Seq<char>, color: u32) -> DisplayModel {
    if vd.messages() {
        d.explained(msg, color)
    } else {
        d
    }
}

/// The parent in muted text, then the final component after a separator in `color`.
pub open spec fn parent_then_name(
    parent: Option<Seq<char>>,
    name: Option<Seq<char>>,
    muted: u32,
    color: u32,
) -> DisplayModel {
    let d = match parent {
        Some(q) => DisplayModel::empty().segment(q, muted),
        None => DisplayModel::empty(),
    };
    match name {
        Some(n) => d.path_prefix(n, color),
        None => d,
    }
}

/// The existing part in muted text, then the missing suffix (if any) after a separator in
/// `color`, explained by `msg`.
pub open spec fn existing_then_missing(
    p: PathModel,
    vd: ValidationDisplay,
    theme: Theme,
    color: u32,
    msg: Seq<char>,
) -> DisplayModel {
    let d = DisplayModel::empty().segment(p.existing, theme.text_muted);
    if p.suffix.len() == 0 {
        d
    } else {
        explain_if(d.path_prefix(p.suffix, tint(vd, theme, color)), vd, msg, color)
    }
}

/// How a file picker shows the path `p`, given what the file system says of it: whether it
/// is a directory, whether it is a file, its parent and final component, and whether the
/// parent exists.
pub open spec fn file_path_display(
    p: PathModel,
    is_dir: bool,
    file_exists: bool,
    parent: Option<Seq<char>>,
    name: Option<Seq<char>>,
    parent_exists: bool,
    mode: FileMode,
    missing: MissingDirectories,
    theme: Theme,
    vd: ValidationDisplay,
) -> DisplayModel {
    if p.full.len() == 0 {
        DisplayModel::empty()
    } else if is_dir {
        explain_if(
            parent_then_name(parent, name, theme.text_muted, tint(vd, theme, theme.warning)),
            vd,
            "file expected, but path is a directory"@,
            theme.warning,
        )
    } else {
        match mode {
            FileMode::Open => existing_then_missing(
                p,
                vd,
                theme,
                theme.error,
                "path does not exist"@,
            ),
            FileMode::Save => if file_exists {
                explain_if(
                    parent_then_name(parent, name, theme.text_muted, tint(vd, theme, theme.warning)),
                    vd,
                    "file exists and will be overwritten"@,
                    theme.warning,
                )
            } else if parent_exists {
                explain_if(
                    parent_then_name(parent, name, theme.text_muted, tint(vd, theme, theme.success)),
                    vd,
                    "file will be created"@,
                    theme.success,
                )
            } else {
                match missing {
                    MissingDirectories::Create => existing_then_missing(
                        p,
                        vd,
                        theme,
                        theme.success,
                        "path will be created"@,
                    ),
                    MissingDirectories::Okay => existing_then_missing(
                        p,
                        vd,
                        theme,
                        theme.success,
                        "path will be created by CLI"@,
                    ),
                    MissingDirectories::Error => existing_then_missing(
                        p,
                        vd,
                        theme,
                        theme.error,
                        "path does not exist"@,
                    ),
                }
            },
        }
    }
}

/// The colour a status is shown in: its own when colours are shown, muted otherwise.
fn tint_color(vd: &ValidationDisplay, theme: &Theme, color: u32) -> (r: u32)
    ensures
        r == tint(*vd, *theme, color),
{
    if vd.shows_colors() {
        color
    } else {
        theme.text_muted
    }
}

/// Add the explanation when messages are shown.
fn explain(info: &mut PathDisplayInfo, vd: &ValidationDisplay, msg: &str, color: u32)
    ensures
        final(info)@ == explain_if(old(info)@, *vd, msg@, color),
{
    if vd.shows_message() {
        info.set_explanation(msg, color);
    }
}

/// The parent in muted text, then the final component in `color`.
fn show_parent_then_name(parent: Option<&str>, name: Option<&str>, muted: u32, color: u32) -> (r:
    PathDisplayInfo)
    ensures
        r@ == parent_then_name(
            match parent {
                Some(q) => Some(q@),
                None => None,
            },
            match name {
                Some(n) => Some(n@),
                None => None,
            },
            muted,
            color,
        ),
{
    let mut info = PathDisplayInfo::new();
    if let Some(q) = parent {
        info.add_segment(q, muted);
    }
    if let Some(n) = name {
        info.add_path_prefix(n, color);
    }
    info
}

/// The existing part in muted text, then the missing suffix in `color`, explained by `msg`.
fn show_existing_then_missing(
    path_info: &PathInfo,
    vd: &ValidationDisplay,
    theme: &Theme,
    color: u32,
    msg: &str,
) -> (r: PathDisplayInfo)
    ensures
        r@ == existing_then_missing(path_info@, *vd, *theme, color, msg@),
{
    let mut info = PathDisplayInfo::new();
    info.add_segment(path_info.existing_canonical.as_str(), theme.text_muted);
    if !path_info.fully_exists() {
        info.add_path_prefix(path_info.non_existing_suffix.as_str(), tint_color(vd, theme, color));
        explain(&mut info, vd, msg, color);
    }
    info
}

/// How a file picker shows a path, given the file system's answers about it.
pub fn file_path_display_from(
    path_info: &PathInfo,
    is_dir: bool,
    file_exists: bool,
    parent: Option<&str>,
    name: Option<&str>,
    parent_exists: bool,
    mode: &FileMode,
    missing_directories: &MissingDirectories,
    theme: &Theme,
    validation_display: &ValidationDisplay,
) -> (r: PathDisplayInfo)
    ensures
        r@ == file_path_display(
            path_info@,
            is_dir,
            file_exists,
            match parent {
                Some(q) => Some(q@),
                None => None,
            },
            match name {
                Some(n) => Some(n@),
                None => None,
            },
            parent_exists,
            *mode,
            *missing_directories,
            *theme,
            *validation_display,
        ),
{
    let vd = validation_display;
    if path_info.full_path.as_str().is_empty() {
        return PathDisplayInfo::new();
    }
    if is_dir {
        let mut info = show_parent_then_name(
            parent,
            name,
            theme.text_muted,
            tint_color(vd, theme, theme.warning),
        );
        explain(&mut info, vd, "file expected, but path is a directory", theme.warning);
        return info;
    }
    match mode {
        FileMode::Open => show_existing_then_missing(
            path_info,
            vd,
            theme,
            theme.error,
            "path does not exist",
        ),
        FileMode::Save => {
            if file_exists {
                let mut info = show_parent_then_name(
                    parent,
                    name,
                    theme.text_muted,
                    tint_color(vd, theme, theme.warning),
                );
                explain(&mut info, vd, "file exists and will be overwritten", theme.warning);
                info
            } else if parent_exists {
                let mut info = show_parent_then_name(
                    parent,
                    name,
                    theme.text_muted,
                    tint_color(vd, theme, theme.success),
                );
                explain(&mut info, vd, "file will be created", theme.success);
                info
            } else {
                match missing_directories {
                    MissingDirectories::Create => show_existing_then_missing(
                        path_info,
                        vd,
                        theme,
                        theme.success,
                        "path will be created",
                    ),
                    MissingDirectories::Okay => show_existing_then_missing(
                        path_info,
                        vd,
                        theme,
                        theme.success,
                        "path will be created by CLI",
                    ),
                    MissingDirectories::Error => show_existing_then_missing(
                        path_info,
                        vd,
                        theme,
                        theme.error,
                        "path does not exist",
                    ),
                }
            }
        },
    }
}

// ============================================================================
// The picker
// ============================================================================

/// Events emitted by FilePicker
#[derive(Clone, Debug)]
pub enum FilePickerEvent {
    /// File path changed
    Change(String),
}

/// A file picker's settings and value as plain values.
pub struct FilePickerModel {
    pub value: Seq<char>,
    pub placeholder: Option<Seq<char>>,
    pub extensions: Seq<Seq<char>>,
    pub mode: FileMode,
    pub missing_directories: MissingDirectories,
    pub custom_theme: Option<Theme>,
    pub browse_shortcut_enabled: bool,
    pub validation_display: ValidationDisplay,
    pub enabled: bool,
    pub is_editing: bool,
    pub pending_refocus: bool,
}

impl FilePickerModel {
    /// Saving into missing directories that are to be created.
    pub open spec fn needs_directory_creation(self) -> bool {
        self.mode == FileMode::Save && self.missing_directories == MissingDirectories::Create
    }
}

/// Whether a verdict lets the picker's value be used.
pub open spec fn accepts(v: FilePickerValidation) -> bool {
    v == FilePickerValidation::Valid || v == FilePickerValidation::WillOverwrite || v
        == FilePickerValidation::WillCreatePath
}

/// Whether the picker accepts a path with verdict `v`: a valid path, a file to overwrite,
/// or a path whose missing directories will be created.
pub fn verdict_accepted(v: &FilePickerValidation) -> (r: bool)
    ensures
        r == accepts(*v),
{
    matches!(
        v,
        FilePickerValidation::Valid | FilePickerValidation::WillOverwrite
            | FilePickerValidation::WillCreatePath
    )
}

/// File picker: the selected path, its mode and missing-directory policy, and how it shows
/// validation.
pub struct FilePicker {
    value: String,
    placeholder: Option<String>,
    extensions: Vec<String>,
    mode: FileMode,
    missing_directories: MissingDirectories,
    custom_theme: Option<Theme>,
    browse_shortcut_enabled: bool,
    validation_display: ValidationDisplay,
    enabled: bool,
    is_editing: bool,
    pending_refocus: bool,
}

impl View for FilePicker {
    type V = FilePickerModel;

    closed spec fn view(&self) -> FilePickerModel {
        FilePickerModel {
            value: self.value@,
            placeholder: match self.placeholder {
                Some(p) => Some(p@),
                None => None,
            },
            extensions: self.extensions@.map_values(|e: String| e@),
            mode: self.mode,
            missing_directories: self.missing_directories,
            custom_theme: self.custom_theme,
            browse_shortcut_enabled: self.browse_shortcut_enabled,
            validation_display: self.validation_display,
            enabled: self.enabled,
            is_editing: self.is_editing,
            pending_refocus: self.pending_refocus,
        }
    }
}

/// An optional string slice as optional text.
pub open spec fn opt_view(o: Option<&str>) -> Option<Seq<char>> {
    match o {
        Some(q) => Some(q@),
        None => None,
    }
}

/// The prompt a picker shows when it has no value and no placeholder was set.
pub open spec fn default_placeholder() -> Seq<char> {
    "Click to enter path, or drag & drop"@
}

/// The placeholder text a picker shows: the one set, or the default prompt.
pub fn placeholder_or_default(placeholder: &Option<String>) -> (r: String)
    ensures
        placeholder matches Some(p) ==> r@ == p@,
        placeholder is None ==> r@ == default_placeholder(),
{
    match placeholder {
        Some(p) => p.clone(),
        None => "Click to enter path, or drag & drop".to_owned(),
    }
}

/// Where a browse dialog may open for a picker holding `value`, with working directory
/// `cwd`: at the value itself or at a non-empty start of it (a folder on the way up), or, failing
/// those, at the working directory; with no working directory either, wherever the dialog
/// chooses (`None`).
pub open spec fn start_directory_ok(
    d: Option<Seq<char>>,
    value: Seq<char>,
    cwd: Option<Seq<char>>,
) -> bool {
    match d {
        Some(x) => (value.len() > 0 && (x == value || (x.len() > 0 && proper_prefix(x, value))))
            || cwd == Some(x),
        None => cwd is None,
    }
}

/// An optional string as optional text.
pub open spec fn opt_string_view(o: Option<String>) -> Option<Seq<char>> {
    match o {
        Some(q) => Some(q@),
        None => None,
    }
}

/// The working directory, owned.
pub(crate) fn owned_cwd(cwd: Option<&str>) -> (r: Option<String>)
    ensures
        opt_string_view(r) == opt_view(cwd),
{
    match cwd {
        Some(c) => Some(c.to_owned()),
        None => None,
    }
}

/// What a browse hands to the file dialog: the folder to open in, the extensions to offer
/// and whether a file is to be saved (rather than opened).
pub struct FileDialogRequest {
    pub start_directory: Option<String>,
    pub extensions: Vec<String>,
    pub save: bool,
}

/// The folder a file dialog opens in for a picker holding `value`, from what the file
/// system answered: whether the value is a directory and whether it exists, the value's
/// parent and whether that exists. Without a value, or when neither the directory nor a
/// non-empty existing parent will do, the working directory `cwd`.
pub open spec fn file_dialog_start(
    value: Seq<char>,
    value_is_dir: bool,
    value_exists: bool,
    parent: Option<Seq<char>>,
    parent_exists: bool,
    cwd: Option<Seq<char>>,
) -> Option<Seq<char>> {
    if value.len() == 0 {
        cwd
    } else if value_is_dir {
        if value_exists {
            Some(value)
        } else {
            cwd
        }
    } else {
        match parent {
            Some(q) => if parent_exists && q.len() > 0 {
                Some(q)
            } else {
                cwd
            },
            None => cwd,
        }
    }
}

/// `parent` is what the path syntax gives as the parent of `value`, as far as it is known:
/// a shorter start of it, and for a plain final component the text before it.
pub open spec fn file_answers_ok(value: Seq<char>, value_is_dir: bool, parent: Option<Seq<char>>) -> bool {
    &&& parent matches Some(q) ==> proper_prefix(q, value)
    &&& !value_is_dir && value.len() > 0 && plain_path(value) ==> parent is Some && parent_text(
        parent.unwrap(),
        value,
    )
}

/// `d` is where a file dialog opens for `value` on some answers of the file system about
/// the value and its parent.
pub open spec fn file_dialog_start_ok(value: Seq<char>, cwd: Option<Seq<char>>, d: Option<Seq<char>>) -> bool {
    exists|value_is_dir: bool, value_exists: bool, parent: Option<Seq<char>>, parent_exists: bool|
        file_answers_ok(value, value_is_dir, parent) && d == file_dialog_start(
            value,
            value_is_dir,
            value_exists,
            parent,
            parent_exists,
            cwd,
        )
}

/// The folder a file dialog opens in, decided from the file system's answers about the
/// value (`value_is_dir`, `value_exists`) and its parent (`parent`, `parent_exists`).
pub fn file_dialog_start_from(
    value: &str,
    value_is_dir: bool,
    value_exists: bool,
    parent: Option<&str>,
    parent_exists: bool,
    cwd: Option<&str>,
) -> (r: Option<String>)
    ensures
        opt_string_view(r) == file_dialog_start(
            value@,
            value_is_dir,
            value_exists,
            opt_view(parent),
            parent_exists,
            opt_view(cwd),
        ),
{
    if value.is_empty() {
        return owned_cwd(cwd);
    }
    if value_is_dir {
        if value_exists {
            return Some(value.to_owned());
        }
        return owned_cwd(cwd);
    }
    match parent {
        Some(q) => {
            if parent_exists && !q.is_empty() {
                Some(q.to_owned())
            } else {
                owned_cwd(cwd)
            }
        },
        None => owned_cwd(cwd),
    }
}

impl FilePicker {
    /// Create a new file picker
    pub fn new() -> (r: Self)
        ensures
            r@ == (FilePickerModel {
                value: Seq::empty(),
                placeholder: None,
                extensions: Seq::empty(),
                mode: FileMode::Open,
                missing_directories: MissingDirectories::Error,
                custom_theme: None,
                browse_shortcut_enabled: true,
                validation_display: ValidationDisplay::Full,
                enabled: true,
                is_editing: false,
                pending_refocus: false,
            }),
    {
        let r = Self {
            value: String::new(),
            placeholder: None,
            extensions: Vec::new(),
            mode: FileMode::Open,
            missing_directories: MissingDirectories::Error,
            custom_theme: None,
            browse_shortcut_enabled: true,
            validation_display: ValidationDisplay::Full,
            enabled: true,
            is_editing: false,
            pending_refocus: false,
        };
        assert(r@.extensions =~= Seq::<Seq<char>>::empty());
        r
    }

    /// Set initial value (builder pattern)
    pub fn with_value(self, path: &str) -> (r: Self)
        ensures
            r@ == (FilePickerModel { value: path@, ..self@ }),
    {
        let mut this = self;
        this.value = path.to_owned();
        this
    }

    /// Set placeholder text (builder pattern)
    pub fn placeholder(self, text: &str) -> (r: Self)
        ensures
            r@ == (FilePickerModel { placeholder: Some(text@), ..self@ }),
    {
        let mut this = self;
        this.placeholder = Some(text.to_owned());
        this
    }

    /// Set file extensions filter (builder pattern)
    pub fn extensions(self, extensions: Vec<String>) -> (r: Self)
        ensures
            r@ == (FilePickerModel { extensions: extensions@.map_values(|e: String| e@), ..self@ }),
    {
        let mut this = self;
        this.extensions = extensions;
        this
    }

    /// Set file mode (builder pattern)
    pub fn mode(self, mode: FileMode) -> (r: Self)
        ensures
            r@ == (FilePickerModel { mode, ..self@ }),
    {
        let mut this = self;
        this.mode = mode;
        this
    }

    /// Set missing directories handling (builder pattern)
    pub fn missing_directories(self, handling: MissingDirectories) -> (r: Self)
        ensures
            r@ == (FilePickerModel { missing_directories: handling, ..self@ }),
    {
        let mut this = self;
        this.missing_directories = handling;
        this
    }

    /// Set custom theme (builder pattern)
    pub fn theme(self, theme: Theme) -> (r: Self)
        ensures
            r@ == (FilePickerModel { custom_theme: Some(theme), ..self@ }),
    {
        let mut this = self;
        this.custom_theme = Some(theme);
        this
    }

    /// Enable or disable the Cmd+O / Ctrl+O browse shortcut (builder pattern)
    pub fn browse_shortcut(self, enabled: bool) -> (r: Self)
        ensures
            r@ == (FilePickerModel { browse_shortcut_enabled: enabled, ..self@ }),
    {
        let mut this = self;
        this.browse_shortcut_enabled = enabled;
        this
    }

    /// Set how validation feedback is displayed (builder pattern)
    pub fn validation_display(self, display: ValidationDisplay) -> (r: Self)
        ensures
            r@ == (FilePickerModel { validation_display: display, ..self@ }),
    {
        let mut this = self;
        this.validation_display = display;
        this
    }

    /// Set whether the widget is enabled (builder pattern)
    pub fn with_enabled(self, enabled: bool) -> (r: Self)
        ensures
            r@ == (FilePickerModel { enabled, ..self@ }),
    {
        let mut this = self;
        this.enabled = enabled;
        this
    }

    /// Returns whether the widget is enabled
    pub fn is_enabled(&self) -> (r: bool)
        ensures
            r == self@.enabled,
    {
        self.enabled
    }

    /// Set whether the widget is enabled
    pub fn set_enabled(&mut self, enabled: bool)
        ensures
            final(self)@ == (FilePickerModel { enabled, ..old(self)@ }),
    {
        self.enabled = enabled;
    }

    /// Get the current file path
    pub fn value(&self) -> (r: &str)
        ensures
            r@ == self@.value,
    {
        self.value.as_str()
    }

    /// Set value programmatically; a changed value is announced.
    pub fn set_value(&mut self, path: &str) -> (r: Option<FilePickerEvent>)
        ensures
            final(self)@ == (FilePickerModel { value: path@, ..old(self)@ }),
            r is Some <==> old(self)@.value != path@,
            r matches Some(FilePickerEvent::Change(v)) ==> v@ == path@,
    {
        if str_equal(self.value.as_str(), path) {
            None
        } else {
            self.value = path.to_owned();
            Some(FilePickerEvent::Change(path.to_owned()))
        }
    }

    /// Whether the path is being edited as text
    pub fn is_editing(&self) -> (r: bool)
        ensures
            r == self@.is_editing,
    {
        self.is_editing
    }

    /// A click on the field or the edit button, or the button's activation key: an enabled
    /// picker starts editing, and the text field is to open with the current value
    /// (returned). A disabled picker ignores it.
    pub fn start_editing(&mut self) -> (r: Option<String>)
        ensures
            !old(self)@.enabled ==> final(self)@ == old(self)@ && r is None,
            old(self)@.enabled ==> final(self)@ == (FilePickerModel {
                is_editing: true,
                ..old(self)@
            }) && (r matches Some(t) && t@ == old(self)@.value),
    {
        if !self.enabled {
            return None;
        }
        self.is_editing = true;
        Some(self.value.clone())
    }

    /// Editing ended on the path `full_path` (the edited text, parsed): the value becomes
    /// it, announced when it changed.
    pub fn commit_edit(&mut self, full_path: &str) -> (r: Option<FilePickerEvent>)
        ensures
            final(self)@ == (FilePickerModel {
                value: full_path@,
                is_editing: false,
                ..old(self)@
            }),
            r is Some <==> old(self)@.value != full_path@,
            r matches Some(FilePickerEvent::Change(v)) ==> v@ == full_path@,
    {
        self.is_editing = false;
        self.set_value(full_path)
    }

    /// Enter in the text field, or the field losing focus, with `text` in it (relative paths
    /// are read against the working directory `cwd`): the text is parsed and the full path
    /// committed.
    pub fn finish_editing(&mut self, text: &str, cwd: Option<&str>) -> (r: Option<
        FilePickerEvent,
    >)
        ensures
            final(self)@ == (FilePickerModel {
                value: final(self)@.value,
                is_editing: false,
                ..old(self)@
            }),
            exists|m: PathModel| parsed_ok(text@, opt_view(cwd), m) && final(self)@.value == m.full,
            text@.len() == 0 ==> final(self)@.value.len() == 0,
            r is Some <==> old(self)@.value != final(self)@.value,
            r matches Some(FilePickerEvent::Change(v)) ==> v@ == final(self)@.value,
    {
        let info = parse_path_in(text, cwd);
        self.commit_edit(info.full_path.as_str())
    }

    /// Escape in the text field: editing is abandoned with the value kept, and the edit
    /// button is to take focus again on the next render.
    pub fn cancel_editing(&mut self)
        ensures
            final(self)@ == (FilePickerModel {
                is_editing: false,
                pending_refocus: true,
                ..old(self)@
            }),
    {
        self.is_editing = false;
        self.pending_refocus = true;
    }

    /// Found at render: the text field lost focus while editing, holding `text`. Editing
    /// ends and the value becomes the parsed path, without an announcement. Outside
    /// editing nothing changes.
    pub fn edit_focus_lost(&mut self, text: &str, cwd: Option<&str>)
        ensures
            !old(self)@.is_editing ==> final(self)@ == old(self)@,
            old(self)@.is_editing ==> final(self)@ == (FilePickerModel {
                value: final(self)@.value,
                is_editing: false,
                ..old(self)@
            }),
            old(self)@.is_editing ==> exists|m: PathModel|
                parsed_ok(text@, opt_view(cwd), m) && final(self)@.value == m.full,
            old(self)@.is_editing && text@.len() == 0 ==> final(self)@.value.len() == 0,
    {
        if self.is_editing {
            self.is_editing = false;
            let info = parse_path_in(text, cwd);
            self.value = info.full_path;
        }
    }

    /// Whether the edit button is to take focus on this render (after Escape); the request
    /// is consumed.
    pub fn take_pending_refocus(&mut self) -> (r: bool)
        ensures
            r == old(self)@.pending_refocus,
            final(self)@ == (FilePickerModel { pending_refocus: false, ..old(self)@ }),
    {
        let r = self.pending_refocus;
        self.pending_refocus = false;
        r
    }

    /// A path dropped on an enabled picker: if the file system has a file there, it becomes
    /// the value, announced when it changed. A disabled picker takes no drops.
    pub fn drop_path(&mut self, path: &str) -> (r: Option<FilePickerEvent>)
        ensures
            !old(self)@.enabled ==> final(self)@ == old(self)@ && r is None,
            final(self)@ == old(self)@ || final(self)@ == (FilePickerModel {
                value: path@,
                ..old(self)@
            }),
            r is Some <==> old(self)@.value != final(self)@.value,
            r matches Some(FilePickerEvent::Change(v)) ==> v@ == final(self)@.value,
    {
        if !self.enabled || !path_is_file(path) {
            return None;
        }
        self.set_value(path)
    }

    /// The folder the file dialog opens in: the value when it names a directory, otherwise
    /// its parent, provided the file system has it; failing those, or without a value, the
    /// working directory `cwd`. The file system is asked whether the value is a directory
    /// (and then whether it exists), or else whether the value's parent exists.
    pub fn dialog_start_directory(&self, cwd: Option<&str>) -> (r: Option<String>)
        ensures
            start_directory_ok(opt_string_view(r), self@.value, opt_view(cwd)),
            self@.value.len() == 0 ==> opt_string_view(r) == opt_view(cwd),
            file_dialog_start_ok(self@.value, opt_view(cwd), opt_string_view(r)),
    {
        let value = self.value.as_str();
        if value.is_empty() {
            return file_dialog_start_from(value, false, false, None, false, cwd);
        }
        let is_dir = path_is_dir(value);
        let value_exists = if is_dir {
            path_exists(value)
        } else {
            false
        };
        let parent = if is_dir {
            None
        } else {
            path_parent(value)
        };
        let parent_exists = match parent {
            Some(q) => path_exists(q),
            None => false,
        };
        let r = file_dialog_start_from(value, is_dir, value_exists, parent, parent_exists, cwd);
        assert(file_answers_ok(self@.value, is_dir, opt_view(parent)));
        r
    }

    /// What a browse (the button, its activation key, or Cmd+O) hands to the file dialog:
    /// nothing for a disabled picker; otherwise where to open, the extensions and the mode.
    pub fn browse_request(&self, cwd: Option<&str>) -> (r: Option<FileDialogRequest>)
        ensures
            !self@.enabled ==> r is None,
            self@.enabled ==> (r matches Some(q) && {
                &&& start_directory_ok(opt_string_view(q.start_directory), self@.value, opt_view(cwd))
                &&& file_dialog_start_ok(self@.value, opt_view(cwd), opt_string_view(q.start_directory))
                &&& q.extensions@.map_values(|e: String| e@) == self@.extensions
                &&& q.save == (self@.mode == FileMode::Save)
            }),
    {
        if !self.enabled {
            return None;
        }
        Some(FileDialogRequest {
            start_directory: self.dialog_start_directory(cwd),
            extensions: self.extensions.clone(),
            save: self.mode == FileMode::Save,
        })
    }

    /// Whether Cmd+O / Ctrl+O opens the dialog: the shortcut and the picker are enabled.
    pub fn browse_shortcut_active(&self) -> (r: bool)
        ensures
            r == (self@.browse_shortcut_enabled && self@.enabled),
    {
        self.browse_shortcut_enabled && self.enabled
    }

    /// The file name shown above the path: the value's final component (none without a
    /// value).
    pub fn display_name(&self) -> (r: Option<String>)
        ensures
            self@.value.len() == 0 ==> r is None,
            r matches Some(n) ==> n@.len() > 0,
            plain_path(self@.value) ==> r is Some && r.unwrap()@ == last_part(self@.value),
    {
        if self.value.as_str().is_empty() {
            return None;
        }
        match path_file_name(self.value.as_str()) {
            Some(n) => Some(n.to_owned()),
            None => None,
        }
    }

    /// The placeholder shown without a value: the one set, or the default prompt.
    pub fn placeholder_text(&self) -> (r: String)
        ensures
            self@.placeholder matches Some(p) ==> r@ == p,
            self@.placeholder is None ==> r@ == default_placeholder(),
    {
        placeholder_or_default(&self.placeholder)
    }

    /// Returns true if this file picker needs directory creation
    pub fn needs_directory_creation(&self) -> (r: bool)
        ensures
            r == self@.needs_directory_creation(),
    {
        self.mode == FileMode::Save && self.missing_directories == MissingDirectories::Create
    }

    /// Returns the parent directory path if it needs to be created: when saving with
    /// `Create`, the value's parent, if it is not empty and not on disk.
    pub fn directory_to_create(&self) -> (r: Option<String>)
        ensures
            r matches Some(d) ==> {
                &&& self@.needs_directory_creation()
                &&& proper_prefix(d@, self@.value)
                &&& d@.len() > 0
            },
            !self@.needs_directory_creation() || self@.value.len() == 0 ==> r is None,
    {
        if !self.needs_directory_creation() || self.value.as_str().is_empty() {
            return None;
        }
        match path_parent(self.value.as_str()) {
            Some(parent) => {
                if !parent.is_empty() && !path_exists(parent) {
                    Some(parent.to_owned())
                } else {
                    None
                }
            },
            None => None,
        }
    }

    /// Validate the current path and return the validation state
    pub fn validate(&self) -> (r: FilePickerValidation)
        ensures
            (self@.value.len() == 0) <==> (r == FilePickerValidation::Empty),
            file_verdict_ok(self@.value, self@.mode, self@.missing_directories, r),
    {
        validate_file_path(self.value.as_str(), &self.mode, &self.missing_directories)
    }

    /// Returns true if the current path is valid for the configured mode
    ///
    /// For Open mode: path must exist and be a file.
    /// For Save mode: path must not be a directory, and either:
    ///   - Parent exists (file will be created or overwritten), or
    ///   - MissingDirectories is Create/Okay (path will be created)
    pub fn is_valid(&self) -> (r: bool)
        ensures
            self@.value.len() == 0 ==> !r,
            exists|v: FilePickerValidation|
                file_verdict_ok(self@.value, self@.mode, self@.missing_directories, v) && r
                    == accepts(v),
    {
        let v = self.validate();
        let r = verdict_accepted(&v);
        assert(file_verdict_ok(self@.value, self@.mode, self@.missing_directories, v) && r == accepts(v));
        r
    }

    /// How the path is shown: the file system is asked whether the full path is a
    /// directory or a file and whether its parent exists, and the display is built from
    /// the answers.
    pub fn compute_path_display(
        &self,
        path_info: &PathInfo,
        theme: &Theme,
        validation_display: &ValidationDisplay,
    ) -> (r: PathDisplayInfo)
        ensures
            exists|
                is_dir: bool,
                file_exists: bool,
                parent: Option<Seq<char>>,
                name: Option<Seq<char>>,
                parent_exists: bool,
            |
                (parent is None ==> !parent_exists) && (parent matches Some(q) ==> proper_prefix(q, path_info@.full)) && (plain_path(
                    path_info@.full,
                ) ==> name == Some(last_part(path_info@.full)) && parent is Some && parent_text(
                    parent.unwrap(),
                    path_info@.full,
                )) && r@
                    == file_path_display(
                    path_info@,
                    is_dir,
                    file_exists,
                    parent,
                    name,
                    parent_exists,
                    self@.mode,
                    self@.missing_directories,
                    *theme,
                    *validation_display,
                ),
    {
        let full = path_info.full_path.as_str();
        let is_dir = path_is_dir(full);
        let file_exists = if is_dir {
            false
        } else {
            path_is_file(full)
        };
        let parent = path_parent(full);
        let name = path_file_name(full);
        let parent_exists = if !is_dir && !file_exists && self.mode == FileMode::Save {
            match parent {
                Some(q) => path_exists(q),
                None => false,
            }
        } else {
            false
        };
        file_path_display_from(
            path_info,
            is_dir,
            file_exists,
            parent,
            name,
            parent_exists,
            &self.mode,
            &self.missing_directories,
            theme,
            validation_display,
        )
    }
}

/// What the picker accepts, as its documentation states it: when opening, an existing file;
/// when saving, anything but a directory whose parent exists or whose missing directories
/// will be created.
pub proof fn law_accepted_paths(
    is_dir: bool,
    is_file: bool,
    parent_present: bool,
    mode: FileMode,
    missing: MissingDirectories,
)
    ensures
        accepts(file_validation(is_dir, is_file, parent_present, mode, missing)) <==> match mode {
            FileMode::Open => !is_dir && is_file,
            FileMode::Save => !is_dir && (is_file || parent_present || missing
                != MissingDirectories::Error),
        },
{
}

} // verus!
