//! Confirmation dialog: its configuration and the rules by which it answers input
//!
//! A modal dialog for confirming user actions or displaying information.
//! Supports different styles and configurable buttons.
//!
//! # Dialog Styles
//!
//! - **Info**: Single primary button. Click-outside, Escape, or Enter dismisses.
//! - **Default**: Primary and secondary buttons. Click-outside or Escape triggers secondary. Enter triggers primary.
//! - **Warning**: Same as Default but with orange title for emphasis.
//! - **Danger**: Red primary button. Click-outside does nothing. Escape triggers secondary.
//!   Enter does NOT trigger primary (must click explicitly).
//!
//! # Button Configuration
//!
//! - **Primary**: Always shown (colored based on style)
//! - **Secondary**: Optional second button (gray). Use `secondary_label()` to enable.
//! - **Tertiary**: Optional third button (gray). Use `tertiary_label()` to enable.
//!
//! # Key Mappings
//!
//! Use `map_key()` to bind keys to buttons. For example, map "y" to Primary and "n" to Secondary.
//! Keys are matched case-insensitively.
use vstd::prelude::*;
use crate::theme::Theme;
use crate::utils::text::{lowercase, str_equal, to_lowercase};

verus! {

/// Dialog style/severity (controls primary button color)
#[derive(Clone, Copy, Debug, PartialEq, Eq, Structural)]
pub enum DialogStyle {
    /// Informational dialog (blue primary button, easy to dismiss)
    Info,
    /// Normal confirmation dialog (blue primary button)
    Default,
    /// Warning dialog (orange title, blue primary button)
    Warning,
    /// Danger dialog (red primary button, harder to confirm)
    Danger,
}

impl Default for DialogStyle {
    fn default() -> (r: Self)
        ensures
            r == DialogStyle::Default,
    {
        DialogStyle::Default
    }
}

/// Which button a key or action should trigger
#[derive(Clone, Copy, Debug, PartialEq, Eq, Structural)]
pub enum DialogButton {
    /// Primary button (colored based on style)
    Primary,
    /// Secondary button (gray)
    Secondary,
    /// Tertiary button (gray)
    Tertiary,
}

/// Events emitted by ConfirmationDialog
#[derive(Clone, Copy, Debug, PartialEq, Eq, Structural)]
pub enum ConfirmationDialogEvent {
    /// Primary button clicked (OK, Yes, Save, Delete, etc.)
    Primary,
    /// Secondary button clicked (Cancel, No, etc.)
    Secondary,
    /// Tertiary button clicked (Don't Save, etc.)
    Tertiary,
}

/// What the dialog does with a key press.
#[derive(Clone, Copy, Debug, PartialEq, Eq, Structural)]
pub enum DialogKeyAction {
    /// Act as if the button had been clicked.
    Press(DialogButton),
    /// Move focus to the next focusable element.
    FocusNext,
    /// Move focus to the previous focusable element.
    FocusPrev,
    /// Nothing happens.
    Ignore,
}

/// The event a button emits.
pub open spec fn button_event(button: DialogButton) -> ConfirmationDialogEvent {
    match button {
        DialogButton::Primary => ConfirmationDialogEvent::Primary,
        DialogButton::Secondary => ConfirmationDialogEvent::Secondary,
        DialogButton::Tertiary => ConfirmationDialogEvent::Tertiary,
    }
}

/// The button bound to `key` by the first entry that names it.
pub open spec fn first_binding(entries: Seq<(Seq<char>, DialogButton)>, key: Seq<char>) -> Option<
    DialogButton,
>
    decreases entries.len(),
{
    if entries.len() == 0 {
        None
    } else if entries[0].0 == key {
        Some(entries[0].1)
    } else {
        first_binding(entries.drop_first(), key)
    }
}

/// Key bindings as a map from (lowercased) key names to buttons.
pub open spec fn bindings_map(entries: Seq<(Seq<char>, DialogButton)>) -> Map<Seq<char>, DialogButton> {
    Map::new(
        |k: Seq<char>| first_binding(entries, k) is Some,
        |k: Seq<char>| first_binding(entries, k).unwrap(),
    )
}

/// The dialog's configuration as plain values.
pub struct DialogModel {
    pub title: Seq<char>,
    pub message: Seq<char>,
    pub style: DialogStyle,
    pub primary_label: Seq<char>,
    pub secondary_label: Option<Seq<char>>,
    pub tertiary_label: Option<Seq<char>>,
    pub key_mappings: Map<Seq<char>, DialogButton>,
    pub custom_theme: Option<Theme>,
}

impl DialogModel {
    pub open spec fn has_secondary(self) -> bool {
        self.secondary_label is Some
    }

    pub open spec fn has_tertiary(self) -> bool {
        self.tertiary_label is Some
    }

    /// Whether the dialog shows `button`: the primary always, the others once labelled.
    pub open spec fn shows(self, button: DialogButton) -> bool {
        match button {
            DialogButton::Primary => true,
            DialogButton::Secondary => self.has_secondary(),
            DialogButton::Tertiary => self.has_tertiary(),
        }
    }

    /// The action for a key press whose key name is `key` (with shift held or not).
    /// A bound key presses its button when the dialog shows that button; otherwise
    /// Escape presses the secondary button (the primary when there is none), Enter
    /// presses the primary unless the style is `Danger`, and Tab moves focus.
    pub open spec fn key_action(self, key: Seq<char>, shift: bool) -> DialogKeyAction {
        let k = lowercase(key);
        if self.key_mappings.contains_key(k) && self.shows(self.key_mappings[k]) {
            DialogKeyAction::Press(self.key_mappings[k])
        } else if k == seq!['e', 's', 'c', 'a', 'p', 'e'] {
            if self.has_secondary() {
                DialogKeyAction::Press(DialogButton::Secondary)
            } else {
                DialogKeyAction::Press(DialogButton::Primary)
            }
        } else if k == seq!['e', 'n', 't', 'e', 'r'] {
            if self.style != DialogStyle::Danger {
                DialogKeyAction::Press(DialogButton::Primary)
            } else {
                DialogKeyAction::Ignore
            }
        } else if k == seq!['t', 'a', 'b'] {
            if shift {
                DialogKeyAction::FocusPrev
            } else {
                DialogKeyAction::FocusNext
            }
        } else {
            DialogKeyAction::Ignore
        }
    }

    /// The button a click outside the dialog presses: the primary for `Info`, the
    /// secondary for `Default` and `Warning` when shown, nothing for `Danger`.
    pub open spec fn click_outside(self) -> Option<DialogButton> {
        if self.style == DialogStyle::Info {
            Some(DialogButton::Primary)
        } else if self.style != DialogStyle::Danger && self.has_secondary() {
            Some(DialogButton::Secondary)
        } else {
            None
        }
    }

    /// The title's colour for the style.
    pub open spec fn title_color(self, theme: Theme) -> u32 {
        match self.style {
            DialogStyle::Info => theme.primary,
            DialogStyle::Default => theme.text_primary,
            DialogStyle::Warning => theme.warning,
            DialogStyle::Danger => theme.error,
        }
    }
}

/// Confirmation dialog: its texts, style, buttons and key bindings.
pub struct ConfirmationDialog {
    title: String,
    message: String,
    style: DialogStyle,
    primary_label: String,
    secondary_label: Option<String>,
    tertiary_label: Option<String>,
    key_mappings: Vec<(String, DialogButton)>,
    custom_theme: Option<Theme>,
}

pub open spec fn opt_text(o: Option<String>) -> Option<Seq<char>> {
    match o {
        Some(s) => Some(s@),
        None => None,
    }
}

pub open spec fn entries_view(v: Seq<(String, DialogButton)>) -> Seq<(Seq<char>, DialogButton)> {
    v.map_values(|e: (String, DialogButton)| (e.0@, e.1))
}

impl View for ConfirmationDialog {
    type V = DialogModel;

    closed spec fn view(&self) -> DialogModel {
        DialogModel {
            title: self.title@,
            message: self.message@,
            style: self.style,
            primary_label: self.primary_label@,
            secondary_label: opt_text(self.secondary_label),
            tertiary_label: opt_text(self.tertiary_label),
            key_mappings: bindings_map(entries_view(self.key_mappings@)),
            custom_theme: self.custom_theme,
        }
    }
}

/// A new string holding `s`.
fn owned(s: &str) -> (r: String)
    ensures
        r@ == s@,
{
    s.to_owned()
}

impl ConfirmationDialog {
    /// Create a new confirmation dialog
    pub fn new(title: &str, message: &str) -> (r: Self)
        ensures
            r@ == (DialogModel {
                title: title@,
                message: message@,
                style: DialogStyle::Default,
                primary_label: seq!['O', 'K'],
                secondary_label: None,
                tertiary_label: None,
                key_mappings: Map::empty(),
                custom_theme: None,
            }),
    {
        proof {
            reveal_strlit("OK");
        }
        let r = Self {
            title: owned(title),
            message: owned(message),
            style: DialogStyle::Default,
            primary_label: owned("OK"),
            secondary_label: None,
            tertiary_label: None,
            key_mappings: Vec::new(),
            custom_theme: None,
        };
        proof {
            assert(entries_view(r.key_mappings@) =~= Seq::empty());
            assert(bindings_map(entries_view(r.key_mappings@)) =~= Map::empty());
            assert(r.primary_label@ =~= seq!['O', 'K']);
        }
        r
    }

    /// Set primary button label (builder pattern)
    pub fn primary_label(self, label: &str) -> (r: Self)
        ensures
            r@ == (DialogModel { primary_label: label@, ..self@ }),
    {
        let mut this = self;
        this.primary_label = owned(label);
        this
    }

    /// Set secondary button label (builder pattern)
    /// Setting this enables the secondary button.
    pub fn secondary_label(self, label: &str) -> (r: Self)
        ensures
            r@ == (DialogModel { secondary_label: Some(label@), ..self@ }),
    {
        let mut this = self;
        this.secondary_label = Some(owned(label));
        this
    }

    /// Set tertiary button label (builder pattern)
    /// Setting this enables the tertiary button.
    pub fn tertiary_label(self, label: &str) -> (r: Self)
        ensures
            r@ == (DialogModel { tertiary_label: Some(label@), ..self@ }),
    {
        let mut this = self;
        this.tertiary_label = Some(owned(label));
        this
    }

    /// Map a key to a button (builder pattern)
    /// Keys are case-insensitive (both "y" and "Y" will match).
    pub fn map_key(self, key: &str, button: DialogButton) -> (r: Self)
        ensures
            r@ == (DialogModel {
                key_mappings: self@.key_mappings.insert(lowercase(key@), button),
                ..self@
            }),
    {
        let mut this = self;
        let key_lower = to_lowercase(key);
        let ghost k = key_lower@;
        assert(k == lowercase(key@));
        let ghost old_entries = entries_view(this.key_mappings@);
        let n = this.key_mappings.len();
        let i = binding_index(&this.key_mappings, key_lower.as_str());
        proof {
            lemma_first_binding_skips(old_entries, k, i as int);
        }
        if i < n {
            this.key_mappings.set(i, (key_lower, button));
            proof {
                let new_entries = entries_view(this.key_mappings@);
                assert(new_entries =~= old_entries.update(i as int, (k, button)));
                lemma_first_binding_update(old_entries, k, button, i as int);
            }
        } else {
            this.key_mappings.push((key_lower, button));
            proof {
                let new_entries = entries_view(this.key_mappings@);
                assert(new_entries =~= old_entries.push((k, button)));
                lemma_first_binding_push(old_entries, k, button);
            }
        }
        proof {
            assert(bindings_map(entries_view(this.key_mappings@)) =~= bindings_map(
                old_entries,
            ).insert(k, button));
        }
        this
    }

    /// Set dialog style (builder pattern)
    pub fn style(self, style: DialogStyle) -> (r: Self)
        ensures
            r@ == (DialogModel { style, ..self@ }),
    {
        let mut this = self;
        this.style = style;
        this
    }

    /// Set custom theme (builder pattern)
    pub fn theme(self, theme: Theme) -> (r: Self)
        ensures
            r@ == (DialogModel { custom_theme: Some(theme), ..self@ }),
    {
        let mut this = self;
        this.custom_theme = Some(theme);
        this
    }

    /// The event a click on `button` emits.
    pub fn emit_button(&self, button: DialogButton) -> (r: ConfirmationDialogEvent)
        ensures
            r == button_event(button),
    {
        match button {
            DialogButton::Primary => ConfirmationDialogEvent::Primary,
            DialogButton::Secondary => ConfirmationDialogEvent::Secondary,
            DialogButton::Tertiary => ConfirmationDialogEvent::Tertiary,
        }
    }

    /// The button bound to the (already lowercased) key name `key`, if any.
    fn binding(&self, key: &str) -> (r: Option<DialogButton>)
        ensures
            r == first_binding(entries_view(self.key_mappings@), key@),
    {
        let i = binding_index(&self.key_mappings, key);
        proof {
            lemma_first_binding_skips(entries_view(self.key_mappings@), key@, i as int);
        }
        if i < self.key_mappings.len() {
            Some(self.key_mappings[i].1)
        } else {
            None
        }
    }

    /// What a key press does: `key` is the pressed key's name and `shift` whether
    /// Shift was held.
    pub fn key_action(&self, key: &str, shift: bool) -> (r: DialogKeyAction)
        ensures
            r == self@.key_action(key@, shift),
    {
        let k = to_lowercase(key);
        let has_secondary = self.secondary_label.is_some();
        let has_tertiary = self.tertiary_label.is_some();
        proof {
            reveal_strlit("escape");
            reveal_strlit("enter");
            reveal_strlit("tab");
            assert("escape"@ =~= seq!['e', 's', 'c', 'a', 'p', 'e']);
            assert("enter"@ =~= seq!['e', 'n', 't', 'e', 'r']);
            assert("tab"@ =~= seq!['t', 'a', 'b']);
        }
        if let Some(button) = self.binding(k.as_str()) {
            let can_trigger = match button {
                DialogButton::Primary => true,
                DialogButton::Secondary => has_secondary,
                DialogButton::Tertiary => has_tertiary,
            };
            if can_trigger {
                return DialogKeyAction::Press(button);
            }
        }
        if str_equal(k.as_str(), "escape") {
            if has_secondary {
                DialogKeyAction::Press(DialogButton::Secondary)
            } else {
                DialogKeyAction::Press(DialogButton::Primary)
            }
        } else if str_equal(k.as_str(), "enter") {
            if self.style != DialogStyle::Danger {
                DialogKeyAction::Press(DialogButton::Primary)
            } else {
                DialogKeyAction::Ignore
            }
        } else if str_equal(k.as_str(), "tab") {
            if shift {
                DialogKeyAction::FocusPrev
            } else {
                DialogKeyAction::FocusNext
            }
        } else {
            DialogKeyAction::Ignore
        }
    }

    /// The button a click outside the dialog presses, if any.
    pub fn click_outside(&self) -> (r: Option<DialogButton>)
        ensures
            r == self@.click_outside(),
    {
        if self.style == DialogStyle::Info {
            Some(DialogButton::Primary)
        } else if self.style != DialogStyle::Danger && self.secondary_label.is_some() {
            Some(DialogButton::Secondary)
        } else {
            None
        }
    }

    /// The title colour the style calls for in `theme`.
    pub fn title_color(&self, theme: &Theme) -> (r: u32)
        ensures
            r == self@.title_color(*theme),
    {
        match self.style {
            DialogStyle::Info => theme.primary,
            DialogStyle::Default => theme.text_primary,
            DialogStyle::Warning => theme.warning,
            DialogStyle::Danger => theme.error,
        }
    }

    /// The dialog's title.
    pub fn title(&self) -> (r: &str)
        ensures
            r@ == self@.title,
    {
        self.title.as_str()
    }

    /// The dialog's message.
    pub fn message(&self) -> (r: &str)
        ensures
            r@ == self@.message,
    {
        self.message.as_str()
    }

    /// The dialog's style.
    pub fn dialog_style(&self) -> (r: DialogStyle)
        ensures
            r == self@.style,
    {
        self.style
    }

    /// The primary button's label.
    pub fn primary_text(&self) -> (r: &str)
        ensures
            r@ == self@.primary_label,
    {
        self.primary_label.as_str()
    }

    /// The secondary button's label, when it is shown.
    pub fn secondary_text(&self) -> (r: Option<&str>)
        ensures
            r matches Some(s) ==> self@.secondary_label == Some(s@),
            r is None ==> self@.secondary_label is None,
    {
        match &self.secondary_label {
            Some(s) => Some(s.as_str()),
            None => None,
        }
    }

    /// The tertiary button's label, when it is shown.
    pub fn tertiary_text(&self) -> (r: Option<&str>)
        ensures
            r matches Some(s) ==> self@.tertiary_label == Some(s@),
            r is None ==> self@.tertiary_label is None,
    {
        match &self.tertiary_label {
            Some(s) => Some(s.as_str()),
            None => None,
        }
    }

    /// The theme set for this dialog, if any.
    pub fn custom_theme(&self) -> (r: Option<Theme>)
        ensures
            r == self@.custom_theme,
    {
        self.custom_theme
    }
}

/// The index of the first entry that names `key`, or the number of entries when none does.
fn binding_index(entries: &Vec<(String, DialogButton)>, key: &str) -> (r: usize)
    ensures
        r <= entries.len(),
        forall|j: int| 0 <= j < r ==> entries_view(entries@)[j].0 != key@,
        r < entries.len() ==> entries_view(entries@)[r as int].0 == key@,
{
    let n = entries.len();
    let mut i: usize = 0;
    while i < n
        invariant
            n == entries.len(),
            i <= n,
            forall|j: int| 0 <= j < i ==> entries_view(entries@)[j].0 != key@,
        decreases n - i,
    {
        if str_equal(entries[i].0.as_str(), key) {
            return i;
        }
        i = i + 1;
    }
    i
}

// ============================================================================
// Lemmas on key bindings
// ============================================================================

/// When none of the first `i` entries names `key`, the first binding lies in the rest.
proof fn lemma_first_binding_skips(entries: Seq<(Seq<char>, DialogButton)>, key: Seq<char>, i: int)
    requires
        0 <= i <= entries.len(),
        forall|j: int| 0 <= j < i ==> entries[j].0 != key,
    ensures
        first_binding(entries, key) == first_binding(entries.skip(i), key),
        i < entries.len() && entries[i].0 == key ==> first_binding(entries, key) == Some(
            entries[i].1,
        ),
        i == entries.len() ==> first_binding(entries, key) is None,
    decreases i,
{
    if i > 0 {
        lemma_first_binding_skips(entries.drop_first(), key, i - 1);
        assert(entries.drop_first().skip(i - 1) =~= entries.skip(i));
    } else {
        assert(entries.skip(0) =~= entries);
    }
    if i == entries.len() {
        assert(entries.skip(i).len() == 0);
    }
}

/// Rebinding the first entry that names `key` changes the binding of `key` alone.
proof fn lemma_first_binding_update(
    entries: Seq<(Seq<char>, DialogButton)>,
    key: Seq<char>,
    button: DialogButton,
    i: int,
)
    requires
        0 <= i < entries.len(),
        entries[i].0 == key,
        forall|j: int| 0 <= j < i ==> entries[j].0 != key,
    ensures
        forall|k: Seq<char>|
            #[trigger] first_binding(entries.update(i, (key, button)), k) == if k == key {
                Some(button)
            } else {
                first_binding(entries, k)
            },
    decreases i,
{
    let u = entries.update(i, (key, button));
    if i == 0 {
        assert(u.drop_first() =~= entries.drop_first());
    } else {
        lemma_first_binding_update(entries.drop_first(), key, button, i - 1);
        assert(u.drop_first() =~= entries.drop_first().update(i - 1, (key, button)));
    }
    assert forall|k: Seq<char>|
        #[trigger] first_binding(u, k) == if k == key {
            Some(button)
        } else {
            first_binding(entries, k)
        } by {
        if i > 0 {
            assert(first_binding(u.drop_first(), k) == first_binding(
                entries.drop_first().update(i - 1, (key, button)),
                k,
            ));
        }
    }
}

/// Adding a binding for a key that has none binds it and leaves the others.
proof fn lemma_first_binding_push(
    entries: Seq<(Seq<char>, DialogButton)>,
    key: Seq<char>,
    button: DialogButton,
)
    requires
        first_binding(entries, key) is None,
    ensures
        forall|k: Seq<char>|
            #[trigger] first_binding(entries.push((key, button)), k) == if k == key {
                Some(button)
            } else {
                first_binding(entries, k)
            },
    decreases entries.len(),
{
    let p = entries.push((key, button));
    if entries.len() == 0 {
        assert(p.drop_first() =~= Seq::<(Seq<char>, DialogButton)>::empty());
    } else {
        lemma_first_binding_push(entries.drop_first(), key, button);
        assert(p.drop_first() =~= entries.drop_first().push((key, button)));
    }
    assert forall|k: Seq<char>|
        #[trigger] first_binding(p, k) == if k == key {
            Some(button)
        } else {
            first_binding(entries, k)
        } by {
        if entries.len() > 0 {
            assert(first_binding(p.drop_first(), k) == first_binding(
                entries.drop_first().push((key, button)),
                k,
            ));
        } else {
            assert(first_binding(p.drop_first(), k) is None);
        }
    }
}

// ============================================================================
// Laws
// ============================================================================

/// Keys are matched case-insensitively: once `key` is mapped to a button that the dialog
/// shows, every key whose lowercase is that of `key` presses that button.
pub proof fn law_mapped_key_presses(
    m: DialogModel,
    key: Seq<char>,
    button: DialogButton,
    pressed: Seq<char>,
    shift: bool,
)
    requires
        m.shows(button),
        lowercase(pressed) == lowercase(key),
    ensures
        (DialogModel { key_mappings: m.key_mappings.insert(lowercase(key), button), ..m }).key_action(
            pressed,
            shift,
        ) == DialogKeyAction::Press(button),
{
}

/// A binding to a button the dialog does not show is passed over: the key acts as if unbound.
pub proof fn law_hidden_button_binding_ignored(m: DialogModel, pressed: Seq<char>, shift: bool)
    requires
        m.key_mappings.contains_key(lowercase(pressed)),
        !m.shows(m.key_mappings[lowercase(pressed)]),
    ensures
        m.key_action(pressed, shift) == (DialogModel {
            key_mappings: m.key_mappings.remove(lowercase(pressed)),
            ..m
        }).key_action(pressed, shift),
{
}

/// `Danger` dialogs are hard to confirm: a click outside does nothing, and an unbound
/// Enter does nothing.
pub proof fn law_danger_needs_a_click(m: DialogModel, pressed: Seq<char>, shift: bool)
    requires
        m.style == DialogStyle::Danger,
        lowercase(pressed) == seq!['e', 'n', 't', 'e', 'r'],
        !m.key_mappings.contains_key(lowercase(pressed)),
    ensures
        m.click_outside() is None,
        m.key_action(pressed, shift) == DialogKeyAction::Ignore,
{
}

/// `Info` dialogs are easy to dismiss: a click outside and an unbound Enter press the
/// primary button, and so does an unbound Escape when there is no secondary button.
pub proof fn law_info_dismisses(m: DialogModel, enter: Seq<char>, escape: Seq<char>, shift: bool)
    requires
        m.style == DialogStyle::Info,
        lowercase(enter) == seq!['e', 'n', 't', 'e', 'r'],
        lowercase(escape) == seq!['e', 's', 'c', 'a', 'p', 'e'],
        !m.key_mappings.contains_key(lowercase(enter)),
        !m.key_mappings.contains_key(lowercase(escape)),
    ensures
        m.click_outside() == Some(DialogButton::Primary),
        m.key_action(enter, shift) == DialogKeyAction::Press(DialogButton::Primary),
        !m.has_secondary() ==> m.key_action(escape, shift) == DialogKeyAction::Press(
            DialogButton::Primary,
        ),
{
    assert(seq!['e', 'n', 't', 'e', 'r'] != seq!['e', 's', 'c', 'a', 'p', 'e']);
}

/// With a secondary button, an unbound Escape presses it whatever the style; for
/// `Default` and `Warning` a click outside presses it too.
pub proof fn law_escape_cancels(m: DialogModel, escape: Seq<char>, shift: bool)
    requires
        m.has_secondary(),
        lowercase(escape) == seq!['e', 's', 'c', 'a', 'p', 'e'],
        !m.key_mappings.contains_key(lowercase(escape)),
    ensures
        m.key_action(escape, shift) == DialogKeyAction::Press(DialogButton::Secondary),
        m.style == DialogStyle::Default || m.style == DialogStyle::Warning ==> m.click_outside()
            == Some(DialogButton::Secondary),
{
}

/// An unbound Enter confirms: it presses the primary button in every style but `Danger`
/// (`Default`, `Warning` and `Info` alike), and does nothing in a `Danger` dialog.
pub proof fn law_enter_confirms_unless_danger(m: DialogModel, enter: Seq<char>, shift: bool)
    requires
        lowercase(enter) == seq!['e', 'n', 't', 'e', 'r'],
        !m.key_mappings.contains_key(lowercase(enter)),
    ensures
        m.style != DialogStyle::Danger ==> m.key_action(enter, shift) == DialogKeyAction::Press(
            DialogButton::Primary,
        ),
        m.style == DialogStyle::Danger ==> m.key_action(enter, shift) == DialogKeyAction::Ignore,
        m.style == DialogStyle::Warning || m.style == DialogStyle::Default ==> m.key_action(
            enter,
            shift,
        ) == DialogKeyAction::Press(DialogButton::Primary),
{
    assert(seq!['e', 'n', 't', 'e', 'r'] != seq!['e', 's', 'c', 'a', 'p', 'e']);
}

} // verus!
