//! Masked display of password content.
//!
//! While a password field is masked it shows one bullet per character of its
//! content. The cursor and the selection are byte offsets into the content;
//! to draw them on the bullets, and to map a click on the bullets back into the
//! content, offsets are mapped between the two texts here.
use vstd::prelude::*;
use crate::utils::text::{
    replace_chars, str_replace_chars,
    byte_len, char_index_at, char_offset, char_width, is_boundary, lemma_char_index_at,
    lemma_offset_bound, lemma_offset_succ, lemma_offset_zero_end, split_at_boundary, str_byte_len,
    utf8_width,
};
use crate::theme::Theme;
use crate::widgets::cursor_blink::{visible_after, CursorBlink};
use crate::widgets::editing_core::{min_nat, ContentStorage, EditModel, EditingCore};
use crate::widgets::sensitive_string::{
    secret_expose, secret_from_string, secret_text, SecretText, SensitiveString,
};

verus! {

/// The character shown for each character of masked content (U+25CF BLACK CIRCLE).
pub open spec fn mask_char() -> char {
    '\u{25CF}'
}

/// Bytes in the UTF-8 encoding of the mask character.
pub const MASK_CHAR_LEN: usize = 3;

/// What the field shows: one mask character per character while masked, the content otherwise.
pub open spec fn display_text(m: EditModel) -> Seq<char> {
    if m.masked {
        Seq::new(m.text.len(), |i: int| mask_char())
    } else {
        m.text
    }
}

/// Whether offsets are remapped at all: only masked, non-empty content differs from its display.
pub open spec fn remaps_offsets(m: EditModel) -> bool {
    m.masked && m.text.len() > 0
}

/// The display offset of the content offset `pos` (a character boundary of the content).
pub open spec fn display_offset(m: EditModel, pos: int) -> int {
    if remaps_offsets(m) {
        MASK_CHAR_LEN * char_index_at(m.text, pos)
    } else {
        pos
    }
}

/// The content offset of the display offset `d`: the start of the character under the
/// bullet that `d` falls in, or the end of the content past the last bullet.
pub open spec fn content_offset(m: EditModel, d: int) -> int {
    if !remaps_offsets(m) {
        d
    } else if d / (MASK_CHAR_LEN as int) < m.text.len() {
        char_offset(m.text, d / (MASK_CHAR_LEN as int)) as int
    } else {
        byte_len(m.text) as int
    }
}

proof fn lemma_mask_width()
    ensures
        utf8_width(mask_char()) == MASK_CHAR_LEN,
{
    assert((mask_char() as u32) == 0x25CF);
}

/// Character `k` of a run of mask characters starts at byte `3 * k`.
proof fn lemma_mask_offsets(n: nat, k: int)
    requires
        0 <= k <= n,
    ensures
        char_offset(Seq::new(n, |i: int| mask_char()), k) == MASK_CHAR_LEN * k,
    decreases k,
{
    let s = Seq::new(n, |i: int| mask_char());
    if k == 0 {
        lemma_offset_zero_end(s);
    } else {
        lemma_mask_offsets(n, k - 1);
        lemma_offset_succ(s, k - 1);
        lemma_mask_width();
    }
}

/// Number of characters in `s`.
pub fn count_chars(s: &str) -> (n: usize)
    ensures
        n == s@.len(),
{
    let n_bytes = str_byte_len(s);
    proof {
        crate::utils::text::lemma_byte_len_ge_len(s@);
    }
    let mut n: usize = 0;
    for c in it: s.chars()
        invariant
            n == it.index(),
            it.seq() == s@,
            s@.len() <= n_bytes,
    {
        n = n + 1;
    }
    n
}

/// The text to draw: the content, or one mask character per character of it while masked.
pub fn display_content<S: ContentStorage>(editor: &EditingCore<S>) -> (r: String)
    ensures
        r@ == display_text(editor@),
{
    let content = editor.content();
    if editor.is_masked() {
        let n = count_chars(content);
        let mut out = String::new();
        let mut i: usize = 0;
        while i < n
            invariant
                i <= n,
                n == editor@.text.len(),
                out@ == Seq::new(i as nat, |j: int| mask_char()),
            decreases n - i,
        {
            proof {
                reveal_strlit("\u{25CF}");
            }
            out.append("\u{25CF}");
            i = i + 1;
            assert(out@ =~= Seq::new(i as nat, |j: int| mask_char()));
        }
        out
    } else {
        content.to_owned()
    }
}

/// Convert a byte index in the content to a byte index in the displayed text.
pub fn content_byte_to_display_byte<S: ContentStorage>(
    editor: &EditingCore<S>,
    content_pos: usize,
) -> (r: usize)
    requires
        remaps_offsets(editor@) ==> is_boundary(editor@.text, content_pos as int),
        remaps_offsets(editor@) ==> MASK_CHAR_LEN * editor@.text.len() <= usize::MAX,
    ensures
        r == display_offset(editor@, content_pos as int),
{
    let content = editor.content();
    if !editor.is_masked() || content.is_empty() {
        return content_pos;
    }
    let (prefix, _rest) = split_at_boundary(content, content_pos);
    let char_count = count_chars(prefix);
    proof {
        lemma_char_index_at(editor@.text, content_pos as int);
    }
    char_count * MASK_CHAR_LEN
}

/// Convert a byte index in the displayed text to a byte index in the content.
pub fn display_byte_to_content_byte<S: ContentStorage>(
    editor: &EditingCore<S>,
    display_pos: usize,
) -> (r: usize)
    ensures
        r == content_offset(editor@, display_pos as int),
{
    let content = editor.content();
    if !editor.is_masked() || content.is_empty() {
        return display_pos;
    }
    let char_index = display_pos / MASK_CHAR_LEN;
    let total = str_byte_len(content);
    let ghost t = content@;
    let mut off: usize = 0;
    let mut i: usize = 0;
    proof {
        lemma_offset_zero_end(t);
    }
    for c in it: content.chars()
        invariant
            it.seq() == t,
            t == editor@.text,
            total == byte_len(t),
            remaps_offsets(editor@),
            char_index == display_pos / MASK_CHAR_LEN,
            i == it.index(),
            i <= char_index,
            off == char_offset(t, i as int),
    {
        if i == char_index {
            return off;
        }
        proof {
            lemma_offset_succ(t, i as int);
            lemma_offset_bound(t, i + 1);
        }
        off = off + char_width(c);
        i = i + 1;
    }
    total
}

// ============================================================================
// The password field
// ============================================================================

/// Events emitted by PasswordInput
#[derive(Clone, Debug)]
pub enum PasswordInputEvent {
    /// Password value changed (the new value, as a secret)
    Change(SecretText),
    /// Enter key was pressed
    Enter,
    /// Input lost focus (including Escape key)
    Blur,
}

/// `s` without its line breaks (`\n` and `\r`).
pub open spec fn without_line_breaks(s: Seq<char>) -> Seq<char> {
    s.filter(|c: char| c != '\n' && c != '\r')
}

/// Removing the line breaks, as a replacement of characters by nothing.
proof fn lemma_line_breaks_replaced(s: Seq<char>)
    ensures
        replace_chars(s, seq!['\n', '\r'], Seq::empty()) == without_line_breaks(s),
    decreases s.len(),
{
    reveal_with_fuel(Seq::filter, 2);
    if s.len() > 0 {
        lemma_line_breaks_replaced(s.drop_last());
        let c = s.last();
        let pats = seq!['\n', '\r'];
        assert(pats.contains(c) <==> (c == '\n' || c == '\r')) by {
            if c == '\n' {
                assert(pats[0] == c);
            }
            if c == '\r' {
                assert(pats[1] == c);
            }
        }
        assert(s.drop_last().push(c) =~= s);
        let f = |x: char| x != '\n' && x != '\r';
        if f(c) {
            assert(replace_chars(s, pats, Seq::empty()) =~= replace_chars(s.drop_last(), pats, Seq::empty()).push(c));
        } else {
            assert(replace_chars(s, pats, Seq::empty()) =~= replace_chars(s.drop_last(), pats, Seq::empty()));
        }
    }
}

/// `s` without its line breaks (`\n` and `\r`).
fn strip_line_breaks(s: &str) -> (r: String)
    ensures
        r@ == without_line_breaks(s@),
{
    proof {
        lemma_line_breaks_replaced(s@);
        reveal_strlit("");
        assert(""@ =~= Seq::<char>::empty());
    }
    let pats = ['\n', '\r'];
    let r = str_replace_chars(s, &pats, "");
    assert(pats@ =~= seq!['\n', '\r']);
    r
}

/// A password field as plain values.
pub struct PasswordModel {
    pub edit: EditModel,
    pub show_password: bool,
    pub placeholder: Option<Seq<char>>,
    pub custom_theme: Option<Theme>,
    pub pending_placeholder: Option<Seq<char>>,
    pub pending_value: Option<Seq<char>>,
    pub was_focused: bool,
    pub is_dragging: bool,
}

impl PasswordModel {
    pub open spec fn with_edit(self, e: EditModel) -> PasswordModel {
        PasswordModel { edit: e, ..self }
    }
}

/// Whether an event announces the value `v`.
pub open spec fn announces_value(e: PasswordInputEvent, v: Seq<char>) -> bool {
    e matches PasswordInputEvent::Change(s) && secret_text(s) == v
}

pub open spec fn opt_text(o: Option<String>) -> Option<Seq<char>> {
    match o {
        Some(s) => Some(s@),
        None => None,
    }
}

/// Password input state: the editor over zeroizing storage, whether the password is
/// shown, and the settings that the first render applies.
pub struct PasswordInput {
    editor: EditingCore<SensitiveString>,
    show_password: bool,
    placeholder: Option<String>,
    custom_theme: Option<Theme>,
    pending_placeholder: Option<String>,
    pending_value: Option<String>,
    was_focused: bool,
    is_dragging: bool,
    blink: CursorBlink,
}

impl View for PasswordInput {
    type V = PasswordModel;

    closed spec fn view(&self) -> PasswordModel {
        PasswordModel {
            edit: self.editor@,
            show_password: self.show_password,
            placeholder: opt_text(self.placeholder),
            custom_theme: self.custom_theme,
            pending_placeholder: opt_text(self.pending_placeholder),
            pending_value: opt_text(self.pending_value),
            was_focused: self.was_focused,
            is_dragging: self.is_dragging,
        }
    }
}

impl PasswordInput {
    /// Create a new password input: empty, masked, nothing pending
    pub fn new() -> (r: Self)
        ensures
            r@ == (PasswordModel {
                edit: EditModel { masked: true, ..EditModel::empty() },
                show_password: false,
                placeholder: None,
                custom_theme: None,
                pending_placeholder: None,
                pending_value: None,
                was_focused: false,
                is_dragging: false,
            }),
    {
        let editor = EditingCore::<SensitiveString>::new().with_masked(true);
        Self {
            editor,
            show_password: false,
            placeholder: None,
            custom_theme: None,
            pending_placeholder: None,
            pending_value: None,
            was_focused: false,
            is_dragging: false,
            blink: CursorBlink::new(),
        }
    }

    /// Set placeholder text shown when empty (builder pattern; applied on first render)
    pub fn placeholder(self, text: &str) -> (r: Self)
        ensures
            r@ == (PasswordModel { pending_placeholder: Some(text@), ..self@ }),
    {
        let mut this = self;
        this.pending_placeholder = Some(text.to_owned());
        this
    }

    /// Set an initial value (builder pattern; applied on first render)
    pub fn with_value(self, value: &str) -> (r: Self)
        ensures
            r@ == (PasswordModel { pending_value: Some(value@), ..self@ }),
    {
        let mut this = self;
        this.pending_value = Some(value.to_owned());
        this
    }

    /// Set a custom theme for this widget (builder pattern)
    pub fn theme(self, theme: Theme) -> (r: Self)
        ensures
            r@ == (PasswordModel { custom_theme: Some(theme), ..self@ }),
    {
        let mut this = self;
        this.custom_theme = Some(theme);
        this
    }

    /// Apply any pending builder values (called on first render)
    pub fn apply_pending(&mut self)
        ensures
            final(self)@ == (PasswordModel {
                placeholder: if old(self)@.pending_placeholder is Some {
                    old(self)@.pending_placeholder
                } else {
                    old(self)@.placeholder
                },
                pending_placeholder: None,
                pending_value: None,
                edit: match old(self)@.pending_value {
                    Some(v) => old(self)@.edit.content_set(v),
                    None => old(self)@.edit,
                },
                ..old(self)@
            }),
    {
        let mut placeholder: Option<String> = None;
        std::mem::swap(&mut placeholder, &mut self.pending_placeholder);
        if let Some(p) = placeholder {
            self.placeholder = Some(p);
        }
        let mut value: Option<String> = None;
        std::mem::swap(&mut value, &mut self.pending_value);
        if let Some(v) = value {
            self.editor.set_content(v.as_str());
        }
    }

    /// The editing state.
    pub fn editor(&self) -> (r: &EditingCore<SensitiveString>)
        ensures
            r@ == self@.edit,
    {
        &self.editor
    }

    /// Get the current password value as a secret
    pub fn value(&self) -> (r: SecretText)
        ensures
            secret_text(r) == self@.edit.text,
    {
        self.create_secret_from_content()
    }

    /// A secret holding the current content
    fn create_secret_from_content(&self) -> (r: SecretText)
        ensures
            secret_text(r) == self@.edit.text,
    {
        secret_from_string(self.editor.content().to_owned())
    }

    /// The announcement of the current value.
    fn emit_change(&self) -> (r: PasswordInputEvent)
        ensures
            announces_value(r, self@.edit.text),
    {
        PasswordInputEvent::Change(self.value())
    }

    /// Set the password value programmatically; the value is announced
    pub fn set_value(&mut self, value: &str) -> (r: PasswordInputEvent)
        ensures
            final(self)@ == old(self)@.with_edit(old(self)@.edit.content_set(value@)),
            announces_value(r, value@),
    {
        self.editor.set_content(value);
        self.emit_change()
    }

    /// Set the password value from a secret; the value is announced
    pub fn set_value_secret(&mut self, secret: &SecretText) -> (r: PasswordInputEvent)
        ensures
            final(self)@ == old(self)@.with_edit(old(self)@.edit.content_set(secret_text(*secret))),
            announces_value(r, secret_text(*secret)),
    {
        self.editor.set_content(secret_expose(secret));
        self.emit_change()
    }

    /// Whether the password is shown in clear.
    pub fn is_showing_password(&self) -> (r: bool)
        ensures
            r == self@.show_password,
    {
        self.show_password
    }

    /// Show a hidden password or hide a shown one; the content is masked exactly while hidden.
    pub fn toggle_visibility(&mut self)
        ensures
            final(self)@ == (PasswordModel {
                show_password: !old(self)@.show_password,
                edit: EditModel { masked: old(self)@.show_password, ..old(self)@.edit },
                ..old(self)@
            }),
    {
        self.show_password = !self.show_password;
        self.editor.set_masked(!self.show_password);
    }

    /// Get the display content (masked or real)
    pub fn display_content(&self) -> (r: String)
        ensures
            r@ == display_text(self@.edit),
    {
        display_content(&self.editor)
    }

    /// Convert a byte index in content to a byte index in display content
    pub fn content_byte_to_display_byte(&self, content_pos: usize) -> (r: usize)
        requires
            remaps_offsets(self@.edit) ==> is_boundary(self@.edit.text, content_pos as int),
            remaps_offsets(self@.edit) ==> MASK_CHAR_LEN * self@.edit.text.len() <= usize::MAX,
        ensures
            r == display_offset(self@.edit, content_pos as int),
    {
        content_byte_to_display_byte(&self.editor, content_pos)
    }

    /// Convert a byte index in display content to a byte index in content
    pub fn display_byte_to_content_byte(&self, display_pos: usize) -> (r: usize)
        ensures
            r == content_offset(self@.edit, display_pos as int),
    {
        display_byte_to_content_byte(&self.editor, display_pos)
    }

    /// Cut: the selection is deleted but never copied, as password content must not reach
    /// the clipboard; a deletion is announced.
    pub fn cut(&mut self) -> (r: Option<PasswordInputEvent>)
        requires
            old(self)@.edit.selection_ok(),
        ensures
            final(self)@ == old(self)@.with_edit(old(self)@.edit.selection_deleted()),
            r is Some <==> old(self)@.edit.has_selected(),
            r matches Some(e) ==> announces_value(e, final(self)@.edit.text),
    {
        if self.editor.delete_selection() {
            self.blink.reset();
            Some(self.emit_change())
        } else {
            None
        }
    }

    /// Paste `text` from the clipboard with its line breaks removed; the value is announced.
    pub fn paste(&mut self, text: &str) -> (r: PasswordInputEvent)
        requires
            old(self)@.edit.insert_ok(without_line_breaks(text@)),
        ensures
            final(self)@ == old(self)@.with_edit(old(self)@.edit.inserted(without_line_breaks(text@))),
            announces_value(r, final(self)@.edit.text),
    {
        let clean_text = strip_line_breaks(text);
        self.editor.insert_text(clean_text.as_str());
        self.blink.reset();
        self.emit_change()
    }

    /// Left arrow: the selection is dropped and the cursor moves a character left
    pub fn handle_move_left(&mut self)
        requires
            old(self)@.edit.left_ok(),
        ensures
            final(self)@ == old(self)@.with_edit(old(self)@.edit.moved_left()),
    {
        self.editor.move_left();
        self.blink.reset();
    }

    /// Right arrow: the selection is dropped and the cursor moves a character right
    pub fn handle_move_right(&mut self)
        requires
            old(self)@.edit.right_ok(),
        ensures
            final(self)@ == old(self)@.with_edit(old(self)@.edit.moved_right()),
    {
        self.editor.move_right();
        self.blink.reset();
    }

    /// Word left (a character while masked)
    pub fn handle_move_word_left(&mut self)
        requires
            old(self)@.edit.left_ok(),
        ensures
            final(self)@ == old(self)@.with_edit(old(self)@.edit.moved_word_left()),
    {
        self.editor.move_word_left();
        self.blink.reset();
    }

    /// Word right (a character while masked)
    pub fn handle_move_word_right(&mut self)
        requires
            old(self)@.edit.right_ok(),
        ensures
            final(self)@ == old(self)@.with_edit(old(self)@.edit.moved_word_right()),
    {
        self.editor.move_word_right();
        self.blink.reset();
    }

    /// Home: the cursor goes to the start and the selection is dropped
    pub fn handle_move_to_start(&mut self)
        ensures
            final(self)@ == old(self)@.with_edit(old(self)@.edit.cleared().with_cursor(0)),
    {
        self.editor.move_to_start();
        self.blink.reset();
    }

    /// End: the cursor goes to the end and the selection is dropped
    pub fn handle_move_to_end(&mut self)
        ensures
            final(self)@ == old(self)@.with_edit(old(self)@.edit.cleared().with_cursor(old(self)@.edit.len())),
    {
        self.editor.move_to_end();
        self.blink.reset();
    }

    /// Shift+Left: the selection grows or shrinks by a character
    pub fn handle_select_left(&mut self)
        requires
            old(self)@.edit.left_ok(),
        ensures
            final(self)@ == old(self)@.with_edit(old(self)@.edit.selected_left()),
    {
        self.editor.select_left();
        self.blink.reset();
    }

    /// Shift+Right: the selection grows or shrinks by a character
    pub fn handle_select_right(&mut self)
        requires
            old(self)@.edit.right_ok(),
        ensures
            final(self)@ == old(self)@.with_edit(old(self)@.edit.selected_right()),
    {
        self.editor.select_right();
        self.blink.reset();
    }

    /// Shift+word left (a character while masked)
    pub fn handle_select_word_left(&mut self)
        requires
            old(self)@.edit.left_ok(),
        ensures
            final(self)@ == old(self)@.with_edit(old(self)@.edit.selected_word_left()),
    {
        self.editor.select_word_left();
        self.blink.reset();
    }

    /// Shift+word right (a character while masked)
    pub fn handle_select_word_right(&mut self)
        requires
            old(self)@.edit.right_ok(),
        ensures
            final(self)@ == old(self)@.with_edit(old(self)@.edit.selected_word_right()),
    {
        self.editor.select_word_right();
        self.blink.reset();
    }

    /// Shift+Home: the selection reaches the start
    pub fn handle_select_to_start(&mut self)
        ensures
            final(self)@ == old(self)@.with_edit(old(self)@.edit.extended_to(0)),
    {
        self.editor.select_to_start();
        self.blink.reset();
    }

    /// Shift+End: the selection reaches the end
    pub fn handle_select_to_end(&mut self)
        ensures
            final(self)@ == old(self)@.with_edit(old(self)@.edit.extended_to(old(self)@.edit.len())),
    {
        self.editor.select_to_end();
        self.blink.reset();
    }

    /// Select all
    pub fn handle_select_all(&mut self)
        ensures
            final(self)@ == old(self)@.with_edit(old(self)@.edit.all_selected()),
    {
        self.editor.select_all();
        self.blink.reset();
    }

    /// Whether the cursor is drawn now: on during the first half of each blink cycle since
    /// it last moved.
    pub fn is_cursor_visible(&self) -> (r: bool)
        ensures
            exists|elapsed_ms: u128| r == visible_after(elapsed_ms),
    {
        self.blink.is_visible()
    }

    /// The field's focus as seen at render: gaining it restarts the blink.
    pub fn focus_changed(&mut self, focused: bool)
        ensures
            final(self)@ == (PasswordModel { was_focused: focused, ..old(self)@ }),
    {
        if focused && !self.was_focused {
            self.blink.reset();
        }
        self.was_focused = focused;
    }

    /// The field lost focus, or Escape was pressed: a drag ends and the loss of focus is
    /// announced.
    pub fn on_blur(&mut self) -> (r: PasswordInputEvent)
        ensures
            final(self)@ == (PasswordModel { is_dragging: false, ..old(self)@ }),
            r is Blur,
    {
        self.stop_drag();
        PasswordInputEvent::Blur
    }

    /// Whether a drag selection is in progress
    pub fn is_dragging(&self) -> (r: bool)
        ensures
            r == self@.is_dragging,
    {
        self.is_dragging
    }

    /// The mouse went down in the field over content offset `pos` (found from the x of the
    /// press). A press that focuses the field while text is selected keeps the selection.
    /// Otherwise, with Shift the selection extends to `pos`; without it the cursor moves to
    /// `pos` and a selection starts there; and a drag begins.
    pub fn mouse_down(&mut self, was_focused: bool, shift: bool, pos: usize)
        ensures
            !was_focused && old(self)@.edit.selection is Some ==> final(self)@ == old(self)@,
            was_focused || old(self)@.edit.selection is None ==> final(self)@ == (PasswordModel {
                edit: if shift {
                    old(self)@.edit.anchored().with_cursor(
                        min_nat(pos as nat, old(self)@.edit.len()),
                    ).reselected()
                } else {
                    old(self)@.edit.cleared().with_cursor(
                        min_nat(pos as nat, old(self)@.edit.len()),
                    ).anchored()
                },
                is_dragging: true,
                ..old(self)@
            }),
    {
        if !was_focused && self.editor.selection().is_some() {
            self.blink.reset();
            return;
        }
        if shift {
            self.editor.start_selection_from_cursor();
            self.editor.extend_selection_to(pos);
        } else {
            self.editor.clear_selection();
            self.editor.set_cursor(pos);
            self.editor.start_selection_from_cursor();
        }
        self.is_dragging = true;
        self.blink.reset();
    }

    /// The mouse moved, during a drag, over content offset `pos`: the selection follows it.
    /// Outside a drag nothing changes.
    pub fn drag_to(&mut self, pos: usize)
        ensures
            !old(self)@.is_dragging ==> final(self)@ == old(self)@,
            old(self)@.is_dragging ==> final(self)@ == old(self)@.with_edit(
                old(self)@.edit.with_cursor(min_nat(pos as nat, old(self)@.edit.len())).reselected(),
            ),
    {
        if !self.is_dragging {
            return;
        }
        self.editor.extend_selection_to(pos);
        self.blink.reset();
    }

    /// The mouse button came up: the drag ends.
    pub fn stop_drag(&mut self)
        ensures
            final(self)@ == (PasswordModel { is_dragging: false, ..old(self)@ }),
    {
        self.is_dragging = false;
    }

    /// A key press carrying the text `key_char`, with the modifiers held: typed text (no
    /// Alt, Control or platform key) is inserted and the value announced; anything else is
    /// left to the key bindings.
    pub fn key_typed(
        &mut self,
        alt: bool,
        control: bool,
        platform: bool,
        key_char: Option<&str>,
    ) -> (r: Option<PasswordInputEvent>)
        requires
            !alt && !control && !platform && key_char is Some ==> old(self)@.edit.insert_ok(
                key_char->0@,
            ),
        ensures
            alt || control || platform || key_char is None ==> final(self)@ == old(self)@
                && r is None,
            !alt && !control && !platform && key_char is Some ==> final(self)@ == old(
                self,
            )@.with_edit(old(self)@.edit.inserted(key_char->0@)) && (r matches Some(e)
                && announces_value(e, final(self)@.edit.text)),
    {
        if alt || control || platform {
            return None;
        }
        match key_char {
            Some(ch) => Some(self.handle_insert_text(ch)),
            None => None,
        }
    }

    /// Backspace; a change is announced.
    pub fn handle_delete_backward(&mut self) -> (r: Option<PasswordInputEvent>)
        requires
            old(self)@.edit.backspace_ok(),
        ensures
            final(self)@ == old(self)@.with_edit(old(self)@.edit.backspaced()),
            r is Some <==> old(self)@.edit.backspace_changes(),
            r matches Some(e) ==> announces_value(e, final(self)@.edit.text),
    {
        self.blink.reset();
        if self.editor.delete_backward() {
            Some(self.emit_change())
        } else {
            None
        }
    }

    /// Delete; a change is announced.
    pub fn handle_delete_forward(&mut self) -> (r: Option<PasswordInputEvent>)
        requires
            old(self)@.edit.forward_delete_ok(),
        ensures
            final(self)@ == old(self)@.with_edit(old(self)@.edit.forward_deleted()),
            r is Some <==> old(self)@.edit.forward_delete_changes(),
            r matches Some(e) ==> announces_value(e, final(self)@.edit.text),
    {
        self.blink.reset();
        if self.editor.delete_forward() {
            Some(self.emit_change())
        } else {
            None
        }
    }

    /// Word backspace (a character while masked); a change is announced.
    pub fn handle_delete_word_backward(&mut self) -> (r: Option<PasswordInputEvent>)
        requires
            old(self)@.edit.backspace_ok(),
        ensures
            final(self)@ == old(self)@.with_edit(old(self)@.edit.word_backspaced()),
            r is Some <==> old(self)@.edit.backspace_changes(),
            r matches Some(e) ==> announces_value(e, final(self)@.edit.text),
    {
        self.blink.reset();
        if self.editor.delete_word_backward() {
            Some(self.emit_change())
        } else {
            None
        }
    }

    /// Word delete (a character while masked); a change is announced.
    pub fn handle_delete_word_forward(&mut self) -> (r: Option<PasswordInputEvent>)
        requires
            old(self)@.edit.forward_delete_ok(),
        ensures
            final(self)@ == old(self)@.with_edit(old(self)@.edit.word_forward_deleted()),
            r is Some <==> old(self)@.edit.forward_delete_changes(),
            r matches Some(e) ==> announces_value(e, final(self)@.edit.text),
    {
        self.blink.reset();
        if self.editor.delete_word_forward() {
            Some(self.emit_change())
        } else {
            None
        }
    }

    /// Typed text replaces the selection; the value is announced.
    pub fn handle_insert_text(&mut self, text: &str) -> (r: PasswordInputEvent)
        requires
            old(self)@.edit.insert_ok(text@),
        ensures
            final(self)@ == old(self)@.with_edit(old(self)@.edit.inserted(text@)),
            announces_value(r, final(self)@.edit.text),
    {
        self.editor.insert_text(text);
        self.blink.reset();
        self.emit_change()
    }
}

// ============================================================================
// Laws
// ============================================================================

/// Mapping a content offset to the display and back gives the offset again: a cursor
/// drawn on the bullets maps back to where it is in the content.
pub proof fn law_display_round_trip(m: EditModel, pos: int)
    requires
        is_boundary(m.text, pos),
    ensures
        content_offset(m, display_offset(m, pos)) == pos,
{
    if remaps_offsets(m) {
        lemma_char_index_at(m.text, pos);
        let k = char_index_at(m.text, pos);
        assert((MASK_CHAR_LEN * k) / (MASK_CHAR_LEN as int) == k) by (nonlinear_arith)
            requires
                k >= 0,
        ;
        lemma_offset_zero_end(m.text);
    }
}

/// While masked, the displayed text has three bytes per content character, and the display
/// offset of a content boundary falls between two bullets, never inside one.
pub proof fn law_display_offsets_on_bullets(m: EditModel, pos: int)
    requires
        m.masked,
        is_boundary(m.text, pos),
    ensures
        byte_len(display_text(m)) == MASK_CHAR_LEN * m.text.len(),
        is_boundary(display_text(m), display_offset(m, pos)),
{
    let n = m.text.len();
    let d = display_text(m);
    lemma_mask_offsets(n, n as int);
    lemma_offset_zero_end(d);
    lemma_char_index_at(m.text, pos);
    if remaps_offsets(m) {
        let k = char_index_at(m.text, pos);
        lemma_mask_offsets(n, k);
        assert(char_offset(d, k) == display_offset(m, pos));
    } else {
        lemma_offset_zero_end(m.text);
        assert(char_offset(d, 0) == display_offset(m, pos));
    }
}

/// Any display offset maps to a character boundary of the content, and mapping that back
/// gives the start of the bullet the offset fell in (or the end of the display past the
/// last bullet).
pub proof fn law_content_offset_snaps(m: EditModel, d: int)
    requires
        remaps_offsets(m),
        0 <= d,
    ensures
        is_boundary(m.text, content_offset(m, d)),
        display_offset(m, content_offset(m, d)) == MASK_CHAR_LEN * (if d / (MASK_CHAR_LEN as int)
            < m.text.len() {
            d / (MASK_CHAR_LEN as int)
        } else {
            m.text.len() as int
        }),
{
    let n = m.text.len() as int;
    let k = if d / (MASK_CHAR_LEN as int) < n {
        d / (MASK_CHAR_LEN as int)
    } else {
        n
    };
    lemma_offset_zero_end(m.text);
    assert(char_offset(m.text, k) == content_offset(m, d));
    lemma_char_index_at(m.text, content_offset(m, d));
    crate::utils::text::lemma_offset_injective(m.text, k, char_index_at(m.text, content_offset(m, d)));
}

} // verus!
