//! Core editing logic for text input widgets
//!
//! This module provides `EditingCore<S>`, a generic editing engine that handles
//! cursor movement, selection, and text manipulation. The storage type `S` must
//! implement `ContentStorage`, allowing different backing stores (e.g., `String`
//! for regular text, or a zeroizing type for sensitive data).
//!
//! Positions (cursor, selection ends, anchor) are byte offsets into the UTF-8
//! encoding of the content; the content itself is modelled as a sequence of
//! characters (see `crate::utils::text`).
use std::ops::Range;
use vstd::prelude::*;
use vstd::utf8::*;
use crate::utils::text::{
    byte_len, char_index_at, char_offset, char_width, is_boundary, lemma_byte_len_concat,
    lemma_byte_len_ge_len, lemma_char_index_at, lemma_is_char_boundary_iff, lemma_no_boundary_between,
    lemma_offset_bound, lemma_offset_strict, lemma_offset_succ, lemma_offset_zero_end,
    split_at_boundary, str_byte_len, str_equal,
};

verus! {

/// Trait for content storage backends
///
/// This trait abstracts over the string storage, allowing different implementations
/// for regular text (`String`) and sensitive data (`SensitiveString`).
pub trait ContentStorage: Sized + Default {
    /// The characters currently stored.
    spec fn text(&self) -> Seq<char>;

    /// A default-constructed storage holds no text.
    proof fn lemma_default_is_empty(s: Self)
        requires
            call_ensures(Self::default, (), s),
        ensures
            s.text().len() == 0,
    ;

    /// Get the content as a string slice
    fn as_str(&self) -> (r: &str)
        ensures
            r@ == self.text(),
    ;

    /// Get the length in bytes
    fn len(&self) -> (r: usize)
        ensures
            r == byte_len(self.text()),
    {
        str_byte_len(self.as_str())
    }

    /// Check if empty
    fn is_empty(&self) -> (r: bool)
        ensures
            r == (self.text().len() == 0),
    {
        self.as_str().is_empty()
    }

    /// Set the content from a string slice
    fn set(&mut self, value: &str)
        ensures
            final(self).text() == value@,
    ;

    /// Insert a string at the given byte position
    fn insert_str(&mut self, pos: usize, text: &str)
        requires
            is_boundary(old(self).text(), pos as int),
            byte_len(old(self).text()) + byte_len(text@) <= isize::MAX,
        ensures
            final(self).text() == splice(old(self).text(), pos as int, pos as int, text@),
    ;

    /// Remove a range of bytes
    fn remove_range(&mut self, range: Range<usize>)
        requires
            range.start <= range.end,
            is_boundary(old(self).text(), range.start as int),
            is_boundary(old(self).text(), range.end as int),
        ensures
            final(self).text() == splice(
                old(self).text(),
                range.start as int,
                range.end as int,
                Seq::empty(),
            ),
    ;

    /// Replace a range with new text
    fn replace_range(&mut self, range: Range<usize>, replacement: &str)
        requires
            range.start <= range.end,
            is_boundary(old(self).text(), range.start as int),
            is_boundary(old(self).text(), range.end as int),
            fits_after_replace(old(self).text(), range.start as int, range.end as int, replacement@),
        ensures
            final(self).text() == splice(
                old(self).text(),
                range.start as int,
                range.end as int,
                replacement@,
            ),
    ;

    /// Get a substring
    fn get(&self, range: Range<usize>) -> (r: Option<&str>)
        ensures
            r is Some <==> substring_exists(self.text(), range.start as int, range.end as int),
            r matches Some(sub) ==> sub@ == substring(
                self.text(),
                range.start as int,
                range.end as int,
            ),
    {
        str_get(self.as_str(), range)
    }

    /// Count characters
    fn chars_count(&self) -> (r: usize)
        ensures
            r == self.text().len(),
    {
        let s = self.as_str();
        let n_bytes = str_byte_len(s);
        proof {
            lemma_byte_len_ge_len(s@);
        }
        let mut n: usize = 0;
        for c in it: s.chars()
            invariant
                n == it.index(),
                it.seq() == s@,
                s@.len() <= n_bytes,
        {
            n = n + 1;
        }
        n
    }
}

/// The characters of `t` between the byte offsets `start` and `end`, with `ins` put in their place.
pub open spec fn splice(t: Seq<char>, start: int, end: int, ins: Seq<char>) -> Seq<char> {
    t.take(char_index_at(t, start)) + ins + t.skip(char_index_at(t, end))
}

/// Replacing the bytes `start..end` of `t` by `ins` either does not grow the text or
/// leaves it within `isize::MAX` bytes (the most a `String` can hold).
pub open spec fn fits_after_replace(t: Seq<char>, start: int, end: int, ins: Seq<char>) -> bool {
    byte_len(ins) <= end - start || byte_len(t) + byte_len(ins) - (end - start) <= isize::MAX
}

/// Whether the bytes `start..end` of the encoding of `t` form a whole run of characters.
pub open spec fn substring_exists(t: Seq<char>, start: int, end: int) -> bool {
    start <= end && is_boundary(t, start) && is_boundary(t, end)
}

/// The characters between the byte offsets `start` and `end`.
pub open spec fn substring(t: Seq<char>, start: int, end: int) -> Seq<char> {
    t.subrange(char_index_at(t, start), char_index_at(t, end))
}

// ============================================================================
// Word classification
// ============================================================================

/// Whether `char::is_alphanumeric` holds of a non-ASCII `c` (the Unicode `Alphabetic`
/// or `Numeric` property, given by tables).
pub uninterp spec fn unicode_alphanumeric(c: char) -> bool;

/// An ASCII letter or digit.
pub open spec fn is_ascii_alnum(c: char) -> bool {
    ('0' <= c <= '9') || ('a' <= c <= 'z') || ('A' <= c <= 'Z')
}

/// Word characters: letters and digits. On ASCII these are exactly `0-9`, `a-z`, `A-Z`.
pub open spec fn char_is_alphanumeric(c: char) -> bool {
    if (c as u32) < 128 {
        is_ascii_alnum(c)
    } else {
        unicode_alphanumeric(c)
    }
}

/// `char::is_alphanumeric`: true for letters and digits; for ASCII these are `0-9`,
/// `a-z` and `A-Z`, beyond ASCII the Unicode tables decide.
#[verifier::external_body]
pub(crate) fn is_alphanumeric(c: char) -> (r: bool)
    ensures
        (c as u32) < 128 ==> r == is_ascii_alnum(c),
        (c as u32) >= 128 ==> r == unicode_alphanumeric(c),
{
    c.is_alphanumeric()
}

/// Start of the run of word characters that ends at character index `k` of `h`.
pub open spec fn run_start(h: Seq<char>, k: int) -> int
    decreases k,
{
    if k <= 0 {
        0
    } else if char_is_alphanumeric(h[k - 1]) {
        run_start(h, k - 1)
    } else {
        k
    }
}

/// Going back from character index `k` of `h`: skip non-word characters, then the
/// word before them; the index reached (0 when there is no word).
pub open spec fn word_start_before(h: Seq<char>, k: int) -> int
    decreases k,
{
    if k <= 0 {
        0
    } else if !char_is_alphanumeric(h[k - 1]) {
        word_start_before(h, k - 1)
    } else {
        run_start(h, k)
    }
}

/// Going forward through `u`: skip non-word characters, then a word; the number of
/// characters passed. `in_word` says that a word character was just passed.
pub open spec fn word_end_in(u: Seq<char>, in_word: bool) -> int
    decreases u.len(),
{
    if u.len() == 0 {
        0
    } else if char_is_alphanumeric(u[0]) {
        1 + word_end_in(u.drop_first(), true)
    } else if in_word {
        0
    } else {
        1 + word_end_in(u.drop_first(), false)
    }
}

// ============================================================================
// Positions
// ============================================================================

/// Byte offset of the character before the boundary `pos` (0 at the start).
pub open spec fn prev_char_pos(t: Seq<char>, pos: nat) -> nat {
    if pos == 0 {
        0
    } else {
        char_offset(t, char_index_at(t, pos as int) - 1)
    }
}

/// Byte offset of the character after the one starting at `pos` (the end at or past the end).
pub open spec fn next_char_pos(t: Seq<char>, pos: nat) -> nat {
    if pos >= byte_len(t) {
        byte_len(t)
    } else {
        char_offset(t, char_index_at(t, pos as int) + 1)
    }
}

/// Start of the word before `pos`: within the text before `pos`, non-word characters
/// are skipped backwards, then the word before them (0 when there is none).
pub open spec fn prev_word_pos(t: Seq<char>, pos: nat) -> nat {
    if pos == 0 {
        0
    } else {
        let h = t.take(char_index_at(t, pos as int));
        char_offset(h, word_start_before(h, h.len() as int))
    }
}

/// End of the word after `pos`: non-word characters are skipped, then a word
/// (the end of the text when it is reached first).
pub open spec fn next_word_pos(t: Seq<char>, pos: nat) -> nat {
    if pos >= byte_len(t) {
        byte_len(t)
    } else {
        let u = t.skip(char_index_at(t, pos as int));
        pos + char_offset(u, word_end_in(u, false))
    }
}

pub open spec fn min_nat(a: nat, b: nat) -> nat {
    if a <= b {
        a
    } else {
        b
    }
}

pub open spec fn max_nat(a: nat, b: nat) -> nat {
    if a <= b {
        b
    } else {
        a
    }
}

// ============================================================================
// Editing state
// ============================================================================

/// The state of an editor as plain values: the text, the cursor (a byte offset), the
/// selected byte range (start <= end as created), the anchor from which the selection is
/// extended, and whether word operations are disabled (masked content).
pub struct EditModel {
    pub text: Seq<char>,
    pub cursor: nat,
    pub selection: Option<(nat, nat)>,
    pub anchor: Option<nat>,
    pub masked: bool,
}

impl EditModel {
    /// Length of the text in bytes.
    pub open spec fn len(self) -> nat {
        byte_len(self.text)
    }

    pub open spec fn empty() -> EditModel {
        EditModel { text: Seq::empty(), cursor: 0, selection: None, anchor: None, masked: false }
    }

    pub open spec fn with_cursor(self, c: nat) -> EditModel {
        EditModel { cursor: c, ..self }
    }

    /// No selection and no anchor.
    pub open spec fn cleared(self) -> EditModel {
        EditModel { selection: None, anchor: None, ..self }
    }

    /// Text set, cursor at its end (selection kept).
    pub open spec fn with_content(self, v: Seq<char>) -> EditModel {
        EditModel { text: v, cursor: byte_len(v), ..self }
    }

    /// Text set, cursor at its end, no selection.
    pub open spec fn content_set(self, v: Seq<char>) -> EditModel {
        EditModel { text: v, cursor: byte_len(v), selection: None, anchor: None, masked: self.masked }
    }

    /// A selection that is not empty is present.
    pub open spec fn has_selected(self) -> bool {
        match self.selection {
            Some((s, e)) => s != e,
            None => false,
        }
    }

    /// The selected bytes form a whole run of characters (or nothing is selected).
    pub open spec fn selection_ok(self) -> bool {
        match self.selection {
            Some((s, e)) => s != e ==> substring_exists(self.text, s as int, e as int),
            None => true,
        }
    }

    /// The selected text: only when the selection is non-empty and lies on character boundaries.
    pub open spec fn selected(self) -> Option<Seq<char>> {
        match self.selection {
            Some((s, e)) => if s != e && substring_exists(self.text, s as int, e as int) {
                Some(substring(self.text, s as int, e as int))
            } else {
                None
            },
            None => None,
        }
    }

    /// The selected text removed, the cursor at its start, nothing selected.
    pub open spec fn selection_deleted(self) -> EditModel {
        match self.selection {
            Some((s, e)) => if s != e {
                EditModel {
                    text: splice(self.text, s as int, e as int, Seq::empty()),
                    cursor: s,
                    selection: None,
                    anchor: None,
                    masked: self.masked,
                }
            } else {
                self
            },
            None => self,
        }
    }

    /// `ins` inserted at the cursor after the selection is removed; the cursor after it.
    pub open spec fn inserted(self, ins: Seq<char>) -> EditModel {
        let m = self.selection_deleted();
        EditModel {
            text: splice(m.text, m.cursor as int, m.cursor as int, ins),
            cursor: m.cursor + byte_len(ins),
            ..m
        }
    }

    pub open spec fn insert_ok(self, ins: Seq<char>) -> bool {
        let m = self.selection_deleted();
        &&& self.selection_ok()
        &&& is_boundary(m.text, m.cursor as int)
        &&& byte_len(m.text) + byte_len(ins) <= isize::MAX
    }

    /// The bytes from `p` to the cursor removed, the cursor at `p`.
    pub open spec fn removed_before(self, p: nat) -> EditModel {
        EditModel { text: splice(self.text, p as int, self.cursor as int, Seq::empty()), cursor: p, ..self }
    }

    /// The bytes from the cursor to `n` removed, the cursor unchanged.
    pub open spec fn removed_after(self, n: nat) -> EditModel {
        EditModel { text: splice(self.text, self.cursor as int, n as int, Seq::empty()), ..self }
    }

    /// Backspace: the selection, or else the character before the cursor.
    pub open spec fn backspaced(self) -> EditModel {
        if self.has_selected() {
            self.selection_deleted()
        } else if self.cursor > 0 {
            self.removed_before(prev_char_pos(self.text, self.cursor))
        } else {
            self
        }
    }

    pub open spec fn backspace_changes(self) -> bool {
        self.has_selected() || self.cursor > 0
    }

    pub open spec fn backspace_ok(self) -> bool {
        &&& self.selection_ok()
        &&& !self.has_selected() && self.cursor > 0 ==> is_boundary(self.text, self.cursor as int)
    }

    /// Delete: the selection, or else the character after the cursor.
    pub open spec fn forward_deleted(self) -> EditModel {
        if self.has_selected() {
            self.selection_deleted()
        } else if self.cursor < self.len() {
            self.removed_after(next_char_pos(self.text, self.cursor))
        } else {
            self
        }
    }

    pub open spec fn forward_delete_changes(self) -> bool {
        self.has_selected() || self.cursor < self.len()
    }

    pub open spec fn forward_delete_ok(self) -> bool {
        &&& self.selection_ok()
        &&& !self.has_selected() && self.cursor < self.len() ==> is_boundary(self.text, self.cursor as int)
    }

    /// Word backspace: like backspace when masked; otherwise the selection, or else back to
    /// the start of the previous word.
    pub open spec fn word_backspaced(self) -> EditModel {
        if self.masked {
            self.backspaced()
        } else if self.has_selected() {
            self.selection_deleted()
        } else if self.cursor > 0 {
            self.removed_before(prev_word_pos(self.text, self.cursor))
        } else {
            self
        }
    }

    /// Word delete: like delete when masked; otherwise the selection, or else up to the end
    /// of the next word.
    pub open spec fn word_forward_deleted(self) -> EditModel {
        if self.masked {
            self.forward_deleted()
        } else if self.has_selected() {
            self.selection_deleted()
        } else if self.cursor < self.len() {
            self.removed_after(next_word_pos(self.text, self.cursor))
        } else {
            self
        }
    }

    pub open spec fn moved_left(self) -> EditModel {
        if self.cursor > 0 {
            self.cleared().with_cursor(prev_char_pos(self.text, self.cursor))
        } else {
            self.cleared()
        }
    }

    pub open spec fn moved_right(self) -> EditModel {
        if self.cursor < self.len() {
            self.cleared().with_cursor(next_char_pos(self.text, self.cursor))
        } else {
            self.cleared()
        }
    }

    pub open spec fn left_ok(self) -> bool {
        self.cursor > 0 ==> is_boundary(self.text, self.cursor as int)
    }

    pub open spec fn right_ok(self) -> bool {
        self.cursor < self.len() ==> is_boundary(self.text, self.cursor as int)
    }

    pub open spec fn moved_word_left(self) -> EditModel {
        if self.masked {
            self.moved_left()
        } else {
            self.cleared().with_cursor(prev_word_pos(self.text, self.cursor))
        }
    }

    pub open spec fn moved_word_right(self) -> EditModel {
        if self.masked {
            self.moved_right()
        } else {
            self.cleared().with_cursor(next_word_pos(self.text, self.cursor))
        }
    }

    /// The anchor set to the cursor if there is none.
    pub open spec fn anchored(self) -> EditModel {
        if self.anchor is None {
            EditModel { anchor: Some(self.cursor), ..self }
        } else {
            self
        }
    }

    /// The selection recomputed from the anchor and the cursor.
    pub open spec fn reselected(self) -> EditModel {
        match self.anchor {
            Some(a) => if a == self.cursor {
                EditModel { selection: None, ..self }
            } else {
                EditModel {
                    selection: Some((min_nat(a, self.cursor), max_nat(a, self.cursor))),
                    ..self
                }
            },
            None => self,
        }
    }

    /// The selection extended by moving the cursor to `c`.
    pub open spec fn extended_to(self, c: nat) -> EditModel {
        self.anchored().with_cursor(c).reselected()
    }

    pub open spec fn selected_left(self) -> EditModel {
        if self.cursor > 0 {
            self.extended_to(prev_char_pos(self.text, self.cursor))
        } else {
            self
        }
    }

    pub open spec fn selected_right(self) -> EditModel {
        if self.cursor < self.len() {
            self.extended_to(next_char_pos(self.text, self.cursor))
        } else {
            self
        }
    }

    pub open spec fn selected_word_left(self) -> EditModel {
        if self.masked {
            self.selected_left()
        } else if self.cursor > 0 {
            self.extended_to(prev_word_pos(self.text, self.cursor))
        } else {
            self
        }
    }

    pub open spec fn selected_word_right(self) -> EditModel {
        if self.masked {
            self.selected_right()
        } else if self.cursor < self.len() {
            self.extended_to(next_word_pos(self.text, self.cursor))
        } else {
            self
        }
    }

    pub open spec fn all_selected(self) -> EditModel {
        EditModel { anchor: Some(0), cursor: self.len(), selection: Some((0, self.len())), ..self }
    }

    /// Selection set to `start..end`, both clamped to the text; an empty range clears it and
    /// puts the cursor there.
    pub open spec fn selection_set(self, start: nat, end: nat) -> EditModel {
        let s = min_nat(start, self.len());
        let e = min_nat(end, self.len());
        if s == e {
            EditModel { selection: None, anchor: None, cursor: s, ..self }
        } else {
            EditModel {
                selection: Some((min_nat(s, e), max_nat(s, e))),
                anchor: Some(min_nat(s, e)),
                cursor: max_nat(s, e),
                ..self
            }
        }
    }
}

/// `Option` of a `usize` pair seen as naturals.
pub open spec fn nat_pair(o: Option<(usize, usize)>) -> Option<(nat, nat)> {
    match o {
        Some((a, b)) => Some((a as nat, b as nat)),
        None => None,
    }
}

pub open spec fn nat_opt(o: Option<usize>) -> Option<nat> {
    match o {
        Some(a) => Some(a as nat),
        None => None,
    }
}

// ============================================================================
// Lemmas on word positions
// ============================================================================

/// One more character scanned forward changes the backward word start as the scan does.
proof fn lemma_word_start_step(h: Seq<char>, i: int)
    requires
        0 <= i < h.len(),
    ensures
        word_start_before(h, i + 1) == if char_is_alphanumeric(h[i]) {
            if i > 0 && char_is_alphanumeric(h[i - 1]) {
                word_start_before(h, i)
            } else {
                i
            }
        } else {
            word_start_before(h, i)
        },
{
    if char_is_alphanumeric(h[i]) {
        assert(run_start(h, i + 1) == run_start(h, i));
        if i > 0 && char_is_alphanumeric(h[i - 1]) {
            assert(word_start_before(h, i) == run_start(h, i));
        } else if i > 0 {
            assert(run_start(h, i) == i);
        }
    }
}

/// The backward word start never passes the scanned prefix.
proof fn lemma_word_start_bound(h: Seq<char>, k: int)
    requires
        0 <= k <= h.len(),
    ensures
        0 <= word_start_before(h, k) <= k,
        0 <= run_start(h, k) <= k,
        k > 0 ==> word_start_before(h, k) < k,
    decreases k,
{
    if k > 0 {
        lemma_word_start_bound(h, k - 1);
    }
}

proof fn lemma_word_end_bound(u: Seq<char>, in_word: bool)
    ensures
        0 <= word_end_in(u, in_word) <= u.len(),
    decreases u.len(),
{
    if u.len() > 0 {
        lemma_word_end_bound(u.drop_first(), true);
        lemma_word_end_bound(u.drop_first(), false);
    }
}

// ============================================================================
// The editing core
// ============================================================================

/// Core editing state and operations
///
/// This struct handles all the cursor, selection, and text manipulation logic
/// independent of the UI framework. It's generic over the storage type to support
/// both regular strings and secure/zeroizing storage for passwords.
pub struct EditingCore<S: ContentStorage> {
    /// The text content
    content: S,
    /// Cursor position (byte index into content)
    cursor: usize,
    /// Selection range (start, end) where start <= end
    selection: Option<(usize, usize)>,
    /// The anchor point for selection extension
    selection_anchor: Option<usize>,
    /// Whether this input masks content (for password fields)
    masked: bool,
}

impl<S: ContentStorage> View for EditingCore<S> {
    type V = EditModel;

    closed spec fn view(&self) -> EditModel {
        EditModel {
            text: self.content.text(),
            cursor: self.cursor as nat,
            selection: nat_pair(self.selection),
            anchor: nat_opt(self.selection_anchor),
            masked: self.masked,
        }
    }
}

impl<S: ContentStorage> Default for EditingCore<S> {
    fn default() -> (r: Self)
        ensures
            r@ == EditModel::empty(),
    {
        Self::new()
    }
}

impl<S: ContentStorage> EditingCore<S> {
    /// Create a new editing core with empty content
    pub fn new() -> (r: Self)
        ensures
            r@ == EditModel::empty(),
    {
        let content = S::default();
        proof {
            S::lemma_default_is_empty(content);
            assert(content.text() =~= Seq::<char>::empty());
        }
        Self { content, cursor: 0, selection: None, selection_anchor: None, masked: false }
    }

    /// Create with initial content
    pub fn with_content(self, content: &str) -> (r: Self)
        ensures
            r@ == self@.with_content(content@),
    {
        let mut this = self;
        this.content.set(content);
        this.cursor = this.content.len();
        this
    }

    /// Set masked mode (for password input)
    pub fn with_masked(self, masked: bool) -> (r: Self)
        ensures
            r@ == (EditModel { masked, ..self@ }),
    {
        let mut this = self;
        this.masked = masked;
        this
    }

    // ========================================================================
    // Getters
    // ========================================================================

    /// Get the content as a string slice
    pub fn content(&self) -> (r: &str)
        ensures
            r@ == self@.text,
    {
        self.content.as_str()
    }

    /// Get the cursor position
    pub fn cursor(&self) -> (r: usize)
        ensures
            r == self@.cursor,
    {
        self.cursor
    }

    /// Get the selection range
    pub fn selection(&self) -> (r: Option<(usize, usize)>)
        ensures
            nat_pair(r) == self@.selection,
    {
        self.selection
    }

    /// Check if masked mode is enabled
    pub fn is_masked(&self) -> (r: bool)
        ensures
            r == self@.masked,
    {
        self.masked
    }

    /// Get selected text
    pub fn selected_text(&self) -> (r: Option<&str>)
        ensures
            r is Some <==> self@.selected() is Some,
            r matches Some(sub) ==> sub@ == self@.selected().unwrap(),
    {
        if let Some((start, end)) = self.selection {
            if start != end {
                return self.content.get(start..end);
            }
        }
        None
    }

    // ========================================================================
    // Setters
    // ========================================================================

    /// Set the content, moving cursor to end
    pub fn set_content(&mut self, value: &str)
        ensures
            final(self)@ == old(self)@.content_set(value@),
    {
        self.content.set(value);
        self.cursor = self.content.len();
        self.selection = None;
        self.selection_anchor = None;
    }

    /// Set cursor position (clamped to valid range)
    pub fn set_cursor(&mut self, pos: usize)
        ensures
            final(self)@ == old(self)@.with_cursor(min_nat(pos as nat, old(self)@.len())),
    {
        let len = self.content.len();
        self.cursor = if pos <= len {
            pos
        } else {
            len
        };
    }

    /// Set masked mode
    pub fn set_masked(&mut self, masked: bool)
        ensures
            final(self)@ == (EditModel { masked, ..old(self)@ }),
    {
        self.masked = masked;
    }

    /// Clear selection state
    pub fn clear_selection(&mut self)
        ensures
            final(self)@ == old(self)@.cleared(),
    {
        self.selection = None;
        self.selection_anchor = None;
    }

    // ========================================================================
    // Character boundary helpers
    // ========================================================================

    /// Find the previous character boundary
    pub fn prev_char_boundary(&self, pos: usize) -> (r: usize)
        requires
            pos == 0 || is_boundary(self@.text, pos as int),
        ensures
            r == prev_char_pos(self@.text, pos as nat),
    {
        if pos == 0 {
            return 0;
        }
        let s = self.content.as_str();
        let ghost t = s@;
        let ghost k = char_index_at(t, pos as int);
        proof {
            lemma_char_index_at(t, pos as int);
            lemma_offset_zero_end(t);
            lemma_offset_strict(t, k - 1, k);
        }
        let mut p: usize = pos - 1;
        loop
            invariant
                s@ == t,
                t == self@.text,
                0 < k <= t.len(),
                k == char_index_at(t, pos as int),
                char_offset(t, k) == pos,
                char_offset(t, k - 1) <= p < pos,
            decreases p,
        {
            let b = s.is_char_boundary(p);
            proof {
                lemma_is_char_boundary_iff(t, p as int);
                lemma_offset_zero_end(t);
            }
            if b {
                proof {
                    if p > char_offset(t, k - 1) {
                        lemma_no_boundary_between(t, k - 1, p as int);
                    }
                }
                return p;
            }
            proof {
                assert(char_offset(t, k - 1) != p) by {
                    assert(is_boundary(t, char_offset(t, k - 1) as int));
                }
            }
            p = p - 1;
        }
    }

    /// Find the next character boundary
    pub fn next_char_boundary(&self, pos: usize) -> (r: usize)
        requires
            pos >= self@.len() || is_boundary(self@.text, pos as int),
        ensures
            r == next_char_pos(self@.text, pos as nat),
    {
        let len = self.content.len();
        if pos >= len {
            return len;
        }
        let s = self.content.as_str();
        let ghost t = s@;
        let ghost k = char_index_at(t, pos as int);
        proof {
            lemma_char_index_at(t, pos as int);
            lemma_offset_zero_end(t);
            if k == t.len() {
                assert(false);
            }
            lemma_offset_strict(t, k, k + 1);
            lemma_offset_bound(t, k + 1);
        }
        let mut p: usize = pos + 1;
        loop
            invariant
                s@ == t,
                t == self@.text,
                len == byte_len(t),
                0 <= k < t.len(),
                k == char_index_at(t, pos as int),
                char_offset(t, k) == pos,
                pos < p <= char_offset(t, k + 1),
                char_offset(t, k + 1) <= len,
            decreases len - p,
        {
            if p >= len {
                return len;
            }
            let b = s.is_char_boundary(p);
            proof {
                lemma_is_char_boundary_iff(t, p as int);
            }
            if b {
                proof {
                    if p < char_offset(t, k + 1) {
                        lemma_no_boundary_between(t, k, p as int);
                    }
                }
                return p;
            }
            proof {
                assert(char_offset(t, k + 1) != p) by {
                    assert(is_boundary(t, char_offset(t, k + 1) as int));
                }
            }
            p = p + 1;
        }
    }

    /// Find the start of the previous word
    pub fn prev_word_boundary(&self, pos: usize) -> (r: usize)
        requires
            pos == 0 || is_boundary(self@.text, pos as int),
        ensures
            r == prev_word_pos(self@.text, pos as nat),
    {
        if pos == 0 {
            return 0;
        }
        let (s, _) = split_at_boundary(self.content.as_str(), pos);
        let ghost h = s@;
        proof {
            lemma_char_index_at(self@.text, pos as int);
            let k = char_index_at(self@.text, pos as int);
            assert(self@.text.take(k).take(k) =~= self@.text.take(k));
            assert(h.len() == k);
        }
        if s.is_empty() {
            return 0;
        }
        let mut last_word_start: usize = 0;
        let mut in_word = false;
        let mut last_non_alnum_after_word: Option<usize> = None;
        let mut off: usize = 0;
        proof {
            lemma_offset_zero_end(h);
        }
        for c in it: s.chars()
            invariant
                it.seq() == h,
                h == s@,
                byte_len(h) == pos,
                off == char_offset(h, it.index() as int),
                in_word == (it.index() > 0 && char_is_alphanumeric(h[it.index() - 1])),
                last_word_start == char_offset(h, word_start_before(h, it.index() as int)),
                !in_word && last_non_alnum_after_word is None ==> last_word_start == 0,
        {
            let ghost i = it.index() as int;
            proof {
                lemma_word_start_step(h, i);
                lemma_word_start_bound(h, i);
                lemma_offset_succ(h, i);
                lemma_offset_bound(h, i + 1);
            }
            let alnum = is_alphanumeric(c);
            if alnum && !in_word {
                last_word_start = off;
                in_word = true;
            } else if !alnum {
                if in_word {
                    last_non_alnum_after_word = Some(off);
                }
                in_word = false;
            }
            off = off + char_width(c);
        }
        if in_word {
            return last_word_start;
        }
        if last_non_alnum_after_word.is_some() {
            return last_word_start;
        }
        0
    }

    /// Find the end of the next word
    pub fn next_word_boundary(&self, pos: usize) -> (r: usize)
        requires
            pos >= self@.len() || is_boundary(self@.text, pos as int),
        ensures
            r == next_word_pos(self@.text, pos as nat),
    {
        let len = self.content.len();
        if pos >= len {
            return len;
        }
        let (_, s) = split_at_boundary(self.content.as_str(), pos);
        let ghost u = s@;
        let ghost t = self@.text;
        proof {
            lemma_char_index_at(t, pos as int);
            let k = char_index_at(t, pos as int);
            assert(t =~= t.take(k) + t.skip(k));
            lemma_byte_len_concat(t.take(k), t.skip(k));
            lemma_offset_zero_end(t);
            assert(t.take(k).len() == k);
            lemma_offset_zero_end(u);
            assert(u.skip(0) =~= u);
        }
        if s.is_empty() {
            return len;
        }
        let mut in_word = false;
        let mut off: usize = 0;
        for c in it: s.chars()
            invariant
                it.seq() == u,
                u == s@,
                u == self@.text.skip(char_index_at(self@.text, pos as int)),
                pos < len,
                pos + byte_len(u) == len,
                len == self@.len(),
                off == char_offset(u, it.index() as int),
                word_end_in(u, false) == it.index() + word_end_in(u.skip(it.index() as int), in_word),
        {
            let ghost i = it.index() as int;
            proof {
                lemma_offset_succ(u, i);
                lemma_offset_bound(u, i + 1);
                lemma_offset_bound(u, i);
                assert(u.skip(i).drop_first() =~= u.skip(i + 1));
                assert(u.skip(i)[0] == u[i]);
            }
            if is_alphanumeric(c) {
                in_word = true;
            } else if in_word {
                return pos + off;
            }
            off = off + char_width(c);
        }
        proof {
            assert(u.skip(u.len() as int) =~= Seq::<char>::empty());
        }
        len
    }

    // ========================================================================
    // Text modification
    // ========================================================================

    /// Delete selected text and return whether deletion occurred
    pub fn delete_selection(&mut self) -> (r: bool)
        requires
            old(self)@.selection_ok(),
        ensures
            final(self)@ == old(self)@.selection_deleted(),
            r == old(self)@.has_selected(),
    {
        if let Some((start, end)) = self.selection {
            if start != end {
                self.content.remove_range(start..end);
                self.cursor = start;
                self.selection = None;
                self.selection_anchor = None;
                return true;
            }
        }
        false
    }

    /// Insert text at cursor (replacing selection if any)
    /// Returns true if content changed
    pub fn insert_text(&mut self, text: &str) -> (r: bool)
        requires
            old(self)@.insert_ok(text@),
        ensures
            final(self)@ == old(self)@.inserted(text@),
            r == (final(self)@.text != old(self)@.text),
    {
        proof {
            lemma_insert_changes(self@, text@);
        }
        let changed = match self.selected_text() {
            Some(sel) => !str_equal(sel, text),
            None => !text.is_empty(),
        };
        self.delete_selection();
        proof {
            let m = self@;
            lemma_char_index_at(m.text, m.cursor as int);
            lemma_offset_bound(m.text, char_index_at(m.text, m.cursor as int));
        }
        let n = str_byte_len(text);
        self.content.insert_str(self.cursor, text);
        self.cursor = self.cursor + n;
        changed
    }

    /// Delete character before cursor
    /// Returns true if content changed
    pub fn delete_backward(&mut self) -> (r: bool)
        requires
            old(self)@.backspace_ok(),
        ensures
            final(self)@ == old(self)@.backspaced(),
            r == old(self)@.backspace_changes(),
    {
        if self.delete_selection() {
            return true;
        }
        if self.cursor > 0 {
            let prev = self.prev_char_boundary(self.cursor);
            proof {
                self.lemma_prev_char_ok(self.cursor as nat);
            }
            self.content.remove_range(prev..self.cursor);
            self.cursor = prev;
            return true;
        }
        false
    }

    /// Delete character after cursor
    /// Returns true if content changed
    pub fn delete_forward(&mut self) -> (r: bool)
        requires
            old(self)@.forward_delete_ok(),
        ensures
            final(self)@ == old(self)@.forward_deleted(),
            r == old(self)@.forward_delete_changes(),
    {
        if self.delete_selection() {
            return true;
        }
        if self.cursor < self.content.len() {
            let next = self.next_char_boundary(self.cursor);
            proof {
                self.lemma_next_char_ok(self.cursor as nat);
            }
            self.content.remove_range(self.cursor..next);
            return true;
        }
        false
    }

    /// Delete word before cursor (falls back to single char when masked)
    /// Returns true if content changed
    pub fn delete_word_backward(&mut self) -> (r: bool)
        requires
            old(self)@.backspace_ok(),
        ensures
            final(self)@ == old(self)@.word_backspaced(),
            r == old(self)@.backspace_changes(),
    {
        if self.masked {
            return self.delete_backward();
        }
        if self.delete_selection() {
            return true;
        }
        if self.cursor > 0 {
            let prev = self.prev_word_boundary(self.cursor);
            proof {
                self.lemma_prev_word_ok(self.cursor as nat);
            }
            self.content.remove_range(prev..self.cursor);
            self.cursor = prev;
            return true;
        }
        false
    }

    /// Delete word after cursor (falls back to single char when masked)
    /// Returns true if content changed
    pub fn delete_word_forward(&mut self) -> (r: bool)
        requires
            old(self)@.forward_delete_ok(),
        ensures
            final(self)@ == old(self)@.word_forward_deleted(),
            r == old(self)@.forward_delete_changes(),
    {
        if self.masked {
            return self.delete_forward();
        }
        if self.delete_selection() {
            return true;
        }
        if self.cursor < self.content.len() {
            let next = self.next_word_boundary(self.cursor);
            proof {
                self.lemma_next_word_ok(self.cursor as nat);
            }
            self.content.remove_range(self.cursor..next);
            return true;
        }
        false
    }

// ========================================================================
    // Cursor movement
    // ========================================================================

    /// Move cursor left by one character
    pub fn move_left(&mut self)
        requires
            old(self)@.left_ok(),
        ensures
            final(self)@ == old(self)@.moved_left(),
    {
        self.clear_selection();
        if self.cursor > 0 {
            self.cursor = self.prev_char_boundary(self.cursor);
        }
    }

    /// Move cursor right by one character
    pub fn move_right(&mut self)
        requires
            old(self)@.right_ok(),
        ensures
            final(self)@ == old(self)@.moved_right(),
    {
        self.clear_selection();
        if self.cursor < self.content.len() {
            self.cursor = self.next_char_boundary(self.cursor);
        }
    }

    /// Move cursor to start
    pub fn move_to_start(&mut self)
        ensures
            final(self)@ == old(self)@.cleared().with_cursor(0),
    {
        self.clear_selection();
        self.cursor = 0;
    }

    /// Move cursor to end
    pub fn move_to_end(&mut self)
        ensures
            final(self)@ == old(self)@.cleared().with_cursor(old(self)@.len()),
    {
        self.clear_selection();
        self.cursor = self.content.len();
    }

    /// Move cursor to previous word (falls back to single char when masked)
    pub fn move_word_left(&mut self)
        requires
            old(self)@.left_ok(),
        ensures
            final(self)@ == old(self)@.moved_word_left(),
    {
        if self.masked {
            self.move_left();
            return;
        }
        self.clear_selection();
        self.cursor = self.prev_word_boundary(self.cursor);
    }

    /// Move cursor to next word (falls back to single char when masked)
    pub fn move_word_right(&mut self)
        requires
            old(self)@.right_ok(),
        ensures
            final(self)@ == old(self)@.moved_word_right(),
    {
        if self.masked {
            self.move_right();
            return;
        }
        self.clear_selection();
        self.cursor = self.next_word_boundary(self.cursor);
    }

    // ========================================================================
    // Selection
    // ========================================================================

    /// Ensure selection anchor is set
    fn ensure_selection_anchor(&mut self)
        ensures
            final(self)@ == old(self)@.anchored(),
    {
        if self.selection_anchor.is_none() {
            self.selection_anchor = Some(self.cursor);
        }
    }

    /// Update selection from anchor to cursor
    fn update_selection(&mut self)
        ensures
            final(self)@ == old(self)@.reselected(),
    {
        if let Some(anchor) = self.selection_anchor {
            if anchor == self.cursor {
                self.selection = None;
            } else {
                let lo = if anchor <= self.cursor {
                    anchor
                } else {
                    self.cursor
                };
                let hi = if anchor <= self.cursor {
                    self.cursor
                } else {
                    anchor
                };
                self.selection = Some((lo, hi));
            }
        }
    }

    /// Extend selection left by one character
    pub fn select_left(&mut self)
        requires
            old(self)@.left_ok(),
        ensures
            final(self)@ == old(self)@.selected_left(),
    {
        if self.cursor > 0 {
            self.ensure_selection_anchor();
            self.cursor = self.prev_char_boundary(self.cursor);
            self.update_selection();
        }
    }

    /// Extend selection right by one character
    pub fn select_right(&mut self)
        requires
            old(self)@.right_ok(),
        ensures
            final(self)@ == old(self)@.selected_right(),
    {
        if self.cursor < self.content.len() {
            self.ensure_selection_anchor();
            self.cursor = self.next_char_boundary(self.cursor);
            self.update_selection();
        }
    }

    /// Extend selection left by one word (falls back to single char when masked)
    pub fn select_word_left(&mut self)
        requires
            old(self)@.left_ok(),
        ensures
            final(self)@ == old(self)@.selected_word_left(),
    {
        if self.masked {
            self.select_left();
            return;
        }
        if self.cursor > 0 {
            self.ensure_selection_anchor();
            self.cursor = self.prev_word_boundary(self.cursor);
            self.update_selection();
        }
    }

    /// Extend selection right by one word (falls back to single char when masked)
    pub fn select_word_right(&mut self)
        requires
            old(self)@.right_ok(),
        ensures
            final(self)@ == old(self)@.selected_word_right(),
    {
        if self.masked {
            self.select_right();
            return;
        }
        if self.cursor < self.content.len() {
            self.ensure_selection_anchor();
            self.cursor = self.next_word_boundary(self.cursor);
            self.update_selection();
        }
    }

    /// Select to start of line
    pub fn select_to_start(&mut self)
        ensures
            final(self)@ == old(self)@.extended_to(0),
    {
        self.ensure_selection_anchor();
        self.cursor = 0;
        self.update_selection();
    }

    /// Select to end of line
    pub fn select_to_end(&mut self)
        ensures
            final(self)@ == old(self)@.extended_to(old(self)@.len()),
    {
        self.ensure_selection_anchor();
        self.cursor = self.content.len();
        self.update_selection();
    }

    /// Select all text
    pub fn select_all(&mut self)
        ensures
            final(self)@ == old(self)@.all_selected(),
    {
        self.selection_anchor = Some(0);
        self.cursor = self.content.len();
        self.selection = Some((0, self.content.len()));
    }

    /// Set selection range and update cursor/anchor accordingly
    pub fn set_selection(&mut self, start: usize, end: usize)
        ensures
            final(self)@ == old(self)@.selection_set(start as nat, end as nat),
    {
        let len = self.content.len();
        let start = if start <= len {
            start
        } else {
            len
        };
        let end = if end <= len {
            end
        } else {
            len
        };
        if start == end {
            self.selection = None;
            self.selection_anchor = None;
            self.cursor = start;
        } else {
            let (min, max) = if start <= end {
                (start, end)
            } else {
                (end, start)
            };
            self.selection = Some((min, max));
            self.selection_anchor = Some(min);
            self.cursor = max;
        }
    }

    /// Start selection at current cursor position (for shift+click)
    pub fn start_selection_from_cursor(&mut self)
        ensures
            final(self)@ == old(self)@.anchored(),
    {
        self.ensure_selection_anchor();
    }

    /// Extend selection to new cursor position
    pub fn extend_selection_to(&mut self, pos: usize)
        ensures
            final(self)@ == old(self)@.with_cursor(min_nat(pos as nat, old(self)@.len())).reselected(),
    {
        let len = self.content.len();
        self.cursor = if pos <= len {
            pos
        } else {
            len
        };
        self.update_selection();
    }

    // ========================================================================
    // Proof helpers: the positions the helpers find are boundaries in order
    // ========================================================================

    proof fn lemma_prev_char_ok(&self, pos: nat)
        requires
            pos > 0,
            is_boundary(self@.text, pos as int),
        ensures
            prev_char_pos(self@.text, pos) < pos,
            is_boundary(self@.text, prev_char_pos(self@.text, pos) as int),
    {
        let t = self@.text;
        let k = char_index_at(t, pos as int);
        lemma_char_index_at(t, pos as int);
        lemma_offset_zero_end(t);
        lemma_offset_strict(t, k - 1, k);
        assert(char_offset(t, k - 1) == prev_char_pos(t, pos));
    }

    proof fn lemma_next_char_ok(&self, pos: nat)
        requires
            pos < self@.len(),
            is_boundary(self@.text, pos as int),
        ensures
            pos < next_char_pos(self@.text, pos),
            is_boundary(self@.text, next_char_pos(self@.text, pos) as int),
    {
        let t = self@.text;
        let k = char_index_at(t, pos as int);
        lemma_char_index_at(t, pos as int);
        lemma_offset_zero_end(t);
        if k == t.len() {
            assert(false);
        }
        lemma_offset_strict(t, k, k + 1);
        assert(char_offset(t, k + 1) == next_char_pos(t, pos));
    }

    proof fn lemma_prev_word_ok(&self, pos: nat)
        requires
            pos > 0,
            is_boundary(self@.text, pos as int),
        ensures
            prev_word_pos(self@.text, pos) < pos,
            is_boundary(self@.text, prev_word_pos(self@.text, pos) as int),
    {
        let t = self@.text;
        let k = char_index_at(t, pos as int);
        lemma_char_index_at(t, pos as int);
        lemma_offset_zero_end(t);
        let h = t.take(k);
        let j = word_start_before(h, k);
        assert(h.len() == k);
        lemma_word_start_bound(h, k);
        assert(h.take(j) =~= t.take(j));
        assert(char_offset(h, j) == char_offset(t, j));
        if k == 0 {
            assert(false);
        }
        lemma_offset_strict(t, j, k);
        assert(prev_word_pos(t, pos) == char_offset(t, j));
    }

    proof fn lemma_next_word_ok(&self, pos: nat)
        requires
            pos < self@.len(),
            is_boundary(self@.text, pos as int),
        ensures
            pos <= next_word_pos(self@.text, pos),
            is_boundary(self@.text, next_word_pos(self@.text, pos) as int),
    {
        let t = self@.text;
        let k = char_index_at(t, pos as int);
        lemma_char_index_at(t, pos as int);
        lemma_offset_zero_end(t);
        let u = t.skip(k);
        let j = word_end_in(u, false);
        lemma_word_end_bound(u, false);
        assert(t.take(k + j) =~= t.take(k) + u.take(j));
        lemma_byte_len_concat(t.take(k), u.take(j));
        assert(char_offset(t, k + j) == pos + char_offset(u, j));
        assert(next_word_pos(t, pos) == char_offset(t, k + j));
    }
}

// ============================================================================
// Laws of editing
// ============================================================================

impl EditModel {
    /// The cursor lies within the text.
    pub open spec fn cursor_in_text(self) -> bool {
        self.cursor <= self.len()
    }
}

/// Splicing at boundaries: the offsets of the kept prefix and of the inserted text.
proof fn lemma_splice_offsets(t: Seq<char>, start: int, end: int, ins: Seq<char>)
    requires
        substring_exists(t, start, end),
    ensures
        byte_len(splice(t, start, end, ins)) == start + byte_len(ins) + (byte_len(t) - end),
        is_boundary(splice(t, start, end, ins), start),
        is_boundary(splice(t, start, end, ins), start + byte_len(ins)),
        char_index_at(splice(t, start, end, ins), start) == char_index_at(t, start),
        char_index_at(splice(t, start, end, ins), start + byte_len(ins)) == char_index_at(t, start)
            + ins.len(),
{
    let i = char_index_at(t, start);
    let j = char_index_at(t, end);
    lemma_char_index_at(t, start);
    lemma_char_index_at(t, end);
    let u = splice(t, start, end, ins);
    let a = t.take(i);
    let b = t.skip(j);
    assert(u == a + ins + b);
    lemma_byte_len_concat(a, ins);
    lemma_byte_len_concat(a + ins, b);
    assert(t =~= t.take(j) + b);
    lemma_byte_len_concat(t.take(j), b);
    assert(u.take(i) =~= a);
    assert(u.take(i + ins.len()) =~= a + ins);
    assert(char_offset(u, i) == start);
    assert(char_offset(u, i + ins.len()) == start + byte_len(ins));
    lemma_char_index_at(u, start);
    lemma_char_index_at(u, start + byte_len(ins));
}

proof fn lemma_selection_deleted_in_text(m: EditModel)
    requires
        m.cursor_in_text(),
        m.selection_ok(),
    ensures
        m.selection_deleted().cursor_in_text(),
{
    match m.selection {
        Some((s, e)) => {
            if s != e {
                lemma_splice_offsets(m.text, s as int, e as int, Seq::empty());
                lemma_char_index_at(m.text, e as int);
                lemma_offset_bound(m.text, char_index_at(m.text, e as int));
            }
        },
        None => {},
    }
}

proof fn lemma_inserted_in_text(m: EditModel, ins: Seq<char>)
    requires
        m.cursor_in_text(),
        m.insert_ok(ins),
    ensures
        m.inserted(ins).cursor_in_text(),
{
    let d = m.selection_deleted();
    lemma_char_index_at(d.text, d.cursor as int);
    lemma_offset_bound(d.text, char_index_at(d.text, d.cursor as int));
    lemma_splice_offsets(d.text, d.cursor as int, d.cursor as int, ins);
}

proof fn lemma_removed_in_text(m: EditModel, a: nat, b: nat)
    requires
        a <= b,
        is_boundary(m.text, a as int),
        is_boundary(m.text, b as int),
        m.cursor == a || m.cursor == b,
    ensures
        m.removed_before(a).cursor_in_text() || m.cursor != b,
        m.removed_after(b).cursor_in_text() || m.cursor != a,
{
    lemma_splice_offsets(m.text, a as int, b as int, Seq::empty());
    lemma_char_index_at(m.text, b as int);
    lemma_offset_bound(m.text, char_index_at(m.text, b as int));
}

proof fn lemma_deletions_in_text(m: EditModel)
    requires
        m.cursor_in_text(),
    ensures
        m.backspace_ok() ==> m.backspaced().cursor_in_text(),
        m.backspace_ok() ==> m.word_backspaced().cursor_in_text(),
        m.forward_delete_ok() ==> m.forward_deleted().cursor_in_text(),
        m.forward_delete_ok() ==> m.word_forward_deleted().cursor_in_text(),
{
    let t = m.text;
    if m.selection_ok() {
        lemma_selection_deleted_in_text(m);
    }
    if !m.has_selected() && m.cursor > 0 && is_boundary(t, m.cursor as int) {
        lemma_nav_positions(t, m.cursor);
        lemma_removed_in_text(m, prev_char_pos(t, m.cursor), m.cursor);
        lemma_removed_in_text(m, prev_word_pos(t, m.cursor), m.cursor);
    }
    if !m.has_selected() && m.cursor < m.len() && is_boundary(t, m.cursor as int) {
        lemma_nav_positions(t, m.cursor);
        lemma_removed_in_text(m, m.cursor, next_char_pos(t, m.cursor));
        lemma_removed_in_text(m, m.cursor, next_word_pos(t, m.cursor));
    }
}

proof fn lemma_moves_in_text(m: EditModel)
    requires
        m.cursor_in_text(),
    ensures
        m.left_ok() ==> m.moved_left().cursor_in_text(),
        m.right_ok() ==> m.moved_right().cursor_in_text(),
        m.left_ok() ==> m.moved_word_left().cursor_in_text(),
        m.right_ok() ==> m.moved_word_right().cursor_in_text(),
        m.left_ok() ==> m.selected_left().cursor_in_text(),
        m.right_ok() ==> m.selected_right().cursor_in_text(),
        m.left_ok() ==> m.selected_word_left().cursor_in_text(),
        m.right_ok() ==> m.selected_word_right().cursor_in_text(),
{
    let t = m.text;
    lemma_offset_zero_end(t);
    if is_boundary(t, m.cursor as int) {
        lemma_nav_positions(t, m.cursor);
    }
    if m.cursor == 0 {
        assert(prev_word_pos(t, 0) == 0);
    }
    if m.cursor == m.len() {
        assert(next_word_pos(t, m.cursor) == m.len());
    }
}

/// Every editing operation keeps the cursor within the text, whenever its
/// precondition holds.
pub proof fn law_cursor_stays_in_text(m: EditModel, ins: Seq<char>, p: nat, q: nat)
    requires
        m.cursor_in_text(),
    ensures
        m.insert_ok(ins) ==> m.inserted(ins).cursor_in_text(),
        m.backspace_ok() ==> m.backspaced().cursor_in_text(),
        m.backspace_ok() ==> m.word_backspaced().cursor_in_text(),
        m.forward_delete_ok() ==> m.forward_deleted().cursor_in_text(),
        m.forward_delete_ok() ==> m.word_forward_deleted().cursor_in_text(),
        m.left_ok() ==> m.moved_left().cursor_in_text(),
        m.right_ok() ==> m.moved_right().cursor_in_text(),
        m.left_ok() ==> m.moved_word_left().cursor_in_text(),
        m.right_ok() ==> m.moved_word_right().cursor_in_text(),
        m.left_ok() ==> m.selected_left().cursor_in_text(),
        m.right_ok() ==> m.selected_right().cursor_in_text(),
        m.left_ok() ==> m.selected_word_left().cursor_in_text(),
        m.right_ok() ==> m.selected_word_right().cursor_in_text(),
        m.all_selected().cursor_in_text(),
        m.selection_set(p, q).cursor_in_text(),
        m.with_cursor(min_nat(p, m.len())).reselected().cursor_in_text(),
        m.content_set(ins).cursor_in_text(),
{
    if m.insert_ok(ins) {
        lemma_inserted_in_text(m, ins);
    }
    lemma_deletions_in_text(m);
    lemma_moves_in_text(m);
}

/// The positions found by the navigation helpers are boundaries around `pos`.
proof fn lemma_nav_positions(t: Seq<char>, pos: nat)
    requires
        is_boundary(t, pos as int),
    ensures
        pos > 0 ==> prev_char_pos(t, pos) < pos && is_boundary(t, prev_char_pos(t, pos) as int),
        pos > 0 ==> prev_word_pos(t, pos) < pos && is_boundary(t, prev_word_pos(t, pos) as int),
        pos < byte_len(t) ==> pos < next_char_pos(t, pos) && next_char_pos(t, pos) <= byte_len(t)
            && is_boundary(t, next_char_pos(t, pos) as int),
        pos < byte_len(t) ==> pos <= next_word_pos(t, pos) && next_word_pos(t, pos) <= byte_len(t)
            && is_boundary(t, next_word_pos(t, pos) as int),
{
    let k = char_index_at(t, pos as int);
    lemma_char_index_at(t, pos as int);
    lemma_offset_zero_end(t);
    if pos > 0 {
        lemma_offset_strict(t, k - 1, k);
        assert(char_offset(t, k - 1) == prev_char_pos(t, pos));
        let h = t.take(k);
        let j = word_start_before(h, k);
        assert(h.len() == k);
        lemma_word_start_bound(h, k);
        assert(h.take(j) =~= t.take(j));
        lemma_offset_strict(t, j, k);
        assert(prev_word_pos(t, pos) == char_offset(t, j));
    }
    if pos < byte_len(t) {
        if k == t.len() {
            assert(false);
        }
        lemma_offset_strict(t, k, k + 1);
        lemma_offset_bound(t, k + 1);
        assert(char_offset(t, k + 1) == next_char_pos(t, pos));
        let u = t.skip(k);
        let j = word_end_in(u, false);
        lemma_word_end_bound(u, false);
        assert(t.take(k + j) =~= t.take(k) + u.take(j));
        lemma_byte_len_concat(t.take(k), u.take(j));
        lemma_offset_bound(t, k + j);
        assert(next_word_pos(t, pos) == char_offset(t, k + j));
    }
}

/// Moving one character back and then forward returns to the same place, and
/// the other way round.
pub proof fn law_char_steps_undo(t: Seq<char>, pos: nat)
    requires
        is_boundary(t, pos as int),
    ensures
        pos > 0 ==> next_char_pos(t, prev_char_pos(t, pos)) == pos,
        pos < byte_len(t) ==> prev_char_pos(t, next_char_pos(t, pos)) == pos,
{
    let k = char_index_at(t, pos as int);
    lemma_char_index_at(t, pos as int);
    lemma_offset_zero_end(t);
    if pos > 0 {
        let p = prev_char_pos(t, pos);
        lemma_offset_strict(t, k - 1, k);
        lemma_offset_bound(t, k);
        assert(char_offset(t, k - 1) == p);
        lemma_char_index_at(t, p as int);
        assert(char_index_at(t, p as int) == k - 1);
    }
    if pos < byte_len(t) {
        if k == t.len() {
            assert(false);
        }
        let n = next_char_pos(t, pos);
        lemma_offset_strict(t, k, k + 1);
        assert(char_offset(t, k + 1) == n);
        lemma_char_index_at(t, n as int);
        assert(char_index_at(t, n as int) == k + 1);
    }
}

/// Typing one character and pressing backspace restores the text and the cursor.
pub proof fn law_insert_then_backspace(m: EditModel, c: char)
    requires
        !m.has_selected(),
        is_boundary(m.text, m.cursor as int),
        m.insert_ok(seq![c]),
    ensures
        m.inserted(seq![c]).backspace_ok(),
        m.inserted(seq![c]).backspaced().text == m.text,
        m.inserted(seq![c]).backspaced().cursor == m.cursor,
{
    let t = m.text;
    let ins = seq![c];
    let n = m.inserted(ins);
    assert(m.selection_deleted() == m);
    lemma_splice_offsets(t, m.cursor as int, m.cursor as int, ins);
    crate::utils::text::lemma_encode_single(c);
    crate::utils::text::lemma_encode_scalar_len(c);
    let k = char_index_at(t, m.cursor as int);
    let u = n.text;
    assert(u == t.take(k) + ins + t.skip(k));
    assert(char_index_at(u, n.cursor as int) == k + 1);
    assert(!n.has_selected());
    lemma_nav_positions(u, n.cursor);
    lemma_char_index_at(u, n.cursor as int);
    assert(u.take(k) =~= t.take(k));
    assert(char_offset(u, k) == m.cursor);
    assert(prev_char_pos(u, n.cursor) == m.cursor);
    let p = m.cursor;
    lemma_char_index_at(u, p as int);
    assert(char_index_at(u, p as int) == k);
    assert(splice(u, p as int, n.cursor as int, Seq::empty()) =~= t.take(k) + t.skip(k));
    assert(t =~= t.take(k) + t.skip(k));
}

/// Selecting everything selects the whole text (when there is any).
pub proof fn law_select_all(m: EditModel)
    requires
        m.text.len() > 0,
    ensures
        m.all_selected().selected() == Some(m.text),
        m.all_selected().cursor == m.len(),
{
    let t = m.text;
    lemma_offset_zero_end(t);
    crate::utils::text::lemma_byte_len_ge_len(t);
    lemma_char_index_at(t, 0);
    lemma_char_index_at(t, byte_len(t) as int);
    assert(char_index_at(t, 0) == 0);
    assert(char_index_at(t, byte_len(t) as int) == t.len());
    assert(t.subrange(0, t.len() as int) =~= t);
}

/// Setting a selection on character boundaries makes exactly that text the selected text.
pub proof fn law_set_selection_selects(m: EditModel, start: nat, end: nat)
    requires
        start < end <= m.len(),
        is_boundary(m.text, start as int),
        is_boundary(m.text, end as int),
    ensures
        m.selection_set(start, end).selected() == Some(substring(m.text, start as int, end as int)),
        m.selection_set(end, start).selected() == Some(substring(m.text, start as int, end as int)),
        m.selection_set(start, end).cursor == end,
{
}

/// Deleting the selection removes exactly the selected text and leaves the cursor where it began.
pub proof fn law_delete_selection(m: EditModel)
    requires
        m.has_selected(),
        m.selection_ok(),
    ensures
        m.selection_deleted().text == splice(
            m.text,
            m.selection.unwrap().0 as int,
            m.selection.unwrap().1 as int,
            Seq::empty(),
        ),
        m.selection_deleted().cursor == m.selection.unwrap().0,
        m.selection_deleted().selection is None,
        m.selection_deleted().anchor is None,
{
}

/// In masked mode, word operations act on single characters.
pub proof fn law_masked_words_are_chars(m: EditModel)
    requires
        m.masked,
    ensures
        m.moved_word_left() == m.moved_left(),
        m.moved_word_right() == m.moved_right(),
        m.selected_word_left() == m.selected_left(),
        m.selected_word_right() == m.selected_right(),
        m.word_backspaced() == m.backspaced(),
        m.word_forward_deleted() == m.forward_deleted(),
{
}

/// Word navigation never crosses the cursor the wrong way, and stays on boundaries.
pub proof fn law_word_positions(t: Seq<char>, pos: nat)
    requires
        is_boundary(t, pos as int),
    ensures
        prev_word_pos(t, pos) <= pos <= next_word_pos(t, pos),
        is_boundary(t, prev_word_pos(t, pos) as int),
        is_boundary(t, next_word_pos(t, pos) as int),
{
    lemma_nav_positions(t, pos);
    lemma_offset_zero_end(t);
    if pos >= byte_len(t) {
        let k = char_index_at(t, pos as int);
        lemma_char_index_at(t, pos as int);
        lemma_offset_bound(t, k);
    }
}

/// `String::insert_str`: inserts `text` at byte index `pos`, which must be a character
/// boundary; the insertion reallocates, which panics past `isize::MAX` bytes.
#[verifier::external_body]
fn string_insert_str(s: &mut String, pos: usize, text: &str)
    requires
        is_boundary(old(s)@, pos as int),
        byte_len(old(s)@) + byte_len(text@) <= isize::MAX,
    ensures
        final(s)@ == splice(old(s)@, pos as int, pos as int, text@),
{
    s.insert_str(pos, text)
}

/// `String::replace_range`: replaces the bytes `start..end` (both character boundaries,
/// `start <= end`) with `replacement`; growing the string past `isize::MAX` bytes panics.
#[verifier::external_body]
fn string_replace_range(s: &mut String, start: usize, end: usize, replacement: &str)
    requires
        start <= end,
        is_boundary(old(s)@, start as int),
        is_boundary(old(s)@, end as int),
        fits_after_replace(old(s)@, start as int, end as int, replacement@),
    ensures
        final(s)@ == splice(old(s)@, start as int, end as int, replacement@),
{
    s.replace_range(start..end, replacement)
}

/// `str::get` with a byte range: `Some` exactly when the range is ordered and both
/// ends are character boundaries, and then the slice between them.
#[verifier::external_body]
fn str_get(s: &str, range: Range<usize>) -> (r: Option<&str>)
    ensures
        r is Some <==> substring_exists(s@, range.start as int, range.end as int),
        r matches Some(sub) ==> sub@ == substring(s@, range.start as int, range.end as int),
{
    s.get(range)
}

impl ContentStorage for String {
    open spec fn text(&self) -> Seq<char> {
        self@
    }

    proof fn lemma_default_is_empty(s: Self) {
    }

    fn as_str(&self) -> (r: &str) {
        self.as_str()
    }

    fn set(&mut self, value: &str) {
        *self = value.to_owned();
    }

    fn insert_str(&mut self, pos: usize, text: &str) {
        string_insert_str(self, pos, text);
    }

    fn remove_range(&mut self, range: Range<usize>) {
        proof {
            reveal_strlit("");
            assert(""@ =~= Seq::<char>::empty());
            assert(encode_utf8(""@) =~= Seq::<u8>::empty());
        }
        string_replace_range(self, range.start, range.end, "");
    }

    fn replace_range(&mut self, range: Range<usize>, replacement: &str) {
        string_replace_range(self, range.start, range.end, replacement);
    }
}


/// An insertion leaves the text as it was exactly when it puts back the selected text, or,
/// with nothing selected, inserts nothing.
proof fn lemma_insert_changes(m: EditModel, ins: Seq<char>)
    requires
        m.insert_ok(ins),
    ensures
        (m.inserted(ins).text != m.text) == match m.selected() {
            Some(x) => x != ins,
            None => ins.len() != 0,
        },
{
    let t = m.text;
    let f = m.inserted(ins).text;
    if m.has_selected() {
        let (s, e) = m.selection.unwrap();
        let i = char_index_at(t, s as int);
        let j = char_index_at(t, e as int);
        lemma_char_index_at(t, s as int);
        lemma_char_index_at(t, e as int);
        if j < i {
            lemma_offset_strict(t, j, i);
        }
        let d = t.take(i) + t.skip(j);
        assert(d.take(i) =~= t.take(i));
        assert(char_offset(d, i) == s);
        lemma_char_index_at(d, s as int);
        assert(char_index_at(d, s as int) == i);
        assert(d.skip(i) =~= t.skip(j));
        assert(f =~= t.take(i) + ins + t.skip(j));
        let x = t.subrange(i, j);
        assert(m.selected() == Some(x));
        if f == t {
            assert(ins.len() == j - i);
            assert forall|y: int| 0 <= y < ins.len() implies ins[y] == x[y] by {
                assert(f[i + y] == ins[y]);
            }
            assert(ins =~= x);
        }
        if ins == x {
            assert(f =~= t);
        }
    } else {
        let k = char_index_at(t, m.cursor as int);
        lemma_char_index_at(t, m.cursor as int);
        assert(m.selection_deleted() == m);
        assert(f =~= t.take(k) + ins + t.skip(k));
        if ins.len() == 0 {
            assert(f =~= t);
        } else {
            assert(f.len() != t.len());
        }
        assert(m.selected() is None);
    }
}

} // verus!
