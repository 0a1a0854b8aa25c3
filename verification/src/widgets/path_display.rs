//! Shared path display types for file and directory pickers
//!
//! This module contains common types used by both `FilePicker` and
//! `DirectoryPicker` for displaying path information with color highlighting:
//! a text, coloured ranges of it, and an optional explanation.
use vstd::prelude::*;
use crate::utils::text::{
    byte_len, char_offset, is_boundary, lemma_byte_len_concat, lemma_offset_zero_end, str_byte_len,
};

verus! {

/// Controls how validation feedback is displayed in file/directory pickers
#[derive(Clone, Copy, Debug, PartialEq, Eq, Structural)]
pub enum ValidationDisplay {
    /// Show colored path segments and explanation message (default)
    Full,
    /// Show colored path segments only, hide explanation message
    ColorsOnly,
    /// Show explanation message only, no path coloring
    MessageOnly,
    /// Hide all validation feedback (no colors, no message)
    Hidden,
}

impl Default for ValidationDisplay {
    fn default() -> (r: Self)
        ensures
            r == ValidationDisplay::Full,
    {
        ValidationDisplay::Full
    }
}

impl ValidationDisplay {
    /// Whether path segments are coloured by their status.
    pub open spec fn colors(self) -> bool {
        self == ValidationDisplay::Full || self == ValidationDisplay::ColorsOnly
    }

    /// Whether the explanation message is shown.
    pub open spec fn messages(self) -> bool {
        self == ValidationDisplay::Full || self == ValidationDisplay::MessageOnly
    }

    /// Whether path segments are coloured by their status.
    pub fn shows_colors(&self) -> (r: bool)
        ensures
            r == self.colors(),
    {
        matches!(self, ValidationDisplay::Full | ValidationDisplay::ColorsOnly)
    }

    /// Whether the explanation message is shown.
    pub fn shows_message(&self) -> (r: bool)
        ensures
            r == self.messages(),
    {
        matches!(self, ValidationDisplay::Full | ValidationDisplay::MessageOnly)
    }
}

/// A single highlighted segment of a path display
#[derive(Clone, Copy, Debug)]
pub struct PathHighlight {
    pub start: usize,
    pub end: usize,
    pub color: u32,
}

/// A path display as plain values: the text, its coloured byte ranges, and the explanation.
pub struct DisplayModel {
    pub text: Seq<char>,
    pub highlights: Seq<(nat, nat, u32)>,
    pub explanation: Option<(Seq<char>, u32)>,
}

impl DisplayModel {
    pub open spec fn empty() -> DisplayModel {
        DisplayModel { text: Seq::empty(), highlights: Seq::empty(), explanation: None }
    }

    /// `t` appended in `color`; nothing changes when `t` is empty.
    pub open spec fn segment(self, t: Seq<char>, color: u32) -> DisplayModel {
        if t.len() == 0 {
            self
        } else {
            DisplayModel {
                text: self.text + t,
                highlights: self.highlights.push(
                    (byte_len(self.text), byte_len(self.text + t), color),
                ),
                ..self
            }
        }
    }

    /// A separator `/` and `t` appended, together in `color`.
    pub open spec fn path_prefix(self, t: Seq<char>, color: u32) -> DisplayModel {
        let text = self.text + seq!['/'] + t;
        DisplayModel {
            text,
            highlights: self.highlights.push((byte_len(self.text), byte_len(text), color)),
            ..self
        }
    }

    pub open spec fn explained(self, msg: Seq<char>, color: u32) -> DisplayModel {
        DisplayModel { explanation: Some((msg, color)), ..self }
    }

    /// The coloured ranges run in order through the text, each from one character boundary
    /// to another, so the text can be drawn with them.
    pub open spec fn well_formed(self) -> bool {
        &&& forall|i: int|
            0 <= i < self.highlights.len() ==> {
                let h = #[trigger] self.highlights[i];
                &&& h.0 <= h.1 <= byte_len(self.text)
                &&& is_boundary(self.text, h.0 as int)
                &&& is_boundary(self.text, h.1 as int)
            }
        &&& forall|i: int, j: int|
            0 <= i < j < self.highlights.len() ==> #[trigger] self.highlights[i].1
                <= #[trigger] self.highlights[j].0
    }
}

/// Path display information with styled segments and optional explanation
pub struct PathDisplayInfo {
    pub full_text: String,
    pub highlights: Vec<PathHighlight>,
    pub explanation: Option<(String, u32)>,
}

pub open spec fn highlight_view(h: PathHighlight) -> (nat, nat, u32) {
    (h.start as nat, h.end as nat, h.color)
}

impl View for PathDisplayInfo {
    type V = DisplayModel;

    open spec fn view(&self) -> DisplayModel {
        DisplayModel {
            text: self.full_text@,
            highlights: self.highlights@.map_values(|h: PathHighlight| highlight_view(h)),
            explanation: match self.explanation {
                Some(e) => Some((e.0@, e.1)),
                None => None,
            },
        }
    }
}

/// Boundaries of a text stay boundaries when text is appended to it, and its end becomes one.
proof fn lemma_boundaries_extend(a: Seq<char>, b: Seq<char>)
    ensures
        forall|p: int| is_boundary(a, p) ==> #[trigger] is_boundary(a + b, p),
        is_boundary(a + b, byte_len(a) as int),
        is_boundary(a + b, byte_len(a + b) as int),
        byte_len(a) <= byte_len(a + b),
{
    assert forall|p: int| is_boundary(a, p) implies #[trigger] is_boundary(a + b, p) by {
        let k = choose|k: int| 0 <= k <= a.len() && #[trigger] char_offset(a, k) == p;
        assert((a + b).take(k) =~= a.take(k));
        assert(char_offset(a + b, k) == p);
    }
    lemma_offset_zero_end(a);
    lemma_offset_zero_end(a + b);
    assert((a + b).take(a.len() as int) =~= a);
    assert(char_offset(a + b, a.len() as int) == byte_len(a));
    lemma_byte_len_concat(a, b);
}

impl PathDisplayInfo {
    /// Create a new empty path display info
    pub fn new() -> (r: Self)
        ensures
            r@ == DisplayModel::empty(),
            r@.well_formed(),
    {
        let r = Self { full_text: String::new(), highlights: Vec::new(), explanation: None };
        assert(r@.highlights =~= Seq::<(nat, nat, u32)>::empty());
        r
    }

    /// Add a segment of text with the given color
    pub fn add_segment(&mut self, text: &str, color: u32)
        ensures
            final(self)@ == old(self)@.segment(text@, color),
    {
        if !text.is_empty() {
            let start = str_byte_len(self.full_text.as_str());
            self.full_text.append(text);
            let end = str_byte_len(self.full_text.as_str());
            self.highlights.push(PathHighlight { start, end, color });
            assert(self@.highlights =~= old(self)@.highlights.push((start as nat, end as nat, color)));
        }
    }

    /// Add a segment with a leading path separator (/)
    pub fn add_path_prefix(&mut self, text: &str, color: u32)
        ensures
            final(self)@ == old(self)@.path_prefix(text@, color),
    {
        let start = str_byte_len(self.full_text.as_str());
        proof {
            reveal_strlit("/");
        }
        self.full_text.append("/");
        self.full_text.append(text);
        let end = str_byte_len(self.full_text.as_str());
        self.highlights.push(PathHighlight { start, end, color });
        assert(self@.highlights =~= old(self)@.highlights.push((start as nat, end as nat, color)));
        assert(self@.text =~= old(self)@.text + seq!['/'] + text@);
    }

    /// Set the explanation message with color
    pub fn set_explanation(&mut self, msg: &str, color: u32)
        ensures
            final(self)@ == old(self)@.explained(msg@, color),
    {
        self.explanation = Some((msg.to_owned(), color));
    }

    /// Check if the display info is empty
    pub fn is_empty(&self) -> (r: bool)
        ensures
            r == (self@.text.len() == 0),
    {
        self.full_text.as_str().is_empty()
    }
}

impl Default for PathDisplayInfo {
    fn default() -> (r: Self)
        ensures
            r@ == DisplayModel::empty(),
    {
        Self::new()
    }
}

/// Building a display by segments, separated segments and explanations keeps every coloured
/// range on character boundaries of the text, in order and without overlap.
pub proof fn law_display_stays_well_formed(m: DisplayModel, t: Seq<char>, color: u32, msg: Seq<char>)
    requires
        m.well_formed(),
    ensures
        m.segment(t, color).well_formed(),
        m.path_prefix(t, color).well_formed(),
        m.explained(msg, color).well_formed(),
{
    lemma_boundaries_extend(m.text, t);
    let p = m.text + seq!['/'] + t;
    lemma_boundaries_extend(m.text, seq!['/'] + t);
    assert(m.text + (seq!['/'] + t) =~= p);
    let s = m.segment(t, color);
    if t.len() > 0 {
        assert forall|i: int| 0 <= i < s.highlights.len() implies {
            let h = #[trigger] s.highlights[i];
            &&& h.0 <= h.1 <= byte_len(s.text)
            &&& is_boundary(s.text, h.0 as int)
            &&& is_boundary(s.text, h.1 as int)
        } by {
            if i < m.highlights.len() {
                assert(s.highlights[i] == m.highlights[i]);
            }
        }
        assert forall|i: int, j: int|
            0 <= i < j < s.highlights.len() implies #[trigger] s.highlights[i].1
            <= #[trigger] s.highlights[j].0 by {
            if j < m.highlights.len() {
                assert(s.highlights[i] == m.highlights[i]);
                assert(s.highlights[j] == m.highlights[j]);
            } else {
                assert(s.highlights[i] == m.highlights[i]);
            }
        }
    }
    let q = m.path_prefix(t, color);
    assert forall|i: int| 0 <= i < q.highlights.len() implies {
        let h = #[trigger] q.highlights[i];
        &&& h.0 <= h.1 <= byte_len(q.text)
        &&& is_boundary(q.text, h.0 as int)
        &&& is_boundary(q.text, h.1 as int)
    } by {
        if i < m.highlights.len() {
            assert(q.highlights[i] == m.highlights[i]);
        }
    }
    assert forall|i: int, j: int|
        0 <= i < j < q.highlights.len() implies #[trigger] q.highlights[i].1
        <= #[trigger] q.highlights[j].0 by {
        if j < m.highlights.len() {
            assert(q.highlights[i] == m.highlights[i]);
            assert(q.highlights[j] == m.highlights[j]);
        } else {
            assert(q.highlights[i] == m.highlights[i]);
        }
    }
}

} // verus!
