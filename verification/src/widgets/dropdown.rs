//! Dropdown/select: a list of choices with one selected, and an open or closed menu
//!
//! The keyboard moves the selection one step at a time, stopping at either end;
//! picking a choice from the open menu selects it and closes the menu.
use vstd::prelude::*;
use crate::theme::Theme;
use crate::utils::text::{find_position, position_of, texts};

verus! {

/// Events emitted by Dropdown
#[derive(Clone, Debug)]
pub enum DropdownEvent {
    /// Selection changed
    Change(String),
    /// Dropdown opened
    Open,
    /// Dropdown closed
    Close,
}

/// A dropdown as plain values.
pub struct DropdownModel {
    pub choices: Seq<Seq<char>>,
    pub selected_index: nat,
    pub is_open: bool,
    pub custom_theme: Option<Theme>,
}

/// The last valid index of a list of `len` choices (0 when there are none).
pub open spec fn last_index(len: nat) -> int {
    if len == 0 {
        0
    } else {
        len - 1
    }
}

/// `x` clamped into `lo..=hi`.
pub open spec fn clamp(x: int, lo: int, hi: int) -> int {
    if x < lo {
        lo
    } else if x > hi {
        hi
    } else {
        x
    }
}

impl DropdownModel {
    /// The selected choice, or the empty text when the index is out of range.
    pub open spec fn selected(self) -> Seq<char> {
        if self.selected_index < self.choices.len() {
            self.choices[self.selected_index as int]
        } else {
            Seq::empty()
        }
    }

    pub open spec fn with_index(self, i: nat) -> DropdownModel {
        DropdownModel { selected_index: i, ..self }
    }

    pub open spec fn with_open(self, open: bool) -> DropdownModel {
        DropdownModel { is_open: open, ..self }
    }

    /// The index `offset` steps from the selection, kept within the choices.
    pub open spec fn offset_index(self, offset: int) -> nat {
        clamp(self.selected_index + offset, 0, last_index(self.choices.len())) as nat
    }
}

/// Whether an event announces the choice `c`.
pub open spec fn announces(e: DropdownEvent, c: Seq<char>) -> bool {
    e matches DropdownEvent::Change(s) && s@ == c
}

/// Dropdown/Select widget state
pub struct Dropdown {
    choices: Vec<String>,
    selected_index: usize,
    is_open: bool,
    custom_theme: Option<Theme>,
}

impl View for Dropdown {
    type V = DropdownModel;

    closed spec fn view(&self) -> DropdownModel {
        DropdownModel {
            choices: texts(self.choices@),
            selected_index: self.selected_index as nat,
            is_open: self.is_open,
            custom_theme: self.custom_theme,
        }
    }
}

impl Dropdown {
    /// Create a new dropdown: no choices, index 0, closed
    pub fn new() -> (r: Self)
        ensures
            r@ == (DropdownModel {
                choices: Seq::empty(),
                selected_index: 0,
                is_open: false,
                custom_theme: None,
            }),
    {
        let r = Self { choices: Vec::new(), selected_index: 0, is_open: false, custom_theme: None };
        assert(r@.choices =~= Seq::<Seq<char>>::empty());
        r
    }

    /// Set choices (builder pattern)
    pub fn choices(self, choices: Vec<String>) -> (r: Self)
        ensures
            r@ == (DropdownModel { choices: texts(choices@), ..self@ }),
    {
        let mut this = self;
        this.choices = choices;
        this
    }

    /// The index clamped to the last choice.
    fn clamped(&self, index: usize) -> (r: usize)
        ensures
            r == clamp(index as int, 0, last_index(self@.choices.len())),
    {
        let n = self.choices.len();
        let last = if n == 0 {
            0
        } else {
            n - 1
        };
        if index < last {
            index
        } else {
            last
        }
    }

    /// Set selected index (builder pattern); it is clamped to the last choice
    pub fn with_selected_index(self, index: usize) -> (r: Self)
        ensures
            r@ == self@.with_index(clamp(index as int, 0, last_index(self@.choices.len())) as nat),
    {
        let mut this = self;
        let i = this.clamped(index);
        this.selected_index = i;
        this
    }

    /// Set selected value by string (builder pattern); an unknown value changes nothing
    pub fn selected_value(self, value: &str) -> (r: Self)
        ensures
            r@ == (match position_of(self@.choices, value@) {
                Some(i) => self@.with_index(i as nat),
                None => self@,
            }),
    {
        let mut this = self;
        if let Some(index) = find_position(&this.choices, value) {
            this.selected_index = index;
        }
        this
    }

    /// Set custom theme (builder pattern)
    pub fn theme(self, theme: Theme) -> (r: Self)
        ensures
            r@ == (DropdownModel { custom_theme: Some(theme), ..self@ }),
    {
        let mut this = self;
        this.custom_theme = Some(theme);
        this
    }

    /// Get the currently selected value (empty when the index is out of range)
    pub fn selected(&self) -> (r: &str)
        ensures
            r@ == self@.selected(),
    {
        if self.selected_index < self.choices.len() {
            self.choices[self.selected_index].as_str()
        } else {
            proof {
                reveal_strlit("");
            }
            ""
        }
    }

    /// Get the currently selected index
    pub fn selected_index(&self) -> (r: usize)
        ensures
            r == self@.selected_index,
    {
        self.selected_index
    }

    /// Whether the menu is open
    pub fn is_open(&self) -> (r: bool)
        ensures
            r == self@.is_open,
    {
        self.is_open
    }

    /// Move the selection to `index`; a change to an existing choice is announced.
    fn select_index(&mut self, index: usize) -> (r: Option<DropdownEvent>)
        ensures
            final(self)@ == old(self)@.with_index(index as nat),
            r is Some <==> old(self)@.selected_index != index && index < old(self)@.choices.len(),
            r matches Some(e) ==> announces(e, final(self)@.selected()),
    {
        if self.selected_index != index {
            self.selected_index = index;
            if index < self.choices.len() {
                return Some(DropdownEvent::Change(self.choices[index].clone()));
            }
        }
        None
    }

    /// Set selected index programmatically; it is clamped to the last choice, and a
    /// change is announced.
    pub fn set_selected_index(&mut self, index: usize) -> (r: Option<DropdownEvent>)
        ensures
            final(self)@ == old(self)@.with_index(
                clamp(index as int, 0, last_index(old(self)@.choices.len())) as nat,
            ),
            r is Some <==> final(self)@.selected_index != old(self)@.selected_index
                && final(self)@.selected_index < old(self)@.choices.len(),
            r matches Some(e) ==> announces(e, final(self)@.selected()),
    {
        let i = self.clamped(index);
        self.select_index(i)
    }

    /// Move the selection `offset` steps, stopping at the first and last choice; a change
    /// is announced.
    pub fn select_by_offset(&mut self, offset: isize) -> (r: Option<DropdownEvent>)
        requires
            old(self)@.selected_index <= isize::MAX,
            isize::MIN <= old(self)@.selected_index + offset <= isize::MAX,
        ensures
            final(self)@ == old(self)@.with_index(old(self)@.offset_index(offset as int)),
            r is Some <==> final(self)@.selected_index != old(self)@.selected_index
                && final(self)@.selected_index < old(self)@.choices.len(),
            r matches Some(e) ==> announces(e, final(self)@.selected()),
    {
        let sel = self.selected_index;
        let n = self.choices.len();
        let last = if n == 0 {
            0
        } else {
            n - 1
        };
        let new_index = if offset >= 0 {
            let up = offset as usize;
            if sel >= last || up >= last - sel {
                last
            } else {
                sel + up
            }
        } else {
            let down = ((-(offset + 1)) as usize) + 1;
            let lowered = if down >= sel {
                0
            } else {
                sel - down
            };
            if lowered < last {
                lowered
            } else {
                last
            }
        };
        self.select_index(new_index)
    }

    /// Select the previous choice
    pub fn select_previous(&mut self) -> (r: Option<DropdownEvent>)
        requires
            1 <= old(self)@.selected_index <= isize::MAX || old(self)@.selected_index == 0,
        ensures
            final(self)@ == old(self)@.with_index(old(self)@.offset_index(-1)),
            r is Some <==> final(self)@.selected_index != old(self)@.selected_index
                && final(self)@.selected_index < old(self)@.choices.len(),
            r matches Some(e) ==> announces(e, final(self)@.selected()),
    {
        self.select_by_offset(-1)
    }

    /// Select the next choice
    pub fn select_next(&mut self) -> (r: Option<DropdownEvent>)
        requires
            old(self)@.selected_index < isize::MAX,
        ensures
            final(self)@ == old(self)@.with_index(old(self)@.offset_index(1)),
            r is Some <==> final(self)@.selected_index != old(self)@.selected_index
                && final(self)@.selected_index < old(self)@.choices.len(),
            r matches Some(e) ==> announces(e, final(self)@.selected()),
    {
        self.select_by_offset(1)
    }

    /// Close the menu if it is open, announcing it
    pub fn close(&mut self) -> (r: Option<DropdownEvent>)
        ensures
            final(self)@ == old(self)@.with_open(false),
            r is Some <==> old(self)@.is_open,
            r matches Some(e) ==> e is Close,
    {
        if self.is_open {
            self.is_open = false;
            Some(DropdownEvent::Close)
        } else {
            None
        }
    }

    /// Open a closed menu or close an open one, announcing which
    pub fn toggle(&mut self) -> (r: DropdownEvent)
        ensures
            final(self)@ == old(self)@.with_open(!old(self)@.is_open),
            old(self)@.is_open ==> r is Close,
            !old(self)@.is_open ==> r is Open,
    {
        self.is_open = !self.is_open;
        if self.is_open {
            DropdownEvent::Open
        } else {
            DropdownEvent::Close
        }
    }

    /// The menu lost focus: it closes without an announcement.
    pub fn focus_lost(&mut self)
        ensures
            final(self)@ == old(self)@.with_open(false),
    {
        self.is_open = false;
    }

    /// Choice `index` was picked from the open menu: it becomes the selection and the
    /// menu closes; both are announced, in that order.
    pub fn pick(&mut self, index: usize) -> (r: (DropdownEvent, DropdownEvent))
        requires
            index < old(self)@.choices.len(),
        ensures
            final(self)@ == old(self)@.with_index(index as nat).with_open(false),
            announces(r.0, old(self)@.choices[index as int]),
            r.1 is Close,
    {
        self.selected_index = index;
        self.is_open = false;
        (DropdownEvent::Change(self.choices[index].clone()), DropdownEvent::Close)
    }

    /// A press outside the open menu closes it, announcing it.
    pub fn press_outside(&mut self) -> (r: DropdownEvent)
        ensures
            final(self)@ == old(self)@.with_open(false),
            r is Close,
    {
        self.is_open = false;
        DropdownEvent::Close
    }
}

/// Stepping never leaves the list: with at least one choice, the index after any step is
/// a valid choice, and a step back undoes a step forward that moved.
pub proof fn law_steps_stay_in_range(m: DropdownModel, offset: int)
    requires
        m.choices.len() > 0,
    ensures
        m.offset_index(offset) < m.choices.len(),
        m.selected_index + 1 < m.choices.len() ==> m.with_index(m.offset_index(1)).offset_index(-1)
            == m.selected_index,
{
}

} // verus!
