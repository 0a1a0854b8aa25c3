//! Checkbox: a checked state with an optional label
//!
//! Toggled by Space/Enter while focused and by mouse clicks, unless disabled.
use vstd::prelude::*;
use crate::theme::Theme;
use crate::utils::text::str_equal;

verus! {

/// Events emitted by Checkbox
#[derive(Clone, Copy, Debug, PartialEq, Eq, Structural)]
pub enum CheckboxEvent {
    /// Checked state changed
    Change(bool),
}

/// A checkbox as plain values.
pub struct CheckboxModel {
    pub checked: bool,
    pub label: Option<Seq<char>>,
    pub custom_theme: Option<Theme>,
    pub enabled: bool,
}

/// Whether `key` names the Space or Enter key, which toggle.
pub open spec fn is_activation_key(key: Seq<char>) -> bool {
    key == "space"@ || key == "enter"@
}

/// Whether `key` is `space` or `enter`.
pub fn activation_key(key: &str) -> (r: bool)
    ensures
        r == is_activation_key(key@),
{
    str_equal(key, "space") || str_equal(key, "enter")
}

/// Checkbox widget state
pub struct Checkbox {
    checked: bool,
    label: Option<String>,
    custom_theme: Option<Theme>,
    enabled: bool,
}

impl View for Checkbox {
    type V = CheckboxModel;

    closed spec fn view(&self) -> CheckboxModel {
        CheckboxModel {
            checked: self.checked,
            label: match self.label {
                Some(l) => Some(l@),
                None => None,
            },
            custom_theme: self.custom_theme,
            enabled: self.enabled,
        }
    }
}

impl Checkbox {
    /// Create a new checkbox: unchecked, unlabelled and enabled
    pub fn new() -> (r: Self)
        ensures
            r@ == (CheckboxModel { checked: false, label: None, custom_theme: None, enabled: true }),
    {
        Self { checked: false, label: None, custom_theme: None, enabled: true }
    }

    /// Set initial checked state (builder pattern)
    pub fn with_checked(self, value: bool) -> (r: Self)
        ensures
            r@ == (CheckboxModel { checked: value, ..self@ }),
    {
        let mut this = self;
        this.checked = value;
        this
    }

    /// Set label text (builder pattern)
    pub fn label(self, text: &str) -> (r: Self)
        ensures
            r@ == (CheckboxModel { label: Some(text@), ..self@ }),
    {
        let mut this = self;
        this.label = Some(text.to_owned());
        this
    }

    /// Set custom theme (builder pattern)
    pub fn theme(self, theme: Theme) -> (r: Self)
        ensures
            r@ == (CheckboxModel { custom_theme: Some(theme), ..self@ }),
    {
        let mut this = self;
        this.custom_theme = Some(theme);
        this
    }

    /// Set enabled state (builder pattern)
    pub fn with_enabled(self, enabled: bool) -> (r: Self)
        ensures
            r@ == (CheckboxModel { enabled, ..self@ }),
    {
        let mut this = self;
        this.enabled = enabled;
        this
    }

    /// Get current checked state
    pub fn is_checked(&self) -> (r: bool)
        ensures
            r == self@.checked,
    {
        self.checked
    }

    /// Set checked state programmatically; a change is announced.
    pub fn set_checked(&mut self, checked: bool) -> (r: Option<CheckboxEvent>)
        ensures
            final(self)@ == (CheckboxModel { checked, ..old(self)@ }),
            r == (if old(self)@.checked != checked {
                Some(CheckboxEvent::Change(checked))
            } else {
                None
            }),
    {
        if self.checked != checked {
            self.checked = checked;
            Some(CheckboxEvent::Change(checked))
        } else {
            None
        }
    }

    /// Check if the checkbox is enabled
    pub fn is_enabled(&self) -> (r: bool)
        ensures
            r == self@.enabled,
    {
        self.enabled
    }

    /// Set enabled state programmatically
    pub fn set_enabled(&mut self, enabled: bool)
        ensures
            final(self)@ == (CheckboxModel { enabled, ..old(self)@ }),
    {
        self.enabled = enabled;
    }

    /// Set the label text
    pub fn set_label(&mut self, label: &str)
        ensures
            final(self)@ == (CheckboxModel { label: Some(label@), ..old(self)@ }),
    {
        self.label = Some(label.to_owned());
    }

    /// Remove the label
    pub fn clear_label(&mut self)
        ensures
            final(self)@ == (CheckboxModel { label: None, ..old(self)@ }),
    {
        self.label = None;
    }

    /// Flip the checked state and announce the new one.
    pub fn toggle(&mut self) -> (r: CheckboxEvent)
        ensures
            final(self)@ == (CheckboxModel { checked: !old(self)@.checked, ..old(self)@ }),
            r == CheckboxEvent::Change(!old(self)@.checked),
    {
        self.checked = !self.checked;
        CheckboxEvent::Change(self.checked)
    }

    /// A key press while focused (Tab having been handled by focus navigation): Space and
    /// Enter toggle an enabled checkbox; anything else is ignored.
    pub fn key_down(&mut self, key: &str) -> (r: Option<CheckboxEvent>)
        ensures
            old(self)@.enabled && is_activation_key(key@) ==> {
                &&& final(self)@ == (CheckboxModel { checked: !old(self)@.checked, ..old(self)@ })
                &&& r == Some(CheckboxEvent::Change(!old(self)@.checked))
            },
            !(old(self)@.enabled && is_activation_key(key@)) ==> final(self)@ == old(self)@ && r
                is None,
    {
        if !self.enabled {
            return None;
        }
        if activation_key(key) {
            Some(self.toggle())
        } else {
            None
        }
    }

    /// A mouse press on the checkbox: toggles it when enabled.
    pub fn click(&mut self) -> (r: Option<CheckboxEvent>)
        ensures
            old(self)@.enabled ==> {
                &&& final(self)@ == (CheckboxModel { checked: !old(self)@.checked, ..old(self)@ })
                &&& r == Some(CheckboxEvent::Change(!old(self)@.checked))
            },
            !old(self)@.enabled ==> final(self)@ == old(self)@ && r is None,
    {
        if self.enabled {
            Some(self.toggle())
        } else {
            None
        }
    }
}

} // verus!
