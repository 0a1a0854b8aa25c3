//! Collapsible section header
//!
//! A titled header that expands or collapses the content below it. It can also
//! be a static (non-collapsible) section header, set with `.collapsible(false)`.
use vstd::prelude::*;
use crate::theme::Theme;
use crate::utils::text::str_equal;
use crate::widgets::checkbox::{activation_key, is_activation_key};

verus! {

/// Events emitted by Collapsible
#[derive(Clone, Copy, Debug, PartialEq, Eq, Structural)]
pub enum CollapsibleEvent {
    /// Collapsed state changed.
    /// The boolean indicates the new collapsed state: `true` = collapsed, `false` = expanded.
    Change(bool),
}

/// A collapsible section as plain values.
pub struct CollapsibleModel {
    pub title: Seq<char>,
    pub collapsed: bool,
    pub custom_theme: Option<Theme>,
    pub enabled: bool,
    pub collapsible: bool,
}

impl CollapsibleModel {
    /// Whether it reacts to input: it must be collapsible and enabled.
    pub open spec fn interactive(self) -> bool {
        self.collapsible && self.enabled
    }

    pub open spec fn with_collapsed(self, collapsed: bool) -> CollapsibleModel {
        CollapsibleModel { collapsed, ..self }
    }
}

/// Collapsible section widget state
pub struct Collapsible {
    title: String,
    collapsed: bool,
    custom_theme: Option<Theme>,
    enabled: bool,
    collapsible: bool,
}

impl View for Collapsible {
    type V = CollapsibleModel;

    closed spec fn view(&self) -> CollapsibleModel {
        CollapsibleModel {
            title: self.title@,
            collapsed: self.collapsed,
            custom_theme: self.custom_theme,
            enabled: self.enabled,
            collapsible: self.collapsible,
        }
    }
}

impl Collapsible {
    /// Create a new collapsible section: expanded, enabled and collapsible
    pub fn new(title: &str) -> (r: Self)
        ensures
            r@ == (CollapsibleModel {
                title: title@,
                collapsed: false,
                custom_theme: None,
                enabled: true,
                collapsible: true,
            }),
    {
        Self {
            title: title.to_owned(),
            collapsed: false,
            custom_theme: None,
            enabled: true,
            collapsible: true,
        }
    }

    /// Set initial collapsed state (builder pattern)
    pub fn with_collapsed(self, collapsed: bool) -> (r: Self)
        ensures
            r@ == self@.with_collapsed(collapsed),
    {
        let mut this = self;
        this.collapsed = collapsed;
        this
    }

    /// Set custom theme (builder pattern)
    pub fn theme(self, theme: Theme) -> (r: Self)
        ensures
            r@ == (CollapsibleModel { custom_theme: Some(theme), ..self@ }),
    {
        let mut this = self;
        this.custom_theme = Some(theme);
        this
    }

    /// Set enabled state (builder pattern)
    pub fn with_enabled(self, enabled: bool) -> (r: Self)
        ensures
            r@ == (CollapsibleModel { enabled, ..self@ }),
    {
        let mut this = self;
        this.enabled = enabled;
        this
    }

    /// Set whether collapsing is allowed (builder pattern)
    ///
    /// When `false`, the widget acts as a static section header that takes no input.
    pub fn collapsible(self, collapsible: bool) -> (r: Self)
        ensures
            r@ == (CollapsibleModel { collapsible, ..self@ }),
    {
        let mut this = self;
        this.collapsible = collapsible;
        this
    }

    /// The section's title.
    pub fn title(&self) -> (r: &str)
        ensures
            r@ == self@.title,
    {
        self.title.as_str()
    }

    /// Check if currently collapsed
    pub fn is_collapsed(&self) -> (r: bool)
        ensures
            r == self@.collapsed,
    {
        self.collapsed
    }

    /// Set collapsed state programmatically; a change is announced.
    pub fn set_collapsed(&mut self, collapsed: bool) -> (r: Option<CollapsibleEvent>)
        ensures
            final(self)@ == old(self)@.with_collapsed(collapsed),
            r == (if old(self)@.collapsed != collapsed {
                Some(CollapsibleEvent::Change(collapsed))
            } else {
                None
            }),
    {
        if self.collapsed != collapsed {
            self.collapsed = collapsed;
            Some(CollapsibleEvent::Change(collapsed))
        } else {
            None
        }
    }

    /// Toggle collapsed state and announce the new one
    pub fn toggle(&mut self) -> (r: CollapsibleEvent)
        ensures
            final(self)@ == old(self)@.with_collapsed(!old(self)@.collapsed),
            r == CollapsibleEvent::Change(!old(self)@.collapsed),
    {
        self.collapsed = !self.collapsed;
        CollapsibleEvent::Change(self.collapsed)
    }

    /// Check if the collapsible is enabled
    pub fn is_enabled(&self) -> (r: bool)
        ensures
            r == self@.enabled,
    {
        self.enabled
    }

    /// Set enabled state programmatically
    pub fn set_enabled(&mut self, enabled: bool)
        ensures
            final(self)@ == (CollapsibleModel { enabled, ..old(self)@ }),
    {
        self.enabled = enabled;
    }

    /// Check if collapsing is allowed
    pub fn is_collapsible(&self) -> (r: bool)
        ensures
            r == self@.collapsible,
    {
        self.collapsible
    }

    /// Set whether collapsing is allowed programmatically
    pub fn set_collapsible(&mut self, collapsible: bool)
        ensures
            final(self)@ == (CollapsibleModel { collapsible, ..old(self)@ }),
    {
        self.collapsible = collapsible;
    }

    /// A key press on the focused header (Tab having been handled by focus navigation):
    /// Down expands, Up collapses, Space and Enter toggle; a static or disabled header
    /// ignores keys.
    pub fn key_down(&mut self, key: &str) -> (r: Option<CollapsibleEvent>)
        ensures
            !old(self)@.interactive() ==> final(self)@ == old(self)@ && r is None,
            old(self)@.interactive() && key@ == "down"@ ==> final(self)@ == old(self)@.with_collapsed(
                false,
            ) && r == (if old(self)@.collapsed {
                Some(CollapsibleEvent::Change(false))
            } else {
                None
            }),
            old(self)@.interactive() && key@ == "up"@ ==> final(self)@ == old(self)@.with_collapsed(
                true,
            ) && r == (if !old(self)@.collapsed {
                Some(CollapsibleEvent::Change(true))
            } else {
                None
            }),
            old(self)@.interactive() && is_activation_key(key@) ==> final(self)@
                == old(self)@.with_collapsed(!old(self)@.collapsed) && r == Some(
                CollapsibleEvent::Change(!old(self)@.collapsed),
            ),
            old(self)@.interactive() && key@ != "down"@ && key@ != "up"@ && !is_activation_key(
                key@,
            ) ==> final(self)@ == old(self)@ && r is None,
    {
        if !self.collapsible || !self.enabled {
            return None;
        }
        proof {
            reveal_strlit("down");
            reveal_strlit("up");
            reveal_strlit("space");
            reveal_strlit("enter");
            assert("down"@.len() == 4 && "up"@.len() == 2);
            assert("space"@.len() == 5 && "enter"@.len() == 5);
        }
        if str_equal(key, "down") {
            self.set_collapsed(false)
        } else if str_equal(key, "up") {
            self.set_collapsed(true)
        } else if activation_key(key) {
            Some(self.toggle())
        } else {
            None
        }
    }

    /// A mouse press on the header: toggles it when it is collapsible and enabled.
    pub fn click(&mut self) -> (r: Option<CollapsibleEvent>)
        ensures
            old(self)@.interactive() ==> final(self)@ == old(self)@.with_collapsed(
                !old(self)@.collapsed,
            ) && r == Some(CollapsibleEvent::Change(!old(self)@.collapsed)),
            !old(self)@.interactive() ==> final(self)@ == old(self)@ && r is None,
    {
        if self.collapsible && self.enabled {
            Some(self.toggle())
        } else {
            None
        }
    }
}

} // verus!
