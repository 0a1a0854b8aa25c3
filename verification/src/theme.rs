//! Theme system
//!
//! Provides a `Theme` struct with sensible defaults and builder methods for customization.
//! All colors are `0xRRGGBB` values.
use vstd::prelude::*;

verus! {

/// Minimal color palette for generating a full Theme
///
/// Contains the seed colors from which a full theme is derived.
#[derive(Clone, Copy, Debug)]
pub struct Palette {
    /// Base background color
    pub bg: u32,
    /// Primary text color
    pub text: u32,
    /// Primary accent color (buttons, active states)
    pub primary: u32,
    /// Secondary accent color (focus rings, selections)
    pub accent: u32,
    /// Success/positive status color
    pub success: u32,
    /// Error/negative status color
    pub error: u32,
    /// Warning status color
    pub warning: u32,
}

/// The dark palette.
pub open spec fn dark_palette() -> Palette {
    Palette {
        bg: 0x1e1e1e,
        text: 0xffffff,
        primary: 0x3b82f6,
        accent: 0x0078d4,
        success: 0x4CAF50,
        error: 0xF44336,
        warning: 0xF57C00,

    }
}

/// The light palette.
pub open spec fn light_palette() -> Palette {
    Palette {
        bg: 0xf5f5f5,
        text: 0x1a1a1a,
        primary: 0x3b82f6,
        accent: 0x0078d4,
        success: 0x4CAF50,
        error: 0xF44336,
        warning: 0xF57C00,

    }
}

impl Default for Palette {
    fn default() -> (r: Self)
        ensures
            r == dark_palette(),
    {
        Self::dark()
    }
}

impl Palette {
    /// Create a dark mode palette
    pub fn dark() -> (r: Self)
        ensures
            r == dark_palette(),
    {
        Self {
            bg: 0x1e1e1e,
            text: 0xffffff,
            primary: 0x3b82f6,
            accent: 0x0078d4,
            success: 0x4CAF50,
            error: 0xF44336,
            warning: 0xF57C00,

        }
    }

    /// Create a light mode palette
    pub fn light() -> (r: Self)
        ensures
            r == light_palette(),
    {
        Self {
            bg: 0xf5f5f5,
            text: 0x1a1a1a,
            primary: 0x3b82f6,
            accent: 0x0078d4,
            success: 0x4CAF50,
            error: 0xF44336,
            warning: 0xF57C00,

        }
    }

    /// Set the background color
    pub fn with_bg(self, color: u32) -> (r: Self)
        ensures
            r == (Palette { bg: color, ..self }),
    {
        let mut this = self;
        this.bg = color;
        this
    }

    /// Set the text color
    pub fn with_text(self, color: u32) -> (r: Self)
        ensures
            r == (Palette { text: color, ..self }),
    {
        let mut this = self;
        this.text = color;
        this
    }

    /// Set the primary accent color
    pub fn with_primary(self, color: u32) -> (r: Self)
        ensures
            r == (Palette { primary: color, ..self }),
    {
        let mut this = self;
        this.primary = color;
        this
    }

    /// Set the secondary accent color
    pub fn with_accent(self, color: u32) -> (r: Self)
        ensures
            r == (Palette { accent: color, ..self }),
    {
        let mut this = self;
        this.accent = color;
        this
    }

    /// Set the success color
    pub fn with_success(self, color: u32) -> (r: Self)
        ensures
            r == (Palette { success: color, ..self }),
    {
        let mut this = self;
        this.success = color;
        this
    }

    /// Set the error color
    pub fn with_error(self, color: u32) -> (r: Self)
        ensures
            r == (Palette { error: color, ..self }),
    {
        let mut this = self;
        this.error = color;
        this
    }

    /// Set the warning color
    pub fn with_warning(self, color: u32) -> (r: Self)
        ensures
            r == (Palette { warning: color, ..self }),
    {
        let mut this = self;
        this.warning = color;
        this
    }
}

/// Theme configuration for widgets
///
/// All colors are stored as u32 hex values (0xRRGGBB format).
#[derive(Clone, Copy, Debug)]
pub struct Theme {
    // Background colors
    /// Main application background (darkest)
    pub bg_primary: u32,
    /// Panel/section background (slightly lighter)
    pub bg_secondary: u32,
    /// Input field background
    pub bg_input: u32,
    /// Input field background when hovered
    pub bg_input_hover: u32,
    /// Button/interactive element hover background
    pub bg_hover: u32,
    /// Section header background
    pub bg_section_header: u32,
    /// Section header hover background
    pub bg_section_header_hover: u32,
    /// White background for light-themed elements
    pub bg_white: u32,
    /// Light hover background
    pub bg_light_hover: u32,

    // Text colors
    /// Primary text color
    pub text_primary: u32,
    /// Label text color
    pub text_label: u32,
    /// Section header text color
    pub text_section_header: u32,
    /// Value/content text color
    pub text_value: u32,
    /// Muted/secondary text color
    pub text_muted: u32,
    /// Placeholder text color
    pub text_placeholder: u32,
    /// Dimmed/disabled text color
    pub text_dimmed: u32,
    /// Icon text color
    pub text_icon: u32,
    /// Dark text (on light backgrounds)
    pub text_dark: u32,
    /// Black text
    pub text_black: u32,

    // Border colors
    /// Standard border color
    pub border_default: u32,
    /// Checkbox/radio button border
    pub border_checkbox: u32,
    /// Input field border
    pub border_input: u32,
    /// Menu/dropdown border
    pub border_menu: u32,
    /// Focus/active border
    pub border_focus: u32,
    /// Focus border for colored backgrounds (e.g., primary buttons)
    /// Should contrast with primary/accent colored elements
    pub border_focus_on_color: u32,
    /// Error border
    pub border_error: u32,

    // Accent colors
    /// Primary accent color (buttons, checkboxes)
    pub primary: u32,
    /// Primary hover state
    pub primary_hover: u32,
    /// Primary active/pressed state
    pub primary_active: u32,
    /// Accent color (focus rings, selections)
    pub accent: u32,

    // Status colors
    /// Success/positive color (green)
    pub success: u32,
    /// Error/negative color (red)
    pub error: u32,
    /// Warning color (orange)
    pub warning: u32,
    /// Validation error text
    pub error_text: u32,

    // Tooltip colors
    /// Tooltip background
    pub tooltip_bg: u32,
    /// Tooltip border
    pub tooltip_border: u32,
    /// Tooltip text
    pub tooltip_text: u32,

    // Selection color (for text selection)
    pub selection: u32,

    // Button disabled state
    /// Disabled button background
    pub disabled_bg: u32,
    /// Disabled button text
    pub disabled_text: u32,

    // Secondary button colors
    /// Secondary button background
    pub secondary_bg: u32,
    /// Secondary button hover background
    pub secondary_bg_hover: u32,
    /// Secondary button active background
    pub secondary_bg_active: u32,
    /// Secondary button border
    pub secondary_border: u32,

    // Tab colors
    /// Tab hover background
    pub bg_tab_hover: u32,
    /// Active tab border
    pub border_tab_active: u32,

    // Delete/remove button colors
    /// Delete button background
    pub delete_bg: u32,
    /// Delete button hover background
    pub delete_bg_hover: u32,

    // Path display
    /// Path display hover background
    pub bg_path_hover: u32,
}

/// The dark theme.
pub open spec fn dark_theme() -> Theme {
    Theme {
        // Background colors
        bg_primary: 0x1e1e1e,
        bg_secondary: 0x252525,
        bg_input: 0x2a2a2a,
        bg_input_hover: 0x3a3a3a,
        bg_hover: 0x4a4a4a,
        bg_section_header: 0x363636,
        bg_section_header_hover: 0x404040,
        bg_white: 0xffffff,
        bg_light_hover: 0xf0f0f0,

        // Text colors
        text_primary: 0xffffff,
        text_label: 0xeeeeee,
        text_section_header: 0xdddddd,
        text_value: 0xcccccc,
        text_muted: 0xaaaaaa,
        text_placeholder: 0x999999,
        text_dimmed: 0x888888,
        text_icon: 0x666666,
        text_dark: 0x333333,
        text_black: 0x000000,

        // Border colors
        border_default: 0x444444,
        border_checkbox: 0x666666,
        border_input: 0x999999,
        border_menu: 0xcccccc,
        border_focus: 0x0078d4,
        border_focus_on_color: 0xffffff, // White for contrast on colored backgrounds
        border_error: 0x662222,

        // Accent colors
        primary: 0x3b82f6,
        primary_hover: 0x2563eb,
        primary_active: 0x1d4ed8,
        accent: 0x0078d4,

        // Status colors
        success: 0x4CAF50,
        error: 0xF44336,
        warning: 0xF57C00,
        error_text: 0xFF6B6B,

        // Tooltip colors
        tooltip_bg: 0x2a2a2a,
        tooltip_border: 0x444444,
        tooltip_text: 0xeeeeee,

        // Selection color (dark blue for contrast with white text)
        selection: 0x264F78,

        // Button disabled state
        disabled_bg: 0x6b7280,
        disabled_text: 0x9ca3af,

        // Secondary button colors
        secondary_bg: 0x374151,
        secondary_bg_hover: 0x4b5563,
        secondary_bg_active: 0x1f2937,
        secondary_border: 0x6b7280,

        // Tab colors
        bg_tab_hover: 0x323232,
        border_tab_active: 0x007acc,

        // Delete/remove button colors
        delete_bg: 0x4a3a3a,
        delete_bg_hover: 0x5a4a4a,

        // Path display
        bg_path_hover: 0x333333,

    }
}

/// The light theme.
pub open spec fn light_theme() -> Theme {
    Theme {
        // Background colors
        bg_primary: 0xf5f5f5,
        bg_secondary: 0xffffff,
        bg_input: 0xffffff,
        bg_input_hover: 0xf0f0f0,
        bg_hover: 0xe0e0e0,
        bg_section_header: 0xeeeeee,
        bg_section_header_hover: 0xe5e5e5,
        bg_white: 0xffffff,
        bg_light_hover: 0xf5f5f5,

        // Text colors
        text_primary: 0x1a1a1a,
        text_label: 0x333333,
        text_section_header: 0x444444,
        text_value: 0x555555,
        text_muted: 0x777777,
        text_placeholder: 0x999999,
        text_dimmed: 0xaaaaaa,
        text_icon: 0x888888,
        text_dark: 0x333333,
        text_black: 0x000000,

        // Border colors
        border_default: 0xcccccc,
        border_checkbox: 0xaaaaaa,
        border_input: 0x444444,
        border_menu: 0xdddddd,
        border_focus: 0x0078d4,
        border_focus_on_color: 0xffffff, // White for contrast on colored backgrounds
        border_error: 0xffcccc,

        // Accent colors
        primary: 0x3b82f6,
        primary_hover: 0x2563eb,
        primary_active: 0x1d4ed8,
        accent: 0x0078d4,

        // Status colors
        success: 0x4CAF50,
        error: 0xF44336,
        warning: 0xF57C00,
        error_text: 0xdc3545,

        // Tooltip colors
        tooltip_bg: 0xffffff,
        tooltip_border: 0xaaaaaa,
        tooltip_text: 0x333333,

        // Selection color
        selection: 0xADD6FF,

        // Button disabled state
        disabled_bg: 0xd1d5db,
        disabled_text: 0x9ca3af,

        // Secondary button colors
        secondary_bg: 0xe5e7eb,
        secondary_bg_hover: 0xd1d5db,
        secondary_bg_active: 0xf3f4f6,
        secondary_border: 0x9ca3af,

        // Tab colors
        bg_tab_hover: 0xe5e5e5,
        border_tab_active: 0x0078d4,

        // Delete/remove button colors
        delete_bg: 0xfee2e2,
        delete_bg_hover: 0xfecaca,

        // Path display
        bg_path_hover: 0xf5f5f5,

    }
}

impl Default for Theme {
    fn default() -> (r: Self)
        ensures
            r == dark_theme(),
    {
        Self::dark()
    }
}

impl Theme {
    /// Create a dark theme (default)
    pub fn dark() -> (r: Self)
        ensures
            r == dark_theme(),
    {
        Self {
            // Background colors
            bg_primary: 0x1e1e1e,
            bg_secondary: 0x252525,
            bg_input: 0x2a2a2a,
            bg_input_hover: 0x3a3a3a,
            bg_hover: 0x4a4a4a,
            bg_section_header: 0x363636,
            bg_section_header_hover: 0x404040,
            bg_white: 0xffffff,
            bg_light_hover: 0xf0f0f0,

            // Text colors
            text_primary: 0xffffff,
            text_label: 0xeeeeee,
            text_section_header: 0xdddddd,
            text_value: 0xcccccc,
            text_muted: 0xaaaaaa,
            text_placeholder: 0x999999,
            text_dimmed: 0x888888,
            text_icon: 0x666666,
            text_dark: 0x333333,
            text_black: 0x000000,

            // Border colors
            border_default: 0x444444,
            border_checkbox: 0x666666,
            border_input: 0x999999,
            border_menu: 0xcccccc,
            border_focus: 0x0078d4,
            border_focus_on_color: 0xffffff, // White for contrast on colored backgrounds
            border_error: 0x662222,

            // Accent colors
            primary: 0x3b82f6,
            primary_hover: 0x2563eb,
            primary_active: 0x1d4ed8,
            accent: 0x0078d4,

            // Status colors
            success: 0x4CAF50,
            error: 0xF44336,
            warning: 0xF57C00,
            error_text: 0xFF6B6B,

            // Tooltip colors
            tooltip_bg: 0x2a2a2a,
            tooltip_border: 0x444444,
            tooltip_text: 0xeeeeee,

            // Selection color (dark blue for contrast with white text)
            selection: 0x264F78,

            // Button disabled state
            disabled_bg: 0x6b7280,
            disabled_text: 0x9ca3af,

            // Secondary button colors
            secondary_bg: 0x374151,
            secondary_bg_hover: 0x4b5563,
            secondary_bg_active: 0x1f2937,
            secondary_border: 0x6b7280,

            // Tab colors
            bg_tab_hover: 0x323232,
            border_tab_active: 0x007acc,

            // Delete/remove button colors
            delete_bg: 0x4a3a3a,
            delete_bg_hover: 0x5a4a4a,

            // Path display
            bg_path_hover: 0x333333,

        }
    }

    /// Create a light theme
    pub fn light() -> (r: Self)
        ensures
            r == light_theme(),
    {
        Self {
            // Background colors
            bg_primary: 0xf5f5f5,
            bg_secondary: 0xffffff,
            bg_input: 0xffffff,
            bg_input_hover: 0xf0f0f0,
            bg_hover: 0xe0e0e0,
            bg_section_header: 0xeeeeee,
            bg_section_header_hover: 0xe5e5e5,
            bg_white: 0xffffff,
            bg_light_hover: 0xf5f5f5,

            // Text colors
            text_primary: 0x1a1a1a,
            text_label: 0x333333,
            text_section_header: 0x444444,
            text_value: 0x555555,
            text_muted: 0x777777,
            text_placeholder: 0x999999,
            text_dimmed: 0xaaaaaa,
            text_icon: 0x888888,
            text_dark: 0x333333,
            text_black: 0x000000,

            // Border colors
            border_default: 0xcccccc,
            border_checkbox: 0xaaaaaa,
            border_input: 0x444444,
            border_menu: 0xdddddd,
            border_focus: 0x0078d4,
            border_focus_on_color: 0xffffff, // White for contrast on colored backgrounds
            border_error: 0xffcccc,

            // Accent colors
            primary: 0x3b82f6,
            primary_hover: 0x2563eb,
            primary_active: 0x1d4ed8,
            accent: 0x0078d4,

            // Status colors
            success: 0x4CAF50,
            error: 0xF44336,
            warning: 0xF57C00,
            error_text: 0xdc3545,

            // Tooltip colors
            tooltip_bg: 0xffffff,
            tooltip_border: 0xaaaaaa,
            tooltip_text: 0x333333,

            // Selection color
            selection: 0xADD6FF,

            // Button disabled state
            disabled_bg: 0xd1d5db,
            disabled_text: 0x9ca3af,

            // Secondary button colors
            secondary_bg: 0xe5e7eb,
            secondary_bg_hover: 0xd1d5db,
            secondary_bg_active: 0xf3f4f6,
            secondary_border: 0x9ca3af,

            // Tab colors
            bg_tab_hover: 0xe5e5e5,
            border_tab_active: 0x0078d4,

            // Delete/remove button colors
            delete_bg: 0xfee2e2,
            delete_bg_hover: 0xfecaca,

            // Path display
            bg_path_hover: 0xf5f5f5,

        }
    }

    /// Set the accent color
    pub fn with_accent(self, color: u32) -> (r: Self)
        ensures
            r == (Theme { accent: color, ..self }),
    {
        let mut this = self;
        this.accent = color;
        this
    }

    /// Set the primary color
    pub fn with_primary(self, color: u32) -> (r: Self)
        ensures
            r == (Theme { primary: color, ..self }),
    {
        let mut this = self;
        this.primary = color;
        this
    }

    /// Set the primary hover color
    pub fn with_primary_hover(self, color: u32) -> (r: Self)
        ensures
            r == (Theme { primary_hover: color, ..self }),
    {
        let mut this = self;
        this.primary_hover = color;
        this
    }

    /// Set the focus border color
    pub fn with_border_focus(self, color: u32) -> (r: Self)
        ensures
            r == (Theme { border_focus: color, ..self }),
    {
        let mut this = self;
        this.border_focus = color;
        this
    }

    /// Set the focus border color for colored backgrounds
    pub fn with_border_focus_on_color(self, color: u32) -> (r: Self)
        ensures
            r == (Theme { border_focus_on_color: color, ..self }),
    {
        let mut this = self;
        this.border_focus_on_color = color;
        this
    }

    /// Set the success color
    pub fn with_success(self, color: u32) -> (r: Self)
        ensures
            r == (Theme { success: color, ..self }),
    {
        let mut this = self;
        this.success = color;
        this
    }

    /// Set the error color
    pub fn with_error(self, color: u32) -> (r: Self)
        ensures
            r == (Theme { error: color, ..self }),
    {
        let mut this = self;
        this.error = color;
        this
    }

    /// Set the warning color
    pub fn with_warning(self, color: u32) -> (r: Self)
        ensures
            r == (Theme { warning: color, ..self }),
    {
        let mut this = self;
        this.warning = color;
        this
    }

    /// Set the primary background color
    pub fn with_bg_primary(self, color: u32) -> (r: Self)
        ensures
            r == (Theme { bg_primary: color, ..self }),
    {
        let mut this = self;
        this.bg_primary = color;
        this
    }

    /// Set the input background color
    pub fn with_bg_input(self, color: u32) -> (r: Self)
        ensures
            r == (Theme { bg_input: color, ..self }),
    {
        let mut this = self;
        this.bg_input = color;
        this
    }

    /// Set the primary text color
    pub fn with_text_primary(self, color: u32) -> (r: Self)
        ensures
            r == (Theme { text_primary: color, ..self }),
    {
        let mut this = self;
        this.text_primary = color;
        this
    }

    /// Set the secondary background color
    pub fn with_bg_secondary(self, color: u32) -> (r: Self)
        ensures
            r == (Theme { bg_secondary: color, ..self }),
    {
        let mut this = self;
        this.bg_secondary = color;
        this
    }

    /// Set the input hover background color
    pub fn with_bg_input_hover(self, color: u32) -> (r: Self)
        ensures
            r == (Theme { bg_input_hover: color, ..self }),
    {
        let mut this = self;
        this.bg_input_hover = color;
        this
    }

    /// Set the hover background color
    pub fn with_bg_hover(self, color: u32) -> (r: Self)
        ensures
            r == (Theme { bg_hover: color, ..self }),
    {
        let mut this = self;
        this.bg_hover = color;
        this
    }

    /// Set the section header background color
    pub fn with_bg_section_header(self, color: u32) -> (r: Self)
        ensures
            r == (Theme { bg_section_header: color, ..self }),
    {
        let mut this = self;
        this.bg_section_header = color;
        this
    }

    /// Set the section header hover background color
    pub fn with_bg_section_header_hover(self, color: u32) -> (r: Self)
        ensures
            r == (Theme { bg_section_header_hover: color, ..self }),
    {
        let mut this = self;
        this.bg_section_header_hover = color;
        this
    }

    /// Set the white background color
    pub fn with_bg_white(self, color: u32) -> (r: Self)
        ensures
            r == (Theme { bg_white: color, ..self }),
    {
        let mut this = self;
        this.bg_white = color;
        this
    }

    /// Set the light hover background color
    pub fn with_bg_light_hover(self, color: u32) -> (r: Self)
        ensures
            r == (Theme { bg_light_hover: color, ..self }),
    {
        let mut this = self;
        this.bg_light_hover = color;
        this
    }

    /// Set the label text color
    pub fn with_text_label(self, color: u32) -> (r: Self)
        ensures
            r == (Theme { text_label: color, ..self }),
    {
        let mut this = self;
        this.text_label = color;
        this
    }

    /// Set the section header text color
    pub fn with_text_section_header(self, color: u32) -> (r: Self)
        ensures
            r == (Theme { text_section_header: color, ..self }),
    {
        let mut this = self;
        this.text_section_header = color;
        this
    }

    /// Set the value text color
    pub fn with_text_value(self, color: u32) -> (r: Self)
        ensures
            r == (Theme { text_value: color, ..self }),
    {
        let mut this = self;
        this.text_value = color;
        this
    }

    /// Set the muted text color
    pub fn with_text_muted(self, color: u32) -> (r: Self)
        ensures
            r == (Theme { text_muted: color, ..self }),
    {
        let mut this = self;
        this.text_muted = color;
        this
    }

    /// Set the placeholder text color
    pub fn with_text_placeholder(self, color: u32) -> (r: Self)
        ensures
            r == (Theme { text_placeholder: color, ..self }),
    {
        let mut this = self;
        this.text_placeholder = color;
        this
    }

    /// Set the dimmed text color
    pub fn with_text_dimmed(self, color: u32) -> (r: Self)
        ensures
            r == (Theme { text_dimmed: color, ..self }),
    {
        let mut this = self;
        this.text_dimmed = color;
        this
    }

    /// Set the icon text color
    pub fn with_text_icon(self, color: u32) -> (r: Self)
        ensures
            r == (Theme { text_icon: color, ..self }),
    {
        let mut this = self;
        this.text_icon = color;
        this
    }

    /// Set the dark text color
    pub fn with_text_dark(self, color: u32) -> (r: Self)
        ensures
            r == (Theme { text_dark: color, ..self }),
    {
        let mut this = self;
        this.text_dark = color;
        this
    }

    /// Set the black text color
    pub fn with_text_black(self, color: u32) -> (r: Self)
        ensures
            r == (Theme { text_black: color, ..self }),
    {
        let mut this = self;
        this.text_black = color;
        this
    }

    /// Set the default border color
    pub fn with_border_default(self, color: u32) -> (r: Self)
        ensures
            r == (Theme { border_default: color, ..self }),
    {
        let mut this = self;
        this.border_default = color;
        this
    }

    /// Set the checkbox border color
    pub fn with_border_checkbox(self, color: u32) -> (r: Self)
        ensures
            r == (Theme { border_checkbox: color, ..self }),
    {
        let mut this = self;
        this.border_checkbox = color;
        this
    }

    /// Set the input border color
    pub fn with_border_input(self, color: u32) -> (r: Self)
        ensures
            r == (Theme { border_input: color, ..self }),
    {
        let mut this = self;
        this.border_input = color;
        this
    }

    /// Set the menu border color
    pub fn with_border_menu(self, color: u32) -> (r: Self)
        ensures
            r == (Theme { border_menu: color, ..self }),
    {
        let mut this = self;
        this.border_menu = color;
        this
    }

    /// Set the error border color
    pub fn with_border_error(self, color: u32) -> (r: Self)
        ensures
            r == (Theme { border_error: color, ..self }),
    {
        let mut this = self;
        this.border_error = color;
        this
    }

    /// Set the primary active color
    pub fn with_primary_active(self, color: u32) -> (r: Self)
        ensures
            r == (Theme { primary_active: color, ..self }),
    {
        let mut this = self;
        this.primary_active = color;
        this
    }

    /// Set the error text color
    pub fn with_error_text(self, color: u32) -> (r: Self)
        ensures
            r == (Theme { error_text: color, ..self }),
    {
        let mut this = self;
        this.error_text = color;
        this
    }

    /// Set the tooltip background color
    pub fn with_tooltip_bg(self, color: u32) -> (r: Self)
        ensures
            r == (Theme { tooltip_bg: color, ..self }),
    {
        let mut this = self;
        this.tooltip_bg = color;
        this
    }

    /// Set the tooltip border color
    pub fn with_tooltip_border(self, color: u32) -> (r: Self)
        ensures
            r == (Theme { tooltip_border: color, ..self }),
    {
        let mut this = self;
        this.tooltip_border = color;
        this
    }

    /// Set the tooltip text color
    pub fn with_tooltip_text(self, color: u32) -> (r: Self)
        ensures
            r == (Theme { tooltip_text: color, ..self }),
    {
        let mut this = self;
        this.tooltip_text = color;
        this
    }

    /// Set the selection highlight color
    pub fn with_selection(self, color: u32) -> (r: Self)
        ensures
            r == (Theme { selection: color, ..self }),
    {
        let mut this = self;
        this.selection = color;
        this
    }

    /// Set the disabled button background color
    pub fn with_disabled_bg(self, color: u32) -> (r: Self)
        ensures
            r == (Theme { disabled_bg: color, ..self }),
    {
        let mut this = self;
        this.disabled_bg = color;
        this
    }

    /// Set the disabled button text color
    pub fn with_disabled_text(self, color: u32) -> (r: Self)
        ensures
            r == (Theme { disabled_text: color, ..self }),
    {
        let mut this = self;
        this.disabled_text = color;
        this
    }

    /// Set the secondary button background color
    pub fn with_secondary_bg(self, color: u32) -> (r: Self)
        ensures
            r == (Theme { secondary_bg: color, ..self }),
    {
        let mut this = self;
        this.secondary_bg = color;
        this
    }

    /// Set the secondary button hover background color
    pub fn with_secondary_bg_hover(self, color: u32) -> (r: Self)
        ensures
            r == (Theme { secondary_bg_hover: color, ..self }),
    {
        let mut this = self;
        this.secondary_bg_hover = color;
        this
    }

    /// Set the secondary button active background color
    pub fn with_secondary_bg_active(self, color: u32) -> (r: Self)
        ensures
            r == (Theme { secondary_bg_active: color, ..self }),
    {
        let mut this = self;
        this.secondary_bg_active = color;
        this
    }

    /// Set the secondary button border color
    pub fn with_secondary_border(self, color: u32) -> (r: Self)
        ensures
            r == (Theme { secondary_border: color, ..self }),
    {
        let mut this = self;
        this.secondary_border = color;
        this
    }

    /// Set the tab hover background color
    pub fn with_bg_tab_hover(self, color: u32) -> (r: Self)
        ensures
            r == (Theme { bg_tab_hover: color, ..self }),
    {
        let mut this = self;
        this.bg_tab_hover = color;
        this
    }

    /// Set the active tab border color
    pub fn with_border_tab_active(self, color: u32) -> (r: Self)
        ensures
            r == (Theme { border_tab_active: color, ..self }),
    {
        let mut this = self;
        this.border_tab_active = color;
        this
    }

    /// Set the delete button background color
    pub fn with_delete_bg(self, color: u32) -> (r: Self)
        ensures
            r == (Theme { delete_bg: color, ..self }),
    {
        let mut this = self;
        this.delete_bg = color;
        this
    }

    /// Set the delete button hover background color
    pub fn with_delete_bg_hover(self, color: u32) -> (r: Self)
        ensures
            r == (Theme { delete_bg_hover: color, ..self }),
    {
        let mut this = self;
        this.delete_bg_hover = color;
        this
    }

    /// Set the path display hover background color
    pub fn with_bg_path_hover(self, color: u32) -> (r: Self)
        ensures
            r == (Theme { bg_path_hover: color, ..self }),
    {
        let mut this = self;
        this.bg_path_hover = color;
        this
    }
}

/// Get the theme set for the whole application (`global`), falling back to the dark
/// theme if none is set
pub fn get_theme(global: Option<&Theme>) -> (r: Theme)
    ensures
        global matches Some(t) ==> r == *t,
        global is None ==> r == dark_theme(),
{
    match global {
        Some(t) => *t,
        None => Theme::dark(),
    }
}

/// The theme a widget uses: its own `custom` theme if it has one, otherwise the
/// application's (`global`), otherwise the dark theme
pub fn get_theme_or(global: Option<&Theme>, custom: Option<&Theme>) -> (r: Theme)
    ensures
        custom matches Some(t) ==> r == *t,
        custom is None ==> (global matches Some(g) ==> r == *g),
        custom is None && global is None ==> r == dark_theme(),
{
    match custom {
        Some(t) => *t,
        None => get_theme(global),
    }
}

} // verus!
