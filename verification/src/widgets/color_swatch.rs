//! Color swatch: a colour value edited as hex text or with a picker
//!
//! The value is kept as `#RRGGBB` (or `#RRGGBBAA` when alpha is enabled and the
//! colour is not opaque); text typed into the field is read as hex or as a CSS
//! colour name. (The picker's floating-point HSL/HSV coordinates live with the
//! UI code, which derives them from the RGB value kept here.)
use vstd::prelude::*;
use crate::theme::Theme;
use crate::utils::color::{
    color_alpha_reading, color_reading, hex2, named_color_spec, parse_color, parse_color_alpha,
    rgb_from_hex_spec, rgb_hex_slices_ok, rgba_from_hex_spec, rgba_hex_slices_ok, hex_text, Rgb,
    Rgba,
};

verus! {

/// Events emitted by ColorSwatch
#[derive(Clone, Debug)]
pub enum ColorSwatchEvent {
    /// Color value changed
    Change(String),
}

/// The value text for a colour: `#RRGGBBAA` when alpha is enabled and the colour is not
/// opaque, `#RRGGBB` otherwise (upper-case digits).
pub open spec fn swatch_value(c: Rgb, alpha: u8, with_alpha: bool) -> Seq<char> {
    if with_alpha && alpha != 255 {
        seq!['#'] + hex2(c.r) + hex2(c.g) + hex2(c.b) + hex2(alpha)
    } else {
        seq!['#'] + hex2(c.r) + hex2(c.g) + hex2(c.b)
    }
}

/// The channels of a colour packed as `0xRRGGBBAA`.
pub open spec fn packed(r: u8, g: u8, b: u8, a: u8) -> u32 {
    (r * 0x1000000 + g * 0x10000 + b * 0x100 + a) as u32
}

/// A colour swatch as plain values.
pub struct ColorSwatchModel {
    pub value: Seq<char>,
    pub placeholder: Seq<char>,
    pub with_alpha: bool,
    pub enabled: bool,
    pub custom_theme: Option<Theme>,
    pub is_picker_open: bool,
    pub current_rgb: Rgb,
    pub current_alpha: u8,
    pub original_value: Seq<char>,
    pub needs_input_sync: bool,
    pub input_is_valid: bool,
}

impl ColorSwatchModel {
    /// The colour `c` with alpha `a` taken as the current one, and the value written for it.
    pub open spec fn showing(self, c: Rgb, a: u8) -> ColorSwatchModel {
        ColorSwatchModel {
            current_rgb: c,
            current_alpha: a,
            value: swatch_value(c, a, self.with_alpha),
            ..self
        }
    }
}

/// Color swatch widget state
pub struct ColorSwatch {
    value: String,
    placeholder: String,
    with_alpha: bool,
    enabled: bool,
    custom_theme: Option<Theme>,
    is_picker_open: bool,
    current_rgb: Rgb,
    current_alpha: u8,
    original_value: String,
    needs_input_sync: bool,
    input_is_valid: bool,
}

impl View for ColorSwatch {
    type V = ColorSwatchModel;

    closed spec fn view(&self) -> ColorSwatchModel {
        ColorSwatchModel {
            value: self.value@,
            placeholder: self.placeholder@,
            with_alpha: self.with_alpha,
            enabled: self.enabled,
            custom_theme: self.custom_theme,
            is_picker_open: self.is_picker_open,
            current_rgb: self.current_rgb,
            current_alpha: self.current_alpha,
            original_value: self.original_value@,
            needs_input_sync: self.needs_input_sync,
            input_is_valid: self.input_is_valid,
        }
    }
}

/// The value text for a colour.
fn format_value(c: Rgb, alpha: u8, with_alpha: bool) -> (r: String)
    ensures
        r@ == swatch_value(c, alpha, with_alpha),
{
    if with_alpha && alpha != 255 {
        Rgba { r: c.r, g: c.g, b: c.b, a: alpha }.to_hex()
    } else {
        c.to_hex()
    }
}

/// A new string `#000000`.
fn black_hex() -> (r: String)
    ensures
        r@ == swatch_value(Rgb { r: 0, g: 0, b: 0 }, 255, false),
{
    format_value(Rgb { r: 0, g: 0, b: 0 }, 255, false)
}

impl ColorSwatch {
    /// Create a new color swatch: opaque black, `#000000`
    pub fn new() -> (r: Self)
        ensures
            r@ == (ColorSwatchModel {
                value: swatch_value(Rgb { r: 0, g: 0, b: 0 }, 255, false),
                placeholder: swatch_value(Rgb { r: 0, g: 0, b: 0 }, 255, false),
                with_alpha: false,
                enabled: true,
                custom_theme: None,
                is_picker_open: false,
                current_rgb: Rgb { r: 0, g: 0, b: 0 },
                current_alpha: 255,
                original_value: swatch_value(Rgb { r: 0, g: 0, b: 0 }, 255, false),
                needs_input_sync: false,
                input_is_valid: true,
            }),
    {
        Self {
            value: black_hex(),
            placeholder: black_hex(),
            with_alpha: false,
            enabled: true,
            custom_theme: None,
            is_picker_open: false,
            current_rgb: Rgb::new(0, 0, 0),
            current_alpha: 255,
            original_value: black_hex(),
            needs_input_sync: false,
            input_is_valid: true,
        }
    }

    /// Set initial value (builder pattern): hex colors (#RGB, #RRGGBB, #RRGGBBAA) or CSS
    /// named colors; text that is neither changes nothing
    pub fn with_value(self, color: &str) -> (r: Self)
        requires
            rgba_hex_slices_ok(hex_text(color@)),
        ensures
            color_alpha_reading(color@) matches Some(c) ==> r@ == (ColorSwatchModel {
                needs_input_sync: true,
                ..self@.showing(Rgb { r: c.r, g: c.g, b: c.b }, c.a)
            }),
            color_alpha_reading(color@) is None ==> r@ == self@,
    {
        let mut this = self;
        if let Some(rgba) = parse_color_alpha(color) {
            this.current_rgb = Rgb::new(rgba.r, rgba.g, rgba.b);
            this.current_alpha = rgba.a;
            this.value = format_value(this.current_rgb, rgba.a, this.with_alpha);
            this.needs_input_sync = true;
        }
        this
    }

    /// Set placeholder text (builder pattern)
    pub fn placeholder(self, text: &str) -> (r: Self)
        ensures
            r@ == (ColorSwatchModel { placeholder: text@, ..self@ }),
    {
        let mut this = self;
        this.placeholder = text.to_owned();
        this
    }

    /// Enable or disable alpha channel support (builder pattern)
    pub fn with_alpha(self, enabled: bool) -> (r: Self)
        ensures
            r@ == (ColorSwatchModel { with_alpha: enabled, ..self@ }),
    {
        let mut this = self;
        this.with_alpha = enabled;
        this
    }

    /// Set enabled state (builder pattern)
    pub fn with_enabled(self, enabled: bool) -> (r: Self)
        ensures
            r@ == (ColorSwatchModel { enabled, ..self@ }),
    {
        let mut this = self;
        this.enabled = enabled;
        this
    }

    /// Set custom theme (builder pattern)
    pub fn theme(self, theme: Theme) -> (r: Self)
        ensures
            r@ == (ColorSwatchModel { custom_theme: Some(theme), ..self@ }),
    {
        let mut this = self;
        this.custom_theme = Some(theme);
        this
    }

    /// Get the current hex value
    pub fn value(&self) -> (r: &str)
        ensures
            r@ == self@.value,
    {
        self.value.as_str()
    }

    /// Get current RGB value
    pub fn rgb(&self) -> (r: Rgb)
        ensures
            r == self@.current_rgb,
    {
        self.current_rgb
    }

    /// Get current alpha value (0-255)
    pub fn alpha(&self) -> (r: u8)
        ensures
            r == self@.current_alpha,
    {
        self.current_alpha
    }

    /// Check if the widget is enabled
    pub fn is_enabled(&self) -> (r: bool)
        ensures
            r == self@.enabled,
    {
        self.enabled
    }

    /// Set enabled state programmatically
    pub fn set_enabled(&mut self, enabled: bool)
        ensures
            final(self)@ == (ColorSwatchModel { enabled, ..old(self)@ }),
    {
        self.enabled = enabled;
    }

    /// Set value programmatically; the value (changed or not) is announced
    pub fn set_value(&mut self, color: &str) -> (r: ColorSwatchEvent)
        requires
            rgba_hex_slices_ok(hex_text(color@)),
        ensures
            color_alpha_reading(color@) matches Some(c) ==> final(self)@ == old(self)@.showing(
                Rgb { r: c.r, g: c.g, b: c.b },
                c.a,
            ),
            color_alpha_reading(color@) is None ==> final(self)@ == old(self)@,
            r matches ColorSwatchEvent::Change(v) && v@ == final(self)@.value,
    {
        self.set_value_internal(color);
        ColorSwatchEvent::Change(self.value.clone())
    }

    /// Take the colour `color` names, without an announcement.
    fn set_value_internal(&mut self, color: &str)
        requires
            rgba_hex_slices_ok(hex_text(color@)),
        ensures
            color_alpha_reading(color@) matches Some(c) ==> final(self)@ == old(self)@.showing(
                Rgb { r: c.r, g: c.g, b: c.b },
                c.a,
            ),
            color_alpha_reading(color@) is None ==> final(self)@ == old(self)@,
    {
        if let Some(rgba) = parse_color_alpha(color) {
            self.current_rgb = Rgb::new(rgba.r, rgba.g, rgba.b);
            self.current_alpha = rgba.a;
            self.value = format_value(self.current_rgb, rgba.a, self.with_alpha);
        }
    }

    /// The text field changed to `value`: a colour it names becomes the preview (its alpha
    /// is kept) and is announced; otherwise the input is marked invalid.
    pub fn handle_input_change(&mut self, value: &str) -> (r: Option<ColorSwatchEvent>)
        requires
            rgb_hex_slices_ok(hex_text(value@)),
        ensures
            color_reading(value@) matches Some(c) ==> {
                &&& final(self)@ == (ColorSwatchModel {
                    current_rgb: c,
                    value: swatch_value(c, 255, false),
                    input_is_valid: true,
                    ..old(self)@
                })
                &&& r matches Some(ColorSwatchEvent::Change(v)) && v@ == final(self)@.value
            },
            color_reading(value@) is None ==> final(self)@ == (ColorSwatchModel {
                input_is_valid: false,
                ..old(self)@
            }) && r is None,
    {
        if let Some(rgb) = parse_color(value) {
            self.current_rgb = rgb;
            self.value = rgb.to_hex();
            self.input_is_valid = true;
            Some(ColorSwatchEvent::Change(self.value.clone()))
        } else {
            self.input_is_valid = false;
            None
        }
    }

    /// The text field was committed (Enter or leaving it) with `value`: a colour it names,
    /// alpha included, becomes the value and is announced; otherwise the input is marked
    /// invalid. The field is then to show the value.
    pub fn handle_input_commit(&mut self, value: &str) -> (r: Option<ColorSwatchEvent>)
        requires
            rgba_hex_slices_ok(hex_text(value@)),
        ensures
            color_alpha_reading(value@) matches Some(c) ==> {
                &&& final(self)@ == (ColorSwatchModel {
                    input_is_valid: true,
                    ..old(self)@.showing(Rgb { r: c.r, g: c.g, b: c.b }, c.a)
                })
                &&& r matches Some(ColorSwatchEvent::Change(v)) && v@ == final(self)@.value
            },
            color_alpha_reading(value@) is None ==> final(self)@ == (ColorSwatchModel {
                input_is_valid: false,
                ..old(self)@
            }) && r is None,
    {
        if let Some(rgba) = parse_color_alpha(value) {
            self.current_rgb = Rgb::new(rgba.r, rgba.g, rgba.b);
            self.current_alpha = rgba.a;
            self.value = format_value(self.current_rgb, rgba.a, self.with_alpha);
            self.input_is_valid = true;
            Some(ColorSwatchEvent::Change(self.value.clone()))
        } else {
            self.input_is_valid = false;
            None
        }
    }

    /// Check if the current input is valid
    pub fn is_input_valid(&self) -> (r: bool)
        ensures
            r == self@.input_is_valid,
    {
        self.input_is_valid
    }

    /// Update from RGB values; the value is announced
    pub fn update_from_rgb(&mut self, r: u8, g: u8, b: u8) -> (e: ColorSwatchEvent)
        ensures
            final(self)@ == old(self)@.showing(Rgb { r, g, b }, old(self)@.current_alpha),
            e matches ColorSwatchEvent::Change(v) && v@ == final(self)@.value,
    {
        self.current_rgb = Rgb::new(r, g, b);
        self.sync_value()
    }

    /// The alpha slider set alpha `a`; the value is announced
    pub fn update_alpha(&mut self, a: u8) -> (e: ColorSwatchEvent)
        ensures
            final(self)@ == old(self)@.showing(old(self)@.current_rgb, a),
            e matches ColorSwatchEvent::Change(v) && v@ == final(self)@.value,
    {
        self.current_alpha = a;
        self.sync_value()
    }

    /// Sync the value text from the current colour; the value is announced
    pub fn sync_value(&mut self) -> (e: ColorSwatchEvent)
        ensures
            final(self)@ == old(self)@.showing(old(self)@.current_rgb, old(self)@.current_alpha),
            e matches ColorSwatchEvent::Change(v) && v@ == final(self)@.value,
    {
        self.value = format_value(self.current_rgb, self.current_alpha, self.with_alpha);
        ColorSwatchEvent::Change(self.value.clone())
    }

    /// Open the color picker popup, remembering the value it opened with
    pub fn open_picker(&mut self)
        ensures
            final(self)@ == (ColorSwatchModel {
                original_value: old(self)@.value,
                is_picker_open: true,
                ..old(self)@
            }),
    {
        self.original_value = self.value.clone();
        self.is_picker_open = true;
    }

    /// Close the color picker popup
    pub fn close_picker(&mut self)
        ensures
            final(self)@ == (ColorSwatchModel { is_picker_open: false, ..old(self)@ }),
    {
        self.is_picker_open = false;
    }

    /// Whether the picker popup is open
    pub fn is_picker_open(&self) -> (r: bool)
        ensures
            r == self@.is_picker_open,
    {
        self.is_picker_open
    }

    /// A click on the swatch of an enabled widget opens a closed picker and closes an open one.
    pub fn click_swatch(&mut self)
        ensures
            !old(self)@.enabled ==> final(self)@ == old(self)@,
            old(self)@.enabled && old(self)@.is_picker_open ==> final(self)@ == (ColorSwatchModel {
                is_picker_open: false,
                ..old(self)@
            }),
            old(self)@.enabled && !old(self)@.is_picker_open ==> final(self)@ == (ColorSwatchModel {
                original_value: old(self)@.value,
                is_picker_open: true,
                ..old(self)@
            }),
    {
        if !self.enabled {
            return;
        }
        if self.is_picker_open {
            self.close_picker();
        } else {
            self.open_picker();
        }
    }

    /// The value the text field is still to show after `with_value`, once: the first render
    /// takes it.
    pub fn take_input_sync(&mut self) -> (r: Option<String>)
        ensures
            final(self)@ == (ColorSwatchModel { needs_input_sync: false, ..old(self)@ }),
            old(self)@.needs_input_sync ==> (r matches Some(v) && v@ == old(self)@.value),
            !old(self)@.needs_input_sync ==> r is None,
    {
        if self.needs_input_sync {
            self.needs_input_sync = false;
            Some(self.value.clone())
        } else {
            None
        }
    }

    /// The current colour packed as `0xRRGGBBAA`, for display
    pub fn parse_display_color(&self) -> (r: u32)
        ensures
            r == packed(
                self@.current_rgb.r,
                self@.current_rgb.g,
                self@.current_rgb.b,
                self@.current_alpha,
            ),
    {
        Rgba {
            r: self.current_rgb.r,
            g: self.current_rgb.g,
            b: self.current_rgb.b,
            a: self.current_alpha,
        }.to_u32()
    }

    /// The colour the picker opened with, packed as `0xRRGGBBAA` (opaque black when it does
    /// not read as a colour)
    pub fn parse_original_color(&self) -> (r: u32)
        requires
            rgba_hex_slices_ok(hex_text(self@.original_value)),
        ensures
            color_alpha_reading(self@.original_value) matches Some(c) ==> r == packed(c.r, c.g, c.b, c.a),
            color_alpha_reading(self@.original_value) is None ==> r == 0x000000FF,
    {
        match parse_color_alpha(self.original_value.as_str()) {
            Some(c) => c.to_u32(),
            None => 0x000000FF,
        }
    }
}

/// The value the swatch writes can always be read back, and reads as the colour it was
/// written for: with its alpha when that was written, opaque otherwise.
pub proof fn law_value_reads_back(c: Rgb, alpha: u8, with_alpha: bool)
    ensures
        rgba_hex_slices_ok(hex_text(swatch_value(c, alpha, with_alpha))),
        color_alpha_reading(swatch_value(c, alpha, with_alpha)) == Some(
            Rgba {
                r: c.r,
                g: c.g,
                b: c.b,
                a: if with_alpha && alpha != 255 {
                    alpha
                } else {
                    255
                },
            },
        ),
{
    if with_alpha && alpha != 255 {
        crate::utils::color::law_rgba_hex_roundtrip(Rgba { r: c.r, g: c.g, b: c.b, a: alpha });
    } else {
        let pairs = hex2(c.r) + hex2(c.g) + hex2(c.b);
        crate::utils::color::lemma_hex2_plain(c.r);
        crate::utils::color::lemma_hex2_plain(c.g);
        crate::utils::color::lemma_hex2_plain(c.b);
        assert forall|i: int| 0 <= i < pairs.len() implies (#[trigger] pairs[i] as u32) < 128
            && !crate::utils::color::is_white_space(pairs[i]) && pairs[i] != '#' by {
            if i < 2 {
                assert(pairs[i] == hex2(c.r)[i]);
            } else if i < 4 {
                assert(pairs[i] == hex2(c.g)[i - 2]);
            } else {
                assert(pairs[i] == hex2(c.b)[i - 4]);
            }
        }
        crate::utils::color::lemma_pairs_hex_text(pairs);
        crate::utils::color::law_rgb_hex_roundtrip(c);
        assert(seq!['#'] + hex2(c.r) + hex2(c.g) + hex2(c.b) =~= seq!['#'] + pairs);
        crate::utils::color::lemma_hash_hex_text(pairs);
        crate::utils::text::lemma_ascii_offsets(pairs);
        crate::utils::text::lemma_offset_zero_end(pairs);
    }
}

} // verus!
