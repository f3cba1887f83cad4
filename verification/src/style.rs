//! The styles that highlighted text carries: a colour, font flags, and the
//! handful of theme colours the renderer consults.
use vstd::prelude::*;

verus! {

/// An RGBA colour.
#[derive(Clone, Copy, Debug, PartialEq, Eq, Structural)]
pub struct Color {
    pub r: u8,
    pub g: u8,
    pub b: u8,
    pub a: u8,
}

impl Color {
    /// Opaque black.
    pub open spec fn spec_black() -> Color {
        Color { r: 0, g: 0, b: 0, a: 255 }
    }

    /// Opaque white.
    pub open spec fn spec_white() -> Color {
        Color { r: 255, g: 255, b: 255, a: 255 }
    }

    /// Opaque black.
    #[verifier::when_used_as_spec(spec_black)]
    pub fn black() -> (c: Color)
        ensures
            c == Color::spec_black(),
    {
        Color { r: 0, g: 0, b: 0, a: 255 }
    }

    /// Opaque white.
    #[verifier::when_used_as_spec(spec_white)]
    pub fn white() -> (c: Color)
        ensures
            c == Color::spec_white(),
    {
        Color { r: 255, g: 255, b: 255, a: 255 }
    }
}

/// The colour-independent styling of a font.
#[derive(Clone, Copy, Debug, PartialEq, Eq, Structural)]
pub struct FontStyle {
    pub bold: bool,
    pub underline: bool,
    pub italic: bool,
}

impl FontStyle {
    /// The flags packed into the low three bits of a byte: bold is 1,
    /// underline 2, italic 4.
    pub open spec fn spec_bits(self) -> nat {
        (if self.bold { 1nat } else { 0nat }) + (if self.underline { 2nat } else { 0nat }) + (
        if self.italic { 4nat } else { 0nat })
    }

    /// No flag set.
    pub fn empty() -> (f: FontStyle)
        ensures
            f == (FontStyle { bold: false, underline: false, italic: false }),
    {
        FontStyle { bold: false, underline: false, italic: false }
    }

    /// The flags as one byte.
    pub fn bits(self) -> (b: u8)
        ensures
            b == self.spec_bits(),
            b < 8,
    {
        let mut b: u8 = 0;
        if self.bold {
            b += 1;
        }
        if self.underline {
            b += 2;
        }
        if self.italic {
            b += 4;
        }
        b
    }

    /// The flags that the low three bits of `bits` stand for; higher bits
    /// are ignored.
    pub fn from_bits(bits: u8) -> (f: FontStyle)
        ensures
            f.bold == (bits % 2 == 1),
            f.underline == ((bits / 2) % 2 == 1),
            f.italic == ((bits / 4) % 2 == 1),
            bits < 8 ==> f.spec_bits() == bits,
    {
        FontStyle {
            bold: bits % 2 == 1,
            underline: (bits / 2) % 2 == 1,
            italic: (bits / 4) % 2 == 1,
        }
    }
}

/// Foreground and background colours with a font style.
#[derive(Clone, Copy, Debug, PartialEq, Eq, Structural)]
pub struct Style {
    pub foreground: Color,
    pub background: Color,
    pub font_style: FontStyle,
}

impl Default for Style {
    /// Black on white, no font flags.
    fn default() -> (s: Style)
        ensures
            s == (Style {
                foreground: Color::black(),
                background: Color::white(),
                font_style: FontStyle { bold: false, underline: false, italic: false },
            }),
    {
        Style {
            foreground: Color::black(),
            background: Color::white(),
            font_style: FontStyle::empty(),
        }
    }
}

/// A run of line text that shares one style.
#[derive(Clone, Debug)]
pub struct StyledSpan {
    pub style: Style,
    pub text: String,
}

impl View for StyledSpan {
    type V = (Style, Seq<char>);

    open spec fn view(&self) -> (Style, Seq<char>) {
        (self.style, self.text@)
    }
}

/// The colours of a theme that the renderer reads. A missing colour falls
/// back to a default where it is used.
#[derive(Clone, Copy, Debug, PartialEq, Eq, Structural)]
pub struct ThemeSettings {
    /// Default colour of text.
    pub foreground: Option<Color>,
    /// Background of the text area.
    pub background: Option<Color>,
    /// Background of the gutter.
    pub gutter: Option<Color>,
    /// Colour of line numbers and grid lines.
    pub gutter_foreground: Option<Color>,
}

impl Default for ThemeSettings {
    /// No colour set.
    fn default() -> (t: ThemeSettings)
        ensures
            t == (ThemeSettings {
                foreground: None,
                background: None,
                gutter: None,
                gutter_foreground: None,
            }),
    {
        ThemeSettings { foreground: None, background: None, gutter: None, gutter_foreground: None }
    }
}

} // verus!
