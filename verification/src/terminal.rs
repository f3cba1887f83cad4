//! Styles as terminal escape sequences: a foreground colour in 24 bits or
//! from the palette of 256 colours, and bold, italic and underline.
use crate::style::{Color, Style};
use crate::text::decimal;
use vstd::prelude::*;

verus! {

/// A colour as a terminal takes it.
#[derive(Clone, Copy, Debug, PartialEq, Eq, Structural)]
pub enum AnsiColor {
    /// An index into the palette of 256 colours.
    Fixed(u8),
    /// Red, green and blue in 24 bits.
    Rgb(u8, u8, u8),
}

/// What a terminal is told about a piece of text.
#[derive(Clone, Copy, Debug, PartialEq, Eq, Structural)]
pub struct AnsiStyle {
    pub foreground: Option<AnsiColor>,
    pub is_bold: bool,
    pub is_underline: bool,
    pub is_italic: bool,
}

/// The index in the palette of 256 colours that `ansi_colours` picks as the
/// nearest to a colour, from the cube of 6×6×6 colours and the ramp of
/// greys.
pub uninterp spec fn ansi256_index(r: u8, g: u8, b: u8) -> u8;

/// `codes` with `code` after it, a semicolon between them where both hold
/// something.
pub open spec fn sgr_join(codes: Seq<char>, code: Seq<char>) -> Seq<char> {
    if code.len() == 0 {
        codes
    } else if codes.len() == 0 {
        code
    } else {
        codes + seq![';'] + code
    }
}

/// The parameters that select a foreground colour.
pub open spec fn sgr_foreground(color: AnsiColor) -> Seq<char> {
    match color {
        AnsiColor::Fixed(n) => "38;5;"@ + decimal(n as nat),
        AnsiColor::Rgb(r, g, b) => "38;2;"@ + decimal(r as nat) + seq![';'] + decimal(g as nat)
            + seq![';'] + decimal(b as nat),
    }
}

/// All parameters of a style: 1 for bold, 3 for italic, 4 for underline,
/// then the foreground, separated by semicolons.
pub open spec fn sgr_params(style: AnsiStyle) -> Seq<char> {
    let bold = if style.is_bold { seq!['1'] } else { Seq::<char>::empty() };
    let italic = if style.is_italic { seq!['3'] } else { Seq::<char>::empty() };
    let underline = if style.is_underline { seq!['4'] } else { Seq::<char>::empty() };
    let foreground = match style.foreground {
        None => Seq::<char>::empty(),
        Some(color) => sgr_foreground(color),
    };
    sgr_join(sgr_join(sgr_join(bold, italic), underline), foreground)
}

/// Whether a style changes nothing.
pub open spec fn sgr_is_plain(style: AnsiStyle) -> bool {
    style.foreground is None && !style.is_bold && !style.is_underline && !style.is_italic
}

/// `text` as a terminal shows it in `style`: unchanged for a plain style,
/// else between `ESC [ parameters m` and the reset sequence `ESC [ 0 m`.
pub open spec fn sgr_painted(style: AnsiStyle, text: Seq<char>) -> Seq<char> {
    if sgr_is_plain(style) {
        text
    } else {
        seq!['\x1B', '['] + sgr_params(style) + seq!['m'] + text + seq!['\x1B', '[', '0', 'm']
    }
}

/// The terminal colour for `color`: itself with 24 bits of colour, else the
/// nearest entry of the palette.
pub open spec fn ansi_color_of(color: Color, true_color: bool) -> AnsiColor {
    if true_color {
        AnsiColor::Rgb(color.r, color.g, color.b)
    } else {
        AnsiColor::Fixed(ansi256_index(color.r, color.g, color.b))
    }
}

/// The terminal style for `style`. Italic is passed on only where italics
/// are in use; the background is never set.
pub open spec fn ansi_style_of(style: Style, true_color: bool, italics: bool) -> AnsiStyle {
    AnsiStyle {
        foreground: Some(ansi_color_of(style.foreground, true_color)),
        is_bold: style.font_style.bold,
        is_underline: style.font_style.underline,
        is_italic: italics && style.font_style.italic,
    }
}

/// `ansi_colours::ansi256_from_rgb` on a triple of red, green and blue. The
/// result is a function of the three components alone, and an entry of the
/// colour cube or the grey ramp, which start at 16: never one of the sixteen
/// colours below them.
#[verifier::external_body]
fn ansi256_from_rgb(r: u8, g: u8, b: u8) -> (index: u8)
    ensures
        index == ansi256_index(r, g, b),
        index >= 16,
{
    ansi_colours::ansi256_from_rgb((r, g, b))
}

/// `ansi_term::Style::paint`, written out as a string. A style that sets
/// nothing leaves the text as it is; any other puts `ESC [`, the style's
/// parameters and `m` before it and `ESC [ 0 m` after it. The parameters are
/// 1, 3 and 4 for bold, italic and underline, then `38;5;n` for a palette
/// colour or `38;2;r;g;b` for a 24-bit one, with semicolons between them.
#[verifier::external_body]
pub(crate) fn paint(style: AnsiStyle, text: &str) -> (out: String)
    ensures
        out@ == sgr_painted(style, text@),
{
    let foreground = match style.foreground {
        None => None,
        Some(AnsiColor::Fixed(n)) => Some(ansi_term::Colour::Fixed(n)),
        Some(AnsiColor::Rgb(r, g, b)) => Some(ansi_term::Colour::RGB(r, g, b)),
    };
    let ansi_style = ansi_term::Style {
        foreground,
        is_bold: style.is_bold,
        is_underline: style.is_underline,
        is_italic: style.is_italic,
        ..ansi_term::Style::default()
    };
    ansi_style.paint(text).to_string()
}

/// The terminal colour for `color`. A palette entry is one of the colour
/// cube or the grey ramp.
pub fn to_ansi_color(color: Color, true_color: bool) -> (ansi: AnsiColor)
    ensures
        ansi == ansi_color_of(color, true_color),
        ansi matches AnsiColor::Fixed(index) ==> index >= 16,
{
    if true_color {
        AnsiColor::Rgb(color.r, color.g, color.b)
    } else {
        AnsiColor::Fixed(ansi256_from_rgb(color.r, color.g, color.b))
    }
}

/// `text` between the escape sequences that show it in `style`.
pub fn as_terminal_escaped(style: Style, text: &str, true_color: bool, italics: bool) -> (out:
    String)
    ensures
        out@ == sgr_painted(ansi_style_of(style, true_color, italics), text@),
{
    let font_style = style.font_style;
    let ansi_style = AnsiStyle {
        foreground: Some(to_ansi_color(style.foreground, true_color)),
        is_bold: font_style.bold,
        is_underline: font_style.underline,
        is_italic: italics && font_style.italic,
    };
    paint(ansi_style, text)
}

} // verus!
