//! Styles in the protocol of the output: nothing at all, terminal escape
//! sequences, or HTML.
use crate::style::{Color, FontStyle, Style, ThemeSettings};
use crate::terminal::{
    ansi_color_of, ansi_style_of, as_terminal_escaped, paint, sgr_painted, to_ansi_color,
    AnsiColor, AnsiStyle,
};
use crate::text::{decimal, decimal_string};
use vstd::prelude::*;

verus! {

/// What opens an HTML document, up to the text area.
pub const START_HTML: &'static str =
    "<!DOCTYPE html>\n<html lang=\"en\">\n<head>\n<meta charset=\"utf-8\"/>\n<body>\n";

/// What closes the text area and the HTML document.
pub const END_HTML: &'static str = "</pre></body></html>\n";

/// The colour of the gutter where a theme names none: an opaque dark grey.
pub open spec fn default_gutter_color() -> Color {
    Color { r: 68, g: 68, b: 68, a: 255 }
}

/// The palette entry that has always stood for the default gutter colour
/// on terminals.
pub open spec fn legacy_gutter_color() -> AnsiColor {
    AnsiColor::Fixed(238)
}

/// The gutter colour of a theme.
pub open spec fn gutter_color_of(theme_settings: ThemeSettings) -> Color {
    match theme_settings.gutter_foreground {
        Some(color) => color,
        None => default_gutter_color(),
    }
}

/// The terminal colour of the gutter. The default gutter colour keeps its
/// palette entry, with or without 24 bits of colour; any other colour is
/// converted like the colour of text.
pub open spec fn gutter_ansi_color_of(color: Color, true_color: bool) -> AnsiColor {
    if color == default_gutter_color() {
        legacy_gutter_color()
    } else {
        ansi_color_of(color, true_color)
    }
}

/// The hexadecimal digit for `d`, in lower case.
pub open spec fn hex_digit(d: nat) -> char
    recommends
        d < 16,
{
    if d < 10 {
        (48 + d) as u8 as char
    } else {
        (87 + d) as u8 as char
    }
}

/// A byte as two hexadecimal digits.
pub open spec fn hex2(v: u8) -> Seq<char> {
    seq![hex_digit((v / 16) as nat), hex_digit((v % 16) as nat)]
}

/// A colour as CSS takes it: `#rrggbb`, with the alpha channel as a fourth
/// pair of digits unless the colour is opaque.
pub open spec fn css_color(color: Color) -> Seq<char> {
    seq!['#'] + hex2(color.r) + hex2(color.g) + hex2(color.b) + (if color.a != 255 {
        hex2(color.a)
    } else {
        Seq::<char>::empty()
    })
}

/// A character as it stands in HTML text.
pub open spec fn html_escaped_char(c: char) -> Seq<char> {
    if c == '<' {
        "&lt;"@
    } else if c == '>' {
        "&gt;"@
    } else if c == '&' {
        "&amp;"@
    } else if c == '\'' {
        "&#39;"@
    } else if c == '"' {
        "&quot;"@
    } else {
        seq![c]
    }
}

/// Text as it stands in HTML: each character escaped where HTML needs it.
pub open spec fn html_escaped(text: Seq<char>) -> Seq<char>
    decreases text.len(),
{
    if text.len() == 0 {
        Seq::<char>::empty()
    } else {
        html_escaped(text.drop_last()) + html_escaped_char(text.last())
    }
}

/// The CSS declarations for font flags and foreground colour.
pub open spec fn css_declarations(foreground: Color, font_style: FontStyle) -> Seq<char> {
    (if font_style.underline { "text-decoration:underline;"@ } else { Seq::<char>::empty() }) + (
    if font_style.bold { "font-weight:bold;"@ } else { Seq::<char>::empty() }) + (
    if font_style.italic { "font-style:italic;"@ } else { Seq::<char>::empty() }) + "color:"@
        + css_color(foreground) + seq![';']
}

/// `text` in one `span` element that carries font flags and foreground
/// colour in its `style` attribute.
pub open spec fn html_span(foreground: Color, font_style: FontStyle, text: Seq<char>) -> Seq<
    char,
> {
    "<span style=\""@ + css_declarations(foreground, font_style) + "\">"@ + html_escaped(text)
        + "</span>"@
}

/// The font flags that the low three bits of a byte stand for.
pub open spec fn font_style_of_bits(bits: u8) -> FontStyle {
    FontStyle { bold: bits % 2 == 1, underline: (bits / 2) % 2 == 1, italic: (bits / 4) % 2 == 1 }
}

/// `syntect::html::styled_line_to_highlighted_html` on a single span,
/// without background. It gives one `span` element: in its `style`
/// attribute the declarations for underline, bold and italic, as far as the
/// flags in the low three bits of `font_bits` are set, then `color:` with the
/// foreground as `#rrggbb` (or `#rrggbbaa` unless opaque); inside it the text
/// with `<`, `>`, `&`, `'` and `"` escaped. The background takes no part.
#[verifier::external_body]
fn styled_span_to_html(foreground: Color, background: Color, font_bits: u8, text: &str) -> (out:
    String)
    ensures
        out@ == html_span(foreground, font_style_of_bits(font_bits), text@),
{
    let style = syntect::highlighting::Style {
        foreground: syntect::highlighting::Color {
            r: foreground.r, g: foreground.g, b: foreground.b, a: foreground.a,
        },
        background: syntect::highlighting::Color {
            r: background.r, g: background.g, b: background.b, a: background.a,
        },
        font_style: syntect::highlighting::FontStyle::from_bits_truncate(font_bits),
    };
    syntect::html::styled_line_to_highlighted_html(
        &[(style, text)],
        syntect::html::IncludeBackground::No,
    )
}

/// The gutter colour of a theme.
pub fn gutter_color(theme_settings: &ThemeSettings) -> (color: Color)
    ensures
        color == gutter_color_of(*theme_settings),
{
    match theme_settings.gutter_foreground {
        Some(color) => color,
        None => Color { r: 68, g: 68, b: 68, a: 255 },
    }
}

/// The terminal colour of the gutter.
pub fn gutter_ansi_color(color: Color, true_color: bool) -> (ansi: AnsiColor)
    ensures
        ansi == gutter_ansi_color_of(color, true_color),
{
    if color.r == 68 && color.g == 68 && color.b == 68 && color.a == 255 {
        AnsiColor::Fixed(238)
    } else {
        to_ansi_color(color, true_color)
    }
}

/// Output without colours or font styles.
#[derive(Clone, Copy, Debug)]
pub struct ColorizePlain {
    /// Whether the output is an HTML document all the same.
    pub html: bool,
}

impl ColorizePlain {
    /// What opens the output: the head of a document and a bare text area
    /// for HTML, else nothing.
    pub open spec fn start_text(self) -> Seq<char> {
        if self.html {
            START_HTML@ + "<pre>"@
        } else {
            Seq::<char>::empty()
        }
    }

    /// What closes the output: the end of the document for HTML, else
    /// nothing.
    pub open spec fn finish_text(self) -> Seq<char> {
        if self.html {
            END_HTML@
        } else {
            Seq::<char>::empty()
        }
    }

    /// What opens the output.
    pub fn start(&self) -> (out: String)
        ensures
            out@ == self.start_text(),
    {
        if self.html {
            let mut out = String::from_str(START_HTML);
            out.append("<pre>");
            out
        } else {
            String::new()
        }
    }

    /// What closes the output.
    pub fn finish(&self) -> (out: String)
        ensures
            out@ == self.finish_text(),
    {
        if self.html {
            String::from_str(END_HTML)
        } else {
            String::new()
        }
    }

    /// The name of the file, unchanged.
    pub fn filename(&self, name: &str) -> (out: String)
        ensures
            out@ == name@,
    {
        String::from_str(name)
    }

    /// The text of the gutter, unchanged.
    pub fn gutter(&self, gutter_text: &str) -> (out: String)
        ensures
            out@ == gutter_text@,
    {
        String::from_str(gutter_text)
    }

    /// The text, unchanged whatever the style.
    pub fn region(&self, _style: Style, text: &str) -> (out: String)
        ensures
            out@ == text@,
    {
        String::from_str(text)
    }
}

/// Output as HTML with inline styles.
#[derive(Clone, Copy, Debug)]
pub struct ColorizeHtml {
    /// Style of the file name.
    pub file_style: Style,
    /// Style of the gutter and the grid.
    pub grid: Style,
    /// Background of the text area.
    pub background: Color,
}

impl ColorizeHtml {
    /// The colours that a theme gives to an HTML document: missing
    /// backgrounds are white, a missing foreground is black, and the file
    /// name is bold.
    pub open spec fn spec_new(theme_settings: ThemeSettings) -> ColorizeHtml {
        let background = match theme_settings.background {
            Some(color) => color,
            None => Color::white(),
        };
        ColorizeHtml {
            file_style: Style {
                foreground: match theme_settings.foreground {
                    Some(color) => color,
                    None => Color::black(),
                },
                background,
                font_style: FontStyle { bold: true, underline: false, italic: false },
            },
            grid: Style {
                foreground: gutter_color_of(theme_settings),
                background: match theme_settings.gutter {
                    Some(color) => color,
                    None => Color::white(),
                },
                font_style: FontStyle { bold: false, underline: false, italic: false },
            },
            background,
        }
    }

    /// What opens the document: its head, and a text area with the
    /// background as `rgb(r,g,b)`.
    pub open spec fn start_text(self) -> Seq<char> {
        START_HTML@ + "<pre style=\"background-color:rgb("@ + decimal(self.background.r as nat)
            + seq![','] + decimal(self.background.g as nat) + seq![','] + decimal(
            self.background.b as nat,
        ) + ");\">"@
    }

    /// What closes the text area and the document.
    pub open spec fn finish_text(self) -> Seq<char> {
        END_HTML@
    }

    /// Text in a `span` element with the foreground and the font flags of
    /// `style`.
    pub open spec fn region_text(self, style: Style, text: Seq<char>) -> Seq<char> {
        html_span(style.foreground, style.font_style, text)
    }

    /// The colours that a theme gives to an HTML document.
    pub fn new(theme_settings: &ThemeSettings) -> (colorize: ColorizeHtml)
        ensures
            colorize == ColorizeHtml::spec_new(*theme_settings),
    {
        let background = match theme_settings.background {
            Some(color) => color,
            None => Color::white(),
        };
        let grid = Style {
            foreground: gutter_color(theme_settings),
            background: match theme_settings.gutter {
                Some(color) => color,
                None => Color::white(),
            },
            font_style: FontStyle::empty(),
        };
        let file_style = Style {
            foreground: match theme_settings.foreground {
                Some(color) => color,
                None => Color::black(),
            },
            background,
            font_style: FontStyle { bold: true, underline: false, italic: false },
        };
        ColorizeHtml { file_style, grid, background }
    }

    /// What opens the document: its head, and a text area with the theme's
    /// background.
    pub fn start(&self) -> (out: String)
        ensures
            out@ == self.start_text(),
    {
        let b = self.background;
        let mut out = String::from_str(START_HTML);
        out.append("<pre style=\"background-color:rgb(");
        out.append(decimal_string(b.r as usize).as_str());
        out.push(',');
        out.append(decimal_string(b.g as usize).as_str());
        out.push(',');
        out.append(decimal_string(b.b as usize).as_str());
        out.append(");\">");
        out
    }

    /// What closes the text area and the document.
    pub fn finish(&self) -> (out: String)
        ensures
            out@ == self.finish_text(),
    {
        String::from_str(END_HTML)
    }

    /// The name of the file, bold and in the theme's foreground.
    pub fn filename(&self, name: &str) -> (out: String)
        ensures
            out@ == self.region_text(self.file_style, name@),
    {
        self.region(self.file_style, name)
    }

    /// The text of the gutter in the theme's gutter colour.
    pub fn gutter(&self, gutter_text: &str) -> (out: String)
        ensures
            out@ == self.region_text(self.grid, gutter_text@),
    {
        self.region(self.grid, gutter_text)
    }

    /// The text in a `span` element styled as `style` says.
    pub fn region(&self, style: Style, text: &str) -> (out: String)
        ensures
            out@ == self.region_text(style, text@),
    {
        let bits = style.font_style.bits();
        styled_span_to_html(style.foreground, style.background, bits, text)
    }
}

/// Output for a terminal, with escape sequences.
#[derive(Clone, Copy, Debug)]
pub struct ColorizeANSI {
    /// Whether colours are sent in 24 bits.
    pub true_color: bool,
    /// Whether italic text is sent as italic.
    pub use_italic_text: bool,
    /// Style of the file name.
    pub file_style: AnsiStyle,
    /// Style of the gutter and the grid.
    pub grid: AnsiStyle,
}

impl ColorizeANSI {
    /// The file name is bold whatever the theme; the gutter has the theme's
    /// gutter colour.
    pub open spec fn spec_new(
        theme_settings: ThemeSettings,
        true_color: bool,
        use_italic_text: bool,
    ) -> ColorizeANSI {
        ColorizeANSI {
            true_color,
            use_italic_text,
            file_style: AnsiStyle {
                foreground: None,
                is_bold: true,
                is_underline: false,
                is_italic: false,
            },
            grid: AnsiStyle {
                foreground: Some(
                    gutter_ansi_color_of(gutter_color_of(theme_settings), true_color),
                ),
                is_bold: false,
                is_underline: false,
                is_italic: false,
            },
        }
    }

    /// Text between the escape sequences for the foreground and the font
    /// flags of `style`.
    pub open spec fn region_text(self, style: Style, text: Seq<char>) -> Seq<char> {
        sgr_painted(ansi_style_of(style, self.true_color, self.use_italic_text), text)
    }

    /// The styles that a theme gives to output for a terminal.
    pub fn new(theme_settings: &ThemeSettings, true_color: bool, use_italic_text: bool) -> (colorize:
        ColorizeANSI)
        ensures
            colorize == ColorizeANSI::spec_new(*theme_settings, true_color, use_italic_text),
    {
        let file_style = AnsiStyle {
            foreground: None,
            is_bold: true,
            is_underline: false,
            is_italic: false,
        };
        let grid = AnsiStyle {
            foreground: Some(gutter_ansi_color(gutter_color(theme_settings), true_color)),
            is_bold: false,
            is_underline: false,
            is_italic: false,
        };
        ColorizeANSI { true_color, use_italic_text, file_style, grid }
    }

    /// The name of the file in the style for file names.
    pub fn filename(&self, name: &str) -> (out: String)
        ensures
            out@ == sgr_painted(self.file_style, name@),
    {
        paint(self.file_style, name)
    }

    /// The text of the gutter in the style of the gutter.
    pub fn gutter(&self, gutter_text: &str) -> (out: String)
        ensures
            out@ == sgr_painted(self.grid, gutter_text@),
    {
        paint(self.grid, gutter_text)
    }

    /// The text in the colour and with the font flags of `style`.
    pub fn region(&self, style: Style, text: &str) -> (out: String)
        ensures
            out@ == self.region_text(style, text@),
    {
        as_terminal_escaped(style, text, self.true_color, self.use_italic_text)
    }
}

/// The protocol of the output, chosen once for a session.
#[derive(Clone, Copy, Debug)]
pub enum Colorize {
    Plain(ColorizePlain),
    Html(ColorizeHtml),
    Terminal(ColorizeANSI),
}

impl Colorize {
    /// What opens the output: something only for an HTML document.
    pub open spec fn start_text(self) -> Seq<char> {
        match self {
            Colorize::Plain(plain) => plain.start_text(),
            Colorize::Html(html) => html.start_text(),
            Colorize::Terminal(_) => Seq::<char>::empty(),
        }
    }

    /// What closes the output: something only for an HTML document.
    pub open spec fn finish_text(self) -> Seq<char> {
        match self {
            Colorize::Plain(plain) => plain.finish_text(),
            Colorize::Html(html) => html.finish_text(),
            Colorize::Terminal(_) => Seq::<char>::empty(),
        }
    }

    /// The name of a file as the protocol shows it.
    pub open spec fn filename_text(self, name: Seq<char>) -> Seq<char> {
        match self {
            Colorize::Plain(_) => name,
            Colorize::Html(html) => html.region_text(html.file_style, name),
            Colorize::Terminal(ansi) => sgr_painted(ansi.file_style, name),
        }
    }

    /// Text of the gutter or the grid as the protocol shows it.
    pub open spec fn gutter_text(self, text: Seq<char>) -> Seq<char> {
        match self {
            Colorize::Plain(_) => text,
            Colorize::Html(html) => html.region_text(html.grid, text),
            Colorize::Terminal(ansi) => sgr_painted(ansi.grid, text),
        }
    }

    /// Text in a style as the protocol shows it.
    pub open spec fn region_text(self, style: Style, text: Seq<char>) -> Seq<char> {
        match self {
            Colorize::Plain(_) => text,
            Colorize::Html(html) => html.region_text(style, text),
            Colorize::Terminal(ansi) => ansi.region_text(style, text),
        }
    }

    /// What sets up the output.
    pub fn start(&self) -> (out: String)
        ensures
            out@ == self.start_text(),
    {
        match self {
            Colorize::Plain(plain) => plain.start(),
            Colorize::Html(html) => html.start(),
            Colorize::Terminal(_) => String::new(),
        }
    }

    /// What finishes the output.
    pub fn finish(&self) -> (out: String)
        ensures
            out@ == self.finish_text(),
    {
        match self {
            Colorize::Plain(plain) => plain.finish(),
            Colorize::Html(html) => html.finish(),
            Colorize::Terminal(_) => String::new(),
        }
    }

    /// The name of a file.
    pub fn filename(&self, name: &str) -> (out: String)
        ensures
            out@ == self.filename_text(name@),
    {
        match self {
            Colorize::Plain(plain) => plain.filename(name),
            Colorize::Html(html) => html.filename(name),
            Colorize::Terminal(ansi) => ansi.filename(name),
        }
    }

    /// Text of the gutter or the grid.
    pub fn gutter(&self, gutter_text: &str) -> (out: String)
        ensures
            out@ == self.gutter_text(gutter_text@),
    {
        match self {
            Colorize::Plain(plain) => plain.gutter(gutter_text),
            Colorize::Html(html) => html.gutter(gutter_text),
            Colorize::Terminal(ansi) => ansi.gutter(gutter_text),
        }
    }

    /// Text coloured and styled as `style` says.
    pub fn region(&self, style: Style, text: &str) -> (out: String)
        ensures
            out@ == self.region_text(style, text@),
    {
        match self {
            Colorize::Plain(plain) => plain.region(style, text),
            Colorize::Html(html) => html.region(style, text),
            Colorize::Terminal(ansi) => ansi.region(style, text),
        }
    }
}

/// The protocol for the given choices: plain unless colours are asked for,
/// else HTML or terminal escape sequences.
pub open spec fn colorize_for(
    html: bool,
    colored_output: bool,
    true_color: bool,
    use_italic_text: bool,
    theme_settings: ThemeSettings,
) -> Colorize {
    if !colored_output {
        Colorize::Plain(ColorizePlain { html })
    } else if html {
        Colorize::Html(ColorizeHtml::spec_new(theme_settings))
    } else {
        Colorize::Terminal(ColorizeANSI::spec_new(theme_settings, true_color, use_italic_text))
    }
}

/// The protocol for the given choices.
pub fn new_colorize(
    html: bool,
    colored_output: bool,
    true_color: bool,
    use_italic_text: bool,
    theme_settings: &ThemeSettings,
) -> (colorize: Colorize)
    ensures
        colorize == colorize_for(
            html,
            colored_output,
            true_color,
            use_italic_text,
            *theme_settings,
        ),
{
    if !colored_output {
        Colorize::Plain(ColorizePlain { html })
    } else if html {
        Colorize::Html(ColorizeHtml::new(theme_settings))
    } else {
        Colorize::Terminal(ColorizeANSI::new(theme_settings, true_color, use_italic_text))
    }
}

/// Without colours, text in any style comes out as it went in.
pub proof fn lemma_plain_is_identity(html: bool, style: Style, text: Seq<char>)
    ensures
        Colorize::Plain(ColorizePlain { html }).region_text(style, text) == text,
        Colorize::Plain(ColorizePlain { html }).gutter_text(text) == text,
        Colorize::Plain(ColorizePlain { html }).filename_text(text) == text,
{
}

} // verus!
