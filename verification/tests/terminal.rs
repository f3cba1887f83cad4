use prettyprint::style::{Color, FontStyle, Style};
use prettyprint::terminal::{as_terminal_escaped, to_ansi_color, AnsiColor};

const WHITE: Color = Color { r: 255, g: 255, b: 255, a: 255 };

fn text_in(r: u8, g: u8, b: u8, font_style: FontStyle) -> Style {
    Style { foreground: Color { r, g, b, a: 255 }, background: WHITE, font_style }
}

#[test]
fn true_color_keeps_the_components() {
    assert_eq!(to_ansi_color(Color { r: 255, g: 0, b: 0, a: 255 }, true), AnsiColor::Rgb(255, 0, 0));
    assert_eq!(to_ansi_color(Color { r: 1, g: 2, b: 3, a: 0 }, true), AnsiColor::Rgb(1, 2, 3));
}

#[test]
fn quantized_colors_come_from_the_palette() {
    assert_eq!(to_ansi_color(Color { r: 255, g: 0, b: 0, a: 255 }, false), AnsiColor::Fixed(196));
    assert_eq!(to_ansi_color(Color { r: 0, g: 0, b: 0, a: 255 }, false), AnsiColor::Fixed(16));
    assert_eq!(to_ansi_color(Color { r: 95, g: 135, b: 175, a: 255 }, false), AnsiColor::Fixed(67));
    assert_eq!(
        to_ansi_color(Color { r: 255, g: 255, b: 255, a: 255 }, false),
        AnsiColor::Fixed(231)
    );
    assert_eq!(
        to_ansi_color(Color { r: 128, g: 128, b: 128, a: 255 }, false),
        AnsiColor::Fixed(244)
    );
    // The default gutter colour is not special here.
    assert_eq!(to_ansi_color(Color { r: 68, g: 68, b: 68, a: 255 }, true), AnsiColor::Rgb(68, 68, 68));
}

#[test]
fn escaped_text_names_each_flag_once() {
    let none = FontStyle::empty();
    assert_eq!(
        as_terminal_escaped(text_in(255, 0, 0, none), "Text", true, false),
        "\u{1b}[38;2;255;0;0mText\u{1b}[0m"
    );
    assert_eq!(
        as_terminal_escaped(text_in(255, 0, 0, none), "Text", false, false),
        "\u{1b}[38;5;196mText\u{1b}[0m"
    );
    let bold = FontStyle { bold: true, underline: false, italic: false };
    let italic = FontStyle { bold: false, underline: false, italic: true };
    let underline = FontStyle { bold: false, underline: true, italic: false };
    assert_eq!(
        as_terminal_escaped(text_in(0, 10, 100, bold), "a", true, true),
        "\u{1b}[1;38;2;0;10;100ma\u{1b}[0m"
    );
    assert_eq!(
        as_terminal_escaped(text_in(0, 10, 100, italic), "a", true, true),
        "\u{1b}[3;38;2;0;10;100ma\u{1b}[0m"
    );
    assert_eq!(
        as_terminal_escaped(text_in(0, 10, 100, italic), "a", true, false),
        "\u{1b}[38;2;0;10;100ma\u{1b}[0m"
    );
    assert_eq!(
        as_terminal_escaped(text_in(0, 10, 100, underline), "a\nb", true, false),
        "\u{1b}[4;38;2;0;10;100ma\nb\u{1b}[0m"
    );
}

#[test]
fn quantized_colors_lie_in_the_cube_or_the_grey_ramp() {
    for r in (0..=255u8).step_by(5) {
        for g in (0..=255u8).step_by(5) {
            for b in (0..=255u8).step_by(5) {
                match to_ansi_color(Color { r, g, b, a: 255 }, false) {
                    AnsiColor::Fixed(index) => assert!(index >= 16),
                    AnsiColor::Rgb(..) => panic!("a palette colour was asked for"),
                }
            }
        }
    }
}
