use prettyprint::decorations::{Decoration, GridBorderDecoration, LineNumberDecoration};
use prettyprint::preprocessor::{expand_tabs, preprocess};
use prettyprint::style::FontStyle;
use prettyprint::text::{decimal_string, pad_left, repeat_char};

#[test]
fn decimal_strings() {
    assert_eq!(decimal_string(0), "0");
    assert_eq!(decimal_string(7), "7");
    assert_eq!(decimal_string(10), "10");
    assert_eq!(decimal_string(9999), "9999");
    assert_eq!(decimal_string(10000), "10000");
    assert_eq!(decimal_string(1234567890), "1234567890");
    assert_eq!(decimal_string(usize::MAX), usize::MAX.to_string());
}

#[test]
fn padding_and_repeating() {
    assert_eq!(repeat_char('─', 0), "");
    assert_eq!(repeat_char('─', 3), "───");
    assert_eq!(pad_left("1", 4), "   1");
    assert_eq!(pad_left("1234", 4), "1234");
    assert_eq!(pad_left("12345", 4), "12345");
    assert_eq!(pad_left("é", 3), "  é");
}

#[test]
fn font_flags_as_bits() {
    assert_eq!(FontStyle::empty().bits(), 0);
    assert_eq!(FontStyle { bold: true, underline: false, italic: false }.bits(), 1);
    assert_eq!(FontStyle { bold: false, underline: true, italic: false }.bits(), 2);
    assert_eq!(FontStyle { bold: false, underline: false, italic: true }.bits(), 4);
    for bits in 0u8..8 {
        assert_eq!(FontStyle::from_bits(bits).bits(), bits);
    }
    assert_eq!(FontStyle::from_bits(0xf9), FontStyle { bold: true, underline: false, italic: false });
}

#[test]
fn tabs_reach_the_next_stop() {
    let mut cursor = 0;
    assert_eq!(expand_tabs("\tx", 4, &mut cursor), "    x");
    assert_eq!(cursor, 1);
    let mut cursor = 0;
    assert_eq!(expand_tabs("a\tbc\t\td", 4, &mut cursor), "a   bc      d");
    assert_eq!(cursor, 1);
    let mut cursor = 0;
    assert_eq!(expand_tabs("abcd\t", 4, &mut cursor), "abcd    ");
    assert_eq!(cursor, 0);
    let mut cursor = 0;
    assert_eq!(expand_tabs("é\t|", 8, &mut cursor), "é       |");
    assert_eq!(cursor, 1);
    let mut cursor = 0;
    assert_eq!(expand_tabs("\t", 1, &mut cursor), " ");
    assert_eq!(cursor, 0);
}

#[test]
fn tab_stops_carry_over_from_one_text_to_the_next() {
    let mut cursor = 0;
    assert_eq!(expand_tabs("ab", 4, &mut cursor), "ab");
    assert_eq!(cursor, 2);
    assert_eq!(expand_tabs("\tc", 4, &mut cursor), "  c");
    assert_eq!(cursor, 1);
    // Only the distance from the last tab stop counts.
    let mut cursor = 10;
    assert_eq!(expand_tabs("\t", 4, &mut cursor), "  ");
    assert_eq!(cursor, 0);
}

#[test]
fn a_tab_width_of_zero_leaves_tabs() {
    let mut cursor = 3;
    assert_eq!(preprocess("a\tb", 0, &mut cursor), "a\tb");
    assert_eq!(cursor, 3);
    let mut cursor = 3;
    assert_eq!(preprocess("a\tb", 8, &mut cursor), "a    b");
    assert_eq!(cursor, 1);
}

#[test]
fn line_number_decoration() {
    let decoration = LineNumberDecoration::new();
    assert_eq!(decoration.width(), 4);
    let first = decoration.generate(1, false);
    assert_eq!((first.text.as_str(), first.width), ("   1", 4));
    let wide = decoration.generate(123456, false);
    assert_eq!((wide.text.as_str(), wide.width), ("123456", 6));
    for line_number in &[1, 9999] {
        let continued = decoration.generate(*line_number, true);
        assert_eq!((continued.text.as_str(), continued.width), ("    ", 4));
    }
    for line_number in &[10000, 10001, 99999] {
        let continued = decoration.generate(*line_number, true);
        assert_eq!((continued.text.as_str(), continued.width), ("     ", 5));
    }
    let continued = decoration.generate(100000, true);
    assert_eq!((continued.text.as_str(), continued.width), ("      ", 6));
    // Beside every row of a line the decoration is equally wide.
    for line_number in &[0, 1, 9999, 10000, 10001, 123456, usize::MAX] {
        let first = decoration.generate(*line_number, false);
        let continued = decoration.generate(*line_number, true);
        assert_eq!(first.width, continued.width);
        assert_eq!(continued.text, " ".repeat(first.width));
        assert_eq!(first.text.trim_start(), line_number.to_string());
    }
    let copy = continued.clone();
    assert_eq!((copy.text, copy.width), (continued.text, continued.width));
}

#[test]
fn grid_border_decoration() {
    let decoration = GridBorderDecoration::new();
    assert_eq!(decoration.width(), 1);
    for continuation in &[false, true] {
        let border = decoration.generate(17, *continuation);
        assert_eq!((border.text.as_str(), border.width), ("│", 1));
    }
}
