use prettyprint::colorize::new_colorize;
use prettyprint::style::{Color, FontStyle, Style, StyledSpan, ThemeSettings};
use prettyprint::wrap::{prepare_spans, trim_line_end, unwrapped_line, wrap_line};

fn span(r: u8, text: &str) -> StyledSpan {
    StyledSpan {
        style: Style {
            foreground: Color { r, g: 0, b: 0, a: 255 },
            background: Color { r: 255, g: 255, b: 255, a: 255 },
            font_style: FontStyle::empty(),
        },
        text: text.to_string(),
    }
}

fn texts(spans: &[StyledSpan]) -> Vec<&str> {
    spans.iter().map(|s| s.text.as_str()).collect()
}

#[test]
fn line_ends_are_trimmed() {
    assert_eq!(trim_line_end("abc\n"), "abc");
    assert_eq!(trim_line_end("abc\r\n"), "abc");
    assert_eq!(trim_line_end("abc\n\r\r\n"), "abc");
    assert_eq!(trim_line_end("a\nbc"), "a\nbc");
    assert_eq!(trim_line_end("\n"), "");
    assert_eq!(trim_line_end(""), "");
    assert_eq!(trim_line_end("é\n"), "é");
}

#[test]
fn spans_are_prepared_in_order() {
    let spans = vec![span(1, "a\t"), span(2, "b\tc\r\n"), span(3, "\n")];
    let kept = prepare_spans(&spans, 4, false);
    assert_eq!(texts(&kept), vec!["a   ", "b   c\r\n", "\n"]);
    let trimmed = prepare_spans(&spans, 4, true);
    assert_eq!(texts(&trimmed), vec!["a   ", "b   c", ""]);
    let unexpanded = prepare_spans(&spans, 0, true);
    assert_eq!(texts(&unexpanded), vec!["a\t", "b\tc", ""]);
    for (before, after) in spans.iter().zip(trimmed.iter()) {
        assert_eq!(before.style, after.style);
    }
    assert!(prepare_spans(&[].to_vec(), 4, true).is_empty());
}

#[test]
fn plain_rows_hold_the_text_in_order() {
    let plain = new_colorize(false, false, false, false, &ThemeSettings::default());
    let spans = vec![span(1, "abcd"), span(2, "efghij"), span(3, "k")];
    assert_eq!(unwrapped_line(&plain, &spans), "abcdefghijk");
    assert_eq!(wrap_line(&plain, &spans, 11, "\n| "), "abcdefghijk");
    assert_eq!(wrap_line(&plain, &spans, 100, "\n| "), "abcdefghijk");
    assert_eq!(wrap_line(&plain, &spans, 5, "\n| "), "abcde\n| fghij\n| k");
    assert_eq!(wrap_line(&plain, &spans, 4, "\n"), "abcd\nefgh\nijk");
    assert_eq!(wrap_line(&plain, &spans, 1, "/"), "a/b/c/d/e/f/g/h/i/j/k");
    assert_eq!(wrap_line(&plain, &[].to_vec(), 5, "\n"), "");
    assert_eq!(wrap_line(&plain, &vec![span(1, "")], 5, "\n"), "");
}

#[test]
fn no_row_is_longer_than_the_width() {
    let plain = new_colorize(false, false, false, false, &ThemeSettings::default());
    let spans =
        vec![span(1, "const LINE: "), span(2, "&str"), span(3, " = \"añb défghijklmno pqrs\";")];
    let all: String = spans.iter().map(|s| s.text.as_str()).collect();
    for width in 1..40 {
        let out = wrap_line(&plain, &spans, width, "\n");
        let rows: Vec<&str> = out.split('\n').collect();
        for row in &rows {
            assert!(row.chars().count() <= width);
        }
        for row in &rows[..rows.len() - 1] {
            assert_eq!(row.chars().count(), width);
        }
        assert_eq!(rows.concat(), all);
    }
}

#[test]
fn a_width_of_zero_does_not_break_the_line() {
    let plain = new_colorize(false, false, false, false, &ThemeSettings::default());
    let spans = vec![span(1, "abcd"), span(2, "efghij")];
    assert_eq!(wrap_line(&plain, &spans, 0, "\n"), "abcdefghij");
}

#[test]
fn a_span_is_split_where_the_row_is_full() {
    let terminal = new_colorize(false, true, true, false, &ThemeSettings::default());
    let spans = vec![span(1, "abcd"), span(2, "efg")];
    assert_eq!(
        unwrapped_line(&terminal, &spans),
        "\u{1b}[38;2;1;0;0mabcd\u{1b}[0m\u{1b}[38;2;2;0;0mefg\u{1b}[0m"
    );
    assert_eq!(
        wrap_line(&terminal, &spans, 3, "\n> "),
        "\u{1b}[38;2;1;0;0mabc\u{1b}[0m\n> \u{1b}[38;2;1;0;0md\u{1b}[0m\
         \u{1b}[38;2;2;0;0mef\u{1b}[0m\n> \u{1b}[38;2;2;0;0mg\u{1b}[0m"
    );
    // A span that starts where the row is full goes to the next row whole.
    assert_eq!(
        wrap_line(&terminal, &spans, 4, "\n"),
        "\u{1b}[38;2;1;0;0mabcd\u{1b}[0m\u{1b}[38;2;2;0;0m\u{1b}[0m\n\
         \u{1b}[38;2;2;0;0mefg\u{1b}[0m"
    );
}
