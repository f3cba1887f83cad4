use prettyprint::content::{decode_line, ContentType};
use prettyprint::printer::{
    ColorProtocol, InputFile, InteractivePrinter, OutputComponents, OutputWrap, Printer,
};
use prettyprint::style::{Color, FontStyle, Style, StyledSpan, ThemeSettings};
use syntect::easy::HighlightLines;
use syntect::highlighting::{Theme, ThemeSet};
use syntect::parsing::SyntaxSet;

struct PrintSettings {
    content_type: ContentType,
    grid: bool,
    header: bool,
    line_numbers: bool,
    colored_output: bool,
    true_color: bool,
    term_width: usize,
    tab_width: usize,
    output_wrap: OutputWrap,
    use_italic_text: bool,
    header_overwrite: bool,
    gutter_color: Option<Color>,
}

fn theme_settings_of(theme: &Theme, gutter_color: Option<Color>) -> ThemeSettings {
    let color = |c: Option<syntect::highlighting::Color>| {
        c.map(|c| Color { r: c.r, g: c.g, b: c.b, a: c.a })
    };
    ThemeSettings {
        foreground: color(theme.settings.foreground),
        background: color(theme.settings.background),
        gutter: color(theme.settings.gutter),
        gutter_foreground: gutter_color,
    }
}

fn a_printer(theme: &Theme, s: &PrintSettings) -> InteractivePrinter {
    let colorize_to = if !s.colored_output {
        ColorProtocol::Plain
    } else {
        ColorProtocol::Terminal { true_color: s.true_color, use_italic_text: s.use_italic_text }
    };
    InteractivePrinter::new2(
        s.content_type,
        OutputComponents { grid: s.grid, header: s.header, numbers: s.line_numbers },
        colorize_to,
        &theme_settings_of(theme, s.gutter_color),
        s.term_width,
        s.tab_width,
        s.output_wrap,
    )
}

fn color_of(c: syntect::highlighting::Color) -> Color {
    Color { r: c.r, g: c.g, b: c.b, a: c.a }
}

/// The spans that the highlighter makes of the text of a line.
fn highlighted(
    highlighter: &mut HighlightLines,
    syntax_set: &SyntaxSet,
    content_type: ContentType,
    line_buffer: &[u8],
) -> Vec<StyledSpan> {
    let line = match decode_line(content_type, line_buffer) {
        Some(line) => line,
        None => return Vec::new(),
    };
    highlighter
        .highlight(&line, syntax_set)
        .into_iter()
        .map(|(style, text)| StyledSpan {
            style: Style {
                foreground: color_of(style.foreground),
                background: color_of(style.background),
                font_style: FontStyle::from_bits(style.font_style.bits()),
            },
            text: text.to_string(),
        })
        .collect()
}

fn lines_with_endings(input: &str) -> Vec<&[u8]> {
    input.as_bytes().split_inclusive(|b| *b == b'\n').collect()
}

fn pretty_printed<P: Printer>(
    input: &str,
    printer: &mut P,
    highlighter: &mut HighlightLines,
    syntax_set: &SyntaxSet,
    content_type: ContentType,
    header_overwrite: bool,
) -> String {
    let mut output = String::new();
    const FERRIS: &str = "Ferris was here";
    let (fname, title) = if header_overwrite {
        ("", Some(FERRIS.to_string()))
    } else {
        ("Fer.rs", None)
    };
    output += &printer.print_header(&InputFile::Ordinary(fname.to_string()), title);
    let mut line_number: usize = 1;
    for line_buffer in lines_with_endings(input) {
        let regions = highlighted(highlighter, syntax_set, content_type, line_buffer);
        output += &printer.print_line(false, line_number, line_buffer, &regions);
        line_number += 1;
    }
    output += &printer.print_footer();
    output
}

fn output_for(settings: &PrintSettings, input: &str) -> String {
    let syntax_set = SyntaxSet::load_defaults_newlines();
    let theme_set = ThemeSet::load_defaults();
    let theme = &theme_set.themes["base16-ocean.dark"];
    let syntax = syntax_set.find_syntax_by_token("rust").unwrap();
    let mut highlighter = HighlightLines::new(syntax, theme);
    let mut printer = a_printer(theme, settings);
    pretty_printed(
        input,
        &mut printer,
        &mut highlighter,
        &syntax_set,
        settings.content_type,
        settings.header_overwrite,
    )
}

fn wrapped_settings() -> PrintSettings {
    PrintSettings {
        content_type: ContentType::Utf8,
        grid: true,
        header: false,
        line_numbers: true,
        colored_output: false,
        true_color: false,
        term_width: 20,
        tab_width: 4,
        output_wrap: OutputWrap::Character,
        use_italic_text: false,
        header_overwrite: false,
        gutter_color: None,
    }
}

#[test]
fn test_line_wrap() {
    const LINE: &str = r#"
const LINE: &str = "abc defghijklmno pqrs tuv wxyz";
"#;
    const EXPECTED: &str = r#"   1 │ 
   2 │ const LINE: &
     │ str = "abc de
     │ fghijklmno pq
     │ rs tuv wxyz";
─────┴──────────────
"#;
    let settings = wrapped_settings();
    let result = output_for(&settings, LINE);
    println!("{}", result);
    assert_eq!(result, EXPECTED);
}

/// Pretty prints some code with some more formatting shenanigans
#[test]
fn it_works_with_output_opts() {
    let syntax_set = SyntaxSet::load_defaults_newlines();
    let theme_set = ThemeSet::load_defaults();
    let theme = &theme_set.themes["base16-ocean.dark"];
    let settings = PrintSettings {
        content_type: ContentType::Utf8,
        grid: true,
        header: true,
        line_numbers: true,
        colored_output: true,
        true_color: true,
        term_width: 80,
        tab_width: 4,
        output_wrap: OutputWrap::NoWrap,
        use_italic_text: false,
        header_overwrite: true,
        gutter_color: None,
    };
    let syntax = syntax_set.find_syntax_by_token("ruby").unwrap();
    let mut highlighter = HighlightLines::new(syntax, theme);
    let mut printer = a_printer(theme, &settings);

    let example = r#"
        def fib(n)        
            return 1 if n <= 1
            fib(n-1) + fib(n-2)
        end
        "#;
    let mut output = String::new();
    output += &printer.print_header(
        &InputFile::Inline(example.to_string()),
        Some("example.rb".to_string()),
    );
    let mut line_number: usize = 1;
    for line_buffer in lines_with_endings(example) {
        let regions = highlighted(&mut highlighter, &syntax_set, ContentType::Utf8, line_buffer);
        output += &printer.print_line(false, line_number, line_buffer, &regions);
        line_number += 1;
    }
    output += &printer.print_footer();
    println!("{}", output);
    assert!(output.contains("example.rb"));
    assert!(output.contains("fib"));
    assert_eq!(output.lines().count(), 3 + 6 + 1);
}
