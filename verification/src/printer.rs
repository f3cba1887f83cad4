//! The printer of one rendering session: a header, the lines of the text,
//! each with its gutter and broken into rows where asked for, and a footer.
use crate::colorize::{new_colorize, Colorize};
use crate::content::{decode_line, decoded_line, ContentType};
use crate::frame::{Frame, FrameView};
use crate::preprocessor::lemma_expanded_without_tabs;
use crate::style::{StyledSpan, ThemeSettings};
use crate::wrap::{
    joined_text, lemma_plain_pieces_text, lemma_wrapped_rows_fit, lemma_wrapped_rows_full,
    lemma_wrapped_rows_keep_text, pieces_text, prepare_spans, prepared, row_len, rows_filled,
    rows_joined_text, rows_text, span_views, tab_column_after_spans, unwrapped_line, wrap_line,
    wrapped_rows, Piece,
};
use vstd::prelude::*;

verus! {

/// Which parts are drawn around the text.
#[derive(Clone, Copy, Debug, PartialEq, Eq, Structural)]
pub struct OutputComponents {
    pub grid: bool,
    pub header: bool,
    pub numbers: bool,
}

impl OutputComponents {
    /// Whether the grid is drawn.
    pub fn grid(&self) -> (b: bool)
        ensures
            b == self.grid,
    {
        self.grid
    }

    /// Whether the header is drawn.
    pub fn header(&self) -> (b: bool)
        ensures
            b == self.header,
    {
        self.header
    }

    /// Whether line numbers are drawn.
    pub fn numbers(&self) -> (b: bool)
        ensures
            b == self.numbers,
    {
        self.numbers
    }
}

/// What is done with lines wider than the terminal.
#[derive(Clone, Copy, Debug, PartialEq, Eq, Structural)]
pub enum OutputWrap {
    /// They are broken at the last character that fits.
    Character,
    /// They are left as they are.
    NoWrap,
}

/// The protocol in which colours and font styles are sent.
#[derive(Clone, Copy, Debug, PartialEq, Eq, Structural)]
pub enum ColorProtocol {
    Plain,
    Html,
    Terminal { true_color: bool, use_italic_text: bool },
}

/// Where the text comes from, as far as the header shows it.
#[derive(Clone, Debug)]
pub enum InputFile {
    /// A file with the given name.
    Ordinary(String),
    /// Text held in memory, which has no name.
    Inline(String),
}

/// The tag that the header shows after the name for content other than
/// plain text.
pub open spec fn mode_tag(content_type: ContentType) -> Seq<char> {
    match content_type {
        ContentType::Binary => "   <BINARY>"@,
        ContentType::Utf16Le => "   <UTF-16LE>"@,
        ContentType::Utf16Be => "   <UTF-16BE>"@,
        _ => Seq::<char>::empty(),
    }
}

/// What the header shows before the name, and the name: the given title
/// alone, or else the name of a file after `File: `, and nothing for text
/// without a name.
pub open spec fn header_title(file: InputFile, header_overwrite: Option<String>) -> (
    Seq<char>,
    Seq<char>,
) {
    match header_overwrite {
        Some(title) => (Seq::<char>::empty(), title@),
        None => match file {
            InputFile::Ordinary(name) => ("File: "@, name@),
            InputFile::Inline(_) => (Seq::<char>::empty(), Seq::<char>::empty()),
        },
    }
}

/// The protocol that a choice stands for.
pub open spec fn colorize_of(protocol: ColorProtocol, theme_settings: ThemeSettings) -> Colorize {
    match protocol {
        ColorProtocol::Plain => crate::colorize::colorize_for(
            false,
            false,
            false,
            false,
            theme_settings,
        ),
        ColorProtocol::Html => crate::colorize::colorize_for(
            true,
            true,
            false,
            false,
            theme_settings,
        ),
        ColorProtocol::Terminal { true_color, use_italic_text } => crate::colorize::colorize_for(
            false,
            true,
            true_color,
            use_italic_text,
            theme_settings,
        ),
    }
}

/// What is given to the printer for one line.
pub struct LineInput {
    /// Whether the line lies outside the range that is shown.
    pub out_of_range: bool,
    pub line_number: nat,
    /// The bytes of the line.
    pub bytes: Seq<u8>,
    /// The spans that the highlighter made of the text of the line.
    pub spans: Seq<Piece>,
}

/// What an [`InteractivePrinter`] stands for.
pub struct PrinterView {
    pub colorize: Colorize,
    pub frame: FrameView,
    pub content_type: ContentType,
    pub output_components: OutputComponents,
    pub tab_width: nat,
    pub output_wrap: OutputWrap,
}

impl PrinterView {
    /// The printer of a new session.
    pub open spec fn new(
        content_type: ContentType,
        output_components: OutputComponents,
        colorize_to: ColorProtocol,
        theme_settings: ThemeSettings,
        term_width: nat,
        tab_width: nat,
        output_wrap: OutputWrap,
    ) -> PrinterView {
        PrinterView {
            colorize: colorize_of(colorize_to, theme_settings),
            frame: FrameView::new(term_width, output_components.numbers, output_components.grid),
            content_type,
            output_components,
            tab_width,
            output_wrap,
        }
    }

    /// A rule across the terminal in the style of the gutter, on a row of
    /// its own.
    pub open spec fn rule_text(self, junction: char) -> Seq<char> {
        self.colorize.gutter_text(self.frame.horizontal_line(junction)) + seq!['\n']
    }

    /// The gutter in the style of the gutter; nothing without a gutter.
    pub open spec fn shown_gutter(self, gutter: Option<Seq<char>>) -> Seq<char> {
        match gutter {
            Some(text) => self.colorize.gutter_text(text),
            None => Seq::<char>::empty(),
        }
    }

    /// The header: nothing unless headers are shown; else, between two rules
    /// if the grid is drawn, the gutter of a continued row, the title and the
    /// tag of the content. The second rule closes the grid at once for binary
    /// content, whose lines are not shown.
    pub open spec fn header_text(self, title: (Seq<char>, Seq<char>)) -> Seq<char> {
        if !self.output_components.header {
            Seq::<char>::empty()
        } else {
            (if self.output_components.grid {
                self.rule_text('┬')
            } else {
                Seq::<char>::empty()
            }) + self.shown_gutter(self.frame.blank_gutter()) + title.0
                + self.colorize.filename_text(title.1) + mode_tag(self.content_type) + seq!['\n']
                + (if self.output_components.grid {
                self.rule_text(if self.content_type.is_text() { '┼' } else { '┴' })
            } else {
                Seq::<char>::empty()
            })
        }
    }

    /// The footer: the rule that closes the grid around text; nothing
    /// without a grid or after binary content.
    pub open spec fn footer_text(self) -> Seq<char> {
        if self.output_components.grid && self.content_type.is_text() {
            self.rule_text('┴')
        } else {
            Seq::<char>::empty()
        }
    }

    /// The printer after line `line_number` was shown: its gutter may be
    /// wider.
    pub open spec fn after_line(self, line_number: nat) -> PrinterView {
        PrinterView { frame: self.frame.numbered(line_number), ..self }
    }

    /// What lies between two rows of one line: a line break and the gutter
    /// of a continued row.
    pub open spec fn row_break(self) -> Seq<char> {
        seq!['\n'] + self.shown_gutter(self.frame.blank_gutter())
    }

    /// The text of a line after its gutter. Unwrapped, the spans follow each
    /// other as they are, and a line break is added unless the line ends in
    /// one. Wrapped, the spans lose their line ends, are broken into rows as
    /// wide as the frame leaves room for, and a line break follows.
    pub open spec fn body_text(self, line: Seq<char>, spans: Seq<Piece>) -> Seq<char> {
        match self.output_wrap {
            OutputWrap::NoWrap => pieces_text(
                self.colorize,
                prepared(spans, self.tab_width, false),
            ) + (if line.len() > 0 && line.last() == '\n' {
                Seq::<char>::empty()
            } else {
                seq!['\n']
            }),
            OutputWrap::Character => rows_text(
                self.colorize,
                self.wrapped_line_rows(spans),
                self.row_break(),
            ) + seq!['\n'],
        }
    }

    /// The rows of a wrapped line in this frame: the spans without their
    /// line ends and with tabs expanded, broken at the width that the frame
    /// leaves for text.
    pub open spec fn wrapped_line_rows(self, spans: Seq<Piece>) -> Seq<Seq<Piece>> {
        wrapped_rows(prepared(spans, self.tab_width, true), self.frame.cursor_max())
    }

    /// The rows of line `line_number` when it is wrapped: laid out in the
    /// frame as it is once the number has been shown.
    pub open spec fn line_rows(self, line_number: nat, spans: Seq<Piece>) -> Seq<Seq<Piece>> {
        self.after_line(line_number).wrapped_line_rows(spans)
    }

    /// Whether a line is shown: binary content has no lines to show, and a
    /// line out of range is passed over.
    pub open spec fn shows_line(self, out_of_range: bool) -> bool {
        !self.content_type.is_binary() && !out_of_range
    }

    /// What is sent for a line given by its bytes and the spans of its text:
    /// the line as decoded and laid out, or nothing where it is not shown.
    pub open spec fn printed_line(
        self,
        out_of_range: bool,
        line_number: nat,
        bytes: Seq<u8>,
        spans: Seq<Piece>,
    ) -> Seq<char> {
        if self.shows_line(out_of_range) {
            self.line_text(line_number, decoded_line(self.content_type, bytes)->0, spans)
        } else {
            Seq::<char>::empty()
        }
    }

    /// The printer after a line was given to it: as before where the line
    /// is not shown.
    pub open spec fn after_printed_line(self, out_of_range: bool, line_number: nat) -> PrinterView {
        if self.shows_line(out_of_range) {
            self.after_line(line_number)
        } else {
            self
        }
    }

    /// What is sent for several lines, one after the other.
    pub open spec fn printed_lines(self, lines: Seq<LineInput>) -> Seq<char>
        decreases lines.len(),
    {
        if lines.len() == 0 {
            Seq::<char>::empty()
        } else {
            self.printed_lines(lines.drop_last()) + self.after_printed_lines(
                lines.drop_last(),
            ).printed_line(
                lines.last().out_of_range,
                lines.last().line_number,
                lines.last().bytes,
                lines.last().spans,
            )
        }
    }

    /// The printer after several lines were given to it.
    pub open spec fn after_printed_lines(self, lines: Seq<LineInput>) -> PrinterView
        decreases lines.len(),
    {
        if lines.len() == 0 {
            self
        } else {
            self.after_printed_lines(lines.drop_last()).after_printed_line(
                lines.last().out_of_range,
                lines.last().line_number,
            )
        }
    }

    /// A whole session: header, lines, footer.
    pub open spec fn session_text(self, title: (Seq<char>, Seq<char>), lines: Seq<LineInput>) -> Seq<
        char,
    > {
        self.header_text(title) + self.printed_lines(lines) + self.after_printed_lines(
            lines,
        ).footer_text()
    }

    /// A line as it is sent: the gutter with the line number, then the text
    /// laid out in the frame as it is once the number has been shown.
    pub open spec fn line_text(self, line_number: nat, line: Seq<char>, spans: Seq<Piece>) -> Seq<
        char,
    > {
        self.shown_gutter(self.frame.numbered_gutter(line_number)) + self.after_line(
            line_number,
        ).body_text(line, spans)
    }
}

/// The three steps of a rendering session, in the order in which they are
/// taken: the header once, then each line, then the footer once. Each gives
/// the text to send.
pub trait Printer {
    /// What comes before the first line: the name of `file`, or the title
    /// given in its place.
    fn print_header(&mut self, file: &InputFile, header_overwrite: Option<String>) -> (out:
        String);

    /// What comes after the last line.
    fn print_footer(&mut self) -> (out: String);

    /// The line with the given number, from its bytes and the spans that a
    /// highlighter made of its text. A line that is out of range is not
    /// shown.
    fn print_line(
        &mut self,
        out_of_range: bool,
        line_number: usize,
        line_buffer: &[u8],
        regions: &Vec<StyledSpan>,
    ) -> (out: String);
}

/// A printer for terminals and documents. The highlighter is the caller's:
/// it is given the text of each line, as [`decode_line`] finds it in the
/// bytes, and the spans that it makes come here with the line.
pub struct InteractivePrinter {
    colorize: Colorize,
    frame: Frame,
    content_type: ContentType,
    output_components: OutputComponents,
    tab_width: usize,
    output_wrap: OutputWrap,
}

impl View for InteractivePrinter {
    type V = PrinterView;

    closed spec fn view(&self) -> PrinterView {
        PrinterView {
            colorize: self.colorize,
            frame: self.frame@,
            content_type: self.content_type,
            output_components: self.output_components,
            tab_width: self.tab_width as nat,
            output_wrap: self.output_wrap,
        }
    }
}

impl InteractivePrinter {
    /// The printer of a new session. `theme_settings` holds the colours of
    /// the theme that the frame is drawn in.
    pub fn new2(
        content_type: ContentType,
        output_components: OutputComponents,
        colorize_to: ColorProtocol,
        theme_settings: &ThemeSettings,
        term_width: usize,
        tab_width: usize,
        output_wrap: OutputWrap,
    ) -> (printer: Self)
        ensures
            printer@ == PrinterView::new(
                content_type,
                output_components,
                colorize_to,
                *theme_settings,
                term_width as nat,
                tab_width as nat,
                output_wrap,
            ),
    {
        let colorize = match colorize_to {
            ColorProtocol::Plain => new_colorize(false, false, false, false, theme_settings),
            ColorProtocol::Html => new_colorize(true, true, false, false, theme_settings),
            ColorProtocol::Terminal { true_color, use_italic_text } => new_colorize(
                false,
                true,
                true_color,
                use_italic_text,
                theme_settings,
            ),
        };
        let frame = Frame::new(term_width, output_components.numbers(), output_components.grid());
        InteractivePrinter {
            frame,
            colorize,
            content_type,
            output_components,
            tab_width,
            output_wrap,
        }
    }

    /// A rule across the terminal, on a row of its own.
    fn print_horizontal_line(&self, grid_char: char) -> (out: String)
        ensures
            out@ == self@.rule_text(grid_char),
    {
        let rule = self.frame.horizontal_line(grid_char);
        let mut out = self.colorize.gutter(rule.as_str());
        out.push('\n');
        out
    }

    /// One line with its gutter, from its text and the spans that a
    /// highlighter made of it. This is for a caller that has the text of the
    /// line at hand, as it is or with something put in place of characters
    /// that would not show; the text tells whether the line ends in a line
    /// break.
    pub fn render_line(&mut self, line_number: usize, line: &str, regions: &Vec<StyledSpan>) -> (out:
        String)
        ensures
            out@ == old(self)@.line_text(line_number as nat, line@, span_views(regions@)),
            final(self)@ == old(self)@.after_line(line_number as nat),
    {
        let mut out = String::new();
        if let Some(gutter_text) = self.frame.numbered_gutter(line_number) {
            let shown = self.colorize.gutter(gutter_text.as_str());
            out.append(shown.as_str());
        }
        match self.output_wrap {
            OutputWrap::NoWrap => {
                let pieces = prepare_spans(regions, self.tab_width, false);
                let body = unwrapped_line(&self.colorize, &pieces);
                out.append(body.as_str());
                let len = line.unicode_len();
                if !(len > 0 && line.get_char(len - 1) == '\n') {
                    out.push('\n');
                }
            },
            OutputWrap::Character => {
                let pieces = prepare_spans(regions, self.tab_width, true);
                let cursor_max = self.frame.cursor_max();
                let mut row_break = String::new();
                row_break.push('\n');
                if let Some(gutter_text) = self.frame.blank_gutter() {
                    let shown = self.colorize.gutter(gutter_text.as_str());
                    row_break.append(shown.as_str());
                }
                let body = wrap_line(&self.colorize, &pieces, cursor_max, row_break.as_str());
                out.append(body.as_str());
                out.push('\n');
            },
        }
        out
    }
}

impl Printer for InteractivePrinter {
    /// The header of the session.
    fn print_header(&mut self, file: &InputFile, header_overwrite: Option<String>) -> (out: String)
        ensures
            out@ == old(self)@.header_text(header_title(*file, header_overwrite)),
            final(self)@ == old(self)@,
    {
        if !self.output_components.header() {
            return String::new();
        }
        let mut out = String::new();
        if self.output_components.grid() {
            let rule = self.print_horizontal_line('┬');
            out.append(rule.as_str());
        }
        if let Some(gutter_text) = self.frame.blank_gutter() {
            let shown = self.colorize.gutter(gutter_text.as_str());
            out.append(shown.as_str());
        }
        let (prefix, name): (&str, String) = match header_overwrite {
            Some(overwrite) => ("", overwrite),
            None => match file {
                InputFile::Ordinary(filename) => ("File: ", filename.clone()),
                InputFile::Inline(_) => ("", String::new()),
            },
        };
        let mode: &str = match self.content_type {
            ContentType::Binary => "   <BINARY>",
            ContentType::Utf16Le => "   <UTF-16LE>",
            ContentType::Utf16Be => "   <UTF-16BE>",
            _ => "",
        };
        proof {
            reveal_strlit("");
        }
        out.append(prefix);
        let shown = self.colorize.filename(name.as_str());
        out.append(shown.as_str());
        out.append(mode);
        out.push('\n');
        if self.output_components.grid() {
            let rule = if self.content_type.is_text() {
                self.print_horizontal_line('┼')
            } else {
                self.print_horizontal_line('┴')
            };
            out.append(rule.as_str());
        }
        out
    }

    /// The footer of the session.
    fn print_footer(&mut self) -> (out: String)
        ensures
            out@ == old(self)@.footer_text(),
            final(self)@ == old(self)@,
    {
        if self.output_components.grid() && self.content_type.is_text() {
            self.print_horizontal_line('┴')
        } else {
            String::new()
        }
    }

    /// One line from its bytes and its spans: nothing for binary content
    /// and for a line out of range; else the gutter and the spans laid out.
    /// The bytes tell whether the line ends in a line break.
    fn print_line(
        &mut self,
        out_of_range: bool,
        line_number: usize,
        line_buffer: &[u8],
        regions: &Vec<StyledSpan>,
    ) -> (out: String)
        ensures
            out@ == old(self)@.printed_line(
                out_of_range,
                line_number as nat,
                line_buffer@,
                span_views(regions@),
            ),
            final(self)@ == old(self)@.after_printed_line(out_of_range, line_number as nat),
    {
        match decode_line(self.content_type, line_buffer) {
            None => String::new(),
            Some(line) => {
                if out_of_range {
                    String::new()
                } else {
                    self.render_line(line_number, line.as_str(), regions)
                }
            },
        }
    }
}

/// Rendering is a function of the configuration and the input: two
/// printers in the same state send the same text for the same title and the
/// same lines, each line given by its bytes and its spans, and are in the
/// same state afterwards.
pub proof fn lemma_rendering_is_deterministic(
    first: PrinterView,
    second: PrinterView,
    title: (Seq<char>, Seq<char>),
    lines: Seq<LineInput>,
)
    requires
        first == second,
    ensures
        first.header_text(title) == second.header_text(title),
        first.printed_lines(lines) == second.printed_lines(lines),
        first.after_printed_lines(lines) == second.after_printed_lines(lines),
        first.after_printed_lines(lines).footer_text() == second.after_printed_lines(
            lines,
        ).footer_text(),
        first.session_text(title, lines) == second.session_text(title, lines),
{
}

/// Two printers made from the same choices are in the same state, so they
/// send the same text for the same session.
pub proof fn lemma_same_choices_same_session(
    content_type: ContentType,
    output_components: OutputComponents,
    colorize_to: ColorProtocol,
    theme_settings: ThemeSettings,
    term_width: nat,
    tab_width: nat,
    output_wrap: OutputWrap,
    first: PrinterView,
    second: PrinterView,
    title: (Seq<char>, Seq<char>),
    lines: Seq<LineInput>,
)
    requires
        first == PrinterView::new(
            content_type,
            output_components,
            colorize_to,
            theme_settings,
            term_width,
            tab_width,
            output_wrap,
        ),
        second == PrinterView::new(
            content_type,
            output_components,
            colorize_to,
            theme_settings,
            term_width,
            tab_width,
            output_wrap,
        ),
    ensures
        first.session_text(title, lines) == second.session_text(title, lines),
        first.after_printed_lines(lines) == second.after_printed_lines(lines),
{
}

/// Whether no span holds a tab.
pub open spec fn without_tabs(spans: Seq<Piece>) -> bool {
    forall|i: int, j: int|
        0 <= i < spans.len() && 0 <= j < spans[i].1.len() ==> (#[trigger] spans[i].1[j]) != '\t'
}

/// Without colours and without wrapping, the text of a line after its
/// gutter is the text of its spans in order, and a line break unless the
/// line ends in one. This holds where tabs are not expanded or there is no
/// tab.
pub proof fn lemma_plain_unwrapped_round_trip(v: PrinterView, line: Seq<char>, spans: Seq<Piece>)
    requires
        v.colorize is Plain,
        v.output_wrap is NoWrap,
        v.tab_width == 0 || without_tabs(spans),
    ensures
        v.body_text(line, spans) == joined_text(spans) + (if line.len() > 0 && line.last()
            == '\n' {
            Seq::<char>::empty()
        } else {
            seq!['\n']
        }),
{
    let laid_out = prepared(spans, v.tab_width, false);
    assert(laid_out =~= spans) by {
        assert forall|i: int| 0 <= i < spans.len() implies laid_out[i] == spans[i] by {
            if v.tab_width > 0 {
                lemma_expanded_without_tabs(
                    spans[i].1,
                    v.tab_width,
                    tab_column_after_spans(spans.take(i), v.tab_width, false),
                );
            }
        }
    }
    lemma_plain_pieces_text(v.colorize->Plain_0.html, spans);
}

/// Without colours and without wrapping, a line is sent as its gutter,
/// the text of its spans in order, and a line break unless the line ends in
/// one. This holds where tabs are not expanded or there is no tab.
pub proof fn lemma_plain_unwrapped_line(
    v: PrinterView,
    line_number: nat,
    line: Seq<char>,
    spans: Seq<Piece>,
)
    requires
        v.colorize is Plain,
        v.output_wrap is NoWrap,
        v.tab_width == 0 || without_tabs(spans),
    ensures
        v.line_text(line_number, line, spans) == (match v.frame.numbered_gutter(line_number) {
            Some(gutter) => gutter,
            None => Seq::<char>::empty(),
        }) + joined_text(spans) + (if line.len() > 0 && line.last() == '\n' {
            Seq::<char>::empty()
        } else {
            seq!['\n']
        }),
{
    lemma_plain_unwrapped_round_trip(v.after_line(line_number), line, spans);
}

/// Wrapping loses and adds no character: the rows of a wrapped line, read
/// one after the other, hold the text of the spans as laid out, in order.
pub proof fn lemma_wrapped_rows_round_trip(v: PrinterView, spans: Seq<Piece>)
    ensures
        rows_joined_text(v.wrapped_line_rows(spans)) == joined_text(
            prepared(spans, v.tab_width, true),
        ),
{
    lemma_wrapped_rows_keep_text(prepared(spans, v.tab_width, true), v.frame.cursor_max());
}

/// No row of a wrapped line holds more visible characters than the
/// terminal has columns beside the gutter. This holds wherever the gutter
/// leaves at least one column.
pub proof fn lemma_line_rows_fit(v: PrinterView, line_number: nat, spans: Seq<Piece>)
    requires
        v.frame.numbered(line_number).gutter_width() < v.frame.term_width,
    ensures
        forall|i: int|
            0 <= i < v.line_rows(line_number, spans).len() ==> row_len(
                #[trigger] v.line_rows(line_number, spans)[i],
            ) <= v.frame.term_width - v.frame.numbered(line_number).gutter_width(),
{
    let after = v.after_line(line_number);
    lemma_wrapped_rows_fit(prepared(spans, v.tab_width, true), after.frame.cursor_max());
}

/// A wrapped line is broken only where a row is full: every row but the
/// last holds exactly as many visible characters as the terminal has
/// columns beside the gutter, and a last row after others is not empty.
/// This holds wherever the gutter leaves at least one column.
pub proof fn lemma_line_rows_full(v: PrinterView, line_number: nat, spans: Seq<Piece>)
    requires
        v.frame.numbered(line_number).gutter_width() < v.frame.term_width,
    ensures
        rows_filled(
            v.line_rows(line_number, spans),
            (v.frame.term_width - v.frame.numbered(line_number).gutter_width()) as nat,
        ),
        v.line_rows(line_number, spans).len() > 1 ==> row_len(
            v.line_rows(line_number, spans).last(),
        ) > 0,
{
    let after = v.after_line(line_number);
    lemma_wrapped_rows_full(prepared(spans, v.tab_width, true), after.frame.cursor_max());
}

} // verus!
